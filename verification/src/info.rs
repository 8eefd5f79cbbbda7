//! The delivery-time envelope describing one pending signal.

use vstd::prelude::*;

use crate::signal::Signal;

verus! {

/// The origin tag stored alongside a siginfo record.
#[derive(Clone, Copy, PartialEq, Eq, Structural, Debug)]
pub enum SigCode {
    /// Sent by a user process through `kill`.
    SiUser,
    /// Sent by the kernel itself.
    SiKernel,
    /// Sent through `sigqueue`.
    SiQueue,
    /// Raised by a timer expiry.
    SiTimer,
    /// Raised by a message-queue state change.
    SiMesgq,
    /// Raised by completed asynchronous I/O.
    SiAsyncio,
    /// Sent through `tkill` or `tgkill`.
    SiTkill,
}

/// A process identifier, as carried in the envelope's source field.
#[derive(Clone, Copy, PartialEq, Eq, Structural, Debug)]
pub struct Pid(pub u64);

impl Pid {
    /// The numeric identifier.
    pub open spec fn spec_value(self) -> u64 {
        self.0
    }

    #[verifier::when_used_as_spec(spec_value)]
    pub fn value(self) -> (r: u64)
        ensures
            r == self.spec_value(),
    {
        self.0
    }

    /// Builds the identifier of process `num`.
    pub fn new(num: u64) -> (r: Pid)
        ensures
            r.spec_value() == num,
    {
        Pid(num)
    }
}

/// The signal-specific detail of an envelope.  Only the `kill` origin is
/// carried today; the variant is open for future detail kinds.
#[derive(Clone, Copy, PartialEq, Eq, Structural, Debug)]
pub enum SigType {
    /// Sent by the process with the given identifier.
    Kill(Pid),
}

/// The envelope describing one pending signal: number, cause, errno slot,
/// alignment padding and the source detail.  It is constructed by the
/// sender, owned by the queue while pending, and copied by value on
/// collection.
#[derive(Clone, Copy, PartialEq, Eq, Structural, Debug)]
pub struct SigInfo {
    pub sig_no: i32,
    pub sig_code: SigCode,
    pub errno: i32,
    pub reserved: u32,
    pub sig_type: SigType,
}

impl SigInfo {
    /// The signal number of the envelope.
    pub open spec fn spec_sig_no(&self) -> i32 {
        self.sig_no
    }

    /// The origin tag of the envelope.
    pub open spec fn spec_sig_code(&self) -> SigCode {
        self.sig_code
    }

    /// The errno slot of the envelope.
    pub open spec fn spec_errno(&self) -> i32 {
        self.errno
    }

    /// The padding word of the envelope.
    pub open spec fn spec_reserved(&self) -> u32 {
        self.reserved
    }

    /// The source detail of the envelope.
    pub open spec fn spec_sig_type(&self) -> SigType {
        self.sig_type
    }

    #[verifier::when_used_as_spec(spec_sig_no)]
    pub fn sig_no(&self) -> (r: i32)
        ensures
            r == self.spec_sig_no(),
    {
        self.sig_no
    }

    #[verifier::when_used_as_spec(spec_sig_code)]
    pub fn sig_code(&self) -> (r: SigCode)
        ensures
            r == self.spec_sig_code(),
    {
        self.sig_code
    }

    #[verifier::when_used_as_spec(spec_errno)]
    pub fn errno(&self) -> (r: i32)
        ensures
            r == self.spec_errno(),
    {
        self.errno
    }

    #[verifier::when_used_as_spec(spec_reserved)]
    pub fn reserved(&self) -> (r: u32)
        ensures
            r == self.spec_reserved(),
    {
        self.reserved
    }

    #[verifier::when_used_as_spec(spec_sig_type)]
    pub fn sig_type(&self) -> (r: SigType)
        ensures
            r == self.spec_sig_type(),
    {
        self.sig_type
    }

    /// Replaces the source detail.
    pub fn set_sig_type(&mut self, sig_type: SigType)
        ensures
            *final(self) == (SigInfo { sig_type, ..*old(self) }),
    {
        self.sig_type = sig_type;
    }

    /// Builds an envelope for signal `sig` with the given cause and detail.
    pub fn new(sig: Signal, sig_errno: i32, sig_code: SigCode, reserved: u32, sig_type: SigType)
        -> (r: SigInfo)
        ensures
            r == (SigInfo {
                sig_no: sig.spec_number() as i32,
                sig_code,
                errno: sig_errno,
                reserved,
                sig_type,
            }),
    {
        SigInfo {
            sig_no: sig.number() as i32,
            sig_code,
            errno: sig_errno,
            reserved,
            sig_type,
        }
    }
}

/// The zero envelope synthesized when a signal asserted on the fast path is
/// collected: user origin, no errno, a null sender.
pub open spec fn spec_synthesized_info(sig_no: i32) -> SigInfo {
    SigInfo {
        sig_no,
        sig_code: SigCode::SiUser,
        errno: 0,
        reserved: 0,
        sig_type: SigType::Kill(Pid(0)),
    }
}

} // verus!
