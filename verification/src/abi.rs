//! The user-ABI shims: the user-visible sigaction layout, its translation
//! to and from the kernel disposition record, and the copy-out of a siginfo
//! envelope to a user destination.

use vstd::prelude::*;

use crate::action::SaHandlerType;
use crate::action::Sigaction;
use crate::action::SigactionType;
use crate::error::SystemError;
use crate::flags::SA_SIGINFO;
use crate::flags::SigFlags;
use crate::info::SigInfo;
use crate::sigset::SigSet;

verus! {

/// The value user space writes for `SIG_DFL`.
pub const USER_SIG_DFL: u64 = 0;

/// The value user space writes for `SIG_IGN`.
pub const USER_SIG_IGN: u64 = 1;

/// The value user space writes for `SIG_ERR`.
pub const USER_SIG_ERR: u64 = 2;

/// Exclusive upper bound of the user half of the address space.
pub const USER_ADDR_MAX: u64 = 0x0000_8000_0000_0000;

/// The ABI-mandated size of the siginfo envelope in user space.
pub const SIGINFO_ABI_SIZE: u64 = 128;

/// The sigaction structure as user space lays it out.  The `handler` and
/// `sigaction` fields are a discriminated union: `SA_SIGINFO` in `flags`
/// selects the three-argument `sigaction` member, otherwise `handler`
/// holds one of the well-known values or a handler address.  Pointers are
/// carried as raw user addresses.
#[derive(Clone, Copy, PartialEq, Eq, Structural, Debug)]
pub struct UserSigaction {
    pub handler: u64,
    pub sigaction: u64,
    pub mask: SigSet,
    pub flags: SigFlags,
    pub restorer: u64,
}

/// The kernel disposition a user sigaction denotes: with `SA_SIGINFO` the
/// three-argument member is taken; otherwise handler values 0, 1 and 2 map
/// to default, ignore and the error value, and anything else is a custom
/// handler address.  A null restorer means none.
pub open spec fn spec_sigaction_from_user(u: UserSigaction) -> Sigaction {
    Sigaction {
        action: if u.flags.spec_has(SA_SIGINFO) {
            SigactionType::SaSigaction(u.sigaction)
        } else if u.handler == USER_SIG_DFL {
            SigactionType::SaHandler(SaHandlerType::SigDefault)
        } else if u.handler == USER_SIG_IGN {
            SigactionType::SaHandler(SaHandlerType::SigIgnore)
        } else if u.handler == USER_SIG_ERR {
            SigactionType::SaHandler(SaHandlerType::SigError)
        } else {
            SigactionType::SaHandler(SaHandlerType::SigCustomized(u.handler))
        },
        flags: u.flags,
        mask: u.mask,
        restorer: if u.restorer == 0 {
            None
        } else {
            Some(u.restorer)
        },
    }
}

/// The user layout a kernel disposition writes back: a one-argument action
/// goes out through `handler` in its ABI encoding, a three-argument action
/// through `sigaction`; the union member not selected is left null.
pub open spec fn spec_sigaction_to_user(k: Sigaction) -> UserSigaction {
    UserSigaction {
        handler: match k.action {
            SigactionType::SaHandler(h) => h.spec_user_value(),
            SigactionType::SaSigaction(_) => 0,
        },
        sigaction: match k.action {
            SigactionType::SaHandler(_) => 0,
            SigactionType::SaSigaction(p) => p,
        },
        mask: k.mask,
        flags: k.flags,
        restorer: match k.restorer {
            None => 0,
            Some(a) => a,
        },
    }
}

impl Sigaction {
    /// Translates a user sigaction into the kernel record.
    pub fn from_user(u: &UserSigaction) -> (r: Sigaction)
        ensures
            r == spec_sigaction_from_user(*u),
    {
        let action: SigactionType = if u.flags.contains(SigFlags::from_bits(SA_SIGINFO)) {
            SigactionType::SaSigaction(u.sigaction)
        } else if u.handler == USER_SIG_DFL {
            SigactionType::SaHandler(SaHandlerType::SigDefault)
        } else if u.handler == USER_SIG_IGN {
            SigactionType::SaHandler(SaHandlerType::SigIgnore)
        } else if u.handler == USER_SIG_ERR {
            SigactionType::SaHandler(SaHandlerType::SigError)
        } else {
            SigactionType::SaHandler(SaHandlerType::SigCustomized(u.handler))
        };
        let restorer: Option<u64> = if u.restorer == 0 {
            None
        } else {
            Some(u.restorer)
        };
        Sigaction::new(action, u.flags, u.mask, restorer)
    }

    /// Translates the kernel record back into the user layout.
    pub fn to_user(&self) -> (r: UserSigaction)
        ensures
            r == spec_sigaction_to_user(*self),
    {
        let handler: u64 = match self.action {
            SigactionType::SaHandler(h) => h.user_value(),
            SigactionType::SaSigaction(_) => 0,
        };
        let sigaction: u64 = match self.action {
            SigactionType::SaHandler(_) => 0,
            SigactionType::SaSigaction(p) => p,
        };
        let restorer: u64 = match self.restorer {
            None => 0,
            Some(a) => a,
        };
        UserSigaction { handler, sigaction, mask: self.mask, flags: self.flags, restorer }
    }
}

/// Translating a user sigaction in and back out reproduces it, except for
/// the half of the handler union that its own flags do not select: that
/// half is dead space in the user layout and comes back null.
pub proof fn lemma_user_sigaction_round_trip(u: UserSigaction)
    ensures
        ({
            let v = spec_sigaction_to_user(spec_sigaction_from_user(u));
            &&& v.mask == u.mask
            &&& v.flags == u.flags
            &&& v.restorer == u.restorer
            &&& (!u.flags.spec_has(SA_SIGINFO) ==> v.handler == u.handler)
            &&& (u.flags.spec_has(SA_SIGINFO) ==> v.sigaction == u.sigaction)
        }),
{
}

/// A destination slot for siginfo copy-out, as the VM layer presents it:
/// the user address the caller supplied, whether that mapping is writable,
/// and the record the slot holds once a copy has landed.
#[derive(Clone, Copy, PartialEq, Eq, Structural, Debug)]
pub struct UserSigInfoSlot {
    pub addr: u64,
    pub writable: bool,
    pub value: Option<SigInfo>,
}

impl UserSigInfoSlot {
    /// The slot passes validation: the whole envelope lies below the
    /// user-space boundary and the mapping is writable.
    pub open spec fn spec_accepts(&self) -> bool {
        self.writable && self.addr + SIGINFO_ABI_SIZE <= USER_ADDR_MAX
    }

    /// Describes a destination at `addr` whose mapping is `writable`.
    pub fn new(addr: u64, writable: bool) -> (r: UserSigInfoSlot)
        ensures
            r == (UserSigInfoSlot { addr, writable, value: None }),
    {
        UserSigInfoSlot { addr, writable, value: None }
    }

    #[verifier::when_used_as_spec(spec_accepts)]
    pub fn accepts(&self) -> (r: bool)
        ensures
            r == self.spec_accepts(),
    {
        self.writable && self.addr <= USER_ADDR_MAX - SIGINFO_ABI_SIZE
    }
}

impl SigInfo {
    /// Copies the envelope out to a user destination.  The destination is
    /// validated first; on success the whole record is stored and 0 is
    /// returned, on failure nothing is written and the address fault is
    /// reported.  There is no partial copy.
    pub fn copy_siginfo_to_user(&self, to: &mut UserSigInfoSlot) -> (r: Result<
        i32,
        SystemError,
    >)
        ensures
            old(to).spec_accepts() ==> r == Ok::<i32, SystemError>(0) && *final(to)
                == (UserSigInfoSlot { value: Some(*self), ..*old(to) }),
            !old(to).spec_accepts() ==> r == Err::<i32, SystemError>(SystemError::AddressFault)
                && *final(to) == *old(to),
    {
        if to.accepts() {
            to.value = Some(*self);
            Ok(0)
        } else {
            Err(SystemError::AddressFault)
        }
    }
}

} // verus!
