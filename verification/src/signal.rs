//! Signal identifiers, the aggregate kernel masks and the kernel-default
//! disposition of each signal.

use vstd::prelude::*;

use crate::sigset::SigSet;
use crate::sigset::bit_set;
use crate::sigset::lemma_bit_single;

verus! {

/// Number of distinct signals; identifiers run from 1 to this bound.
pub const MAX_SIG_NUM: u32 = 64;

pub const SIGHUP: u32 = 1;
pub const SIGINT: u32 = 2;
pub const SIGQUIT: u32 = 3;
pub const SIGILL: u32 = 4;
pub const SIGTRAP: u32 = 5;
pub const SIGABRT: u32 = 6;
pub const SIGBUS: u32 = 7;
pub const SIGFPE: u32 = 8;
pub const SIGKILL: u32 = 9;
pub const SIGUSR1: u32 = 10;
pub const SIGSEGV: u32 = 11;
pub const SIGUSR2: u32 = 12;
pub const SIGPIPE: u32 = 13;
pub const SIGALRM: u32 = 14;
pub const SIGTERM: u32 = 15;
pub const SIGSTKFLT: u32 = 16;
pub const SIGCHLD: u32 = 17;
pub const SIGCONT: u32 = 18;
pub const SIGSTOP: u32 = 19;
pub const SIGTSTP: u32 = 20;
pub const SIGTTIN: u32 = 21;
pub const SIGTTOU: u32 = 22;
pub const SIGURG: u32 = 23;
pub const SIGXCPU: u32 = 24;
pub const SIGXFSZ: u32 = 25;
pub const SIGVTALRM: u32 = 26;
pub const SIGPROF: u32 = 27;
pub const SIGWINCH: u32 = 28;
pub const SIGIO: u32 = 29;
pub const SIGPWR: u32 = 30;
pub const SIGSYS: u32 = 31;

/// Signals that can be neither caught, blocked nor ignored.
pub const SIG_KERNEL_ONLY_MASK: u64 = (1u64 << (SIGKILL - 1)) | (1u64 << (SIGSTOP - 1));

/// Signals whose default disposition stops the process.
pub const SIG_KERNEL_STOP_MASK: u64 = (1u64 << (SIGSTOP - 1)) | (1u64 << (SIGTSTP - 1)) | (1u64
    << (SIGTTIN - 1)) | (1u64 << (SIGTTOU - 1));

/// Signals whose default disposition terminates the process with a core dump.
pub const SIG_KERNEL_COREDUMP_MASK: u64 = (1u64 << (SIGQUIT - 1)) | (1u64 << (SIGILL - 1)) | (1u64
    << (SIGTRAP - 1)) | (1u64 << (SIGABRT - 1)) | (1u64 << (SIGFPE - 1)) | (1u64 << (SIGSEGV - 1))
    | (1u64 << (SIGBUS - 1)) | (1u64 << (SIGSYS - 1)) | (1u64 << (SIGXCPU - 1)) | (1u64 << (SIGXFSZ
    - 1));

/// Signals whose default disposition is to be ignored.
pub const SIG_KERNEL_IGNORE_MASK: u64 = (1u64 << (SIGCONT - 1)) | (1u64 << (SIGCHLD - 1)) | (1u64
    << (SIGIO - 1)) | (1u64 << (SIGURG - 1)) | (1u64 << (SIGWINCH - 1));

/// A signal identifier: a number in `[1, 64]`, or 0 as the sentinel for
/// "no signal" (`Signal::invalid`).
#[derive(Clone, Copy, PartialEq, Eq, Structural, Debug)]
pub struct Signal {
    num: u32,
}

impl Signal {
    /// The identifier's number; 0 means the invalid sentinel.
    pub closed spec fn spec_number(self) -> u32 {
        self.num
    }

    /// True iff the identifier names an actual signal.
    pub open spec fn spec_is_valid(self) -> bool {
        1 <= self.spec_number() <= 64
    }

    #[verifier::when_used_as_spec(spec_number)]
    pub fn number(self) -> (r: u32)
        ensures
            r == self.spec_number(),
    {
        self.num
    }

    /// Builds the identifier for number `n`; out-of-range numbers collapse
    /// to the invalid sentinel.
    pub fn new(n: u32) -> (s: Signal)
        ensures
            s.spec_number() == if 1 <= n <= 64 {
                n
            } else {
                0
            },
    {
        if 1 <= n && n <= 64 {
            Signal { num: n }
        } else {
            Signal { num: 0 }
        }
    }

    /// The sentinel returned when no signal is pending.
    pub fn invalid() -> (s: Signal)
        ensures
            s.spec_number() == 0,
    {
        Signal { num: 0 }
    }

    #[verifier::when_used_as_spec(spec_is_valid)]
    pub fn is_valid(self) -> (r: bool)
        ensures
            r == self.spec_is_valid(),
    {
        1 <= self.num && self.num <= 64
    }

    /// The one-signal set holding this signal; empty for the sentinel.
    pub fn into_sigset(self) -> (r: SigSet)
        ensures
            r.spec_bits() == if self.spec_is_valid() {
                1u64 << ((self.spec_number() - 1) as u64)
            } else {
                0u64
            },
            forall|n: u32| #[trigger] r.has(n) <==> self.spec_is_valid() && n == self.spec_number(),
    {
        let r = if 1 <= self.num && self.num <= 64 {
            SigSet::from_bits_truncate(1u64 << ((self.num - 1) as u64))
        } else {
            SigSet::from_bits_truncate(0u64)
        };
        proof {
            assert forall|n: u32|
                #[trigger] r.has(n) <==> self.spec_is_valid() && n == self.spec_number() by {
                if self.spec_is_valid() {
                    if 1 <= n <= 64 {
                        lemma_bit_single((self.spec_number() - 1) as u64, (n - 1) as u64);
                    }
                } else {
                    if 1 <= n <= 64 {
                        assert(((n - 1) as u64) < 64 ==> (0u64 >> ((n - 1) as u64)) & 1u64 == 0u64)
                            by (bit_vector);
                    }
                }
            }
        }
        r
    }

    /// True iff this signal is in the given aggregate mask word.
    pub fn in_mask(self, mask: u64) -> (r: bool)
        ensures
            r == (self.spec_is_valid() && bit_set(mask, (self.spec_number() - 1) as u64)),
    {
        if 1 <= self.num && self.num <= 64 {
            (mask >> ((self.num - 1) as u64)) & 1u64 == 1u64
        } else {
            false
        }
    }

    /// The kernel-default disposition of this signal.
    ///
    /// Stops take precedence over nothing else here: each valid signal is in
    /// at most one of the stop / core-dump / ignore masks, SIGCONT continues,
    /// and everything remaining terminates without a dump.
    pub fn default_action(self) -> (r: SigDefaultAction)
        requires
            self.spec_is_valid(),
        ensures
            r == spec_default_action(self.spec_number()),
    {
        if self.num == SIGCONT {
            SigDefaultAction::Continue
        } else if self.in_mask(SIG_KERNEL_IGNORE_MASK) {
            SigDefaultAction::Ignore
        } else if self.in_mask(SIG_KERNEL_STOP_MASK) {
            SigDefaultAction::Stop
        } else if self.in_mask(SIG_KERNEL_COREDUMP_MASK) {
            SigDefaultAction::CoreDump
        } else {
            SigDefaultAction::Terminate
        }
    }
}

/// What the kernel does with a delivered signal whose disposition is the
/// default one.
#[derive(Clone, Copy, PartialEq, Eq, Structural, Debug)]
pub enum SigDefaultAction {
    Terminate,
    CoreDump,
    Stop,
    Continue,
    Ignore,
}

/// The fixed table from signal number to kernel-default disposition.
pub open spec fn spec_default_action(n: u32) -> SigDefaultAction {
    if n == SIGCONT {
        SigDefaultAction::Continue
    } else if bit_set(SIG_KERNEL_IGNORE_MASK, (n - 1) as u64) {
        SigDefaultAction::Ignore
    } else if bit_set(SIG_KERNEL_STOP_MASK, (n - 1) as u64) {
        SigDefaultAction::Stop
    } else if bit_set(SIG_KERNEL_COREDUMP_MASK, (n - 1) as u64) {
        SigDefaultAction::CoreDump
    } else {
        SigDefaultAction::Terminate
    }
}

} // verus!
