//! The `SA_*` flag bits a disposition record carries.

use vstd::prelude::*;

verus! {

/// The disposition explicitly requests the default behaviour.
pub const SA_FLAG_DFL: u64 = 1;

/// The disposition explicitly requests that the signal be ignored.
pub const SA_FLAG_IGN: u64 = 2;

/// Interrupted system calls are restarted after the handler returns.
pub const SA_RESTART: u64 = 4;

/// The signal is not blocked while its own handler runs.
pub const SA_NODEFER: u64 = 8;

/// The disposition is reset to the default when the handler fires.
pub const SA_RESETHAND: u64 = 16;

/// The handler takes the three-argument form carrying a siginfo record.
pub const SA_SIGINFO: u64 = 32;

/// The handler runs on the alternate signal stack.
pub const SA_ONSTACK: u64 = 64;

/// A set of `SA_*` flag bits.
#[derive(Clone, Copy, PartialEq, Eq, Structural, Debug)]
pub struct SigFlags {
    bits: u64,
}

impl SigFlags {
    /// The raw flag word.
    pub closed spec fn spec_bits(self) -> u64 {
        self.bits
    }

    /// True iff every bit of `flag` is set in the word.
    pub open spec fn spec_has(self, flag: u64) -> bool {
        self.spec_bits() & flag == flag
    }

    #[verifier::when_used_as_spec(spec_bits)]
    pub fn bits(self) -> (r: u64)
        ensures
            r == self.spec_bits(),
    {
        self.bits
    }

    /// The empty flag word.
    pub fn empty() -> (r: SigFlags)
        ensures
            r.spec_bits() == 0u64,
    {
        SigFlags { bits: 0u64 }
    }

    /// Builds a flag word from raw bits.
    pub fn from_bits(bits: u64) -> (r: SigFlags)
        ensures
            r.spec_bits() == bits,
    {
        SigFlags { bits }
    }

    /// True iff every bit of `other` is set in `self`.
    pub fn contains(self, other: SigFlags) -> (r: bool)
        ensures
            r == self.spec_has(other.spec_bits()),
    {
        self.bits & other.bits == other.bits
    }

    /// Sets every bit of `other`.
    pub fn insert(&mut self, other: SigFlags)
        ensures
            final(self).spec_bits() == (old(self).spec_bits() | other.spec_bits()),
    {
        self.bits = self.bits | other.bits;
    }

    /// Clears every bit of `other`.
    pub fn remove(&mut self, other: SigFlags)
        ensures
            final(self).spec_bits() == (old(self).spec_bits() & !other.spec_bits()),
    {
        self.bits = self.bits & !other.bits;
    }
}

impl Default for SigFlags {
    /// The default flag word is empty.
    fn default() -> (r: SigFlags)
        ensures
            r.spec_bits() == 0u64,
    {
        SigFlags { bits: 0u64 }
    }
}

} // verus!
