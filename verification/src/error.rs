//! The error kinds the signal core surfaces.

use vstd::prelude::*;

verus! {

/// What went wrong in an operation of the signal core.
///
/// Allocation failure on enqueue is reported by the allocation layer one
/// level up and has no variant here: the queue operations themselves
/// cannot fail.
#[derive(Clone, Copy, PartialEq, Eq, Structural, Debug)]
pub enum SystemError {
    /// An invalid signal number, or an attempt to re-dispose an uncatchable
    /// signal.
    InvalidArgument,
    /// A user-space destination failed validation during copy-out.
    AddressFault,
}

} // verus!
