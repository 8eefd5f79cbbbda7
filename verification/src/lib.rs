//! In-kernel POSIX signal delivery core.
//!
//! The crate models the per-task pending-signal state (a 64-bit set plus a
//! queue of detail records), the per-process disposition table, and the
//! user-ABI shims around them.  Every operation carries a contract that pins
//! its effect on the mathematical model of the state.

pub mod abi;
pub mod action;
pub mod error;
pub mod flags;
pub mod info;
pub mod pending;
pub mod queue;
pub mod signal;
pub mod sigset;
