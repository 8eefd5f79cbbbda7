//! Dispositions: what a delivered signal shall trigger, the per-process
//! table binding every signal to one, and the process-level handle that
//! shares that table across a thread group.

use std::sync::Arc;

use vstd::prelude::*;

use crate::error::SystemError;
use crate::flags::SA_FLAG_DFL;
use crate::flags::SA_FLAG_IGN;
use crate::flags::SigFlags;
use crate::signal::SIG_KERNEL_ONLY_MASK;
use crate::signal::Signal;
use crate::sigset::SigSet;
use crate::sigset::bit_set;

verus! {

/// The handler slot of a disposition in its one-argument form: one of the
/// well-known user values, or the address of a custom handler.  The
/// numeric encoding (`user_value`) matches the user ABI.
#[derive(Clone, Copy, PartialEq, Eq, Structural, Debug)]
pub enum SaHandlerType {
    /// The diagnostic value user space writes as `SIG_ERR`; never installed.
    SigError,
    /// The kernel-default behaviour, `SIG_DFL`.
    SigDefault,
    /// Discard the signal, `SIG_IGN`.
    SigIgnore,
    /// A user handler at the given address.
    SigCustomized(u64),
}

impl SaHandlerType {
    /// The user-ABI encoding of the handler slot.
    pub open spec fn spec_user_value(&self) -> u64 {
        match *self {
            SaHandlerType::SigError => 2,
            SaHandlerType::SigIgnore => 1,
            SaHandlerType::SigDefault => 0,
            SaHandlerType::SigCustomized(handler) => handler,
        }
    }

    #[verifier::when_used_as_spec(spec_user_value)]
    pub fn user_value(&self) -> (r: u64)
        ensures
            r == self.spec_user_value(),
    {
        match *self {
            SaHandlerType::SigError => 2,
            SaHandlerType::SigIgnore => 1,
            SaHandlerType::SigDefault => 0,
            SaHandlerType::SigCustomized(handler) => handler,
        }
    }

    /// True iff the slot asks for the default behaviour.
    pub fn is_sig_default(&self) -> (r: bool)
        ensures
            r == (*self is SigDefault),
    {
        matches!(*self, SaHandlerType::SigDefault)
    }

    /// True iff the slot asks for the signal to be discarded.
    pub fn is_sig_ignore(&self) -> (r: bool)
        ensures
            r == (*self is SigIgnore),
    {
        matches!(*self, SaHandlerType::SigIgnore)
    }

    /// True iff the slot holds the diagnostic error value.
    pub fn is_sig_error(&self) -> (r: bool)
        ensures
            r == (*self is SigError),
    {
        matches!(*self, SaHandlerType::SigError)
    }
}

/// The action of a disposition: either the one-argument handler form, or
/// the three-argument form that receives the siginfo envelope.  The
/// three-argument form is carried as the user-space address of the handler.
#[derive(Clone, Copy, PartialEq, Eq, Structural, Debug)]
pub enum SigactionType {
    SaHandler(SaHandlerType),
    SaSigaction(u64),
}

impl SigactionType {
    /// True iff the action takes the one-argument form.
    pub fn is_sa_handler(&self) -> (r: bool)
        ensures
            r == (*self is SaHandler),
    {
        matches!(*self, SigactionType::SaHandler(..))
    }
}

/// A disposition record: the action, its `SA_*` flags, the extra signals to
/// block while the handler runs, and the user-space trampoline that the
/// handler returns through into sigreturn.
#[derive(Clone, Copy, PartialEq, Eq, Debug)]
pub struct Sigaction {
    pub action: SigactionType,
    pub flags: SigFlags,
    pub mask: SigSet,
    pub restorer: Option<u64>,
}

impl Sigaction {
    /// The record asks for the signal to be discarded: either the ignore
    /// flag is set outright, or the default is requested while the stored
    /// action says "ignore".  The kernel-default ignore set is a caller
    /// concern when translating an explicit default, not this predicate's.
    pub open spec fn spec_ignore(&self) -> bool {
        self.flags.spec_has(SA_FLAG_IGN) || (self.flags.spec_has(SA_FLAG_DFL)
            && self.action matches SigactionType::SaHandler(SaHandlerType::SigIgnore))
    }

    /// Decides whether delivery of `_sig` under this record is a discard.
    /// The signal number plays no part: the per-signal defaults are applied
    /// by the caller.
    pub fn ignore(&self, _sig: Signal) -> (r: bool)
        ensures
            r == self.spec_ignore(),
    {
        if self.flags.contains(SigFlags::from_bits(SA_FLAG_IGN)) {
            return true;
        }
        if self.flags.contains(SigFlags::from_bits(SA_FLAG_DFL)) {
            if let SigactionType::SaHandler(h) = self.action {
                if h.is_sig_ignore() {
                    return true;
                }
            }
        }
        false
    }

    /// Builds a record from its four parts.
    pub fn new(action: SigactionType, flags: SigFlags, mask: SigSet, restorer: Option<u64>) -> (r:
        Sigaction)
        ensures
            r == (Sigaction { action, flags, mask, restorer }),
    {
        Sigaction { action, flags, mask, restorer }
    }

    /// The stored action.
    pub fn action(&self) -> (r: SigactionType)
        ensures
            r == self.action,
    {
        self.action
    }

    /// The stored flags.
    pub fn flags(&self) -> (r: SigFlags)
        ensures
            r == self.flags,
    {
        self.flags
    }

    /// The stored trampoline address, if any.
    pub fn restorer(&self) -> (r: Option<u64>)
        ensures
            r == self.restorer,
    {
        self.restorer
    }

    /// Mutable access to the flags.
    pub fn flags_mut(&mut self) -> (r: &mut SigFlags)
        ensures
            *r == old(self).flags,
            *final(self) == (Sigaction { flags: *final(r), ..*old(self) }),
    {
        &mut self.flags
    }

    /// Replaces the action wholesale.
    pub fn set_action(&mut self, action: SigactionType)
        ensures
            *final(self) == (Sigaction { action, ..*old(self) }),
    {
        self.action = action;
    }

    /// The handler-time block mask.
    pub fn mask(&self) -> (r: SigSet)
        ensures
            r == self.mask,
    {
        self.mask
    }

    /// Mutable access to the handler-time block mask.
    pub fn mask_mut(&mut self) -> (r: &mut SigSet)
        ensures
            *r == old(self).mask,
            *final(self) == (Sigaction { mask: *final(r), ..*old(self) }),
    {
        &mut self.mask
    }

    /// Replaces the trampoline address.
    pub fn set_restorer(&mut self, restorer: Option<u64>)
        ensures
            *final(self) == (Sigaction { restorer, ..*old(self) }),
    {
        self.restorer = restorer;
    }
}

impl Default for Sigaction {
    /// The default record: default action, no flags, empty mask, no
    /// trampoline.
    fn default() -> (r: Sigaction)
        ensures
            is_default_sigaction(r),
    {
        Sigaction {
            action: SigactionType::SaHandler(SaHandlerType::SigDefault),
            flags: SigFlags::empty(),
            mask: SigSet::empty(),
            restorer: None,
        }
    }
}

/// The disposition every slot starts from: default action, no flags, an
/// empty mask and no trampoline.
pub open spec fn is_default_sigaction(a: Sigaction) -> bool {
    &&& a.action == SigactionType::SaHandler(SaHandlerType::SigDefault)
    &&& a.flags.spec_bits() == 0
    &&& a.mask.spec_bits() == 0
    &&& a.restorer is None
}

/// Installing `act` for `sig` is allowed: the signal exists, an uncatchable
/// signal keeps its default disposition, and the diagnostic error value is
/// never installed.
pub open spec fn spec_install_ok(sig: Signal, act: Sigaction) -> bool {
    &&& sig.spec_is_valid()
    &&& (bit_set(SIG_KERNEL_ONLY_MASK, (sig.spec_number() - 1) as u64) ==> act.action
        matches SigactionType::SaHandler(SaHandlerType::SigDefault))
    &&& !(act.action matches SigactionType::SaHandler(SaHandlerType::SigError))
}

/// The per-process disposition table: one `Sigaction` for each of the 64
/// signals, signal `n` at index `n - 1`.  It is shared by every thread of
/// the process and mutated only under the process's handler lock, which
/// lives one level up.
#[derive(Debug)]
pub struct SigHandStruct {
    pub actions: Vec<Sigaction>,
}

impl SigHandStruct {
    /// The table has one slot per signal.
    pub open spec fn wf(&self) -> bool {
        self.actions@.len() == 64
    }

    /// The disposition of signal `sig`, by value.
    pub fn get(&self, sig: Signal) -> (r: Sigaction)
        requires
            self.wf(),
            sig.spec_is_valid(),
        ensures
            r == self.actions@[sig.spec_number() - 1],
    {
        self.actions[(sig.number() - 1) as usize]
    }

    /// Installs `act` as the disposition of `sig`, enforcing the install
    /// policy: an invalid number, a non-default disposition for an
    /// uncatchable signal, or the error value are all rejected unchanged.
    pub fn set_sigaction(&mut self, sig: Signal, act: Sigaction) -> (r: Result<(), SystemError>)
        requires
            old(self).wf(),
        ensures
            final(self).wf(),
            r is Ok <==> spec_install_ok(sig, act),
            spec_install_ok(sig, act) ==> final(self).actions@ == old(self).actions@.update(
                sig.spec_number() - 1, act),
            !spec_install_ok(sig, act) ==> r == Err::<(), SystemError>(
                SystemError::InvalidArgument) && final(self).actions@ == old(self).actions@,
    {
        if !sig.is_valid() {
            return Err(SystemError::InvalidArgument);
        }
        let is_default: bool = match act.action {
            SigactionType::SaHandler(h) => h.is_sig_default(),
            SigactionType::SaSigaction(_) => false,
        };
        if sig.in_mask(SIG_KERNEL_ONLY_MASK) && !is_default {
            return Err(SystemError::InvalidArgument);
        }
        let is_error: bool = match act.action {
            SigactionType::SaHandler(h) => h.is_sig_error(),
            SigactionType::SaSigaction(_) => false,
        };
        if is_error {
            return Err(SystemError::InvalidArgument);
        }
        self.actions.set((sig.number() - 1) as usize, act);
        Ok(())
    }
}

impl Default for SigHandStruct {
    /// A fresh table: every slot holds the default disposition.
    fn default() -> (r: SigHandStruct)
        ensures
            r.wf(),
            forall|i: int| 0 <= i < 64 ==> is_default_sigaction(#[trigger] r.actions@[i]),
    {
        let mut actions: Vec<Sigaction> = Vec::with_capacity(64);
        let mut i: usize = 0;
        while i < 64
            invariant
                i <= 64,
                actions@.len() == i,
                forall|k: int| 0 <= k < i ==> is_default_sigaction(#[trigger] actions@[k]),
            decreases 64 - i,
        {
            actions.push(Sigaction::default());
            i = i + 1;
        }
        SigHandStruct { actions }
    }
}

/// The process-level signal state: a use counter managed by the containing
/// process, and the disposition table shared by the whole thread group.
#[derive(Debug)]
pub struct SignalStruct {
    /// Free-running reference count; fork and exit adjust it under the
    /// process-management layer's rules.
    pub cnt: i64,
    /// The shared disposition table; one instance per thread group.
    pub handler: Arc<SigHandStruct>,
}

impl Default for SignalStruct {
    /// A fresh process state: zero count, a fresh default table.
    fn default() -> (r: SignalStruct)
        ensures
            r.cnt == 0,
            (*r.handler).wf(),
            forall|i: int| 0 <= i < 64 ==> is_default_sigaction(#[trigger] (*r.handler).actions@[i]),
    {
        SignalStruct { cnt: 0, handler: Arc::new(SigHandStruct::default()) }
    }
}

} // verus!
