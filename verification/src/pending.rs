//! The per-task pending-signal state: a 64-bit set of asserted signals and
//! the queue of detail envelopes behind it.

use vstd::prelude::*;

use crate::info::SigCode;
use crate::info::SigInfo;
use crate::info::SigType;
use crate::info::Pid;
use crate::info::spec_synthesized_info;
use crate::queue::SigQueue;
use crate::queue::count_sig;
use crate::queue::flush_spec;
use crate::queue::lemma_count_sig_zero;
use crate::queue::lemma_flush_spec_subset;
use crate::queue::sig_no_in_set;
use crate::signal::Signal;
use crate::sigset::SigSet;
use crate::sigset::bit_set;
use crate::sigset::lemma_bit_and;
use crate::sigset::lemma_bit_not;
use crate::sigset::lemma_sigset_eq;

verus! {

/// The pending state of one task.  A sender may enqueue a detail envelope
/// (which also asserts the bit), or assert the bit alone on the fast path;
/// the receiver selects with `next_signal` and dequeues with
/// `collect_signal`.
#[derive(Debug)]
pub struct SigPending {
    pub signal: SigSet,
    pub queue: SigQueue,
}

impl SigPending {
    /// The one-sided consistency invariant of the dual representation:
    /// every queued envelope has its signal's bit asserted.  (The converse
    /// need not hold: a fast-path send asserts the bit without queueing.)
    pub open spec fn consistent(&self) -> bool {
        forall|k: int|
            0 <= k < self.queue.q@.len() ==> sig_no_in_set(self.signal,
                #[trigger] self.queue.q@[k].sig_no)
    }

    /// The set of asserted signals.
    pub fn signal(&self) -> (r: SigSet)
        ensures
            r == self.signal,
    {
        self.signal
    }

    /// The queue of detail envelopes.
    pub fn queue(&self) -> (r: &SigQueue)
        ensures
            r == &self.queue,
    {
        &self.queue
    }

    /// Mutable access to the queue.
    pub fn queue_mut(&mut self) -> (r: &mut SigQueue)
        ensures
            *r == old(self).queue,
            final(self).queue == *final(r),
            final(self).signal == old(self).signal,
    {
        &mut self.queue
    }

    /// Mutable access to the set of asserted signals.
    pub fn signal_mut(&mut self) -> (r: &mut SigSet)
        ensures
            *r == old(self).signal,
            final(self).signal == *final(r),
            final(self).queue == old(self).queue,
    {
        &mut self.signal
    }

    /// Appends a detail envelope and asserts its signal's bit.
    pub fn enqueue(&mut self, info: SigInfo)
        requires
            1 <= info.spec_sig_no() <= 64,
        ensures
            final(self).queue.q@ == old(self).queue.q@.push(info),
            forall|n: u32|
                #[trigger] final(self).signal.has(n) <==> old(self).signal.has(n) || n
                    == info.spec_sig_no() as u32,
            old(self).consistent() ==> final(self).consistent(),
    {
        let sig: Signal = Signal::new(info.sig_no() as u32);
        self.signal.insert(sig.into_sigset());
        self.queue.q.push(info);
    }

    /// Asserts the signal's bit without queueing a detail envelope: the
    /// fast path of a sender whose detail is uninteresting.
    pub fn set_fast(&mut self, sig: Signal)
        requires
            sig.spec_is_valid(),
        ensures
            final(self).queue == old(self).queue,
            forall|n: u32|
                #[trigger] final(self).signal.has(n) <==> old(self).signal.has(n) || n
                    == sig.spec_number(),
            old(self).consistent() ==> final(self).consistent(),
    {
        self.signal.insert(sig.into_sigset());
    }

    /// The next signal to deliver against the given block mask: the
    /// numerically smallest signal that is asserted and not blocked, or the
    /// invalid sentinel when there is none.  Smaller numbers have higher
    /// priority, so SIGKILL and SIGSTOP preempt catchable signals queued
    /// later.  The snapshot is not mutated.
    pub fn next_signal(&self, sig_mask: &SigSet) -> (r: Signal)
        ensures
            r.spec_number() == 0 ==> (forall|n: u32|
                !(#[trigger] self.signal.has(n) && !sig_mask.has(n))),
            r.spec_number() != 0 ==> {
                &&& 1 <= r.spec_number() <= 64
                &&& self.signal.has(r.spec_number())
                &&& !sig_mask.has(r.spec_number())
                &&& (forall|n: u32|
                    1 <= n < r.spec_number() ==> !(#[trigger] self.signal.has(n) && !sig_mask.has(
                        n)))
            },
    {
        let s: u64 = self.signal.bits();
        let m: u64 = sig_mask.bits();
        let ready: u64 = s & !m;
        if ready == 0 {
            proof {
                assert forall|n: u32| !(self.signal.has(n) && !sig_mask.has(n)) by {
                    if 1 <= n <= 64 && self.signal.has(n) && !sig_mask.has(n) {
                        let k = (n - 1) as u64;
                        lemma_bit_and(s, !m, k);
                        lemma_bit_not(m, k);
                        assert(bit_set(ready, k));
                        assert(k < 64 ==> (0u64 >> k) & 1u64 == 0u64) by (bit_vector);
                    }
                }
            }
            Signal::invalid()
        } else {
            let t: u32 = ready.trailing_zeros();
            proof {
                vstd::std_specs::bits::axiom_u64_trailing_zeros(ready);
                assert(bit_set(ready, t as u64));
                lemma_bit_and(s, !m, t as u64);
                lemma_bit_not(m, t as u64);
                assert(self.signal.has((t + 1) as u32));
                assert(!sig_mask.has((t + 1) as u32));
                assert forall|n: u32| 1 <= n < t + 1 implies !(self.signal.has(n)
                    && !sig_mask.has(n)) by {
                    let k = (n - 1) as u64;
                    assert((ready >> k) & 1u64 == 0u64);
                    lemma_bit_and(s, !m, k);
                    lemma_bit_not(m, k);
                }
            }
            Signal::new(t + 1)
        }
    }

    /// Dequeues the first envelope of `sig`; when the queue holds no further
    /// envelope of that signal, the bit is cleared.  A signal asserted on
    /// the fast path alone yields the synthesized zero envelope, and its bit
    /// is cleared as well.
    pub fn collect_signal(&mut self, sig: Signal) -> (r: SigInfo)
        requires
            sig.spec_is_valid(),
        ensures
            ({
                let s = sig.spec_number() as i32;
                let cnt = count_sig(old(self).queue.q@, s);
                &&& (old(self).consistent() ==> final(self).signal.has(sig.spec_number()) == (cnt
                    >= 2))
                &&& (cnt >= 2 ==> final(self).signal == old(self).signal)
                &&& (cnt < 2 ==> (forall|n: u32|
                    #[trigger] final(self).signal.has(n) <==> old(self).signal.has(n) && n
                        != sig.spec_number()))
                &&& (cnt == 0 && !old(self).signal.has(sig.spec_number()) ==> final(self).signal
                    == old(self).signal)
                &&& (cnt == 0 ==> final(self).queue.q@ == old(self).queue.q@ && r
                    == spec_synthesized_info(s))
                &&& (cnt >= 1 ==> count_sig(final(self).queue.q@, s) == cnt - 1 && exists|i: int|
                    {
                        &&& 0 <= i < old(self).queue.q@.len()
                        &&& #[trigger] old(self).queue.q@[i].sig_no == s
                        &&& (forall|k: int|
                            0 <= k < i ==> #[trigger] old(self).queue.q@[k].sig_no != s)
                        &&& r == old(self).queue.q@[i]
                        &&& final(self).queue.q@ == old(self).queue.q@.remove(i)
                    })
                &&& (old(self).consistent() ==> final(self).consistent())
            }),
    {
        let ghost s: i32 = sig.spec_number() as i32;
        let (info, still_pending) = self.queue.find_and_delete(sig);
        proof {
            if info is Some {
                let i = choose|i: int|
                    {
                        &&& 0 <= i < old(self).queue.q@.len()
                        &&& #[trigger] old(self).queue.q@[i].sig_no == s
                        &&& (forall|k: int|
                            0 <= k < i ==> #[trigger] old(self).queue.q@[k].sig_no != s)
                        &&& info->Some_0 == old(self).queue.q@[i]
                        &&& self.queue.q@ == old(self).queue.q@.remove(i)
                    };
                old(self).queue.q@.remove_ensures(i);
                if old(self).consistent() {
                    // The bit of a queued signal is asserted, and every
                    // surviving entry keeps the bit it had before.
                    assert(sig_no_in_set(old(self).signal, old(self).queue.q@[i].sig_no));
                    assert forall|k: int|
                        0 <= k < self.queue.q@.len() implies sig_no_in_set(old(self).signal,
                        #[trigger] self.queue.q@[k].sig_no) by {
                        if k < i {
                            assert(self.queue.q@[k] == old(self).queue.q@[k]);
                        } else {
                            assert(self.queue.q@[k] == old(self).queue.q@[k + 1]);
                        }
                    }
                }
            } else {
                lemma_count_sig_zero(old(self).queue.q@, s);
            }
        }
        if !still_pending {
            let single: SigSet = sig.into_sigset();
            self.signal.remove(single);
            proof {
                if count_sig(old(self).queue.q@, s) == 0 && !old(self).signal.has(
                    sig.spec_number()) {
                    let a = old(self).signal.spec_bits();
                    let k = (sig.spec_number() - 1) as u64;
                    assert(k < 64 && (a >> k) & 1u64 != 1u64 ==> a & !(1u64 << k) == a)
                        by (bit_vector);
                    lemma_sigset_eq(self.signal, old(self).signal);
                }
                if old(self).consistent() {
                    lemma_count_sig_zero(self.queue.q@, s);
                    assert forall|k: int|
                        0 <= k < self.queue.q@.len() implies sig_no_in_set(self.signal,
                        #[trigger] self.queue.q@[k].sig_no) by {
                        assert(sig_no_in_set(old(self).signal, self.queue.q@[k].sig_no));
                        assert(self.queue.q@[k].sig_no != s);
                    }
                }
            }
        }
        match info {
            Some(x) => x,
            None => SigInfo::new(sig, 0, SigCode::SiUser, 0, SigType::Kill(Pid::new(0))),
        }
    }

    /// Drops every queued envelope whose signal bit is in `mask`.  The
    /// asserted-bit set is deliberately left untouched: the detail records
    /// are discarded while any fast-path assertion stays visible, and a
    /// caller doing a full purge follows up on the bitset itself.
    pub fn flush_by_mask(&mut self, mask: &SigSet)
        ensures
            final(self).signal == old(self).signal,
            final(self).queue.q@ == flush_spec(old(self).queue.q@, *mask),
            old(self).consistent() ==> final(self).consistent(),
    {
        self.queue.flush_by_mask(mask);
        proof {
            if old(self).consistent() {
                lemma_flush_spec_subset(old(self).queue.q@, *mask);
                assert forall|k: int|
                    0 <= k < self.queue.q@.len() implies sig_no_in_set(self.signal,
                    #[trigger] self.queue.q@[k].sig_no) by {
                    assert(old(self).queue.q@.contains(self.queue.q@[k]));
                    let j = choose|j: int|
                        0 <= j < old(self).queue.q@.len() && old(self).queue.q@[j]
                            == self.queue.q@[k];
                    assert(sig_no_in_set(old(self).signal, old(self).queue.q@[j].sig_no));
                }
            }
        }
    }
}

/// One mutating step a sender or the receiver takes on a pending state.
pub enum PendingOp {
    /// A queued send of the given envelope.
    Enqueue(SigInfo),
    /// A fast-path send of the given signal.
    SetFast(Signal),
    /// A collection of the given signal by the receiver.
    Collect(Signal),
}

/// The op asserts signal `n`.
pub open spec fn op_asserts(op: PendingOp, n: u32) -> bool {
    match op {
        PendingOp::Enqueue(info) => info.sig_no == n as i32,
        PendingOp::SetFast(sig) => sig.spec_number() == n,
        PendingOp::Collect(_) => false,
    }
}

/// `post` can follow `pre` under `op`: exactly what the contracts of
/// `enqueue`, `set_fast` and `collect_signal` say of the asserted bits.  A
/// collection is kept abstract: whatever it dequeues, it never asserts a
/// bit.
pub open spec fn pending_step(pre: SigPending, op: PendingOp, post: SigPending) -> bool {
    match op {
        PendingOp::Enqueue(info) => {
            &&& 1 <= info.sig_no <= 64
            &&& (forall|n: u32|
                #[trigger] post.signal.has(n) <==> pre.signal.has(n) || n == info.sig_no as u32)
        },
        PendingOp::SetFast(sig) => {
            &&& sig.spec_is_valid()
            &&& (forall|n: u32|
                #[trigger] post.signal.has(n) <==> pre.signal.has(n) || n == sig.spec_number())
        },
        PendingOp::Collect(sig) => {
            &&& sig.spec_is_valid()
            &&& (forall|n: u32| #[trigger] post.signal.has(n) ==> pre.signal.has(n))
        },
    }
}

/// A run of the pending state machine: one state more than ops, and each op
/// steps its state to the next.
pub open spec fn pending_run(states: Seq<SigPending>, ops: Seq<PendingOp>) -> bool {
    &&& states.len() == ops.len() + 1
    &&& (forall|t: int|
        0 <= t < ops.len() ==> pending_step(states[t], #[trigger] ops[t], states[t + 1]))
}

/// Bit/queue consistency across any sequence of sends and collects: when a
/// run starts with signal `n` not asserted and ends with its bit set, some
/// op of the run asserted `n`.  Starting the run just after a collect that
/// cleared the bit, this says the bit owes its state to a sender with no
/// successful clearing collect in between.
pub proof fn lemma_asserted_bit_has_a_sender(states: Seq<SigPending>, ops: Seq<PendingOp>, n: u32)
    requires
        pending_run(states, ops),
        !states[0].signal.has(n),
        states.last().signal.has(n),
    ensures
        exists|j: int| 0 <= j < ops.len() && op_asserts(#[trigger] ops[j], n),
    decreases ops.len(),
{
    let t = ops.len() - 1;
    if op_asserts(ops[t], n) {
        assert(0 <= t < ops.len() && op_asserts(ops[t], n));
    } else {
        // The last step does not assert `n`, so the bit was set before it.
        assert(pending_step(states[t], ops[t], states[t + 1]));
        assert(states[t].signal.has(n));
        let front_states = states.drop_last();
        let front_ops = ops.drop_last();
        assert forall|u: int| 0 <= u < front_ops.len() implies pending_step(front_states[u],
            #[trigger] front_ops[u], front_states[u + 1]) by {
            assert(pending_step(states[u], ops[u], states[u + 1]));
        }
        assert(front_states.last() == states[t]);
        lemma_asserted_bit_has_a_sender(front_states, front_ops, n);
        let j = choose|j: int| 0 <= j < front_ops.len() && op_asserts(#[trigger] front_ops[j], n);
        assert(op_asserts(ops[j], n));
    }
}

/// A signal whose bit is clear in a consistent pending state has no queued
/// envelope either: collecting it dequeues nothing, leaves the queue as it
/// was, and yields the synthesized zero envelope (see `collect_signal`).
pub proof fn lemma_unasserted_not_queued(p: &SigPending, n: u32)
    requires
        p.consistent(),
        1 <= n <= 64,
        !p.signal.has(n),
    ensures
        count_sig(p.queue.q@, n as i32) == 0,
{
    lemma_count_sig_zero(p.queue.q@, n as i32);
    assert forall|k: int| 0 <= k < p.queue.q@.len() implies #[trigger] p.queue.q@[k].sig_no != n
        as i32 by {
        assert(sig_no_in_set(p.signal, p.queue.q@[k].sig_no));
    }
}

impl Default for SigPending {
    /// The default pending state: nothing asserted, nothing queued.
    fn default() -> (r: SigPending)
        ensures
            r.signal.spec_bits() == 0u64,
            r.queue.q@.len() == 0,
            r.consistent(),
    {
        SigPending { signal: SigSet::empty(), queue: SigQueue::new(0) }
    }
}

} // verus!
