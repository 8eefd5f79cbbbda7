//! The ordered queue of pending-signal envelopes: insertion order is kept,
//! lookup and removal take the first match, and a purge drops every entry
//! named by a mask.

use vstd::prelude::*;

use crate::info::SigInfo;
use crate::signal::Signal;
use crate::sigset::SigSet;

verus! {

/// The number of entries of `q` whose signal number is `s`.
pub open spec fn count_sig(q: Seq<SigInfo>, s: i32) -> nat
    decreases q.len(),
{
    if q.len() == 0 {
        0
    } else {
        count_sig(q.drop_last(), s) + (if q.last().sig_no == s {
            1nat
        } else {
            0nat
        })
    }
}

/// Entry `sig_no` names a signal whose bit is in `set`.
pub open spec fn sig_no_in_set(set: SigSet, sig_no: i32) -> bool {
    1 <= sig_no <= 64 && set.has(sig_no as u32)
}

/// `q` with every entry whose signal bit is in `mask` removed; the order of
/// the surviving entries is kept.
pub open spec fn flush_spec(q: Seq<SigInfo>, mask: SigSet) -> Seq<SigInfo>
    decreases q.len(),
{
    if q.len() == 0 {
        q
    } else {
        let rest = flush_spec(q.drop_last(), mask);
        if sig_no_in_set(mask, q.last().sig_no) {
            rest
        } else {
            rest.push(q.last())
        }
    }
}

/// Appending one entry raises the count of its own signal by one and leaves
/// every other count unchanged.
pub proof fn lemma_count_sig_push(q: Seq<SigInfo>, s: i32, x: SigInfo)
    ensures
        count_sig(q.push(x), s) == count_sig(q, s) + (if x.sig_no == s {
            1nat
        } else {
            0nat
        }),
{
    assert(q.push(x).drop_last() =~= q);
    assert(q.push(x).last() == x);
}

/// Counts add up over concatenation.
pub proof fn lemma_count_sig_append(a: Seq<SigInfo>, b: Seq<SigInfo>, s: i32)
    ensures
        count_sig(a + b, s) == count_sig(a, s) + count_sig(b, s),
    decreases b.len(),
{
    if b.len() == 0 {
        assert(a + b =~= a);
    } else {
        lemma_count_sig_append(a, b.drop_last(), s);
        assert((a + b).drop_last() =~= a + b.drop_last());
        assert((a + b).last() == b.last());
    }
}

/// A count is zero exactly when no entry has the signal number.
pub proof fn lemma_count_sig_zero(q: Seq<SigInfo>, s: i32)
    ensures
        (count_sig(q, s) == 0) <==> (forall|k: int|
            0 <= k < q.len() ==> #[trigger] q[k].sig_no != s),
    decreases q.len(),
{
    if q.len() > 0 {
        lemma_count_sig_zero(q.drop_last(), s);
        assert(forall|k: int| 0 <= k < q.len() - 1 ==> q.drop_last()[k] == #[trigger] q[k]);
    }
}

/// Removing the first entry with signal number `s` lowers that count by one.
pub proof fn lemma_count_sig_remove_first(q: Seq<SigInfo>, s: i32, i: int)
    requires
        0 <= i < q.len(),
        q[i].sig_no == s,
        forall|k: int| 0 <= k < i ==> #[trigger] q[k].sig_no != s,
    ensures
        count_sig(q, s) >= 1,
        count_sig(q.remove(i), s) == count_sig(q, s) - 1,
        q.remove(i).len() == q.len() - 1,
{
    let front = q.subrange(0, i);
    let at = q.subrange(i, i + 1);
    let back = q.subrange(i + 1, q.len() as int);
    assert(q =~= front + (at + back));
    lemma_count_sig_append(front, at + back, s);
    lemma_count_sig_append(at, back, s);
    lemma_count_sig_zero(front, s);
    assert(at =~= Seq::empty().push(q[i]));
    lemma_count_sig_push(Seq::empty(), s, q[i]);
    assert(q.remove(i) =~= front + back);
    lemma_count_sig_append(front, back, s);
}

/// No surviving entry of a purge names a signal of the mask, and a purge
/// never grows the queue.
pub proof fn lemma_flush_spec_purges(q: Seq<SigInfo>, mask: SigSet)
    ensures
        forall|i: int|
            0 <= i < flush_spec(q, mask).len() ==> !sig_no_in_set(mask, #[trigger] flush_spec(q,
                mask)[i].sig_no),
        flush_spec(q, mask).len() <= q.len(),
    decreases q.len(),
{
    if q.len() > 0 {
        lemma_flush_spec_purges(q.drop_last(), mask);
    }
}

/// Every survivor of a purge is an entry of the original queue.
pub proof fn lemma_flush_spec_subset(q: Seq<SigInfo>, mask: SigSet)
    ensures
        forall|i: int|
            0 <= i < flush_spec(q, mask).len() ==> q.contains(#[trigger] flush_spec(q, mask)[i]),
    decreases q.len(),
{
    if q.len() > 0 {
        lemma_flush_spec_subset(q.drop_last(), mask);
        assert forall|i: int|
            0 <= i < flush_spec(q, mask).len() implies q.contains(#[trigger] flush_spec(q,
            mask)[i]) by {
            let rest = flush_spec(q.drop_last(), mask);
            if i < rest.len() {
                let j = choose|j: int|
                    0 <= j < q.drop_last().len() && q.drop_last()[j] == rest[i];
                assert(q[j] == rest[i]);
            } else {
                assert(q[q.len() - 1] == flush_spec(q, mask)[i]);
            }
        }
    }
}

/// The queue of envelopes a task has received and not yet collected.
#[derive(Debug)]
pub struct SigQueue {
    pub q: Vec<SigInfo>,
}

impl SigQueue {
    /// Builds an empty queue with room reserved for `capacity` entries.
    pub fn new(capacity: usize) -> (r: SigQueue)
        ensures
            r.q@.len() == 0,
    {
        SigQueue { q: Vec::with_capacity(capacity) }
    }

    /// Returns a reference to the first entry whose signal number matches
    /// `sig`, if any, and whether at least two entries match.
    pub fn find(&self, sig: Signal) -> (r: (Option<&SigInfo>, bool))
        ensures
            ({
                let s = sig.spec_number() as i32;
                &&& r.1 == (count_sig(self.q@, s) >= 2)
                &&& match r.0 {
                    None => count_sig(self.q@, s) == 0,
                    Some(info) => exists|i: int|
                        {
                            &&& 0 <= i < self.q@.len()
                            &&& #[trigger] self.q@[i].sig_no == s
                            &&& (forall|k: int| 0 <= k < i ==> #[trigger] self.q@[k].sig_no != s)
                            &&& *info == self.q@[i]
                        },
                }
            }),
    {
        let s: i32 = sig.number() as i32;
        match self.find_index(s) {
            None => (None, false),
            Some(i) => {
                let still: bool = self.has_later_match(s, i);
                (Some(&self.q[i]), still)
            },
        }
    }

    /// Removes the first entry whose signal number matches `sig` and returns
    /// it, along with whether further matching entries remain.  At most one
    /// entry is removed.
    pub fn find_and_delete(&mut self, sig: Signal) -> (r: (Option<SigInfo>, bool))
        ensures
            ({
                let s = sig.spec_number() as i32;
                &&& r.1 == (count_sig(old(self).q@, s) >= 2)
                &&& match r.0 {
                    None => count_sig(old(self).q@, s) == 0 && final(self).q@ == old(self).q@,
                    Some(info) => {
                        &&& count_sig(old(self).q@, s) >= 1
                        &&& count_sig(final(self).q@, s) == count_sig(old(self).q@, s) - 1
                        &&& final(self).q@.len() + 1 == old(self).q@.len()
                        &&& exists|i: int|
                            {
                                &&& 0 <= i < old(self).q@.len()
                                &&& #[trigger] old(self).q@[i].sig_no == s
                                &&& (forall|k: int|
                                    0 <= k < i ==> #[trigger] old(self).q@[k].sig_no != s)
                                &&& info == old(self).q@[i]
                                &&& final(self).q@ == old(self).q@.remove(i)
                            }
                    },
                }
            }),
    {
        let s: i32 = sig.number() as i32;
        match self.find_index(s) {
            None => (None, false),
            Some(i) => {
                let still: bool = self.has_later_match(s, i);
                let info: SigInfo = self.q.remove(i);
                proof {
                    lemma_count_sig_remove_first(old(self).q@, s, i as int);
                }
                (Some(info), still)
            },
        }
    }

    /// Removes every entry whose signal number has its bit set in `mask`.
    /// Only the queue changes; any fast-path assertion of those signals in
    /// an enclosing pending set is the caller's to settle.
    pub fn flush_by_mask(&mut self, mask: &SigSet)
        ensures
            final(self).q@ == flush_spec(old(self).q@, *mask),
    {
        let n: usize = self.q.len();
        let mut kept: Vec<SigInfo> = Vec::new();
        let mut j: usize = 0;
        while j < n
            invariant
                j <= n,
                n == self.q@.len(),
                self.q@ == old(self).q@,
                kept@ == flush_spec(self.q@.subrange(0, j as int), *mask),
            decreases n - j,
        {
            let x: SigInfo = self.q[j];
            proof {
                assert(self.q@.subrange(0, j as int + 1).drop_last() =~= self.q@.subrange(0,
                    j as int));
                assert(self.q@.subrange(0, j as int + 1).last() == self.q@[j as int]);
            }
            let no: i32 = x.sig_no();
            if !(1 <= no && no <= 64 && mask.has_signal(no as u32)) {
                kept.push(x);
            }
            j = j + 1;
        }
        proof {
            assert(self.q@.subrange(0, n as int) =~= self.q@);
        }
        self.q = kept;
    }

    /// The index of the first entry with signal number `s`, if any.
    fn find_index(&self, s: i32) -> (r: Option<usize>)
        ensures
            match r {
                None => count_sig(self.q@, s) == 0,
                Some(i) => {
                    &&& 0 <= i < self.q@.len()
                    &&& self.q@[i as int].sig_no == s
                    &&& (forall|k: int| 0 <= k < i ==> #[trigger] self.q@[k].sig_no != s)
                },
            },
    {
        let n: usize = self.q.len();
        let mut i: usize = 0;
        while i < n
            invariant
                i <= n,
                n == self.q@.len(),
                forall|k: int| 0 <= k < i ==> #[trigger] self.q@[k].sig_no != s,
            decreases n - i,
        {
            if self.q[i].sig_no() == s {
                return Some(i);
            }
            i = i + 1;
        }
        proof {
            lemma_count_sig_zero(self.q@, s);
        }
        None
    }

    /// Whether an entry past index `i` also carries signal number `s`; with
    /// a first match at `i`, that is exactly "the count is at least two".
    fn has_later_match(&self, s: i32, i: usize) -> (r: bool)
        requires
            i < self.q@.len(),
            self.q@[i as int].sig_no == s,
            forall|k: int| 0 <= k < i ==> #[trigger] self.q@[k].sig_no != s,
        ensures
            r == (count_sig(self.q@, s) >= 2),
    {
        let n: usize = self.q.len();
        let mut j: usize = i + 1;
        let mut still: bool = false;
        proof {
            lemma_count_prefix_one(self.q@, s, i as int, i + 1);
        }
        while j < n
            invariant
                i < j <= n,
                n == self.q@.len(),
                self.q@[i as int].sig_no == s,
                still ==> count_sig(self.q@.subrange(0, j as int), s) >= 2,
                !still ==> count_sig(self.q@.subrange(0, j as int), s) == 1,
            decreases n - j,
        {
            proof {
                assert(self.q@.subrange(0, j as int + 1).drop_last() =~= self.q@.subrange(0,
                    j as int));
                assert(self.q@.subrange(0, j as int + 1).last() == self.q@[j as int]);
            }
            if self.q[j].sig_no() == s {
                still = true;
            }
            j = j + 1;
        }
        proof {
            assert(self.q@.subrange(0, n as int) =~= self.q@);
        }
        still
    }
}

/// With the first match of `s` at index `i`, the prefix through `i` counts
/// exactly one entry of `s`.
proof fn lemma_count_prefix_one(q: Seq<SigInfo>, s: i32, i: int, end: int)
    requires
        0 <= i < q.len(),
        end == i + 1,
        q[i].sig_no == s,
        forall|k: int| 0 <= k < i ==> #[trigger] q[k].sig_no != s,
    ensures
        count_sig(q.subrange(0, end), s) == 1,
{
    let front = q.subrange(0, i);
    lemma_count_sig_zero(front, s);
    assert(q.subrange(0, end) =~= front.push(q[i]));
    lemma_count_sig_push(front, s, q[i]);
}

impl Default for SigQueue {
    /// The default queue is empty.
    fn default() -> (r: SigQueue)
        ensures
            r.q@.len() == 0,
    {
        SigQueue { q: Vec::new() }
    }
}

} // verus!
