//! The fixed-width signal set: a 64-bit word in which bit `n - 1` stands for
//! signal number `n`.

use vstd::prelude::*;

verus! {

/// True iff bit `k` of `bits` is set.  Only bit positions below 64 exist.
pub open spec fn bit_set(bits: u64, k: u64) -> bool {
    k < 64 && (bits >> k) & 1u64 == 1u64
}

/// Fixed 64-bit signal set.  Bit `n - 1` represents signal number `n`;
/// only the low 64 bits are meaningful, so the word is the whole state.
#[derive(Clone, Copy, PartialEq, Eq, Structural, Debug)]
pub struct SigSet {
    bits: u64,
}

impl SigSet {
    /// The raw 64-bit word of the set.
    pub closed spec fn spec_bits(self) -> u64 {
        self.bits
    }

    /// Signal number `n` is a member of the set.
    pub open spec fn has(self, n: u32) -> bool {
        1 <= n <= 64 && bit_set(self.spec_bits(), (n - 1) as u64)
    }

    #[verifier::when_used_as_spec(spec_bits)]
    pub fn bits(self) -> (r: u64)
        ensures
            r == self.spec_bits(),
    {
        self.bits
    }

    /// The set with no members.
    pub fn empty() -> (r: SigSet)
        ensures
            r.spec_bits() == 0u64,
            forall|n: u32| !r.has(n),
    {
        proof {
            assert forall|n: u32| !(SigSet { bits: 0u64 }).has(n) by {
                if 1 <= n <= 64 {
                    let k = (n - 1) as u64;
                    assert(k < 64 ==> (0u64 >> k) & 1u64 == 0u64) by (bit_vector);
                }
            }
        }
        SigSet { bits: 0u64 }
    }

    /// Builds a set from a raw word.  All 64 bits are meaningful here, so no
    /// bit is actually truncated; the name follows the usual bit-set API.
    pub fn from_bits_truncate(bits: u64) -> (r: SigSet)
        ensures
            r.spec_bits() == bits,
    {
        SigSet { bits }
    }

    /// Set union.
    pub fn union(self, other: SigSet) -> (r: SigSet)
        ensures
            r.spec_bits() == (self.spec_bits() | other.spec_bits()),
            forall|n: u32| #[trigger] r.has(n) <==> self.has(n) || other.has(n),
    {
        let r = SigSet { bits: self.bits | other.bits };
        proof {
            assert forall|n: u32| #[trigger] r.has(n) <==> self.has(n) || other.has(n) by {
                if 1 <= n <= 64 {
                    lemma_bit_or(self.spec_bits(), other.spec_bits(), (n - 1) as u64);
                }
            }
        }
        r
    }

    /// Set intersection.
    pub fn intersection(self, other: SigSet) -> (r: SigSet)
        ensures
            r.spec_bits() == (self.spec_bits() & other.spec_bits()),
            forall|n: u32| #[trigger] r.has(n) <==> self.has(n) && other.has(n),
    {
        let r = SigSet { bits: self.bits & other.bits };
        proof {
            assert forall|n: u32| #[trigger] r.has(n) <==> self.has(n) && other.has(n) by {
                if 1 <= n <= 64 {
                    lemma_bit_and(self.spec_bits(), other.spec_bits(), (n - 1) as u64);
                }
            }
        }
        r
    }

    /// Set complement (within the 64 possible signals).
    pub fn complement(self) -> (r: SigSet)
        ensures
            r.spec_bits() == !self.spec_bits(),
            forall|n: u32| #[trigger] r.has(n) <==> 1 <= n <= 64 && !self.has(n),
    {
        let r = SigSet { bits: !self.bits };
        proof {
            assert forall|n: u32| #[trigger] r.has(n) <==> 1 <= n <= 64 && !self.has(n) by {
                if 1 <= n <= 64 {
                    lemma_bit_not(self.spec_bits(), (n - 1) as u64);
                }
            }
        }
        r
    }

    /// True iff every member of `other` is a member of `self`.
    pub fn contains(self, other: SigSet) -> (r: bool)
        ensures
            r == (self.spec_bits() & other.spec_bits() == other.spec_bits()),
            r <==> (forall|n: u32| #[trigger] other.has(n) ==> self.has(n)),
    {
        proof {
            lemma_u64_superset(self.spec_bits(), other.spec_bits());
            if self.spec_bits() & other.spec_bits() == other.spec_bits() {
                assert forall|n: u32| #[trigger] other.has(n) implies self.has(n) by {
                    assert(bit_set(other.spec_bits(), (n - 1) as u64));
                }
            } else {
                let k = choose|k: u64|
                    #[trigger] bit_set(other.spec_bits(), k) && !bit_set(self.spec_bits(), k);
                assert(other.has((k + 1) as u32) && !self.has((k + 1) as u32));
            }
        }
        self.bits & other.bits == other.bits
    }

    /// Adds every member of `other` to `self`.
    pub fn insert(&mut self, other: SigSet)
        ensures
            final(self).spec_bits() == (old(self).spec_bits() | other.spec_bits()),
            forall|n: u32| #[trigger] final(self).has(n) <==> old(self).has(n) || other.has(n),
    {
        let r = SigSet { bits: self.bits | other.bits };
        proof {
            assert forall|n: u32| #[trigger] r.has(n) <==> old(self).has(n) || other.has(n) by {
                if 1 <= n <= 64 {
                    lemma_bit_or(old(self).spec_bits(), other.spec_bits(), (n - 1) as u64);
                }
            }
        }
        *self = r;
    }

    /// Removes every member of `other` from `self`.
    pub fn remove(&mut self, other: SigSet)
        ensures
            final(self).spec_bits() == (old(self).spec_bits() & !other.spec_bits()),
            forall|n: u32| #[trigger] final(self).has(n) <==> old(self).has(n) && !other.has(n),
    {
        let r = SigSet { bits: self.bits & !other.bits };
        proof {
            assert forall|n: u32| #[trigger] r.has(n) <==> old(self).has(n) && !other.has(n) by {
                if 1 <= n <= 64 {
                    lemma_bit_and(old(self).spec_bits(), !other.spec_bits(), (n - 1) as u64);
                    lemma_bit_not(other.spec_bits(), (n - 1) as u64);
                }
            }
        }
        *self = r;
    }

    /// True iff signal number `n` is a member of the set.
    pub fn has_signal(self, n: u32) -> (r: bool)
        ensures
            r == self.has(n),
    {
        if 1 <= n && n <= 64 {
            (self.bits >> ((n - 1) as u64)) & 1u64 == 1u64
        } else {
            false
        }
    }

    /// True iff the set has no member.
    pub fn is_empty(self) -> (r: bool)
        ensures
            r == (self.spec_bits() == 0u64),
            r <==> (forall|n: u32| !(#[trigger] self.has(n))),
    {
        proof {
            lemma_u64_zero_iff_no_bit(self.spec_bits());
            if self.spec_bits() == 0u64 {
                assert forall|n: u32| !(#[trigger] self.has(n)) by {
                    if 1 <= n <= 64 {
                        assert(!bit_set(self.spec_bits(), (n - 1) as u64));
                    }
                }
            } else {
                let k = choose|k: u64| bit_set(self.spec_bits(), k);
                assert(self.has((k + 1) as u32));
            }
        }
        self.bits == 0u64
    }

    /// The number of signals in the set.
    pub fn count(self) -> (r: u32)
        ensures
            r == pop_count(self.spec_bits()),
            r <= 64,
    {
        let ghost orig: u64 = self.bits;
        let mut cur: u64 = self.bits;
        let mut c: u32 = 0;
        let mut i: u32 = 0;
        proof {
            lemma_pop_count_rec_bound(orig, 64);
        }
        while i < 64
            invariant
                i <= 64,
                c <= i,
                c + pop_count_rec(cur, (64 - i) as nat) == pop_count(orig),
                pop_count(orig) <= 64,
            decreases 64 - i,
        {
            proof {
                assert((cur & 1u64) <= 1u64) by (bit_vector);
            }
            c = c + (cur & 1u64) as u32;
            cur = cur >> 1u64;
            i = i + 1;
        }
        c
    }
}

/// The number of set bits among the low `k` remaining positions of `x`
/// (the word is examined one bit at a time, shifting right).
pub open spec fn pop_count_rec(x: u64, k: nat) -> nat
    decreases k,
{
    if k == 0 {
        0
    } else {
        ((x & 1u64) as nat) + pop_count_rec(x >> 1u64, (k - 1) as nat)
    }
}

/// The number of set bits of `x`.
pub open spec fn pop_count(x: u64) -> nat {
    pop_count_rec(x, 64)
}

proof fn lemma_pop_count_rec_bound(x: u64, k: nat)
    ensures
        pop_count_rec(x, k) <= k,
    decreases k,
{
    if k > 0 {
        assert((x & 1u64) <= 1u64) by (bit_vector);
        lemma_pop_count_rec_bound(x >> 1u64, (k - 1) as nat);
    }
}

/// Bit `k` of a union is set iff it is set on either side.
pub proof fn lemma_bit_or(a: u64, b: u64, k: u64)
    requires
        k < 64,
    ensures
        bit_set(a | b, k) == (bit_set(a, k) || bit_set(b, k)),
{
    assert(k < 64 ==> ((((a | b) >> k) & 1u64 == 1u64) <==> (((a >> k) & 1u64 == 1u64) || ((b
        >> k) & 1u64 == 1u64)))) by (bit_vector);
}

/// Bit `k` of an intersection is set iff it is set on both sides.
pub proof fn lemma_bit_and(a: u64, b: u64, k: u64)
    requires
        k < 64,
    ensures
        bit_set(a & b, k) == (bit_set(a, k) && bit_set(b, k)),
{
    assert(k < 64 ==> ((((a & b) >> k) & 1u64 == 1u64) <==> (((a >> k) & 1u64 == 1u64) && ((b
        >> k) & 1u64 == 1u64)))) by (bit_vector);
}

/// Bit `k` of a complement is set iff it is clear in the original.
pub proof fn lemma_bit_not(a: u64, k: u64)
    requires
        k < 64,
    ensures
        bit_set(!a, k) == !bit_set(a, k),
{
    assert(k < 64 ==> ((((!a) >> k) & 1u64 == 1u64) <==> !((a >> k) & 1u64 == 1u64)))
        by (bit_vector);
}

/// In a one-bit word, exactly the chosen bit is set.
pub proof fn lemma_bit_single(j: u64, k: u64)
    requires
        j < 64,
        k < 64,
    ensures
        bit_set(1u64 << j, k) == (j == k),
{
    assert(j < 64 && k < 64 ==> ((((1u64 << j) >> k) & 1u64 == 1u64) <==> j == k))
        by (bit_vector);
}

/// Two sets over the same word are the same set.
pub proof fn lemma_sigset_eq(a: SigSet, b: SigSet)
    requires
        a.spec_bits() == b.spec_bits(),
    ensures
        a == b,
{
}

/// A word is zero exactly when none of its 64 bits is set.
pub proof fn lemma_u64_zero_iff_no_bit(x: u64)
    ensures
        (x == 0u64) <==> (forall|k: u64| !(#[trigger] bit_set(x, k))),
{
    if x == 0u64 {
        assert forall|k: u64| !(#[trigger] bit_set(x, k)) by {
            assert(k < 64 ==> (0u64 >> k) & 1u64 == 0u64) by (bit_vector);
        }
    } else {
        vstd::std_specs::bits::axiom_u64_trailing_zeros(x);
        let t = vstd::std_specs::bits::u64_trailing_zeros(x) as u64;
        assert(bit_set(x, t));
    }
}

/// `a & b == b` exactly when every set bit of `b` is also set in `a`.
pub proof fn lemma_u64_superset(a: u64, b: u64)
    ensures
        (a & b == b) <==> (forall|k: u64| #[trigger] bit_set(b, k) ==> bit_set(a, k)),
{
    if a & b == b {
        assert forall|k: u64| #[trigger] bit_set(b, k) implies bit_set(a, k) by {
            assert(k < 64 && a & b == b ==> (((b >> k) & 1u64 == 1u64) ==> ((a >> k) & 1u64
                == 1u64))) by (bit_vector);
        }
    } else {
        let d = (a & b) ^ b;
        assert(a & b != b ==> ((a & b) ^ b) != 0u64) by (bit_vector);
        vstd::std_specs::bits::axiom_u64_trailing_zeros(d);
        let t = vstd::std_specs::bits::u64_trailing_zeros(d) as u64;
        assert(t < 64 && (d >> t) & 1u64 == 1u64);
        assert(t < 64 && ((((a & b) ^ b) >> t) & 1u64 == 1u64) ==> (((b >> t) & 1u64 == 1u64)
            && !((a >> t) & 1u64 == 1u64))) by (bit_vector);
        assert(bit_set(b, t) && !bit_set(a, t));
    }
}

} // verus!
