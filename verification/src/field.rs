//! Field elements represented as residues modulo a prime.
//!
//! The engine is parametric in the field: every operation takes the modulus
//! as an argument, so the same circuit logic runs over any prime field whose
//! elements fit in a machine word.

use vstd::arithmetic::div_mod::{lemma_mod_self_0, lemma_small_mod};
use vstd::prelude::*;

verus! {

/// An element of the field of integers modulo some prime `p`.
///
/// A value is well formed for a modulus `p` when `value < p`; see [`fp_wf`].
#[derive(Clone, Copy, Debug, PartialEq, Eq, Structural)]
pub struct Fp {
    pub value: u64,
}

/// A usable modulus: at least 2, so that 0 and 1 are distinct residues.
pub open spec fn modulus_wf(p: u64) -> bool {
    p >= 2
}

/// Well-formedness of a field element for modulus `p`.
pub open spec fn fp_wf(a: Fp, p: u64) -> bool {
    a.value < p
}

/// Mathematical sum of two residues.
pub open spec fn add_mod(a: int, b: int, p: int) -> int {
    (a + b) % p
}

/// Mathematical product of two residues.
pub open spec fn mul_mod(a: int, b: int, p: int) -> int {
    (a * b) % p
}

/// Mathematical additive inverse of a residue.
pub open spec fn neg_mod(a: int, p: int) -> int {
    (p - a) % p
}

impl Fp {
    /// The additive identity.
    pub fn zero() -> (r: Fp)
        ensures
            r.value == 0,
    {
        Fp { value: 0 }
    }

    /// The multiplicative identity.
    pub fn one() -> (r: Fp)
        ensures
            r.value == 1,
    {
        Fp { value: 1 }
    }

    /// Builds the element of residue `value` modulo `p`.
    pub fn new(value: u64, p: u64) -> (r: Fp)
        requires
            modulus_wf(p),
        ensures
            fp_wf(r, p),
            r.value == value as int % p as int,
    {
        Fp { value: value % p }
    }

    /// Field addition modulo `p`.
    pub fn add(self, other: Fp, p: u64) -> (r: Fp)
        requires
            modulus_wf(p),
            fp_wf(self, p),
            fp_wf(other, p),
        ensures
            fp_wf(r, p),
            r.value == add_mod(self.value as int, other.value as int, p as int),
    {
        let sum: u128 = self.value as u128 + other.value as u128;
        let reduced: u128 = sum % (p as u128);
        assert(reduced < p as u128);
        let r = Fp { value: reduced as u64 };
        r
    }

    /// Field multiplication modulo `p`.
    pub fn mul(self, other: Fp, p: u64) -> (r: Fp)
        requires
            modulus_wf(p),
            fp_wf(self, p),
            fp_wf(other, p),
        ensures
            fp_wf(r, p),
            r.value == mul_mod(self.value as int, other.value as int, p as int),
    {
        assert((self.value as int) * (other.value as int) <= u64::MAX as int * u64::MAX as int)
            by (nonlinear_arith)
            requires
                self.value <= u64::MAX,
                other.value <= u64::MAX,
        ;
        let prod: u128 = (self.value as u128) * (other.value as u128);
        let reduced: u128 = prod % (p as u128);
        assert(reduced < p as u128);
        let r = Fp { value: reduced as u64 };
        r
    }

    /// Field additive inverse modulo `p`.
    pub fn neg(self, p: u64) -> (r: Fp)
        requires
            modulus_wf(p),
            fp_wf(self, p),
        ensures
            fp_wf(r, p),
            r.value == neg_mod(self.value as int, p as int),
    {
        let r = Fp { value: (p - self.value) % p };
        r
    }
}

/// A residue added to its additive inverse yields the additive identity.
pub proof fn lemma_add_neg_zero(a: int, p: int)
    requires
        p >= 2,
        0 <= a < p,
    ensures
        add_mod(a, neg_mod(a, p), p) == 0,
{
    lemma_mod_self_0(p);
    if a == 0 {
        lemma_small_mod(0nat, p as nat);
    } else {
        lemma_small_mod((p - a) as nat, p as nat);
        assert(neg_mod(a, p) == p - a);
        assert(a + (p - a) == p);
    }
}

} // verus!
