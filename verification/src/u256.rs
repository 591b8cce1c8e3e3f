//! 256-bit unsigned values held as four 64-bit limbs.
//!
//! Both fields of secp256k1 (the base field of the curve and the scalar field,
//! i.e. the group order) have 256-bit moduli, so every field element that the
//! circuit handles is one of these values together with a range invariant.

use vstd::prelude::*;
use vstd::arithmetic::div_mod::{lemma_small_mod, lemma_mod_sub_multiples_vanish};

verus! {

/// A 256-bit unsigned integer: `l0` is the least significant limb.
#[derive(Clone, Copy, PartialEq, Eq, Structural, Debug)]
pub struct U256 {
    pub l0: u64,
    pub l1: u64,
    pub l2: u64,
    pub l3: u64,
}

/// The order of the secp256k1 group (the modulus of the scalar field).
pub open spec fn scalar_modulus() -> nat {
    0xfffffffffffffffffffffffffffffffebaaedce6af48a03bbfd25e8cd0364141nat
}

/// The modulus of the secp256k1 base field (curve coordinates live here).
pub open spec fn base_modulus() -> nat {
    0xfffffffffffffffffffffffffffffffffffffffffffffffffffffffefffffc2fnat
}

impl U256 {
    /// The integer a value stands for: the weighted sum of its limbs.
    pub open spec fn as_nat(self) -> nat {
        (self.l0 as nat)
        + (self.l1 as nat) * 0x10000000000000000
        + (self.l2 as nat) * 0x100000000000000000000000000000000nat
        + (self.l3 as nat) * 0x1000000000000000000000000000000000000000000000000nat
    }

    /// A fully reduced representative of the scalar field.
    pub open spec fn reduced_mod_n(self) -> bool {
        self.as_nat() < scalar_modulus()
    }

    /// A fully reduced representative of the base field.
    pub open spec fn reduced_mod_p(self) -> bool {
        self.as_nat() < base_modulus()
    }

    pub fn zero() -> (r: U256)
        ensures
            r.as_nat() == 0,
    {
        U256 { l0: 0, l1: 0, l2: 0, l3: 0 }
    }

    pub fn from_u64(v: u64) -> (r: U256)
        ensures
            r.as_nat() == v,
    {
        U256 { l0: v, l1: 0, l2: 0, l3: 0 }
    }
}

/// The group order as a value.
pub fn order() -> (r: U256)
    ensures
        r.as_nat() == scalar_modulus(),
{
    U256 {
        l0: 0xbfd25e8cd0364141,
        l1: 0xbaaedce6af48a03b,
        l2: 0xfffffffffffffffe,
        l3: 0xffffffffffffffff,
    }
}

/// The base-field modulus as a value.
pub fn base_prime() -> (r: U256)
    ensures
        r.as_nat() == base_modulus(),
{
    U256 {
        l0: 0xfffffffefffffc2f,
        l1: 0xffffffffffffffff,
        l2: 0xffffffffffffffff,
        l3: 0xffffffffffffffff,
    }
}

/// Numeric comparison, decided limb by limb from the most significant end.
pub fn u256_lt(a: &U256, b: &U256) -> (r: bool)
    ensures
        r == (a.as_nat() < b.as_nat()),
{
    proof {
        lemma_low_limbs_bound(*a);
        lemma_low_limbs_bound(*b);
    }
    if a.l3 != b.l3 {
        a.l3 < b.l3
    } else if a.l2 != b.l2 {
        a.l2 < b.l2
    } else if a.l1 != b.l1 {
        a.l1 < b.l1
    } else {
        a.l0 < b.l0
    }
}

/// Numeric equality.
pub fn u256_eq(a: &U256, b: &U256) -> (r: bool)
    ensures
        r == (a.as_nat() == b.as_nat()),
{
    !u256_lt(a, b) && !u256_lt(b, a)
}

/// Every prefix of the limb sum stays below the weight of the next limb.
proof fn lemma_low_limbs_bound(a: U256)
    ensures
        (a.l0 as nat) < 0x10000000000000000,
        (a.l0 as nat) + (a.l1 as nat) * 0x10000000000000000 < 0x100000000000000000000000000000000nat,
        (a.l0 as nat) + (a.l1 as nat) * 0x10000000000000000
            + (a.l2 as nat) * 0x100000000000000000000000000000000nat
            < 0x1000000000000000000000000000000000000000000000000nat,
        a.as_nat() < 0x10000000000000000000000000000000000000000000000000000000000000000nat,
{
}

/// Limb-wise subtraction with borrow.
pub fn u256_sub(a: &U256, b: &U256) -> (r: U256)
    requires
        b.as_nat() <= a.as_nat(),
    ensures
        r.as_nat() == a.as_nat() - b.as_nat(),
{
    let t0: u128 = a.l0 as u128 + 0x10000000000000000u128 - b.l0 as u128;
    let r0: u64 = (t0 % 0x10000000000000000u128) as u64;
    let c0: u128 = t0 / 0x10000000000000000u128;
    let t1: u128 = a.l1 as u128 + 0xffffffffffffffffu128 + c0 - b.l1 as u128;
    let r1: u64 = (t1 % 0x10000000000000000u128) as u64;
    let c1: u128 = t1 / 0x10000000000000000u128;
    let t2: u128 = a.l2 as u128 + 0xffffffffffffffffu128 + c1 - b.l2 as u128;
    let r2: u64 = (t2 % 0x10000000000000000u128) as u64;
    let c2: u128 = t2 / 0x10000000000000000u128;
    let t3: u128 = a.l3 as u128 + 0xffffffffffffffffu128 + c2 - b.l3 as u128;
    let r3: u64 = (t3 % 0x10000000000000000u128) as u64;
    let c3: u128 = t3 / 0x10000000000000000u128;
    let r = U256 { l0: r0, l1: r1, l2: r2, l3: r3 };
    proof {
        lemma_low_limbs_bound(*a);
        lemma_low_limbs_bound(*b);
        lemma_low_limbs_bound(r);
        assert(t0 == c0 * 0x10000000000000000 + r0) by {
            vstd::arithmetic::div_mod::lemma_fundamental_div_mod(t0 as int, 0x10000000000000000);
        };
        assert(t1 == c1 * 0x10000000000000000 + r1) by {
            vstd::arithmetic::div_mod::lemma_fundamental_div_mod(t1 as int, 0x10000000000000000);
        };
        assert(t2 == c2 * 0x10000000000000000 + r2) by {
            vstd::arithmetic::div_mod::lemma_fundamental_div_mod(t2 as int, 0x10000000000000000);
        };
        assert(t3 == c3 * 0x10000000000000000 + r3) by {
            vstd::arithmetic::div_mod::lemma_fundamental_div_mod(t3 as int, 0x10000000000000000);
        };
        assert(c0 <= 1 && c1 <= 1 && c2 <= 1 && c3 <= 1);
        // Weighting the four limb identities and summing telescopes the
        // borrow chain into a single identity over the 256-bit values.
        assert(a.as_nat() + 0x10000000000000000000000000000000000000000000000000000000000000000nat
            == b.as_nat() + r.as_nat()
                + c3 * 0x10000000000000000000000000000000000000000000000000000000000000000nat)
            by (nonlinear_arith)
            requires
                t0 == a.l0 as nat + 0x10000000000000000 - b.l0 as nat,
                t1 == a.l1 as nat + 0xffffffffffffffff + c0 - b.l1 as nat,
                t2 == a.l2 as nat + 0xffffffffffffffff + c1 - b.l2 as nat,
                t3 == a.l3 as nat + 0xffffffffffffffff + c2 - b.l3 as nat,
                t0 == c0 * 0x10000000000000000 + r0,
                t1 == c1 * 0x10000000000000000 + r1,
                t2 == c2 * 0x10000000000000000 + r2,
                t3 == c3 * 0x10000000000000000 + r3,
                a.as_nat() == (a.l0 as nat)
                    + (a.l1 as nat) * 0x10000000000000000
                    + (a.l2 as nat) * 0x100000000000000000000000000000000nat
                    + (a.l3 as nat) * 0x1000000000000000000000000000000000000000000000000nat,
                b.as_nat() == (b.l0 as nat)
                    + (b.l1 as nat) * 0x10000000000000000
                    + (b.l2 as nat) * 0x100000000000000000000000000000000nat
                    + (b.l3 as nat) * 0x1000000000000000000000000000000000000000000000000nat,
                r.as_nat() == (r0 as nat)
                    + (r1 as nat) * 0x10000000000000000
                    + (r2 as nat) * 0x100000000000000000000000000000000nat
                    + (r3 as nat) * 0x1000000000000000000000000000000000000000000000000nat,
        ;
        assert(c3 == 1);
    }
    r
}

/// The base-field modulus is below twice the group order, so one conditional
/// subtraction reduces any base-field value into the scalar field.
pub proof fn lemma_base_below_twice_order()
    ensures
        base_modulus() < 2 * scalar_modulus(),
{
}

/// Cross-field reduction: bring a value (in particular the x-coordinate of a
/// curve point, a base-field element) into the scalar field.
pub fn mod_n(x: &U256) -> (r: U256)
    requires
        x.as_nat() < 2 * scalar_modulus(),
    ensures
        r.as_nat() == x.as_nat() % scalar_modulus(),
        r.reduced_mod_n(),
{
    let n = order();
    if u256_lt(x, &n) {
        proof {
            lemma_small_mod(x.as_nat(), scalar_modulus());
        }
        *x
    } else {
        let d = u256_sub(x, &n);
        proof {
            lemma_mod_sub_multiples_vanish(x.as_nat() as int, scalar_modulus() as int);
            lemma_small_mod(d.as_nat(), scalar_modulus());
        }
        d
    }
}

} // verus!
