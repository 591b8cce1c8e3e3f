//! Arithmetic in the two prime fields of secp256k1, done by `halo2curves`
//! behind trusted wrappers.
//!
//! The wrappers state the one fact each call is relied on for: the result is
//! the exact modular sum, product or inverse of the inputs, as a fully reduced
//! value. Everything built on top of them is verified.

use vstd::prelude::*;
use vstd::arithmetic::div_mod::{
    lemma_small_mod, lemma_mul_mod_noop_general, lemma_mul_mod_noop_right,
};
use crate::u256::{U256, scalar_modulus, base_modulus};
use halo2curves::secp256k1::{Fp, Fq};
use halo2curves::ff::Field;
use rand_core::OsRng;

verus! {

/// Rebuilds a 256-bit value from the canonical little-endian byte string that
/// `halo2curves` hands back; used by the trusted wrappers to convert results.
pub(crate) fn u256_of_le(c: &[u8; 32]) -> U256 {
    U256 {
        l0: c[0] as u64 + c[1] as u64 * 0x100 + c[2] as u64 * 0x10000
            + c[3] as u64 * 0x1000000 + c[4] as u64 * 0x100000000
            + c[5] as u64 * 0x10000000000 + c[6] as u64 * 0x1000000000000
            + c[7] as u64 * 0x100000000000000,
        l1: c[8] as u64 + c[9] as u64 * 0x100 + c[10] as u64 * 0x10000
            + c[11] as u64 * 0x1000000 + c[12] as u64 * 0x100000000
            + c[13] as u64 * 0x10000000000 + c[14] as u64 * 0x1000000000000
            + c[15] as u64 * 0x100000000000000,
        l2: c[16] as u64 + c[17] as u64 * 0x100 + c[18] as u64 * 0x10000
            + c[19] as u64 * 0x1000000 + c[20] as u64 * 0x100000000
            + c[21] as u64 * 0x10000000000 + c[22] as u64 * 0x1000000000000
            + c[23] as u64 * 0x100000000000000,
        l3: c[24] as u64 + c[25] as u64 * 0x100 + c[26] as u64 * 0x10000
            + c[27] as u64 * 0x1000000 + c[28] as u64 * 0x100000000
            + c[29] as u64 * 0x10000000000 + c[30] as u64 * 0x1000000000000
            + c[31] as u64 * 0x100000000000000,
    }
}

/// Relies on `halo2curves::secp256k1::Fq` multiplication: the product of two
/// scalar-field elements, reduced modulo the group order.
#[verifier::external_body]
pub(crate) fn scalar_mul(a: &U256, b: &U256) -> (r: U256)
    requires
        a.reduced_mod_n(),
        b.reduced_mod_n(),
    ensures
        r.reduced_mod_n(),
        r.as_nat() == (a.as_nat() * b.as_nat()) % scalar_modulus(),
{
    let f = Fq::from_raw([a.l0, a.l1, a.l2, a.l3]) * Fq::from_raw([b.l0, b.l1, b.l2, b.l3]);
    u256_of_le(&f.to_bytes())
}

/// Relies on `halo2curves::secp256k1::Fq` addition: the sum of two
/// scalar-field elements, reduced modulo the group order.
#[verifier::external_body]
pub(crate) fn scalar_add(a: &U256, b: &U256) -> (r: U256)
    requires
        a.reduced_mod_n(),
        b.reduced_mod_n(),
    ensures
        r.reduced_mod_n(),
        r.as_nat() == (a.as_nat() + b.as_nat()) % scalar_modulus(),
{
    let f = Fq::from_raw([a.l0, a.l1, a.l2, a.l3]) + Fq::from_raw([b.l0, b.l1, b.l2, b.l3]);
    u256_of_le(&f.to_bytes())
}

/// Relies on `halo2curves::secp256k1::Fq::invert`: the multiplicative inverse
/// of a nonzero scalar-field element, and rejection of zero.
#[verifier::external_body]
pub(crate) fn scalar_invert(a: &U256) -> (r: Option<U256>)
    requires
        a.reduced_mod_n(),
    ensures
        match r {
            Some(v) => a.as_nat() != 0 && v.reduced_mod_n()
                && (a.as_nat() * v.as_nat()) % scalar_modulus() == 1,
            None => a.as_nat() == 0,
        },
{
    let inv = Fq::from_raw([a.l0, a.l1, a.l2, a.l3]).invert();
    Option::<Fq>::from(inv).map(|f| u256_of_le(&f.to_bytes()))
}

/// Relies on `halo2curves::secp256k1::Fq::random`: a scalar-field element
/// sampled from system randomness. Nothing is promised of its value beyond
/// reduction, and two calls may differ.
#[verifier::external_body]
pub(crate) fn scalar_random() -> (r: U256)
    ensures
        r.reduced_mod_n(),
{
    u256_of_le(&Fq::random(OsRng).to_bytes())
}

/// Relies on `halo2curves::secp256k1::Fp` multiplication: the product of two
/// base-field elements, reduced modulo the base-field prime.
#[verifier::external_body]
pub(crate) fn base_mul(a: &U256, b: &U256) -> (r: U256)
    requires
        a.reduced_mod_p(),
        b.reduced_mod_p(),
    ensures
        r.reduced_mod_p(),
        r.as_nat() == (a.as_nat() * b.as_nat()) % base_modulus(),
{
    let f = Fp::from_raw([a.l0, a.l1, a.l2, a.l3]) * Fp::from_raw([b.l0, b.l1, b.l2, b.l3]);
    u256_of_le(&f.to_bytes())
}

/// Relies on `halo2curves::secp256k1::Fp` addition: the sum of two base-field
/// elements, reduced modulo the base-field prime.
#[verifier::external_body]
pub(crate) fn base_add(a: &U256, b: &U256) -> (r: U256)
    requires
        a.reduced_mod_p(),
        b.reduced_mod_p(),
    ensures
        r.reduced_mod_p(),
        r.as_nat() == (a.as_nat() + b.as_nat()) % base_modulus(),
{
    let f = Fp::from_raw([a.l0, a.l1, a.l2, a.l3]) + Fp::from_raw([b.l0, b.l1, b.l2, b.l3]);
    u256_of_le(&f.to_bytes())
}

/// The multiplicative inverse of `s` in the scalar field, as far as one
/// exists: the reduced value whose product with `s` is 1 modulo the order.
pub open spec fn inv_n(s: nat) -> nat {
    choose|x: nat| x < scalar_modulus() && #[trigger] ((s * x) % scalar_modulus()) == 1
}

/// Modular inverses are unique: two reduced values that both multiply `s` to 1
/// modulo the order are equal.
pub proof fn lemma_inverse_unique(s: nat, x: nat, y: nat)
    requires
        x < scalar_modulus(),
        y < scalar_modulus(),
        (s * x) % scalar_modulus() == 1,
        (s * y) % scalar_modulus() == 1,
    ensures
        x == y,
{
    let n = scalar_modulus() as int;
    let si = s as int;
    let xi = x as int;
    let yi = y as int;
    assert((si * xi) % n == 1 && (si * yi) % n == 1);
    // x == (x * (s * y)) % n, since (s * y) % n == 1 and x is reduced
    assert((xi * (si * yi)) % n == (xi * ((si * yi) % n)) % n) by {
        lemma_mul_mod_noop_right(xi, si * yi, n);
    };
    assert((xi * 1) % n == xi) by {
        lemma_small_mod(x, scalar_modulus());
    };
    // regroup the product
    assert(xi * (si * yi) == (si * xi) * yi) by (nonlinear_arith);
    // ((s * x) * y) % n == y, since (s * x) % n == 1 and y is reduced
    assert(((si * xi) * yi) % n == (((si * xi) % n) * yi) % n) by {
        lemma_mul_mod_noop_general(si * xi, yi, n);
    };
    assert((1int * yi) % n == yi) by {
        lemma_small_mod(y, scalar_modulus());
    };
}

/// Inversion is injective on reduced invertible scalars: mutating the `s`
/// component of a signature to a different invertible value changes `s^-1`,
/// and with it the scalars `u1` and `u2` the verifier derives. (That the
/// changed scalars move the computed curve point is a property of the curve
/// arithmetic, which stays with the curve capability.)
pub proof fn lemma_inverse_injective(s1: nat, s2: nat)
    requires
        s1 < scalar_modulus(),
        s2 < scalar_modulus(),
        (s1 * inv_n(s1)) % scalar_modulus() == 1,
        (s2 * inv_n(s2)) % scalar_modulus() == 1,
        inv_n(s1) == inv_n(s2),
    ensures
        s1 == s2,
{
    let v = inv_n(s1);
    assert(s1 * v == v * s1) by (nonlinear_arith);
    assert(s2 * v == v * s2) by (nonlinear_arith);
    lemma_inverse_unique(v, s1, s2);
}

/// A witness that a reduced value inverts `s` pins down `inv_n(s)`.
pub proof fn lemma_inv_n_is(s: nat, x: nat)
    requires
        x < scalar_modulus(),
        (s * x) % scalar_modulus() == 1,
    ensures
        inv_n(s) == x,
        (s * inv_n(s)) % scalar_modulus() == 1,
        inv_n(s) < scalar_modulus(),
{
    assert(inv_n(s) < scalar_modulus() && (s * inv_n(s)) % scalar_modulus() == 1) by {
        assert(x < scalar_modulus() && (s * x) % scalar_modulus() == 1);
    };
    lemma_inverse_unique(s, x, inv_n(s));
}

} // verus!
