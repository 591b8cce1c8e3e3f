//! secp256k1 curve points and the group operations the circuit model uses.
//!
//! A point is a pair of reduced base-field coordinates; the pair (0, 0), which
//! is not on the curve, stands for the point at infinity, matching the affine
//! encoding `halo2curves` uses. Scalar multiplication and point addition are
//! done by `halo2curves` behind trusted wrappers; their results are named by
//! the uninterpreted functions `ec_mul` and `ec_add`, so every contract above
//! them is exact up to those names.

use vstd::prelude::*;
use crate::u256::{U256, base_modulus, scalar_modulus};
use halo2curves::secp256k1::{Fp, Fq, Secp256k1Affine};
use halo2curves::group::Curve;
use rand_core::OsRng;

verus! {

/// An affine secp256k1 point; (0, 0) encodes the point at infinity.
#[derive(Clone, Copy, PartialEq, Eq, Structural, Debug)]
pub struct Point {
    pub x: U256,
    pub y: U256,
}

/// The mathematical value of a point: its coordinates as integers.
pub struct PointV {
    pub x: nat,
    pub y: nat,
}

impl View for Point {
    type V = PointV;

    open spec fn view(&self) -> PointV {
        PointV { x: self.x.as_nat(), y: self.y.as_nat() }
    }
}

impl Point {
    /// Coordinates are fully reduced base-field elements.
    pub open spec fn wf(self) -> bool {
        self.x.reduced_mod_p() && self.y.reduced_mod_p()
    }
}

/// The encoding of the point at infinity.
pub open spec fn pt_infinity(p: PointV) -> bool {
    p.x == 0 && p.y == 0
}

/// The secp256k1 curve equation, y^2 = x^3 + 7 over the base field, written
/// as the chain of reduced products the range-checked gadget computes.
pub open spec fn on_curve(p: PointV) -> bool {
    &&& p.x < base_modulus()
    &&& p.y < base_modulus()
    &&& (p.y * p.y) % base_modulus()
        == (((p.x * p.x) % base_modulus()) * p.x + 7) % base_modulus()
}

/// The value of the scalar multiple `k * p`; computed by `halo2curves`, so
/// the library names the result rather than restating the group law.
pub uninterp spec fn ec_mul(p: PointV, k: nat) -> PointV;

/// The value of the point sum `a + b`; computed by `halo2curves`.
pub uninterp spec fn ec_add(a: PointV, b: PointV) -> PointV;

/// The x-coordinate of the fixed generator of secp256k1.
pub open spec fn generator_x() -> nat {
    0x79be667ef9dcbbac55a06295ce870b07029bfcdb2dce28d959f2815b16f81798nat
}

/// The y-coordinate of the fixed generator of secp256k1.
pub open spec fn generator_y() -> nat {
    0x483ada7726a3c4655da4fbfc0e1108a8fd17b448a68554199c47d08ffb10d4b8nat
}

/// The value of the fixed generator.
pub open spec fn generator_v() -> PointV {
    PointV { x: generator_x(), y: generator_y() }
}

/// The fixed generator of secp256k1, with its documented coordinates.
pub fn generator() -> (r: Point)
    ensures
        r.wf(),
        r@ == generator_v(),
        !pt_infinity(r@),
{
    let r = Point {
        x: U256 {
            l0: 0x59f2815b16f81798,
            l1: 0x029bfcdb2dce28d9,
            l2: 0x55a06295ce870b07,
            l3: 0x79be667ef9dcbbac,
        },
        y: U256 {
            l0: 0x9c47d08ffb10d4b8,
            l1: 0xfd17b448a6855419,
            l2: 0x5da4fbfc0e1108a8,
            l3: 0x483ada7726a3c465,
        },
    };
    r
}

/// Relies on `halo2curves`' affine-times-scalar multiplication for
/// secp256k1: the result is the scalar multiple, in reduced affine form.
#[verifier::external_body]
pub(crate) fn point_mul(p: &Point, k: &U256) -> (r: Point)
    requires
        p.wf(),
        k.reduced_mod_n(),
    ensures
        r.wf(),
        r@ == ec_mul(p@, k.as_nat()),
{
    let a = Secp256k1Affine {
        x: Fp::from_raw([p.x.l0, p.x.l1, p.x.l2, p.x.l3]),
        y: Fp::from_raw([p.y.l0, p.y.l1, p.y.l2, p.y.l3]),
    };
    let q = (a * Fq::from_raw([k.l0, k.l1, k.l2, k.l3])).to_affine();
    Point { x: crate::field::u256_of_le(&q.x.to_bytes()), y: crate::field::u256_of_le(&q.y.to_bytes()) }
}

/// Relies on `halo2curves`' complete point addition for secp256k1: the result
/// is the group sum, in reduced affine form.
#[verifier::external_body]
pub(crate) fn point_add(p: &Point, q: &Point) -> (r: Point)
    requires
        p.wf(),
        q.wf(),
    ensures
        r.wf(),
        r@ == ec_add(p@, q@),
{
    let a = Secp256k1Affine {
        x: Fp::from_raw([p.x.l0, p.x.l1, p.x.l2, p.x.l3]),
        y: Fp::from_raw([p.y.l0, p.y.l1, p.y.l2, p.y.l3]),
    };
    let b = Secp256k1Affine {
        x: Fp::from_raw([q.x.l0, q.x.l1, q.x.l2, q.x.l3]),
        y: Fp::from_raw([q.y.l0, q.y.l1, q.y.l2, q.y.l3]),
    };
    let s = (a + b).to_affine();
    Point { x: crate::field::u256_of_le(&s.x.to_bytes()), y: crate::field::u256_of_le(&s.y.to_bytes()) }
}

/// Relies on `halo2curves`' affine point sampling, which draws x-coordinates
/// until one lies on the curve: the result is a curve point, never the point
/// at infinity, and two calls may differ.
#[verifier::external_body]
pub(crate) fn point_random() -> (r: Point)
    ensures
        r.wf(),
        on_curve(r@),
        !pt_infinity(r@),
{
    let q = Secp256k1Affine::random(OsRng);
    Point { x: crate::field::u256_of_le(&q.x.to_bytes()), y: crate::field::u256_of_le(&q.y.to_bytes()) }
}

/// Whether a point value is the encoded point at infinity, decided on limbs.
pub fn is_infinity(p: &Point) -> (r: bool)
    ensures
        r == pt_infinity(p@),
{
    let z = U256::zero();
    crate::u256::u256_eq(&p.x, &z) && crate::u256::u256_eq(&p.y, &z)
}

/// The on-curve check, computed with range-checked base-field arithmetic.
pub fn check_on_curve(p: &Point) -> (r: bool)
    requires
        p.wf(),
    ensures
        r == on_curve(p@),
{
    let xx = crate::field::base_mul(&p.x, &p.x);
    let xxx_term = crate::field::base_mul(&xx, &p.x);
    let seven = U256::from_u64(7);
    proof {
        assert(seven.as_nat() < base_modulus());
    }
    let rhs = crate::field::base_add(&xxx_term, &seven);
    let lhs = crate::field::base_mul(&p.y, &p.y);
    let r = crate::u256::u256_eq(&lhs, &rhs);
    proof {
        let pm = base_modulus() as int;
        let a = (((p.x.as_nat() * p.x.as_nat()) % base_modulus()) * p.x.as_nat()) as int;
        // fold the reduction of x^3 into one statement of the curve equation
        vstd::arithmetic::div_mod::lemma_add_mod_noop(a, 7, pm);
        vstd::arithmetic::div_mod::lemma_small_mod(7, base_modulus());
    }
    r
}

} // verus!
