//! The ECDSA verification gadget, and the signing equation it answers to.
//!
//! `EcdsaChip::verify` mirrors the constrained computation: invert `s`, form
//! `u1 = h * s^-1` and `u2 = r * s^-1` in the scalar field, compute
//! `u1 * G + u2 * Q` on the curve, reduce the x-coordinate across fields and
//! compare it with `r`. Its contract pins the outcome exactly, up to the named
//! curve operations `ec_mul` and `ec_add`.

use vstd::prelude::*;
use vstd::arithmetic::div_mod::{
    lemma_small_mod, lemma_add_mod_noop, lemma_add_mod_noop_right, lemma_mul_mod_noop_general,
    lemma_mul_mod_noop_right,
};
use crate::u256::{U256, mod_n, u256_eq, scalar_modulus, lemma_base_below_twice_order};
use crate::field::{scalar_mul, scalar_add, scalar_invert, inv_n, lemma_inv_n_is};
use crate::curve::{
    Point, PointV, generator, generator_v, point_mul, point_add, is_infinity, pt_infinity,
    ec_mul, ec_add, on_curve,
};

verus! {

/// An assigned signature: two committed, range-checked scalar-field values.
#[derive(Clone, Copy, PartialEq, Eq, Structural, Debug)]
pub struct AssignedEcdsaSig {
    pub r: U256,
    pub s: U256,
}

impl AssignedEcdsaSig {
    /// Both components are fully reduced representatives of the scalar field.
    pub open spec fn wf(self) -> bool {
        self.r.reduced_mod_n() && self.s.reduced_mod_n()
    }
}

/// An assigned public key: a committed curve point.
#[derive(Clone, Copy, PartialEq, Eq, Structural, Debug)]
pub struct AssignedPublicKey {
    pub point: Point,
}

impl AssignedPublicKey {
    /// The point is reduced, lies on the curve and is not the identity.
    pub open spec fn wf(self) -> bool {
        self.point.wf() && on_curve(self.point@) && !pt_infinity(self.point@)
    }
}

/// The ECDSA verification equation over assigned values: `s` has an inverse,
/// the point `u1 * G + u2 * Q` is finite, and its x-coordinate reduced into
/// the scalar field equals `r`.
pub open spec fn spec_verifies(r: nat, s: nat, pk: PointV, h: nat) -> bool {
    &&& s != 0
    &&& {
        let u1 = (h * inv_n(s)) % scalar_modulus();
        let u2 = (r * inv_n(s)) % scalar_modulus();
        let rp = ec_add(ec_mul(generator_v(), u1), ec_mul(pk, u2));
        &&& !pt_infinity(rp)
        &&& rp.x % scalar_modulus() == r
    }
}

/// The verification gadget. Success implies validity; an invalid signature
/// has no satisfying assignment, so the constrained boolean comes back false.
pub struct EcdsaChip {}

impl EcdsaChip {
    pub fn new() -> (r: EcdsaChip) {
        EcdsaChip {  }
    }

    /// Check the ECDSA verification equation on assigned values.
    pub fn verify(&self, sig: &AssignedEcdsaSig, pk: &AssignedPublicKey, msg_hash: &U256) -> (res:
        bool)
        requires
            sig.wf(),
            pk.wf(),
            msg_hash.reduced_mod_n(),
        ensures
            res == spec_verifies(sig.r.as_nat(), sig.s.as_nat(), pk.point@, msg_hash.as_nat()),
    {
        // s = 0 has no multiplicative-inverse witness: unsatisfiable
        let s_inv = match scalar_invert(&sig.s) {
            Some(v) => v,
            None => {
                return false;
            },
        };
        proof {
            lemma_inv_n_is(sig.s.as_nat(), s_inv.as_nat());
        }
        let u1 = scalar_mul(msg_hash, &s_inv);
        let u2 = scalar_mul(&sig.r, &s_inv);
        let g = generator();
        let t1 = point_mul(&g, &u1);
        let t2 = point_mul(&pk.point, &u2);
        let rp = point_add(&t1, &t2);
        // the identity has no affine coordinates to extract: unsatisfiable
        if is_infinity(&rp) {
            return false;
        }
        proof {
            lemma_base_below_twice_order();
        }
        let r_candidate = mod_n(&rp.x);
        u256_eq(&r_candidate, &sig.r)
    }
}

/// Derive the public key `sk * G` of a secret key.
pub fn derive_public_key(sk: &U256) -> (r: Point)
    requires
        sk.reduced_mod_n(),
    ensures
        r.wf(),
        r@ == ec_mul(generator_v(), sk.as_nat()),
{
    let g = generator();
    point_mul(&g, sk)
}

/// The standard signing equation: `r` is the x-coordinate of `k * G` reduced
/// into the scalar field, and `s = k^-1 * (h + r * sk)`. Fails only for a
/// zero nonce, which has no inverse.
pub fn sign(sk: &U256, k: &U256, msg_hash: &U256) -> (res: Option<(U256, U256)>)
    requires
        sk.reduced_mod_n(),
        k.reduced_mod_n(),
        msg_hash.reduced_mod_n(),
    ensures
        match res {
            Some(pair) => {
                &&& k.as_nat() != 0
                &&& (k.as_nat() * inv_n(k.as_nat())) % scalar_modulus() == 1
                &&& pair.0.reduced_mod_n()
                &&& pair.1.reduced_mod_n()
                &&& pair.0.as_nat() == ec_mul(generator_v(), k.as_nat()).x % scalar_modulus()
                &&& pair.1.as_nat() == (inv_n(k.as_nat()) * ((msg_hash.as_nat() + (pair.0.as_nat()
                    * sk.as_nat()) % scalar_modulus()) % scalar_modulus())) % scalar_modulus()
            },
            None => k.as_nat() == 0,
        },
{
    let k_inv = match scalar_invert(k) {
        Some(v) => v,
        None => {
            return None;
        },
    };
    proof {
        lemma_inv_n_is(k.as_nat(), k_inv.as_nat());
    }
    let g = generator();
    let rp = point_mul(&g, k);
    proof {
        lemma_base_below_twice_order();
    }
    let r = mod_n(&rp.x);
    let rd = scalar_mul(&r, sk);
    let w = scalar_add(msg_hash, &rd);
    let s = scalar_mul(&k_inv, &w);
    Some((r, s))
}

/// A freshly drawn signing instance: a secret key, a nonce and a message
/// hash, each sampled from system randomness.
#[derive(Clone, Copy, PartialEq, Eq, Structural, Debug)]
pub struct SigningWitness {
    pub secret_key: U256,
    pub nonce: U256,
    pub msg_hash: U256,
}

impl SigningWitness {
    pub open spec fn wf(self) -> bool {
        self.secret_key.reduced_mod_n() && self.nonce.reduced_mod_n()
            && self.msg_hash.reduced_mod_n()
    }
}

/// Draw a fresh signing instance. Nothing holds of the values beyond
/// reduction; a fresh draw is required per signature, an obligation of the
/// caller.
pub fn generate_signing_witness() -> (r: SigningWitness)
    ensures
        r.wf(),
{
    SigningWitness {
        secret_key: crate::field::scalar_random(),
        nonce: crate::field::scalar_random(),
        msg_hash: crate::field::scalar_random(),
    }
}

/// Honest signatures recover the nonce in the exponent: if `s` was produced
/// by the signing equation from nonce `k`, hash `h` and secret key `d`, then
/// the verifier's scalars satisfy `u1 + u2 * d == k` modulo the group order.
/// This is the scalar-field half of the round trip; the curve half is the
/// group law `u1 * G + u2 * (d * G) == (u1 + u2 * d) * G`, which belongs to
/// the curve-arithmetic capability.
pub proof fn lemma_honest_signature_scalars(d: nat, k: nat, h: nat, r: nat, s: nat)
    requires
        d < scalar_modulus(),
        k < scalar_modulus(),
        h < scalar_modulus(),
        r < scalar_modulus(),
        s < scalar_modulus(),
        (k * inv_n(k)) % scalar_modulus() == 1,
        s == (inv_n(k) * ((h + (r * d) % scalar_modulus()) % scalar_modulus()))
            % scalar_modulus(),
        s != 0,
        (s * inv_n(s)) % scalar_modulus() == 1,
    ensures
        ((h * inv_n(s)) % scalar_modulus() + ((r * inv_n(s)) % scalar_modulus()) * d)
            % scalar_modulus() == k,
{
    let n = scalar_modulus() as int;
    let di = d as int;
    let ki = k as int;
    let hi = h as int;
    let ri = r as int;
    let si = s as int;
    let kv = inv_n(k) as int;
    let sv = inv_n(s) as int;
    let w = (hi + (ri * di) % n) % n;
    assert(w == (hi + ri * di) % n) by {
        lemma_add_mod_noop_right(hi, ri * di, n);
    };
    // Step 1: s * k == h + r * d modulo the order.
    assert((si * ki) % n == ((kv * w) % n * ki) % n);
    assert(((kv * w) % n * ki) % n == (kv * w * ki) % n) by {
        lemma_mul_mod_noop_general(kv * w, ki, n);
    };
    assert(kv * w * ki == w * (ki * kv)) by (nonlinear_arith);
    assert((w * (ki * kv)) % n == (w * ((ki * kv) % n)) % n) by {
        lemma_mul_mod_noop_right(w, ki * kv, n);
    };
    assert((w * 1) % n == w) by {
        lemma_small_mod(w as nat, scalar_modulus());
    };
    assert((si * ki) % n == (hi + ri * di) % n);
    // Step 2: u1 + u2 * d == s^-1 * (s * k) == k modulo the order.
    let u1 = (hi * sv) % n;
    let u2 = (ri * sv) % n;
    assert((u1 + u2 * di) % n == (u1 % n + (u2 * di) % n) % n) by {
        lemma_small_mod(u1 as nat, scalar_modulus());
        lemma_add_mod_noop(u1, u2 * di, n);
    };
    assert((u2 * di) % n == (ri * sv * di) % n) by {
        lemma_mul_mod_noop_general(ri * sv, di, n);
    };
    assert((u1 % n + (u2 * di) % n) % n == (hi * sv + ri * sv * di) % n) by {
        lemma_small_mod(u1 as nat, scalar_modulus());
        lemma_add_mod_noop(hi * sv, ri * sv * di, n);
        lemma_small_mod(((hi * sv) % n) as nat, scalar_modulus());
    };
    assert(hi * sv + ri * sv * di == sv * (hi + ri * di)) by (nonlinear_arith);
    assert((sv * (hi + ri * di)) % n == (sv * ((hi + ri * di) % n)) % n) by {
        lemma_mul_mod_noop_right(sv, hi + ri * di, n);
    };
    assert((sv * ((si * ki) % n)) % n == (sv * (si * ki)) % n) by {
        lemma_mul_mod_noop_right(sv, si * ki, n);
    };
    assert(sv * (si * ki) == (si * sv) * ki) by (nonlinear_arith);
    assert(((si * sv) * ki) % n == (((si * sv) % n) * ki) % n) by {
        lemma_mul_mod_noop_general(si * sv, ki, n);
    };
    assert((1int * ki) % n == ki) by {
        lemma_small_mod(k, scalar_modulus());
    };
}

/// An honestly signed triple verifies, given the instance of the group law
/// that the curve capability computes: multiplying the generator by
/// `u1 + u2 * d` is the same as summing `u1 * G` and `u2 * (d * G)`.
pub proof fn lemma_honest_signature_verifies(d: nat, k: nat, h: nat, r: nat, s: nat)
    requires
        d < scalar_modulus(),
        k < scalar_modulus(),
        h < scalar_modulus(),
        r < scalar_modulus(),
        s < scalar_modulus(),
        (k * inv_n(k)) % scalar_modulus() == 1,
        s == (inv_n(k) * ((h + (r * d) % scalar_modulus()) % scalar_modulus()))
            % scalar_modulus(),
        s != 0,
        (s * inv_n(s)) % scalar_modulus() == 1,
        r == ec_mul(generator_v(), k).x % scalar_modulus(),
        !pt_infinity(ec_mul(generator_v(), k)),
        // the group-law instance, over the named curve operations
        ec_add(
            ec_mul(generator_v(), (h * inv_n(s)) % scalar_modulus()),
            ec_mul(ec_mul(generator_v(), d), (r * inv_n(s)) % scalar_modulus()),
        ) == ec_mul(
            generator_v(),
            ((h * inv_n(s)) % scalar_modulus() + ((r * inv_n(s)) % scalar_modulus()) * d)
                % scalar_modulus(),
        ),
    ensures
        spec_verifies(r, s, ec_mul(generator_v(), d), h),
{
    lemma_honest_signature_scalars(d, k, h, r, s);
}

} // verus!
