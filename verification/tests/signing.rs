use ecdsa::u256::{mod_n, order, u256_eq, u256_lt, u256_sub, U256};
use ecdsa::curve::{check_on_curve, generator, is_infinity, Point};
use ecdsa::ecdsa::{
    derive_public_key, generate_signing_witness, sign, AssignedEcdsaSig, AssignedPublicKey,
    EcdsaChip,
};

fn u(v: u64) -> U256 {
    U256::from_u64(v)
}

#[test]
fn mod_n_below_order_unchanged() {
    let x = u(5);
    assert_eq!(mod_n(&x), x);
}

#[test]
fn mod_n_of_order_is_zero() {
    let n = order();
    assert_eq!(mod_n(&n), U256::zero());
}

#[test]
fn mod_n_above_order_subtracts_once() {
    let n = order();
    let x = U256 { l0: n.l0 + 5, l1: n.l1, l2: n.l2, l3: n.l3 };
    assert_eq!(mod_n(&x), u(5));
}

#[test]
fn sub_borrows_across_limbs() {
    let a = U256 { l0: 0, l1: 1, l2: 0, l3: 0 };
    let b = u(1);
    assert_eq!(u256_sub(&a, &b), U256 { l0: u64::MAX, l1: 0, l2: 0, l3: 0 });
}

#[test]
fn lt_compares_numerically() {
    let small = U256 { l0: u64::MAX, l1: 0, l2: 0, l3: 0 };
    let big = U256 { l0: 0, l1: 1, l2: 0, l3: 0 };
    assert!(u256_lt(&small, &big));
    assert!(!u256_lt(&big, &small));
    assert!(!u256_lt(&big, &big));
    assert!(u256_eq(&big, &big));
    assert!(!u256_eq(&small, &big));
}

#[test]
fn generator_lies_on_curve() {
    let g = generator();
    assert!(check_on_curve(&g));
    assert!(!is_infinity(&g));
}

#[test]
fn shifted_generator_off_curve() {
    let g = generator();
    let bad = Point { x: U256 { l0: g.x.l0 + 1, l1: g.x.l1, l2: g.x.l2, l3: g.x.l3 }, y: g.y };
    assert!(!check_on_curve(&bad));
}

#[test]
fn sign_with_unit_nonce_returns_generator_x() {
    // k = 1: r is the x-coordinate of G (already below the order), and with
    // sk = 0 the second component is just the hash.
    let res = sign(&U256::zero(), &u(1), &u(5));
    let (r, s) = res.expect("nonzero nonce must sign");
    assert_eq!(r, generator().x);
    assert_eq!(s, u(5));
}

#[test]
fn sign_with_double_nonce_matches_doubled_generator() {
    // k = 2: r is the x-coordinate of 2 * G, a standard test vector.
    let res = sign(&U256::zero(), &u(2), &U256::zero());
    let (r, s) = res.expect("nonzero nonce must sign");
    let x_of_2g = U256 {
        l0: 0xabac09b95c709ee5,
        l1: 0x5c778e4b8cef3ca7,
        l2: 0x3045406e95c07cd8,
        l3: 0xc6047f9441ed7d6d,
    };
    assert_eq!(r, x_of_2g);
    assert_eq!(s, U256::zero());
}

#[test]
fn sign_with_zero_nonce_fails() {
    assert!(sign(&u(7), &U256::zero(), &u(5)).is_none());
}

#[test]
fn valid_signature_accepts() {
    // a full honest round trip with fresh randomness: sign, then check the
    // verification equation in the gadget
    let w = generate_signing_witness();
    let (r, s) = sign(&w.secret_key, &w.nonce, &w.msg_hash).expect("random nonce is nonzero");
    let pk = derive_public_key(&w.secret_key);
    let chip = EcdsaChip::new();
    let sig = AssignedEcdsaSig { r, s };
    let assigned_pk = AssignedPublicKey { point: pk };
    assert!(chip.verify(&sig, &assigned_pk, &w.msg_hash));
}

#[test]
fn flipped_r_bit_rejects() {
    let w = generate_signing_witness();
    let (r, s) = sign(&w.secret_key, &w.nonce, &w.msg_hash).expect("random nonce is nonzero");
    let pk = derive_public_key(&w.secret_key);
    let chip = EcdsaChip::new();
    let bad_r = U256 { l0: r.l0 ^ 1, l1: r.l1, l2: r.l2, l3: r.l3 };
    let sig = AssignedEcdsaSig { r: bad_r, s };
    let assigned_pk = AssignedPublicKey { point: pk };
    assert!(!chip.verify(&sig, &assigned_pk, &w.msg_hash));
}

#[test]
fn mutated_s_rejects() {
    let w = generate_signing_witness();
    let (r, s) = sign(&w.secret_key, &w.nonce, &w.msg_hash).expect("random nonce is nonzero");
    let pk = derive_public_key(&w.secret_key);
    let chip = EcdsaChip::new();
    let mut bad_s = U256 { l0: s.l0 ^ 1, l1: s.l1, l2: s.l2, l3: s.l3 };
    if u256_eq(&bad_s, &U256::zero()) {
        bad_s = U256 { l0: s.l0 ^ 2, l1: s.l1, l2: s.l2, l3: s.l3 };
    }
    let sig = AssignedEcdsaSig { r, s: bad_s };
    let assigned_pk = AssignedPublicKey { point: pk };
    assert!(!chip.verify(&sig, &assigned_pk, &w.msg_hash));
}

#[test]
fn mutated_public_key_rejects() {
    let w = generate_signing_witness();
    let (r, s) = sign(&w.secret_key, &w.nonce, &w.msg_hash).expect("random nonce is nonzero");
    // a different valid curve point: the key of a different secret
    let other = generate_signing_witness();
    assert!(other.secret_key != w.secret_key);
    let wrong_pk = derive_public_key(&other.secret_key);
    let chip = EcdsaChip::new();
    let sig = AssignedEcdsaSig { r, s };
    let assigned_pk = AssignedPublicKey { point: wrong_pk };
    assert!(!chip.verify(&sig, &assigned_pk, &w.msg_hash));
}

#[test]
fn zero_s_rejects() {
    let w = generate_signing_witness();
    let pk = derive_public_key(&w.secret_key);
    let chip = EcdsaChip::new();
    let sig = AssignedEcdsaSig { r: u(1), s: U256::zero() };
    let assigned_pk = AssignedPublicKey { point: pk };
    assert!(!chip.verify(&sig, &assigned_pk, &w.msg_hash));
}
