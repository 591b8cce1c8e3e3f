//! A verified model of an ECDSA verification circuit and its proof lifecycle.
//!
//! The library encodes the ECDSA verification equation over secp256k1 as a
//! constrained computation: non-native scalar values are range-checked limb
//! vectors, the public key is an assigned curve point, and the verification
//! equation `u1*G + u2*Q` with `u1 = h*s^-1`, `u2 = r*s^-1` (mod the group
//! order) is checked against `r`. Around the circuit stands the proof
//! lifecycle: parameter setup, verifying/proving key derivation from a
//! witness-less instance, proof creation and proof verification.
//!
//! Field and curve arithmetic over secp256k1 is done by the `halo2curves`
//! crate behind a small set of trusted wrappers; everything layered on top of
//! those wrappers is verified.

pub mod u256;
pub mod field;
pub mod curve;
pub mod ecdsa;
pub mod ecdsa_circuit;
pub mod lifecycle;
pub mod aux_randomization;
pub mod nonnative;
