use ecdsa::u256::U256;
use ecdsa::curve::generator;
use ecdsa::ecdsa::{derive_public_key, generate_signing_witness, sign};
use ecdsa::ecdsa_circuit::{
    ConstraintSystem, Layouter, Region, TestCircuitEcdsaVerify, TestCircuitEcdsaVerifyConfig,
    WitnessValue,
};
use ecdsa::lifecycle::ProofError;
use ecdsa::aux_randomization::{process_window, windowed_combination, AuxCombination};
use ecdsa::nonnative::{assign_nonnative, in_reduced_range, nonnative_add, FRESH_LIMB_BOUND};

fn unknown_circuit(window_size: u32) -> TestCircuitEcdsaVerify {
    TestCircuitEcdsaVerify {
        public_key: WitnessValue::Unknown,
        signature: WitnessValue::Unknown,
        msg_hash: WitnessValue::Unknown,
        aux_generator: generator(),
        window_size,
    }
}

fn honest_circuit(window_size: u32) -> TestCircuitEcdsaVerify {
    let w = generate_signing_witness();
    let (r, s) = sign(&w.secret_key, &w.nonce, &w.msg_hash).expect("random nonce is nonzero");
    let pk = derive_public_key(&w.secret_key);
    TestCircuitEcdsaVerify::with_witness(pk, (r, s), w.msg_hash, window_size)
}

// 1 aux-generator row + 2^2 window rows + 8 main rows + 2^17 + 2 + 2 table rows
const ROWS_WINDOW_2: u64 = 1 + 4 + 8 + 131072 + 4;

#[test]
fn configuration_is_deterministic() {
    let mut meta1 = ConstraintSystem::new();
    let c1 = TestCircuitEcdsaVerify::configure(&mut meta1);
    let mut meta2 = ConstraintSystem::new();
    let c2 = TestCircuitEcdsaVerify::configure(&mut meta2);
    assert_eq!(c1, c2);
    assert_eq!(meta1, meta2);
    assert_eq!(c1.range_config.composition_bit_len, 17);
    assert_eq!(c1.range_config.overflow_bit_lens, vec![1, 1]);
    assert_eq!(c1.ecc_chip_config().main_gate_config, c1.main_gate_config);
}

#[test]
fn synthesize_unknown_witness_lays_out_shape() {
    let circuit = unknown_circuit(2);
    let mut meta = ConstraintSystem::new();
    let config = TestCircuitEcdsaVerify::configure(&mut meta);
    let mut layouter = Layouter { regions: Vec::new(), rows: 0 };
    assert_eq!(circuit.synthesize(&config, &mut layouter), Ok(()));
    assert_eq!(
        layouter.regions,
        vec![
            Region::AuxValues,
            Region::MainRegion,
            Region::CompositionTables,
            Region::OverflowTables
        ]
    );
    assert_eq!(layouter.rows, ROWS_WINDOW_2);
}

#[test]
fn synthesize_shape_same_for_known_and_unknown() {
    let mut meta = ConstraintSystem::new();
    let config = TestCircuitEcdsaVerify::configure(&mut meta);
    let mut l1 = Layouter { regions: Vec::new(), rows: 0 };
    let mut l2 = Layouter { regions: Vec::new(), rows: 0 };
    assert_eq!(unknown_circuit(2).synthesize(&config, &mut l1), Ok(()));
    assert_eq!(honest_circuit(2).synthesize(&config, &mut l2), Ok(()));
    assert_eq!(l1.regions, l2.regions);
    assert_eq!(l1.rows, l2.rows);
}

#[test]
fn synthesize_rejects_zero_window() {
    let circuit = unknown_circuit(0);
    let mut meta = ConstraintSystem::new();
    let config = TestCircuitEcdsaVerify::configure(&mut meta);
    let mut layouter = Layouter { regions: Vec::new(), rows: 0 };
    assert_eq!(circuit.synthesize(&config, &mut layouter), Err(ProofError::Configuration));
    assert!(layouter.regions.is_empty());
}

#[test]
fn synthesize_rejects_identity_aux_generator() {
    let mut circuit = unknown_circuit(2);
    circuit.aux_generator = ecdsa::curve::Point { x: U256::zero(), y: U256::zero() };
    let mut meta = ConstraintSystem::new();
    let config = TestCircuitEcdsaVerify::configure(&mut meta);
    let mut layouter = Layouter { regions: Vec::new(), rows: 0 };
    assert_eq!(circuit.synthesize(&config, &mut layouter), Err(ProofError::Configuration));
}

#[test]
fn synthesize_rejects_invalid_witness() {
    // the shape is fine, but (r, s) = (1, 1) does not verify for this key
    let w = generate_signing_witness();
    let pk = derive_public_key(&w.secret_key);
    let circuit = TestCircuitEcdsaVerify::with_witness(
        pk,
        (U256::from_u64(1), U256::from_u64(1)),
        w.msg_hash,
        2,
    );
    let mut meta = ConstraintSystem::new();
    let config = TestCircuitEcdsaVerify::configure(&mut meta);
    let mut layouter = Layouter { regions: Vec::new(), rows: 0 };
    assert_eq!(circuit.synthesize(&config, &mut layouter), Err(ProofError::UnsatisfiableWitness));
    // the unsatisfiable witness still lays out the full shape
    assert_eq!(layouter.rows, ROWS_WINDOW_2);
}

#[test]
fn synthesize_rejects_unreduced_signature() {
    let w = generate_signing_witness();
    let pk = derive_public_key(&w.secret_key);
    let n = ecdsa::u256::order();
    let circuit = TestCircuitEcdsaVerify::with_witness(pk, (n, U256::from_u64(1)), w.msg_hash, 2);
    let mut meta = ConstraintSystem::new();
    let config = TestCircuitEcdsaVerify::configure(&mut meta);
    let mut layouter = Layouter { regions: Vec::new(), rows: 0 };
    assert_eq!(circuit.synthesize(&config, &mut layouter), Err(ProofError::UnsatisfiableWitness));
}

#[test]
fn without_witnesses_keeps_shape_parameters() {
    let circuit = honest_circuit(3);
    let empty = circuit.without_witnesses();
    assert_eq!(empty.signature, WitnessValue::Unknown);
    assert_eq!(empty.msg_hash, WitnessValue::Unknown);
    assert_eq!(empty.public_key, WitnessValue::Unknown);
    assert_eq!(empty.window_size, 3);
    assert_eq!(empty.aux_generator, circuit.aux_generator);
}

#[test]
fn window_step_tracks_both_coefficients() {
    let acc = AuxCombination { base: U256::from_u64(1), aux: U256::from_u64(1) };
    let next = process_window(&acc, 3, 2);
    assert_eq!(next.base, U256::from_u64(7));
    assert_eq!(next.aux, U256::from_u64(4));
}

#[test]
fn windowed_accumulation_cancels_aux() {
    // digits 3,2,1 with 2-bit windows recompose to 57; three windows leave
    // the auxiliary coefficient at 2^6, which the correction matches exactly
    let windows = vec![3u64, 2, 1];
    let (acc, correction) = windowed_combination(&windows, 2);
    assert_eq!(acc.base, U256::from_u64(57));
    assert_eq!(acc.aux, U256::from_u64(64));
    assert_eq!(correction, U256::from_u64(64));
}

#[test]
fn windowed_accumulation_single_window() {
    let windows = vec![1u64, 0];
    let (acc, correction) = windowed_combination(&windows, 2);
    assert_eq!(acc.base, U256::from_u64(4));
    assert_eq!(acc.aux, correction);
    assert_eq!(correction, U256::from_u64(16));
}

#[test]
fn nonnative_assignment_of_small_value() {
    let e = assign_nonnative(&U256::from_u64(5));
    assert_eq!(e.m0, 5);
    assert_eq!(e.m1, 0);
    assert_eq!(e.m2, 0);
    assert_eq!(e.m3, 0);
    assert!(in_reduced_range(&e));
}

#[test]
fn nonnative_assignment_regroups_limbs() {
    // the low 128 bits split as 68 + 60
    let v = U256 { l0: u64::MAX, l1: u64::MAX, l2: 0, l3: 0 };
    let e = assign_nonnative(&v);
    assert_eq!(e.m0, (1u128 << 68) - 1);
    assert_eq!(e.m1, (1u128 << 60) - 1);
    assert_eq!(e.m2, 0);
    assert_eq!(e.m3, 0);
    // 2^204 lands exactly on the most significant limb
    let w = U256 { l0: 0, l1: 0, l2: 0, l3: 4096 };
    let f = assign_nonnative(&w);
    assert_eq!(f.m0, 0);
    assert_eq!(f.m3, 1);
}

#[test]
fn nonnative_add_tracks_values_and_bound() {
    let a = assign_nonnative(&U256::from_u64(3));
    let b = assign_nonnative(&U256::from_u64(4));
    let c = nonnative_add(&a, &b);
    assert_eq!(c.m0, 7);
    assert_eq!(c.max_val, 2 * FRESH_LIMB_BOUND);
}
