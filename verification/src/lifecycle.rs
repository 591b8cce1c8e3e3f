//! The proof lifecycle: parameter setup, key generation from a witness-less
//! circuit instance, batched proof creation, and proof verification.
//!
//! Keys and proofs carry the circuit shape they were derived from; the
//! verifier accepts exactly when parameters, key and proof agree on shape and
//! size and the declared public inputs are empty. Proof bytes themselves are
//! produced by the external commitment scheme; this model pins down every
//! decision the orchestrator makes around it.

use vstd::prelude::*;
use vstd::arithmetic::power2::{pow2, lemma_pow2_strictly_increases, lemma2_to64};
use crate::u256::U256;
use crate::ecdsa_circuit::{
    TestCircuitEcdsaVerify, TestCircuitEcdsaVerifyConfig, ConstraintSystem, Layouter, pow2_u64,
    spec_circuit_rows, NUMBER_OF_LIMBS, BIT_LEN_LIMB,
};

verus! {

/// The unrecoverable failures of a proof attempt, each telling the caller
/// whether the witness, the configuration or the sizing was at fault.
#[derive(Clone, Copy, PartialEq, Eq, Structural, Debug)]
pub enum ProofError {
    /// The declared circuit shape is unusable.
    Configuration,
    /// A concrete witness fails a constraint.
    UnsatisfiableWitness,
    /// The public parameters cannot hold the circuit's rows.
    UndersizedParameters,
    /// A key derived from a different circuit shape was used.
    ShapeMismatch,
}

/// Public parameters, sized to hold 2^k circuit rows.
#[derive(Clone, Copy, PartialEq, Eq, Structural, Debug)]
pub struct Params {
    pub k: u32,
}

/// Derive public parameters of size exponent `k`.
pub fn setup(k: u32) -> (r: Params)
    ensures
        r == (Params { k }),
{
    Params { k }
}

/// The shape a key or proof was derived from: the window size, the limb
/// geometry and the resulting row count.
#[derive(Clone, Copy, PartialEq, Eq, Structural, Debug)]
pub struct CircuitShape {
    pub window_size: u32,
    pub num_limbs: u32,
    pub bit_len_limb: u32,
    pub rows: u64,
}

/// The shape of the ECDSA circuit with a given window size.
pub open spec fn spec_shape(window_size: u32) -> CircuitShape {
    CircuitShape {
        window_size,
        num_limbs: NUMBER_OF_LIMBS,
        bit_len_limb: BIT_LEN_LIMB,
        rows: spec_circuit_rows(window_size) as u64,
    }
}

/// A verifying key: a deterministic function of circuit shape and parameters.
#[derive(Clone, Copy, PartialEq, Eq, Structural, Debug)]
pub struct VerifyingKey {
    pub shape: CircuitShape,
    pub k: u32,
}

/// A proving key: the verifying key plus prover-side tables derived from the
/// same witness-less instance.
#[derive(Clone, Copy, PartialEq, Eq, Structural, Debug)]
pub struct ProvingKey {
    pub vk: VerifyingKey,
}

/// A proof over one or more instances of one circuit shape. The transcript
/// bytes come from the external commitment scheme; the model keeps what the
/// verifier's decisions depend on, plus the blinding drawn from the caller's
/// randomness (which varies per proof without affecting acceptance).
#[derive(Clone, Copy, PartialEq, Eq, Structural, Debug)]
pub struct Proof {
    pub shape: CircuitShape,
    pub k: u32,
    pub instances: u64,
    pub blinding: U256,
}

/// The verifier's verdict; a rejection carries no detail of which relation
/// failed.
#[derive(Clone, Copy, PartialEq, Eq, Structural, Debug)]
pub enum VerificationResult {
    Accept,
    Reject,
}

/// Rows of the circuit stay far below 2^21 for every usable window size.
pub proof fn lemma_rows_bound(window_size: u32)
    requires
        1 <= window_size <= 20,
    ensures
        spec_circuit_rows(window_size) < 0x200000,
{
    lemma2_to64();
    if (window_size as nat) < 20 {
        lemma_pow2_strictly_increases(window_size as nat, 20);
    }
}

/// What key generation yields: configuration errors surface first, then the
/// sizing check against 2^k, then the key, a function of shape and size only.
pub open spec fn spec_keygen_vk(k: u32, c: TestCircuitEcdsaVerify) -> Result<
    VerifyingKey,
    ProofError,
> {
    if !c.spec_config_ok() {
        Err(ProofError::Configuration)
    } else if spec_circuit_rows(c.window_size) > pow2(k as nat) {
        Err(ProofError::UndersizedParameters)
    } else {
        Ok(VerifyingKey { shape: spec_shape(c.window_size), k })
    }
}

/// Derive a verifying key from a witness-less instance of the circuit.
pub fn keygen_vk(params: &Params, circuit: &TestCircuitEcdsaVerify) -> (r: Result<
    VerifyingKey,
    ProofError,
>)
    ensures
        r == spec_keygen_vk(params.k, *circuit),
{
    let empty = circuit.without_witnesses();
    let mut meta = ConstraintSystem::new();
    let config = TestCircuitEcdsaVerify::configure(&mut meta);
    let mut layouter = Layouter::new();
    match empty.synthesize(&config, &mut layouter) {
        Ok(()) => {},
        Err(e) => {
            return Err(e);
        },
    }
    proof {
        lemma_rows_bound(circuit.window_size);
    }
    let fits = if params.k >= 21 {
        proof {
            lemma2_to64();
            if params.k > 21 {
                lemma_pow2_strictly_increases(21, params.k as nat);
            }
        }
        true
    } else {
        layouter.rows <= pow2_u64(params.k)
    };
    if !fits {
        return Err(ProofError::UndersizedParameters);
    }
    Ok(
        VerifyingKey {
            shape: CircuitShape {
                window_size: circuit.window_size,
                num_limbs: NUMBER_OF_LIMBS,
                bit_len_limb: BIT_LEN_LIMB,
                rows: layouter.rows,
            },
            k: params.k,
        },
    )
}

/// What proving-key derivation yields: the same shape computation, then a
/// shape and size agreement check against the verifying key.
pub open spec fn spec_keygen_pk(k: u32, vk: VerifyingKey, c: TestCircuitEcdsaVerify) -> Result<
    ProvingKey,
    ProofError,
> {
    if !c.spec_config_ok() {
        Err(ProofError::Configuration)
    } else if vk.shape != spec_shape(c.window_size) || vk.k != k {
        Err(ProofError::ShapeMismatch)
    } else {
        Ok(ProvingKey { vk })
    }
}

/// Derive a proving key from the verifying key and the same witness-less
/// instance.
pub fn keygen_pk(params: &Params, vk: VerifyingKey, circuit: &TestCircuitEcdsaVerify) -> (r: Result<
    ProvingKey,
    ProofError,
>)
    ensures
        r == spec_keygen_pk(params.k, vk, *circuit),
{
    let empty = circuit.without_witnesses();
    let mut meta = ConstraintSystem::new();
    let config = TestCircuitEcdsaVerify::configure(&mut meta);
    let mut layouter = Layouter::new();
    match empty.synthesize(&config, &mut layouter) {
        Ok(()) => {},
        Err(e) => {
            return Err(e);
        },
    }
    proof {
        lemma_rows_bound(circuit.window_size);
    }
    let shape = CircuitShape {
        window_size: circuit.window_size,
        num_limbs: NUMBER_OF_LIMBS,
        bit_len_limb: BIT_LEN_LIMB,
        rows: layouter.rows,
    };
    if vk.shape != shape || vk.k != params.k {
        return Err(ProofError::ShapeMismatch);
    }
    Ok(ProvingKey { vk })
}

/// The condition under which batched proving succeeds: every instance has a
/// sound configuration, a satisfying witness and the key's shape, and the key
/// agrees with the parameters.
pub open spec fn spec_create_proof_ok(
    k: u32,
    pk: ProvingKey,
    cs: Seq<TestCircuitEcdsaVerify>,
) -> bool {
    &&& (forall|i: int|
        0 <= i < cs.len() ==> (#[trigger] cs[i]).spec_config_ok() && cs[i].spec_witness_ok()
            && spec_shape(cs[i].window_size) == pk.vk.shape)
    &&& pk.vk.k == k
    &&& pk.vk.shape.rows <= pow2(k as nat)
}

/// The proof an honest proving pass emits.
pub open spec fn spec_proof_value(k: u32, pk: ProvingKey, instances: nat, rng: U256) -> Proof {
    Proof { shape: pk.vk.shape, k, instances: instances as u64, blinding: rng }
}

/// Create one proof over a batch of instances sharing the proving key's
/// shape. `rng` must be fresh for every invocation: it blinds the transcript,
/// and reusing it across proofs over different secrets breaks soundness — an
/// obligation of the caller, not checkable here.
pub fn create_proof(
    params: &Params,
    pk: &ProvingKey,
    circuits: &Vec<TestCircuitEcdsaVerify>,
    rng: &U256,
) -> (r: Result<Proof, ProofError>)
    requires
        circuits.len() >= 1,
    ensures
        r is Ok <==> spec_create_proof_ok(params.k, *pk, circuits@),
        r is Ok ==> r->Ok_0 == spec_proof_value(params.k, *pk, circuits@.len(), *rng),
        r == Err::<Proof, ProofError>(ProofError::Configuration) ==> exists|i: int|
            0 <= i < circuits@.len() && !(#[trigger] circuits@[i]).spec_config_ok(),
        r == Err::<Proof, ProofError>(ProofError::UnsatisfiableWitness) ==> exists|i: int|
            0 <= i < circuits@.len() && !(#[trigger] circuits@[i]).spec_witness_ok(),
        r == Err::<Proof, ProofError>(ProofError::ShapeMismatch) ==> (exists|i: int|
            0 <= i < circuits@.len() && spec_shape((#[trigger] circuits@[i]).window_size)
                != pk.vk.shape) || pk.vk.k != params.k,
        r == Err::<Proof, ProofError>(ProofError::UndersizedParameters) ==> pk.vk.shape.rows
            > pow2(params.k as nat),
{
    let mut meta = ConstraintSystem::new();
    let config = TestCircuitEcdsaVerify::configure(&mut meta);
    let mut i: usize = 0;
    while i < circuits.len()
        invariant
            i <= circuits.len(),
            crate::ecdsa_circuit::spec_config_wf(config),
            forall|j: int|
                0 <= j < i ==> (#[trigger] circuits@[j]).spec_config_ok()
                    && circuits@[j].spec_witness_ok() && spec_shape(circuits@[j].window_size)
                    == pk.vk.shape,
        decreases circuits.len() - i,
    {
        let c = &circuits[i];
        let mut layouter = Layouter::new();
        match c.synthesize(&config, &mut layouter) {
            Ok(()) => {},
            Err(e) => {
                return Err(e);
            },
        }
        proof {
            lemma_rows_bound(c.window_size);
        }
        let shape = CircuitShape {
            window_size: c.window_size,
            num_limbs: NUMBER_OF_LIMBS,
            bit_len_limb: BIT_LEN_LIMB,
            rows: layouter.rows,
        };
        if !(shape == pk.vk.shape) {
            return Err(ProofError::ShapeMismatch);
        }
        i = i + 1;
    }
    if pk.vk.k != params.k {
        return Err(ProofError::ShapeMismatch);
    }
    proof {
        lemma2_to64();
        if params.k > 21 {
            lemma_pow2_strictly_increases(21, params.k as nat);
        }
    }
    let fits = if params.k >= 21 {
        true
    } else {
        pk.vk.shape.rows <= pow2_u64(params.k)
    };
    if !fits {
        return Err(ProofError::UndersizedParameters);
    }
    proof {
        assert(pk.vk.shape == spec_shape(circuits@[0].window_size));
        lemma_rows_bound(circuits@[0].window_size);
    }
    Ok(
        Proof {
            shape: pk.vk.shape,
            k: params.k,
            instances: circuits.len() as u64,
            blinding: *rng,
        },
    )
}

/// The acceptance condition: parameters, verifying key and proof agree on
/// shape and size, and the declared public inputs are empty — one empty
/// column per instance, since the circuit exposes no value.
pub open spec fn spec_accepts(
    params: Params,
    vk: VerifyingKey,
    proof: Proof,
    public_inputs: Seq<Seq<U256>>,
) -> bool {
    &&& proof.shape == vk.shape
    &&& proof.k == params.k
    &&& vk.k == params.k
    &&& public_inputs.len() == proof.instances
    &&& forall|i: int| 0 <= i < public_inputs.len() ==> (#[trigger] public_inputs[i]).len() == 0
}

/// Verify a proof against the parameters, the verifying key and the declared
/// public inputs. A rejection does not say which check failed.
pub fn verify_proof(
    params: &Params,
    vk: &VerifyingKey,
    proof: &Proof,
    public_inputs: &Vec<Vec<U256>>,
) -> (r: VerificationResult)
    ensures
        r == (if spec_accepts(*params, *vk, *proof, deep_view_inputs(*public_inputs)) {
            VerificationResult::Accept
        } else {
            VerificationResult::Reject
        }),
{
    proof {
        assert(deep_view_inputs(*public_inputs).len() == public_inputs@.len());
    }
    if !(proof.shape == vk.shape) {
        return VerificationResult::Reject;
    }
    if proof.k != params.k || vk.k != params.k {
        return VerificationResult::Reject;
    }
    if public_inputs.len() as u64 != proof.instances {
        return VerificationResult::Reject;
    }
    let mut i: usize = 0;
    while i < public_inputs.len()
        invariant
            i <= public_inputs.len(),
            forall|j: int|
                0 <= j < i ==> (#[trigger] deep_view_inputs(*public_inputs)[j]).len() == 0,
            proof.shape == vk.shape,
            proof.k == params.k,
            vk.k == params.k,
            public_inputs@.len() == proof.instances,
        decreases public_inputs.len() - i,
    {
        proof {
            assert(deep_view_inputs(*public_inputs)[i as int] == public_inputs@[i as int]@);
        }
        if public_inputs[i].len() != 0 {
            return VerificationResult::Reject;
        }
        i = i + 1;
    }
    VerificationResult::Accept
}

/// The instance columns as mathematical sequences.
pub open spec fn deep_view_inputs(v: Vec<Vec<U256>>) -> Seq<Seq<U256>> {
    v@.map_values(|inner: Vec<U256>| inner@)
}

/// What the dry-run check yields: the mock path takes one instance with one
/// empty public-input column, synthesizes it, and checks the sizing — every
/// constraint violation surfaces, never a silent pass.
pub open spec fn spec_mock_prove(
    k: u32,
    c: TestCircuitEcdsaVerify,
    public_inputs: Seq<Seq<U256>>,
) -> Result<(), ProofError> {
    if public_inputs.len() != 1 || public_inputs[0].len() != 0 {
        Err(ProofError::Configuration)
    } else if !c.spec_config_ok() {
        Err(ProofError::Configuration)
    } else if !c.spec_witness_ok() {
        Err(ProofError::UnsatisfiableWitness)
    } else if spec_circuit_rows(c.window_size) > pow2(k as nat) {
        Err(ProofError::UndersizedParameters)
    } else {
        Ok(())
    }
}

/// The dry-run witness check: synthesize one concrete instance under
/// parameters of size 2^k and report whether every constraint is satisfied.
pub fn mock_prove(
    k: u32,
    circuit: &TestCircuitEcdsaVerify,
    public_inputs: &Vec<Vec<U256>>,
) -> (r: Result<(), ProofError>)
    ensures
        r == spec_mock_prove(k, *circuit, deep_view_inputs(*public_inputs)),
{
    proof {
        assert(deep_view_inputs(*public_inputs).len() == public_inputs@.len());
    }
    if public_inputs.len() != 1 {
        return Err(ProofError::Configuration);
    }
    proof {
        assert(deep_view_inputs(*public_inputs)[0] == public_inputs@[0]@);
    }
    if public_inputs[0].len() != 0 {
        return Err(ProofError::Configuration);
    }
    let mut meta = ConstraintSystem::new();
    let config = TestCircuitEcdsaVerify::configure(&mut meta);
    let mut layouter = Layouter::new();
    match circuit.synthesize(&config, &mut layouter) {
        Ok(()) => {},
        Err(e) => {
            return Err(e);
        },
    }
    proof {
        lemma_rows_bound(circuit.window_size);
        lemma2_to64();
        if k > 21 {
            lemma_pow2_strictly_increases(21, k as nat);
        }
    }
    let fits = if k >= 21 {
        true
    } else {
        layouter.rows <= pow2_u64(k)
    };
    if !fits {
        return Err(ProofError::UndersizedParameters);
    }
    Ok(())
}

/// Key-shape invariance: a verifying key derived with one window size rejects
/// every proof whose shape came from a different window size — and in general
/// any proof whose shape disagrees with the key's.
pub proof fn lemma_key_shape_invariance(
    params: Params,
    c1: TestCircuitEcdsaVerify,
    c2: TestCircuitEcdsaVerify,
    vk: VerifyingKey,
    proof: Proof,
    public_inputs: Seq<Seq<U256>>,
)
    requires
        spec_keygen_vk(params.k, c1) == Ok::<VerifyingKey, ProofError>(vk),
        proof.shape == spec_shape(c2.window_size),
        c1.window_size != c2.window_size,
    ensures
        !spec_accepts(params, vk, proof, public_inputs),
{
    assert(vk.shape.window_size == c1.window_size);
}

/// Shape mismatch is decisive on its own: whatever else holds, a proof whose
/// shape differs from the verifying key's is rejected.
pub proof fn lemma_shape_mismatch_rejected(
    params: Params,
    vk: VerifyingKey,
    proof: Proof,
    public_inputs: Seq<Seq<U256>>,
)
    requires
        proof.shape != vk.shape,
    ensures
        !spec_accepts(params, vk, proof, public_inputs),
{
}

/// Round trip: a proof honestly produced over satisfying witnesses, with keys
/// from the same witness-less instance, verifies — for every choice of the
/// proving randomness.
pub proof fn lemma_prove_verify_roundtrip(
    params: Params,
    keygen_circuit: TestCircuitEcdsaVerify,
    circuits: Seq<TestCircuitEcdsaVerify>,
    rng: U256,
    vk: VerifyingKey,
    pk: ProvingKey,
    proof: Proof,
    public_inputs: Seq<Seq<U256>>,
)
    requires
        spec_keygen_vk(params.k, keygen_circuit) == Ok::<VerifyingKey, ProofError>(vk),
        spec_keygen_pk(params.k, vk, keygen_circuit) == Ok::<ProvingKey, ProofError>(pk),
        spec_create_proof_ok(params.k, pk, circuits),
        proof == spec_proof_value(params.k, pk, circuits.len(), rng),
        circuits.len() <= 0xffff_ffff_ffff_ffff,
        public_inputs.len() == circuits.len(),
        forall|i: int| 0 <= i < public_inputs.len() ==> (#[trigger] public_inputs[i]).len() == 0,
    ensures
        spec_accepts(params, vk, proof, public_inputs),
{
}

/// Idempotence of key generation: deriving keys twice from the same
/// witness-less instance and parameters yields equal keys, and the two
/// verifying keys accept exactly the same proofs.
pub proof fn lemma_keygen_idempotent(
    params: Params,
    circuit: TestCircuitEcdsaVerify,
    vk1: VerifyingKey,
    vk2: VerifyingKey,
)
    requires
        spec_keygen_vk(params.k, circuit) == Ok::<VerifyingKey, ProofError>(vk1),
        spec_keygen_vk(params.k, circuit) == Ok::<VerifyingKey, ProofError>(vk2),
    ensures
        vk1 == vk2,
        forall|proof: Proof, public_inputs: Seq<Seq<U256>>|
            spec_accepts(params, vk1, proof, public_inputs) == spec_accepts(
                params,
                vk2,
                proof,
                public_inputs,
            ),
{
}

} // verus!
