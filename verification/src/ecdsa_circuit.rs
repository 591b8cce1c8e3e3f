//! The circuit assembly: configuration (columns, gates, lookup tables) and
//! synthesis (the fixed sequence of witness-assignment regions).
//!
//! Configuration depends only on the declared limb geometry, never on witness
//! values. Synthesis lays out the same regions and rows for every witness,
//! including the fully unknown placeholder used during key generation — this
//! shape invariance is what makes keys derived from a witness-less instance
//! valid for concrete instances.

use vstd::prelude::*;
use vstd::arithmetic::power2::{pow2, lemma_pow2_strictly_increases, lemma2_to64, lemma2_to64_rest};
use crate::u256::{U256, u256_lt, base_prime, order};
use crate::curve::{Point, on_curve, pt_infinity, check_on_curve, is_infinity};
use crate::ecdsa::{AssignedEcdsaSig, AssignedPublicKey, EcdsaChip, spec_verifies};
use crate::lifecycle::ProofError;

verus! {

/// Number of limbs a non-native field element is split into.
pub const NUMBER_OF_LIMBS: u32 = 4;

/// Bit width of each range-checked limb.
pub const BIT_LEN_LIMB: u32 = 68;

/// Bit width of the modulus of both secp256k1 fields.
pub const MODULUS_BIT_LEN: u32 = 256;

/// Rows of the main assignment region: r, s, the two public-key coordinates,
/// the message hash, the inverse witness and the two scalar products.
pub const MAIN_REGION_ROWS: u64 = 8;

/// A witness value threaded through assignment. Key generation synthesizes
/// the circuit with `Unknown` everywhere; proving uses `Known` values. Both
/// take the same code path, so the circuit shape cannot diverge.
#[derive(Clone, Copy, PartialEq, Eq, Debug)]
pub enum WitnessValue<T> {
    Known(T),
    Unknown,
}

impl<T> WitnessValue<T> {
    pub open spec fn is_known(self) -> bool {
        self is Known
    }

    pub open spec fn value(self) -> T
        recommends
            self.is_known(),
    {
        self->Known_0
    }
}

/// Geometry of the main computation gate.
#[derive(Clone, Copy, PartialEq, Eq, Structural, Debug)]
pub struct MainGateConfig {
    pub advice_columns: u32,
    pub fixed_columns: u32,
}

/// Geometry of the range-check gate: one composition table and one overflow
/// table per declared overflow bit length.
#[derive(Clone, PartialEq, Eq, Debug)]
pub struct RangeConfig {
    pub composition_bit_len: u32,
    pub overflow_bit_lens: Vec<u32>,
}

/// The column model a constraint system accumulates while gates are declared.
#[derive(Clone, Copy, PartialEq, Eq, Structural, Debug)]
pub struct ConstraintSystem {
    pub advice_columns: u32,
    pub fixed_columns: u32,
    pub lookup_tables: u32,
}

impl ConstraintSystem {
    pub fn new() -> (r: ConstraintSystem)
        ensures
            r == (ConstraintSystem { advice_columns: 0u32, fixed_columns: 0u32, lookup_tables: 0u32 }),
    {
        ConstraintSystem { advice_columns: 0, fixed_columns: 0, lookup_tables: 0 }
    }
}

/// The geometry the main gate always declares.
pub open spec fn spec_main_gate_config() -> MainGateConfig {
    MainGateConfig { advice_columns: 5, fixed_columns: 8 }
}

/// The bit length every limb composition is checked against.
pub open spec fn spec_composition_bit_len() -> u32 {
    (BIT_LEN_LIMB / NUMBER_OF_LIMBS) as u32
}

/// The overflow bit length left by the most significant limb of a 256-bit
/// modulus: the bits above the three full limbs, reduced by the composition
/// width.
pub open spec fn spec_overflow_bit_len() -> u32 {
    (((MODULUS_BIT_LEN - (NUMBER_OF_LIMBS - 1) * BIT_LEN_LIMB) as int) % (
    spec_composition_bit_len() as int)) as u32
}

/// A range configuration is the one the circuit declares: a 17-bit
/// composition table, and one overflow length for each of the two non-native
/// fields (base and scalar).
pub open spec fn spec_range_config_wf(c: RangeConfig) -> bool {
    &&& c.composition_bit_len == spec_composition_bit_len()
    &&& c.overflow_bit_lens@ == seq![spec_overflow_bit_len(), spec_overflow_bit_len()]
}

/// The full configuration the circuit declares.
pub open spec fn spec_config_wf(c: TestCircuitEcdsaVerifyConfig) -> bool {
    &&& c.main_gate_config == spec_main_gate_config()
    &&& spec_range_config_wf(c.range_config)
}

/// The columns and tables configuration adds to a constraint system.
pub open spec fn spec_configured_system(meta: ConstraintSystem) -> ConstraintSystem {
    ConstraintSystem {
        advice_columns: (meta.advice_columns + 5) as u32,
        fixed_columns: (meta.fixed_columns + 8) as u32,
        lookup_tables: (meta.lookup_tables + 3) as u32,
    }
}

/// Configuration of the ECDSA circuit: the main gate and the range gate, with
/// the limb geometry both non-native fields need.
#[derive(Clone, PartialEq, Eq, Debug)]
pub struct TestCircuitEcdsaVerifyConfig {
    pub main_gate_config: MainGateConfig,
    pub range_config: RangeConfig,
}

impl TestCircuitEcdsaVerifyConfig {
    /// Declare the main gate and the range gate. The result depends only on
    /// the limb geometry constants, never on a witness: configuring twice
    /// yields the same configuration, which is what permits key reuse.
    pub fn new(meta: &mut ConstraintSystem) -> (r: TestCircuitEcdsaVerifyConfig)
        requires
            old(meta).advice_columns <= 1000,
            old(meta).fixed_columns <= 1000,
            old(meta).lookup_tables <= 1000,
        ensures
            spec_config_wf(r),
            *final(meta) == spec_configured_system(*old(meta)),
    {
        let main_gate_config = MainGateConfig { advice_columns: 5, fixed_columns: 8 };
        meta.advice_columns = meta.advice_columns + 5;
        meta.fixed_columns = meta.fixed_columns + 8;
        // one composition table and one overflow table per non-native field
        meta.lookup_tables = meta.lookup_tables + 3;
        let composition_bit_len = BIT_LEN_LIMB / NUMBER_OF_LIMBS;
        let most_significant_bits = MODULUS_BIT_LEN - (NUMBER_OF_LIMBS - 1) * BIT_LEN_LIMB;
        let overflow = most_significant_bits % composition_bit_len;
        let mut overflow_bit_lens: Vec<u32> = Vec::new();
        overflow_bit_lens.push(overflow);
        overflow_bit_lens.push(overflow);
        proof {
            assert(overflow_bit_lens@ == seq![spec_overflow_bit_len(), spec_overflow_bit_len()]);
        }
        TestCircuitEcdsaVerifyConfig {
            main_gate_config,
            range_config: RangeConfig { composition_bit_len, overflow_bit_lens },
        }
    }

    /// The configuration handed to the elliptic-curve chip: it reuses the
    /// main gate and the range gate.
    pub fn ecc_chip_config(&self) -> (r: EccConfig)
        ensures
            r.main_gate_config == self.main_gate_config,
            r.range_config.composition_bit_len == self.range_config.composition_bit_len,
            r.range_config.overflow_bit_lens@ == self.range_config.overflow_bit_lens@,
    {
        EccConfig {
            range_config: RangeConfig {
                composition_bit_len: self.range_config.composition_bit_len,
                overflow_bit_lens: clone_u32_vec(&self.range_config.overflow_bit_lens),
            },
            main_gate_config: self.main_gate_config,
        }
    }

    /// Load the range tables: the composition table and the two overflow
    /// tables, whose sizes the configuration fixes.
    pub fn config_range(&self, layouter: &mut Layouter) -> (res: Result<(), ProofError>)
        requires
            spec_range_config_wf(self.range_config),
            old(layouter).rows <= 0xffff_ffff_ffff,
        ensures
            res == Ok::<(), ProofError>(()),
            final(layouter).regions@ == old(layouter).regions@ + seq![
                Region::CompositionTables,
                Region::OverflowTables,
            ],
            final(layouter).rows == old(layouter).rows + spec_table_rows(),
    {
        proof {
            lemma2_to64();
        }
        let composition_rows = pow2_u64(self.range_config.composition_bit_len);
        let o0 = pow2_u64(self.range_config.overflow_bit_lens[0]);
        let o1 = pow2_u64(self.range_config.overflow_bit_lens[1]);
        layouter.regions.push(Region::CompositionTables);
        layouter.regions.push(Region::OverflowTables);
        layouter.rows = layouter.rows + composition_rows + o0 + o1;
        proof {
            assert(layouter.regions@ =~= old(layouter).regions@ + seq![
                Region::CompositionTables,
                Region::OverflowTables,
            ]);
        }
        Ok(())
    }
}

/// The elliptic-curve chip configuration: the same two gates.
#[derive(Clone, PartialEq, Eq, Debug)]
pub struct EccConfig {
    pub range_config: RangeConfig,
    pub main_gate_config: MainGateConfig,
}

fn clone_u32_vec(v: &Vec<u32>) -> (r: Vec<u32>)
    ensures
        r@ == v@,
{
    let mut r: Vec<u32> = Vec::new();
    let mut i: usize = 0;
    while i < v.len()
        invariant
            i <= v.len(),
            r@ == v@.subrange(0, i as int),
        decreases v.len() - i,
    {
        r.push(v[i]);
        proof {
            assert(r@ =~= v@.subrange(0, (i + 1) as int));
        }
        i = i + 1;
    }
    proof {
        assert(v@.subrange(0, v@.len() as int) =~= v@);
    }
    r
}

/// The named regions a synthesis pass lays out, in order.
#[derive(Clone, Copy, PartialEq, Eq, Structural, Debug)]
pub enum Region {
    /// "assign aux values": the auxiliary generator and its window table.
    AuxValues,
    /// "region 0": signature, public key, hash and the verification gadget.
    MainRegion,
    /// The limb-composition range table.
    CompositionTables,
    /// The overflow range tables.
    OverflowTables,
}

/// The layouter: the regions laid out so far and the rows they consume.
#[derive(Clone, PartialEq, Eq, Debug)]
pub struct Layouter {
    pub regions: Vec<Region>,
    pub rows: u64,
}

impl Layouter {
    pub fn new() -> (r: Layouter)
        ensures
            r.regions@ == Seq::<Region>::empty(),
            r.rows == 0,
    {
        Layouter { regions: Vec::new(), rows: 0 }
    }
}

///2^e for table and accumulator sizes.
pub fn pow2_u64(e: u32) -> (r: u64)
    requires
        e <= 40,
    ensures
        r == pow2(e as nat),
{
    proof {
        lemma2_to64();
    }
    let mut r: u64 = 1;
    let mut i: u32 = 0;
    while i < e
        invariant
            i <= e,
            e <= 40,
            r == pow2(i as nat),
        decreases e - i,
    {
        proof {
            lemma2_to64();
            if (i as nat) < 40 {
                lemma_pow2_strictly_increases(i as nat, 40);
            }
            assert(pow2(40) == 0x10000000000) by {
                lemma2_to64_rest();
            };
            assert(pow2((i + 1) as nat) == 2 * pow2(i as nat)) by {
                vstd::arithmetic::power2::lemma_pow2_unfold((i + 1) as nat);
            };
        }
        r = r * 2;
        i = i + 1;
    }
    r
}

/// The region sequence every synthesis pass appends, whatever the witness.
pub open spec fn spec_region_sequence() -> Seq<Region> {
    seq![Region::AuxValues, Region::MainRegion, Region::CompositionTables, Region::OverflowTables]
}

/// Rows of the range tables: the composition table and two overflow tables.
pub open spec fn spec_table_rows() -> nat {
    pow2(spec_composition_bit_len() as nat) + 2 * pow2(spec_overflow_bit_len() as nat)
}

/// Rows of one synthesis pass: the auxiliary generator with its window table
/// of 2^w multiples, the main region, and the range tables.
pub open spec fn spec_circuit_rows(window_size: u32) -> nat {
    (1 + pow2(window_size as nat) + MAIN_REGION_ROWS + spec_table_rows()) as nat
}

/// The ECDSA verification circuit: optional witnesses, plus the auxiliary
/// generator and window size that fix the circuit's shape.
#[derive(Clone, Copy, Debug)]
pub struct TestCircuitEcdsaVerify {
    pub public_key: WitnessValue<Point>,
    pub signature: WitnessValue<(U256, U256)>,
    pub msg_hash: WitnessValue<U256>,
    pub aux_generator: Point,
    pub window_size: u32,
}

impl TestCircuitEcdsaVerify {
    /// The shape parameters are sound: a usable window size, and an auxiliary
    /// generator that is a curve point (so never the identity, whose
    /// incomplete-addition edge cases it exists to avoid).
    pub open spec fn spec_config_ok(self) -> bool {
        &&& 1 <= self.window_size <= 20
        &&& self.aux_generator.wf()
        &&& on_curve(self.aux_generator@)
    }

    /// Every known witness part satisfies its assignment constraint, and a
    /// fully known witness satisfies the verification equation.
    pub open spec fn spec_witness_ok(self) -> bool {
        &&& (self.signature.is_known() ==> self.signature.value().0.reduced_mod_n()
            && self.signature.value().1.reduced_mod_n())
        &&& (self.msg_hash.is_known() ==> self.msg_hash.value().reduced_mod_n())
        &&& (self.public_key.is_known() ==> self.public_key.value().wf() && on_curve(
            self.public_key.value()@,
        ) && !pt_infinity(self.public_key.value()@))
        &&& (self.signature.is_known() && self.msg_hash.is_known() && self.public_key.is_known()
            ==> spec_verifies(
            self.signature.value().0.as_nat(),
            self.signature.value().1.as_nat(),
            self.public_key.value()@,
            self.msg_hash.value().as_nat(),
        ))
    }

    /// The outcome synthesis is bound to: a configuration error, an
    /// unsatisfiable witness, or success.
    pub open spec fn spec_synthesize_result(self) -> Result<(), ProofError> {
        if !self.spec_config_ok() {
            Err(ProofError::Configuration)
        } else if !self.spec_witness_ok() {
            Err(ProofError::UnsatisfiableWitness)
        } else {
            Ok(())
        }
    }

    /// Build a concrete circuit instance around a witness, sampling a fresh
    /// auxiliary generator: a random curve point whose window multiples will
    /// randomize every incomplete-addition chain of this instance.
    pub fn with_witness(
        public_key: Point,
        signature: (U256, U256),
        msg_hash: U256,
        window_size: u32,
    ) -> (r: TestCircuitEcdsaVerify)
        ensures
            r.public_key == WitnessValue::Known(public_key),
            r.signature == WitnessValue::Known(signature),
            r.msg_hash == WitnessValue::Known(msg_hash),
            r.window_size == window_size,
            1 <= window_size <= 20 ==> r.spec_config_ok(),
    {
        let aux_generator = crate::curve::point_random();
        TestCircuitEcdsaVerify {
            public_key: WitnessValue::Known(public_key),
            signature: WitnessValue::Known(signature),
            msg_hash: WitnessValue::Known(msg_hash),
            aux_generator,
            window_size,
        }
    }

    /// The same circuit with the witness blanked out; shape parameters are
    /// kept, since the keys derived from this instance must fit concrete
    /// instances of the same shape.
    pub fn without_witnesses(&self) -> (r: TestCircuitEcdsaVerify)
        ensures
            r.public_key is Unknown,
            r.signature is Unknown,
            r.msg_hash is Unknown,
            r.aux_generator == self.aux_generator,
            r.window_size == self.window_size,
    {
        TestCircuitEcdsaVerify {
            public_key: WitnessValue::Unknown,
            signature: WitnessValue::Unknown,
            msg_hash: WitnessValue::Unknown,
            aux_generator: self.aux_generator,
            window_size: self.window_size,
        }
    }

    /// Declare the circuit's gates in a constraint system.
    pub fn configure(meta: &mut ConstraintSystem) -> (r: TestCircuitEcdsaVerifyConfig)
        requires
            old(meta).advice_columns <= 1000,
            old(meta).fixed_columns <= 1000,
            old(meta).lookup_tables <= 1000,
        ensures
            spec_config_wf(r),
            *final(meta) == spec_configured_system(*old(meta)),
    {
        TestCircuitEcdsaVerifyConfig::new(meta)
    }

    /// One synthesis pass: assign the auxiliary values, then the signature,
    /// public key and hash with the verification gadget, then load the range
    /// tables. The regions and rows depend only on the shape parameters, for
    /// known and unknown witnesses alike.
    pub fn synthesize(&self, config: &TestCircuitEcdsaVerifyConfig, layouter: &mut Layouter) -> (res:
        Result<(), ProofError>)
        requires
            spec_config_wf(*config),
            old(layouter).rows <= 0xffff_ffff,
        ensures
            res == self.spec_synthesize_result(),
            self.spec_config_ok() ==> final(layouter).regions@ == old(layouter).regions@
                + spec_region_sequence() && final(layouter).rows == old(layouter).rows
                + spec_circuit_rows(self.window_size),
            !self.spec_config_ok() ==> *final(layouter) == *old(layouter),
    {
        // shape parameters first: a bad configuration fails before any
        // witness is touched
        if self.window_size < 1 || self.window_size > 20 {
            return Err(ProofError::Configuration);
        }
        let p = base_prime();
        if !(u256_lt(&self.aux_generator.x, &p) && u256_lt(&self.aux_generator.y, &p)) {
            return Err(ProofError::Configuration);
        }
        if !check_on_curve(&self.aux_generator) {
            return Err(ProofError::Configuration);
        }
        // "assign aux values": the generator and its 2^w window multiples
        layouter.regions.push(Region::AuxValues);
        let aux_rows = pow2_u64(self.window_size);
        proof {
            lemma2_to64();
            if (self.window_size as nat) < 20 {
                lemma_pow2_strictly_increases(self.window_size as nat, 20);
            }
            assert(aux_rows <= 0x100000);
        }
        layouter.rows = layouter.rows + 1 + aux_rows;
        // "region 0": assignment and the verification gadget
        layouter.regions.push(Region::MainRegion);
        layouter.rows = layouter.rows + MAIN_REGION_ROWS;
        let witness_ok = self.check_witness();
        // range tables are loaded last, after both computation regions
        let table_result = config.config_range(layouter);
        proof {
            assert(layouter.regions@ =~= old(layouter).regions@ + spec_region_sequence());
        }
        match table_result {
            Ok(()) => {},
            Err(e) => {
                return Err(e);
            },
        }
        if witness_ok {
            Ok(())
        } else {
            Err(ProofError::UnsatisfiableWitness)
        }
    }

    /// The witness checks of "region 0": range assignments for r, s and the
    /// hash, the point assignment for the public key, and the gadget.
    fn check_witness(&self) -> (r: bool)
        ensures
            r == self.spec_witness_ok(),
    {
        let n = order();
        let sig_ok = match &self.signature {
            WitnessValue::Known(rs) => u256_lt(&rs.0, &n) && u256_lt(&rs.1, &n),
            WitnessValue::Unknown => true,
        };
        let hash_ok = match &self.msg_hash {
            WitnessValue::Known(h) => u256_lt(h, &n),
            WitnessValue::Unknown => true,
        };
        let p = base_prime();
        let pk_ok = match &self.public_key {
            WitnessValue::Known(q) => u256_lt(&q.x, &p) && u256_lt(&q.y, &p) && check_on_curve(q)
                && !is_infinity(q),
            WitnessValue::Unknown => true,
        };
        if !(sig_ok && hash_ok && pk_ok) {
            return false;
        }
        match (&self.signature, &self.msg_hash, &self.public_key) {
            (WitnessValue::Known(rs), WitnessValue::Known(h), WitnessValue::Known(q)) => {
                let chip = EcdsaChip::new();
                let sig = AssignedEcdsaSig { r: rs.0, s: rs.1 };
                let pk = AssignedPublicKey { point: *q };
                chip.verify(&sig, &pk, h)
            },
            _ => true,
        }
    }
}


/// An honestly signed witness synthesizes without error: if the signature
/// came from the standard signing equation with a nonzero nonce and a nonzero
/// `s`, and the curve capability computes the one group-law instance the
/// verification equation needs, then the circuit is satisfiable.
pub proof fn lemma_honest_witness_synthesizes(
    c: TestCircuitEcdsaVerify,
    d: nat,
    k: nat,
)
    requires
        c.spec_config_ok(),
        c.signature.is_known(),
        c.msg_hash.is_known(),
        c.public_key.is_known(),
        c.signature.value().0.reduced_mod_n(),
        c.signature.value().1.reduced_mod_n(),
        c.msg_hash.value().reduced_mod_n(),
        c.public_key.value().wf(),
        on_curve(c.public_key.value()@),
        !pt_infinity(c.public_key.value()@),
        d < crate::u256::scalar_modulus(),
        k < crate::u256::scalar_modulus(),
        (k * crate::field::inv_n(k)) % crate::u256::scalar_modulus() == 1,
        c.signature.value().1.as_nat() == (crate::field::inv_n(k) * ((c.msg_hash.value().as_nat()
            + (c.signature.value().0.as_nat() * d) % crate::u256::scalar_modulus())
            % crate::u256::scalar_modulus())) % crate::u256::scalar_modulus(),
        c.signature.value().1.as_nat() != 0,
        (c.signature.value().1.as_nat() * crate::field::inv_n(c.signature.value().1.as_nat()))
            % crate::u256::scalar_modulus() == 1,
        c.signature.value().0.as_nat() == crate::curve::ec_mul(crate::curve::generator_v(), k).x
            % crate::u256::scalar_modulus(),
        !pt_infinity(crate::curve::ec_mul(crate::curve::generator_v(), k)),
        c.public_key.value()@ == crate::curve::ec_mul(crate::curve::generator_v(), d),
        // the group-law instance, over the named curve operations
        crate::curve::ec_add(
            crate::curve::ec_mul(
                crate::curve::generator_v(),
                (c.msg_hash.value().as_nat() * crate::field::inv_n(c.signature.value().1.as_nat()))
                    % crate::u256::scalar_modulus(),
            ),
            crate::curve::ec_mul(
                crate::curve::ec_mul(crate::curve::generator_v(), d),
                (c.signature.value().0.as_nat() * crate::field::inv_n(
                    c.signature.value().1.as_nat(),
                )) % crate::u256::scalar_modulus(),
            ),
        ) == crate::curve::ec_mul(
            crate::curve::generator_v(),
            ((c.msg_hash.value().as_nat() * crate::field::inv_n(c.signature.value().1.as_nat()))
                % crate::u256::scalar_modulus() + ((c.signature.value().0.as_nat()
                * crate::field::inv_n(c.signature.value().1.as_nat()))
                % crate::u256::scalar_modulus()) * d) % crate::u256::scalar_modulus(),
        ),
    ensures
        c.spec_synthesize_result() == Ok::<(), ProofError>(()),
{
    crate::ecdsa::lemma_honest_signature_verifies(
        d,
        k,
        c.msg_hash.value().as_nat(),
        c.signature.value().0.as_nat(),
        c.signature.value().1.as_nat(),
    );
}

} // verus!
