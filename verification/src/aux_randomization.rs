//! The auxiliary-randomization scheme for windowed scalar multiplication.
//!
//! Inside the circuit, every scalar multiplication starts its accumulator at
//! a random auxiliary point and subtracts the matching known multiple of that
//! point at the end, so that no intermediate incomplete addition meets the
//! identity or a doubling collision. This module tracks the bookkeeping of
//! that scheme exactly, in the exponent: an accumulator is a pair of scalar
//! coefficients (one for the multiplied point, one for the auxiliary point),
//! each windowed step doubles and adds as the circuit does, and the central
//! guarantee is proved — after all windows, the auxiliary coefficient equals
//! the independently computed correction multiple, so subtracting the
//! correction leaves the public result unaffected.

use vstd::prelude::*;
use vstd::arithmetic::power2::{pow2, lemma_pow2_adds, lemma_pow2_unfold, lemma2_to64};
use vstd::arithmetic::div_mod::{lemma_add_mod_noop, lemma_mul_mod_noop_general, lemma_small_mod};
use crate::u256::{U256, scalar_modulus};
use crate::field::scalar_add;

verus! {

/// An accumulator of the windowed multiplication, written in the exponent:
/// the value it stands for is `base * P + aux * Aux` for the multiplied point
/// `P` and the auxiliary point `Aux`, with both coefficients in the scalar
/// field.
#[derive(Clone, Copy, PartialEq, Eq, Structural, Debug)]
pub struct AuxCombination {
    pub base: U256,
    pub aux: U256,
}

impl AuxCombination {
    pub open spec fn wf(self) -> bool {
        self.base.reduced_mod_n() && self.aux.reduced_mod_n()
    }
}

/// The scalar a sequence of window digits recomposes to, most significant
/// digit first.
pub open spec fn windows_value(ws: Seq<u64>, w: u32) -> nat
    decreases ws.len(),
{
    if ws.len() == 0 {
        0
    } else {
        (windows_value(ws.drop_last(), w) * pow2(w as nat) + ws.last()) as nat
    }
}

/// Doubling modulo the order follows the power: the circuit's repeated
/// point doubling multiplies every coefficient by two.
fn double_mod_n(a: &U256) -> (r: U256)
    requires
        a.reduced_mod_n(),
    ensures
        r.reduced_mod_n(),
        r.as_nat() == (2 * a.as_nat()) % scalar_modulus(),
{
    let r = scalar_add(a, a);
    proof {
        assert(a.as_nat() + a.as_nat() == 2 * a.as_nat());
        lemma_small_mod(a.as_nat(), scalar_modulus());
    }
    r
}

/// Multiply a coefficient by 2^w, as the w doublings of one window do.
fn shift_window(a: &U256, w: u32) -> (r: U256)
    requires
        a.reduced_mod_n(),
        1 <= w <= 20,
    ensures
        r.reduced_mod_n(),
        r.as_nat() == (a.as_nat() * pow2(w as nat)) % scalar_modulus(),
{
    let mut cur = *a;
    let mut i: u32 = 0;
    proof {
        lemma2_to64();
        lemma_small_mod(a.as_nat(), scalar_modulus());
        assert(a.as_nat() * pow2(0) == a.as_nat());
    }
    while i < w
        invariant
            i <= w,
            w <= 20,
            a.reduced_mod_n(),
            cur.reduced_mod_n(),
            cur.as_nat() == (a.as_nat() * pow2(i as nat)) % scalar_modulus(),
        decreases w - i,
    {
        let next = double_mod_n(&cur);
        proof {
            let n = scalar_modulus() as int;
            let b = a.as_nat() as int;
            let p = pow2(i as nat) as int;
            // 2 * ((b * 2^i) % n) % n == (b * 2^(i+1)) % n
            lemma_mul_mod_noop_general(2, b * p, n);
            assert(2 * (b * p) == b * (2 * p)) by (nonlinear_arith);
            lemma_pow2_unfold((i + 1) as nat);
            assert(pow2((i + 1) as nat) == 2 * pow2(i as nat));
        }
        cur = next;
        i = i + 1;
    }
    cur
}

/// One windowed step of the accumulator: w doublings, then the addition of
/// the window digit of the multiplied point. The auxiliary coefficient is
/// only doubled — the digit additions never touch it.
pub fn process_window(acc: &AuxCombination, digit: u64, w: u32) -> (r: AuxCombination)
    requires
        acc.wf(),
        1 <= w <= 20,
        digit < pow2(w as nat),
    ensures
        r.wf(),
        r.base.as_nat() == ((acc.base.as_nat() * pow2(w as nat) + digit) as nat) % scalar_modulus(),
        r.aux.as_nat() == (acc.aux.as_nat() * pow2(w as nat)) % scalar_modulus(),
{
    let shifted_base = shift_window(&acc.base, w);
    let shifted_aux = shift_window(&acc.aux, w);
    let d = U256::from_u64(digit);
    proof {
        lemma2_to64();
        if (w as nat) < 20 {
            vstd::arithmetic::power2::lemma_pow2_strictly_increases(w as nat, 20);
        }
        assert(d.as_nat() < scalar_modulus());
        let n = scalar_modulus() as int;
        let t = (acc.base.as_nat() * pow2(w as nat)) as int;
        // ((t % n) + digit) % n == (t + digit) % n
        lemma_add_mod_noop(t, digit as int, n);
        lemma_small_mod(digit as nat, scalar_modulus());
    }
    let base = scalar_add(&shifted_base, &d);
    AuxCombination { base, aux: shifted_aux }
}

/// The correction exponent 2^e reduced into the scalar field, computed
/// independently of any accumulator, as the aux-assignment step does.
pub fn pow2_mod_n(e: u32) -> (r: U256)
    requires
        e <= 8192,
    ensures
        r.reduced_mod_n(),
        r.as_nat() == pow2(e as nat) % scalar_modulus(),
{
    let one = U256::from_u64(1);
    let mut cur = one;
    let mut i: u32 = 0;
    proof {
        lemma2_to64();
        lemma_small_mod(1nat, scalar_modulus());
    }
    while i < e
        invariant
            i <= e,
            cur.reduced_mod_n(),
            cur.as_nat() == pow2(i as nat) % scalar_modulus(),
        decreases e - i,
    {
        let next = double_mod_n(&cur);
        proof {
            let n = scalar_modulus() as int;
            let p = pow2(i as nat) as int;
            lemma_mul_mod_noop_general(2, p, n);
            lemma_pow2_unfold((i + 1) as nat);
        }
        cur = next;
        i = i + 1;
    }
    cur
}

/// One step of the accumulation in the exponent: folding the inner
/// reductions of a window step into the running values.
proof fn lemma_window_step(v: nat, digit: u64, w: u32, e: nat)
    ensures
        (((v % scalar_modulus()) * pow2(w as nat) + digit) as nat) % scalar_modulus() == ((v
            * pow2(w as nat) + digit) as nat) % scalar_modulus(),
        (((pow2(e) % scalar_modulus()) * pow2(w as nat)) as nat) % scalar_modulus() == pow2(
            (e + w) as nat,
        ) % scalar_modulus(),
{
    let n = scalar_modulus() as int;
    let p = pow2(w as nat) as int;
    lemma_mul_mod_noop_general(v as int, p, n);
    lemma_small_mod(digit as nat, scalar_modulus());
    lemma_add_mod_noop(((v % scalar_modulus()) * pow2(w as nat)) as int, digit as int, n);
    lemma_add_mod_noop((v * pow2(w as nat)) as int, digit as int, n);
    vstd::arithmetic::div_mod::lemma_mod_twice(((v % scalar_modulus()) * pow2(w as nat)) as int, n);
    vstd::arithmetic::div_mod::lemma_mod_twice((v * pow2(w as nat)) as int, n);
    lemma_mul_mod_noop_general(pow2(e) as int, p, n);
    lemma_pow2_adds(e, w as nat);
}

/// Run the whole windowed accumulation in the exponent, starting from the
/// auxiliary point as the circuit does, and compute the correction multiple
/// beside it. The contract is the scheme's soundness: the base coefficient
/// recomposes the scalar, and the auxiliary coefficient equals the
/// correction — so subtracting `correction * Aux` at the end removes the
/// randomization without affecting the public result.
#[verifier::rlimit(60)]
pub fn windowed_combination(windows: &Vec<u64>, w: u32) -> (r: (AuxCombination, U256))
    requires
        1 <= w <= 20,
        windows.len() >= 1,
        windows.len() <= 256,
        forall|i: int| 0 <= i < windows.len() ==> (#[trigger] windows@[i]) < pow2(w as nat),
    ensures
        r.0.wf(),
        r.1.reduced_mod_n(),
        r.0.base.as_nat() == windows_value(windows@, w) % scalar_modulus(),
        r.0.aux.as_nat() == pow2((w * windows.len()) as nat) % scalar_modulus(),
        r.1.as_nat() == pow2((w * windows.len()) as nat) % scalar_modulus(),
        r.0.aux.as_nat() == r.1.as_nat(),
{
    let mut acc = AuxCombination { base: U256::zero(), aux: U256::from_u64(1) };
    proof {
        lemma2_to64();
        lemma_small_mod(0nat, scalar_modulus());
        lemma_small_mod(1nat, scalar_modulus());
        assert(windows_value(windows@.subrange(0, 0), w) == 0);
    }
    let mut i: usize = 0;
    while i < windows.len()
        invariant
            i <= windows.len(),
            windows.len() <= 256,
            1 <= w <= 20,
            forall|j: int| 0 <= j < windows.len() ==> (#[trigger] windows@[j]) < pow2(w as nat),
            acc.wf(),
            acc.base.as_nat() == windows_value(windows@.subrange(0, i as int), w)
                % scalar_modulus(),
            acc.aux.as_nat() == pow2((w * i) as nat) % scalar_modulus(),
        decreases windows.len() - i,
    {
        let digit = windows[i];
        let next = process_window(&acc, digit, w);
        proof {
            let prefix = windows@.subrange(0, i as int);
            let prefix1 = windows@.subrange(0, (i + 1) as int);
            assert(prefix1.drop_last() =~= prefix);
            assert(prefix1.last() == windows@[i as int]);
            assert(windows_value(prefix1, w) == windows_value(prefix, w) * pow2(w as nat)
                + digit);
            lemma_window_step(windows_value(prefix, w), digit, w, (w * i) as nat);
            assert((w * i + w) as nat == (w * (i + 1)) as nat) by (nonlinear_arith);
        }
        acc = next;
        i = i + 1;
    }
    proof {
        assert(windows@.subrange(0, windows@.len() as int) =~= windows@);
        assert(w * (windows@.len() as u32) <= 5120) by (nonlinear_arith)
            requires
                w <= 20,
                windows@.len() <= 256,
        ;
    }
    let exponent: u32 = w * (windows.len() as u32);
    let correction = pow2_mod_n(exponent);
    (acc, correction)
}

} // verus!
