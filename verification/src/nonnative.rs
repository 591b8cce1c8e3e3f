//! The in-circuit representation of non-native field elements: four 68-bit
//! limbs over the native proving field, with overflow accounting.
//!
//! The modular arithmetic itself (reduction, multiplication with soundness
//! range proofs) belongs to the external range-check gadget; what this module
//! pins down is the representation the circuit commits to: the weighted limb
//! sum equals the logical value, a freshly assigned element is in "remainder"
//! range (every limb within its checked bit width), and limb-wise addition
//! adds the values while the tracked bound says how far the limbs may grow
//! before a reduction is forced.

use vstd::prelude::*;
use vstd::arithmetic::div_mod::lemma_fundamental_div_mod;
use crate::u256::U256;

verus! {

/// The number of additions the native field can absorb before composition
/// could overflow: limb bounds must stay below 2^127, well under the 254-bit
/// native modulus.
pub const LIMB_SATURATION_BOUND: u128 = 0x80000000000000000000000000000000;

/// The bound of a freshly assigned, range-checked limb: 2^68.
pub const FRESH_LIMB_BOUND: u128 = 0x100000000000000000;

/// A non-native field element as the circuit carries it: four limbs over the
/// native field, least significant first, and the bound every limb is known
/// to respect. Assignments start at the 68-bit bound; additions grow it.
#[derive(Clone, Copy, PartialEq, Eq, Structural, Debug)]
pub struct NonNativeElement {
    pub m0: u128,
    pub m1: u128,
    pub m2: u128,
    pub m3: u128,
    pub max_val: u128,
}

impl NonNativeElement {
    /// The logical value: the weighted sum of the limbs, with 68-bit weights.
    pub open spec fn value(self) -> nat {
        (self.m0 as nat)
        + (self.m1 as nat) * 0x100000000000000000
        + (self.m2 as nat) * 0x10000000000000000000000000000000000
        + (self.m3 as nat) * 0x1000000000000000000000000000000000000000000000000000
    }

    /// Every limb respects the tracked bound, and the bound itself leaves
    /// room in the native field.
    pub open spec fn wf(self) -> bool {
        &&& self.m0 < self.max_val
        &&& self.m1 < self.max_val
        &&& self.m2 < self.max_val
        &&& self.m3 < self.max_val
        &&& self.max_val <= LIMB_SATURATION_BOUND
    }

    /// The element is in "remainder" range: every limb fits its checked
    /// 68-bit width, as a fresh range-checked assignment asserts.
    pub open spec fn reduced_range(self) -> bool {
        self.m0 < FRESH_LIMB_BOUND && self.m1 < FRESH_LIMB_BOUND && self.m2 < FRESH_LIMB_BOUND
            && self.m3 < FRESH_LIMB_BOUND
    }
}

/// Assign a 256-bit value as four range-checked 68-bit limbs: the committed
/// limbs recompose exactly to the value, and every limb is below 2^68.
pub fn assign_nonnative(v: &U256) -> (r: NonNativeElement)
    ensures
        r.wf(),
        r.reduced_range(),
        r.max_val == FRESH_LIMB_BOUND,
        r.value() == v.as_nat(),
{
    // regroup 4 x 64-bit limbs into 4 x 68-bit limbs
    let m0: u128 = v.l0 as u128 + (v.l1 % 16) as u128 * 0x10000000000000000u128;
    let m1: u128 = (v.l1 / 16) as u128 + (v.l2 % 256) as u128 * 0x1000000000000000u128;
    let m2: u128 = (v.l2 / 256) as u128 + (v.l3 % 4096) as u128 * 0x100000000000000u128;
    let m3: u128 = (v.l3 / 4096) as u128;
    let r = NonNativeElement { m0, m1, m2, m3, max_val: FRESH_LIMB_BOUND };
    proof {
        lemma_fundamental_div_mod(v.l1 as int, 16);
        lemma_fundamental_div_mod(v.l2 as int, 256);
        lemma_fundamental_div_mod(v.l3 as int, 4096);
    }
    r
}

/// Limb-wise addition with overflow accounting: the values add, and the new
/// bound is the sum of the operands' bounds. The caller must keep the bound
/// below saturation — in the circuit, exceeding it forces a reduction first.
pub fn nonnative_add(a: &NonNativeElement, b: &NonNativeElement) -> (r: NonNativeElement)
    requires
        a.wf(),
        b.wf(),
        a.max_val + b.max_val <= LIMB_SATURATION_BOUND,
    ensures
        r.wf(),
        r.value() == a.value() + b.value(),
        r.max_val == a.max_val + b.max_val,
{
    NonNativeElement {
        m0: a.m0 + b.m0,
        m1: a.m1 + b.m1,
        m2: a.m2 + b.m2,
        m3: a.m3 + b.m3,
        max_val: a.max_val + b.max_val,
    }
}

/// Whether every limb is back inside its checked 68-bit width, the condition
/// a reduction gadget re-establishes before further arithmetic.
pub fn in_reduced_range(e: &NonNativeElement) -> (r: bool)
    ensures
        r == e.reduced_range(),
{
    e.m0 < FRESH_LIMB_BOUND && e.m1 < FRESH_LIMB_BOUND && e.m2 < FRESH_LIMB_BOUND && e.m3
        < FRESH_LIMB_BOUND
}

} // verus!
