//! The weighted quality score that prices a mint of RSM tokens.
//!
//! Four weights (complexity, uniqueness, entropy, blockchain) rate a genome's
//! attributes; the weighted score is scaled to base token units and a bonus
//! multiplier rewards genomes whose complexity and uniqueness are both high.

use vstd::prelude::*;

verus! {

use vstd::arithmetic::div_mod::{lemma_div_by_multiple, lemma_div_is_ordered, lemma_div_pos_is_pos};
use vstd::arithmetic::mul::{lemma_mul_inequality, lemma_mul_nonnegative, lemma_mul_upper_bound};

/// Base token units per whole scoring point, before the final scale-down.
pub const SCORE_SCALE: u64 = 1_000_000_000_000;

/// The weighted score is divided by this after scaling.
pub const SCORE_DIVISOR: u64 = 100_000;

/// Scoring weights for minting RSM from a genome. The four weights are
/// percentages and a well-formed parameter set has them summing to 100.
#[derive(Clone, Copy, Debug)]
pub struct AGIParameters {
    pub complexity_weight: u8,
    pub uniqueness_weight: u8,
    pub entropy_weight: u8,
    pub blockchain_weight: u8,
    pub last_update: i64,
}

impl AGIParameters {
    /// Sum of the four scoring weights.
    pub open spec fn weights_sum(self) -> int {
        self.complexity_weight + self.uniqueness_weight + self.entropy_weight
            + self.blockchain_weight
    }

    /// A well-formed parameter set: the weights are a percentage split.
    pub open spec fn valid(self) -> bool {
        self.weights_sum() == 100
    }
}

impl Default for AGIParameters {
    /// The initial weight split: 40% complexity, 30% uniqueness, 20% entropy,
    /// 10% blockchain.
    fn default() -> (p: AGIParameters)
        ensures
            p.complexity_weight == 40,
            p.uniqueness_weight == 30,
            p.entropy_weight == 20,
            p.blockchain_weight == 10,
            p.last_update == 0,
            p.valid(),
    {
        AGIParameters {
            complexity_weight: 40,
            uniqueness_weight: 30,
            entropy_weight: 20,
            blockchain_weight: 10,
            last_update: 0,
        }
    }
}

/// The raw weighted score: each attribute times its weight, with the entropy
/// contribution halved and the slot reduced to its last two decimal digits.
pub open spec fn spec_weighted_score(
    params: AGIParameters,
    complexity: u8,
    uniqueness: u8,
    entropy: u16,
    slot: u64,
) -> int {
    complexity * params.complexity_weight + uniqueness * params.uniqueness_weight + (entropy
        * params.entropy_weight) / 2 + (slot % 100) * params.blockchain_weight
}

/// The score scaled to base token units.
pub open spec fn spec_base_amount(
    params: AGIParameters,
    complexity: u8,
    uniqueness: u8,
    entropy: u16,
    slot: u64,
) -> int {
    (spec_weighted_score(params, complexity, uniqueness, entropy, slot) * (SCORE_SCALE as int))
        / (SCORE_DIVISOR as int)
}

/// The tiered bonus multiplier, in percent: 150 when complexity and
/// uniqueness are both at least 90, 125 when both are at least 80, else 100.
pub open spec fn spec_bonus_percent(complexity: u8, uniqueness: u8) -> int {
    if complexity >= 90 && uniqueness >= 90 {
        150
    } else if complexity >= 80 && uniqueness >= 80 {
        125
    } else {
        100
    }
}

/// The full mint amount: the scaled base amount with the bonus applied.
pub open spec fn spec_token_amount(
    params: AGIParameters,
    complexity: u8,
    uniqueness: u8,
    entropy: u16,
    slot: u64,
) -> int {
    let base = spec_base_amount(params, complexity, uniqueness, entropy, slot);
    if complexity >= 90 && uniqueness >= 90 {
        (base * 150) / 100
    } else if complexity >= 80 && uniqueness >= 80 {
        (base * 125) / 100
    } else {
        base
    }
}

/// Computes the RSM amount owed for a genome with the given attributes,
/// minted at the given slot, under the given weights.
pub fn calculate_token_amount(
    params: &AGIParameters,
    complexity: u8,
    uniqueness: u8,
    entropy: u16,
    slot: u64,
) -> (amount: u64)
    ensures
        amount == spec_token_amount(*params, complexity, uniqueness, entropy, slot),
{
    proof {
        lemma_mul_upper_bound(complexity as int, 255, params.complexity_weight as int, 255);
        lemma_mul_upper_bound(uniqueness as int, 255, params.uniqueness_weight as int, 255);
        lemma_mul_upper_bound(entropy as int, 65535, params.entropy_weight as int, 255);
        lemma_mul_upper_bound((slot % 100) as int, 99, params.blockchain_weight as int, 255);
        lemma_mul_nonnegative(complexity as int, params.complexity_weight as int);
        lemma_mul_nonnegative(uniqueness as int, params.uniqueness_weight as int);
        lemma_mul_nonnegative(entropy as int, params.entropy_weight as int);
        lemma_mul_nonnegative((slot % 100) as int, params.blockchain_weight as int);
    }
    let weighted_score: u64 = (complexity as u64) * (params.complexity_weight as u64) + (
    uniqueness as u64) * (params.uniqueness_weight as u64) + (entropy as u64) * (
    params.entropy_weight as u64) / 2 + (slot % 100) * (params.blockchain_weight as u64);

    let base_amount: u64 = (weighted_score * SCORE_SCALE) / SCORE_DIVISOR;

    if complexity >= 90 && uniqueness >= 90 {
        (base_amount * 150) / 100
    } else if complexity >= 80 && uniqueness >= 80 {
        (base_amount * 125) / 100
    } else {
        base_amount
    }
}

/// The weighted score is never negative.
proof fn lemma_weighted_score_nonnegative(
    params: AGIParameters,
    complexity: u8,
    uniqueness: u8,
    entropy: u16,
    slot: u64,
)
    ensures
        spec_weighted_score(params, complexity, uniqueness, entropy, slot) >= 0,
{
    lemma_mul_nonnegative(complexity as int, params.complexity_weight as int);
    lemma_mul_nonnegative(uniqueness as int, params.uniqueness_weight as int);
    lemma_mul_nonnegative(entropy as int, params.entropy_weight as int);
    lemma_div_pos_is_pos((entropy * params.entropy_weight) as int, 2);
    lemma_mul_nonnegative((slot % 100) as int, params.blockchain_weight as int);
}

/// The mint amount equals `(base * bonus) / 100` in every bonus tier, and the
/// base amount is never negative.
proof fn lemma_token_amount_as_product(
    params: AGIParameters,
    complexity: u8,
    uniqueness: u8,
    entropy: u16,
    slot: u64,
)
    ensures
        spec_base_amount(params, complexity, uniqueness, entropy, slot) >= 0,
        spec_token_amount(params, complexity, uniqueness, entropy, slot) == (spec_base_amount(
            params,
            complexity,
            uniqueness,
            entropy,
            slot,
        ) * spec_bonus_percent(complexity, uniqueness)) / 100,
{
    let ws = spec_weighted_score(params, complexity, uniqueness, entropy, slot);
    let base = spec_base_amount(params, complexity, uniqueness, entropy, slot);
    lemma_weighted_score_nonnegative(params, complexity, uniqueness, entropy, slot);
    lemma_mul_nonnegative(ws, SCORE_SCALE as int);
    lemma_div_pos_is_pos(ws * (SCORE_SCALE as int), SCORE_DIVISOR as int);
    lemma_div_by_multiple(base, 100);
}

/// Raising complexity alone never lowers the mint amount: under any valid
/// weight split, the amount is monotonically non-decreasing in complexity.
pub proof fn lemma_amount_monotone_in_complexity(
    params: AGIParameters,
    complexity_lo: u8,
    complexity_hi: u8,
    uniqueness: u8,
    entropy: u16,
    slot: u64,
)
    requires
        params.valid(),
        complexity_lo <= complexity_hi,
    ensures
        spec_token_amount(params, complexity_lo, uniqueness, entropy, slot) <= spec_token_amount(
            params,
            complexity_hi,
            uniqueness,
            entropy,
            slot,
        ),
{
    let ws_lo = spec_weighted_score(params, complexity_lo, uniqueness, entropy, slot);
    let ws_hi = spec_weighted_score(params, complexity_hi, uniqueness, entropy, slot);
    lemma_mul_inequality(complexity_lo as int, complexity_hi as int, params.complexity_weight as int);
    assert(ws_lo <= ws_hi);
    lemma_mul_inequality(ws_lo, ws_hi, SCORE_SCALE as int);
    lemma_div_is_ordered(
        ws_lo * (SCORE_SCALE as int),
        ws_hi * (SCORE_SCALE as int),
        SCORE_DIVISOR as int,
    );
    let base_lo = spec_base_amount(params, complexity_lo, uniqueness, entropy, slot);
    let base_hi = spec_base_amount(params, complexity_hi, uniqueness, entropy, slot);
    assert(base_lo <= base_hi);
    let bonus_lo = spec_bonus_percent(complexity_lo, uniqueness);
    let bonus_hi = spec_bonus_percent(complexity_hi, uniqueness);
    assert(bonus_lo <= bonus_hi);
    lemma_token_amount_as_product(params, complexity_lo, uniqueness, entropy, slot);
    lemma_token_amount_as_product(params, complexity_hi, uniqueness, entropy, slot);
    lemma_mul_upper_bound(base_lo, base_hi, bonus_lo, bonus_hi);
    lemma_div_is_ordered(base_lo * bonus_lo, base_hi * bonus_hi, 100);
}

/// Raising uniqueness alone never lowers the mint amount: under any valid
/// weight split, the amount is monotonically non-decreasing in uniqueness.
pub proof fn lemma_amount_monotone_in_uniqueness(
    params: AGIParameters,
    complexity: u8,
    uniqueness_lo: u8,
    uniqueness_hi: u8,
    entropy: u16,
    slot: u64,
)
    requires
        params.valid(),
        uniqueness_lo <= uniqueness_hi,
    ensures
        spec_token_amount(params, complexity, uniqueness_lo, entropy, slot) <= spec_token_amount(
            params,
            complexity,
            uniqueness_hi,
            entropy,
            slot,
        ),
{
    let ws_lo = spec_weighted_score(params, complexity, uniqueness_lo, entropy, slot);
    let ws_hi = spec_weighted_score(params, complexity, uniqueness_hi, entropy, slot);
    lemma_mul_inequality(uniqueness_lo as int, uniqueness_hi as int, params.uniqueness_weight as int);
    assert(ws_lo <= ws_hi);
    lemma_mul_inequality(ws_lo, ws_hi, SCORE_SCALE as int);
    lemma_div_is_ordered(
        ws_lo * (SCORE_SCALE as int),
        ws_hi * (SCORE_SCALE as int),
        SCORE_DIVISOR as int,
    );
    let base_lo = spec_base_amount(params, complexity, uniqueness_lo, entropy, slot);
    let base_hi = spec_base_amount(params, complexity, uniqueness_hi, entropy, slot);
    assert(base_lo <= base_hi);
    let bonus_lo = spec_bonus_percent(complexity, uniqueness_lo);
    let bonus_hi = spec_bonus_percent(complexity, uniqueness_hi);
    assert(bonus_lo <= bonus_hi);
    lemma_token_amount_as_product(params, complexity, uniqueness_lo, entropy, slot);
    lemma_token_amount_as_product(params, complexity, uniqueness_hi, entropy, slot);
    lemma_mul_upper_bound(base_lo, base_hi, bonus_lo, bonus_hi);
    lemma_div_is_ordered(base_lo * bonus_lo, base_hi * bonus_hi, 100);
}

/// The bonus tiers strictly separate quality levels: with any valid weight
/// split that gives complexity and uniqueness together at least one point of
/// weight, a genome scoring 95/95 mints strictly more than one scoring 85/85,
/// which mints strictly more than one scoring 75/75, for the same entropy and
/// slot.
pub proof fn lemma_bonus_tiers_strictly_ordered(params: AGIParameters, entropy: u16, slot: u64)
    requires
        params.valid(),
        params.complexity_weight + params.uniqueness_weight >= 1,
    ensures
        spec_token_amount(params, 95, 95, entropy, slot) > spec_token_amount(
            params,
            85,
            85,
            entropy,
            slot,
        ),
        spec_token_amount(params, 85, 85, entropy, slot) > spec_token_amount(
            params,
            75,
            75,
            entropy,
            slot,
        ),
{
    let cw = params.complexity_weight as int;
    let uw = params.uniqueness_weight as int;
    let w = cw + uw;
    let extra = (entropy * params.entropy_weight) / 2 + (slot % 100) * params.blockchain_weight;
    lemma_mul_nonnegative(entropy as int, params.entropy_weight as int);
    lemma_div_pos_is_pos((entropy * params.entropy_weight) as int, 2);
    lemma_mul_nonnegative((slot % 100) as int, params.blockchain_weight as int);
    assert(extra >= 0);

    let ws95 = spec_weighted_score(params, 95, 95, entropy, slot);
    let ws85 = spec_weighted_score(params, 85, 85, entropy, slot);
    let ws75 = spec_weighted_score(params, 75, 75, entropy, slot);
    assert(ws95 == 95 * w + extra);
    assert(ws85 == 85 * w + extra);
    assert(ws75 == 75 * w + extra);

    assert(ws95 * (SCORE_SCALE as int) == (ws95 * 10_000_000) * (SCORE_DIVISOR as int));
    lemma_div_by_multiple(ws95 * 10_000_000, SCORE_DIVISOR as int);
    assert(spec_base_amount(params, 95, 95, entropy, slot) == ws95 * 10_000_000);
    assert(ws85 * (SCORE_SCALE as int) == (ws85 * 10_000_000) * (SCORE_DIVISOR as int));
    lemma_div_by_multiple(ws85 * 10_000_000, SCORE_DIVISOR as int);
    assert(spec_base_amount(params, 85, 85, entropy, slot) == ws85 * 10_000_000);
    assert(ws75 * (SCORE_SCALE as int) == (ws75 * 10_000_000) * (SCORE_DIVISOR as int));
    lemma_div_by_multiple(ws75 * 10_000_000, SCORE_DIVISOR as int);
    assert(spec_base_amount(params, 75, 75, entropy, slot) == ws75 * 10_000_000);

    assert((ws95 * 10_000_000) * 150 == (ws95 * 15_000_000) * 100);
    lemma_div_by_multiple(ws95 * 15_000_000, 100);
    assert(spec_token_amount(params, 95, 95, entropy, slot) == ws95 * 15_000_000);
    assert((ws85 * 10_000_000) * 125 == (ws85 * 12_500_000) * 100);
    lemma_div_by_multiple(ws85 * 12_500_000, 100);
    assert(spec_token_amount(params, 85, 85, entropy, slot) == ws85 * 12_500_000);
    assert(spec_token_amount(params, 75, 75, entropy, slot) == ws75 * 10_000_000);

    assert(ws95 * 15_000_000 > ws85 * 12_500_000);
    assert(ws85 * 12_500_000 > ws75 * 10_000_000);
}

} // verus!
