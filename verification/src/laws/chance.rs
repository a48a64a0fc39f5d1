//! What chance can do to the daemon's verdict.

use crate::commands::chaos::chaos_data;
use crate::commands::summon::SummonView;
use crate::levels::{distance, ChaosFactor, Score, WARNING_THRESHOLD};
use crate::script::say;
use crate::store::DataView;
use vstd::arithmetic::mul::lemma_mul_strict_inequality;
use vstd::arithmetic::power2::{lemma_pow2_pos, pow2};
use vstd::prelude::*;

verus! {

/// Whether a number can be drawn in a guild with a chaos factor: one from zero up to the factor,
/// the factor itself left out, or zero where the factor leaves nothing to chance.
pub open spec fn possible_draw(draw: Score, factor: ChaosFactor) -> bool {
    &&& !draw.is_nan()
    &&& if factor.is_random() {
        0 <= draw.value() < factor.widened()
    } else {
        draw.value() == 0
    }
}

/// Rounding keeps the order.
proof fn lemma_nearest_orders(low: Score, low_exact: int, high: Score, high_exact: int)
    requires
        low.nearest(low_exact),
        high.nearest(high_exact),
        low_exact < high_exact,
    ensures
        low.value() <= high.value(),
{
}

/// A score above the threshold stays above it whatever is added, if it is not negative.
proof fn lemma_sum_at_least(sum: Score, score: Score, added: int)
    requires
        sum.is_sum(score, added),
        added >= 0,
    ensures
        score.exceeds() ==> sum.exceeds(),
{
}

/// Chance can only add enforcement, never prevent it. Whatever is drawn, a score above the
/// threshold makes a summons apply the enforcement that hangs over the user. And whatever is
/// drawn, none is applied where the score does not come above the threshold even with the whole
/// chaos factor added; `most` is that score.
pub proof fn chance_only_adds(
    call: SummonView,
    before: DataView,
    score: Score,
    draw: Score,
    sum: Score,
    most: Score,
)
    requires
        ({
            let factor = before.chaotic_config(call.guild_id).chaos_factor;
            &&& factor.is_random()
            &&& possible_draw(draw, factor)
            &&& most.is_sum(score, factor.widened())
        }),
        sum.is_sum(score, draw.value()),
        call.enforce == sum.exceeds(),
    ensures
        score.exceeds() ==> call.enforce,
        !most.exceeds() ==> !call.enforce,
        score.value() + before.chaotic_config(call.guild_id).chaos_factor.widened() <= (Score {
            bits: WARNING_THRESHOLD,
        }).value() ==> !most.exceeds(),
        call.applies(before) <==> call.enforce && call.enforcement(before) is Some,
{
    let factor = before.chaotic_config(call.guild_id).chaos_factor;
    let threshold = Score { bits: WARNING_THRESHOLD };
    lemma_sum_at_least(sum, score, draw.value());
    if !score.is_nan() {
        lemma_nearest_orders(
            sum,
            score.value() + draw.value(),
            most,
            score.value() + factor.widened(),
        );
        assert(!threshold.is_nan());
    }
}

/// The higher the chaos factor, the more scores are left to chance: a score that the whole of a
/// factor brings above the threshold is brought there by the whole of a higher one too.
pub proof fn more_chaos_leaves_more_to_chance(
    score: Score,
    factor: ChaosFactor,
    higher: ChaosFactor,
    most: Score,
    higher_most: Score,
)
    requires
        factor.value() < higher.value(),
        most.is_sum(score, factor.widened()),
        higher_most.is_sum(score, higher.widened()),
    ensures
        most.exceeds() ==> higher_most.exceeds(),
{
    lemma_pow2_pos(925);
    lemma_mul_strict_inequality(factor.value(), higher.value(), pow2(925) as int);
    if !score.is_nan() {
        lemma_nearest_orders(
            most,
            score.value() + factor.widened(),
            higher_most,
            score.value() + higher.widened(),
        );
    }
}

/// Once a guild has set its chaos factor to zero, nothing is left to chance there: only zero can
/// be drawn, the bare score decides on its own, and the moderator is answered.
pub proof fn calm_guild_goes_by_the_score(
    before: DataView,
    factor: ChaosFactor,
    call: SummonView,
    score: Score,
    draw: Score,
    sum: Score,
)
    requires
        factor.is_unit(),
        factor.value() == 0,
        ({
            let after = chaos_data(before, call.guild_id, factor);
            possible_draw(draw, after.chaotic_config(call.guild_id).chaos_factor)
        }),
        sum.is_sum(score, draw.value()),
        call.enforce == sum.exceeds(),
    ensures
        ({
            let after = chaos_data(before, call.guild_id, factor);
            &&& !after.chaotic_config(call.guild_id).chaos_factor.is_random()
            &&& draw.value() == 0
            &&& call.enforce == score.exceeds()
            &&& call.applies(after) <==> score.exceeds() && call.enforcement(after) is Some
            &&& call.script(after).last() == say(call.response())
        }),
{
    if !score.is_nan() {
        assert(distance(sum.value(), score.value()) <= distance(score.value(), score.value()));
    }
}

} // verus!
