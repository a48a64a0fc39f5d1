//! How the bit patterns of chaos factors and scores stand for numbers.

use crate::levels::{magnitude, outlook_text, ChaosFactor, Score};
use vstd::arithmetic::power2::{
    lemma2_to64, lemma2_to64_rest, lemma_pow2_adds, lemma_pow2_unfold, pow2,
};
use vstd::prelude::*;

verus! {

/// The next exponent doubles a number.
proof fn lemma_next_exponent(width: nat, exponent: nat, fraction: nat)
    requires
        exponent >= 1,
    ensures
        magnitude(width, exponent + 1, fraction) == 2 * magnitude(width, exponent, fraction),
{
    let scale = pow2((exponent - 1) as nat);
    lemma_pow2_unfold(exponent);
    assert((pow2(width) + fraction) * (2 * scale) == 2 * ((pow2(width) + fraction) * scale))
        by (nonlinear_arith);
}

/// The smallest factors are counted by their patterns; from there on, the pattern with the next
/// exponent is twice the number; and the sign bit turns a number into its negative.
pub proof fn factors_follow_their_patterns(bits: u32)
    requires
        bits < 0x8000_0000,
    ensures
        bits < 0x100_0000 ==> (ChaosFactor { bits }).value() == bits,
        0x80_0000 <= bits < 0x7f80_0000 ==> (ChaosFactor {
            bits: (bits + 0x80_0000) as u32,
        }).value() == 2 * (ChaosFactor { bits }).value(),
        (ChaosFactor { bits: (bits + 0x8000_0000) as u32 }).value() == -(ChaosFactor {
            bits,
        }).value(),
        (ChaosFactor { bits }).is_nan() <==> bits > 0x7f80_0000,
        (ChaosFactor { bits: (bits + 0x8000_0000) as u32 }).is_nan() <==> bits > 0x7f80_0000,
{
    let factor = ChaosFactor { bits };
    lemma2_to64();
    if bits < 0x100_0000 && bits >= 0x80_0000 {
        assert(factor.exponent() == 1);
        assert(pow2(0) == 1);
        assert((pow2(23) + factor.fraction()) * pow2(0) == pow2(23) + factor.fraction())
            by (nonlinear_arith)
            requires
                pow2(0) == 1,
        ;
    }
    if 0x80_0000 <= bits < 0x7f80_0000 {
        let next = ChaosFactor { bits: (bits + 0x80_0000) as u32 };
        assert(next.exponent() == factor.exponent() + 1);
        assert(next.fraction() == factor.fraction());
        lemma_next_exponent(23, factor.exponent(), factor.fraction());
    }
    let negative = ChaosFactor { bits: (bits + 0x8000_0000) as u32 };
    assert(negative.exponent() == factor.exponent());
    assert(negative.fraction() == factor.fraction());
}

/// The same of scores.
pub proof fn scores_follow_their_patterns(bits: u64)
    requires
        bits < 0x8000_0000_0000_0000,
    ensures
        bits < 0x20_0000_0000_0000 ==> (Score { bits }).value() == bits,
        0x10_0000_0000_0000 <= bits < 0x7ff0_0000_0000_0000 ==> (Score {
            bits: (bits + 0x10_0000_0000_0000) as u64,
        }).value() == 2 * (Score { bits }).value(),
        (Score { bits: (bits + 0x8000_0000_0000_0000) as u64 }).value() == -(Score {
            bits,
        }).value(),
        (Score { bits }).is_nan() <==> bits > 0x7ff0_0000_0000_0000,
        (Score { bits: (bits + 0x8000_0000_0000_0000) as u64 }).is_nan() <==> bits
            > 0x7ff0_0000_0000_0000,
{
    let score = Score { bits };
    lemma2_to64();
    lemma2_to64_rest();
    if bits < 0x20_0000_0000_0000 && bits >= 0x10_0000_0000_0000 {
        assert(score.exponent() == 1);
        assert((pow2(52) + score.fraction()) * pow2(0) == pow2(52) + score.fraction())
            by (nonlinear_arith)
            requires
                pow2(0) == 1,
        ;
    }
    if 0x10_0000_0000_0000 <= bits < 0x7ff0_0000_0000_0000 {
        let next = Score { bits: (bits + 0x10_0000_0000_0000) as u64 };
        assert(next.exponent() == score.exponent() + 1);
        assert(next.fraction() == score.fraction());
        lemma_next_exponent(52, score.exponent(), score.fraction());
    }
    let negative = Score { bits: (bits + 0x8000_0000_0000_0000) as u64 };
    assert(negative.exponent() == score.exponent());
    assert(negative.fraction() == score.fraction());
}

/// A factor is the same part of one among scores as among factors.
pub proof fn factors_can_be_added_to_scores(factor: ChaosFactor)
    ensures
        factor.widened() * (ChaosFactor { bits: 0x3f80_0000 }).value() == factor.value() * (Score {
            bits: 0x3ff0_0000_0000_0000,
        }).value(),
{
    let one = ChaosFactor { bits: 0x3f80_0000 };
    let score = Score { bits: 0x3ff0_0000_0000_0000 };
    assert(one.exponent() == 127 && one.fraction() == 0);
    assert(score.exponent() == 1023 && score.fraction() == 0);
    lemma_pow2_adds(23, 126);
    lemma_pow2_adds(52, 1022);
    lemma_pow2_adds(925, 149);
    let v = factor.value();
    let (a, b) = (pow2(925) as int, pow2(149) as int);
    assert(one.value() == b);
    assert(score.value() == a * b);
    assert((v * a) * b == v * (a * b)) by (nonlinear_arith);
}

/// A factor from zero to one is accepted, minus zero among them, and no other pattern is; and only
/// a factor above zero leaves something to chance.
pub proof fn factors_are_accepted_by_range(factor: ChaosFactor)
    ensures
        factor.is_unit() <==> factor.bits <= 0x3f80_0000 || factor.bits == 0x8000_0000,
        factor.is_random() <==> 0 < factor.bits <= 0x7f80_0000,
{
    factor.lemma_zeros();
    (ChaosFactor { bits: 0x3f80_0000 }).lemma_zeros();
    if !factor.negative() {
        (ChaosFactor { bits: 0x3f80_0000 }).lemma_orders(factor);
    }
}

/// Scores above three call for enforcement, infinity among them, and no other pattern does.
pub proof fn scores_exceed_by_range(score: Score)
    ensures
        score.exceeds() <==> 0x4008_0000_0000_0000 < score.bits <= 0x7ff0_0000_0000_0000,
{
    score.lemma_exceeds();
}

/// What a moderator is told to expect of an accepted factor, by where it lies between 0.2, 0.5 and
/// 0.8.
pub proof fn outlooks_go_by_the_factor(factor: ChaosFactor)
    requires
        factor.is_unit(),
    ensures
        ({
            let told = outlook_text(factor.value());
            &&& factor.value() < (ChaosFactor { bits: 0x3e4c_cccd }).value()
                ==> told == "Enforcement will be mostly predictable."@
            &&& (ChaosFactor { bits: 0x3e4c_cccd }).value() <= factor.value() < (ChaosFactor {
                bits: 0x3f00_0000,
            }).value() ==> told == "Enforcement will have some randomness."@
            &&& (ChaosFactor { bits: 0x3f00_0000 }).value() <= factor.value() < (ChaosFactor {
                bits: 0x3f4c_cccd,
            }).value() ==> told == "Enforcement will be quite unpredictable."@
            &&& (ChaosFactor { bits: 0x3f4c_cccd }).value() <= factor.value()
                ==> told == "Enforcement will be highly chaotic!"@
        }),
{
    crate::levels::lemma_marks();
}

/// How chaotic an outlook is: one of four steps.
pub open spec fn chaos_step(told: Seq<char>) -> int {
    if told == "Enforcement will be mostly predictable."@ {
        0
    } else if told == "Enforcement will have some randomness."@ {
        1
    } else if told == "Enforcement will be quite unpredictable."@ {
        2
    } else if told == "Enforcement will be highly chaotic!"@ {
        3
    } else {
        4
    }
}

/// A higher factor never has a calmer outlook.
pub proof fn outlooks_rise_with_the_factor(lower: ChaosFactor, higher: ChaosFactor)
    requires
        lower.is_unit(),
        higher.is_unit(),
        lower.value() <= higher.value(),
    ensures
        0 <= chaos_step(outlook_text(lower.value())) <= chaos_step(outlook_text(higher.value()))
            <= 3,
{
    reveal_strlit("Enforcement will be mostly predictable.");
    reveal_strlit("Enforcement will have some randomness.");
    reveal_strlit("Enforcement will be quite unpredictable.");
    reveal_strlit("Enforcement will be highly chaotic!");
    assert("Enforcement will be mostly predictable."@.len() == 39);
    assert("Enforcement will have some randomness."@.len() == 38);
    assert("Enforcement will be quite unpredictable."@.len() == 40);
    assert("Enforcement will be highly chaotic!"@.len() == 35);
    crate::levels::lemma_marks();
}

} // verus!
