//! The daemon's two measured levels: how chaotic a guild wants enforcement to be, and how high a
//! user's warning score stands.
//!
//! Both are IEEE 754 numbers, held by their bit patterns. A pattern splits into a sign, a biased
//! exponent and a fraction; counted in the smallest positive number of its format, every finite
//! number is an integer, and that integer is its value here.

use vstd::arithmetic::mul::{lemma_mul_inequality, lemma_mul_strict_inequality};
use vstd::arithmetic::power2::{lemma_pow2_pos, lemma_pow2_unfold, pow2};
use vstd::prelude::*;

verus! {

/// The magnitude of a number with a `width`-bit fraction, counted in the format's smallest
/// positive number. The infinities come out above every finite number.
pub open spec fn magnitude(width: nat, exponent: nat, fraction: nat) -> nat {
    if exponent == 0 {
        fraction
    } else {
        (pow2(width) + fraction) * pow2((exponent - 1) as nat)
    }
}

/// Powers of two grow with the exponent.
proof fn lemma_pow2_grows(a: nat, b: nat)
    requires
        a <= b,
    ensures
        pow2(a) <= pow2(b),
    decreases b,
{
    if a < b {
        lemma_pow2_grows(a, (b - 1) as nat);
        lemma_pow2_unfold(b);
    }
}

/// A larger exponent makes a larger magnitude, whatever the fractions.
proof fn lemma_exponent_orders(width: nat, e1: nat, f1: nat, e2: nat, f2: nat)
    requires
        e1 < e2,
        f1 < pow2(width),
    ensures
        magnitude(width, e1, f1) < magnitude(width, e2, f2),
{
    let p = pow2(width);
    let scale2 = pow2((e2 - 1) as nat);
    lemma_pow2_pos((e2 - 1) as nat);
    assert((p + f2) * scale2 >= p * scale2) by {
        lemma_mul_inequality(p as int, (p + f2) as int, scale2 as int);
    }
    if e1 == 0 {
        lemma_pow2_grows(0, (e2 - 1) as nat);
        assert(p * scale2 >= p) by (nonlinear_arith)
            requires
                scale2 >= 1,
        ;
    } else {
        let scale1 = pow2((e1 - 1) as nat);
        lemma_pow2_pos((e1 - 1) as nat);
        lemma_pow2_unfold(e1);
        lemma_pow2_grows(e1, (e2 - 1) as nat);
        assert((p + f1) * scale1 < p * scale2) by (nonlinear_arith)
            requires
                f1 < p,
                scale1 >= 1,
                scale2 >= 2 * scale1,
        ;
    }
}

/// With equal exponents the fractions decide.
proof fn lemma_fraction_orders(width: nat, e: nat, f1: nat, f2: nat)
    requires
        f1 < f2,
    ensures
        magnitude(width, e, f1) < magnitude(width, e, f2),
{
    if e != 0 {
        let scale = pow2((e - 1) as nat);
        lemma_pow2_pos((e - 1) as nat);
        lemma_mul_strict_inequality(
            (pow2(width) + f1) as int,
            (pow2(width) + f2) as int,
            scale as int,
        );
    }
}

/// Magnitudes are ordered as the pairs of exponent and fraction are.
proof fn lemma_magnitude_orders(width: nat, e1: nat, f1: nat, e2: nat, f2: nat)
    requires
        f1 < pow2(width),
        f2 < pow2(width),
    ensures
        magnitude(width, e1, f1) < magnitude(width, e2, f2) <==> (e1 < e2 || e1 == e2 && f1 < f2),
{
    if e1 < e2 {
        lemma_exponent_orders(width, e1, f1, e2, f2);
    } else if e2 < e1 {
        lemma_exponent_orders(width, e2, f2, e1, f1);
    } else if f1 < f2 {
        lemma_fraction_orders(width, e1, f1, f2);
    } else if f2 < f1 {
        lemma_fraction_orders(width, e1, f2, f1);
    }
}

/// How unpredictable a guild wants enforcement to be: a single-precision number, meant to lie
/// between zero and one.
#[derive(Clone, Copy, Debug, PartialEq, Eq, Structural)]
pub struct ChaosFactor {
    /// The IEEE 754 binary32 pattern.
    pub bits: u32,
}

/// Minus zero, which compares equal to zero.
pub const MINUS_ZERO: u32 = 0x8000_0000;

/// The single-precision number nearest to 0.2.
pub const ONE_FIFTH: u32 = 0x3e4c_cccd;

/// The single-precision number nearest to 0.3, the factor of a guild that has chosen none.
pub const DEFAULT_CHAOS: u32 = 0x3e99_999a;

/// The single-precision number 0.5.
pub const ONE_HALF: u32 = 0x3f00_0000;

/// The single-precision number nearest to 0.8.
pub const FOUR_FIFTHS: u32 = 0x3f4c_cccd;

/// The single-precision number 1.
pub const ONE: u32 = 0x3f80_0000;

/// The factor with the given pattern.
pub open spec fn mark(bits: u32) -> ChaosFactor {
    ChaosFactor { bits }
}

impl ChaosFactor {
    /// The biased exponent.
    pub open spec fn exponent(self) -> nat {
        (self.bits as nat / 0x80_0000) % 0x100
    }

    /// The fraction.
    pub open spec fn fraction(self) -> nat {
        self.bits as nat % 0x80_0000
    }

    /// Whether the sign bit is set.
    pub open spec fn negative(self) -> bool {
        self.bits >= 0x8000_0000
    }

    /// Whether the pattern is no number at all.
    pub open spec fn is_nan(self) -> bool {
        self.exponent() == 0xff && self.fraction() != 0
    }

    /// The value, counted in the smallest positive single-precision number.
    pub open spec fn value(self) -> int {
        let size = magnitude(23, self.exponent(), self.fraction()) as int;
        if self.negative() {
            -size
        } else {
            size
        }
    }

    /// Whether this is a number from zero to one, both included.
    pub open spec fn is_unit(self) -> bool {
        &&& !self.is_nan()
        &&& 0 <= self.value() <= mark(ONE).value()
    }

    /// Whether the factor leaves anything to chance.
    pub open spec fn is_random(self) -> bool {
        &&& !self.is_nan()
        &&& self.value() > 0
    }

    /// The value of a finite factor, counted in the smallest positive double-precision number.
    pub open spec fn widened(self) -> int {
        self.value() * pow2(925)
    }

    /// Without the sign, patterns are ordered as their values.
    pub proof fn lemma_orders(self, other: ChaosFactor)
        requires
            !self.negative(),
            !other.negative(),
        ensures
            self.bits < other.bits <==> self.value() < other.value(),
    {
        vstd::arithmetic::power2::lemma2_to64();
        lemma_magnitude_orders(
            23,
            self.exponent(),
            self.fraction(),
            other.exponent(),
            other.fraction(),
        );
    }

    /// Only the two zeros have the value zero.
    pub proof fn lemma_zeros(self)
        ensures
            self.value() == 0 <==> self.bits == 0 || self.bits == MINUS_ZERO,
            self.negative() ==> self.value() <= 0,
            !self.negative() ==> self.value() >= 0,
    {
        let unsigned = ChaosFactor { bits: (self.bits % 0x8000_0000) as u32 };
        let zero = ChaosFactor { bits: 0 };
        zero.lemma_orders(unsigned);
        assert(unsigned.exponent() == self.exponent());
        assert(unsigned.fraction() == self.fraction());
    }

    /// Tells whether this is a number from zero to one, both included.
    pub fn unit(&self) -> (yes: bool)
        ensures
            yes == self.is_unit(),
    {
        proof {
            self.lemma_zeros();
            mark(ONE).lemma_zeros();
            if !self.negative() {
                mark(ONE).lemma_orders(*self);
            }
        }
        self.bits <= ONE || self.bits == MINUS_ZERO
    }

    /// Tells whether the factor leaves anything to chance: there is a number from zero up to it,
    /// itself left out, to be drawn.
    pub fn draws(&self) -> (yes: bool)
        ensures
            yes == self.is_random(),
    {
        proof {
            self.lemma_zeros();
        }
        self.bits > 0 && self.bits <= 0x7f80_0000
    }

    /// Tells whether a number from zero to one is below another one.
    fn below(&self, bound: u32) -> (yes: bool)
        requires
            self.is_unit(),
            0 < bound <= ONE,
        ensures
            yes == (self.value() < mark(bound).value()),
    {
        proof {
            self.lemma_zeros();
            mark(bound).lemma_zeros();
            if !self.negative() {
                self.lemma_orders(mark(bound));
            }
        }
        self.bits < bound || self.bits == MINUS_ZERO
    }

    /// What a moderator is told to expect of a factor from zero to one.
    pub fn outlook(&self) -> (text: &'static str)
        requires
            self.is_unit(),
        ensures
            text@ == outlook_text(self.value()),
    {
        proof {
            lemma_marks();
        }
        if self.below(ONE_FIFTH) {
            "Enforcement will be mostly predictable."
        } else if self.below(ONE_HALF) {
            "Enforcement will have some randomness."
        } else if self.below(FOUR_FIFTHS) {
            "Enforcement will be quite unpredictable."
        } else {
            "Enforcement will be highly chaotic!"
        }
    }
}

/// What a moderator is told to expect of a factor with the given value.
pub open spec fn outlook_text(value: int) -> Seq<char> {
    if value < mark(ONE_FIFTH).value() {
        "Enforcement will be mostly predictable."@
    } else if value < mark(ONE_HALF).value() {
        "Enforcement will have some randomness."@
    } else if value < mark(FOUR_FIFTHS).value() {
        "Enforcement will be quite unpredictable."@
    } else {
        "Enforcement will be highly chaotic!"@
    }
}

/// The marks on the scale of chaos factors, in order.
pub proof fn lemma_marks()
    ensures
        0 < mark(ONE_FIFTH).value() < mark(DEFAULT_CHAOS).value() < mark(ONE_HALF).value(),
        mark(ONE_HALF).value() < mark(FOUR_FIFTHS).value() < mark(ONE).value(),
        mark(ONE_FIFTH).is_unit(),
        mark(DEFAULT_CHAOS).is_unit(),
        mark(ONE_HALF).is_unit(),
        mark(FOUR_FIFTHS).is_unit(),
        mark(ONE).is_unit(),
{
    mark(ONE_FIFTH).lemma_zeros();
    mark(ONE_FIFTH).lemma_orders(mark(DEFAULT_CHAOS));
    mark(DEFAULT_CHAOS).lemma_orders(mark(ONE_HALF));
    mark(ONE_HALF).lemma_orders(mark(FOUR_FIFTHS));
    mark(FOUR_FIFTHS).lemma_orders(mark(ONE));
}

/// A user's warning score with the guild's randomness added: a double-precision number.
#[derive(Clone, Copy, Debug, PartialEq, Eq, Structural)]
pub struct Score {
    /// The IEEE 754 binary64 pattern.
    pub bits: u64,
}

/// How far two values are apart.
pub open spec fn distance(a: int, b: int) -> int {
    if a < b {
        b - a
    } else {
        a - b
    }
}

/// The double-precision number 3, about as many recent warnings.
pub const WARNING_THRESHOLD: u64 = 0x4008_0000_0000_0000;

/// The threshold as a whole number of warnings.
pub const THRESHOLD_WARNINGS: u64 = 3;

impl Score {
    /// The biased exponent.
    pub open spec fn exponent(self) -> nat {
        (self.bits as nat / 0x10_0000_0000_0000) % 0x800
    }

    /// The fraction.
    pub open spec fn fraction(self) -> nat {
        self.bits as nat % 0x10_0000_0000_0000
    }

    /// Whether the sign bit is set.
    pub open spec fn negative(self) -> bool {
        self.bits >= 0x8000_0000_0000_0000
    }

    /// Whether the pattern is no number at all.
    pub open spec fn is_nan(self) -> bool {
        self.exponent() == 0x7ff && self.fraction() != 0
    }

    /// The value, counted in the smallest positive double-precision number.
    pub open spec fn value(self) -> int {
        let size = magnitude(52, self.exponent(), self.fraction()) as int;
        if self.negative() {
            -size
        } else {
            size
        }
    }

    /// Whether no number lies nearer to an exact value. Rounding to nearest gives such a number,
    /// by whatever rule it settles ties; an infinity counts as the number after the last finite
    /// one.
    pub open spec fn nearest(self, exact: int) -> bool {
        &&& !self.is_nan()
        &&& forall|other: Score|
            !other.is_nan() ==> distance(self.value(), exact) <= distance(
                #[trigger] other.value(),
                exact,
            )
    }

    /// Whether this is a score with something added to it, rounded to nearest. What is added is
    /// given by its value.
    pub open spec fn is_sum(self, score: Score, added: int) -> bool {
        if score.is_nan() {
            self.is_nan()
        } else {
            self.nearest(score.value() + added)
        }
    }

    /// Whether the score calls for enforcement.
    pub open spec fn exceeds(self) -> bool {
        &&& !self.is_nan()
        &&& self.value() > (Score { bits: WARNING_THRESHOLD }).value()
    }

    /// Above the threshold, patterns are ordered as their values.
    pub proof fn lemma_exceeds(self)
        ensures
            self.exceeds() <==> WARNING_THRESHOLD < self.bits <= 0x7ff0_0000_0000_0000,
    {
        vstd::arithmetic::power2::lemma2_to64_rest();
        let mark = Score { bits: WARNING_THRESHOLD };
        lemma_magnitude_orders(
            52,
            mark.exponent(),
            mark.fraction(),
            self.exponent(),
            self.fraction(),
        );
    }

    /// Tells whether the score calls for enforcement.
    pub fn exceeds_threshold(&self) -> (yes: bool)
        ensures
            yes == self.exceeds(),
    {
        proof {
            self.lemma_exceeds();
        }
        self.bits > WARNING_THRESHOLD && self.bits <= 0x7ff0_0000_0000_0000
    }
}

} // verus!
