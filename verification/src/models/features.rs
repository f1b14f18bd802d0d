//! The typing statistics of one analysis window, the curves that turn four of
//! them into sub-scores, and the weights that combine the sub-scores.
//!
//! Each curve is cut into stretches at fixed breakpoints. On some stretches the
//! sub-score is a fixed level; on the others it is a linear expression in the
//! statistic. This module decides the stretch and names the expression; the
//! caller evaluates the expression in floating point.

use vstd::prelude::*;
use vstd::arithmetic::power2::{pow2, lemma2_to64, lemma2_to64_rest, lemma_pow2_pos};
use vstd::string::StringExecFns;
use crate::models::double::{
    Double, ZERO, ONE, UNIT_EXPONENT, double, whole, lemma_equals_ratio, lemma_rounds_ratio,
    lemma_size_order, lemma_size_in_units,
};

verus! {

/// 0.3, the sub-score of a jitter too steady to be human.
pub const THREE_TENTHS: u64 = 0x3FD3_3333_3333_3333;

/// 0.5, the sub-score of a backspace rate too low to be human.
pub const HALF: u64 = 0x3FE0_0000_0000_0000;

/// 2.
pub const TWO: u64 = 0x4000_0000_0000_0000;

/// 3.5.
pub const THREE_AND_HALF: u64 = 0x400C_0000_0000_0000;

/// 4.
pub const FOUR: u64 = 0x4010_0000_0000_0000;

/// 5.
pub const FIVE: u64 = 0x4014_0000_0000_0000;

/// 10.
pub const TEN: u64 = 0x4024_0000_0000_0000;

/// 20.
pub const TWENTY: u64 = 0x4034_0000_0000_0000;

/// 50.
pub const FIFTY: u64 = 0x4049_0000_0000_0000;

/// 100.
pub const HUNDRED: u64 = 0x4059_0000_0000_0000;

/// 300.
pub const THREE_HUNDRED: u64 = 0x4072_C000_0000_0000;

/// 700.
pub const SEVEN_HUNDRED: u64 = 0x4085_E000_0000_0000;

/// 1000.
pub const THOUSAND: u64 = 0x408F_4000_0000_0000;

/// 0.25.
pub const QUARTER: u64 = 0x3FD0_0000_0000_0000;

/// 0.2.
pub const FIFTH: u64 = 0x3FC9_9999_9999_999A;

/// 0.15.
pub const THREE_TWENTIETHS: u64 = 0x3FC3_3333_3333_3333;

/// 0.1.
pub const TENTH: u64 = 0x3FB9_9999_9999_999A;

/// 0.01, how far the sum of the weights may lie from one.
pub const TOLERANCE: u64 = 0x3F84_7AE1_47AE_147B;

/// The smallest sum of weights that is accepted: the smallest double that
/// lies no further below one than `TOLERANCE`.
pub const LEAST_SUM: u64 = 0x3FEF_AE14_7AE1_47AF;

/// The largest sum of weights that is accepted: the largest double that lies
/// no further above one than `TOLERANCE`.
pub const GREATEST_SUM: u64 = 0x3FF0_28F5_C28F_5C28;

/// The statistics of one analysis window, as the client measured them.
#[derive(Clone, Copy, Debug)]
pub struct TypingFeatures {
    /// Number of key events in the window.
    pub events: u32,
    /// Mean interval between keys, in milliseconds.
    pub iki_mean: Double,
    /// Standard deviation of the intervals.
    pub iki_std: Double,
    /// Interquartile range of the intervals.
    pub iki_iqr: Double,
    /// Burstiness, (sigma - mu) / (sigma + mu), between -1 and 1.
    pub burstiness: Double,
    /// Entropy of the distribution of the intervals.
    pub entropy: Double,
    /// Backspaces per 100 keystrokes.
    pub backspace_per_100: Double,
    /// Number of paste events.
    pub paste_events: u32,
    /// Mean absolute deviation of the differences of consecutive intervals.
    pub jitter_mad: Double,
    /// Share of intervals more than three sigma from the mean, between 0 and 1.
    pub outlier_ratio: Double,
}

/// How a sub-score follows from its statistic on one stretch of a curve.
#[derive(Clone, Copy, Debug)]
pub enum Piece {
    /// The sub-score is `value`, wherever on the stretch the statistic lies.
    Level { value: Double },
    /// The sub-score is the statistic divided by `divisor`.
    Rise { divisor: Double },
    /// The sub-score is `top` less the quotient of the statistic's excess over
    /// `start` and `span`. Where `floor` is given the sub-score is the larger
    /// of that and `floor`, and `floor` itself where the statistic is a NaN.
    Fall { top: Double, start: Double, span: Double, floor: Option<Double> },
}

/// The weights with which the five sub-scores enter the score.
#[derive(Clone, Copy, Debug)]
pub struct FeatureWeights {
    pub speed: Double,
    pub variability: Double,
    pub entropy: Double,
    pub backspace: Double,
    pub jitter: Double,
}

/// The stretch of the speed curve on which a mean interval of `x` milliseconds
/// lies: nothing under 50 or over 1000, full marks from 100 to 300, `x / 100`
/// below that plateau and `1 - (x - 300) / 700`, but not less than 0, above it.
pub open spec fn speed_piece(x: Double) -> Piece {
    if x.below(double(FIFTY)) {
        Piece::Level { value: double(ZERO) }
    } else if x.above(double(THOUSAND)) {
        Piece::Level { value: double(ZERO) }
    } else if x.at_least(double(HUNDRED)) && x.at_most(double(THREE_HUNDRED)) {
        Piece::Level { value: double(ONE) }
    } else if x.below(double(HUNDRED)) {
        Piece::Rise { divisor: double(HUNDRED) }
    } else {
        Piece::Fall {
            top: double(ONE),
            start: double(THREE_HUNDRED),
            span: double(SEVEN_HUNDRED),
            floor: Some(double(ZERO)),
        }
    }
}

/// The stretch of the entropy curve on which `x` lies: nothing under 1 or over
/// 4, full marks from 2 to 3.5, and `x / 3.5` on both sides of that plateau.
pub open spec fn entropy_piece(x: Double) -> Piece {
    if x.below(double(ONE)) {
        Piece::Level { value: double(ZERO) }
    } else if x.above(double(FOUR)) {
        Piece::Level { value: double(ZERO) }
    } else if x.at_least(double(TWO)) && x.at_most(double(THREE_AND_HALF)) {
        Piece::Level { value: double(ONE) }
    } else {
        Piece::Rise { divisor: double(THREE_AND_HALF) }
    }
}

/// The stretch of the backspace curve on which a rate of `x` per 100
/// keystrokes lies: one half under 1, nothing over 20, full marks from 2 to
/// 10, and `1 - (x - 10) / 10` on both sides of that plateau, which exceeds 1
/// below it.
pub open spec fn backspace_piece(x: Double) -> Piece {
    if x.below(double(ONE)) {
        Piece::Level { value: double(HALF) }
    } else if x.above(double(TWENTY)) {
        Piece::Level { value: double(ZERO) }
    } else if x.at_least(double(TWO)) && x.at_most(double(TEN)) {
        Piece::Level { value: double(ONE) }
    } else {
        Piece::Fall { top: double(ONE), start: double(TEN), span: double(TEN), floor: None }
    }
}

/// The stretch of the jitter curve on which a deviation of `x` lies: three
/// tenths under 5, nothing over 100, full marks from 10 to 50, and `x / 50` on
/// both sides of that plateau.
pub open spec fn jitter_piece(x: Double) -> Piece {
    if x.below(double(FIVE)) {
        Piece::Level { value: double(THREE_TENTHS) }
    } else if x.above(double(HUNDRED)) {
        Piece::Level { value: double(ZERO) }
    } else if x.at_least(double(TEN)) && x.at_most(double(FIFTY)) {
        Piece::Level { value: double(ONE) }
    } else {
        Piece::Rise { divisor: double(FIFTY) }
    }
}

/// The first fraction is at most the second. A fraction is a pair of a
/// numerator and a positive denominator.
pub open spec fn fraction_le(a: (int, int), b: (int, int)) -> bool {
    a.0 * b.1 <= b.0 * a.1
}

impl Piece {
    /// The sub-score that the piece gives to the number `x`, in the units of
    /// `Double::value`, where its expression is worked out exactly: a
    /// fraction. Floating point, which rounds after each step, comes close to
    /// it.
    pub open spec fn exact(self, x: int) -> (int, int) {
        let unit = pow2(UNIT_EXPONENT as nat) as int;
        match self {
            Piece::Level { value } => (value.value(), unit),
            Piece::Rise { divisor } => (x, divisor.value()),
            Piece::Fall { top, start, span, floor } => {
                let fall = (top.value() * span.value() - (x - start.value()) * unit, unit * span.value());
                match floor {
                    Some(floor) => if fraction_le(fall, (floor.value(), unit)) {
                        (floor.value(), unit)
                    } else {
                        fall
                    },
                    None => fall,
                }
            },
        }
    }
}

impl TypingFeatures {
    /// The stretch of the speed curve for the mean interval.
    pub fn normalize_speed(&self) -> (piece: Piece)
        ensures
            piece == speed_piece(self.iki_mean),
    {
        let x = self.iki_mean;
        if x.lt(Double { bits: FIFTY }) {
            return Piece::Level { value: Double { bits: ZERO } };
        }
        if x.gt(Double { bits: THOUSAND }) {
            return Piece::Level { value: Double { bits: ZERO } };
        }
        if x.ge(Double { bits: HUNDRED }) && x.le(Double { bits: THREE_HUNDRED }) {
            return Piece::Level { value: Double { bits: ONE } };
        }
        if x.lt(Double { bits: HUNDRED }) {
            return Piece::Rise { divisor: Double { bits: HUNDRED } };
        }
        Piece::Fall {
            top: Double { bits: ONE },
            start: Double { bits: THREE_HUNDRED },
            span: Double { bits: SEVEN_HUNDRED },
            floor: Some(Double { bits: ZERO }),
        }
    }

    /// The stretch of the entropy curve for the entropy.
    pub fn normalize_entropy(&self) -> (piece: Piece)
        ensures
            piece == entropy_piece(self.entropy),
    {
        let x = self.entropy;
        if x.lt(Double { bits: ONE }) {
            return Piece::Level { value: Double { bits: ZERO } };
        }
        if x.gt(Double { bits: FOUR }) {
            return Piece::Level { value: Double { bits: ZERO } };
        }
        if x.ge(Double { bits: TWO }) && x.le(Double { bits: THREE_AND_HALF }) {
            return Piece::Level { value: Double { bits: ONE } };
        }
        Piece::Rise { divisor: Double { bits: THREE_AND_HALF } }
    }

    /// The stretch of the backspace curve for the backspace rate.
    pub fn normalize_backspace(&self) -> (piece: Piece)
        ensures
            piece == backspace_piece(self.backspace_per_100),
    {
        let x = self.backspace_per_100;
        if x.lt(Double { bits: ONE }) {
            return Piece::Level { value: Double { bits: HALF } };
        }
        if x.gt(Double { bits: TWENTY }) {
            return Piece::Level { value: Double { bits: ZERO } };
        }
        if x.ge(Double { bits: TWO }) && x.le(Double { bits: TEN }) {
            return Piece::Level { value: Double { bits: ONE } };
        }
        Piece::Fall {
            top: Double { bits: ONE },
            start: Double { bits: TEN },
            span: Double { bits: TEN },
            floor: None,
        }
    }

    /// The stretch of the jitter curve for the jitter.
    pub fn normalize_jitter(&self) -> (piece: Piece)
        ensures
            piece == jitter_piece(self.jitter_mad),
    {
        let x = self.jitter_mad;
        if x.lt(Double { bits: FIVE }) {
            return Piece::Level { value: Double { bits: THREE_TENTHS } };
        }
        if x.gt(Double { bits: HUNDRED }) {
            return Piece::Level { value: Double { bits: ZERO } };
        }
        if x.ge(Double { bits: TEN }) && x.le(Double { bits: FIFTY }) {
            return Piece::Level { value: Double { bits: ONE } };
        }
        Piece::Rise { divisor: Double { bits: FIFTY } }
    }
}

/// The score that a weighted sum of sub-scores gives: the sum where it lies
/// between 0 and 1, else the one of the two that it lies beyond. A sum that is
/// a NaN stays as it is.
pub fn final_score(weighted_sum: Double) -> (score: Double)
    ensures
        score == weighted_sum.clamped(double(ZERO), double(ONE)),
        !weighted_sum.nan() ==> 0 <= score.value() <= whole(1),
        weighted_sum.nan() ==> score == weighted_sum,
{
    proof {
        lemma_curve_constants();
    }
    weighted_sum.clamp(Double { bits: ZERO }, Double { bits: ONE })
}

/// The weights in use where none are configured: 0.3 for speed, 0.25 for
/// variability, 0.2 for entropy, 0.15 for backspaces and 0.1 for jitter.
pub open spec fn default_weights() -> FeatureWeights {
    FeatureWeights {
        speed: double(THREE_TENTHS),
        variability: double(QUARTER),
        entropy: double(FIFTH),
        backspace: double(THREE_TWENTIETHS),
        jitter: double(TENTH),
    }
}

impl Default for FeatureWeights {
    fn default() -> (weights: Self)
        ensures
            weights == default_weights(),
    {
        FeatureWeights {
            speed: Double { bits: THREE_TENTHS },
            variability: Double { bits: QUARTER },
            entropy: Double { bits: FIFTH },
            backspace: Double { bits: THREE_TWENTIETHS },
            jitter: Double { bits: TENTH },
        }
    }
}

/// A sum of weights is accepted where it lies no further from one than
/// `TOLERANCE`. A sum that is a NaN is accepted too: it compares false to
/// everything, so it is not found to lie further away.
pub open spec fn sum_accepted(sum: Double) -> bool {
    let gap = sum.value() - double(ONE).value();
    sum.nan() || -double(TOLERANCE).value() <= gap <= double(TOLERANCE).value()
}

/// What the rejection of a sum says, before the sum as the caller prints it.
pub open spec fn sum_complaint() -> Seq<char> {
    "Feature weights must sum to approximately 1.0, got "@
}

/// No weight is below zero. A weight that is a NaN is not found below zero,
/// since it compares false to everything, and a negative zero is zero.
pub open spec fn no_weight_below_zero(weights: FeatureWeights) -> bool {
    &&& !weights.speed.below(double(ZERO))
    &&& !weights.variability.below(double(ZERO))
    &&& !weights.entropy.below(double(ZERO))
    &&& !weights.backspace.below(double(ZERO))
    &&& !weights.jitter.below(double(ZERO))
}

/// What the rejection of a negative weight says.
pub open spec fn negative_weight_complaint() -> Seq<char> {
    "Feature weights must not be negative"@
}

/// What is wrong with the weights, if anything: a weight below zero, or else a
/// sum too far from one. `sum` is the sum of the weights and `sum_text` that
/// sum in print, both as the caller has them from floating point.
pub open spec fn weights_problem(
    weights: FeatureWeights,
    sum: Double,
    sum_text: Seq<char>,
) -> Option<Seq<char>> {
    if !no_weight_below_zero(weights) {
        Some(negative_weight_complaint())
    } else if !sum_accepted(sum) {
        Some(sum_complaint() + sum_text)
    } else {
        None
    }
}

impl FeatureWeights {
    /// Checks that no weight is negative and that the weights sum to about
    /// one; the error says what the first failed check found. `sum` is the sum
    /// of the weights as the caller added it up in floating point, speed first
    /// and jitter last, and `sum_text` is that sum in print, which the
    /// complaint about the sum ends with.
    pub fn validate(&self, sum: Double, sum_text: &str) -> (r: Result<(), String>)
        ensures
            r is Ok <==> no_weight_below_zero(*self) && sum_accepted(sum),
            r is Ok <==> weights_problem(*self, sum, sum_text@) is None,
            r matches Err(complaint) ==> weights_problem(*self, sum, sum_text@) == Some(
                complaint@,
            ),
    {
        let zero = Double { bits: ZERO };
        if self.speed.lt(zero) || self.variability.lt(zero) || self.entropy.lt(zero)
            || self.backspace.lt(zero) || self.jitter.lt(zero) {
            return Err(String::from_str("Feature weights must not be negative"));
        }
        proof {
            lemma_sum_accepted(sum);
        }
        if sum.lt(Double { bits: LEAST_SUM }) || sum.gt(Double { bits: GREATEST_SUM }) {
            let complaint = String::from_str(
                "Feature weights must sum to approximately 1.0, got ",
            ).concat(sum_text);
            return Err(complaint);
        }
        Ok(())
    }
}

/// The weights pass the first check where each is a NaN or a number that is
/// not negative.
pub proof fn lemma_no_weight_below_zero(weights: FeatureWeights)
    ensures
        no_weight_below_zero(weights) <==> {
            &&& weights.speed.nan() || weights.speed.value() >= 0
            &&& weights.variability.nan() || weights.variability.value() >= 0
            &&& weights.entropy.nan() || weights.entropy.value() >= 0
            &&& weights.backspace.nan() || weights.backspace.value() >= 0
            &&& weights.jitter.nan() || weights.jitter.value() >= 0
        },
{
}

/// The default weights are not negative.
pub proof fn lemma_default_weights_not_negative()
    ensures
        no_weight_below_zero(default_weights()),
{
}

/// Each constant of the curves is the number that its name says; three
/// tenths, which no double is, lies within half its spacing of it.
pub proof fn lemma_curve_constants()
    ensures
        double(ZERO).equals_ratio(0, 1),
        double(ONE).equals_ratio(1, 1),
        double(HALF).equals_ratio(1, 2),
        double(THREE_TENTHS).rounds_ratio(3, 10),
        double(TWO).equals_ratio(2, 1),
        double(THREE_AND_HALF).equals_ratio(7, 2),
        double(FOUR).equals_ratio(4, 1),
        double(FIVE).equals_ratio(5, 1),
        double(TEN).equals_ratio(10, 1),
        double(TWENTY).equals_ratio(20, 1),
        double(FIFTY).equals_ratio(50, 1),
        double(HUNDRED).equals_ratio(100, 1),
        double(THREE_HUNDRED).equals_ratio(300, 1),
        double(SEVEN_HUNDRED).equals_ratio(700, 1),
        double(THOUSAND).equals_ratio(1000, 1),
{
    lemma2_to64();
    lemma2_to64_rest();
    lemma_equals_ratio(double(ONE), 1, 1);
    lemma_equals_ratio(double(HALF), 1, 2);
    lemma_rounds_ratio(double(THREE_TENTHS), 3, 10);
    lemma_equals_ratio(double(TWO), 2, 1);
    lemma_equals_ratio(double(THREE_AND_HALF), 7, 2);
    lemma_equals_ratio(double(FOUR), 4, 1);
    lemma_equals_ratio(double(FIVE), 5, 1);
    lemma_equals_ratio(double(TEN), 10, 1);
    lemma_equals_ratio(double(TWENTY), 20, 1);
    lemma_equals_ratio(double(FIFTY), 50, 1);
    lemma_equals_ratio(double(HUNDRED), 100, 1);
    lemma_equals_ratio(double(THREE_HUNDRED), 300, 1);
    lemma_equals_ratio(double(SEVEN_HUNDRED), 700, 1);
    lemma_equals_ratio(double(THOUSAND), 1000, 1);
}

/// The speed curve by the number that the mean interval stands for.
pub proof fn lemma_speed_curve(x: Double)
    requires
        !x.nan(),
    ensures
        x.value() < whole(50) || x.value() > whole(1000) ==> speed_piece(x) == (Piece::Level {
            value: double(ZERO),
        }),
        whole(50) <= x.value() < whole(100) ==> speed_piece(x) == (Piece::Rise {
            divisor: double(HUNDRED),
        }),
        whole(100) <= x.value() <= whole(300) ==> speed_piece(x) == (Piece::Level {
            value: double(ONE),
        }),
        whole(300) < x.value() <= whole(1000) ==> speed_piece(x) == (Piece::Fall {
            top: double(ONE),
            start: double(THREE_HUNDRED),
            span: double(SEVEN_HUNDRED),
            floor: Some(double(ZERO)),
        }),
{
    lemma_curve_constants();
}

/// The entropy curve by the number that the entropy stands for.
pub proof fn lemma_entropy_curve(x: Double)
    requires
        !x.nan(),
    ensures
        x.value() < whole(1) || x.value() > whole(4) ==> entropy_piece(x) == (Piece::Level {
            value: double(ZERO),
        }),
        whole(2) <= x.value() && 2 * x.value() <= whole(7) ==> entropy_piece(x) == (Piece::Level {
            value: double(ONE),
        }),
        (whole(1) <= x.value() < whole(2)) || (whole(7) < 2 * x.value() && x.value() <= whole(4))
            ==> entropy_piece(x) == (Piece::Rise { divisor: double(THREE_AND_HALF) }),
{
    lemma_curve_constants();
}

/// The backspace curve by the number that the rate stands for.
pub proof fn lemma_backspace_curve(x: Double)
    requires
        !x.nan(),
    ensures
        x.value() < whole(1) ==> backspace_piece(x) == (Piece::Level { value: double(HALF) }),
        x.value() > whole(20) ==> backspace_piece(x) == (Piece::Level { value: double(ZERO) }),
        whole(2) <= x.value() <= whole(10) ==> backspace_piece(x) == (Piece::Level {
            value: double(ONE),
        }),
        (whole(1) <= x.value() < whole(2)) || (whole(10) < x.value() <= whole(20))
            ==> backspace_piece(x) == (Piece::Fall {
            top: double(ONE),
            start: double(TEN),
            span: double(TEN),
            floor: None,
        }),
{
    lemma_curve_constants();
}

/// The jitter curve by the number that the deviation stands for.
pub proof fn lemma_jitter_curve(x: Double)
    requires
        !x.nan(),
    ensures
        x.value() < whole(5) ==> jitter_piece(x) == (Piece::Level { value: double(THREE_TENTHS) }),
        x.value() > whole(100) ==> jitter_piece(x) == (Piece::Level { value: double(ZERO) }),
        whole(10) <= x.value() <= whole(50) ==> jitter_piece(x) == (Piece::Level {
            value: double(ONE),
        }),
        (whole(5) <= x.value() < whole(10)) || (whole(50) < x.value() <= whole(100))
            ==> jitter_piece(x) == (Piece::Rise { divisor: double(FIFTY) }),
{
    lemma_curve_constants();
}

/// A statistic that is a NaN lies on no stretch with bounds: each curve gives
/// it the expression of its last stretch.
pub proof fn lemma_curves_of_nan(x: Double)
    requires
        x.nan(),
    ensures
        speed_piece(x) == (Piece::Fall {
            top: double(ONE),
            start: double(THREE_HUNDRED),
            span: double(SEVEN_HUNDRED),
            floor: Some(double(ZERO)),
        }),
        entropy_piece(x) == (Piece::Rise { divisor: double(THREE_AND_HALF) }),
        backspace_piece(x) == (Piece::Fall {
            top: double(ONE),
            start: double(TEN),
            span: double(TEN),
            floor: None,
        }),
        jitter_piece(x) == (Piece::Rise { divisor: double(FIFTY) }),
{
}

/// Beyond the start of its plateau the speed curve does not rise: of two mean
/// intervals of at least 100 the longer has no larger a sub-score, where the
/// expressions of the stretches are worked out exactly.
pub proof fn lemma_speed_does_not_rise(x: Double, y: Double)
    requires
        !x.nan(),
        !y.nan(),
        whole(100) <= x.value() <= y.value(),
    ensures
        fraction_le(speed_piece(y).exact(y.value()), speed_piece(x).exact(x.value())),
        speed_piece(x).exact(x.value()).1 > 0,
        speed_piece(y).exact(y.value()).1 > 0,
{
    lemma_curve_constants();
    lemma_speed_curve(x);
    lemma_speed_curve(y);
    let u = pow2(UNIT_EXPONENT as nat) as int;
    lemma_pow2_pos(UNIT_EXPONENT as nat);
    lemma_speed_on_the_way_down(x.value(), u);
    lemma_speed_on_the_way_down(y.value(), u);
    let (a, b) = speed_piece(y).exact(y.value());
    let (c, d) = speed_piece(x).exact(x.value());
    // Both sub-scores over the same denominator: so many 700ths of a unit.
    let high = |v: int| if v <= 300 * u { 700 * u } else if v <= 1000 * u { 1000 * u - v } else { 0 };
    assert(a * (700 * u) == high(y.value()) * b && b > 0);
    assert(c * (700 * u) == high(x.value()) * d && d > 0);
    assert(high(y.value()) <= high(x.value()));
    assert(a * d <= c * b) by (nonlinear_arith)
        requires
            a * (700 * u) == high(y.value()) * b,
            c * (700 * u) == high(x.value()) * d,
            high(y.value()) <= high(x.value()),
            b > 0,
            d > 0,
            u > 0,
    ;
}

/// The speed curve from the plateau on, as a number of 700ths: 700 on the
/// plateau, one less for each unit beyond 300, and none beyond 1000.
proof fn lemma_speed_on_the_way_down(v: int, u: int)
    requires
        u == pow2(UNIT_EXPONENT as nat),
        u > 0,
        100 * u <= v,
    ensures
        ({
            let piece = if v <= 300 * u {
                Piece::Level { value: double(ONE) }
            } else if v <= 1000 * u {
                Piece::Fall {
                    top: double(ONE),
                    start: double(THREE_HUNDRED),
                    span: double(SEVEN_HUNDRED),
                    floor: Some(double(ZERO)),
                }
            } else {
                Piece::Level { value: double(ZERO) }
            };
            let part: int = if v <= 300 * u {
                700 * u
            } else if v <= 1000 * u {
                1000 * u - v
            } else {
                0
            };
            &&& piece.exact(v).1 > 0
            &&& piece.exact(v).0 * (700 * u) == part * piece.exact(v).1
        }),
{
    lemma_curve_constants();
    let one = double(ONE).value();
    let start = double(THREE_HUNDRED).value();
    let span = double(SEVEN_HUNDRED).value();
    assert(one == u && start == 300 * u && span == 700 * u && double(ZERO).value() == 0);
    if v <= 300 * u {
        let piece = Piece::Level { value: double(ONE) };
        assert(piece.exact(v) == (u, u));
        assert(u * (700 * u) == (700 * u) * u) by (nonlinear_arith);
    } else if v <= 1000 * u {
        let piece = Piece::Fall {
            top: double(ONE),
            start: double(THREE_HUNDRED),
            span: double(SEVEN_HUNDRED),
            floor: Some(double(ZERO)),
        };
        let fall = (one * span - (v - start) * u, u * span);
        assert(fall.0 == u * (1000 * u - v)) by (nonlinear_arith)
            requires
                fall.0 == one * span - (v - start) * u,
                one == u,
                start == 300 * u,
                span == 700 * u,
        ;
        assert(fall.1 == u * (700 * u));
        assert(fall.1 > 0) by (nonlinear_arith)
            requires
                fall.1 == u * (700 * u),
                u > 0,
        ;
        // The floor of zero is reached at 1000 only.
        assert(fraction_le(fall, (0, u)) <==> v == 1000 * u) by (nonlinear_arith)
            requires
                fall.0 == u * (1000 * u - v),
                fall.1 > 0,
                u > 0,
                v <= 1000 * u,
        ;
        assert(fall.0 * (700 * u) == (1000 * u - v) * fall.1) by (nonlinear_arith)
            requires
                fall.0 == u * (1000 * u - v),
                fall.1 == u * (700 * u),
        ;
        assert(piece.exact(v) == (if v == 1000 * u { (0int, u) } else { fall }));
        assert(0 * (700 * u) == 0 * u) by (nonlinear_arith);
    } else {
        let piece = Piece::Level { value: double(ZERO) };
        assert(piece.exact(v) == (0int, u));
        assert(0 * (700 * u) == 0 * u) by (nonlinear_arith);
    }
}

/// Each default weight lies within half its spacing of its decimal fraction,
/// and the quarter is exact.
pub proof fn lemma_default_weights()
    ensures
        default_weights().speed.rounds_ratio(3, 10),
        default_weights().variability.equals_ratio(1, 4),
        default_weights().entropy.rounds_ratio(1, 5),
        default_weights().backspace.rounds_ratio(3, 20),
        default_weights().jitter.rounds_ratio(1, 10),
{
    lemma2_to64();
    lemma2_to64_rest();
    lemma_rounds_ratio(double(THREE_TENTHS), 3, 10);
    lemma_equals_ratio(double(QUARTER), 1, 4);
    lemma_rounds_ratio(double(FIFTH), 1, 5);
    lemma_rounds_ratio(double(THREE_TWENTIETHS), 3, 20);
    lemma_rounds_ratio(double(TENTH), 1, 10);
}

/// The tolerance lies within half its spacing of 1/100, and the sums that are
/// accepted are those from `LEAST_SUM` to `GREATEST_SUM`.
pub proof fn lemma_sum_accepted(sum: Double)
    ensures
        double(TOLERANCE).rounds_ratio(1, 100),
        sum_accepted(sum) <==> sum.nan() || (sum.at_least(double(LEAST_SUM)) && sum.at_most(
            double(GREATEST_SUM),
        )),
{
    lemma2_to64();
    lemma2_to64_rest();
    lemma_rounds_ratio(double(TOLERANCE), 1, 100);
    if !sum.nan() {
        let p = pow2(1015) as int;
        lemma_pow2_pos(1015);
        let one = double(ONE);
        let tol = double(TOLERANCE);
        let least = double(LEAST_SUM);
        let under = double((LEAST_SUM - 1) as u64);
        let greatest = double(GREATEST_SUM);
        let over = double((GREATEST_SUM + 1) as u64);
        assert(pow2(6) == 64 && pow2(7) == 128 && pow2(0) == 1);
        lemma_size_in_units(one, 1015, 0x0010_0000_0000_0000, 128);
        lemma_size_in_units(tol, 1015, 0x0014_7AE1_47AE_147B, 1);
        lemma_size_in_units(least, 1015, 0x001F_AE14_7AE1_47AF, 64);
        lemma_size_in_units(under, 1015, 0x001F_AE14_7AE1_47AE, 64);
        lemma_size_in_units(greatest, 1015, 0x0010_28F5_C28F_5C28, 128);
        lemma_size_in_units(over, 1015, 0x0010_28F5_C28F_5C29, 128);
        assert(one.value() == 0x0800_0000_0000_0000 * p);
        assert(tol.value() == 0x0014_7AE1_47AE_147B * p);
        assert(least.value() == (0x001F_AE14_7AE1_47AF * 64) * p);
        assert(under.value() == (0x001F_AE14_7AE1_47AE * 64) * p);
        assert(greatest.value() == (0x0010_28F5_C28F_5C28 * 128) * p);
        assert(over.value() == (0x0010_28F5_C28F_5C29 * 128) * p);
        assert(one.value() - least.value() <= tol.value()) by (nonlinear_arith)
            requires
                one.value() == 0x0800_0000_0000_0000 * p,
                tol.value() == 0x0014_7AE1_47AE_147B * p,
                least.value() == (0x001F_AE14_7AE1_47AF * 64) * p,
                p > 0,
        ;
        assert(one.value() - under.value() > tol.value()) by (nonlinear_arith)
            requires
                one.value() == 0x0800_0000_0000_0000 * p,
                tol.value() == 0x0014_7AE1_47AE_147B * p,
                under.value() == (0x001F_AE14_7AE1_47AE * 64) * p,
                p > 0,
        ;
        assert(greatest.value() - one.value() <= tol.value()) by (nonlinear_arith)
            requires
                one.value() == 0x0800_0000_0000_0000 * p,
                tol.value() == 0x0014_7AE1_47AE_147B * p,
                greatest.value() == (0x0010_28F5_C28F_5C28 * 128) * p,
                p > 0,
        ;
        assert(over.value() - one.value() > tol.value()) by (nonlinear_arith)
            requires
                one.value() == 0x0800_0000_0000_0000 * p,
                tol.value() == 0x0014_7AE1_47AE_147B * p,
                over.value() == (0x0010_28F5_C28F_5C29 * 128) * p,
                p > 0,
        ;
        assert(tol.value() > 0 && one.value() > tol.value()) by (nonlinear_arith)
            requires
                one.value() == 0x0800_0000_0000_0000 * p,
                tol.value() == 0x0014_7AE1_47AE_147B * p,
                p > 0,
        ;
        // A sum is below `least` only if it is at most `under`, and above
        // `greatest` only if it is at least `over`: no double lies between.
        lemma_size_order(sum.magnitude(), least.magnitude());
        lemma_size_order(sum.magnitude(), under.magnitude());
        lemma_size_order(sum.magnitude(), greatest.magnitude());
        lemma_size_order(sum.magnitude(), over.magnitude());
        lemma_size_order(sum.magnitude(), 0);
        if sum.sign() {
            assert(sum.value() <= 0);
        } else {
            if sum.below(least) {
                assert(sum.magnitude() <= under.magnitude());
                assert(sum.value() <= under.value());
            }
            if sum.above(greatest) {
                assert(sum.magnitude() >= over.magnitude());
                assert(sum.value() >= over.value());
            }
        }
    }
}

} // verus!
