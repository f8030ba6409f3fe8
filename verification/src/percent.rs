//! Percentages as the battery service reports them.
//!
//! The service sends a percentage as an IEEE 754 binary64 number. It is held
//! here by its 64 bits, and everything that is decided by it is decided on the
//! number that the bits encode.

use vstd::arithmetic::div_mod::{
    lemma_basic_div, lemma_div_pos_is_pos, lemma_fundamental_div_mod,
    lemma_fundamental_div_mod_converse, lemma_small_mod,
};
use vstd::arithmetic::mul::lemma_mul_is_commutative;
use vstd::arithmetic::power2::{
    lemma2_to64, lemma2_to64_rest, lemma_pow2_adds, lemma_pow2_pos, lemma_pow2_strictly_increases,
    pow2,
};
use vstd::prelude::*;

use crate::text::{decimal, decimal_reads_back, is_digit, number, push_decimal};

verus! {

/// The bits of minus zero: the sign bit alone.
pub const NEGATIVE_ZERO: u64 = 0x8000_0000_0000_0000;

/// One more than the largest fraction field.
pub const FRACTION: u64 = 0x10_0000_0000_0000;

/// The exponent field of infinities and of what is not a number.
pub const SPECIAL_EXPONENT: u64 = 2047;

/// A reported percentage, by the bits of its binary64 encoding.
#[derive(Clone, Copy, Debug, PartialEq, Eq, Structural)]
pub struct Percent {
    pub bits: u64,
}

/// How far a number lies above the whole number below it.
#[derive(Clone, Copy, Debug, PartialEq, Eq, Structural)]
enum Rest {
    Nothing,
    UnderHalf,
    Half,
    OverHalf,
}

/// The smallest positive number that the encoding can express goes this often
/// into one.
pub open spec fn one() -> nat {
    pow2(1074)
}

impl Percent {
    /// Whether the sign bit is set.
    pub open spec fn negative(self) -> bool {
        self.bits >= NEGATIVE_ZERO
    }

    /// The bits without the sign.
    pub open spec fn magnitude(self) -> int {
        self.bits as int % NEGATIVE_ZERO as int
    }

    /// The exponent field.
    pub open spec fn exponent(self) -> int {
        self.magnitude() / FRACTION as int
    }

    /// The fraction field.
    pub open spec fn fraction(self) -> int {
        self.magnitude() % FRACTION as int
    }

    /// Whether the bits encode no number.
    pub open spec fn is_nan(self) -> bool {
        self.exponent() == SPECIAL_EXPONENT && self.fraction() != 0
    }

    /// The absolute value of the encoded number, counted in units of which
    /// `one()` make up one. An infinity counts as more than every finite number.
    pub open spec fn units(self) -> int {
        if self.exponent() == 0 {
            self.fraction()
        } else {
            (FRACTION + self.fraction()) * pow2((self.exponent() - 1) as nat)
        }
    }

    /// Whether the encoded number is greater than `threshold`.
    pub open spec fn exceeds(self, threshold: nat) -> bool {
        !self.is_nan() && !self.negative() && self.units() > threshold * one()
    }

    /// The encoded number, taken between 0 and 100, to the nearest whole number.
    pub open spec fn rounded(self) -> int {
        if self.negative() {
            0
        } else if self.units() >= 100 * one() {
            100
        } else {
            half_even(self.units(), one() as int)
        }
    }

    /// The number in whole percent points, behind it a percent sign. The sign of
    /// minus zero is kept; what is not a number has no digits.
    pub open spec fn text(self) -> Seq<char> {
        if self.is_nan() {
            "NaN%"@
        } else if self.bits == NEGATIVE_ZERO {
            "-0%"@
        } else {
            decimal(self.rounded() as nat) + "%"@
        }
    }
}

/// `n / d` to the nearest whole number, a tie to the even one.
pub open spec fn half_even(n: int, d: int) -> int {
    let over = n % d;
    if 2 * over < d || (2 * over == d && (n / d) % 2 == 0) {
        n / d
    } else {
        n / d + 1
    }
}

/// `units` is `whole` times one and the rest that is named.
spec fn splits(units: int, whole: int, rest: Rest) -> bool {
    let over = units % one() as int;
    &&& whole == units / one() as int
    &&& rest == Rest::Nothing <==> over == 0
    &&& rest == Rest::UnderHalf <==> 0 < over && 2 * over < one()
    &&& rest == Rest::Half <==> 2 * over == one()
    &&& rest == Rest::OverHalf <==> 2 * over > one()
}

/// A common factor of numerator and denominator leaves the quotient as it is, and
/// is a factor of the remainder.
proof fn lemma_common_factor(m: int, d: int, k: int)
    requires
        0 <= m,
        0 < d,
        0 < k,
    ensures
        0 < d * k,
        (m * k) / (d * k) == m / d,
        (m * k) % (d * k) == (m % d) * k,
{
    let q = m / d;
    let r = m % d;
    lemma_fundamental_div_mod(m, d);
    assert(m * k == q * (d * k) + r * k) by (nonlinear_arith)
        requires
            m == d * q + r,
    ;
    assert(0 <= r * k < d * k) by (nonlinear_arith)
        requires
            0 <= r < d,
            0 < k,
    ;
    lemma_fundamental_div_mod_converse(m * k, d * k, q, r * k);
}

/// The power of two by which a significand with the exponent field `exponent`
/// is divided to give the number itself.
fn divisor(exponent: u64) -> (d: u64)
    requires
        1022 <= exponent <= 1029,
    ensures
        d == pow2((1075 - exponent) as nat),
        0x4000_0000_0000 <= d <= 0x20_0000_0000_0000,
{
    proof {
        lemma2_to64_rest();
    }
    if exponent == 1022 {
        0x20_0000_0000_0000
    } else if exponent == 1023 {
        0x10_0000_0000_0000
    } else if exponent == 1024 {
        0x8_0000_0000_0000
    } else if exponent == 1025 {
        0x4_0000_0000_0000
    } else if exponent == 1026 {
        0x2_0000_0000_0000
    } else if exponent == 1027 {
        0x1_0000_0000_0000
    } else if exponent == 1028 {
        0x8000_0000_0000
    } else {
        0x4000_0000_0000
    }
}

impl Percent {
    /// The whole number below the encoded one, and how far it lies above that.
    fn split(self) -> (r: (u64, Rest))
        requires
            !self.negative(),
            self.exponent() < 1030,
        ensures
            splits(self.units(), r.0 as int, r.1),
            r.0 < 128,
    {
        let exponent: u64 = self.bits / FRACTION;
        let fraction: u64 = self.bits % FRACTION;
        assert(exponent == self.exponent() && fraction == self.fraction());
        if exponent < 1022 {
            proof {
                lemma_small(self);
            }
            return (0, if self.bits == 0 { Rest::Nothing } else { Rest::UnderHalf });
        }
        let d: u64 = divisor(exponent);
        let significand: u64 = FRACTION + fraction;
        let over: u64 = significand % d;
        proof {
            lemma2_to64_rest();
            let k = pow2((exponent - 1) as nat) as int;
            lemma_pow2_pos((exponent - 1) as nat);
            lemma_pow2_pos((1075 - exponent) as nat);
            lemma_pow2_adds((1075 - exponent) as nat, (exponent - 1) as nat);
            lemma_common_factor(significand as int, d as int, k);
            assert(2 * (over * k) < d * k <==> 2 * over < d) by (nonlinear_arith)
                requires
                    0 < k,
            ;
            assert(2 * (over * k) == d * k <==> 2 * over == d) by (nonlinear_arith)
                requires
                    0 < k,
            ;
            assert(over * k == 0 <==> over == 0) by (nonlinear_arith)
                requires
                    0 < k,
            ;
        }
        let rest: Rest = if over == 0 {
            Rest::Nothing
        } else if over < d - over {
            Rest::UnderHalf
        } else if over == d - over {
            Rest::Half
        } else {
            Rest::OverHalf
        };
        assert(significand / d < 128) by (nonlinear_arith)
            requires
                significand < 0x20_0000_0000_0000,
                0x4000_0000_0000 <= d,
        ;
        (significand / d, rest)
    }
}

impl Percent {
    /// The smallest whole number that is not under the encoded one, taken
    /// between 0 and 100; 0 for what is not a number.
    pub fn ceiling(self) -> (n: u64)
        ensures
            n <= 100,
            forall|t: nat| t < 100 ==> (#[trigger] self.exceeds(t) <==> n > t),
    {
        let magnitude: u64 = self.bits % NEGATIVE_ZERO;
        let exponent: u64 = magnitude / FRACTION;
        let fraction: u64 = magnitude % FRACTION;
        if self.bits >= NEGATIVE_ZERO || (exponent == SPECIAL_EXPONENT && fraction != 0) {
            return 0;
        }
        if exponent >= 1030 {
            proof {
                lemma_large(self);
            }
            return 100;
        }
        let (whole, rest) = self.split();
        let n: u64 = if rest == Rest::Nothing { whole } else { whole + 1 };
        proof {
            lemma_pow2_pos(1074);
            assert forall|t: nat| t < 100 implies (#[trigger] self.exceeds(t) <==> n > t) by {
                lemma_above(self.units(), one() as int, t as int);
            }
        }
        if n > 100 {
            100
        } else {
            n
        }
    }

    /// The number in whole percent points, behind it a percent sign.
    pub fn percentage(self) -> (r: String)
        ensures
            r@ == self.text(),
    {
        let magnitude: u64 = self.bits % NEGATIVE_ZERO;
        let exponent: u64 = magnitude / FRACTION;
        let fraction: u64 = magnitude % FRACTION;
        if exponent == SPECIAL_EXPONENT && fraction != 0 {
            return "NaN%".to_owned();
        }
        if self.bits == NEGATIVE_ZERO {
            return "-0%".to_owned();
        }
        let n: u64 = if self.bits >= NEGATIVE_ZERO {
            0
        } else if exponent >= 1030 {
            proof {
                lemma_large(self);
            }
            100
        } else {
            let (whole, rest) = self.split();
            proof {
                lemma_pow2_pos(1074);
                lemma_above(self.units(), one() as int, 99);
            }
            if whole >= 100 {
                100
            } else if rest == Rest::OverHalf || (rest == Rest::Half && whole % 2 == 1) {
                whole + 1
            } else {
                whole
            }
        };
        let mut r = String::new();
        push_decimal(&mut r, n);
        r.append("%");
        assert(r@ =~= self.text());
        r
    }
}

/// `n` is above `t` times `d` just where `n / d`, rounded up, is above `t`.
proof fn lemma_above(n: int, d: int, t: int)
    requires
        0 <= n,
        0 < d,
        0 <= t,
    ensures
        n > t * d <==> (if n % d == 0 { n / d } else { n / d + 1 }) > t,
        n >= (t + 1) * d <==> n / d > t,
{
    let q = n / d;
    let r = n % d;
    lemma_fundamental_div_mod(n, d);
    assert(n == q * d + r && 0 <= r < d) by {
        lemma_mul_is_commutative(d, q);
    }
    if q > t {
        assert(q * d >= (t + 1) * d && (t + 1) * d == t * d + d) by (nonlinear_arith)
            requires
                q >= t + 1,
                0 < d,
        ;
    } else if q < t {
        assert(t * d >= (q + 1) * d && (q + 1) * d == q * d + d && (t + 1) * d == t * d + d)
            by (nonlinear_arith)
            requires
                t >= q + 1,
                0 < d,
        ;
    } else {
        assert((t + 1) * d == t * d + d) by (nonlinear_arith);
    }
}

/// A number with an exponent field of 1030 or more is greater than 100.
proof fn lemma_large(p: Percent)
    requires
        !p.negative(),
        p.exponent() >= 1030,
    ensures
        forall|t: nat| t <= 100 ==> p.units() > #[trigger] (t * one()),
{
    let e = p.exponent();
    let k = pow2((e - 1) as nat) as int;
    lemma2_to64_rest();
    lemma2_to64();
    lemma_pow2_pos((e - 1) as nat);
    lemma_pow2_pos(1074);
    assert((FRACTION + p.fraction()) * k >= 0x10_0000_0000_0000 * k) by (nonlinear_arith)
        requires
            FRACTION + p.fraction() >= 0x10_0000_0000_0000,
            0 < k,
    ;
    lemma_pow2_adds(52, (e - 1) as nat);
    lemma_pow2_adds(7, 1074);
    if e + 51 > 1081 {
        lemma_pow2_strictly_increases(1081, (e + 51) as nat);
    }
    assert(p.units() >= 128 * one());
    assert forall|t: nat| t <= 100 implies p.units() > #[trigger] (t * one()) by {
        assert(t * one() <= 100 * one()) by (nonlinear_arith)
            requires
                t <= 100,
                0 < one(),
        ;
    }
}

/// A number with an exponent field under 1022 is less than one half.
proof fn lemma_small(p: Percent)
    requires
        !p.negative(),
        p.exponent() < 1022,
    ensures
        p.units() == 0 <==> p.bits == 0,
        0 <= p.units(),
        2 * p.units() < one(),
        p.units() / one() as int == 0,
        p.units() % one() as int == p.units(),
{
    let e = p.exponent();
    lemma2_to64_rest();
    if e == 0 {
        lemma_pow2_strictly_increases(54, 1074);
    } else {
        let k = pow2((e - 1) as nat) as int;
        lemma_pow2_pos((e - 1) as nat);
        assert(0 < (FRACTION + p.fraction()) * k < 0x20_0000_0000_0000 * k) by (nonlinear_arith)
            requires
                0 < FRACTION + p.fraction() < 0x20_0000_0000_0000,
                0 < k,
        ;
        lemma_pow2_adds(53, (e - 1) as nat);
        lemma_pow2_strictly_increases((e + 52) as nat, 1074);
        lemma_pow2_adds(1, (e + 52) as nat);
        if e + 53 < 1074 {
            lemma_pow2_strictly_increases((e + 53) as nat, 1074);
        }
        lemma2_to64();
    }
    lemma_small_mod(p.units() as nat, one());
    lemma_basic_div(p.units(), one() as int);
}

/// What is shown lies between 0 and 100, and for a number in that range it is not more
/// than one half away from it.
pub proof fn rounded_is_nearest(p: Percent)
    ensures
        0 <= p.rounded() <= 100,
        !p.negative() && p.units() <= 100 * one() ==> -one() <= 2 * (p.units() - p.rounded()
            * one()) <= one(),
{
    let d = one() as int;
    lemma_pow2_pos(1074);
    if !p.negative() {
        let n = p.units();
        assert(0 <= n) by {
            if p.exponent() != 0 {
                lemma_pow2_pos((p.exponent() - 1) as nat);
                assert(0 <= (FRACTION + p.fraction()) * pow2((p.exponent() - 1) as nat))
                    by (nonlinear_arith)
                    requires
                        0 <= FRACTION + p.fraction(),
                        0 <= pow2((p.exponent() - 1) as nat),
                ;
            }
        }
        lemma_fundamental_div_mod(n, d);
        lemma_mul_is_commutative(d, n / d);
        lemma_above(n, d, 99);
        assert((n / d + 1) * d == n / d * d + d) by (nonlinear_arith);
        assert(0 <= n / d) by {
            lemma_div_pos_is_pos(n, d);
        }
    }
}

/// A number with a greater encoding is greater: numbers that are not negative compare as
/// their bits do.
pub proof fn greater_bits_are_greater_numbers(p: Percent, q: Percent)
    requires
        !p.negative(),
        !q.negative(),
    ensures
        p.bits < q.bits <==> p.units() < q.units(),
        p.bits == q.bits <==> p.units() == q.units(),
{
    if p.bits < q.bits {
        lemma_strictly_greater(p, q);
    } else if q.bits < p.bits {
        lemma_strictly_greater(q, p);
    }
}

proof fn lemma_strictly_greater(p: Percent, q: Percent)
    requires
        !p.negative(),
        !q.negative(),
        p.bits < q.bits,
    ensures
        p.units() < q.units(),
{
    let unit = FRACTION as int;
    let (e, f) = (p.exponent(), p.fraction());
    let (g, h) = (q.exponent(), q.fraction());
    lemma2_to64();
    if e == g {
        if e > 0 {
            let k = pow2((e - 1) as nat) as int;
            lemma_pow2_pos((e - 1) as nat);
            assert((unit + f) * k < (unit + h) * k) by (nonlinear_arith)
                requires
                    f < h,
                    0 < k,
            ;
        }
    } else {
        let k = pow2((g - 1) as nat) as int;
        lemma_pow2_pos((g - 1) as nat);
        assert((unit + h) * k >= unit * k) by (nonlinear_arith)
            requires
                0 <= h,
                0 < k,
        ;
        if e == 0 {
            assert(unit * k >= unit) by (nonlinear_arith)
                requires
                    1 <= k,
                    0 < unit,
            ;
        } else {
            let j = pow2((e - 1) as nat) as int;
            lemma_pow2_pos((e - 1) as nat);
            lemma_pow2_adds(1, (e - 1) as nat);
            if e < g - 1 {
                lemma_pow2_strictly_increases(e as nat, (g - 1) as nat);
            }
            assert((unit + f) * j < unit * k) by (nonlinear_arith)
                requires
                    0 <= f < unit,
                    0 < j,
                    2 * j <= k,
            ;
        }
    }
}

/// The number with these bits.
pub open spec fn encoded(bits: int) -> Percent {
    Percent { bits: bits as u64 }
}

/// The encoding: zero is no unit and one is `one()` units, the sign bit leaves the absolute
/// value alone, an exponent field that is greater by one doubles the number, and
/// neighbours whose exponent fields agree lie as far apart as the next two do.
pub proof fn encoding_is_binary64(p: Percent)
    requires
        !p.negative(),
    ensures
        encoded(0).units() == 0,
        encoded(0x3ff0_0000_0000_0000).units() == one(),
        encoded(p.bits + NEGATIVE_ZERO).negative(),
        encoded(p.bits + NEGATIVE_ZERO).units() == p.units(),
        1 <= p.exponent() < 2046 ==> encoded(p.bits + FRACTION).units() == 2 * p.units(),
        p.exponent() < 2047 && p.fraction() + 1 < FRACTION ==> encoded(p.bits + 1).units()
            - p.units() == encoded(p.bits + 2).units() - encoded(p.bits + 1).units(),
{
    lemma2_to64();
    lemma2_to64_rest();
    lemma_pow2_adds(52, 1022);
    let opposite = encoded(p.bits + NEGATIVE_ZERO);
    assert(opposite.magnitude() == p.magnitude());
    if 1 <= p.exponent() < 2046 {
        lemma_doubled(p);
    }
    if p.exponent() < 2047 && p.fraction() + 1 < FRACTION {
        lemma_evenly_spaced(p);
    }
}

proof fn lemma_doubled(p: Percent)
    requires
        !p.negative(),
        1 <= p.exponent() < 2046,
    ensures
        encoded(p.bits + FRACTION).units() == 2 * p.units(),
{
    let double = encoded(p.bits + FRACTION);
    let e = p.exponent();
    let j = pow2((e - 1) as nat) as int;
    let k = pow2(e as nat) as int;
    let significand = FRACTION + p.fraction();
    assert(double.exponent() == e + 1 && double.fraction() == p.fraction());
    lemma2_to64();
    lemma_pow2_adds(1, (e - 1) as nat);
    assert(p.units() == significand * j);
    assert(double.units() == significand * k);
    assert(significand * k == 2 * (significand * j)) by (nonlinear_arith)
        requires
            k == 2 * j,
    ;
}

proof fn lemma_evenly_spaced(p: Percent)
    requires
        !p.negative(),
        p.exponent() < 2047,
        p.fraction() + 1 < FRACTION,
    ensures
        encoded(p.bits + 1).units() - p.units() == encoded(p.bits + 2).units() - encoded(
            p.bits + 1,
        ).units(),
{
    let next = encoded(p.bits + 1);
    let after = encoded(p.bits + 2);
    let unit = FRACTION as int;
    let e = p.exponent();
    let f = p.fraction();
    lemma2_to64();
    assert(next.exponent() == e && next.fraction() == f + 1);
    if f + 2 == unit {
        assert(after.exponent() == e + 1 && after.fraction() == 0);
    } else {
        assert(after.exponent() == e && after.fraction() == f + 2);
    }
    if e > 0 {
        let j = pow2((e - 1) as nat) as int;
        let (s, t) = (unit + f, unit + next.fraction());
        assert(p.units() == s * j);
        assert(next.units() == t * j);
        assert(t * j == s * j + j) by (nonlinear_arith)
            requires
                t == s + 1,
        ;
        if f + 2 == unit {
            let k = pow2(e as nat) as int;
            lemma_pow2_adds(1, (e - 1) as nat);
            assert(after.units() == unit * k);
            assert(unit * k == s * j + 2 * j) by (nonlinear_arith)
                requires
                    k == 2 * j,
                    s + 2 == 2 * unit,
            ;
        } else {
            let u = unit + after.fraction();
            assert(after.units() == u * j);
            assert(u * j == s * j + 2 * j) by (nonlinear_arith)
                requires
                    u == s + 2,
            ;
        }
    }
}

/// A number exceeds a threshold just where its encoding is greater than that of the
/// threshold. Negative numbers and what is not a number exceed nothing.
pub proof fn exceeding_compares_encodings(p: Percent, threshold: Percent, t: nat)
    requires
        !threshold.negative(),
        threshold.units() == t * one(),
    ensures
        !p.negative() && !p.is_nan() ==> (p.exceeds(t) <==> p.bits > threshold.bits),
        p.negative() || p.is_nan() ==> !p.exceeds(t),
{
    if !p.negative() {
        greater_bits_are_greater_numbers(threshold, p);
    }
}

/// Of two whole numbers that are equally near the even one is taken; whatever is negative
/// counts as 0, and whatever is over 100 as 100.
pub proof fn rounding_goes_to_the_even(p: Percent)
    ensures
        p.negative() ==> p.rounded() == 0,
        !p.negative() && p.units() >= 100 * one() ==> p.rounded() == 100,
        !p.negative() && p.units() < 100 * one() && (2 * (p.units() - p.rounded() * one())
            == one() || 2 * (p.rounded() * one() - p.units()) == one()) ==> p.rounded() % 2
            == 0,
{
    let d = one() as int;
    lemma_pow2_pos(1074);
    if !p.negative() && p.units() < 100 * d {
        let n = p.units();
        lemma_fundamental_div_mod(n, d);
        lemma_mul_is_commutative(d, n / d);
        assert((n / d + 1) * d == n / d * d + d) by (nonlinear_arith);
    }
}

/// What is shown of a number reads back as the number to the nearest whole one, with a
/// percent sign behind it. Minus zero keeps its sign, and what is not a number has no
/// digits.
pub proof fn percentage_reads_back(p: Percent)
    ensures
        p.is_nan() ==> p.text() == "NaN%"@,
        p.negative() && p.units() == 0 ==> p.text() == "-0%"@,
        !p.is_nan() && !(p.negative() && p.units() == 0) ==> {
            &&& p.text().len() >= 2
            &&& p.text().last() == '%'
            &&& number(p.text().drop_last()) == p.rounded()
            &&& forall|i: int|
                0 <= i < p.text().len() - 1 ==> is_digit(#[trigger] p.text().drop_last()[i])
        },
{
    let magnitude = encoded(p.magnitude());
    assert(magnitude.units() == p.units());
    greater_bits_are_greater_numbers(magnitude, encoded(0));
    assert(encoded(0).units() == 0);
    rounded_is_nearest(p);
    if !p.is_nan() && !(p.negative() && p.units() == 0) {
        reveal_strlit("%");
        decimal_reads_back(p.rounded() as nat);
        assert(p.text().drop_last() =~= decimal(p.rounded() as nat));
    }
    if p.is_nan() {
        assert(p.magnitude() != 0);
    }
}

/// What exceeds a threshold exceeds every smaller one.
pub(crate) proof fn lemma_exceeding_is_downward(p: Percent)
    ensures
        forall|t: nat, s: nat| s <= t && #[trigger] p.exceeds(t) ==> #[trigger] p.exceeds(s),
{
    lemma_pow2_pos(1074);
    assert forall|t: nat, s: nat| s <= t && #[trigger] p.exceeds(t) implies #[trigger] p.exceeds(
        s,
    ) by {
        assert(s * one() <= t * one()) by (nonlinear_arith)
            requires
                s <= t,
                0 < one(),
        ;
    }
}

/// The top bit is the sign, and just the encodings above those of the infinities are no
/// numbers.
pub proof fn sign_and_nan_are_told_by_the_bits(p: Percent)
    ensures
        p.negative() <==> p.bits >= 0x8000_0000_0000_0000,
        !p.negative() ==> (p.is_nan() <==> p.bits > 0x7ff0_0000_0000_0000),
        p.negative() ==> (p.is_nan() <==> p.bits > 0xfff0_0000_0000_0000),
{
}

} // verus!
