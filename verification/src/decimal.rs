//! Decimal numbers: a sign, a mantissa and a power of ten.
//!
//! The numeric options of a client and the numbers of a JSON document are
//! decimals. Their value is `± mantissa · 10^exponent`, and every comparison
//! with an integer bound is made exactly, without rounding.

use vstd::prelude::*;

verus! {

/// Ten to the power of `n`.
pub open spec fn pow10(n: nat) -> nat
    decreases n,
{
    if n == 0 {
        1
    } else {
        10 * pow10((n - 1) as nat)
    }
}

/// A decimal number, `± mantissa · 10^exponent`.
#[derive(Debug, Clone, Copy, PartialEq, Eq, Structural)]
pub struct Decimal {
    /// Whether the sign is positive. A zero may carry either sign.
    pub positive: bool,
    /// The digits, as an integer.
    pub mantissa: u64,
    /// The power of ten by which the mantissa is scaled.
    pub exponent: i16,
}

impl Decimal {
    /// The mantissa with the sign applied.
    pub open spec fn signed_mantissa(self) -> int {
        if self.positive {
            self.mantissa as int
        } else {
            -(self.mantissa as int)
        }
    }

    /// The difference `value - bound`, scaled by a positive power of ten so
    /// that it is an integer: by `1` where the exponent is not negative, by
    /// `10^(-exponent)` where it is. Only its sign matters.
    pub open spec fn gap(self, bound: int) -> int {
        if self.exponent >= 0 {
            self.signed_mantissa() * pow10(self.exponent as nat) - bound
        } else {
            self.signed_mantissa() - bound * pow10((-self.exponent) as nat)
        }
    }

    /// `value <= bound`.
    pub open spec fn at_most(self, bound: int) -> bool {
        self.gap(bound) <= 0
    }

    /// `value >= bound`.
    pub open spec fn at_least(self, bound: int) -> bool {
        self.gap(bound) >= 0
    }

    /// `low <= value <= high`.
    pub open spec fn between(self, low: int, high: int) -> bool {
        self.at_least(low) && self.at_most(high)
    }

    /// The decimal that stands for an integer of at most 64 bits: exponent
    /// zero, the sign and the magnitude of `value`.
    pub open spec fn of_integer(value: int) -> Decimal {
        Decimal {
            positive: value >= 0,
            mantissa: (if value >= 0 {
                value
            } else {
                -value
            }) as u64,
            exponent: 0,
        }
    }

    /// The integer that the decimal writes out digit by digit: its signed
    /// mantissa, where the exponent is zero and that fits in 64 bits.
    pub open spec fn plain_integer(self) -> Option<i64> {
        if self.exponent == 0 && i64::MIN <= self.signed_mantissa() <= i64::MAX {
            Some(self.signed_mantissa() as i64)
        } else {
            None
        }
    }

    /// The same number with the trailing zeros of its mantissa taken into a
    /// negative exponent, one at a time, until the exponent is zero or the
    /// last digit is not zero.
    pub open spec fn reduced(self) -> Decimal
        decreases -(self.exponent as int),
    {
        if self.exponent < 0 && self.mantissa % 10 == 0 {
            (Decimal {
                positive: self.positive,
                mantissa: self.mantissa / 10,
                exponent: (self.exponent + 1) as i16,
            }).reduced()
        } else {
            self
        }
    }

    /// The decimal with the given parts.
    pub fn new(positive: bool, mantissa: u64, exponent: i16) -> (d: Decimal)
        ensures
            d == (Decimal { positive, mantissa, exponent }),
    {
        Decimal { positive, mantissa, exponent }
    }

    /// The decimal that stands for an integer: exponent zero, the sign and
    /// the magnitude of `value`.
    pub fn from_integer(value: i64) -> (d: Decimal)
        ensures
            d == Decimal::of_integer(value as int),
            d.signed_mantissa() == value,
    {
        if value >= 0 {
            Decimal { positive: true, mantissa: value as u64, exponent: 0 }
        } else {
            let wide: i128 = value as i128;
            Decimal { positive: false, mantissa: (-wide) as u64, exponent: 0 }
        }
    }

    /// The integer that the decimal writes out digit by digit, if there is
    /// one.
    pub fn as_plain_integer(&self) -> (r: Option<i64>)
        ensures
            r == self.plain_integer(),
    {
        if self.exponent != 0 {
            return None;
        }
        let magnitude: i128 = self.mantissa as i128;
        let signed: i128 = if self.positive {
            magnitude
        } else {
            -magnitude
        };
        if signed < i64::MIN as i128 || signed > i64::MAX as i128 {
            None
        } else {
            Some(signed as i64)
        }
    }

    /// The sign of `value - bound`: `-1`, `0` or `1`.
    fn gap_sign(&self, bound: i64) -> (sign: i8)
        ensures
            -1 <= sign <= 1,
            (sign < 0) == (self.gap(bound as int) < 0),
            (sign == 0) == (self.gap(bound as int) == 0),
            (sign > 0) == (self.gap(bound as int) > 0),
    {
        let magnitude: i128 = self.mantissa as i128;
        let signed: i128 = if self.positive {
            magnitude
        } else {
            -magnitude
        };
        let limit: i128 = bound as i128;
        if self.exponent >= 0 {
            if signed == 0 {
                assert(self.gap(bound as int) == -(bound as int)) by (nonlinear_arith)
                    requires
                        self.signed_mantissa() == 0,
                        self.exponent >= 0,
                ;
                return sign_of(0 - limit);
            }
            if self.exponent > 18 {
                proof {
                    lemma_pow10_grows(19, self.exponent as nat);
                    lemma_pow10_19();
                    lemma_scaled_is_large(
                        self.signed_mantissa(),
                        pow10(self.exponent as nat),
                        10_000_000_000_000_000_000,
                    );
                }
                return if signed > 0 {
                    1
                } else {
                    -1
                };
            }
            let scale: i128 = power_of_ten(self.exponent as u32);
            proof {
                lemma_pow10_grows(self.exponent as nat, 18);
                lemma_pow10_18();
                lemma_product_fits(
                    signed as int,
                    scale as int,
                    0x1_0000_0000_0000_0000,
                    1_000_000_000_000_000_000,
                );
            }
            sign_of(signed * scale - limit)
        } else {
            let places: u32 = (-(self.exponent as i32)) as u32;
            if limit == 0 {
                assert(self.gap(bound as int) == self.signed_mantissa()) by (nonlinear_arith)
                    requires
                        bound == 0,
                        self.exponent < 0,
                ;
                return sign_of(signed);
            }
            if places > 19 {
                proof {
                    lemma_pow10_grows(20, places as nat);
                    lemma_pow10_20();
                    lemma_scaled_is_large(
                        bound as int,
                        pow10(places as nat),
                        100_000_000_000_000_000_000,
                    );
                }
                return if limit > 0 {
                    -1
                } else {
                    1
                };
            }
            let scale: i128 = power_of_ten(places);
            proof {
                lemma_pow10_grows(places as nat, 19);
                lemma_pow10_19();
                lemma_product_fits(
                    limit as int,
                    scale as int,
                    0x8000_0000_0000_0000,
                    10_000_000_000_000_000_000,
                );
            }
            sign_of(signed - limit * scale)
        }
    }

    /// Whether the value is at most `bound`.
    pub fn is_at_most(&self, bound: i64) -> (r: bool)
        ensures
            r == self.at_most(bound as int),
    {
        self.gap_sign(bound) <= 0
    }

    /// Whether the value is at least `bound`.
    pub fn is_at_least(&self, bound: i64) -> (r: bool)
        ensures
            r == self.at_least(bound as int),
    {
        self.gap_sign(bound) >= 0
    }

    /// Whether the value lies in the closed interval from `low` to `high`.
    pub fn is_between(&self, low: i64, high: i64) -> (r: bool)
        ensures
            r == self.between(low as int, high as int),
    {
        self.is_at_least(low) && self.is_at_most(high)
    }
}

/// The sign of an integer: `-1`, `0` or `1`.
fn sign_of(value: i128) -> (sign: i8)
    ensures
        -1 <= sign <= 1,
        (sign < 0) == (value < 0),
        (sign == 0) == (value == 0),
        (sign > 0) == (value > 0),
{
    if value < 0 {
        -1
    } else if value == 0 {
        0
    } else {
        1
    }
}

/// Ten to the power of `n`, for the powers that fit.
fn power_of_ten(n: u32) -> (power: i128)
    requires
        n <= 19,
    ensures
        power == pow10(n as nat),
        1 <= power <= 10_000_000_000_000_000_000,
{
    let mut power: i128 = 1;
    let mut done: u32 = 0;
    while done < n
        invariant
            done <= n <= 19,
            power == pow10(done as nat),
            1 <= power,
        decreases n - done,
    {
        proof {
            lemma_pow10_grows((done + 1) as nat, 19);
            lemma_pow10_19();
        }
        power = power * 10;
        done = done + 1;
    }
    proof {
        lemma_pow10_grows(n as nat, 19);
        lemma_pow10_19();
    }
    power
}

/// Powers of ten grow with the exponent.
proof fn lemma_pow10_grows(low: nat, high: nat)
    requires
        low <= high,
    ensures
        1 <= pow10(low) <= pow10(high),
    decreases high,
{
    if low == 0 {
        if high > 0 {
            lemma_pow10_grows(0, (high - 1) as nat);
        }
    } else {
        lemma_pow10_grows((low - 1) as nat, (high - 1) as nat);
    }
}

proof fn lemma_pow10_18()
    ensures
        pow10(18) == 1_000_000_000_000_000_000,
{
    reveal_with_fuel(pow10, 19);
}

proof fn lemma_pow10_19()
    ensures
        pow10(19) == 10_000_000_000_000_000_000,
{
    lemma_pow10_18();
    reveal_with_fuel(pow10, 2);
}

proof fn lemma_pow10_20()
    ensures
        pow10(20) == 100_000_000_000_000_000_000,
{
    lemma_pow10_19();
    reveal_with_fuel(pow10, 2);
}

/// A non-zero integer times a number of at least `floor` lies at least
/// `floor` away from zero, on the side of its sign.
proof fn lemma_scaled_is_large(factor: int, power: nat, floor: nat)
    requires
        factor != 0,
        power >= floor,
    ensures
        factor > 0 ==> factor * power >= floor,
        factor < 0 ==> factor * power <= -floor,
{
    assert(factor > 0 ==> factor * power >= floor) by (nonlinear_arith)
        requires
            power >= floor,
    ;
    assert(factor < 0 ==> factor * power <= -floor) by (nonlinear_arith)
        requires
            power >= floor,
    ;
}

/// A product is bounded by the product of the bounds of its factors.
proof fn lemma_product_fits(factor: int, power: int, reach: int, top: int)
    requires
        -reach <= factor <= reach,
        1 <= power <= top,
    ensures
        -reach * top <= factor * power <= reach * top,
{
    assert(-reach * top <= factor * power <= reach * top) by (nonlinear_arith)
        requires
            -reach <= factor <= reach,
            1 <= power <= top,
    ;
}

} // verus!
