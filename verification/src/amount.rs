//! Money arithmetic in fixed point.
//!
//! Incoming USDC amounts are counted in millionths of a USDC, stored amounts
//! in hundredths of their currency. Rounding is to the nearest hundredth,
//! ties going away from zero.

use vstd::prelude::*;

verus! {

/// Kwacha paid for one USDC, in hundredths of a kwacha: 26.50.
pub const EXCHANGE_RATE_KWACHA_PER_USDC: u64 = 2650;

/// Millionths in one whole unit.
pub const MICROS_PER_UNIT: u64 = 1_000_000;

/// Millionths in one hundredth.
pub const MICROS_PER_HUNDREDTH: u64 = 10_000;

/// The integer nearest to `num / den`, a tie going to the one farther from
/// zero: half the divisor is added to the magnitude before the division
/// cuts the fraction off.
pub open spec fn round_half_away(num: int, den: int) -> int
    recommends
        den > 0,
{
    if num >= 0 {
        (num + den / 2) / den
    } else {
        -((den / 2 - num) / den)
    }
}

/// A USDC amount in millionths, rounded to hundredths of a USDC.
pub open spec fn round2_spec(usdc_micros: int) -> int {
    round_half_away(usdc_micros, MICROS_PER_HUNDREDTH as int)
}

/// The kwacha owed for a USDC amount in millionths, in hundredths of a
/// kwacha: the amount times the rate, rounded once.
pub open spec fn kwacha_spec(usdc_micros: int) -> int {
    round_half_away(usdc_micros * EXCHANGE_RATE_KWACHA_PER_USDC, MICROS_PER_UNIT as int)
}

/// `round_half_away` picks a nearest integer: twice the distance to the
/// exact quotient never exceeds the divisor, and where two integers are
/// equally near, the one farther from zero is taken.
pub proof fn round_half_away_is_nearest(num: int, den: int)
    requires
        den > 0,
    ensures
        num >= 0 ==> -den <= 2 * (num - round_half_away(num, den) * den) < den,
        num < 0 ==> -den < 2 * (num - round_half_away(num, den) * den) <= den,
        num >= 0 ==> round_half_away(num, den) >= 0,
        num < 0 ==> round_half_away(num, den) <= 0,
{
    let m: int = if num >= 0 { num } else { -num };
    let half: int = den / 2;
    let q: int = (m + half) / den;
    let rest: int = (m + half) % den;
    assert(m + half == den * q + rest && 0 <= rest < den && q >= 0) by (nonlinear_arith)
        requires
            den > 0,
            m + half >= 0,
            q == (m + half) / den,
            rest == (m + half) % den,
    ;
    assert(den * q == q * den && (-q) * den == -(q * den)) by (nonlinear_arith);
}

/// Rounding commutes with negation.
pub proof fn round_half_away_is_odd(num: int, den: int)
    requires
        den > 0,
    ensures
        round_half_away(-num, den) == -round_half_away(num, den),
{
    if num == 0 {
        assert((den / 2) / den == 0) by (nonlinear_arith)
            requires
                den > 0,
                0 <= den / 2 < den,
        ;
    }
}

/// An exact multiple of the divisor is left as it is.
pub proof fn round_half_away_of_multiple(k: int, den: int)
    requires
        den > 0,
    ensures
        round_half_away(k * den, den) == k,
{
    round_half_away_is_nearest(k * den, den);
    let r: int = round_half_away(k * den, den);
    assert(k * den - r * den == (k - r) * den) by (nonlinear_arith);
    assert(k == r) by (nonlinear_arith)
        requires
            den > 0,
            -den <= 2 * ((k - r) * den) <= den,
    ;
}

/// A whole number of USDC converts without rounding: `n` USDC are worth
/// `n` times the rate.
pub proof fn whole_usdc_converts_exactly(n: int)
    ensures
        kwacha_spec(n * MICROS_PER_UNIT) == n * EXCHANGE_RATE_KWACHA_PER_USDC,
        round2_spec(n * MICROS_PER_UNIT) == n * 100,
{
    assert(n * MICROS_PER_UNIT * EXCHANGE_RATE_KWACHA_PER_USDC == (n
        * EXCHANGE_RATE_KWACHA_PER_USDC) * MICROS_PER_UNIT) by (nonlinear_arith);
    round_half_away_of_multiple(n * EXCHANGE_RATE_KWACHA_PER_USDC, MICROS_PER_UNIT as int);
    round_half_away_of_multiple(n * 100, MICROS_PER_HUNDREDTH as int);
}

/// `value * factor / divisor`, rounded half away from zero.
fn scale_and_round(value: i64, factor: u64, divisor: u64) -> (rounded: i64)
    requires
        0 < factor <= divisor <= 0x1_0000_0000,
    ensures
        rounded == round_half_away(value * factor, divisor as int),
{
    let magnitude: u128 = if value >= 0 {
        value as u128
    } else {
        (-(value as i128)) as u128
    };
    assert(magnitude * factor <= 0x8000_0000_0000_0000 * 0x1_0000_0000) by (nonlinear_arith)
        requires
            magnitude <= 0x8000_0000_0000_0000,
            factor <= 0x1_0000_0000,
    ;
    let scaled: u128 = magnitude * (factor as u128);
    let quotient: u128 = (scaled + (divisor as u128) / 2) / (divisor as u128);
    proof {
        assert(magnitude * factor <= magnitude * divisor) by (nonlinear_arith)
            requires
                factor <= divisor,
                magnitude >= 0,
        ;
        assert(quotient <= magnitude) by (nonlinear_arith)
            requires
                quotient == (scaled + divisor / 2) / (divisor as int),
                0 <= divisor / 2 < divisor,
                scaled <= magnitude * divisor,
                divisor > 0,
                scaled >= 0,
                magnitude >= 0,
        ;
        if value < 0 {
            assert(value * factor == -(magnitude * factor)) by (nonlinear_arith)
                requires
                    magnitude == -value,
            ;
            assert(value * factor < 0) by (nonlinear_arith)
                requires
                    value < 0,
                    factor > 0,
            ;
        } else {
            assert(value * factor >= 0) by (nonlinear_arith)
                requires
                    value >= 0,
                    factor > 0,
            ;
        }
    }
    if value >= 0 {
        quotient as i64
    } else {
        (-(quotient as i128)) as i64
    }
}

/// Rounds a USDC amount given in millionths to hundredths of a USDC.
pub fn round2(usdc_micros: i64) -> (hundredths: i64)
    ensures
        hundredths == round2_spec(usdc_micros as int),
{
    scale_and_round(usdc_micros, 1, MICROS_PER_HUNDREDTH)
}

/// Converts a USDC amount given in millionths to hundredths of a kwacha at
/// the fixed rate.
pub fn kwacha_for(usdc_micros: i64) -> (hundredths: i64)
    ensures
        hundredths == kwacha_spec(usdc_micros as int),
{
    scale_and_round(usdc_micros, EXCHANGE_RATE_KWACHA_PER_USDC, MICROS_PER_UNIT)
}

} // verus!
