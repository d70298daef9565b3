//! Conversion between the precision in which the backend states amounts of a
//! token and the balance units of the token.

use vstd::prelude::*;
use vstd::arithmetic::div_mod::lemma_fundamental_div_mod_converse;
use vstd::arithmetic::power::{lemma_pow_increases, pow};

verus! {

/// The largest difference between the decimals of a token and the backend's
/// precision whose power of ten fits the multiplier.
pub const MAX_SCALE_EXPONENT: u8 = 18;

/// The multiplier of a token with `decimals` decimal places whose amounts the
/// backend states with `precision` decimal places: ten to the power of their
/// difference. There is none where the precision exceeds the decimals, nor
/// where the power does not fit the multiplier.
pub open spec fn multiplier_of(decimals: u8, precision: u8) -> Option<int> {
    if precision <= decimals && decimals - precision <= MAX_SCALE_EXPONENT {
        Some(pow(10, (decimals - precision) as nat))
    } else {
        None
    }
}

/// The amount in balance units of an amount in the backend's precision.
pub open spec fn balance_units(raw: i64, multiplier: i64) -> int {
    raw * multiplier
}

/// The amount in the backend's precision of an amount in balance units, where
/// there is one: the multiplier is positive, it divides the units, and the
/// quotient fits a backend amount.
pub open spec fn backend_amount(units: int, multiplier: i64) -> Option<int> {
    if multiplier > 0 && units % (multiplier as int) == 0 && i64::MIN <= units / (multiplier as int)
        <= i64::MAX {
        Some(units / (multiplier as int))
    } else {
        None
    }
}

/// Ten to the power of eighteen, which fits the multiplier.
pub proof fn lemma_pow10_max()
    ensures
        pow(10, 18) == 1_000_000_000_000_000_000,
{
    reveal_with_fuel(pow, 19);
}

/// The multiplier of a token, computed once when its ledger is set up.
pub fn multiplier(decimals: u8, precision: u8) -> (found: Option<i64>)
    ensures
        match multiplier_of(decimals, precision) {
            Some(m) => found == Some(m as i64) && 1 <= m <= i64::MAX,
            None => found is None,
        },
{
    if precision > decimals || decimals - precision > MAX_SCALE_EXPONENT {
        return None;
    }
    let exponent: u8 = decimals - precision;
    let mut result: i64 = 1;
    let mut done: u8 = 0;
    proof {
        reveal_with_fuel(pow, 1);
    }
    while done < exponent
        invariant
            done <= exponent <= 18,
            result == pow(10, done as nat),
            1 <= result,
        decreases exponent - done,
    {
        proof {
            lemma_pow10_max();
            lemma_pow_increases(10, (done + 1) as nat, 18);
            reveal_with_fuel(pow, 1);
        }
        result = result * 10;
        done = done + 1;
    }
    Some(result)
}

/// Converts an amount in the backend's precision into balance units.
pub fn to_balance_units(raw: i64, multiplier: i64) -> (units: i128)
    ensures
        units == balance_units(raw, multiplier),
{
    proof {
        lemma_balance_units_fit(raw, multiplier);
    }
    (raw as i128) * (multiplier as i128)
}

/// A product of two 64-bit amounts fits 128 bits, and so does its negation.
pub proof fn lemma_balance_units_fit(raw: i64, multiplier: i64)
    ensures
        i128::MIN < balance_units(raw, multiplier) < i128::MAX,
        i128::MIN < -balance_units(raw, multiplier) < i128::MAX,
{
    let r = raw as int;
    let m = multiplier as int;
    assert(-0x4000_0000_0000_0000_0000_0000_0000_0000 <= r * m
        <= 0x4000_0000_0000_0000_0000_0000_0000_0000) by (nonlinear_arith)
        requires
            -0x8000_0000_0000_0000 <= r <= 0x8000_0000_0000_0000,
            -0x8000_0000_0000_0000 <= m <= 0x8000_0000_0000_0000,
    ;
}

/// Converts an amount in balance units back into the backend's precision.
pub fn to_backend_amount(units: i128, multiplier: i64) -> (raw: Option<i64>)
    ensures
        match backend_amount(units as int, multiplier) {
            Some(r) => raw == Some(r as i64),
            None => raw is None,
        },
{
    if multiplier <= 0 {
        return None;
    }
    let negative = units < 0;
    let magnitude: u128 = if negative {
        if units == i128::MIN {
            0x8000_0000_0000_0000_0000_0000_0000_0000u128
        } else {
            (-units) as u128
        }
    } else {
        units as u128
    };
    let step: u128 = multiplier as u128;
    let remainder: u128 = magnitude % step;
    let quotient: u128 = magnitude / step;
    proof {
        lemma_signed_exact_division(units as int, multiplier as int);
    }
    if remainder != 0 {
        return None;
    }
    if negative {
        if quotient > 0x8000_0000_0000_0000u128 {
            return None;
        }
        if quotient == 0x8000_0000_0000_0000u128 {
            return Some(i64::MIN);
        }
        Some(-(quotient as i64))
    } else {
        if quotient > 0x7fff_ffff_ffff_ffffu128 {
            return None;
        }
        Some(quotient as i64)
    }
}

/// Division of a negative amount by a positive step, through its magnitude.
pub proof fn lemma_signed_exact_division(units: int, step: int)
    requires
        step > 0,
    ensures
        units < 0 ==> ((-units) % step == 0 <==> units % step == 0),
        units < 0 && units % step == 0 ==> units / step == -((-units) / step),
{
    if units < 0 {
        let n = -units;
        if n % step == 0 {
            assert(n == step * (n / step)) by (nonlinear_arith)
                requires
                    step > 0,
                    n % step == 0,
            ;
            let k = n / step;
            assert(units == (-k) * step) by (nonlinear_arith)
                requires
                    n == step * k,
                    units == -n,
            ;
            lemma_fundamental_div_mod_converse(units, step, -k, 0);
        }
        if units % step == 0 {
            assert(units == step * (units / step)) by (nonlinear_arith)
                requires
                    step > 0,
                    units % step == 0,
            ;
            let k = units / step;
            assert(n == (-k) * step) by (nonlinear_arith)
                requires
                    units == step * k,
                    n == -units,
            ;
            lemma_fundamental_div_mod_converse(n, step, -k, 0);
        }
    }
}

/// An amount converted into balance units and back is the amount, whatever
/// the amount and whatever the positive multiplier.
pub proof fn lemma_conversion_round_trip(raw: i64, multiplier: i64)
    requires
        multiplier >= 1,
    ensures
        backend_amount(balance_units(raw, multiplier), multiplier) == Some(raw as int),
{
    lemma_fundamental_div_mod_converse(
        balance_units(raw, multiplier),
        multiplier as int,
        raw as int,
        0,
    );
}

} // verus!
