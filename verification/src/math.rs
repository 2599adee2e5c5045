use crate::errors::ErrorCode;
use crate::types::OptionType;
use vstd::prelude::*;

verus! {

/// Basis-point denominator: a rate of `b` bps means the fraction `b / 10000`.
pub const BPS_DENOMINATOR: u64 = 10000;

/// Fixed scaling constant between the USD-denominated price inputs and
/// native balance units: one whole unit of the quote asset in native units.
pub const UNIT_CONVERSION: u64 = 1_000_000_000;

/// The seller's collateral requirement in native units:
/// `num_units * strike_price * margin_requirement_bps / 10000`.
pub open spec fn margin_of(num_units: u64, strike_price: u64, margin_requirement_bps: u16) -> int {
    (num_units * strike_price * margin_requirement_bps) / (BPS_DENOMINATOR as int)
}

/// The margin computation leaves the native integer range at one of its
/// two multiplications.
pub open spec fn margin_overflows(
    num_units: u64,
    strike_price: u64,
    margin_requirement_bps: u16,
) -> bool {
    ||| num_units * strike_price > u64::MAX
    ||| num_units * strike_price * margin_requirement_bps > u64::MAX
}

/// Computes the seller's margin requirement with checked arithmetic at every
/// step: the exact quotient on success, `CalculationError` on any overflow,
/// never a wrapped or truncated value.
pub fn compute_margin(num_units: u64, strike_price: u64, margin_requirement_bps: u16) -> (r:
    Result<u64, ErrorCode>)
    ensures
        margin_overflows(num_units, strike_price, margin_requirement_bps) ==> r == Err::<
            u64,
            ErrorCode,
        >(ErrorCode::CalculationError),
        !margin_overflows(num_units, strike_price, margin_requirement_bps) ==> r == Ok::<
            u64,
            ErrorCode,
        >(margin_of(num_units, strike_price, margin_requirement_bps) as u64),
{
    let notional = match num_units.checked_mul(strike_price) {
        Some(v) => v,
        None => {
            return Err(ErrorCode::CalculationError);
        },
    };
    let scaled = match notional.checked_mul(margin_requirement_bps as u64) {
        Some(v) => v,
        None => {
            return Err(ErrorCode::CalculationError);
        },
    };
    match scaled.checked_div(BPS_DENOMINATOR) {
        Some(v) => Ok(v),
        None => Err(ErrorCode::CalculationError),
    }
}

/// What one unit of the option is worth at exercise, in USD: the positive
/// part of the price difference on the profitable side, zero otherwise.
pub open spec fn intrinsic_value(
    option_type: OptionType,
    strike_price: u64,
    underlying_price_usd: u64,
) -> int {
    match option_type {
        OptionType::Call => if underlying_price_usd > strike_price {
            underlying_price_usd - strike_price
        } else {
            0
        },
        OptionType::Put => if strike_price > underlying_price_usd {
            strike_price - underlying_price_usd
        } else {
            0
        },
    }
}

/// The payoff owed by the seller at exercise, in native units:
/// `intrinsic * num_units * UNIT_CONVERSION / sol_price_usd`,
/// and exactly zero when the option expires out of the money
/// (in that case no division happens at all).
pub open spec fn payoff_of(
    option_type: OptionType,
    strike_price: u64,
    num_units: u64,
    underlying_price_usd: u64,
    sol_price_usd: u64,
) -> int {
    if intrinsic_value(option_type, strike_price, underlying_price_usd) == 0 {
        0
    } else {
        intrinsic_value(option_type, strike_price, underlying_price_usd) * num_units
            * UNIT_CONVERSION / (sol_price_usd as int)
    }
}

/// The payoff computation fails: an in-the-money position whose product
/// leaves the native range, or whose conversion divides by a zero price.
pub open spec fn payoff_fails(
    option_type: OptionType,
    strike_price: u64,
    num_units: u64,
    underlying_price_usd: u64,
    sol_price_usd: u64,
) -> bool {
    &&& intrinsic_value(option_type, strike_price, underlying_price_usd) != 0
    &&& {
        ||| intrinsic_value(option_type, strike_price, underlying_price_usd) * num_units > u64::MAX
        ||| intrinsic_value(option_type, strike_price, underlying_price_usd) * num_units
            * UNIT_CONVERSION > u64::MAX
        ||| sol_price_usd == 0
    }
}

/// Computes the exercise payoff with checked arithmetic: the exact value on
/// success (exactly zero out of the money), `CalculationError` on overflow or
/// on division by a zero price.
pub fn compute_payoff(
    option_type: OptionType,
    strike_price: u64,
    num_units: u64,
    underlying_price_usd: u64,
    sol_price_usd: u64,
) -> (r: Result<u64, ErrorCode>)
    ensures
        payoff_fails(option_type, strike_price, num_units, underlying_price_usd, sol_price_usd)
            ==> r == Err::<u64, ErrorCode>(ErrorCode::CalculationError),
        !payoff_fails(option_type, strike_price, num_units, underlying_price_usd, sol_price_usd)
            ==> r == Ok::<u64, ErrorCode>(
            payoff_of(option_type, strike_price, num_units, underlying_price_usd, sol_price_usd)
                as u64,
        ),
{
    let profit_per_unit: u64 = match option_type {
        OptionType::Call => {
            if underlying_price_usd > strike_price {
                underlying_price_usd - strike_price
            } else {
                return Ok(0u64);
            }
        },
        OptionType::Put => {
            if strike_price > underlying_price_usd {
                strike_price - underlying_price_usd
            } else {
                return Ok(0u64);
            }
        },
    };
    let total_profit_usd = match profit_per_unit.checked_mul(num_units) {
        Some(v) => v,
        None => {
            return Err(ErrorCode::CalculationError);
        },
    };
    let scaled = match total_profit_usd.checked_mul(UNIT_CONVERSION) {
        Some(v) => v,
        None => {
            return Err(ErrorCode::CalculationError);
        },
    };
    match scaled.checked_div(sol_price_usd) {
        Some(v) => Ok(v),
        None => Err(ErrorCode::CalculationError),
    }
}

} // verus!
