//! Conversion of a USD price into an amount of a payment token, given a
//! price oracle's answer.
//!
//! An oracle answer is scaled by `10^oracle_decimals` and a token amount by
//! `10^token_decimals`, so one unit costs
//! `ceil(usd_price * 10^token_decimals * 10^oracle_decimals / answer)`
//! in the token's smallest denomination. Rounding up means the market never
//! undercharges.

use crate::market::MarketError;
use crate::uint::{ceil_div, modulus, Uint256};
use vstd::arithmetic::power::pow;
use vstd::prelude::*;

verus! {

/// `10^e`.
pub open spec fn pow10(e: nat) -> nat {
    pow(10, e) as nat
}

/// The USD price raised to both precisions.
pub open spec fn scaled_price(usd_price: nat, token_decimals: nat, oracle_decimals: nat) -> nat {
    usd_price * pow10(token_decimals) * pow10(oracle_decimals)
}

/// What one unit costs in the payment token.
pub open spec fn unit_cost(
    usd_price: nat,
    answer: nat,
    token_decimals: nat,
    oracle_decimals: nat,
) -> nat {
    ceil_div(scaled_price(usd_price, token_decimals, oracle_decimals), answer)
}

/// What `units` units cost in the payment token.
pub open spec fn total_cost(
    usd_price: nat,
    answer: nat,
    token_decimals: nat,
    oracle_decimals: nat,
    units: nat,
) -> nat {
    unit_cost(usd_price, answer, token_decimals, oracle_decimals) * units
}

/// 2^255: raw answers from here up are negative in two's complement.
pub open spec fn sign_bit() -> nat {
    modulus() / 2
}

/// Whether a raw 256-bit oracle answer is a positive signed integer.
pub open spec fn answer_is_positive(raw: nat) -> bool {
    0 < raw < sign_bit()
}

/// Whether every intermediate value of the quote stays below 2^256.
pub open spec fn quote_fits(
    usd_price: nat,
    answer: nat,
    token_decimals: nat,
    oracle_decimals: nat,
    units: nat,
) -> bool {
    &&& pow10(token_decimals) < modulus()
    &&& usd_price * pow10(token_decimals) < modulus()
    &&& pow10(oracle_decimals) < modulus()
    &&& scaled_price(usd_price, token_decimals, oracle_decimals) < modulus()
    &&& total_cost(usd_price, answer, token_decimals, oracle_decimals, units) < modulus()
}

/// Relies on `I256::from_raw` and `I256::is_positive`: the raw word read in
/// two's complement is above zero.
#[verifier::external_body]
fn is_positive_signed(raw: &Uint256) -> (r: bool)
    ensures
        r == answer_is_positive(raw@),
{
    let u = alloy_primitives::U256::from_limbs([raw.w0, raw.w1, raw.w2, raw.w3]);
    alloy_primitives::I256::from_raw(u).is_positive()
}

/// The payment for `units` units at `usd_price` dollars each, from the
/// oracle's raw `answer` (a signed 256-bit integer in two's complement) and
/// the two precisions. A non-positive answer is `OracleCallFailed`; a value
/// that does not fit in 256 bits on the way is `Overflow`.
pub fn quote(
    usd_price: &Uint256,
    answer: &Uint256,
    oracle_decimals: u8,
    token_decimals: u8,
    units: u8,
) -> (r: Result<Uint256, MarketError>)
    ensures
        !answer_is_positive(answer@) ==> r == Err::<Uint256, MarketError>(
            MarketError::OracleCallFailed,
        ),
        answer_is_positive(answer@) && !quote_fits(
            usd_price@,
            answer@,
            token_decimals as nat,
            oracle_decimals as nat,
            units as nat,
        ) ==> r == Err::<Uint256, MarketError>(MarketError::Overflow),
        answer_is_positive(answer@) && quote_fits(
            usd_price@,
            answer@,
            token_decimals as nat,
            oracle_decimals as nat,
            units as nat,
        ) ==> (r matches Ok(v) && v@ == total_cost(
            usd_price@,
            answer@,
            token_decimals as nat,
            oracle_decimals as nat,
            units as nat,
        )),
{
    if !is_positive_signed(answer) {
        return Err(MarketError::OracleCallFailed);
    }
    let ten = Uint256::from_u64(10);
    let token_scale = match ten.checked_pow(&Uint256::from_u64(token_decimals as u64)) {
        Some(v) => v,
        None => return Err(MarketError::Overflow),
    };
    let partial = match usd_price.checked_mul(&token_scale) {
        Some(v) => v,
        None => return Err(MarketError::Overflow),
    };
    let oracle_scale = match ten.checked_pow(&Uint256::from_u64(oracle_decimals as u64)) {
        Some(v) => v,
        None => return Err(MarketError::Overflow),
    };
    let scaled = match partial.checked_mul(&oracle_scale) {
        Some(v) => v,
        None => return Err(MarketError::Overflow),
    };
    let per_unit = scaled.div_ceil(answer);
    match per_unit.checked_mul(&Uint256::from_u64(units as u64)) {
        Some(v) => Ok(v),
        None => Err(MarketError::Overflow),
    }
}

} // verus!
