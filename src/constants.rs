use vstd::prelude::*;

verus! {

/// Default trust score for new liquidity providers (70.00%), out of 10000.
pub const DEFAULT_TRUST_SCORE: u16 = 7000;

/// Minimum trust score for a provider to remain active (50.00%).
pub const MIN_TRUST_SCORE: u16 = 5000;

/// Maximum trust score (100.00%).
pub const MAX_TRUST_SCORE: u16 = 10000;

/// Maximum length of a country code, in bytes (e.g. "USA", "NGA").
pub const MAX_COUNTRY_CODE_LEN: usize = 3;

/// Maximum length of a provider location, in bytes.
pub const MAX_LOCATION_LEN: usize = 50;

/// Platform fee in basis points (50 bps = 0.50%).
pub const PLATFORM_FEE_BPS: u16 = 50;

/// Divisor that turns basis points into a fraction.
pub const BASIS_POINTS_DIVISOR: u64 = 10_000;

/// The platform fee on a gross amount: `floor(amount * bps / 10000)`, or zero
/// when `amount * bps` does not fit in a `u64`.
pub open spec fn platform_fee(amount: u64) -> u64 {
    if amount * (PLATFORM_FEE_BPS as int) <= u64::MAX {
        ((amount * (PLATFORM_FEE_BPS as int)) / (BASIS_POINTS_DIVISOR as int)) as u64
    } else {
        0
    }
}

/// What the receiver gets out of a gross amount once the fee is taken.
pub open spec fn net_amount(amount: u64) -> u64 {
    (amount - platform_fee(amount)) as u64
}

/// The fee never exceeds the gross amount.
pub proof fn lemma_fee_le_amount(amount: u64)
    ensures
        platform_fee(amount) <= amount,
{
    assert(amount * 50 / 10000 <= amount) by (nonlinear_arith);
}

/// Fee conservation: for every gross amount, fee plus net payout is exactly the
/// gross amount, and the fee never exceeds it.
pub proof fn lemma_fee_conservation(amount: u64)
    ensures
        platform_fee(amount) + net_amount(amount) == amount,
        platform_fee(amount) <= amount,
{
    lemma_fee_le_amount(amount);
}

/// Calculate the platform fee for a gross amount, in the same units.
pub fn calculate_platform_fee(amount: u64) -> (fee: u64)
    ensures
        fee == platform_fee(amount),
        fee <= amount,
{
    proof {
        lemma_fee_le_amount(amount);
    }
    let bps = PLATFORM_FEE_BPS as u64;
    let scaled = match amount.checked_mul(bps) {
        Some(v) => v,
        None => 0,
    };
    scaled / BASIS_POINTS_DIVISOR
}

/// Calculate the net amount that remains after the platform fee.
pub fn calculate_net_amount(amount: u64) -> (net: u64)
    ensures
        net == net_amount(amount),
        net + platform_fee(amount) == amount,
{
    let fee = calculate_platform_fee(amount);
    amount.saturating_sub(fee)
}

/// A country code is valid when it is non-empty and at most three bytes long.
pub fn is_valid_country_code(code: &str) -> (r: bool)
    ensures
        r == (code.len() > 0 && code.len() <= MAX_COUNTRY_CODE_LEN),
{
    let n = code.len();
    n > 0 && n <= MAX_COUNTRY_CODE_LEN
}

/// A location is valid when it is non-empty and at most fifty bytes long.
pub fn is_valid_location(location: &str) -> (r: bool)
    ensures
        r == (location.len() > 0 && location.len() <= MAX_LOCATION_LEN),
{
    let n = location.len();
    n > 0 && n <= MAX_LOCATION_LEN
}

} // verus!
