//! Position sizing from the account's balance.

use vstd::prelude::*;
use crate::error::{BotError, BotResult};
use crate::fixed::{dec_div, dec_mul, ddiv, dmul, fits_i64, SCALE};

verus! {

/// The size of the first position: the free balance times the risk
/// fraction, converted to quantity at `current_price`. No free balance is an
/// insufficient-margin error (one USDT required); a non-positive price is a
/// retryable API error.
pub fn calculate_position_size(free_usdt: i64, current_price: i64, risk_percentage: i64) -> (r: BotResult<i64>)
    requires
        free_usdt > 0 && current_price > 0 ==> fits_i64(dec_mul(free_usdt as int, risk_percentage as int))
            && fits_i64(dec_div(dec_mul(free_usdt as int, risk_percentage as int), current_price as int)),
    ensures
        free_usdt <= 0 ==> r == Err::<i64, BotError>(BotError::InsufficientMargin { required: SCALE, available: free_usdt }),
        free_usdt > 0 && current_price <= 0 ==> (r matches Err(BotError::ApiError { message, retryable }) && retryable
            && message@ == "Invalid price from ticker"@),
        free_usdt > 0 && current_price > 0 ==> r == Ok::<i64, BotError>(
            dec_div(dec_mul(free_usdt as int, risk_percentage as int), current_price as int) as i64,
        ),
{
    if free_usdt <= 0 {
        return Err(BotError::InsufficientMargin { required: SCALE, available: free_usdt });
    }
    if current_price <= 0 {
        return Err(BotError::ApiError { message: "Invalid price from ticker".to_owned(), retryable: true });
    }
    let position_value_usdt = dmul(free_usdt, risk_percentage);
    Ok(ddiv(position_value_usdt, current_price))
}

/// A position size must be positive.
pub fn validate_position_size(size: i64, min_value_usdt: i64) -> (r: BotResult<()>)
    ensures
        size <= 0 ==> r == Err::<(), BotError>(BotError::PositionSizeTooSmall { size, minimum: min_value_usdt }),
        size > 0 ==> r is Ok,
{
    if size <= 0 {
        return Err(BotError::PositionSizeTooSmall { size, minimum: min_value_usdt });
    }
    Ok(())
}

} // verus!
