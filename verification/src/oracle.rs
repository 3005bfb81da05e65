use vstd::prelude::*;
use crate::errors::ErrorCode;

verus! {

/// A quote of the price feed: what one whole unit of the collateral asset
/// costs, in smallest stable-coin units, and when that was published.
#[derive(Clone, Copy, Debug, PartialEq, Eq, Structural)]
pub struct PriceQuote {
    pub price: u64,
    /// The instant of publication, in seconds.
    pub publish_time: i64,
}

/// Whether `quote` was published within `max_staleness` seconds of `now`.
pub open spec fn is_fresh(quote: PriceQuote, now: i64, max_staleness: u64) -> bool {
    -(max_staleness as int) <= now - quote.publish_time <= max_staleness
}

/// The price of the latest quote, if there is one and it was published
/// within `max_staleness` seconds of `now`; `StaleOrMissingPrice` otherwise.
pub fn get_price(quote: Option<PriceQuote>, now: i64, max_staleness: u64) -> (r: Result<
    u64,
    ErrorCode,
>)
    ensures
        quote is Some && is_fresh(quote->Some_0, now, max_staleness) ==> r == Ok::<
            u64,
            ErrorCode,
        >(quote->Some_0.price),
        quote is None || !is_fresh(quote->Some_0, now, max_staleness) ==> r == Err::<
            u64,
            ErrorCode,
        >(ErrorCode::StaleOrMissingPrice),
{
    match quote {
        Some(latest) => {
            let age: i128 = now as i128 - latest.publish_time as i128;
            let limit: i128 = max_staleness as i128;
            if -limit <= age && age <= limit {
                Ok(latest.price)
            } else {
                Err(ErrorCode::StaleOrMissingPrice)
            }
        },
        None => Err(ErrorCode::StaleOrMissingPrice),
    }
}

} // verus!
