//! Turning a price feed's records into a price snapshot.

use vstd::prelude::*;
use crate::price::{Price, price_units_of_parts, decimal_parts, decimal_parts_of};

verus! {

/// One record of the feed's `data` array.
#[derive(Clone, Debug)]
pub struct FeedRecord {
    /// The current price as decimal text (`CurPrice`).
    pub cur_price: String,
    /// The instrument's name (`Variety`).
    pub variety: String,
}

/// Why a poll produced no snapshot.
#[derive(Clone, Copy, Debug, PartialEq, Eq)]
pub enum FeedError {
    /// The feed could not be reached, or did not answer in time.
    Network,
    /// The answer did not have the expected shape, or its price is no decimal.
    Malformed,
    /// The answer was well formed but held no record.
    EmptyData,
}

/// The price of one instrument at one poll.
#[derive(Clone, Debug)]
pub struct PriceSnapshot {
    pub code: String,
    pub price: Price,
    /// The price as the feed wrote it.
    pub price_text: String,
}

/// `r` is what a feed answer with `records` gives, where the first record's
/// price text has the decimal digits and scale `parts`: no records is
/// `EmptyData`, a price that is no decimal of at most `MAX_SCALE` places is
/// `Malformed`, and otherwise the snapshot of the first record.
pub open spec fn snapshot_result(
    records: Seq<FeedRecord>,
    parts: Option<(i64, i64)>,
    r: Result<PriceSnapshot, FeedError>,
) -> bool {
    if records.len() == 0 {
        r == Err::<PriceSnapshot, FeedError>(FeedError::EmptyData)
    } else {
        match price_units_of_parts(parts) {
            None => r == Err::<PriceSnapshot, FeedError>(FeedError::Malformed),
            Some(units) => r matches Ok(s) && s.code@ == records[0].variety@ && s.price_text@
                == records[0].cur_price@ && s.price@ == units,
        }
    }
}

/// The snapshot of a feed answer whose first record's price text has the
/// decimal digits and scale `parts`.
pub fn snapshot_from_parts(records: &Vec<FeedRecord>, parts: Option<(i64, i64)>) -> (r: Result<
    PriceSnapshot,
    FeedError,
>)
    ensures
        snapshot_result(records@, parts, r),
{
    if records.len() == 0 {
        return Err(FeedError::EmptyData);
    }
    match Price::from_parts(parts) {
        None => Err(FeedError::Malformed),
        Some(price) => Ok(
            PriceSnapshot {
                code: records[0].variety.clone(),
                price,
                price_text: records[0].cur_price.clone(),
            },
        ),
    }
}

/// The snapshot of a feed answer: only the first record is read.
pub fn snapshot_from_feed(records: &Vec<FeedRecord>) -> (r: Result<PriceSnapshot, FeedError>)
    ensures
        records.len() == 0 ==> r == Err::<PriceSnapshot, FeedError>(FeedError::EmptyData),
        records.len() > 0 ==> snapshot_result(
            records@,
            decimal_parts_of(records@[0].cur_price@),
            r,
        ),
{
    if records.len() == 0 {
        return Err(FeedError::EmptyData);
    }
    snapshot_from_parts(records, decimal_parts(records[0].cur_price.as_str()))
}

} // verus!
