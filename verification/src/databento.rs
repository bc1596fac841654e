//! Translation of feed prices into internal fixed-point prices.
//!
//! The feed marks an empty level with one "no price" sentinel on both sides.
//! Internally each side gets its own sentinel, chosen so that sentinel-aware
//! comparisons stay correct without branching: an empty bid is the minimum
//! representable price, so any real bid outranks it, and an empty ask is the
//! maximum, so any real ask outranks it. Real prices are scaled down by the
//! feed's fixed-point divisor. This translation happens once, at ingestion,
//! never on the wire-receive path.

use vstd::prelude::*;

use crate::model::{Price, Side, SIDE_ASK, SIDE_BID};

verus! {

/// Internal price of an empty bid level: the minimum representable price.
pub const INTERNAL_BID_SENTINEL: Price = i64::MIN;

/// Internal price of an empty ask level: the maximum representable price.
pub const INTERNAL_ASK_SENTINEL: Price = i64::MAX;

/// The feed's "no price" value, on either side.
pub const DATABENTO_SENTINEL: i64 = i64::MAX;

/// The feed quotes fixed-point prices in units of 1e-9; dividing by this
/// takes them to the internal unit of 1e-2.
pub const DATABENTO_PRICE_DIVISOR: Price = 10_000_000;

/// A real feed price scaled by the divisor, rounded toward zero as the
/// feed's integer arithmetic rounds.
pub open spec fn spec_scaled_price(p: int) -> int {
    if p >= 0 {
        p / (DATABENTO_PRICE_DIVISOR as int)
    } else {
        -((-p) / (DATABENTO_PRICE_DIVISOR as int))
    }
}

/// Scales a raw feed price by the divisor, rounding toward zero.
pub fn scale_price(p: i64) -> (r: Price)
    ensures
        r == spec_scaled_price(p as int),
{
    if p >= 0 {
        ((p as u64) / (DATABENTO_PRICE_DIVISOR as u64)) as i64
    } else {
        let mag: u64 = (-(p as i128)) as u64;
        let q: u64 = mag / (DATABENTO_PRICE_DIVISOR as u64);
        -(q as i64)
    }
}

/// Translates one feed price: the sentinel becomes the side's internal
/// sentinel, any other value is scaled by the divisor.
pub fn from_databento_to_price(side: Side, databento_price: &i64) -> (r: Price)
    requires
        *databento_price == DATABENTO_SENTINEL ==> side == SIDE_BID || side == SIDE_ASK,
    ensures
        *databento_price == DATABENTO_SENTINEL && side == SIDE_BID ==> r
            == INTERNAL_BID_SENTINEL,
        *databento_price == DATABENTO_SENTINEL && side == SIDE_ASK ==> r
            == INTERNAL_ASK_SENTINEL,
        *databento_price != DATABENTO_SENTINEL ==> r == spec_scaled_price(
            *databento_price as int,
        ),
{
    let p = *databento_price;
    if p == DATABENTO_SENTINEL {
        if side == SIDE_BID {
            INTERNAL_BID_SENTINEL
        } else {
            INTERNAL_ASK_SENTINEL
        }
    } else {
        scale_price(p)
    }
}

} // verus!
