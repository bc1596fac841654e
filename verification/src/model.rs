//! The record types that move over the wire, and the scalar aliases and
//! tag constants their fields use.

use vstd::prelude::*;

verus! {

pub type Timestamp = u64;

pub type Price = i64;

pub type Sequence = u32;

pub type Volume = u32;

pub type InstrumentId = u32;

pub type OrderId = u64;

pub type Quantity = u32;

/// Book side of an event, as a tagged byte; plain enums cannot keep a fixed
/// one-byte wire layout, so the tag is the byte itself.
pub type Side = u8;

pub const SIDE_NONE: Side = 78;

pub const SIDE_ASK: Side = 65;

pub const SIDE_BID: Side = 66;

/// Order-book action of an event, as a tagged byte.
pub type Action = u8;

pub const ACTION_NONE: Action = 78;

pub const ACTION_ADD: Action = 65;

pub const ACTION_MODIFY: Action = 77;

pub const ACTION_CANCEL: Action = 67;

pub const ACTION_CLEAR: Action = 82;

pub const ACTION_TRADE: Action = 84;

pub const ACTION_FILL: Action = 70;

/// Total wire width of one encoded [`TickData`], padding included; a whole
/// multiple of a 64-byte cache line.
pub const TICK_DATA_SIZE: usize = 64;

/// Depth kept on each side of a [`BookSnapshot`].
pub const BOOK_DEPTH: usize = 10;

/// Total wire width of one encoded [`BookSnapshot`], padding included; a
/// whole multiple of a 64-byte cache line.
pub const BOOK_SNAPSHOT_SIZE: usize = 384;

/// One order-book event. Immutable, fixed wire width [`TICK_DATA_SIZE`].
#[derive(Clone, Copy, Debug, PartialEq, Eq, Structural)]
pub struct TickData {
    pub timestamp: Timestamp,
    pub price: Price,
    pub order_id: OrderId,
    pub sequence: Sequence,
    pub size: Volume,
    pub instrument_id: InstrumentId,
    pub side: Side,
    pub action: Action,
}

/// The top [`BOOK_DEPTH`] price levels of each side at one point in time,
/// best first. Immutable, fixed wire width [`BOOK_SNAPSHOT_SIZE`].
#[derive(Clone, Copy, Debug, PartialEq, Eq)]
pub struct BookSnapshot {
    pub timestamp: Timestamp,
    pub best_bid_price: [Price; 10],
    pub best_bid_volume: [Volume; 10],
    pub best_bid_quantity: [Quantity; 10],
    pub best_ask_price: [Price; 10],
    pub best_ask_volume: [Volume; 10],
    pub best_ask_quantity: [Quantity; 10],
}

/// True when the two snapshots list the same levels on both sides; the
/// timestamps may differ.
pub open spec fn spec_same_book_state(a: BookSnapshot, b: BookSnapshot) -> bool {
    &&& a.best_bid_price@ == b.best_bid_price@
    &&& a.best_bid_volume@ == b.best_bid_volume@
    &&& a.best_bid_quantity@ == b.best_bid_quantity@
    &&& a.best_ask_price@ == b.best_ask_price@
    &&& a.best_ask_volume@ == b.best_ask_volume@
    &&& a.best_ask_quantity@ == b.best_ask_quantity@
}

fn eq_price_levels(a: &[Price; 10], b: &[Price; 10]) -> (r: bool)
    ensures
        r == (a@ == b@),
{
    let mut i: usize = 0;
    while i < 10
        invariant
            i <= 10,
            forall|j: int| 0 <= j < i ==> a@[j] == b@[j],
        decreases 10 - i,
    {
        if a[i] != b[i] {
            assert(a@[i as int] != b@[i as int]);
            assert(a@ != b@);
            return false;
        }
        i = i + 1;
    }
    assert(a@ =~= b@);
    true
}

fn eq_volume_levels(a: &[u32; 10], b: &[u32; 10]) -> (r: bool)
    ensures
        r == (a@ == b@),
{
    let mut i: usize = 0;
    while i < 10
        invariant
            i <= 10,
            forall|j: int| 0 <= j < i ==> a@[j] == b@[j],
        decreases 10 - i,
    {
        if a[i] != b[i] {
            assert(a@[i as int] != b@[i as int]);
            assert(a@ != b@);
            return false;
        }
        i = i + 1;
    }
    assert(a@ =~= b@);
    true
}

impl BookSnapshot {
    /// True when `self` and `other` list the same levels on both sides,
    /// whatever their timestamps.
    pub fn same_book_state(&self, other: &Self) -> (r: bool)
        ensures
            r == spec_same_book_state(*self, *other),
    {
        eq_price_levels(&self.best_bid_price, &other.best_bid_price)
            && eq_volume_levels(&self.best_bid_volume, &other.best_bid_volume)
            && eq_volume_levels(&self.best_bid_quantity, &other.best_bid_quantity)
            && eq_price_levels(&self.best_ask_price, &other.best_ask_price)
            && eq_volume_levels(&self.best_ask_volume, &other.best_ask_volume)
            && eq_volume_levels(&self.best_ask_quantity, &other.best_ask_quantity)
    }
}

} // verus!
