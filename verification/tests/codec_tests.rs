use tickwire::codec::WireRecord;
use tickwire::model::{
    BookSnapshot, TickData, ACTION_ADD, ACTION_CANCEL, BOOK_SNAPSHOT_SIZE, SIDE_ASK, SIDE_BID,
    SIDE_NONE, TICK_DATA_SIZE,
};

fn sample_tick() -> TickData {
    TickData {
        timestamp: 1_700_000_000_123_456_789,
        price: 4_521_500_000_000,
        order_id: 987_654_321,
        sequence: 42,
        size: 17,
        instrument_id: 7,
        side: SIDE_BID,
        action: ACTION_ADD,
    }
}

fn sample_snapshot() -> BookSnapshot {
    BookSnapshot {
        timestamp: 1_700_000_000_000_000_000,
        best_bid_price: [100, 99, 98, 97, 96, 95, 94, 93, 92, i64::MIN],
        best_bid_volume: [10, 9, 8, 7, 6, 5, 4, 3, 2, 0],
        best_bid_quantity: [1, 1, 2, 2, 3, 3, 4, 4, 5, 0],
        best_ask_price: [101, 102, 103, 104, 105, 106, 107, 108, 109, i64::MAX],
        best_ask_volume: [11, 12, 13, 14, 15, 16, 17, 18, 19, 0],
        best_ask_quantity: [2, 2, 3, 3, 4, 4, 5, 5, 6, 0],
    }
}

#[test]
fn tick_round_trip() {
    let t = sample_tick();
    let bytes = t.encode();
    assert_eq!(bytes.len(), TICK_DATA_SIZE);
    let back = TickData::decode(&bytes);
    assert_eq!(back, t);
}

#[test]
fn tick_round_trip_extremes() {
    let t = TickData {
        timestamp: u64::MAX,
        price: i64::MIN,
        order_id: u64::MAX,
        sequence: u32::MAX,
        size: 0,
        instrument_id: u32::MAX,
        side: SIDE_NONE,
        action: ACTION_CANCEL,
    };
    let bytes = t.encode();
    assert_eq!(bytes.len(), TICK_DATA_SIZE);
    assert_eq!(TickData::decode(&bytes), t);
}

#[test]
fn tick_wire_layout_is_little_endian_at_fixed_offsets() {
    let t = TickData {
        timestamp: 0x0102_0304_0506_0708,
        price: 0x1112_1314_1516_1718,
        order_id: 0x2122_2324_2526_2728,
        sequence: 0x3132_3334,
        size: 0x4142_4344,
        instrument_id: 0x5152_5354,
        side: SIDE_ASK,
        action: ACTION_ADD,
    };
    let b = t.encode();
    assert_eq!(&b[0..8], &[0x08, 0x07, 0x06, 0x05, 0x04, 0x03, 0x02, 0x01]);
    assert_eq!(&b[8..16], &[0x18, 0x17, 0x16, 0x15, 0x14, 0x13, 0x12, 0x11]);
    assert_eq!(&b[16..24], &[0x28, 0x27, 0x26, 0x25, 0x24, 0x23, 0x22, 0x21]);
    assert_eq!(&b[24..28], &[0x34, 0x33, 0x32, 0x31]);
    assert_eq!(&b[28..32], &[0x44, 0x43, 0x42, 0x41]);
    assert_eq!(&b[32..36], &[0x54, 0x53, 0x52, 0x51]);
    assert_eq!(b[36], SIDE_ASK);
    assert_eq!(b[37], ACTION_ADD);
    // Trailing padding is explicit zero bytes up to the declared width.
    assert!(b[38..64].iter().all(|&x| x == 0));
}

#[test]
fn tick_wire_width_exec_matches_const() {
    assert_eq!(TickData::wire_width_exec(), TICK_DATA_SIZE);
    assert_eq!(BookSnapshot::wire_width_exec(), BOOK_SNAPSHOT_SIZE);
}

#[test]
fn snapshot_round_trip() {
    let s = sample_snapshot();
    let bytes = s.encode();
    assert_eq!(bytes.len(), BOOK_SNAPSHOT_SIZE);
    let back = BookSnapshot::decode(&bytes);
    assert_eq!(back, s);
}

#[test]
fn snapshot_layout_regions() {
    let s = sample_snapshot();
    let b = s.encode();
    // timestamp at 0, bid prices from 8, first bid price little-endian
    assert_eq!(&b[8..16], &100i64.to_le_bytes());
    // bid volumes from 88
    assert_eq!(&b[88..92], &10u32.to_le_bytes());
    // bid order counts from 128
    assert_eq!(&b[128..132], &1u32.to_le_bytes());
    // ask prices from 168
    assert_eq!(&b[168..176], &101i64.to_le_bytes());
    // ask volumes from 248
    assert_eq!(&b[248..252], &11u32.to_le_bytes());
    // ask order counts from 288
    assert_eq!(&b[288..292], &2u32.to_le_bytes());
    // trailing padding to the cache-line multiple
    assert!(b[328..384].iter().all(|&x| x == 0));
}

#[test]
fn same_book_state_ignores_timestamp() {
    let a = sample_snapshot();
    let mut b = a;
    b.timestamp = a.timestamp + 5;
    assert!(a.same_book_state(&b));
}

#[test]
fn same_book_state_sees_level_changes() {
    let a = sample_snapshot();
    let mut b = a;
    b.best_ask_volume[3] += 1;
    assert!(!a.same_book_state(&b));
    let mut c = a;
    c.best_bid_price[0] = 200;
    assert!(!a.same_book_state(&c));
}
