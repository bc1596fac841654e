use tickwire::databento::{
    from_databento_to_price, scale_price, DATABENTO_PRICE_DIVISOR, DATABENTO_SENTINEL,
    INTERNAL_ASK_SENTINEL, INTERNAL_BID_SENTINEL,
};
use tickwire::mbo::{
    convert_mbo_rows, convert_rows, DatabentoMboCsvRow, FromDatabentoRow, FromMboRow,
    RowConversionError,
};
use tickwire::mbp10::{convert_mbp10_rows, DatabentoMbp10CsvRow, FromMbp10Row};
use tickwire::model::{
    BookSnapshot, TickData, ACTION_ADD, ACTION_CANCEL, SIDE_ASK, SIDE_BID, SIDE_NONE,
};
use tickwire::parse_char::{parse_action, parse_side, CharParseError};

fn mbo_row(action: &str, side: &str, price: i64, sequence: u32) -> DatabentoMboCsvRow {
    DatabentoMboCsvRow {
        ts_recv: 2_000,
        ts_event: 1_000 + sequence as u64,
        rtype: 160,
        publisher_id: 1,
        instrument_id: 7,
        action: action.to_string(),
        side: side.to_string(),
        price,
        size: 5,
        channel_id: 0,
        order_id: 900 + sequence as u64,
        flags: 0,
        ts_in_delta: -3,
        sequence,
    }
}

fn mbp_row(bids: [i64; 10], asks: [i64; 10]) -> DatabentoMbp10CsvRow {
    DatabentoMbp10CsvRow {
        ts_recv: 2_000,
        ts_event: 1_234,
        rtype: 10,
        publisher_id: 1,
        instrument_id: 7,
        action: "A".to_string(),
        side: "B".to_string(),
        depth: 0,
        price: 100 * DATABENTO_PRICE_DIVISOR,
        size: 5,
        flags: 0,
        ts_in_delta: -3,
        sequence: 77,
        bid_px_00: bids[0],
        bid_px_01: bids[1],
        bid_px_02: bids[2],
        bid_px_03: bids[3],
        bid_px_04: bids[4],
        bid_px_05: bids[5],
        bid_px_06: bids[6],
        bid_px_07: bids[7],
        bid_px_08: bids[8],
        bid_px_09: bids[9],
        ask_px_00: asks[0],
        ask_px_01: asks[1],
        ask_px_02: asks[2],
        ask_px_03: asks[3],
        ask_px_04: asks[4],
        ask_px_05: asks[5],
        ask_px_06: asks[6],
        ask_px_07: asks[7],
        ask_px_08: asks[8],
        ask_px_09: asks[9],
        bid_sz_00: 10,
        bid_sz_01: 11,
        bid_sz_02: 12,
        bid_sz_03: 13,
        bid_sz_04: 14,
        bid_sz_05: 15,
        bid_sz_06: 16,
        bid_sz_07: 17,
        bid_sz_08: 18,
        bid_sz_09: 19,
        ask_sz_00: 30,
        ask_sz_01: 31,
        ask_sz_02: 32,
        ask_sz_03: 33,
        ask_sz_04: 34,
        ask_sz_05: 35,
        ask_sz_06: 36,
        ask_sz_07: 37,
        ask_sz_08: 38,
        ask_sz_09: 39,
        bid_ct_00: 1,
        bid_ct_01: 2,
        bid_ct_02: 3,
        bid_ct_03: 4,
        bid_ct_04: 5,
        bid_ct_05: 6,
        bid_ct_06: 7,
        bid_ct_07: 8,
        bid_ct_08: 9,
        bid_ct_09: 10,
        ask_ct_00: 2,
        ask_ct_01: 3,
        ask_ct_02: 4,
        ask_ct_03: 5,
        ask_ct_04: 6,
        ask_ct_05: 7,
        ask_ct_06: 8,
        ask_ct_07: 9,
        ask_ct_08: 10,
        ask_ct_09: 11,
    }
}

#[test]
fn sentinel_converts_to_minimum_on_bid_side() {
    let p = from_databento_to_price(SIDE_BID, &DATABENTO_SENTINEL);
    assert_eq!(p, INTERNAL_BID_SENTINEL);
    assert_eq!(p, i64::MIN);
}

#[test]
fn sentinel_converts_to_maximum_on_ask_side() {
    let p = from_databento_to_price(SIDE_ASK, &DATABENTO_SENTINEL);
    assert_eq!(p, INTERNAL_ASK_SENTINEL);
    assert_eq!(p, i64::MAX);
}

#[test]
fn real_prices_are_scaled_by_the_divisor() {
    assert_eq!(from_databento_to_price(SIDE_BID, &50_000_000), 5);
    assert_eq!(from_databento_to_price(SIDE_ASK, &50_000_000), 5);
    assert_eq!(from_databento_to_price(SIDE_BID, &49_999_999), 4);
    assert_eq!(from_databento_to_price(SIDE_ASK, &-25_000_000), -2);
    // rounding is toward zero, as the feed's integer arithmetic rounds
    assert_eq!(from_databento_to_price(SIDE_BID, &-19_999_999), -1);
    assert_eq!(from_databento_to_price(SIDE_NONE, &0), 0);
    assert_eq!(scale_price(4_521_500_000_000), 452_150);
}

#[test]
fn parse_action_accepts_the_alphabet() {
    for (c, b) in [("A", b'A'), ("C", b'C'), ("M", b'M'), ("R", b'R'), ("T", b'T'), ("F", b'F'), ("N", b'N')] {
        let got: u8 = parse_action(c).expect("alphabet character");
        assert_eq!(got, b);
    }
}

#[test]
fn parse_action_rejects_out_of_alphabet_and_long_fields() {
    let err = parse_action::<u8>("X").expect_err("X is no action");
    assert_eq!(err, CharParseError::InvalidChar { got: 'X' });
    let err = parse_action::<u8>("AC").expect_err("two characters");
    assert_eq!(err, CharParseError::NotSingleChar { len: 2 });
    let err = parse_action::<u8>("").expect_err("empty");
    assert_eq!(err, CharParseError::NotSingleChar { len: 0 });
}

#[test]
fn parse_side_accepts_and_rejects() {
    let got: u8 = parse_side("B").expect("bid");
    assert_eq!(got, b'B');
    let err = parse_side::<u8>("C").expect_err("C is an action, not a side");
    assert_eq!(err, CharParseError::InvalidChar { got: 'C' });
}

#[test]
fn from_row_keeps_raw_price_and_maps_fields() {
    let row = mbo_row("M", "A", 123_456_789, 3);
    let t: TickData = TickData::from_row(&row).expect("valid codes");
    assert_eq!(t.timestamp, row.ts_event);
    assert_eq!(t.price, 123_456_789);
    assert_eq!(t.order_id, row.order_id);
    assert_eq!(t.sequence, 3);
    assert_eq!(t.size, row.size);
    assert_eq!(t.instrument_id, 7);
    assert_eq!(t.side, b'A');
    assert_eq!(t.action, b'M');
}

#[test]
fn from_row_rejects_bad_codes() {
    let row = mbo_row("Z", "B", 1, 0);
    let err = TickData::from_row(&row).expect_err("Z is no action");
    assert_eq!(
        err,
        RowConversionError::InvalidAction { err: CharParseError::InvalidChar { got: 'Z' } }
    );
    let row = mbo_row("A", "BB", 1, 0);
    let err = TickData::from_row(&row).expect_err("side too long");
    assert_eq!(
        err,
        RowConversionError::InvalidSide { err: CharParseError::NotSingleChar { len: 2 } }
    );
}

#[test]
fn from_mbo_csv_scales_price_and_filters() {
    let row = mbo_row("A", "B", 50_000_000, 1);
    let t: Option<TickData> = TickData::from_mbo_csv(&row).expect("add row converts");
    let t = t.expect("add rows are kept");
    assert_eq!(t.price, 5);
    assert_eq!(t.action, ACTION_ADD);
    assert_eq!(t.side, SIDE_BID);

    let dropped: Option<TickData> =
        TickData::from_mbo_csv(&mbo_row("M", "B", 1, 2)).expect("modify rows are no error");
    assert!(dropped.is_none());

    let err = TickData::from_mbo_csv(&mbo_row("C", "Q", 1, 3)).map(|_: Option<TickData>| ());
    assert_eq!(
        err.expect_err("bad side on a kept row"),
        RowConversionError::InvalidSide { err: CharParseError::InvalidChar { got: 'Q' } }
    );
}

#[test]
fn csv_filtering_keeps_add_and_cancel_rows_in_input_order() {
    let rows = vec![
        mbo_row("A", "B", 10_000_000, 1),
        mbo_row("C", "A", 20_000_000, 2),
        mbo_row("M", "B", 30_000_000, 3),
        mbo_row("T", "A", 40_000_000, 4),
    ];
    let records: Vec<TickData> = convert_mbo_rows(&rows).expect("all rows convert or drop");
    assert_eq!(records.len(), 2);
    assert_eq!(records[0].sequence, 1);
    assert_eq!(records[0].action, ACTION_ADD);
    assert_eq!(records[0].price, 1);
    assert_eq!(records[1].sequence, 2);
    assert_eq!(records[1].action, ACTION_CANCEL);
    assert_eq!(records[1].price, 2);
}

#[test]
fn convert_rows_stops_at_first_bad_row_and_names_its_line() {
    let rows = vec![
        mbo_row("A", "B", 1, 1),
        mbo_row("X", "B", 2, 2),
        mbo_row("A", "B", 3, 3),
    ];
    let err = convert_rows::<TickData>(&rows).expect_err("line 1 is bad");
    assert_eq!(err.line, 1);
    assert_eq!(
        err.err,
        RowConversionError::InvalidAction { err: CharParseError::InvalidChar { got: 'X' } }
    );

    let ok_rows = vec![mbo_row("A", "B", 1, 1), mbo_row("T", "N", 2, 2)];
    let records: Vec<TickData> = convert_rows(&ok_rows).expect("all codes valid");
    assert_eq!(records.len(), 2);
    assert_eq!(records[1].price, 2);
}

#[test]
fn mbp10_row_converts_with_per_side_sentinels() {
    let mut bids = [0i64; 10];
    let mut asks = [0i64; 10];
    for i in 0..10 {
        bids[i] = (100 - i as i64) * DATABENTO_PRICE_DIVISOR;
        asks[i] = (101 + i as i64) * DATABENTO_PRICE_DIVISOR;
    }
    bids[9] = DATABENTO_SENTINEL;
    asks[9] = DATABENTO_SENTINEL;
    let row = mbp_row(bids, asks);
    let s: BookSnapshot = BookSnapshot::from_mbp10_csv(&row).expect("rows always convert");
    assert_eq!(s.timestamp, 1_234);
    assert_eq!(s.best_bid_price[0], 100);
    assert_eq!(s.best_bid_price[8], 92);
    assert_eq!(s.best_bid_price[9], INTERNAL_BID_SENTINEL);
    assert_eq!(s.best_ask_price[0], 101);
    assert_eq!(s.best_ask_price[9], INTERNAL_ASK_SENTINEL);
    assert_eq!(s.best_bid_volume, [10, 11, 12, 13, 14, 15, 16, 17, 18, 19]);
    assert_eq!(s.best_ask_volume, [30, 31, 32, 33, 34, 35, 36, 37, 38, 39]);
    assert_eq!(s.best_bid_quantity, [1, 2, 3, 4, 5, 6, 7, 8, 9, 10]);
    assert_eq!(s.best_ask_quantity, [2, 3, 4, 5, 6, 7, 8, 9, 10, 11]);
}

#[test]
fn convert_mbp10_rows_converts_each_row_in_order() {
    let row_a = mbp_row([DATABENTO_SENTINEL; 10], [DATABENTO_SENTINEL; 10]);
    let mut bids = [10_000_000i64; 10];
    bids[0] = 20_000_000;
    let row_b = mbp_row(bids, [30_000_000i64; 10]);
    let snaps: Vec<BookSnapshot> = convert_mbp10_rows(&vec![row_a, row_b]).expect("infallible");
    assert_eq!(snaps.len(), 2);
    assert_eq!(snaps[0].best_bid_price[0], INTERNAL_BID_SENTINEL);
    assert_eq!(snaps[0].best_ask_price[0], INTERNAL_ASK_SENTINEL);
    assert_eq!(snaps[1].best_bid_price[0], 2);
    assert_eq!(snaps[1].best_ask_price[5], 3);
}

#[test]
fn scaling_handles_the_extreme_prices() {
    assert_eq!(scale_price(i64::MIN), -922_337_203_685);
    assert_eq!(scale_price(i64::MAX - 1), 922_337_203_685);
    assert_eq!(scale_price(0), 0);
    assert_eq!(scale_price(9_999_999), 0);
    assert_eq!(scale_price(-9_999_999), 0);
}
