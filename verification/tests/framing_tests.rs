use tickwire::codec::WireRecord;
use tickwire::framing::{frame_records, FramingError, RecordFramer};
use tickwire::model::{
    BookSnapshot, TickData, ACTION_ADD, ACTION_TRADE, BOOK_SNAPSHOT_SIZE, SIDE_ASK, SIDE_BID,
    TICK_DATA_SIZE,
};

fn tick(sequence: u32) -> TickData {
    TickData {
        timestamp: 1_000 + sequence as u64,
        price: 50 * sequence as i64,
        order_id: 7_000 + sequence as u64,
        sequence,
        size: sequence,
        instrument_id: 7,
        side: if sequence % 2 == 0 { SIDE_BID } else { SIDE_ASK },
        action: if sequence % 2 == 0 { ACTION_ADD } else { ACTION_TRADE },
    }
}

fn stream_of(ticks: &[TickData]) -> Vec<u8> {
    let mut out = Vec::new();
    for t in ticks {
        out.extend_from_slice(&t.encode());
    }
    out
}

#[test]
fn three_whole_records_then_clean_end() {
    let ticks = [tick(0), tick(1), tick(2)];
    let stream = stream_of(&ticks);
    let records = frame_records::<TickData>(&stream).expect("boundary end is clean");
    assert_eq!(records.len(), 3);
    assert_eq!(records[0], ticks[0]);
    assert_eq!(records[1], ticks[1]);
    assert_eq!(records[2], ticks[2]);
}

#[test]
fn empty_stream_is_a_clean_end_with_no_records() {
    let records = frame_records::<TickData>(&[]).expect("empty stream ends on a boundary");
    assert_eq!(records.len(), 0);
}

#[test]
fn mid_record_end_is_an_error_not_a_truncated_record() {
    let ticks = [tick(0), tick(1)];
    let mut stream = stream_of(&ticks);
    // two whole records plus 10 bytes of a third
    stream.extend_from_slice(&tick(2).encode()[..10]);
    let err = frame_records::<TickData>(&stream).expect_err("mid-record end must surface");
    assert_eq!(
        err,
        FramingError::TruncatedRecord { trailing_bytes: 10, wire_width: TICK_DATA_SIZE }
    );
}

#[test]
fn one_byte_short_is_an_error() {
    let stream = &tick(0).encode()[..TICK_DATA_SIZE - 1];
    let err = frame_records::<TickData>(stream).expect_err("63 bytes is not a record");
    assert_eq!(
        err,
        FramingError::TruncatedRecord {
            trailing_bytes: TICK_DATA_SIZE - 1,
            wire_width: TICK_DATA_SIZE
        }
    );
}

#[test]
fn framer_reassembles_records_across_chunks() {
    let ticks = [tick(0), tick(1), tick(2)];
    let stream = stream_of(&ticks);
    let mut framer = RecordFramer::new();
    let mut seen: Vec<TickData> = Vec::new();
    // feed in awkward 7-byte chunks
    for chunk in stream.chunks(7) {
        framer.push_chunk(chunk);
        while let Some(t) = framer.try_next::<TickData>() {
            seen.push(t);
        }
    }
    assert_eq!(seen.len(), 3);
    assert_eq!(seen, ticks.to_vec());
    assert!(framer.finish::<TickData>().is_ok());
}

#[test]
fn framer_reports_trailing_bytes_at_end_of_stream() {
    let mut framer = RecordFramer::new();
    framer.push_chunk(&tick(0).encode());
    framer.push_chunk(&[1, 2, 3]);
    assert!(framer.try_next::<TickData>().is_some());
    assert!(framer.try_next::<TickData>().is_none());
    let err = framer.finish::<TickData>().expect_err("three bytes pending");
    assert_eq!(
        err,
        FramingError::TruncatedRecord { trailing_bytes: 3, wire_width: TICK_DATA_SIZE }
    );
}

#[test]
fn snapshot_streams_frame_too() {
    let a = BookSnapshot {
        timestamp: 1,
        best_bid_price: [5; 10],
        best_bid_volume: [6; 10],
        best_bid_quantity: [7; 10],
        best_ask_price: [8; 10],
        best_ask_volume: [9; 10],
        best_ask_quantity: [10; 10],
    };
    let mut b = a;
    b.timestamp = 2;
    b.best_ask_price[0] = 11;
    let mut stream = Vec::new();
    stream.extend_from_slice(&a.encode());
    stream.extend_from_slice(&b.encode());
    let records = frame_records::<BookSnapshot>(&stream).expect("two whole snapshots");
    assert_eq!(records, vec![a, b]);
    stream.push(0);
    let err = frame_records::<BookSnapshot>(&stream).expect_err("one byte over");
    assert_eq!(
        err,
        FramingError::TruncatedRecord { trailing_bytes: 1, wire_width: BOOK_SNAPSHOT_SIZE }
    );
}
