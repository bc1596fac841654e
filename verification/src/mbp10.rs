//! Conversion of decoded market-by-price feed rows into book snapshots.
//!
//! A row is the typed form of one line of the feed's ten-level book schema:
//! ten bid and ten ask levels, best first, each with price, volume and order
//! count. Prices go through the sentinel-aware translation once, here at
//! ingestion.

use vstd::prelude::*;

use crate::databento::{
    from_databento_to_price, spec_scaled_price, DATABENTO_SENTINEL, INTERNAL_ASK_SENTINEL,
    INTERNAL_BID_SENTINEL,
};
use crate::mbo::{LoadError, RowConversionError};
use crate::model::{BookSnapshot, SIDE_ASK, SIDE_BID};

verus! {

broadcast use vstd::array::group_array_axioms;

/// One decoded row of the feed's ten-level market-by-price schema.
#[derive(Debug)]
pub struct DatabentoMbp10CsvRow {
    pub ts_recv: u64,
    pub ts_event: u64,
    pub rtype: u8,
    pub publisher_id: u16,
    pub instrument_id: u32,
    pub action: String,
    pub side: String,
    pub depth: u8,
    pub price: i64,
    pub size: u32,
    pub flags: u8,
    pub ts_in_delta: i32,
    pub sequence: u32,
    pub bid_px_00: i64,
    pub bid_px_01: i64,
    pub bid_px_02: i64,
    pub bid_px_03: i64,
    pub bid_px_04: i64,
    pub bid_px_05: i64,
    pub bid_px_06: i64,
    pub bid_px_07: i64,
    pub bid_px_08: i64,
    pub bid_px_09: i64,
    pub ask_px_00: i64,
    pub ask_px_01: i64,
    pub ask_px_02: i64,
    pub ask_px_03: i64,
    pub ask_px_04: i64,
    pub ask_px_05: i64,
    pub ask_px_06: i64,
    pub ask_px_07: i64,
    pub ask_px_08: i64,
    pub ask_px_09: i64,
    pub bid_sz_00: u32,
    pub bid_sz_01: u32,
    pub bid_sz_02: u32,
    pub bid_sz_03: u32,
    pub bid_sz_04: u32,
    pub bid_sz_05: u32,
    pub bid_sz_06: u32,
    pub bid_sz_07: u32,
    pub bid_sz_08: u32,
    pub bid_sz_09: u32,
    pub ask_sz_00: u32,
    pub ask_sz_01: u32,
    pub ask_sz_02: u32,
    pub ask_sz_03: u32,
    pub ask_sz_04: u32,
    pub ask_sz_05: u32,
    pub ask_sz_06: u32,
    pub ask_sz_07: u32,
    pub ask_sz_08: u32,
    pub ask_sz_09: u32,
    pub bid_ct_00: u32,
    pub bid_ct_01: u32,
    pub bid_ct_02: u32,
    pub bid_ct_03: u32,
    pub bid_ct_04: u32,
    pub bid_ct_05: u32,
    pub bid_ct_06: u32,
    pub bid_ct_07: u32,
    pub bid_ct_08: u32,
    pub bid_ct_09: u32,
    pub ask_ct_00: u32,
    pub ask_ct_01: u32,
    pub ask_ct_02: u32,
    pub ask_ct_03: u32,
    pub ask_ct_04: u32,
    pub ask_ct_05: u32,
    pub ask_ct_06: u32,
    pub ask_ct_07: u32,
    pub ask_ct_08: u32,
    pub ask_ct_09: u32,
}

/// A record type a ten-level row converts into.
pub trait FromMbp10Row: Sized {
    spec fn spec_from_mbp10_csv(row: DatabentoMbp10CsvRow) -> Result<Self, RowConversionError>;

    fn from_mbp10_csv(row: &DatabentoMbp10CsvRow) -> (r: Result<Self, RowConversionError>)
        ensures
            r == Self::spec_from_mbp10_csv(*row),
    ;
}

/// A bid-side feed price after ingestion translation.
pub open spec fn spec_bid_price(p: i64) -> i64 {
    if p == DATABENTO_SENTINEL {
        INTERNAL_BID_SENTINEL
    } else {
        spec_scaled_price(p as int) as i64
    }
}

/// An ask-side feed price after ingestion translation.
pub open spec fn spec_ask_price(p: i64) -> i64 {
    if p == DATABENTO_SENTINEL {
        INTERNAL_ASK_SENTINEL
    } else {
        spec_scaled_price(p as int) as i64
    }
}

/// Field-by-field reading of a snapshot out of a ten-level row; exactly one
/// snapshot matches any given row.
pub open spec fn mbp10_snapshot_matches(s: BookSnapshot, row: DatabentoMbp10CsvRow) -> bool {
    &&& s.timestamp == row.ts_event
    &&& s.best_bid_price@ == seq![
        spec_bid_price(row.bid_px_00),
        spec_bid_price(row.bid_px_01),
        spec_bid_price(row.bid_px_02),
        spec_bid_price(row.bid_px_03),
        spec_bid_price(row.bid_px_04),
        spec_bid_price(row.bid_px_05),
        spec_bid_price(row.bid_px_06),
        spec_bid_price(row.bid_px_07),
        spec_bid_price(row.bid_px_08),
        spec_bid_price(row.bid_px_09),
    ]
    &&& s.best_bid_volume@ == seq![
        row.bid_sz_00,
        row.bid_sz_01,
        row.bid_sz_02,
        row.bid_sz_03,
        row.bid_sz_04,
        row.bid_sz_05,
        row.bid_sz_06,
        row.bid_sz_07,
        row.bid_sz_08,
        row.bid_sz_09,
    ]
    &&& s.best_bid_quantity@ == seq![
        row.bid_ct_00,
        row.bid_ct_01,
        row.bid_ct_02,
        row.bid_ct_03,
        row.bid_ct_04,
        row.bid_ct_05,
        row.bid_ct_06,
        row.bid_ct_07,
        row.bid_ct_08,
        row.bid_ct_09,
    ]
    &&& s.best_ask_price@ == seq![
        spec_ask_price(row.ask_px_00),
        spec_ask_price(row.ask_px_01),
        spec_ask_price(row.ask_px_02),
        spec_ask_price(row.ask_px_03),
        spec_ask_price(row.ask_px_04),
        spec_ask_price(row.ask_px_05),
        spec_ask_price(row.ask_px_06),
        spec_ask_price(row.ask_px_07),
        spec_ask_price(row.ask_px_08),
        spec_ask_price(row.ask_px_09),
    ]
    &&& s.best_ask_volume@ == seq![
        row.ask_sz_00,
        row.ask_sz_01,
        row.ask_sz_02,
        row.ask_sz_03,
        row.ask_sz_04,
        row.ask_sz_05,
        row.ask_sz_06,
        row.ask_sz_07,
        row.ask_sz_08,
        row.ask_sz_09,
    ]
    &&& s.best_ask_quantity@ == seq![
        row.ask_ct_00,
        row.ask_ct_01,
        row.ask_ct_02,
        row.ask_ct_03,
        row.ask_ct_04,
        row.ask_ct_05,
        row.ask_ct_06,
        row.ask_ct_07,
        row.ask_ct_08,
        row.ask_ct_09,
    ]
}

pub proof fn lemma_mbp10_snapshot_matches_unique(
    s1: BookSnapshot,
    s2: BookSnapshot,
    row: DatabentoMbp10CsvRow,
)
    requires
        mbp10_snapshot_matches(s1, row),
        mbp10_snapshot_matches(s2, row),
    ensures
        s1 == s2,
{
    assert(s1.best_bid_price =~= s2.best_bid_price);
    assert(s1.best_bid_volume =~= s2.best_bid_volume);
    assert(s1.best_bid_quantity =~= s2.best_bid_quantity);
    assert(s1.best_ask_price =~= s2.best_ask_price);
    assert(s1.best_ask_volume =~= s2.best_ask_volume);
    assert(s1.best_ask_quantity =~= s2.best_ask_quantity);
}

/// The snapshot a ten-level row converts into.
pub open spec fn spec_snapshot_from_mbp10(row: DatabentoMbp10CsvRow) -> BookSnapshot {
    choose|s: BookSnapshot| mbp10_snapshot_matches(s, row)
}

impl FromMbp10Row for BookSnapshot {
    open spec fn spec_from_mbp10_csv(row: DatabentoMbp10CsvRow) -> Result<
        Self,
        RowConversionError,
    > {
        Ok(spec_snapshot_from_mbp10(row))
    }

    #[verifier::rlimit(100)]
    #[verifier::spinoff_prover]
    fn from_mbp10_csv(row: &DatabentoMbp10CsvRow) -> (r: Result<Self, RowConversionError>) {
        let mut best_bid_price: [i64; 10] = [0i64; 10];
        best_bid_price[0] = from_databento_to_price(SIDE_BID, &row.bid_px_00);
        best_bid_price[1] = from_databento_to_price(SIDE_BID, &row.bid_px_01);
        best_bid_price[2] = from_databento_to_price(SIDE_BID, &row.bid_px_02);
        best_bid_price[3] = from_databento_to_price(SIDE_BID, &row.bid_px_03);
        best_bid_price[4] = from_databento_to_price(SIDE_BID, &row.bid_px_04);
        best_bid_price[5] = from_databento_to_price(SIDE_BID, &row.bid_px_05);
        best_bid_price[6] = from_databento_to_price(SIDE_BID, &row.bid_px_06);
        best_bid_price[7] = from_databento_to_price(SIDE_BID, &row.bid_px_07);
        best_bid_price[8] = from_databento_to_price(SIDE_BID, &row.bid_px_08);
        best_bid_price[9] = from_databento_to_price(SIDE_BID, &row.bid_px_09);
        let mut best_bid_volume: [u32; 10] = [0u32; 10];
        best_bid_volume[0] = row.bid_sz_00;
        best_bid_volume[1] = row.bid_sz_01;
        best_bid_volume[2] = row.bid_sz_02;
        best_bid_volume[3] = row.bid_sz_03;
        best_bid_volume[4] = row.bid_sz_04;
        best_bid_volume[5] = row.bid_sz_05;
        best_bid_volume[6] = row.bid_sz_06;
        best_bid_volume[7] = row.bid_sz_07;
        best_bid_volume[8] = row.bid_sz_08;
        best_bid_volume[9] = row.bid_sz_09;
        let mut best_bid_quantity: [u32; 10] = [0u32; 10];
        best_bid_quantity[0] = row.bid_ct_00;
        best_bid_quantity[1] = row.bid_ct_01;
        best_bid_quantity[2] = row.bid_ct_02;
        best_bid_quantity[3] = row.bid_ct_03;
        best_bid_quantity[4] = row.bid_ct_04;
        best_bid_quantity[5] = row.bid_ct_05;
        best_bid_quantity[6] = row.bid_ct_06;
        best_bid_quantity[7] = row.bid_ct_07;
        best_bid_quantity[8] = row.bid_ct_08;
        best_bid_quantity[9] = row.bid_ct_09;
        let mut best_ask_price: [i64; 10] = [0i64; 10];
        best_ask_price[0] = from_databento_to_price(SIDE_ASK, &row.ask_px_00);
        best_ask_price[1] = from_databento_to_price(SIDE_ASK, &row.ask_px_01);
        best_ask_price[2] = from_databento_to_price(SIDE_ASK, &row.ask_px_02);
        best_ask_price[3] = from_databento_to_price(SIDE_ASK, &row.ask_px_03);
        best_ask_price[4] = from_databento_to_price(SIDE_ASK, &row.ask_px_04);
        best_ask_price[5] = from_databento_to_price(SIDE_ASK, &row.ask_px_05);
        best_ask_price[6] = from_databento_to_price(SIDE_ASK, &row.ask_px_06);
        best_ask_price[7] = from_databento_to_price(SIDE_ASK, &row.ask_px_07);
        best_ask_price[8] = from_databento_to_price(SIDE_ASK, &row.ask_px_08);
        best_ask_price[9] = from_databento_to_price(SIDE_ASK, &row.ask_px_09);
        let mut best_ask_volume: [u32; 10] = [0u32; 10];
        best_ask_volume[0] = row.ask_sz_00;
        best_ask_volume[1] = row.ask_sz_01;
        best_ask_volume[2] = row.ask_sz_02;
        best_ask_volume[3] = row.ask_sz_03;
        best_ask_volume[4] = row.ask_sz_04;
        best_ask_volume[5] = row.ask_sz_05;
        best_ask_volume[6] = row.ask_sz_06;
        best_ask_volume[7] = row.ask_sz_07;
        best_ask_volume[8] = row.ask_sz_08;
        best_ask_volume[9] = row.ask_sz_09;
        let mut best_ask_quantity: [u32; 10] = [0u32; 10];
        best_ask_quantity[0] = row.ask_ct_00;
        best_ask_quantity[1] = row.ask_ct_01;
        best_ask_quantity[2] = row.ask_ct_02;
        best_ask_quantity[3] = row.ask_ct_03;
        best_ask_quantity[4] = row.ask_ct_04;
        best_ask_quantity[5] = row.ask_ct_05;
        best_ask_quantity[6] = row.ask_ct_06;
        best_ask_quantity[7] = row.ask_ct_07;
        best_ask_quantity[8] = row.ask_ct_08;
        best_ask_quantity[9] = row.ask_ct_09;
        let s = BookSnapshot {
            timestamp: row.ts_event,
            best_bid_price,
            best_bid_volume,
            best_bid_quantity,
            best_ask_price,
            best_ask_volume,
            best_ask_quantity,
        };
        proof {
            assert(s.best_bid_price@ =~= seq![
                spec_bid_price(row.bid_px_00),
                spec_bid_price(row.bid_px_01),
                spec_bid_price(row.bid_px_02),
                spec_bid_price(row.bid_px_03),
                spec_bid_price(row.bid_px_04),
                spec_bid_price(row.bid_px_05),
                spec_bid_price(row.bid_px_06),
                spec_bid_price(row.bid_px_07),
                spec_bid_price(row.bid_px_08),
                spec_bid_price(row.bid_px_09),
            ]);
            assert(s.best_bid_volume@ =~= seq![
                row.bid_sz_00,
                row.bid_sz_01,
                row.bid_sz_02,
                row.bid_sz_03,
                row.bid_sz_04,
                row.bid_sz_05,
                row.bid_sz_06,
                row.bid_sz_07,
                row.bid_sz_08,
                row.bid_sz_09,
            ]);
            assert(s.best_bid_quantity@ =~= seq![
                row.bid_ct_00,
                row.bid_ct_01,
                row.bid_ct_02,
                row.bid_ct_03,
                row.bid_ct_04,
                row.bid_ct_05,
                row.bid_ct_06,
                row.bid_ct_07,
                row.bid_ct_08,
                row.bid_ct_09,
            ]);
            assert(s.best_ask_price@ =~= seq![
                spec_ask_price(row.ask_px_00),
                spec_ask_price(row.ask_px_01),
                spec_ask_price(row.ask_px_02),
                spec_ask_price(row.ask_px_03),
                spec_ask_price(row.ask_px_04),
                spec_ask_price(row.ask_px_05),
                spec_ask_price(row.ask_px_06),
                spec_ask_price(row.ask_px_07),
                spec_ask_price(row.ask_px_08),
                spec_ask_price(row.ask_px_09),
            ]);
            assert(s.best_ask_volume@ =~= seq![
                row.ask_sz_00,
                row.ask_sz_01,
                row.ask_sz_02,
                row.ask_sz_03,
                row.ask_sz_04,
                row.ask_sz_05,
                row.ask_sz_06,
                row.ask_sz_07,
                row.ask_sz_08,
                row.ask_sz_09,
            ]);
            assert(s.best_ask_quantity@ =~= seq![
                row.ask_ct_00,
                row.ask_ct_01,
                row.ask_ct_02,
                row.ask_ct_03,
                row.ask_ct_04,
                row.ask_ct_05,
                row.ask_ct_06,
                row.ask_ct_07,
                row.ask_ct_08,
                row.ask_ct_09,
            ]);
            assert(mbp10_snapshot_matches(s, *row));
            assert(exists|x: BookSnapshot| mbp10_snapshot_matches(x, *row)) by {
                assert(mbp10_snapshot_matches(s, *row));
            }
            lemma_mbp10_snapshot_matches_unique(s, spec_snapshot_from_mbp10(*row), *row);
        }
        Ok(s)
    }
}

/// Every ten-level row of the run converts without error.
pub open spec fn spec_all_mbp10_rows_convert<T: FromMbp10Row>(
    rows: Seq<DatabentoMbp10CsvRow>,
) -> bool {
    forall|i: int| 0 <= i < rows.len() ==> (#[trigger] T::spec_from_mbp10_csv(rows[i])) is Ok
}

/// Converts a run of ten-level rows in order, one record per row, stopping
/// at the first row that does not convert and naming its line.
pub fn convert_mbp10_rows<T: FromMbp10Row>(rows: &Vec<DatabentoMbp10CsvRow>) -> (r: Result<
    Vec<T>,
    LoadError,
>)
    ensures
        r is Ok <==> spec_all_mbp10_rows_convert::<T>(rows@),
        r matches Ok(v) ==> {
            &&& v@.len() == rows@.len()
            &&& forall|i: int|
                0 <= i < rows@.len() ==> Ok::<T, RowConversionError>(v@[i])
                    == #[trigger] T::spec_from_mbp10_csv(rows@[i])
        },
        r matches Err(e) ==> {
            &&& e.line < rows@.len()
            &&& T::spec_from_mbp10_csv(rows@[e.line as int]) == Err::<T, RowConversionError>(e.err)
            &&& forall|j: int|
                0 <= j < e.line ==> (#[trigger] T::spec_from_mbp10_csv(rows@[j])) is Ok
        },
{
    let mut out: Vec<T> = Vec::new();
    let n = rows.len();
    let mut i: usize = 0;
    while i < n
        invariant
            i <= n == rows@.len(),
            out@.len() == i,
            forall|j: int|
                0 <= j < i ==> Ok::<T, RowConversionError>(out@[j])
                    == #[trigger] T::spec_from_mbp10_csv(rows@[j]),
        decreases n - i,
    {
        match T::from_mbp10_csv(&rows[i]) {
            Ok(t) => {
                out.push(t);
            },
            Err(e) => {
                return Err(LoadError { line: i, err: e });
            },
        }
        i = i + 1;
    }
    Ok(out)
}

} // verus!
