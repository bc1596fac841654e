//! Conversion of decoded market-by-order feed rows into tick records.
//!
//! A row is the typed form of one line of the feed's order-event schema.
//! Two conversions exist: a plain one that keeps every row and leaves the
//! price unscaled, and the loader's one that keeps add and cancel rows only
//! and scales the price into internal units.

use vstd::prelude::*;

use crate::databento::{scale_price, spec_scaled_price};
use crate::model::{Action, Side, TickData};
use crate::parse_char::{
    action_chars, parse_action, parse_side, side_chars, spec_parse_char, CharParseError,
};

verus! {

/// One decoded row of the feed's market-by-order schema.
#[derive(Debug)]
pub struct DatabentoMboCsvRow {
    pub ts_recv: u64,
    pub ts_event: u64,
    pub rtype: u8,
    pub publisher_id: u16,
    pub instrument_id: u32,
    pub action: String,
    pub side: String,
    pub price: i64,
    pub size: u32,
    pub channel_id: u8,
    pub order_id: u64,
    pub flags: u8,
    pub ts_in_delta: i32,
    pub sequence: u32,
}

/// Why a row could not be converted into a record.
#[derive(Clone, Copy, Debug, PartialEq, Eq, Structural)]
pub enum RowConversionError {
    InvalidAction { err: CharParseError },
    InvalidSide { err: CharParseError },
}

/// A record type a row converts into, keeping every row.
pub trait FromDatabentoRow: Sized {
    spec fn spec_from_row(row: DatabentoMboCsvRow) -> Result<Self, RowConversionError>;

    fn from_row(row: &DatabentoMboCsvRow) -> (r: Result<Self, RowConversionError>)
        ensures
            r == Self::spec_from_row(*row),
    ;
}

/// A record type a row converts into, where rows outside the loader's
/// action filter are dropped rather than converted.
pub trait FromMboRow: Sized {
    spec fn spec_from_mbo_csv(row: DatabentoMboCsvRow) -> Result<Option<Self>, RowConversionError>;

    fn from_mbo_csv(row: &DatabentoMboCsvRow) -> (r: Result<Option<Self>, RowConversionError>)
        ensures
            r == Self::spec_from_mbo_csv(*row),
    ;
}

/// The loader keeps a row exactly when its action code is add or cancel.
pub open spec fn spec_mbo_action_kept(action: Seq<char>) -> bool {
    action.len() == 1 && (action[0] == 'A' || action[0] == 'C')
}

/// The tick a plain row conversion yields: event time, raw unscaled price,
/// and the parsed side and action tags; rejected when either code field is
/// not one character of its alphabet.
pub open spec fn spec_tick_from_row(row: DatabentoMboCsvRow) -> Result<
    TickData,
    RowConversionError,
> {
    match spec_parse_char::<Action>(row.action@, action_chars()) {
        Err(e) => Err(RowConversionError::InvalidAction { err: e }),
        Ok(action) => match spec_parse_char::<Side>(row.side@, side_chars()) {
            Err(e) => Err(RowConversionError::InvalidSide { err: e }),
            Ok(side) => Ok(
                TickData {
                    timestamp: row.ts_event,
                    price: row.price,
                    order_id: row.order_id,
                    sequence: row.sequence,
                    size: row.size,
                    instrument_id: row.instrument_id,
                    side: side,
                    action: action,
                },
            ),
        },
    }
}

/// The tick the filtering loader yields: rows whose action is not add or
/// cancel are dropped; kept rows carry the price scaled into internal units.
pub open spec fn spec_tick_from_mbo_row(row: DatabentoMboCsvRow) -> Result<
    Option<TickData>,
    RowConversionError,
> {
    if !spec_mbo_action_kept(row.action@) {
        Ok(None)
    } else {
        match spec_parse_char::<Action>(row.action@, action_chars()) {
            Err(e) => Err(RowConversionError::InvalidAction { err: e }),
            Ok(action) => match spec_parse_char::<Side>(row.side@, side_chars()) {
                Err(e) => Err(RowConversionError::InvalidSide { err: e }),
                Ok(side) => Ok(
                    Some(
                        TickData {
                            timestamp: row.ts_event,
                            price: spec_scaled_price(row.price as int) as i64,
                            order_id: row.order_id,
                            sequence: row.sequence,
                            size: row.size,
                            instrument_id: row.instrument_id,
                            side: side,
                            action: action,
                        },
                    ),
                ),
            },
        }
    }
}

impl FromDatabentoRow for TickData {
    open spec fn spec_from_row(row: DatabentoMboCsvRow) -> Result<Self, RowConversionError> {
        spec_tick_from_row(row)
    }

    fn from_row(row: &DatabentoMboCsvRow) -> (r: Result<Self, RowConversionError>) {
        let action: Action = match parse_action(row.action.as_str()) {
            Ok(a) => a,
            Err(e) => {
                return Err(RowConversionError::InvalidAction { err: e });
            },
        };
        let side: Side = match parse_side(row.side.as_str()) {
            Ok(s) => s,
            Err(e) => {
                return Err(RowConversionError::InvalidSide { err: e });
            },
        };
        Ok(
            TickData {
                timestamp: row.ts_event,
                price: row.price,
                order_id: row.order_id,
                sequence: row.sequence,
                size: row.size,
                instrument_id: row.instrument_id,
                side,
                action,
            },
        )
    }
}

impl FromMboRow for TickData {
    open spec fn spec_from_mbo_csv(row: DatabentoMboCsvRow) -> Result<
        Option<Self>,
        RowConversionError,
    > {
        spec_tick_from_mbo_row(row)
    }

    fn from_mbo_csv(row: &DatabentoMboCsvRow) -> (r: Result<Option<Self>, RowConversionError>) {
        let kept = {
            let a = row.action.as_str();
            if a.unicode_len() != 1 {
                false
            } else {
                let c = a.get_char(0);
                c == 'A' || c == 'C'
            }
        };
        if !kept {
            return Ok(None);
        }
        let action: Action = match parse_action(row.action.as_str()) {
            Ok(a) => a,
            Err(e) => {
                return Err(RowConversionError::InvalidAction { err: e });
            },
        };
        let side: Side = match parse_side(row.side.as_str()) {
            Ok(s) => s,
            Err(e) => {
                return Err(RowConversionError::InvalidSide { err: e });
            },
        };
        Ok(
            Some(
                TickData {
                    timestamp: row.ts_event,
                    price: scale_price(row.price),
                    order_id: row.order_id,
                    sequence: row.sequence,
                    size: row.size,
                    instrument_id: row.instrument_id,
                    side,
                    action,
                },
            ),
        )
    }
}

/// A row-level failure, with the zero-based line it happened on.
#[derive(Clone, Copy, Debug, PartialEq, Eq, Structural)]
pub struct LoadError {
    pub line: usize,
    pub err: RowConversionError,
}

/// Every row of the run converts without error.
pub open spec fn spec_all_rows_convert<T: FromDatabentoRow>(
    rows: Seq<DatabentoMboCsvRow>,
) -> bool {
    forall|i: int| 0 <= i < rows.len() ==> (#[trigger] T::spec_from_row(rows[i])) is Ok
}

/// Converts a run of rows in order, one record per row, stopping at the
/// first row that does not convert and naming its line.
pub fn convert_rows<T: FromDatabentoRow>(rows: &Vec<DatabentoMboCsvRow>) -> (r: Result<
    Vec<T>,
    LoadError,
>)
    ensures
        r is Ok <==> spec_all_rows_convert::<T>(rows@),
        r matches Ok(v) ==> {
            &&& v@.len() == rows@.len()
            &&& forall|i: int|
                0 <= i < rows@.len() ==> Ok::<T, RowConversionError>(v@[i])
                    == #[trigger] T::spec_from_row(rows@[i])
        },
        r matches Err(e) ==> {
            &&& e.line < rows@.len()
            &&& T::spec_from_row(rows@[e.line as int]) == Err::<T, RowConversionError>(e.err)
            &&& forall|j: int|
                0 <= j < e.line ==> (#[trigger] T::spec_from_row(rows@[j])) is Ok
        },
{
    let mut out: Vec<T> = Vec::new();
    let n = rows.len();
    let mut i: usize = 0;
    while i < n
        invariant
            i <= n == rows@.len(),
            out@.len() == i,
            forall|j: int|
                0 <= j < i ==> Ok::<T, RowConversionError>(out@[j]) == #[trigger] T::spec_from_row(
                    rows@[j],
                ),
        decreases n - i,
    {
        match T::from_row(&rows[i]) {
            Ok(t) => {
                out.push(t);
            },
            Err(e) => {
                return Err(LoadError { line: i, err: e });
            },
        }
        i = i + 1;
    }
    Ok(out)
}

/// The records that a run of rows yields under the filtering conversion,
/// in row order, kept rows only.
pub open spec fn spec_mbo_converted<T: FromMboRow>(rows: Seq<DatabentoMboCsvRow>) -> Seq<T>
    decreases rows.len(),
{
    if rows.len() == 0 {
        Seq::empty()
    } else {
        let prefix = spec_mbo_converted::<T>(rows.drop_last());
        match T::spec_from_mbo_csv(rows.last()) {
            Ok(Some(t)) => prefix.push(t),
            _ => prefix,
        }
    }
}

/// Every row of the run converts or is dropped without error.
pub open spec fn spec_all_mbo_rows_convert<T: FromMboRow>(rows: Seq<DatabentoMboCsvRow>) -> bool {
    forall|i: int| 0 <= i < rows.len() ==> (#[trigger] T::spec_from_mbo_csv(rows[i])) is Ok
}

/// Converts a run of rows in order under the filtering conversion: dropped
/// rows leave no record, kept rows append theirs in row order; stops at the
/// first row that fails and names its line.
pub fn convert_mbo_rows<T: FromMboRow>(rows: &Vec<DatabentoMboCsvRow>) -> (r: Result<
    Vec<T>,
    LoadError,
>)
    ensures
        r is Ok <==> spec_all_mbo_rows_convert::<T>(rows@),
        r matches Ok(v) ==> v@ == spec_mbo_converted::<T>(rows@),
        r matches Err(e) ==> {
            &&& e.line < rows@.len()
            &&& T::spec_from_mbo_csv(rows@[e.line as int]) == Err::<
                Option<T>,
                RowConversionError,
            >(e.err)
            &&& forall|j: int|
                0 <= j < e.line ==> (#[trigger] T::spec_from_mbo_csv(rows@[j])) is Ok
        },
{
    let mut out: Vec<T> = Vec::new();
    let n = rows.len();
    let mut i: usize = 0;
    while i < n
        invariant
            i <= n == rows@.len(),
            out@ == spec_mbo_converted::<T>(rows@.take(i as int)),
            forall|j: int| 0 <= j < i ==> (#[trigger] T::spec_from_mbo_csv(rows@[j])) is Ok,
        decreases n - i,
    {
        match T::from_mbo_csv(&rows[i]) {
            Ok(Some(t)) => {
                out.push(t);
            },
            Ok(None) => {
            },
            Err(e) => {
                return Err(LoadError { line: i, err: e });
            },
        }
        proof {
            let k = i as int;
            assert(rows@.take(k + 1).drop_last() =~= rows@.take(k));
            assert(rows@.take(k + 1).last() == rows@[k]);
            assert(out@ =~= spec_mbo_converted::<T>(rows@.take(k + 1)));
        }
        i = i + 1;
    }
    proof {
        assert(rows@.take(n as int) =~= rows@);
    }
    Ok(out)
}

} // verus!
