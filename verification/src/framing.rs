//! Record framing on the receive side.
//!
//! The wire carries whole records only: boundaries are implicit, derived
//! from the fixed width that both ends share. A byte stream that ends on a
//! record boundary yields exactly its records and a clean end; one that ends
//! mid-record is an error, never a silently truncated record.

use vstd::arithmetic::div_mod::lemma_fundamental_div_mod_converse;
use vstd::prelude::*;
use vstd::slice::{slice_index_get, slice_subrange};

use crate::codec::WireRecord;

verus! {

/// The stream ended away from a record boundary: `trailing_bytes` bytes of
/// an unfinished record (fewer than `wire_width`) were left over.
#[derive(Clone, Copy, Debug, PartialEq, Eq, Structural)]
pub enum FramingError {
    TruncatedRecord { trailing_bytes: usize, wire_width: usize },
}

/// Splits a finished byte stream into its records.
///
/// Returns the records in stream order when the stream ends exactly on a
/// record boundary, and `TruncatedRecord` otherwise; an empty stream is a
/// clean boundary and yields no records.
pub fn frame_records<T: WireRecord>(stream: &[u8]) -> (r: Result<Vec<T>, FramingError>)
    ensures
        r is Ok <==> stream@.len() as int % T::wire_width() as int == 0,
        r matches Ok(v) ==> {
            &&& v@.len() == stream@.len() as int / T::wire_width() as int
            &&& forall|i: int|
                0 <= i < v@.len() ==> v@[i] == T::decoded(
                    stream@.subrange(i * T::wire_width(), i * T::wire_width() + T::wire_width()),
                )
        },
        r matches Err(e) ==> e == (FramingError::TruncatedRecord {
            trailing_bytes: (stream@.len() as int % T::wire_width() as int) as usize,
            wire_width: T::wire_width(),
        }),
{
    proof {
        T::lemma_wire_width_positive();
    }
    let w = T::wire_width_exec();
    let n = stream.len();
    let mut out: Vec<T> = Vec::new();
    let mut off: usize = 0;
    while n - off >= w
        invariant
            0 < w == T::wire_width(),
            n == stream@.len(),
            off <= n,
            off == out@.len() * w,
            forall|i: int|
                0 <= i < out@.len() ==> out@[i] == T::decoded(
                    stream@.subrange(i * w, i * w + w),
                ),
        decreases n - off,
    {
        let rec = T::decode(slice_subrange(stream, off, off + w));
        proof {
            assert((out@.len() + 1) * w == out@.len() * w + w) by (nonlinear_arith);
        }
        out.push(rec);
        off = off + w;
    }
    proof {
        lemma_fundamental_div_mod_converse(n as int, w as int, out@.len() as int, n - off);
    }
    if off == n {
        Ok(out)
    } else {
        Err(FramingError::TruncatedRecord { trailing_bytes: n - off, wire_width: w })
    }
}

/// Incremental framer for a stream read in chunks: bytes go in as they
/// arrive, whole records come out as soon as they are complete.
pub struct RecordFramer {
    pending: Vec<u8>,
}

impl RecordFramer {
    /// The bytes received and not yet returned as records.
    pub closed spec fn pending_bytes(&self) -> Seq<u8> {
        self.pending@
    }

    pub fn new() -> (r: Self)
        ensures
            r.pending_bytes() == Seq::<u8>::empty(),
    {
        RecordFramer { pending: Vec::new() }
    }

    /// Appends freshly read bytes to the pending tail.
    pub fn push_chunk(&mut self, chunk: &[u8])
        ensures
            final(self).pending_bytes() == old(self).pending_bytes() + chunk@,
    {
        let n = chunk.len();
        let mut i: usize = 0;
        while i < n
            invariant
                i <= n == chunk@.len(),
                self.pending@ == old(self).pending@ + chunk@.take(i as int),
            decreases n - i,
        {
            self.pending.push(*slice_index_get(chunk, i));
            proof {
                assert(self.pending@ =~= old(self).pending@ + chunk@.take(i as int + 1));
            }
            i = i + 1;
        }
        proof {
            assert(chunk@.take(n as int) =~= chunk@);
        }
    }

    /// Takes one whole record off the front of the pending bytes, or returns
    /// `None` when fewer than a record's worth are pending.
    pub fn try_next<T: WireRecord>(&mut self) -> (r: Option<T>)
        ensures
            old(self).pending_bytes().len() >= T::wire_width() ==> {
                &&& r matches Some(t) && t == T::decoded(
                    old(self).pending_bytes().take(T::wire_width() as int),
                )
                &&& final(self).pending_bytes() == old(self).pending_bytes().skip(
                    T::wire_width() as int,
                )
            },
            old(self).pending_bytes().len() < T::wire_width() ==> {
                &&& r is None
                &&& final(self).pending_bytes() == old(self).pending_bytes()
            },
    {
        let w = T::wire_width_exec();
        if self.pending.len() >= w {
            let rec = T::decode(slice_subrange(self.pending.as_slice(), 0, w));
            proof {
                assert(self.pending@.subrange(0, w as int) =~= self.pending@.take(w as int));
            }
            let n = self.pending.len();
            let mut rest: Vec<u8> = Vec::new();
            let mut i: usize = w;
            while i < n
                invariant
                    w <= i <= n == self.pending@.len(),
                    rest@ == self.pending@.subrange(w as int, i as int),
                decreases n - i,
            {
                rest.push(self.pending[i]);
                proof {
                    assert(rest@ =~= self.pending@.subrange(w as int, i as int + 1));
                }
                i = i + 1;
            }
            proof {
                assert(rest@ =~= self.pending@.skip(w as int));
            }
            self.pending = rest;
            Some(rec)
        } else {
            None
        }
    }

    /// Classifies the end of the stream once the peer has closed: a clean
    /// end leaves no pending bytes; anything else ended mid-record.
    pub fn finish<T: WireRecord>(&self) -> (r: Result<(), FramingError>)
        ensures
            r is Ok <==> self.pending_bytes().len() == 0,
            r matches Err(e) ==> e == (FramingError::TruncatedRecord {
                trailing_bytes: self.pending_bytes().len() as usize,
                wire_width: T::wire_width(),
            }),
    {
        if self.pending.len() == 0 {
            Ok(())
        } else {
            Err(FramingError::TruncatedRecord {
                trailing_bytes: self.pending.len(),
                wire_width: T::wire_width_exec(),
            })
        }
    }
}

} // verus!
