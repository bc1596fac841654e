//! Byte codec for the wire records.
//!
//! A record's wire form is its fields laid out at fixed offsets,
//! little-endian, followed by explicit zero padding up to the declared
//! width. Sender and receiver share the layout through this module alone:
//! encoding and decoding are pure functions on bytes, with no framing
//! delimiter, length prefix or checksum on the wire.

use vstd::bytes::*;
use vstd::prelude::*;
use vstd::slice::{slice_index_get, slice_subrange};

use crate::model::{BookSnapshot, TickData, BOOK_SNAPSHOT_SIZE, TICK_DATA_SIZE};

verus! {

broadcast use vstd::array::group_array_axioms;

/// A fixed-width record that can cross the wire.
///
/// `decoded(encoded(r)) == r` holds for every record `r`: each implementation
/// proves it as [`WireRecord::lemma_round_trip`]. The width is a constant of
/// the type, so record boundaries in a byte stream are implicit.
pub trait WireRecord: Sized {
    /// Exact number of bytes of one encoded record.
    spec fn wire_width() -> usize;

    /// The bytes that [`WireRecord::encode`] produces.
    spec fn encoded(&self) -> Seq<u8>;

    /// The record that [`WireRecord::decode`] reads out of one record's worth
    /// of bytes.
    spec fn decoded(b: Seq<u8>) -> Self;

    /// The width is never zero, so a byte stream advances.
    proof fn lemma_wire_width_positive()
        ensures
            0 < Self::wire_width(),
    ;

    /// An encoded record fills its declared width exactly.
    proof fn lemma_encoded_width(&self)
        ensures
            self.encoded().len() == Self::wire_width(),
    ;

    /// Law: decoding an encoded record gives the record back.
    proof fn lemma_round_trip(&self)
        ensures
            Self::decoded(self.encoded()) == *self,
    ;

    fn wire_width_exec() -> (n: usize)
        ensures
            n == Self::wire_width(),
    ;

    fn encode(&self) -> (r: Vec<u8>)
        ensures
            r@ == self.encoded(),
            r@.len() == Self::wire_width(),
    ;

    fn decode(b: &[u8]) -> (r: Self)
        requires
            b@.len() == Self::wire_width(),
        ensures
            r == Self::decoded(b@),
    ;
}

impl WireRecord for TickData {
    open spec fn wire_width() -> usize {
        TICK_DATA_SIZE
    }

    open spec fn encoded(&self) -> Seq<u8> {
        spec_u64_to_le_bytes(self.timestamp) + spec_u64_to_le_bytes(self.price as u64)
            + spec_u64_to_le_bytes(self.order_id) + spec_u32_to_le_bytes(self.sequence)
            + spec_u32_to_le_bytes(self.size) + spec_u32_to_le_bytes(self.instrument_id)
            + seq![self.side] + seq![self.action] + Seq::new(26, |i: int| 0u8)
    }

    open spec fn decoded(b: Seq<u8>) -> Self {
        TickData {
            timestamp: spec_u64_from_le_bytes(b.subrange(0, 8)),
            price: spec_u64_from_le_bytes(b.subrange(8, 16)) as i64,
            order_id: spec_u64_from_le_bytes(b.subrange(16, 24)),
            sequence: spec_u32_from_le_bytes(b.subrange(24, 28)),
            size: spec_u32_from_le_bytes(b.subrange(28, 32)),
            instrument_id: spec_u32_from_le_bytes(b.subrange(32, 36)),
            side: b[36],
            action: b[37],
        }
    }

    proof fn lemma_wire_width_positive() {
    }

    proof fn lemma_encoded_width(&self) {
        lemma_auto_spec_u64_to_from_le_bytes();
        lemma_auto_spec_u32_to_from_le_bytes();
    }

    proof fn lemma_round_trip(&self) {
        lemma_auto_spec_u64_to_from_le_bytes();
        lemma_auto_spec_u32_to_from_le_bytes();
        let e = self.encoded();
        assert(e.subrange(0, 8) =~= spec_u64_to_le_bytes(self.timestamp));
        assert(e.subrange(8, 16) =~= spec_u64_to_le_bytes(self.price as u64));
        assert(e.subrange(16, 24) =~= spec_u64_to_le_bytes(self.order_id));
        assert(e.subrange(24, 28) =~= spec_u32_to_le_bytes(self.sequence));
        assert(e.subrange(28, 32) =~= spec_u32_to_le_bytes(self.size));
        assert(e.subrange(32, 36) =~= spec_u32_to_le_bytes(self.instrument_id));
        assert(e[36] == self.side);
        assert(e[37] == self.action);
        let p = self.price;
        assert(((p as u64) as i64) == p) by (bit_vector);
        assert(Self::decoded(e) == *self);
    }

    fn wire_width_exec() -> (n: usize) {
        TICK_DATA_SIZE
    }

    fn encode(&self) -> (r: Vec<u8>) {
        let mut out: Vec<u8> = Vec::new();
        let mut field = u64_to_le_bytes(self.timestamp);
        out.append(&mut field);
        let mut field = u64_to_le_bytes(self.price as u64);
        out.append(&mut field);
        let mut field = u64_to_le_bytes(self.order_id);
        out.append(&mut field);
        let mut field = u32_to_le_bytes(self.sequence);
        out.append(&mut field);
        let mut field = u32_to_le_bytes(self.size);
        out.append(&mut field);
        let mut field = u32_to_le_bytes(self.instrument_id);
        out.append(&mut field);
        out.push(self.side);
        out.push(self.action);
        let ghost prefix = out@;
        let mut i: usize = 0;
        while i < 26
            invariant
                i <= 26,
                out@ == prefix + Seq::new(i as nat, |j: int| 0u8),
            decreases 26 - i,
        {
            out.push(0u8);
            proof {
                assert(out@ =~= prefix + Seq::new((i + 1) as nat, |j: int| 0u8));
            }
            i = i + 1;
        }
        proof {
            lemma_auto_spec_u64_to_from_le_bytes();
            lemma_auto_spec_u32_to_from_le_bytes();
            assert(out@ =~= self.encoded());
            self.lemma_encoded_width();
        }
        out
    }

    fn decode(b: &[u8]) -> (r: Self) {
        let timestamp = u64_from_le_bytes(slice_subrange(b, 0, 8));
        let price_bits = u64_from_le_bytes(slice_subrange(b, 8, 16));
        let order_id = u64_from_le_bytes(slice_subrange(b, 16, 24));
        let sequence = u32_from_le_bytes(slice_subrange(b, 24, 28));
        let size = u32_from_le_bytes(slice_subrange(b, 28, 32));
        let instrument_id = u32_from_le_bytes(slice_subrange(b, 32, 36));
        let side = *slice_index_get(b, 36);
        let action = *slice_index_get(b, 37);
        TickData {
            timestamp,
            price: price_bits as i64,
            order_id,
            sequence,
            size,
            instrument_id,
            side,
            action,
        }
    }
}

/// The bytes of a run of signed 64-bit price levels, first level first,
/// each level little-endian.
pub open spec fn spec_prices_to_le_bytes(s: Seq<i64>) -> Seq<u8>
    decreases s.len(),
{
    if s.len() == 0 {
        Seq::empty()
    } else {
        spec_prices_to_le_bytes(s.drop_last()) + spec_u64_to_le_bytes(s.last() as u64)
    }
}

/// The bytes of a run of unsigned 32-bit levels, first level first,
/// each level little-endian.
pub open spec fn spec_counts_to_le_bytes(s: Seq<u32>) -> Seq<u8>
    decreases s.len(),
{
    if s.len() == 0 {
        Seq::empty()
    } else {
        spec_counts_to_le_bytes(s.drop_last()) + spec_u32_to_le_bytes(s.last())
    }
}

pub proof fn lemma_prices_le_bytes_len(s: Seq<i64>)
    ensures
        spec_prices_to_le_bytes(s).len() == 8 * s.len(),
    decreases s.len(),
{
    lemma_auto_spec_u64_to_from_le_bytes();
    if s.len() > 0 {
        lemma_prices_le_bytes_len(s.drop_last());
    }
}

pub proof fn lemma_counts_le_bytes_len(s: Seq<u32>)
    ensures
        spec_counts_to_le_bytes(s).len() == 4 * s.len(),
    decreases s.len(),
{
    lemma_auto_spec_u32_to_from_le_bytes();
    if s.len() > 0 {
        lemma_counts_le_bytes_len(s.drop_last());
    }
}

/// The `k`-th eight-byte block of an encoded run of price levels is the
/// encoding of the `k`-th level.
pub proof fn lemma_prices_le_bytes_block(s: Seq<i64>, k: int)
    requires
        0 <= k < s.len(),
    ensures
        spec_prices_to_le_bytes(s).subrange(8 * k, 8 * k + 8) == spec_u64_to_le_bytes(
            s[k] as u64,
        ),
    decreases s.len(),
{
    lemma_auto_spec_u64_to_from_le_bytes();
    lemma_prices_le_bytes_len(s.drop_last());
    let whole = spec_prices_to_le_bytes(s);
    if k == s.len() - 1 {
        assert(whole.subrange(8 * k, 8 * k + 8) =~= spec_u64_to_le_bytes(s[k] as u64));
    } else {
        lemma_prices_le_bytes_block(s.drop_last(), k);
        assert(whole.subrange(8 * k, 8 * k + 8) =~= spec_prices_to_le_bytes(
            s.drop_last(),
        ).subrange(8 * k, 8 * k + 8));
    }
}

/// The `k`-th four-byte block of an encoded run of 32-bit levels is the
/// encoding of the `k`-th level.
pub proof fn lemma_counts_le_bytes_block(s: Seq<u32>, k: int)
    requires
        0 <= k < s.len(),
    ensures
        spec_counts_to_le_bytes(s).subrange(4 * k, 4 * k + 4) == spec_u32_to_le_bytes(s[k]),
    decreases s.len(),
{
    lemma_auto_spec_u32_to_from_le_bytes();
    lemma_counts_le_bytes_len(s.drop_last());
    let whole = spec_counts_to_le_bytes(s);
    if k == s.len() - 1 {
        assert(whole.subrange(4 * k, 4 * k + 4) =~= spec_u32_to_le_bytes(s[k]));
    } else {
        lemma_counts_le_bytes_block(s.drop_last(), k);
        assert(whole.subrange(4 * k, 4 * k + 4) =~= spec_counts_to_le_bytes(
            s.drop_last(),
        ).subrange(4 * k, 4 * k + 4));
    }
}

fn append_price_levels(out: &mut Vec<u8>, a: &[i64; 10])
    ensures
        final(out)@ == old(out)@ + spec_prices_to_le_bytes(a@),
{
    let ghost prefix = out@;
    let mut k: usize = 0;
    while k < 10
        invariant
            k <= 10,
            out@ == prefix + spec_prices_to_le_bytes(a@.take(k as int)),
        decreases 10 - k,
    {
        let mut field = u64_to_le_bytes(a[k] as u64);
        out.append(&mut field);
        proof {
            let s = a@;
            let i = k as int;
            assert(s.take(i + 1).drop_last() =~= s.take(i));
            assert(s.take(i + 1).last() == s[i]);
            assert(spec_prices_to_le_bytes(s.take(i + 1)) == spec_prices_to_le_bytes(s.take(i))
                + spec_u64_to_le_bytes(s[i] as u64));
        }
        k = k + 1;
    }
    proof {
        assert(a@.take(10) =~= a@);
    }
}

fn append_count_levels(out: &mut Vec<u8>, a: &[u32; 10])
    ensures
        final(out)@ == old(out)@ + spec_counts_to_le_bytes(a@),
{
    let ghost prefix = out@;
    let mut k: usize = 0;
    while k < 10
        invariant
            k <= 10,
            out@ == prefix + spec_counts_to_le_bytes(a@.take(k as int)),
        decreases 10 - k,
    {
        let mut field = u32_to_le_bytes(a[k]);
        out.append(&mut field);
        proof {
            let s = a@;
            let i = k as int;
            assert(s.take(i + 1).drop_last() =~= s.take(i));
            assert(s.take(i + 1).last() == s[i]);
            assert(spec_counts_to_le_bytes(s.take(i + 1)) == spec_counts_to_le_bytes(s.take(i))
                + spec_u32_to_le_bytes(s[i]));
        }
        k = k + 1;
    }
    proof {
        assert(a@.take(10) =~= a@);
    }
}

fn read_price_levels(b: &[u8], off: usize) -> (r: [i64; 10])
    requires
        off + 80 <= b@.len(),
        b@.len() <= usize::MAX,
    ensures
        forall|k: int|
            0 <= k < 10 ==> r@[k] == spec_u64_from_le_bytes(
                b@.subrange(off + 8 * k, off + 8 * k + 8),
            ) as i64,
{
    let mut r: [i64; 10] = [0i64; 10];
    let mut k: usize = 0;
    while k < 10
        invariant
            k <= 10,
            off + 80 <= b@.len() <= usize::MAX,
            forall|j: int|
                0 <= j < k ==> r@[j] == spec_u64_from_le_bytes(
                    b@.subrange(off + 8 * j, off + 8 * j + 8),
                ) as i64,
        decreases 10 - k,
    {
        let bits = u64_from_le_bytes(slice_subrange(b, off + 8 * k, off + 8 * k + 8));
        r[k] = bits as i64;
        k = k + 1;
    }
    r
}

fn read_count_levels(b: &[u8], off: usize) -> (r: [u32; 10])
    requires
        off + 40 <= b@.len(),
        b@.len() <= usize::MAX,
    ensures
        forall|k: int|
            0 <= k < 10 ==> r@[k] == spec_u32_from_le_bytes(
                b@.subrange(off + 4 * k, off + 4 * k + 4),
            ),
{
    let mut r: [u32; 10] = [0u32; 10];
    let mut k: usize = 0;
    while k < 10
        invariant
            k <= 10,
            off + 40 <= b@.len() <= usize::MAX,
            forall|j: int|
                0 <= j < k ==> r@[j] == spec_u32_from_le_bytes(
                    b@.subrange(off + 4 * j, off + 4 * j + 4),
                ),
        decreases 10 - k,
    {
        let v = u32_from_le_bytes(slice_subrange(b, off + 4 * k, off + 4 * k + 4));
        r[k] = v;
        k = k + 1;
    }
    r
}

/// Field-by-field reading of a snapshot out of one record's worth of bytes;
/// exactly one snapshot matches any given bytes.
pub open spec fn snapshot_matches(s: BookSnapshot, b: Seq<u8>) -> bool {
    &&& s.timestamp == spec_u64_from_le_bytes(b.subrange(0, 8))
    &&& forall|k: int|
        0 <= k < 10 ==> s.best_bid_price@[k] == spec_u64_from_le_bytes(
            b.subrange(8 + 8 * k, 8 + 8 * k + 8),
        ) as i64
    &&& forall|k: int|
        0 <= k < 10 ==> s.best_bid_volume@[k] == spec_u32_from_le_bytes(
            b.subrange(88 + 4 * k, 88 + 4 * k + 4),
        )
    &&& forall|k: int|
        0 <= k < 10 ==> s.best_bid_quantity@[k] == spec_u32_from_le_bytes(
            b.subrange(128 + 4 * k, 128 + 4 * k + 4),
        )
    &&& forall|k: int|
        0 <= k < 10 ==> s.best_ask_price@[k] == spec_u64_from_le_bytes(
            b.subrange(168 + 8 * k, 168 + 8 * k + 8),
        ) as i64
    &&& forall|k: int|
        0 <= k < 10 ==> s.best_ask_volume@[k] == spec_u32_from_le_bytes(
            b.subrange(248 + 4 * k, 248 + 4 * k + 4),
        )
    &&& forall|k: int|
        0 <= k < 10 ==> s.best_ask_quantity@[k] == spec_u32_from_le_bytes(
            b.subrange(288 + 4 * k, 288 + 4 * k + 4),
        )
}

pub proof fn lemma_snapshot_matches_unique(s1: BookSnapshot, s2: BookSnapshot, b: Seq<u8>)
    requires
        snapshot_matches(s1, b),
        snapshot_matches(s2, b),
    ensures
        s1 == s2,
{
    assert(s1.best_bid_price =~= s2.best_bid_price);
    assert(s1.best_bid_volume =~= s2.best_bid_volume);
    assert(s1.best_bid_quantity =~= s2.best_bid_quantity);
    assert(s1.best_ask_price =~= s2.best_ask_price);
    assert(s1.best_ask_volume =~= s2.best_ask_volume);
    assert(s1.best_ask_quantity =~= s2.best_ask_quantity);
}

/// A snapshot that reads back out of `b` is the decoding of `b`.
pub proof fn lemma_snapshot_decoded(s: BookSnapshot, b: Seq<u8>)
    requires
        snapshot_matches(s, b),
    ensures
        <BookSnapshot as WireRecord>::decoded(b) == s,
{
    assert(exists|x: BookSnapshot| snapshot_matches(x, b)) by {
        assert(snapshot_matches(s, b));
    }
    let d = <BookSnapshot as WireRecord>::decoded(b);
    assert(snapshot_matches(d, b));
    lemma_snapshot_matches_unique(s, d, b);
}

impl WireRecord for BookSnapshot {
    open spec fn wire_width() -> usize {
        BOOK_SNAPSHOT_SIZE
    }

    open spec fn encoded(&self) -> Seq<u8> {
        spec_u64_to_le_bytes(self.timestamp) + spec_prices_to_le_bytes(self.best_bid_price@)
            + spec_counts_to_le_bytes(self.best_bid_volume@) + spec_counts_to_le_bytes(
            self.best_bid_quantity@,
        ) + spec_prices_to_le_bytes(self.best_ask_price@) + spec_counts_to_le_bytes(
            self.best_ask_volume@,
        ) + spec_counts_to_le_bytes(self.best_ask_quantity@) + Seq::new(56, |i: int| 0u8)
    }

    open spec fn decoded(b: Seq<u8>) -> Self {
        choose|s: BookSnapshot| snapshot_matches(s, b)
    }

    proof fn lemma_wire_width_positive() {
    }

    proof fn lemma_encoded_width(&self) {
        lemma_auto_spec_u64_to_from_le_bytes();
        lemma_prices_le_bytes_len(self.best_bid_price@);
        lemma_counts_le_bytes_len(self.best_bid_volume@);
        lemma_counts_le_bytes_len(self.best_bid_quantity@);
        lemma_prices_le_bytes_len(self.best_ask_price@);
        lemma_counts_le_bytes_len(self.best_ask_volume@);
        lemma_counts_le_bytes_len(self.best_ask_quantity@);
    }

    proof fn lemma_round_trip(&self) {
        self.lemma_encoded_width();
        lemma_auto_spec_u64_to_from_le_bytes();
        lemma_auto_spec_u32_to_from_le_bytes();
        lemma_prices_le_bytes_len(self.best_bid_price@);
        lemma_counts_le_bytes_len(self.best_bid_volume@);
        lemma_counts_le_bytes_len(self.best_bid_quantity@);
        lemma_prices_le_bytes_len(self.best_ask_price@);
        lemma_counts_le_bytes_len(self.best_ask_volume@);
        lemma_counts_le_bytes_len(self.best_ask_quantity@);
        let e = self.encoded();
        assert(e.subrange(0, 8) =~= spec_u64_to_le_bytes(self.timestamp));
        assert forall|k: int| 0 <= k < 10 implies e.subrange(8 + 8 * k, 8 + 8 * k + 8)
            == spec_u64_to_le_bytes(self.best_bid_price@[k] as u64) by {
            lemma_prices_le_bytes_block(self.best_bid_price@, k);
            assert(e.subrange(8 + 8 * k, 8 + 8 * k + 8) =~= spec_prices_to_le_bytes(
                self.best_bid_price@,
            ).subrange(8 * k, 8 * k + 8));
        }
        assert forall|k: int| 0 <= k < 10 implies e.subrange(88 + 4 * k, 88 + 4 * k + 4)
            == spec_u32_to_le_bytes(self.best_bid_volume@[k]) by {
            lemma_counts_le_bytes_block(self.best_bid_volume@, k);
            assert(e.subrange(88 + 4 * k, 88 + 4 * k + 4) =~= spec_counts_to_le_bytes(
                self.best_bid_volume@,
            ).subrange(4 * k, 4 * k + 4));
        }
        assert forall|k: int| 0 <= k < 10 implies e.subrange(128 + 4 * k, 128 + 4 * k + 4)
            == spec_u32_to_le_bytes(self.best_bid_quantity@[k]) by {
            lemma_counts_le_bytes_block(self.best_bid_quantity@, k);
            assert(e.subrange(128 + 4 * k, 128 + 4 * k + 4) =~= spec_counts_to_le_bytes(
                self.best_bid_quantity@,
            ).subrange(4 * k, 4 * k + 4));
        }
        assert forall|k: int| 0 <= k < 10 implies e.subrange(168 + 8 * k, 168 + 8 * k + 8)
            == spec_u64_to_le_bytes(self.best_ask_price@[k] as u64) by {
            lemma_prices_le_bytes_block(self.best_ask_price@, k);
            assert(e.subrange(168 + 8 * k, 168 + 8 * k + 8) =~= spec_prices_to_le_bytes(
                self.best_ask_price@,
            ).subrange(8 * k, 8 * k + 8));
        }
        assert forall|k: int| 0 <= k < 10 implies e.subrange(248 + 4 * k, 248 + 4 * k + 4)
            == spec_u32_to_le_bytes(self.best_ask_volume@[k]) by {
            lemma_counts_le_bytes_block(self.best_ask_volume@, k);
            assert(e.subrange(248 + 4 * k, 248 + 4 * k + 4) =~= spec_counts_to_le_bytes(
                self.best_ask_volume@,
            ).subrange(4 * k, 4 * k + 4));
        }
        assert forall|k: int| 0 <= k < 10 implies e.subrange(288 + 4 * k, 288 + 4 * k + 4)
            == spec_u32_to_le_bytes(self.best_ask_quantity@[k]) by {
            lemma_counts_le_bytes_block(self.best_ask_quantity@, k);
            assert(e.subrange(288 + 4 * k, 288 + 4 * k + 4) =~= spec_counts_to_le_bytes(
                self.best_ask_quantity@,
            ).subrange(4 * k, 4 * k + 4));
        }
        assert forall|k: int| 0 <= k < 10 implies self.best_bid_price@[k]
            == spec_u64_from_le_bytes(e.subrange(8 + 8 * k, 8 + 8 * k + 8)) as i64 by {
            assert(e.subrange(8 + 8 * k, 8 + 8 * k + 8) == spec_u64_to_le_bytes(
                self.best_bid_price@[k] as u64,
            ));
            lemma_price_bits_round_trip(self.best_bid_price@[k]);
        }
        assert forall|k: int| 0 <= k < 10 implies self.best_ask_price@[k]
            == spec_u64_from_le_bytes(e.subrange(168 + 8 * k, 168 + 8 * k + 8)) as i64 by {
            assert(e.subrange(168 + 8 * k, 168 + 8 * k + 8) == spec_u64_to_le_bytes(
                self.best_ask_price@[k] as u64,
            ));
            lemma_price_bits_round_trip(self.best_ask_price@[k]);
        }
        assert forall|k: int| 0 <= k < 10 implies self.best_bid_volume@[k]
            == spec_u32_from_le_bytes(e.subrange(88 + 4 * k, 88 + 4 * k + 4)) by {
            assert(e.subrange(88 + 4 * k, 88 + 4 * k + 4) == spec_u32_to_le_bytes(
                self.best_bid_volume@[k],
            ));
        }
        assert forall|k: int| 0 <= k < 10 implies self.best_bid_quantity@[k]
            == spec_u32_from_le_bytes(e.subrange(128 + 4 * k, 128 + 4 * k + 4)) by {
            assert(e.subrange(128 + 4 * k, 128 + 4 * k + 4) == spec_u32_to_le_bytes(
                self.best_bid_quantity@[k],
            ));
        }
        assert forall|k: int| 0 <= k < 10 implies self.best_ask_volume@[k]
            == spec_u32_from_le_bytes(e.subrange(248 + 4 * k, 248 + 4 * k + 4)) by {
            assert(e.subrange(248 + 4 * k, 248 + 4 * k + 4) == spec_u32_to_le_bytes(
                self.best_ask_volume@[k],
            ));
        }
        assert forall|k: int| 0 <= k < 10 implies self.best_ask_quantity@[k]
            == spec_u32_from_le_bytes(e.subrange(288 + 4 * k, 288 + 4 * k + 4)) by {
            assert(e.subrange(288 + 4 * k, 288 + 4 * k + 4) == spec_u32_to_le_bytes(
                self.best_ask_quantity@[k],
            ));
        }
        assert(self.timestamp == spec_u64_from_le_bytes(e.subrange(0, 8)));
        assert(snapshot_matches(*self, e));
        lemma_snapshot_decoded(*self, e);
    }

    fn wire_width_exec() -> (n: usize) {
        BOOK_SNAPSHOT_SIZE
    }

    fn encode(&self) -> (r: Vec<u8>) {
        let mut out: Vec<u8> = Vec::new();
        let mut field = u64_to_le_bytes(self.timestamp);
        out.append(&mut field);
        append_price_levels(&mut out, &self.best_bid_price);
        append_count_levels(&mut out, &self.best_bid_volume);
        append_count_levels(&mut out, &self.best_bid_quantity);
        append_price_levels(&mut out, &self.best_ask_price);
        append_count_levels(&mut out, &self.best_ask_volume);
        append_count_levels(&mut out, &self.best_ask_quantity);
        let ghost prefix = out@;
        let mut i: usize = 0;
        while i < 56
            invariant
                i <= 56,
                out@ == prefix + Seq::new(i as nat, |j: int| 0u8),
            decreases 56 - i,
        {
            out.push(0u8);
            proof {
                assert(out@ =~= prefix + Seq::new((i + 1) as nat, |j: int| 0u8));
            }
            i = i + 1;
        }
        proof {
            assert(out@ =~= self.encoded());
            self.lemma_encoded_width();
        }
        out
    }

    fn decode(b: &[u8]) -> (r: Self) {
        let timestamp = u64_from_le_bytes(slice_subrange(b, 0, 8));
        let best_bid_price = read_price_levels(b, 8);
        let best_bid_volume = read_count_levels(b, 88);
        let best_bid_quantity = read_count_levels(b, 128);
        let best_ask_price = read_price_levels(b, 168);
        let best_ask_volume = read_count_levels(b, 248);
        let best_ask_quantity = read_count_levels(b, 288);
        let r = BookSnapshot {
            timestamp,
            best_bid_price,
            best_bid_volume,
            best_bid_quantity,
            best_ask_price,
            best_ask_volume,
            best_ask_quantity,
        };
        proof {
            assert(snapshot_matches(r, b@));
            lemma_snapshot_decoded(r, b@);
        }
        r
    }
}

/// Casting a price to its raw bits and back gives the price.
proof fn lemma_price_bits_round_trip(p: i64)
    ensures
        ((p as u64) as i64) == p,
{
    assert(((p as u64) as i64) == p) by (bit_vector);
}

} // verus!
