//! The capacity-bounded routing table: the publish entry point.
//!
//! The table maps each instrument to the pool of connections subscribed to
//! it. It is built once, from an address book, against two bounds fixed at
//! construction: how many instruments the table may hold, and how many peers
//! any one instrument may have. Both bounds are checked as a whole before a
//! single connect job is issued, so a misconfigured book fails fast and
//! leaves no half-open sockets behind. After construction, membership never
//! changes.

use vstd::pervasive::unreached;
use vstd::prelude::*;

use crate::codec::WireRecord;
use crate::model::InstrumentId;
use crate::pool::{Broadcast, ConnectionId, TcpConnectionPool};
use crate::retry::{ConnectJob, ConnectPlan, RetryPolicy};

verus! {

/// One instrument's subscribers: the peers, in the order they are dialed
/// and later written to.
pub struct AddressBookEntry {
    pub instrument_id: InstrumentId,
    pub peers: Vec<String>,
}

/// The instrument-to-peers mapping that service discovery supplies. As a
/// mapping it names each instrument once.
pub struct AddressBook {
    pub entries: Vec<AddressBookEntry>,
}

impl AddressBook {
    /// Each instrument appears in at most one entry.
    pub open spec fn wf(&self) -> bool {
        forall|i: int, j: int|
            0 <= i < j < self.entries@.len() ==> (#[trigger] self.entries@[i]).instrument_id != (
            #[trigger] self.entries@[j]).instrument_id
    }

    /// Checks that each instrument appears once.
    #[verifier::loop_isolation(false)]
    pub fn is_well_formed(&self) -> (b: bool)
        ensures
            b == self.wf(),
    {
        let n = self.entries.len();
        let mut i: usize = 0;
        while i < n
            invariant
                i <= n,
                forall|p: int, q: int|
                    0 <= p < q < n && p < i ==> (#[trigger] self.entries@[p]).instrument_id != (
                    #[trigger] self.entries@[q]).instrument_id,
            decreases n - i,
        {
            let mut j: usize = i + 1;
            while j < n
                invariant
                    i < j <= n,
                    forall|q: int|
                        i < q < j ==> (#[trigger] self.entries@[q]).instrument_id
                            != self.entries@[i as int].instrument_id,
                decreases n - j,
            {
                if self.entries[j].instrument_id == self.entries[i].instrument_id {
                    return false;
                }
                j = j + 1;
            }
            i = i + 1;
        }
        true
    }
}

/// The address book oversteps a bound of the table under construction.
#[derive(Clone, Copy, Debug, PartialEq, Eq, Structural)]
pub enum CapacityError {
    /// More instruments than the table may hold.
    TooManyInstruments { count: usize, max: usize },
    /// One instrument lists more peers than a pool may hold.
    TooManyPeers { instrument_id: InstrumentId, count: usize, max: usize },
}

/// Publishing failed before any byte moved.
#[derive(Clone, Copy, Debug, PartialEq, Eq, Structural)]
pub enum SendError {
    /// The table holds no pool for this instrument.
    InstrumentNotFound { instrument_id: InstrumentId },
}

/// The address book fits the table's two bounds.
pub open spec fn spec_book_within_capacity(
    book: AddressBook,
    max_instruments: int,
    max_peers: int,
) -> bool {
    &&& book.entries@.len() <= max_instruments
    &&& forall|i: int|
        0 <= i < book.entries@.len() ==> (#[trigger] book.entries@[i]).peers@.len() <= max_peers
}

/// Peers listed before entry `i` of the book: the connection handles of
/// entry `i` start here.
pub open spec fn spec_peer_count_before(book: AddressBook, i: int) -> int
    decreases i,
{
    if i <= 0 {
        0
    } else {
        spec_peer_count_before(book, i - 1) + book.entries@[i - 1].peers@.len()
    }
}

/// Peers listed before a later entry are at least those before an earlier
/// one.
pub proof fn lemma_peer_count_monotone(book: AddressBook, i: int, j: int)
    requires
        0 <= i <= j,
    ensures
        spec_peer_count_before(book, i) <= spec_peer_count_before(book, j),
    decreases j - i,
{
    if i < j {
        lemma_peer_count_monotone(book, i, j - 1);
    }
}

/// Checks the whole book against both bounds, naming the first oversized
/// entry; nothing is dialed until this passes.
#[verifier::loop_isolation(false)]
fn validate_address_book(book: &AddressBook, max_instruments: usize, max_peers: usize) -> (r:
    Result<(), CapacityError>)
    ensures
        r is Ok <==> spec_book_within_capacity(*book, max_instruments as int, max_peers as int),
        book.entries@.len() > max_instruments ==> r == Err::<(), CapacityError>(
            CapacityError::TooManyInstruments {
                count: book.entries@.len() as usize,
                max: max_instruments,
            },
        ),
        r matches Err(e) ==> book.entries@.len() <= max_instruments ==> exists|p: int|
            {
                &&& 0 <= p < book.entries@.len()
                &&& (#[trigger] book.entries@[p]).peers@.len() > max_peers
                &&& forall|q: int| 0 <= q < p ==> book.entries@[q].peers@.len() <= max_peers
                &&& e == (CapacityError::TooManyPeers {
                    instrument_id: book.entries@[p].instrument_id,
                    count: book.entries@[p].peers@.len() as usize,
                    max: max_peers,
                })
            },
{
    let n = book.entries.len();
    if n > max_instruments {
        return Err(CapacityError::TooManyInstruments { count: n, max: max_instruments });
    }
    let mut i: usize = 0;
    while i < n
        invariant
            i <= n,
            forall|q: int| 0 <= q < i ==> (#[trigger] book.entries@[q]).peers@.len() <= max_peers,
        decreases n - i,
    {
        let count = book.entries[i].peers.len();
        if count > max_peers {
            return Err(
                CapacityError::TooManyPeers {
                    instrument_id: book.entries[i].instrument_id,
                    count,
                    max: max_peers,
                },
            );
        }
        i = i + 1;
    }
    Ok(())
}

struct RouteEntry {
    instrument_id: InstrumentId,
    pool: TcpConnectionPool,
}

/// The routing table: one pool of subscriber connections per instrument,
/// bounds fixed at construction, membership fixed after it.
pub struct TcpClient {
    max_instruments: usize,
    max_peers_per_instrument: usize,
    entries: Vec<RouteEntry>,
}

impl TcpClient {
    /// The table's content: instrument and its connections, in book order.
    pub closed spec fn routes(&self) -> Seq<(InstrumentId, Seq<ConnectionId>)> {
        self.entries@.map(|i: int, e: RouteEntry| (e.instrument_id, e.pool.connections()))
    }

    pub closed spec fn spec_max_instruments(&self) -> usize {
        self.max_instruments
    }

    pub closed spec fn spec_max_peers_per_instrument(&self) -> usize {
        self.max_peers_per_instrument
    }

    #[verifier::type_invariant]
    spec fn inv(&self) -> bool {
        forall|i: int, j: int|
            0 <= i < j < self.entries@.len() ==> (#[trigger] self.entries@[i]).instrument_id != (
            #[trigger] self.entries@[j]).instrument_id
    }

    /// The table routes this instrument.
    pub open spec fn spec_has_instrument(&self, id: InstrumentId) -> bool {
        exists|i: int| 0 <= i < self.routes().len() && (#[trigger] self.routes()[i]).0 == id
    }

    /// The connections subscribed to this instrument, in dialing order.
    pub closed spec fn spec_connections_of(&self, id: InstrumentId) -> Seq<ConnectionId> {
        let i = choose|i: int| 0 <= i < self.routes().len() && (#[trigger] self.routes()[i]).0
            == id;
        self.routes()[i].1
    }

    /// The connections of an instrument are those of its one route entry.
    pub proof fn lemma_connections_of(&self, i: int)
        requires
            0 <= i < self.routes().len(),
            forall|p: int, q: int|
                0 <= p < q < self.routes().len() ==> (#[trigger] self.routes()[p]).0 != (
                #[trigger] self.routes()[q]).0,
        ensures
            self.spec_connections_of(self.routes()[i].0) == self.routes()[i].1,
    {
        let id = self.routes()[i].0;
        assert(self.spec_has_instrument(id));
        let j = choose|j: int| 0 <= j < self.routes().len() && (#[trigger] self.routes()[j]).0
            == id;
        assert(0 <= j < self.routes().len() && self.routes()[j].0 == id);
    }

    /// Builds the table from the address book: both bounds are validated as
    /// a whole first, so an oversized book fails before any connect job
    /// exists. On success the table lists the book's instruments in order,
    /// and the plan lists one connect job per peer — entry by entry, peers
    /// in listed order — whose handles are the very ones in the pools.
    #[verifier::loop_isolation(false)]
    pub fn new(
        address_book: AddressBook,
        port: u16,
        max_instruments: usize,
        max_peers_per_instrument: usize,
        policy: RetryPolicy,
    ) -> (r: Result<(TcpClient, ConnectPlan), CapacityError>)
        requires
            address_book.wf(),
            policy.spec_max_attempts() >= 1,
        ensures
            r is Ok <==> spec_book_within_capacity(
                address_book,
                max_instruments as int,
                max_peers_per_instrument as int,
            ),
            address_book.entries@.len() > max_instruments ==> r == Err::<
                (TcpClient, ConnectPlan),
                CapacityError,
            >(
                CapacityError::TooManyInstruments {
                    count: address_book.entries@.len() as usize,
                    max: max_instruments,
                },
            ),
            r matches Err(e) ==> address_book.entries@.len() <= max_instruments ==> exists|p: int|
                {
                    &&& 0 <= p < address_book.entries@.len()
                    &&& (#[trigger] address_book.entries@[p]).peers@.len()
                        > max_peers_per_instrument
                    &&& forall|q: int|
                        0 <= q < p ==> address_book.entries@[q].peers@.len()
                            <= max_peers_per_instrument
                    &&& e == (CapacityError::TooManyPeers {
                        instrument_id: address_book.entries@[p].instrument_id,
                        count: address_book.entries@[p].peers@.len() as usize,
                        max: max_peers_per_instrument,
                    })
                },
            r matches Ok((client, plan)) ==> {
                &&& client.spec_max_instruments() == max_instruments
                &&& client.spec_max_peers_per_instrument() == max_peers_per_instrument
                &&& client.routes().len() == address_book.entries@.len()
                &&& forall|i: int|
                    0 <= i < address_book.entries@.len() ==> (#[trigger] client.routes()[i]).0
                        == address_book.entries@[i].instrument_id
                &&& forall|i: int|
                    0 <= i < address_book.entries@.len() ==> (#[trigger] client.routes()[i]).1.len()
                        == address_book.entries@[i].peers@.len()
                &&& forall|i: int, k: int|
                    0 <= i < address_book.entries@.len() && 0 <= k
                        < address_book.entries@[i].peers@.len() ==> (#[trigger] client.routes()[i].1[k])
                        == (spec_peer_count_before(address_book, i) + k) as u64
                &&& plan.policy == policy
                &&& plan.jobs@.len() == spec_peer_count_before(
                    address_book,
                    address_book.entries@.len() as int,
                )
                &&& forall|j: int|
                    0 <= j < plan.jobs@.len() ==> (#[trigger] plan.jobs@[j]).connection_id == j
                        as u64 && plan.jobs@[j].port == port
                &&& forall|i: int, k: int|
                    0 <= i < address_book.entries@.len() && 0 <= k
                        < address_book.entries@[i].peers@.len() ==> (#[trigger] plan.jobs@[
                        spec_peer_count_before(address_book, i) + k
                    ]).address@ == address_book.entries@[i].peers@[k]@
            },
    {
        match validate_address_book(&address_book, max_instruments, max_peers_per_instrument) {
            Err(e) => {
                return Err(e);
            },
            Ok(()) => {},
        }
        let nb = address_book.entries.len();
        let mut entries: Vec<RouteEntry> = Vec::new();
        let mut jobs: Vec<ConnectJob> = Vec::new();
        let mut i: usize = 0;
        while i < nb
            invariant
                i <= nb,
                entries@.len() == i as int,
                jobs@.len() == spec_peer_count_before(address_book, i as int),
                forall|p: int|
                    0 <= p < i ==> (#[trigger] entries@[p]).instrument_id
                        == address_book.entries@[p].instrument_id,
                forall|p: int|
                    0 <= p < i ==> (#[trigger] entries@[p]).pool.connections().len()
                        == address_book.entries@[p].peers@.len(),
                forall|p: int, m: int|
                    0 <= p < i && 0 <= m < address_book.entries@[p].peers@.len() ==> (
                    #[trigger] entries@[p].pool.connections()[m]) == (spec_peer_count_before(
                        address_book,
                        p,
                    ) + m) as u64,
                forall|j: int|
                    0 <= j < jobs@.len() ==> (#[trigger] jobs@[j]).connection_id == j as u64
                        && jobs@[j].port == port,
                forall|p: int, m: int|
                    0 <= p < i && 0 <= m < address_book.entries@[p].peers@.len() ==> (
                    #[trigger] jobs@[spec_peer_count_before(address_book, p) + m]).address@
                        == address_book.entries@[p].peers@[m]@,
            decreases nb - i,
        {
            let mut pool = TcpConnectionPool::new(max_peers_per_instrument);
            let np = address_book.entries[i].peers.len();
            let ghost base = spec_peer_count_before(address_book, i as int);
            let mut k: usize = 0;
            while k < np
                invariant
                    k <= np,
                    pool.wf(),
                    pool.spec_capacity() == max_peers_per_instrument,
                    pool.connections().len() == k as int,
                    forall|m: int|
                        0 <= m < k ==> (#[trigger] pool.connections()[m]) == (base + m) as u64,
                    jobs@.len() == base + k,
                    forall|j: int|
                        0 <= j < jobs@.len() ==> (#[trigger] jobs@[j]).connection_id == j as u64
                            && jobs@[j].port == port,
                    forall|p: int, m: int|
                        0 <= p < i && 0 <= m < address_book.entries@[p].peers@.len() ==> (
                        #[trigger] jobs@[spec_peer_count_before(address_book, p) + m]).address@
                            == address_book.entries@[p].peers@[m]@,
                    forall|m: int|
                        0 <= m < k ==> (#[trigger] jobs@[base + m]).address@
                            == address_book.entries@[i as int].peers@[m]@,
                decreases np - k,
            {
                let id = jobs.len() as u64;
                match pool.add(id) {
                    Ok(()) => {},
                    Err(_) => {
                        return unreached();
                    },
                }
                jobs.push(
                    ConnectJob {
                        connection_id: id,
                        address: address_book.entries[i].peers[k].clone(),
                        port,
                    },
                );
                proof {
                    assert forall|p: int, m: int|
                        0 <= p < i && 0 <= m < address_book.entries@[p].peers@.len() implies (
                        #[trigger] jobs@[spec_peer_count_before(address_book, p) + m]).address@
                            == address_book.entries@[p].peers@[m]@ by {
                        lemma_peer_count_monotone(address_book, 0, p);
                        lemma_peer_count_monotone(address_book, p + 1, i as int);
                        assert(spec_peer_count_before(address_book, p + 1)
                            == spec_peer_count_before(address_book, p)
                            + address_book.entries@[p].peers@.len());
                    }
                }
                k = k + 1;
            }
            entries.push(
                RouteEntry { instrument_id: address_book.entries[i].instrument_id, pool },
            );
            i = i + 1;
        }
        let client = TcpClient { max_instruments, max_peers_per_instrument, entries };
        Ok((client, ConnectPlan { policy, jobs }))
    }

    /// How many instruments the table routes.
    pub fn instrument_count(&self) -> (n: usize)
        ensures
            n == self.routes().len(),
    {
        self.entries.len()
    }

    /// Looks the instrument up and starts a fan-out of the given bytes to
    /// its pool; fails, touching nothing, when the table does not route the
    /// instrument.
    pub fn send_raw(&self, instrument_id: &InstrumentId, payload: Vec<u8>) -> (r: Result<
        Broadcast,
        SendError,
    >)
        ensures
            r is Ok <==> self.spec_has_instrument(*instrument_id),
            r matches Ok(b) ==> {
                &&& b.target_ids() == self.spec_connections_of(*instrument_id)
                &&& b.payload_bytes() == payload@
                &&& b.written() == 0
                &&& !b.has_failed()
                &&& b.wf()
            },
            r matches Err(e) ==> e == (SendError::InstrumentNotFound {
                instrument_id: *instrument_id,
            }),
    {
        let n = self.entries.len();
        let mut i: usize = 0;
        while i < n
            invariant
                i <= n == self.entries@.len(),
                forall|j: int|
                    0 <= j < i ==> (#[trigger] self.entries@[j]).instrument_id != *instrument_id,
            decreases n - i,
        {
            if self.entries[i].instrument_id == *instrument_id {
                let b = self.entries[i].pool.send_to_all_bytes(payload);
                proof {
                    use_type_invariant(&*self);
                    assert forall|p: int, q: int|
                        0 <= p < q < self.routes().len() implies (#[trigger] self.routes()[p]).0
                        != (#[trigger] self.routes()[q]).0 by {
                        assert(self.entries@[p].instrument_id != self.entries@[q].instrument_id);
                    }
                    assert(self.routes()[i as int].0 == *instrument_id);
                    self.lemma_connections_of(i as int);
                }
                return Ok(b);
            }
            i = i + 1;
        }
        proof {
            assert forall|j: int|
                0 <= j < self.routes().len() implies (#[trigger] self.routes()[j]).0
                != *instrument_id by {
                assert(self.entries@[j].instrument_id != *instrument_id);
            }
        }
        Err(SendError::InstrumentNotFound { instrument_id: *instrument_id })
    }

    /// Serializes the record exactly once and fans the bytes out to the
    /// instrument's pool: the publish entry point.
    pub fn send<T: WireRecord>(&self, instrument_id: &InstrumentId, data: &T) -> (r: Result<
        Broadcast,
        SendError,
    >)
        ensures
            r is Ok <==> self.spec_has_instrument(*instrument_id),
            r matches Ok(b) ==> {
                &&& b.target_ids() == self.spec_connections_of(*instrument_id)
                &&& b.payload_bytes() == data.encoded()
                &&& b.written() == 0
                &&& !b.has_failed()
                &&& b.wf()
            },
            r matches Err(e) ==> e == (SendError::InstrumentNotFound {
                instrument_id: *instrument_id,
            }),
    {
        self.send_raw(instrument_id, data.encode())
    }
}

} // verus!
