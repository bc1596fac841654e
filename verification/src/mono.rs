//! The flat multi-address client: one unkeyed run of connections.
//!
//! Where the routing table keys pools by instrument, this client holds one
//! flat, ordered run of peers and fans every record out to all of them. It
//! is the shape that wants the fail-fast exponential policy: all peers are
//! dialed up front, and a peer that stays unreachable fails construction as
//! a whole.

use vstd::prelude::*;

use crate::codec::WireRecord;
use crate::pool::{Broadcast, ConnectionId};
use crate::retry::{ConnectJob, ConnectPlan, RetryPolicy};

verus! {

/// One peer to dial: host and port.
pub struct PeerAddress {
    pub host: String,
    pub port: u16,
}

/// The flat client: every connection takes every record.
pub struct MonoTcpClient {
    conns: Vec<ConnectionId>,
}

impl MonoTcpClient {
    /// The members, in the order the address list gave them.
    pub closed spec fn connections(&self) -> Seq<ConnectionId> {
        self.conns@
    }

    /// Lays the client out over the given peers: one connect job per peer,
    /// in list order, all under one policy; the handles in the client are
    /// the jobs' own.
    pub fn new(address_book: Vec<PeerAddress>, policy: RetryPolicy) -> (r: (
        MonoTcpClient,
        ConnectPlan,
    ))
        requires
            policy.spec_max_attempts() >= 1,
        ensures
            r.0.connections().len() == address_book@.len(),
            forall|j: int|
                0 <= j < address_book@.len() ==> (#[trigger] r.0.connections()[j]) == j as u64,
            r.1.policy == policy,
            r.1.jobs@.len() == address_book@.len(),
            forall|j: int|
                0 <= j < address_book@.len() ==> {
                    &&& (#[trigger] r.1.jobs@[j]).connection_id == j as u64
                    &&& r.1.jobs@[j].address@ == address_book@[j].host@
                    &&& r.1.jobs@[j].port == address_book@[j].port
                },
    {
        let n = address_book.len();
        let mut conns: Vec<ConnectionId> = Vec::new();
        let mut jobs: Vec<ConnectJob> = Vec::new();
        let mut i: usize = 0;
        while i < n
            invariant
                i <= n == address_book@.len(),
                conns@.len() == i as int,
                jobs@.len() == i as int,
                forall|j: int| 0 <= j < i ==> (#[trigger] conns@[j]) == j as u64,
                forall|j: int|
                    0 <= j < i ==> {
                        &&& (#[trigger] jobs@[j]).connection_id == j as u64
                        &&& jobs@[j].address@ == address_book@[j].host@
                        &&& jobs@[j].port == address_book@[j].port
                    },
            decreases n - i,
        {
            let id = i as u64;
            conns.push(id);
            jobs.push(
                ConnectJob {
                    connection_id: id,
                    address: address_book[i].host.clone(),
                    port: address_book[i].port,
                },
            );
            i = i + 1;
        }
        (MonoTcpClient { conns }, ConnectPlan { policy, jobs })
    }

    /// How many peers the client writes to.
    pub fn len(&self) -> (n: usize)
        ensures
            n == self.connections().len(),
    {
        self.conns.len()
    }

    /// Serializes the record once and starts a fan-out of the bytes to
    /// every member, in list order.
    pub fn send<T: WireRecord>(&self, data: &T) -> (b: Broadcast)
        ensures
            b.target_ids() == self.connections(),
            b.payload_bytes() == data.encoded(),
            b.written() == 0,
            !b.has_failed(),
            b.wf(),
    {
        let payload = data.encode();
        let n = self.conns.len();
        let mut targets: Vec<ConnectionId> = Vec::new();
        let mut i: usize = 0;
        while i < n
            invariant
                i <= n == self.conns@.len(),
                targets@ == self.conns@.take(i as int),
            decreases n - i,
        {
            targets.push(self.conns[i]);
            proof {
                assert(targets@ =~= self.conns@.take(i as int + 1));
            }
            i = i + 1;
        }
        proof {
            assert(self.conns@.take(n as int) =~= self.conns@);
        }
        Broadcast::start(targets, payload)
    }
}

} // verus!
