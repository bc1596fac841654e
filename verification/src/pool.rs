//! The connection pool for one routing key, and its fan-out session.
//!
//! A pool is an ordered, capacity-bounded run of connection handles. Writing
//! a record to the pool is a fan-out: the same bytes go to every member, in
//! pool order. The pool itself never touches a socket — a fan-out is a
//! session value that hands the caller one member at a time and takes the
//! write outcome back. A failure on one member aborts the whole fan-out at
//! once: members after it are not attempted in that call, deliberately, so
//! a failure is visible rather than papered over.

use vstd::prelude::*;

use crate::codec::WireRecord;

verus! {

/// A caller-side handle naming one live connection.
pub type ConnectionId = u64;

/// The pool was already full: adding a member would exceed the capacity it
/// was built with.
#[derive(Clone, Copy, Debug, PartialEq, Eq, Structural)]
pub struct CapacityExceeded {
    pub capacity: usize,
}

/// The ordered, bounded run of connections serving one routing key.
pub struct TcpConnectionPool {
    capacity: usize,
    conns: Vec<ConnectionId>,
}

impl TcpConnectionPool {
    /// The bound fixed at construction: members never exceed it.
    pub closed spec fn spec_capacity(&self) -> usize {
        self.capacity
    }

    /// The members, in insertion order.
    pub closed spec fn connections(&self) -> Seq<ConnectionId> {
        self.conns@
    }

    pub open spec fn wf(&self) -> bool {
        self.connections().len() <= self.spec_capacity()
    }

    pub fn new(capacity: usize) -> (r: Self)
        ensures
            r.wf(),
            r.spec_capacity() == capacity,
            r.connections() == Seq::<ConnectionId>::empty(),
    {
        TcpConnectionPool { capacity, conns: Vec::new() }
    }

    pub fn len(&self) -> (n: usize)
        ensures
            n == self.connections().len(),
    {
        self.conns.len()
    }

    pub fn capacity(&self) -> (n: usize)
        ensures
            n == self.spec_capacity(),
    {
        self.capacity
    }

    /// Appends a freshly connected member, or refuses it — leaving the pool
    /// unchanged — exactly when the pool is already at capacity.
    pub fn add(&mut self, conn: ConnectionId) -> (r: Result<(), CapacityExceeded>)
        requires
            old(self).wf(),
        ensures
            final(self).wf(),
            final(self).spec_capacity() == old(self).spec_capacity(),
            old(self).connections().len() < old(self).spec_capacity() ==> {
                &&& r is Ok
                &&& final(self).connections() == old(self).connections().push(conn)
            },
            old(self).connections().len() == old(self).spec_capacity() ==> {
                &&& r == Err::<(), CapacityExceeded>(
                    CapacityExceeded { capacity: old(self).spec_capacity() },
                )
                &&& final(self).connections() == old(self).connections()
            },
    {
        if self.conns.len() < self.capacity {
            self.conns.push(conn);
            Ok(())
        } else {
            Err(CapacityExceeded { capacity: self.capacity })
        }
    }

    /// Starts a fan-out of an already encoded payload to every member, in
    /// pool order.
    pub fn send_to_all_bytes(&self, payload: Vec<u8>) -> (b: Broadcast)
        ensures
            b.target_ids() == self.connections(),
            b.payload_bytes() == payload@,
            b.written() == 0,
            !b.has_failed(),
            b.wf(),
    {
        let n = self.conns.len();
        let mut targets: Vec<ConnectionId> = Vec::new();
        let mut i: usize = 0;
        while i < n
            invariant
                i <= n == self.conns@.len(),
                targets@ == self.conns@.take(i as int),
            decreases n - i,
        {
            targets.push(self.conns[i]);
            proof {
                assert(targets@ =~= self.conns@.take(i as int + 1));
            }
            i = i + 1;
        }
        proof {
            assert(self.conns@.take(n as int) =~= self.conns@);
        }
        Broadcast { targets, payload, written: 0, failed: false }
    }

    /// Serializes the record once and starts a fan-out of the bytes to
    /// every member, in pool order.
    pub fn send_to_all<T: WireRecord>(&self, data: &T) -> (b: Broadcast)
        ensures
            b.target_ids() == self.connections(),
            b.payload_bytes() == data.encoded(),
            b.written() == 0,
            !b.has_failed(),
            b.wf(),
    {
        self.send_to_all_bytes(data.encode())
    }
}

/// How a finished or unfinished fan-out stands.
#[derive(Clone, Copy, Debug, PartialEq, Eq, Structural)]
pub enum BroadcastStatus {
    /// Members remain to be written.
    InProgress,
    /// Every member took the payload.
    Complete,
    /// A member's write failed after `written` members took the payload;
    /// the members after it were not attempted.
    Failed { written: usize },
}

/// One fan-out call in progress: the payload, the members still owed it,
/// and what has happened so far.
///
/// The caller owning the sockets drives it: [`Broadcast::next_target`] names
/// the one member to write next, and the caller reports how the write went.
/// Targets come out in pool order, and after the first reported failure no
/// further target comes out: the fan-out is over, visibly partial.
pub struct Broadcast {
    targets: Vec<ConnectionId>,
    payload: Vec<u8>,
    written: usize,
    failed: bool,
}

impl Broadcast {
    /// Starts a fresh fan-out of the payload over the given targets.
    pub(crate) fn start(targets: Vec<ConnectionId>, payload: Vec<u8>) -> (b: Broadcast)
        ensures
            b.target_ids() == targets@,
            b.payload_bytes() == payload@,
            b.written() == 0,
            !b.has_failed(),
            b.wf(),
    {
        Broadcast { targets, payload, written: 0, failed: false }
    }

    /// The members to write, in order.
    pub closed spec fn target_ids(&self) -> Seq<ConnectionId> {
        self.targets@
    }

    /// The bytes every member is owed.
    pub closed spec fn payload_bytes(&self) -> Seq<u8> {
        self.payload@
    }

    /// How many members have taken the payload.
    pub closed spec fn written(&self) -> usize {
        self.written
    }

    /// Whether a member's write has failed.
    pub closed spec fn has_failed(&self) -> bool {
        self.failed
    }

    pub open spec fn wf(&self) -> bool {
        self.written() <= self.target_ids().len()
    }

    /// The member to write next: the first not yet written, unless the
    /// fan-out has failed or finished.
    pub open spec fn spec_next_target(&self) -> Option<ConnectionId> {
        if !self.has_failed() && (self.written() as int) < self.target_ids().len() {
            Some(self.target_ids()[self.written() as int])
        } else {
            None
        }
    }

    pub fn next_target(&self) -> (r: Option<ConnectionId>)
        requires
            self.wf(),
        ensures
            r == self.spec_next_target(),
    {
        if !self.failed && self.written < self.targets.len() {
            Some(self.targets[self.written])
        } else {
            None
        }
    }

    pub fn payload(&self) -> (p: &Vec<u8>)
        ensures
            p@ == self.payload_bytes(),
    {
        &self.payload
    }

    /// The caller wrote and flushed the payload to the current target.
    pub fn record_success(&mut self)
        requires
            old(self).wf(),
            old(self).spec_next_target() is Some,
        ensures
            final(self).wf(),
            final(self).target_ids() == old(self).target_ids(),
            final(self).payload_bytes() == old(self).payload_bytes(),
            final(self).written() == old(self).written() + 1,
            !final(self).has_failed(),
    {
        let n = self.targets.len();
        assert(self.written < n);
        self.written = self.written + 1;
    }

    /// The write to the current target failed: the fan-out aborts, and no
    /// further target will be offered.
    pub fn record_failure(&mut self)
        requires
            old(self).wf(),
            old(self).spec_next_target() is Some,
        ensures
            final(self).wf(),
            final(self).target_ids() == old(self).target_ids(),
            final(self).payload_bytes() == old(self).payload_bytes(),
            final(self).written() == old(self).written(),
            final(self).has_failed(),
            final(self).spec_next_target() is None,
    {
        self.failed = true;
    }

    /// Where the fan-out stands: complete, still in progress, or failed
    /// after `written` members.
    pub fn status(&self) -> (r: BroadcastStatus)
        requires
            self.wf(),
        ensures
            self.has_failed() ==> r == (BroadcastStatus::Failed { written: self.written() }),
            !self.has_failed() && self.written() == self.target_ids().len() ==> r
                == BroadcastStatus::Complete,
            !self.has_failed() && (self.written() as int) < self.target_ids().len() ==> r
                == BroadcastStatus::InProgress,
    {
        if self.failed {
            BroadcastStatus::Failed { written: self.written }
        } else if self.written == self.targets.len() {
            BroadcastStatus::Complete
        } else {
            BroadcastStatus::InProgress
        }
    }
}

/// Law: a fan-out visits members in pool order — the target offered next is
/// always the first member not yet written — and after a failure it offers
/// none at all, so members past the failed one are never attempted.
pub proof fn lemma_fanout_order_and_abort(b: Broadcast)
    requires
        b.wf(),
    ensures
        b.has_failed() ==> b.spec_next_target() is None,
        !b.has_failed() && (b.written() as int) < b.target_ids().len()
            ==> b.spec_next_target() == Some(b.target_ids()[b.written() as int]),
        !b.has_failed() && b.written() == b.target_ids().len() ==> b.spec_next_target() is None,
{
}

} // verus!
