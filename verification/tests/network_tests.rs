use tickwire::codec::WireRecord;
use tickwire::model::{TickData, ACTION_ADD, SIDE_BID, TICK_DATA_SIZE};
use tickwire::mono::{MonoTcpClient, PeerAddress};
use tickwire::pool::{BroadcastStatus, CapacityExceeded, TcpConnectionPool};
use tickwire::retry::{ConnectDecision, ConnectRetry, RetryPolicy};
use tickwire::routing::{AddressBook, AddressBookEntry, CapacityError, SendError, TcpClient};

fn tick() -> TickData {
    TickData {
        timestamp: 11,
        price: 22,
        order_id: 33,
        sequence: 44,
        size: 55,
        instrument_id: 7,
        side: SIDE_BID,
        action: ACTION_ADD,
    }
}

fn book(entries: Vec<(u32, Vec<&str>)>) -> AddressBook {
    AddressBook {
        entries: entries
            .into_iter()
            .map(|(instrument_id, peers)| AddressBookEntry {
                instrument_id,
                peers: peers.into_iter().map(|p| p.to_string()).collect(),
            })
            .collect(),
    }
}

#[test]
fn fixed_policy_keeps_its_delay() {
    let p = RetryPolicy::fixed(5_000, 61);
    assert_eq!(p.max_attempts(), 61);
    for k in 1..61 {
        assert_eq!(p.delay_before_retry(k), 5_000);
    }
}

#[test]
fn exponential_policy_doubles_and_saturates() {
    let p = RetryPolicy::exponential(100, 13);
    assert_eq!(p.delay_before_retry(1), 100);
    assert_eq!(p.delay_before_retry(2), 200);
    assert_eq!(p.delay_before_retry(3), 400);
    assert_eq!(p.delay_before_retry(10), 51_200);
    let huge = RetryPolicy::exponential(u64::MAX - 1, 5);
    assert_eq!(huge.delay_before_retry(2), u64::MAX);
    assert_eq!(huge.delay_before_retry(3), u64::MAX);
}

#[test]
fn connect_retry_spends_the_whole_budget_and_no_more() {
    let policy = RetryPolicy::exponential(100, 4);
    let mut retry = ConnectRetry::new("198.51.100.9".to_string(), 9000, policy);
    // attempt 1 fails -> wait 100; attempt 2 fails -> wait 200; attempt 3
    // fails -> wait 400; attempt 4 fails -> budget spent.
    assert_eq!(retry.on_failure(), ConnectDecision::RetryAfter { delay_ms: 100 });
    assert_eq!(retry.on_failure(), ConnectDecision::RetryAfter { delay_ms: 200 });
    assert_eq!(retry.on_failure(), ConnectDecision::RetryAfter { delay_ms: 400 });
    assert_eq!(retry.on_failure(), ConnectDecision::GiveUp);
    let err = retry.into_error("connection refused".to_string());
    assert_eq!(err.address, "198.51.100.9");
    assert_eq!(err.port, 9000);
    assert_eq!(err.attempts, 4);
    assert_eq!(err.elapsed_ms, 700);
    assert_eq!(err.last_cause, "connection refused");
}

#[test]
fn pool_refuses_members_past_its_capacity() {
    let mut pool = TcpConnectionPool::new(2);
    assert_eq!(pool.capacity(), 2);
    assert!(pool.add(0).is_ok());
    assert!(pool.add(1).is_ok());
    assert_eq!(pool.add(2), Err(CapacityExceeded { capacity: 2 }));
    assert_eq!(pool.len(), 2);
}

#[test]
fn fanout_writes_members_in_order_and_stops_at_first_failure() {
    // pool members [A, B, C] as connections 0, 1, 2; B's write fails
    let mut pool = TcpConnectionPool::new(3);
    pool.add(0).unwrap();
    pool.add(1).unwrap();
    pool.add(2).unwrap();
    let mut sinks: Vec<Vec<u8>> = vec![Vec::new(), Vec::new(), Vec::new()];
    let mut fanout = pool.send_to_all(&tick());
    assert_eq!(fanout.status(), BroadcastStatus::InProgress);

    let first = fanout.next_target().expect("A is owed the payload");
    assert_eq!(first, 0);
    sinks[first as usize].extend_from_slice(fanout.payload());
    fanout.record_success();

    let second = fanout.next_target().expect("B is next, in pool order");
    assert_eq!(second, 1);
    // B's write fails: nothing lands in its sink
    fanout.record_failure();

    // C is never offered
    assert_eq!(fanout.next_target(), None);
    assert_eq!(fanout.status(), BroadcastStatus::Failed { written: 1 });
    // A received the whole payload, C received nothing
    assert_eq!(sinks[0], tick().encode());
    assert_eq!(sinks[0].len(), TICK_DATA_SIZE);
    assert!(sinks[1].is_empty());
    assert!(sinks[2].is_empty());
}

#[test]
fn table_capacity_is_enforced_before_any_connect_job_exists() {
    // more instruments than the table may hold
    let b = book(vec![(1, vec!["10.0.0.1"]), (2, vec!["10.0.0.2"]), (3, vec!["10.0.0.3"])]);
    let err = TcpClient::new(b, 9000, 2, 4, RetryPolicy::fixed(5_000, 61))
        .map(|_| ())
        .expect_err("three instruments, capacity two");
    assert_eq!(err, CapacityError::TooManyInstruments { count: 3, max: 2 });

    // one instrument with more peers than a pool may hold
    let b = book(vec![(1, vec!["10.0.0.1"]), (2, vec!["10.0.0.2", "10.0.0.3", "10.0.0.4"])]);
    let err = TcpClient::new(b, 9000, 8, 2, RetryPolicy::fixed(5_000, 61))
        .map(|_| ())
        .expect_err("three peers, capacity two");
    assert_eq!(err, CapacityError::TooManyPeers { instrument_id: 2, count: 3, max: 2 });
    // construction failed as a whole: there is no table and no connect plan,
    // so no connection attempt was ever requested.
}

#[test]
fn table_plan_lists_every_peer_in_book_order() {
    let b = book(vec![(7, vec!["10.0.0.1", "10.0.0.2"]), (9, vec!["10.0.0.3"])]);
    let (client, plan) =
        TcpClient::new(b, 9000, 8, 4, RetryPolicy::fixed(5_000, 61)).expect("within bounds");
    assert_eq!(client.instrument_count(), 2);
    assert_eq!(plan.policy, RetryPolicy::fixed(5_000, 61));
    assert_eq!(plan.jobs.len(), 3);
    for (j, job) in plan.jobs.iter().enumerate() {
        assert_eq!(job.connection_id, j as u64);
        assert_eq!(job.port, 9000);
    }
    assert_eq!(plan.jobs[0].address, "10.0.0.1");
    assert_eq!(plan.jobs[1].address, "10.0.0.2");
    assert_eq!(plan.jobs[2].address, "10.0.0.3");
}

#[test]
fn single_instrument_two_subscribers_get_identical_bytes() {
    let b = book(vec![(7, vec!["10.0.0.1", "10.0.0.2"])]);
    let (client, plan) =
        TcpClient::new(b, 9000, 4, 4, RetryPolicy::fixed(5_000, 61)).expect("within bounds");
    assert_eq!(plan.jobs.len(), 2);
    let mut sinks: Vec<Vec<u8>> = vec![Vec::new(), Vec::new()];
    let mut fanout = client.send(&7, &tick()).expect("instrument 7 is routed");
    while let Some(target) = fanout.next_target() {
        sinks[target as usize].extend_from_slice(fanout.payload());
        fanout.record_success();
    }
    assert_eq!(fanout.status(), BroadcastStatus::Complete);
    assert_eq!(sinks[0].len(), TICK_DATA_SIZE);
    assert_eq!(sinks[0], sinks[1]);
    assert_eq!(sinks[0], tick().encode());
}

#[test]
fn unknown_instrument_is_an_error_and_no_member_is_written() {
    let b = book(vec![(7, vec!["10.0.0.1", "10.0.0.2"])]);
    let (client, _plan) =
        TcpClient::new(b, 9000, 4, 4, RetryPolicy::fixed(5_000, 61)).expect("within bounds");
    let err = client.send(&999, &tick()).map(|_| ()).expect_err("999 is not routed");
    assert_eq!(err, SendError::InstrumentNotFound { instrument_id: 999 });
    // the error came from the lookup alone: no fan-out session exists, so no
    // target was ever offered and no byte moved.
}

#[test]
fn send_raw_skips_serialization() {
    let b = book(vec![(7, vec!["10.0.0.1"])]);
    let (client, _plan) =
        TcpClient::new(b, 9000, 4, 4, RetryPolicy::fixed(5_000, 61)).expect("within bounds");
    let payload = vec![0xAB; 64];
    let mut fanout = client.send_raw(&7, payload.clone()).expect("routed");
    assert_eq!(fanout.payload(), &payload);
    let t = fanout.next_target().expect("one member");
    assert_eq!(t, 0);
    fanout.record_success();
    assert_eq!(fanout.status(), BroadcastStatus::Complete);
}

#[test]
fn address_book_well_formedness_check() {
    let good = book(vec![(1, vec!["10.0.0.1"]), (2, vec!["10.0.0.2"])]);
    assert!(good.is_well_formed());
    let dup = book(vec![(1, vec!["10.0.0.1"]), (1, vec!["10.0.0.2"])]);
    assert!(!dup.is_well_formed());
    let dup_apart = book(vec![(1, vec![]), (2, vec![]), (1, vec![])]);
    assert!(!dup_apart.is_well_formed());
    let empty = book(vec![]);
    assert!(empty.is_well_formed());
}

#[test]
fn mono_client_fans_out_to_every_address() {
    let addrs = vec![
        PeerAddress { host: "10.0.0.1".to_string(), port: 9000 },
        PeerAddress { host: "10.0.0.2".to_string(), port: 9001 },
    ];
    let (client, plan) = MonoTcpClient::new(addrs, RetryPolicy::exponential(100, 13));
    assert_eq!(client.len(), 2);
    assert_eq!(plan.jobs.len(), 2);
    assert_eq!(plan.jobs[0].address, "10.0.0.1");
    assert_eq!(plan.jobs[0].port, 9000);
    assert_eq!(plan.jobs[1].address, "10.0.0.2");
    assert_eq!(plan.jobs[1].port, 9001);
    let mut sinks: Vec<Vec<u8>> = vec![Vec::new(), Vec::new()];
    let mut fanout = client.send(&tick());
    while let Some(target) = fanout.next_target() {
        sinks[target as usize].extend_from_slice(fanout.payload());
        fanout.record_success();
    }
    assert_eq!(fanout.status(), BroadcastStatus::Complete);
    assert_eq!(sinks[0], tick().encode());
    assert_eq!(sinks[0], sinks[1]);
}

#[test]
fn fixed_policy_retry_accumulates_elapsed_time() {
    let policy = RetryPolicy::fixed(5_000, 3);
    let mut retry = ConnectRetry::new("203.0.113.1".to_string(), 4000, policy);
    assert_eq!(retry.on_failure(), ConnectDecision::RetryAfter { delay_ms: 5_000 });
    assert_eq!(retry.on_failure(), ConnectDecision::RetryAfter { delay_ms: 5_000 });
    assert_eq!(retry.on_failure(), ConnectDecision::GiveUp);
    let err = retry.into_error("timed out".to_string());
    assert_eq!(err.attempts, 3);
    assert_eq!(err.elapsed_ms, 10_000);
}
