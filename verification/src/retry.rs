//! The connection-establishment retry protocol.
//!
//! A retry policy is a first-class value: a delay sequence and a maximum
//! attempt count. Two policies exist, as the two client shapes need them: a
//! fixed-delay one with a large budget, to wait minutes for a slow-starting
//! peer, and an exponential-backoff one with a small budget, to fail fast.
//!
//! The protocol itself is a session value. The caller owning the socket
//! makes an attempt, and after a failure asks [`ConnectRetry::on_failure`]
//! whether to wait and retry or to give up: retries continue while attempts
//! remain in the budget, and stop exactly when it is spent — never earlier,
//! never later.

use vstd::prelude::*;

verus! {

/// Saturating doubling: the exponential backoff step.
pub open spec fn sat_double(d: u64) -> u64 {
    if d > u64::MAX / 2 {
        u64::MAX
    } else {
        (2 * d) as u64
    }
}

/// Saturating addition, for summing waited delays.
pub open spec fn sat_add(a: u64, b: u64) -> u64 {
    if a + b > u64::MAX {
        u64::MAX
    } else {
        (a + b) as u64
    }
}

/// A bounded retry schedule: how long to wait before each retry, and how
/// many connection attempts may be made in all.
#[derive(Clone, Copy, Debug, PartialEq, Eq, Structural)]
pub enum RetryPolicy {
    /// The same delay before every retry.
    Fixed { delay_ms: u64, max_attempts: u64 },
    /// A delay that doubles after every retry, saturating.
    Exponential { initial_delay_ms: u64, max_attempts: u64 },
}

impl RetryPolicy {
    /// Total connection attempts the policy allows, the first included.
    pub open spec fn spec_max_attempts(&self) -> u64 {
        match *self {
            RetryPolicy::Fixed { max_attempts, .. } => max_attempts,
            RetryPolicy::Exponential { max_attempts, .. } => max_attempts,
        }
    }

    /// The delay before the `k`-th retry, counting from one.
    pub open spec fn spec_delay(&self, k: nat) -> u64
        decreases k,
    {
        match *self {
            RetryPolicy::Fixed { delay_ms, .. } => delay_ms,
            RetryPolicy::Exponential { initial_delay_ms, .. } => if k <= 1 {
                initial_delay_ms
            } else {
                sat_double(self.spec_delay((k - 1) as nat))
            },
        }
    }

    pub fn fixed(delay_ms: u64, max_attempts: u64) -> (r: Self)
        requires
            max_attempts >= 1,
        ensures
            r == (RetryPolicy::Fixed { delay_ms, max_attempts }),
    {
        RetryPolicy::Fixed { delay_ms, max_attempts }
    }

    pub fn exponential(initial_delay_ms: u64, max_attempts: u64) -> (r: Self)
        requires
            max_attempts >= 1,
        ensures
            r == (RetryPolicy::Exponential { initial_delay_ms, max_attempts }),
    {
        RetryPolicy::Exponential { initial_delay_ms, max_attempts }
    }

    pub fn max_attempts(&self) -> (n: u64)
        ensures
            n == self.spec_max_attempts(),
    {
        match *self {
            RetryPolicy::Fixed { max_attempts, .. } => max_attempts,
            RetryPolicy::Exponential { max_attempts, .. } => max_attempts,
        }
    }

    /// The delay before the `k`-th retry, computed by walking the schedule.
    pub fn delay_before_retry(&self, k: u64) -> (d: u64)
        requires
            k >= 1,
        ensures
            d == self.spec_delay(k as nat),
    {
        match *self {
            RetryPolicy::Fixed { delay_ms, .. } => delay_ms,
            RetryPolicy::Exponential { initial_delay_ms, .. } => {
                let mut d = initial_delay_ms;
                let mut i: u64 = 1;
                while i < k
                    invariant
                        1 <= i <= k,
                        self is Exponential,
                        d == self.spec_delay(i as nat),
                    decreases k - i,
                {
                    d = if d > u64::MAX / 2 {
                        u64::MAX
                    } else {
                        2 * d
                    };
                    i = i + 1;
                }
                d
            },
        }
    }
}

/// What to do after a failed connection attempt.
#[derive(Clone, Copy, Debug, PartialEq, Eq, Structural)]
pub enum ConnectDecision {
    /// Wait this long, then attempt again.
    RetryAfter { delay_ms: u64 },
    /// The attempt budget is spent: fail with a connect error.
    GiveUp,
}

/// A peer was unreachable after the whole retry budget: where, how often
/// and how long the protocol tried, and what the last attempt reported.
#[derive(Debug, PartialEq, Eq)]
pub struct ConnectError {
    pub address: String,
    pub port: u16,
    pub attempts: u64,
    pub elapsed_ms: u64,
    pub last_cause: String,
}

/// One connection the caller is to establish: which peer, and under which
/// handle the finished connection will be known.
pub struct ConnectJob {
    pub connection_id: u64,
    pub address: String,
    pub port: u16,
}

/// Everything the caller needs to open the connections a client was built
/// over: the jobs in order, all dialed under one policy. Construction of the
/// client fails as a whole if any job's retry budget runs out.
pub struct ConnectPlan {
    pub policy: RetryPolicy,
    pub jobs: Vec<ConnectJob>,
}

/// One connection establishment in progress: the peer being dialed, the
/// policy, and how many attempts have failed so far.
pub struct ConnectRetry {
    address: String,
    port: u16,
    policy: RetryPolicy,
    attempts_made: u64,
    elapsed_ms: u64,
}

impl ConnectRetry {
    /// Failed attempts so far.
    pub closed spec fn attempts(&self) -> u64 {
        self.attempts_made
    }

    /// Total delay waited so far, saturating.
    pub closed spec fn elapsed(&self) -> u64 {
        self.elapsed_ms
    }

    pub closed spec fn retry_policy(&self) -> RetryPolicy {
        self.policy
    }

    pub closed spec fn peer_address(&self) -> Seq<char> {
        self.address@
    }

    pub closed spec fn peer_port(&self) -> u16 {
        self.port
    }

    /// Starts dialing one peer under the given policy; the first attempt
    /// may be made at once.
    pub fn new(address: String, port: u16, policy: RetryPolicy) -> (r: Self)
        requires
            policy.spec_max_attempts() >= 1,
        ensures
            r.attempts() == 0,
            r.elapsed() == 0,
            r.retry_policy() == policy,
            r.peer_address() == address@,
            r.peer_port() == port,
    {
        ConnectRetry { address, port, policy, attempts_made: 0, elapsed_ms: 0 }
    }

    /// Records one failed attempt and decides: while attempts remain in the
    /// budget the answer is the policy's next delay, and once the budget is
    /// spent — exactly at the maximum attempt count — it is to give up.
    pub fn on_failure(&mut self) -> (d: ConnectDecision)
        requires
            old(self).attempts() < old(self).retry_policy().spec_max_attempts(),
        ensures
            final(self).attempts() == old(self).attempts() + 1,
            final(self).retry_policy() == old(self).retry_policy(),
            final(self).peer_address() == old(self).peer_address(),
            final(self).peer_port() == old(self).peer_port(),
            final(self).attempts() < final(self).retry_policy().spec_max_attempts() ==> {
                &&& d == (ConnectDecision::RetryAfter {
                    delay_ms: old(self).retry_policy().spec_delay(final(self).attempts() as nat),
                })
                &&& final(self).elapsed() == sat_add(
                    old(self).elapsed(),
                    old(self).retry_policy().spec_delay(final(self).attempts() as nat),
                )
            },
            final(self).attempts() == final(self).retry_policy().spec_max_attempts() ==> {
                &&& d == ConnectDecision::GiveUp
                &&& final(self).elapsed() == old(self).elapsed()
            },
    {
        self.attempts_made = self.attempts_made + 1;
        if self.attempts_made < self.policy.max_attempts() {
            let delay = self.policy.delay_before_retry(self.attempts_made);
            self.elapsed_ms = self.elapsed_ms.saturating_add(delay);
            ConnectDecision::RetryAfter { delay_ms: delay }
        } else {
            ConnectDecision::GiveUp
        }
    }

    /// The error that surfaces once the budget is spent, carrying the peer,
    /// the attempt count, the waited time, and the last attempt's own report.
    pub fn into_error(self, last_cause: String) -> (e: ConnectError)
        ensures
            e.address@ == self.peer_address(),
            e.port == self.peer_port(),
            e.attempts == self.attempts(),
            e.elapsed_ms == self.elapsed(),
            e.last_cause == last_cause,
    {
        ConnectError {
            address: self.address,
            port: self.port,
            attempts: self.attempts_made,
            elapsed_ms: self.elapsed_ms,
            last_cause,
        }
    }
}

} // verus!
