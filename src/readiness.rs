//! The readiness poll of a freshly started agent server: probe at a fixed
//! interval, give up after a fixed number of failed probes.

use vstd::prelude::*;
use vstd::string::StringExecFns;

verus! {

/// How many failed probes the poll tolerates before giving up.
pub const RETRY_BUDGET: u32 = 50;

/// The pause between two probes, in milliseconds.
pub const PROBE_INTERVAL_MS: u64 = 200;

/// What the poll does after one probe.
#[derive(Debug, Clone, Copy, PartialEq, Eq, Structural)]
pub enum ProbeStep {
    /// The server answered; `retries` probes had failed before.
    Ready { retries: u32 },
    /// The server is not up yet: `failures` probes have failed so far; probe
    /// again after `delay_ms`.
    Retry { failures: u32, delay_ms: u64 },
    /// The budget is spent: `attempts` probes failed in all.
    TimedOut { attempts: u32 },
}

/// The step after a probe, given the failures before it and the budget.
pub open spec fn probe_step(failures: u32, budget: u32, reachable: bool) -> ProbeStep {
    if reachable {
        ProbeStep::Ready { retries: failures }
    } else if failures + 1 >= budget {
        ProbeStep::TimedOut { attempts: budget }
    } else {
        ProbeStep::Retry { failures: (failures + 1) as u32, delay_ms: PROBE_INTERVAL_MS }
    }
}

/// Decides what follows a probe. Any answer counts as reachable, whatever
/// its status; a connection failure counts as not yet.
pub fn next_probe_step(failures: u32, budget: u32, reachable: bool) -> (s: ProbeStep)
    requires
        failures < budget,
    ensures
        s == probe_step(failures, budget, reachable),
{
    if reachable {
        ProbeStep::Ready { retries: failures }
    } else if failures + 1 >= budget {
        ProbeStep::TimedOut { attempts: budget }
    } else {
        ProbeStep::Retry { failures: failures + 1, delay_ms: PROBE_INTERVAL_MS }
    }
}

/// Where a poll stands after the probes `probes`, started with `failures`
/// failed probes behind it: a `Retry` while it is still polling.
pub open spec fn poll_from(probes: Seq<bool>, failures: u32, budget: u32) -> ProbeStep
    decreases probes.len(),
{
    if probes.len() == 0 {
        ProbeStep::Retry { failures, delay_ms: PROBE_INTERVAL_MS }
    } else {
        match probe_step(failures, budget, probes[0]) {
            ProbeStep::Retry { failures: f, .. } => poll_from(probes.drop_first(), f, budget),
            done => done,
        }
    }
}

proof fn lemma_ready_from(probes: Seq<bool>, failures: u32, k: nat, budget: u32)
    requires
        failures + k < budget,
        k < probes.len(),
        forall|i: int| 0 <= i < k ==> !probes[i],
        probes[k as int],
    ensures
        poll_from(probes, failures, budget) == (ProbeStep::Ready { retries: (failures + k) as u32 }),
    decreases k,
{
    if k > 0 {
        let rest = probes.drop_first();
        assert forall|i: int| 0 <= i < (k - 1) as nat implies !rest[i] by {
            assert(rest[i] == probes[i + 1]);
        }
        lemma_ready_from(rest, (failures + 1) as u32, (k - 1) as nat, budget);
    }
}

proof fn lemma_fails_from(probes: Seq<bool>, failures: u32, budget: u32)
    requires
        failures < budget,
        forall|i: int| 0 <= i < probes.len() ==> !probes[i],
    ensures
        failures + probes.len() >= budget ==> poll_from(probes, failures, budget)
            == (ProbeStep::TimedOut { attempts: budget }),
        failures + probes.len() < budget ==> poll_from(probes, failures, budget)
            == (ProbeStep::Retry { failures: (failures + probes.len()) as u32, delay_ms: PROBE_INTERVAL_MS }),
    decreases probes.len(),
{
    if probes.len() > 0 && failures + 1 < budget {
        let rest = probes.drop_first();
        assert forall|i: int| 0 <= i < rest.len() implies !rest[i] by {
            assert(rest[i] == probes[i + 1]);
        }
        lemma_fails_from(rest, (failures + 1) as u32, budget);
    }
}

/// A server that answers the probe after `k` failed ones, with `k` under the
/// budget, is ready after exactly `k` retries.
pub proof fn lemma_ready_after_retries(probes: Seq<bool>, k: nat, budget: u32)
    requires
        k < budget,
        k < probes.len(),
        forall|i: int| 0 <= i < k ==> !probes[i],
        probes[k as int],
    ensures
        poll_from(probes, 0, budget) == (ProbeStep::Ready { retries: k as u32 }),
{
    lemma_ready_from(probes, 0, k, budget);
}

/// A server that never answers times out after exactly the budget of
/// probes, and not a probe before.
pub proof fn lemma_timeout_after_budget(probes: Seq<bool>, budget: u32)
    requires
        0 < budget,
        forall|i: int| 0 <= i < probes.len() ==> !probes[i],
    ensures
        probes.len() >= budget ==> poll_from(probes.take(budget as int), 0, budget)
            == (ProbeStep::TimedOut { attempts: budget }),
        forall|j: int| 0 <= j < budget && j <= probes.len() ==> #[trigger] poll_from(probes.take(j), 0, budget)
            is Retry,
{
    if probes.len() >= budget {
        lemma_fails_from(probes.take(budget as int), 0, budget);
    }
    assert forall|j: int| 0 <= j < budget && j <= probes.len() implies #[trigger] poll_from(probes.take(j), 0, budget)
        is Retry by {
        lemma_fails_from(probes.take(j), 0, budget);
    }
}

/// Why a session could not be set up.
#[derive(Debug, Clone, PartialEq)]
pub enum StartupError {
    /// No local port could be bound.
    Bind(String),
    /// The server task could not be started.
    Spawn(String),
    /// The server did not answer within the retry budget.
    Timeout,
    /// The client to the running server could not be built.
    Client(String),
}

impl StartupError {
    /// A line describing the error.
    pub fn message(&self) -> (r: String)
        ensures
            match self {
                StartupError::Bind(m) => r@ == "failed to bind a local port: "@ + m@,
                StartupError::Spawn(m) => r@ == "failed to start the agent server: "@ + m@,
                StartupError::Timeout => r@ == "Failed to start agent server"@,
                StartupError::Client(m) => r@ == "failed to connect to the agent server: "@ + m@,
            },
    {
        match self {
            StartupError::Bind(m) => {
                let mut r = String::from_str("failed to bind a local port: ");
                r.append(m.as_str());
                r
            },
            StartupError::Spawn(m) => {
                let mut r = String::from_str("failed to start the agent server: ");
                r.append(m.as_str());
                r
            },
            StartupError::Timeout => String::from_str("Failed to start agent server"),
            StartupError::Client(m) => {
                let mut r = String::from_str("failed to connect to the agent server: ");
                r.append(m.as_str());
                r
            },
        }
    }
}

} // verus!
