//! Channel health checks: classification of one check's outcome and the
//! aggregate summary the doctor command reports.

use vstd::prelude::*;

verus! {

/// Seconds a single channel health check may take before it is classified
/// as timed out.
pub const HEALTH_CHECK_TIMEOUT_SECS: u64 = 10;

/// How one channel's `health_check` call ended: it completed with a
/// verdict, or the deadline elapsed first.
#[derive(Clone, Copy, Debug, PartialEq, Eq, Structural)]
pub enum HealthCheckOutcome {
    Completed(bool),
    TimedOut,
}

#[derive(Clone, Copy, Debug, PartialEq, Eq, Structural)]
pub enum ChannelHealthState {
    Healthy,
    Unhealthy,
    Timeout,
}

/// Classify a health-check outcome. A pure function: a completed check
/// reporting `true` is healthy, a completed check reporting `false` is
/// unhealthy, and an elapsed deadline is a timeout.
pub fn classify_health_result(result: &HealthCheckOutcome) -> (state: ChannelHealthState)
    ensures
        state == (match result {
            HealthCheckOutcome::Completed(true) => ChannelHealthState::Healthy,
            HealthCheckOutcome::Completed(false) => ChannelHealthState::Unhealthy,
            HealthCheckOutcome::TimedOut => ChannelHealthState::Timeout,
        }),
{
    match result {
        HealthCheckOutcome::Completed(true) => ChannelHealthState::Healthy,
        HealthCheckOutcome::Completed(false) => ChannelHealthState::Unhealthy,
        HealthCheckOutcome::TimedOut => ChannelHealthState::Timeout,
    }
}

/// Aggregate counts reported after a doctor run.
#[derive(Clone, Copy, Debug, PartialEq, Eq, Structural)]
pub struct HealthSummary {
    pub healthy: u32,
    pub unhealthy: u32,
    pub timeout: u32,
}

pub open spec fn count_state(outcomes: Seq<HealthCheckOutcome>, state: ChannelHealthState) -> int
    decreases outcomes.len(),
{
    if outcomes.len() == 0 {
        0
    } else {
        count_state(outcomes.drop_last(), state) + (if classify_spec(outcomes.last()) == state {
            1int
        } else {
            0int
        })
    }
}

/// Specification twin of [`classify_health_result`].
pub open spec fn classify_spec(result: HealthCheckOutcome) -> ChannelHealthState {
    match result {
        HealthCheckOutcome::Completed(true) => ChannelHealthState::Healthy,
        HealthCheckOutcome::Completed(false) => ChannelHealthState::Unhealthy,
        HealthCheckOutcome::TimedOut => ChannelHealthState::Timeout,
    }
}

/// Tally the classification of every configured channel's check.
pub fn summarize_health(outcomes: &Vec<HealthCheckOutcome>) -> (summary: HealthSummary)
    requires
        outcomes@.len() <= u32::MAX,
    ensures
        summary.healthy == count_state(outcomes@, ChannelHealthState::Healthy),
        summary.unhealthy == count_state(outcomes@, ChannelHealthState::Unhealthy),
        summary.timeout == count_state(outcomes@, ChannelHealthState::Timeout),
{
    let mut healthy: u32 = 0;
    let mut unhealthy: u32 = 0;
    let mut timeout: u32 = 0;
    let mut i: usize = 0;
    proof {
        lemma_count_state_bound(outcomes@.subrange(0, 0), ChannelHealthState::Healthy);
    }
    while i < outcomes.len()
        invariant
            i <= outcomes@.len(),
            outcomes@.len() <= u32::MAX,
            healthy == count_state(outcomes@.subrange(0, i as int), ChannelHealthState::Healthy),
            unhealthy == count_state(
                outcomes@.subrange(0, i as int),
                ChannelHealthState::Unhealthy,
            ),
            timeout == count_state(outcomes@.subrange(0, i as int), ChannelHealthState::Timeout),
        decreases outcomes@.len() - i,
    {
        proof {
            lemma_count_state_bound(outcomes@.subrange(0, i as int), ChannelHealthState::Healthy);
            lemma_count_state_bound(outcomes@.subrange(0, i as int), ChannelHealthState::Unhealthy);
            lemma_count_state_bound(outcomes@.subrange(0, i as int), ChannelHealthState::Timeout);
            lemma_count_state_prefix(outcomes@, i as int);
        }
        match classify_health_result(&outcomes[i]) {
            ChannelHealthState::Healthy => {
                healthy = healthy + 1;
            },
            ChannelHealthState::Unhealthy => {
                unhealthy = unhealthy + 1;
            },
            ChannelHealthState::Timeout => {
                timeout = timeout + 1;
            },
        }
        i = i + 1;
    }
    proof {
        assert(outcomes@.subrange(0, outcomes@.len() as int) == outcomes@);
    }
    HealthSummary { healthy, unhealthy, timeout }
}

proof fn lemma_count_state_bound(outcomes: Seq<HealthCheckOutcome>, state: ChannelHealthState)
    ensures
        0 <= count_state(outcomes, state) <= outcomes.len(),
    decreases outcomes.len(),
{
    if outcomes.len() > 0 {
        lemma_count_state_bound(outcomes.drop_last(), state);
    }
}

proof fn lemma_count_state_prefix(outcomes: Seq<HealthCheckOutcome>, i: int)
    requires
        0 <= i < outcomes.len(),
    ensures
        forall|state: ChannelHealthState|
            #[trigger] count_state(outcomes.subrange(0, i + 1), state) == count_state(
                outcomes.subrange(0, i),
                state,
            ) + (if classify_spec(outcomes[i]) == state {
                1int
            } else {
                0int
            }),
{
    assert forall|state: ChannelHealthState|
        #[trigger] count_state(outcomes.subrange(0, i + 1), state) == count_state(
            outcomes.subrange(0, i),
            state,
        ) + (if classify_spec(outcomes[i]) == state {
            1int
        } else {
            0int
        }) by {
        let p = outcomes.subrange(0, i + 1);
        assert(p.drop_last() =~= outcomes.subrange(0, i));
        assert(p.last() == outcomes[i]);
    }
}

} // verus!
