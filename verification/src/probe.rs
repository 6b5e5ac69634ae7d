//! Readiness polling: a fixed number of health checks at a fixed interval.

use vstd::prelude::*;
use crate::error::StartError;
use crate::service::Service;

verus! {

/// The pause before each health check, in milliseconds.
pub const POLL_INTERVAL_MS: u64 = 500;

/// How many health checks a service gets before the start-up gives up.
pub const POLL_ATTEMPTS: u32 = 20;

/// A progress notice follows every failed check whose number is a multiple of this.
pub const NOTICE_EVERY: u32 = 4;

/// Check number `k`, counted from zero, is the first that succeeded, and it
/// lies within the budget of `attempts` checks.
pub open spec fn is_first_success(k: int, results: Seq<bool>, attempts: int) -> bool {
    &&& 0 <= k < attempts
    &&& k < results.len()
    &&& results[k]
    &&& forall|j: int| 0 <= j < k ==> !results[j]
}

/// None of the checks that the budget allows has succeeded. A check that was
/// never answered counts as failed.
pub open spec fn never_ready(results: Seq<bool>, attempts: int) -> bool {
    forall|j: int| 0 <= j < attempts && j < results.len() ==> !results[j]
}

/// What the polling does after one health check.
#[derive(Clone, Copy, Debug, PartialEq, Eq)]
pub enum ProbeStep {
    /// The check succeeded: the service is ready.
    Ready,
    /// The check failed and the budget allows another one.
    Retry,
    /// The check failed and it was the last of the budget.
    TimedOut,
}

/// The step that follows check number `attempt`, counted from zero, of a
/// budget of `attempts`.
pub open spec fn probe_step_of(attempt: u32, attempts: u32, success: bool) -> ProbeStep {
    if success {
        ProbeStep::Ready
    } else if attempt + 1 < attempts {
        ProbeStep::Retry
    } else {
        ProbeStep::TimedOut
    }
}

/// Decides how the polling goes on once check number `attempt` has answered.
/// The first success ends it at once.
pub fn probe_step(attempt: u32, attempts: u32, success: bool) -> (step: ProbeStep)
    ensures
        step == probe_step_of(attempt, attempts, success),
{
    if success {
        ProbeStep::Ready
    } else if attempts > 0 && attempt < attempts - 1 {
        ProbeStep::Retry
    } else {
        ProbeStep::TimedOut
    }
}

/// The seconds of waiting to report after failed check number `attempt`, if
/// a notice is due: one is after checks 0, 4, 8 and so on, and two checks make
/// a second.
pub open spec fn notice_of(attempt: u32) -> Option<u32> {
    if attempt % NOTICE_EVERY == 0 {
        Some(attempt / 2)
    } else {
        None
    }
}

/// The progress notice that follows failed check number `attempt`, so that a
/// long wait can be watched without a line for every check.
pub fn progress_notice(attempt: u32) -> (notice: Option<u32>)
    ensures
        notice == notice_of(attempt),
{
    if attempt % NOTICE_EVERY == 0 {
        Some(attempt / 2)
    } else {
        None
    }
}

/// Replays the polling of `service` on `port` against recorded check results,
/// `results[i]` being the answer to check number `i`.
///
/// Returns how many checks were made up to and including the first success.
/// Fails with [`StartError::ReadinessTimeout`] exactly when no check within
/// the budget succeeded.
pub fn await_ready(service: Service, port: u16, results: &Vec<bool>, attempts: u32) -> (outcome:
    Result<u32, StartError>)
    ensures
        match outcome {
            Ok(made) => made >= 1 && is_first_success(made - 1, results@, attempts as int),
            Err(e) => e == (StartError::ReadinessTimeout { service, port }) && never_ready(
                results@,
                attempts as int,
            ),
        },
{
    let mut attempt: u32 = 0;
    while attempt < attempts && (attempt as usize) < results.len()
        invariant
            forall|j: int| 0 <= j < attempt ==> !results@[j],
        decreases attempts - attempt,
    {
        match probe_step(attempt, attempts, results[attempt as usize]) {
            ProbeStep::Ready => {
                return Ok(attempt + 1);
            },
            ProbeStep::Retry => {
                attempt += 1;
            },
            ProbeStep::TimedOut => {
                return Err(StartError::ReadinessTimeout { service, port });
            },
        }
    }
    Err(StartError::ReadinessTimeout { service, port })
}

} // verus!
