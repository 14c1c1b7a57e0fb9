//! The fixed shape of one orchestrator run and its final report.
//!
//! The delays, poll counts and the retry budget are one immutable
//! configuration value, constructed once at startup and passed into the
//! launch and verification steps rather than read as ambient constants.

use vstd::prelude::*;
use crate::supervise::PolicyModel;
use crate::supervise::PollVerdict;
use crate::supervise::VerifyPolicy;
use crate::supervise::is_success;

verus! {

/// The timing and retry parameters of one run.  All waits are fixed
/// polling intervals, so a phase's elapsed time is its poll count times
/// its interval.
#[derive(Clone, Copy, PartialEq, Eq, Structural, Debug)]
pub struct Config {
    /// Wait before the first cleanup pass.
    pub startup_delay_millis: u64,
    /// Wait after a cleanup pass that terminated something.
    pub cleanup_delay_millis: u64,
    /// Poll budget of one verification phase.
    pub poll_count: u32,
    /// Wait between two verification polls.
    pub poll_interval_millis: u64,
    /// Launch attempts the first portal may use before the run gives up.
    pub max_attempts: u32,
    /// Settle time between the verified first portal and the second
    /// portal's launch; the second portal gets no settle time after it.
    pub settle_after_first_millis: u64,
}

/// The values this system runs with.
pub fn standard_config() -> (c: Config)
    ensures
        c == (Config {
            startup_delay_millis: 1000,
            cleanup_delay_millis: 500,
            poll_count: 20,
            poll_interval_millis: 100,
            max_attempts: 3,
            settle_after_first_millis: 2000,
        }),
{
    Config {
        startup_delay_millis: 1000,
        cleanup_delay_millis: 500,
        poll_count: 20,
        poll_interval_millis: 100,
        max_attempts: 3,
        settle_after_first_millis: 2000,
    }
}

/// The first portal's verification policy: presence of some portal
/// process over the whole poll budget.
pub fn first_portal_policy() -> (p: VerifyPolicy)
    ensures
        p@ is PresenceBased,
{
    VerifyPolicy::PresenceBased
}

/// The second portal's verification policy: its exact process name, with
/// the first portal's name as the degraded fallback.
pub fn second_portal_policy() -> (p: VerifyPolicy)
    ensures
        p@ == (PolicyModel::ExactNameWithFallback {
            exact_name: "xdg-desktop-portal"@,
            fallback_name: "xdg-desktop-portal-hyprland"@,
        }),
{
    VerifyPolicy::ExactNameWithFallback {
        exact_name: String::from_str("xdg-desktop-portal"),
        fallback_name: String::from_str("xdg-desktop-portal-hyprland"),
    }
}

/// How a whole run ended.
#[derive(Clone, Copy, PartialEq, Eq, Structural, Debug)]
pub enum RunOutcome {
    /// Both portals came up, the second possibly in the degraded form.
    CompletedSuccessfully,
    /// The run finished but the second portal's verification failed.
    CompletedWithErrors,
    /// The first portal failed every budgeted attempt.
    GaveUpAfterRetries,
}

/// The final report of a run that reached the second portal: success
/// exactly when the second portal's phase ended in a success verdict,
/// the degraded one included.
pub fn final_outcome(second_portal_verdict: PollVerdict) -> (o: RunOutcome)
    ensures
        (o is CompletedSuccessfully) <==> is_success(second_portal_verdict),
        !(o is GaveUpAfterRetries),
{
    match second_portal_verdict {
        PollVerdict::Verified | PollVerdict::VerifiedDegraded => RunOutcome::CompletedSuccessfully,
        _ => RunOutcome::CompletedWithErrors,
    }
}

/// The process exit status of a finished run: zero on every path, the
/// exceeded-retries early return included.  That failure is reported in
/// the log, never in the exit status.
pub fn exit_status(outcome: &RunOutcome) -> (code: i32)
    ensures
        code == 0,
{
    match outcome {
        RunOutcome::CompletedSuccessfully => 0,
        RunOutcome::CompletedWithErrors => 0,
        RunOutcome::GaveUpAfterRetries => 0,
    }
}

} // verus!
