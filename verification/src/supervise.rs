//! The startup verifier and retry controller.
//!
//! After a launch the orchestrator polls the scanner a fixed number of
//! times.  The success test depends on the daemon: the first portal is
//! verified by continued presence over the whole poll budget, the second
//! by its exact name at any poll, falling back on the first portal's
//! continued presence.  A failed first-portal attempt advances a bounded
//! retry counter; the whole loop never launches more than the configured
//! number of attempts.  The surrounding program performs the launches,
//! the sleeps and the scans, and hands each scan result in as a value.

use vstd::prelude::*;
use crate::process::ProcessRecord;

verus! {

/// How a daemon's startup is judged, over character sequences.
pub enum PolicyModel {
    /// Verified when every polled snapshot shows at least one matching
    /// process; failed the moment one shows none.
    PresenceBased,
    /// Verified when a process named `exact_name` is seen; when it is
    /// missing at some poll, a process named `fallback_name` still counts
    /// as degraded success, and neither ends the phase at once.
    ExactNameWithFallback { exact_name: Seq<char>, fallback_name: Seq<char> },
}

/// An executable verification policy; its view is the [`PolicyModel`] it
/// stands for.
pub enum VerifyPolicy {
    PresenceBased,
    ExactNameWithFallback { exact_name: String, fallback_name: String },
}

impl View for VerifyPolicy {
    type V = PolicyModel;

    open spec fn view(&self) -> PolicyModel {
        match self {
            VerifyPolicy::PresenceBased => PolicyModel::PresenceBased,
            VerifyPolicy::ExactNameWithFallback { exact_name, fallback_name } => {
                PolicyModel::ExactNameWithFallback {
                    exact_name: exact_name@,
                    fallback_name: fallback_name@,
                }
            },
        }
    }
}

/// What one poll concludes.
#[derive(Clone, Copy, PartialEq, Eq, Structural, Debug)]
pub enum PollVerdict {
    /// Nothing decided yet; poll again.
    KeepPolling,
    /// The daemon is up.
    Verified,
    /// The exact daemon is not up, but the fallback carries the fleet.
    VerifiedDegraded,
    /// This launch attempt failed.
    FailedAttempt,
}

/// Verified, possibly in the degraded form.
pub open spec fn is_success(v: PollVerdict) -> bool {
    v is Verified || v is VerifiedDegraded
}

/// Some record of the snapshot carries exactly this name.
pub open spec fn has_record_named(records: Seq<ProcessRecord>, name: Seq<char>) -> bool {
    exists|i: int| 0 <= i < records.len() && (#[trigger] records[i]).name@ == name
}

/// The verdict of one poll under a policy.  `last` says whether the poll
/// budget is exhausted after this poll.
pub open spec fn poll_verdict_spec(
    policy: PolicyModel,
    records: Seq<ProcessRecord>,
    last: bool,
) -> PollVerdict {
    match policy {
        PolicyModel::PresenceBased => if records.len() == 0 {
            PollVerdict::FailedAttempt
        } else if last {
            PollVerdict::Verified
        } else {
            PollVerdict::KeepPolling
        },
        PolicyModel::ExactNameWithFallback { exact_name, fallback_name } => if has_record_named(
            records,
            exact_name,
        ) {
            if last {
                PollVerdict::Verified
            } else {
                PollVerdict::KeepPolling
            }
        } else if has_record_named(records, fallback_name) {
            PollVerdict::VerifiedDegraded
        } else {
            PollVerdict::FailedAttempt
        },
    }
}

fn has_named(records: &Vec<ProcessRecord>, name: &str) -> (r: bool)
    ensures
        r == has_record_named(records@, name@),
{
    let mut i: usize = 0;
    while i < records.len()
        invariant
            i <= records@.len(),
            forall|k: int| 0 <= k < i ==> (#[trigger] records@[k]).name@ != name@,
        decreases records@.len() - i,
    {
        if crate::strutil::str_eq(records[i].name.as_str(), name) {
            return true;
        }
        i += 1;
    }
    false
}

/// Judges one scan result.  Under the presence policy an empty snapshot
/// fails the attempt at once and a populated one verifies only once the
/// budget is spent.  Under the exact-name policy the exact name keeps the
/// phase alive until the budget verifies it; the moment it is missing,
/// the fallback name decides between degraded success and failure.
pub fn poll_decision(policy: &VerifyPolicy, records: &Vec<ProcessRecord>, last: bool) -> (v:
    PollVerdict)
    ensures
        v == poll_verdict_spec(policy@, records@, last),
{
    match policy {
        VerifyPolicy::PresenceBased => {
            if records.len() == 0 {
                PollVerdict::FailedAttempt
            } else if last {
                PollVerdict::Verified
            } else {
                PollVerdict::KeepPolling
            }
        },
        VerifyPolicy::ExactNameWithFallback { exact_name, fallback_name } => {
            if has_named(records, exact_name.as_str()) {
                if last {
                    PollVerdict::Verified
                } else {
                    PollVerdict::KeepPolling
                }
            } else if has_named(records, fallback_name.as_str()) {
                PollVerdict::VerifiedDegraded
            } else {
                PollVerdict::FailedAttempt
            }
        },
    }
}

/// The outcome of one poll phase started at poll `i` of the script:
/// the first decisive verdict and the number of polls consumed.
pub open spec fn phase_result_from(
    policy: PolicyModel,
    snaps: Seq<Vec<ProcessRecord>>,
    i: int,
) -> (PollVerdict, int)
    decreases snaps.len() - i,
{
    if i < 0 || i >= snaps.len() {
        (PollVerdict::FailedAttempt, i)
    } else {
        let v = poll_verdict_spec(policy, snaps[i]@, i == snaps.len() - 1);
        if v is KeepPolling {
            phase_result_from(policy, snaps, i + 1)
        } else {
            (v, i + 1)
        }
    }
}

/// The outcome of one whole poll phase over a script of scan results.
pub open spec fn phase_result(policy: PolicyModel, snaps: Seq<Vec<ProcessRecord>>) -> (
    PollVerdict,
    int,
) {
    phase_result_from(policy, snaps, 0)
}

/// A phase started inside the script always ends on a decisive verdict
/// and consumes between one and the budgeted number of polls.
pub proof fn lemma_phase_result_bounds(policy: PolicyModel, snaps: Seq<Vec<ProcessRecord>>, i: int)
    requires
        0 <= i < snaps.len(),
    ensures
        !(phase_result_from(policy, snaps, i).0 is KeepPolling),
        i + 1 <= phase_result_from(policy, snaps, i).1 <= snaps.len(),
    decreases snaps.len() - i,
{
    let v = poll_verdict_spec(policy, snaps[i]@, i == snaps.len() - 1);
    if v is KeepPolling {
        lemma_phase_result_bounds(policy, snaps, i + 1);
    }
}

/// Runs one poll phase over a pre-recorded script of scan results, one
/// snapshot per poll, the script's length being the poll budget.
pub fn run_poll_phase(policy: &VerifyPolicy, snaps: &Vec<Vec<ProcessRecord>>) -> (r: (
    PollVerdict,
    usize,
))
    requires
        snaps@.len() >= 1,
    ensures
        r.0 == phase_result(policy@, snaps@).0,
        r.1 == phase_result(policy@, snaps@).1,
        !(r.0 is KeepPolling),
        1 <= r.1 <= snaps@.len(),
{
    proof {
        lemma_phase_result_bounds(policy@, snaps@, 0);
    }
    let n = snaps.len();
    let mut i: usize = 0;
    loop
        invariant
            0 <= i < n,
            n == snaps@.len(),
            phase_result_from(policy@, snaps@, 0) == phase_result_from(policy@, snaps@, i as int),
        decreases n - i,
    {
        let v = poll_decision(policy, &snaps[i], i == n - 1);
        match v {
            PollVerdict::KeepPolling => {
                proof {
                    if i as int == n as int - 1 {
                        assert(!(poll_verdict_spec(policy@, snaps@[i as int]@, true)
                            is KeepPolling));
                    }
                }
                i += 1;
            },
            _ => {
                return (v, i + 1);
            },
        }
    }
}

/// Progress of one supervised-startup loop: how many launch attempts have
/// failed so far, and how many the loop may use at most.
#[derive(Clone, Copy, PartialEq, Eq, Structural, Debug)]
pub struct RetryState {
    pub attempt: u32,
    pub max_attempts: u32,
}

/// What to do after a failed launch attempt.
#[derive(Clone, Copy, PartialEq, Eq, Structural, Debug)]
pub enum FailureAction {
    /// Terminate the remaining portal processes, restart the session bus,
    /// and launch again.
    RetryAfterCleanup,
    /// The budget is spent: log the failure and end the run, still with a
    /// zero exit status.
    GiveUp,
}

/// Advances the retry counter after a failed attempt and decides between
/// another round of cleanup-and-launch and giving up.  The loop gives up
/// exactly when the failed attempt was the last budgeted one.
pub fn on_attempt_failure(st: RetryState) -> (r: (RetryState, FailureAction))
    requires
        st.attempt < st.max_attempts,
    ensures
        r.0.attempt == st.attempt + 1,
        r.0.max_attempts == st.max_attempts,
        (r.1 is GiveUp) <==> st.attempt + 1 == st.max_attempts,
{
    let next = RetryState { attempt: st.attempt + 1, max_attempts: st.max_attempts };
    if next.attempt >= st.max_attempts {
        (next, FailureAction::GiveUp)
    } else {
        (next, FailureAction::RetryAfterCleanup)
    }
}

/// How one supervised-startup loop ended: the number of launches it
/// performed and the decisive verdict of the last one's poll phase.
#[derive(Clone, Copy, PartialEq, Eq, Structural, Debug)]
pub struct SupervisedOutcome {
    pub launches: u32,
    pub verdict: PollVerdict,
}

/// Runs the supervised-startup loop over pre-recorded poll scripts, one
/// script of scan results per launch attempt.  Attempts run in order;
/// the first successful poll phase ends the loop, and after
/// `max_attempts` failed attempts the loop gives up without launching
/// again — the retry bound.  Between two attempts the caller performs the
/// cleanup that [`FailureAction::RetryAfterCleanup`] prescribes.
pub fn run_supervised(
    policy: &VerifyPolicy,
    scripts: &Vec<Vec<Vec<ProcessRecord>>>,
    max_attempts: u32,
) -> (r: SupervisedOutcome)
    requires
        1 <= max_attempts,
        scripts@.len() >= max_attempts,
        forall|a: int| 0 <= a < scripts@.len() ==> (#[trigger] scripts@[a])@.len() >= 1,
    ensures
        1 <= r.launches <= max_attempts,
        r.verdict == phase_result(policy@, scripts@[r.launches - 1]@).0,
        !(r.verdict is KeepPolling),
        forall|a: int|
            0 <= a < r.launches - 1 ==> !is_success(
                phase_result(policy@, (#[trigger] scripts@[a])@).0,
            ),
        !is_success(r.verdict) ==> r.launches == max_attempts,
{
    let mut st = RetryState { attempt: 0, max_attempts };
    loop
        invariant
            st.max_attempts == max_attempts,
            st.attempt < max_attempts,
            scripts@.len() >= max_attempts,
            forall|a: int| 0 <= a < scripts@.len() ==> (#[trigger] scripts@[a])@.len() >= 1,
            forall|a: int|
                0 <= a < st.attempt ==> !is_success(
                    phase_result(policy@, (#[trigger] scripts@[a])@).0,
                ),
        decreases max_attempts - st.attempt,
    {
        let idx = st.attempt as usize;
        let (v, _polls) = run_poll_phase(policy, &scripts[idx]);
        let launches = st.attempt + 1;
        match v {
            PollVerdict::Verified | PollVerdict::VerifiedDegraded => {
                return SupervisedOutcome { launches, verdict: v };
            },
            _ => {},
        }
        let (next, action) = on_attempt_failure(st);
        st = next;
        match action {
            FailureAction::GiveUp => {
                return SupervisedOutcome { launches, verdict: v };
            },
            FailureAction::RetryAfterCleanup => {},
        }
    }
}

/// Law (presence policy): when every polled snapshot shows at least one
/// process, the phase is verified, and only after the whole poll budget.
pub proof fn lemma_presence_all_polls_verified(snaps: Seq<Vec<ProcessRecord>>)
    requires
        snaps.len() >= 1,
        forall|k: int| 0 <= k < snaps.len() ==> (#[trigger] snaps[k])@.len() > 0,
    ensures
        phase_result(PolicyModel::PresenceBased, snaps).0 is Verified,
        phase_result(PolicyModel::PresenceBased, snaps).1 == snaps.len(),
{
    lemma_presence_all_polls_from(snaps, 0);
}

proof fn lemma_presence_all_polls_from(snaps: Seq<Vec<ProcessRecord>>, i: int)
    requires
        0 <= i < snaps.len(),
        forall|k: int| 0 <= k < snaps.len() ==> (#[trigger] snaps[k])@.len() > 0,
    ensures
        phase_result_from(PolicyModel::PresenceBased, snaps, i).0 is Verified,
        phase_result_from(PolicyModel::PresenceBased, snaps, i).1 == snaps.len(),
    decreases snaps.len() - i,
{
    if i < snaps.len() - 1 {
        lemma_presence_all_polls_from(snaps, i + 1);
    }
}

/// Law (presence policy): the moment a polled snapshot shows no process
/// the phase fails, at that very poll, without waiting out the remaining
/// budget.
pub proof fn lemma_presence_failure_short_circuits(snaps: Seq<Vec<ProcessRecord>>, j: int)
    requires
        0 <= j < snaps.len(),
        snaps[j]@.len() == 0,
        forall|k: int| 0 <= k < j ==> (#[trigger] snaps[k])@.len() > 0,
    ensures
        phase_result(PolicyModel::PresenceBased, snaps).0 is FailedAttempt,
        phase_result(PolicyModel::PresenceBased, snaps).1 == j + 1,
{
    lemma_presence_failure_from(snaps, j, 0);
}

proof fn lemma_presence_failure_from(snaps: Seq<Vec<ProcessRecord>>, j: int, i: int)
    requires
        0 <= i <= j < snaps.len(),
        snaps[j]@.len() == 0,
        forall|k: int| 0 <= k < j ==> (#[trigger] snaps[k])@.len() > 0,
    ensures
        phase_result_from(PolicyModel::PresenceBased, snaps, i).0 is FailedAttempt,
        phase_result_from(PolicyModel::PresenceBased, snaps, i).1 == j + 1,
    decreases snaps.len() - i,
{
    if i < j {
        lemma_presence_failure_from(snaps, j, i + 1);
    }
}

/// Law (exact-name policy): when the exact name is missing from the very
/// first snapshot but the fallback name is present there, the phase ends
/// at that first poll with degraded success.
pub proof fn lemma_fallback_saves_first_poll(
    exact_name: Seq<char>,
    fallback_name: Seq<char>,
    snaps: Seq<Vec<ProcessRecord>>,
)
    requires
        snaps.len() >= 1,
        !has_record_named(snaps[0]@, exact_name),
        has_record_named(snaps[0]@, fallback_name),
    ensures
        phase_result(PolicyModel::ExactNameWithFallback { exact_name, fallback_name }, snaps).0
            is VerifiedDegraded,
        phase_result(PolicyModel::ExactNameWithFallback { exact_name, fallback_name }, snaps).1
            == 1,
{
}

} // verus!
