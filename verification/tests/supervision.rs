use portal_reset::dbus::BusPlan;
use portal_reset::dbus::ensure_fresh_plan;
use portal_reset::orchestrator::RunOutcome;
use portal_reset::orchestrator::exit_status;
use portal_reset::orchestrator::final_outcome;
use portal_reset::orchestrator::first_portal_policy;
use portal_reset::orchestrator::second_portal_policy;
use portal_reset::orchestrator::standard_config;
use portal_reset::process::ProcessRecord;
use portal_reset::supervise::FailureAction;
use portal_reset::supervise::PollVerdict;
use portal_reset::supervise::RetryState;
use portal_reset::supervise::VerifyPolicy;
use portal_reset::supervise::on_attempt_failure;
use portal_reset::supervise::poll_decision;
use portal_reset::supervise::run_poll_phase;
use portal_reset::supervise::run_supervised;

fn rec(pid: i32, name: &str) -> ProcessRecord {
    ProcessRecord { pid, name: name.to_string() }
}

/// A snapshot script of `polls` polls, every one showing one portal.
fn all_present(polls: usize) -> Vec<Vec<ProcessRecord>> {
    (0..polls).map(|_| vec![rec(900, "xdg-desktop-portal-hyprland")]).collect()
}

#[test]
fn presence_poll_keeps_going_while_present() {
    let snapshot = vec![rec(1, "xdg-desktop-portal")];
    assert_eq!(
        poll_decision(&VerifyPolicy::PresenceBased, &snapshot, false),
        PollVerdict::KeepPolling
    );
    assert_eq!(
        poll_decision(&VerifyPolicy::PresenceBased, &snapshot, true),
        PollVerdict::Verified
    );
}

#[test]
fn presence_poll_fails_on_empty_snapshot() {
    let empty: Vec<ProcessRecord> = Vec::new();
    assert_eq!(
        poll_decision(&VerifyPolicy::PresenceBased, &empty, false),
        PollVerdict::FailedAttempt
    );
    assert_eq!(
        poll_decision(&VerifyPolicy::PresenceBased, &empty, true),
        PollVerdict::FailedAttempt
    );
}

#[test]
fn exact_name_poll_prefers_the_exact_name() {
    let snapshot = vec![rec(1, "xdg-desktop-portal"), rec(2, "xdg-desktop-portal-hyprland")];
    assert_eq!(
        poll_decision(&second_portal_policy(), &snapshot, false),
        PollVerdict::KeepPolling
    );
    assert_eq!(
        poll_decision(&second_portal_policy(), &snapshot, true),
        PollVerdict::Verified
    );
}

#[test]
fn exact_name_poll_falls_back_on_the_first_portal() {
    let snapshot = vec![rec(2, "xdg-desktop-portal-hyprland")];
    assert_eq!(
        poll_decision(&second_portal_policy(), &snapshot, false),
        PollVerdict::VerifiedDegraded
    );
}

#[test]
fn exact_name_poll_fails_without_either() {
    let empty: Vec<ProcessRecord> = Vec::new();
    assert_eq!(
        poll_decision(&second_portal_policy(), &empty, false),
        PollVerdict::FailedAttempt
    );
}

#[test]
fn scenario_fresh_start_verifies_both_portals() {
    // No bus: the fresh-bus pass touches nothing.
    assert!(matches!(ensure_fresh_plan(Vec::new()), BusPlan::AlreadyFresh));

    // First portal: presence holds for all 20 polls.
    let (verdict, polls) = run_poll_phase(&first_portal_policy(), &all_present(20));
    assert_eq!(verdict, PollVerdict::Verified);
    assert_eq!(polls, 20);

    // Second portal: verified by its exact name.
    let second: Vec<Vec<ProcessRecord>> =
        (0..20).map(|_| vec![rec(1, "xdg-desktop-portal"), rec(2, "xdg-desktop-portal-hyprland")]).collect();
    let (verdict2, _) = run_poll_phase(&second_portal_policy(), &second);
    assert_eq!(verdict2, PollVerdict::Verified);

    let outcome = final_outcome(verdict2);
    assert_eq!(outcome, RunOutcome::CompletedSuccessfully);
    assert_eq!(exit_status(&outcome), 0);
}

#[test]
fn scenario_disappearance_mid_poll_fails_immediately() {
    // The first portal's process disappears at poll 5 of 20: the loop
    // declares failure right there instead of waiting out the budget.
    let mut script = all_present(20);
    script[4] = Vec::new();
    let (verdict, polls) = run_poll_phase(&first_portal_policy(), &script);
    assert_eq!(verdict, PollVerdict::FailedAttempt);
    assert_eq!(polls, 5);
}

#[test]
fn scenario_degraded_second_portal_still_succeeds() {
    // The second portal never reports its exact name, but the first
    // portal is still present at the check: degraded success, at once.
    let script: Vec<Vec<ProcessRecord>> =
        (0..20).map(|_| vec![rec(2, "xdg-desktop-portal-hyprland")]).collect();
    let (verdict, polls) = run_poll_phase(&second_portal_policy(), &script);
    assert_eq!(verdict, PollVerdict::VerifiedDegraded);
    assert_eq!(polls, 1);
    assert_eq!(final_outcome(verdict), RunOutcome::CompletedSuccessfully);
}

#[test]
fn scenario_three_failures_stop_the_retries() {
    // Four scripts are on offer, the fourth of which would succeed; after
    // three consecutive failures the loop gives up without a fourth
    // launch, and the run still exits with status zero.
    let failing: Vec<Vec<ProcessRecord>> = vec![Vec::new()];
    let scripts = vec![failing.clone(), failing.clone(), failing.clone(), all_present(20)];
    let outcome = run_supervised(&first_portal_policy(), &scripts, 3);
    assert_eq!(outcome.launches, 3);
    assert_eq!(outcome.verdict, PollVerdict::FailedAttempt);
    assert_eq!(exit_status(&RunOutcome::GaveUpAfterRetries), 0);
}

#[test]
fn supervised_loop_stops_at_first_success() {
    let scripts = vec![vec![Vec::new()], all_present(20), all_present(20)];
    let outcome = run_supervised(&first_portal_policy(), &scripts, 3);
    assert_eq!(outcome.launches, 2);
    assert_eq!(outcome.verdict, PollVerdict::Verified);
}

#[test]
fn supervised_loop_succeeds_on_first_attempt() {
    let scripts = vec![all_present(20), all_present(20), all_present(20)];
    let outcome = run_supervised(&first_portal_policy(), &scripts, 3);
    assert_eq!(outcome.launches, 1);
    assert_eq!(outcome.verdict, PollVerdict::Verified);
}

#[test]
fn retry_counter_advances_and_gives_up_at_the_budget() {
    let st = RetryState { attempt: 0, max_attempts: 3 };
    let (st, action) = on_attempt_failure(st);
    assert_eq!(st.attempt, 1);
    assert_eq!(action, FailureAction::RetryAfterCleanup);
    let (st, action) = on_attempt_failure(st);
    assert_eq!(st.attempt, 2);
    assert_eq!(action, FailureAction::RetryAfterCleanup);
    let (st, action) = on_attempt_failure(st);
    assert_eq!(st.attempt, 3);
    assert_eq!(action, FailureAction::GiveUp);
}

#[test]
fn standard_config_matches_the_documented_run() {
    let c = standard_config();
    assert_eq!(c.startup_delay_millis, 1000);
    assert_eq!(c.cleanup_delay_millis, 500);
    assert_eq!(c.poll_count, 20);
    assert_eq!(c.poll_interval_millis, 100);
    assert_eq!(c.max_attempts, 3);
    assert_eq!(c.settle_after_first_millis, 2000);
}

#[test]
fn every_outcome_exits_zero() {
    assert_eq!(exit_status(&RunOutcome::CompletedSuccessfully), 0);
    assert_eq!(exit_status(&RunOutcome::CompletedWithErrors), 0);
    assert_eq!(exit_status(&RunOutcome::GaveUpAfterRetries), 0);
}

#[test]
fn final_outcome_mirrors_the_second_portal() {
    assert_eq!(final_outcome(PollVerdict::Verified), RunOutcome::CompletedSuccessfully);
    assert_eq!(final_outcome(PollVerdict::VerifiedDegraded), RunOutcome::CompletedSuccessfully);
    assert_eq!(final_outcome(PollVerdict::FailedAttempt), RunOutcome::CompletedWithErrors);
}
