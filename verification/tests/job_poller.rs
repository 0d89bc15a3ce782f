use chiliseed::poller::{
    JobPoller, JobStatus, PollAction, PollEvent, PollOutcome, WAIT_SERVER_TIMEOUT_MINUTES, WAIT_TIME_SECS,
};

/// Drives a poller over scripted fetch results; once the script is used up
/// every fetch reports a pending job.  Gives the outcome, the number of
/// fetches and the simulated seconds slept.
fn drive(poller: &mut JobPoller, script: &[Option<JobStatus>]) -> (PollOutcome, usize, u128) {
    let mut fetches = 0usize;
    let mut slept: u128 = 0;
    loop {
        match poller.next_action() {
            PollAction::Fetch => {
                let event = match script.get(fetches) {
                    Some(Some(status)) => PollEvent::Status(*status),
                    Some(None) => PollEvent::FetchError,
                    None => PollEvent::Status(JobStatus::Pending),
                };
                fetches += 1;
                poller.step(event);
            }
            PollAction::Sleep(seconds) => {
                slept += seconds as u128;
                poller.step(PollEvent::Slept);
            }
            PollAction::Finish(outcome) => {
                assert_eq!(poller.outcome(), Some(outcome));
                assert_eq!(poller.waited_secs(), slept);
                return (outcome, fetches, slept);
            }
        }
        assert!(fetches < 10_000, "the poller does not end");
    }
}

#[test]
fn defaults() {
    assert_eq!(WAIT_TIME_SECS, 10);
    assert_eq!(WAIT_SERVER_TIMEOUT_MINUTES, 30);
}

#[test]
fn status_of_is_success_field() {
    assert_eq!(JobStatus::from_is_success(None), JobStatus::Pending);
    assert_eq!(JobStatus::from_is_success(Some(true)), JobStatus::Succeeded);
    assert_eq!(JobStatus::from_is_success(Some(false)), JobStatus::Failed);
}

#[test]
fn only_success_is_success() {
    assert!(PollOutcome::Succeeded.is_success());
    assert!(!PollOutcome::Failed.is_success());
    assert!(!PollOutcome::TimedOut.is_success());
    assert!(!PollOutcome::FetchFailed.is_success());
}

#[test]
fn pending_pending_success_takes_three_fetches_and_twenty_seconds() {
    let mut poller = JobPoller::new(10, 30);
    let script = [Some(JobStatus::Pending), Some(JobStatus::Pending), Some(JobStatus::Succeeded)];
    let (outcome, fetches, slept) = drive(&mut poller, &script);
    assert!(outcome.is_success());
    assert_eq!(outcome, PollOutcome::Succeeded);
    assert_eq!(fetches, 3);
    assert_eq!(slept, 20);
    assert!(poller.waited_secs() >= 20);
}

#[test]
fn failure_ends_the_wait_at_once() {
    let mut poller = JobPoller::new(10, 30);
    let script = [Some(JobStatus::Pending), Some(JobStatus::Failed), Some(JobStatus::Succeeded)];
    let (outcome, fetches, slept) = drive(&mut poller, &script);
    assert!(!outcome.is_success());
    assert_eq!(outcome, PollOutcome::Failed);
    assert_eq!(fetches, 2);
    assert_eq!(slept, 10);
    poller.step(PollEvent::Status(JobStatus::Succeeded));
    poller.step(PollEvent::Slept);
    assert_eq!(poller.next_action(), PollAction::Finish(PollOutcome::Failed));
}

#[test]
fn all_pending_times_out_after_six_fetches_in_one_minute() {
    let mut poller = JobPoller::new(10, 1);
    let (outcome, fetches, slept) = drive(&mut poller, &[]);
    assert!(!outcome.is_success());
    assert_eq!(outcome, PollOutcome::TimedOut);
    assert_eq!(fetches, 6);
    assert_eq!(slept, 60);
}

#[test]
fn interval_that_does_not_divide_the_timeout() {
    let mut poller = JobPoller::new(25, 1);
    let (outcome, fetches, slept) = drive(&mut poller, &[]);
    assert_eq!(outcome, PollOutcome::TimedOut);
    assert_eq!(fetches, 3);
    assert_eq!(slept, 75);
}

#[test]
fn default_timeout_is_thirty_minutes_at_ten_seconds() {
    let mut poller = JobPoller::with_timeout(None);
    let (outcome, fetches, slept) = drive(&mut poller, &[]);
    assert_eq!(outcome, PollOutcome::TimedOut);
    assert_eq!(fetches, 180);
    assert_eq!(slept, 1800);
}

#[test]
fn caller_can_override_the_timeout() {
    let mut poller = JobPoller::with_timeout(Some(40));
    let (outcome, fetches, slept) = drive(&mut poller, &[]);
    assert_eq!(outcome, PollOutcome::TimedOut);
    assert_eq!(fetches, 240);
    assert_eq!(slept, 2400);
}

#[test]
fn zero_timeout_times_out_without_a_fetch() {
    let mut poller = JobPoller::new(10, 0);
    assert_eq!(poller.next_action(), PollAction::Finish(PollOutcome::TimedOut));
    let (outcome, fetches, slept) = drive(&mut poller, &[Some(JobStatus::Succeeded)]);
    assert_eq!(outcome, PollOutcome::TimedOut);
    assert_eq!(fetches, 0);
    assert_eq!(slept, 0);
}

#[test]
fn immediate_success_needs_one_fetch_and_no_sleep() {
    let mut poller = JobPoller::new(10, 30);
    let (outcome, fetches, slept) = drive(&mut poller, &[Some(JobStatus::Succeeded)]);
    assert_eq!(outcome, PollOutcome::Succeeded);
    assert_eq!(fetches, 1);
    assert_eq!(slept, 0);
}

#[test]
fn transport_error_is_fatal() {
    let mut poller = JobPoller::new(10, 30);
    let script = [Some(JobStatus::Pending), None, Some(JobStatus::Succeeded)];
    let (outcome, fetches, slept) = drive(&mut poller, &script);
    assert!(!outcome.is_success());
    assert_eq!(outcome, PollOutcome::FetchFailed);
    assert_eq!(fetches, 2);
    assert_eq!(slept, 10);
}

#[test]
fn poller_events_out_of_turn_change_nothing() {
    let mut poller = JobPoller::new(10, 30);
    assert_eq!(poller.next_action(), PollAction::Fetch);
    poller.step(PollEvent::Slept);
    assert_eq!(poller.next_action(), PollAction::Fetch);
    assert_eq!(poller.waited_secs(), 0);
    poller.step(PollEvent::Status(JobStatus::Pending));
    assert_eq!(poller.next_action(), PollAction::Sleep(10));
    poller.step(PollEvent::Status(JobStatus::Succeeded));
    poller.step(PollEvent::FetchError);
    assert_eq!(poller.next_action(), PollAction::Sleep(10));
    assert_eq!(poller.outcome(), None);
    poller.step(PollEvent::Slept);
    assert_eq!(poller.next_action(), PollAction::Fetch);
    assert_eq!(poller.waited_secs(), 10);
}

#[test]
fn largest_timeout_and_interval_do_not_overflow() {
    let mut poller = JobPoller::new(u64::MAX, u64::MAX);
    let (outcome, fetches, slept) = drive(&mut poller, &[]);
    assert_eq!(outcome, PollOutcome::TimedOut);
    assert_eq!(fetches, 60);
    assert_eq!(slept, 60 * (u64::MAX as u128));
}
