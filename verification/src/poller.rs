//! Waiting for a long-running job: a poller that asks for the job's status
//! at a fixed interval until the job succeeds, fails, or a timeout elapses.
//!
//! The poller decides; its caller acts.  `JobPoller::next_action` says what
//! to do (fetch the status, sleep, or stop), and `JobPoller::step` takes in
//! what came of it.

use vstd::prelude::*;

verus! {

/// Seconds between two status fetches, unless the caller says otherwise.
pub const WAIT_TIME_SECS: u64 = 10;

/// Minutes after which a job is given up, unless the caller says otherwise.
pub const WAIT_SERVER_TIMEOUT_MINUTES: u64 = 30;

/// The three readings of a job's `is_success` field.
#[derive(Clone, Copy, Debug, PartialEq, Eq, Structural)]
pub enum JobStatus {
    /// No result yet.
    Pending,
    /// The job ended well.
    Succeeded,
    /// The job ended badly.
    Failed,
}

/// How a wait ended.
#[derive(Clone, Copy, Debug, PartialEq, Eq, Structural)]
pub enum PollOutcome {
    /// The job reported success.
    Succeeded,
    /// The job reported failure.
    Failed,
    /// The timeout elapsed while the job was still pending.
    TimedOut,
    /// The status could not be fetched.
    FetchFailed,
}

/// What the caller of a poller does next.
#[derive(Clone, Copy, Debug, PartialEq, Eq, Structural)]
pub enum PollAction {
    /// Fetch the job's status and report it.
    Fetch,
    /// Sleep for this many seconds and report that.
    Sleep(u64),
    /// Stop: the wait is over.
    Finish(PollOutcome),
}

/// What the caller of a poller reports back.
#[derive(Clone, Copy, Debug, PartialEq, Eq, Structural)]
pub enum PollEvent {
    /// The status that a fetch returned.
    Status(JobStatus),
    /// A fetch failed in transport.
    FetchError,
    /// A sleep is over.
    Slept,
}

/// Where a poller stands.
#[derive(Clone, Copy, Debug, PartialEq, Eq, Structural)]
pub enum PollPhase {
    /// Time is left; the status is to be fetched.
    Checking,
    /// The job was pending at the last fetch; a sleep is due.
    Sleeping,
    /// The wait is over.
    Finished(PollOutcome),
}

/// The mathematical state of a poller.
pub struct PollState {
    /// Seconds slept after each pending status.
    pub interval: nat,
    /// Seconds after which the wait times out.
    pub timeout: nat,
    /// Seconds slept so far.
    pub waited: nat,
    /// Where the poller stands.
    pub phase: PollPhase,
}

/// The phase of a poller that has waited `waited` of `timeout` seconds and is
/// about to look at the job again.
pub open spec fn phase_after_wait(waited: nat, timeout: nat) -> PollPhase {
    if waited >= timeout {
        PollPhase::Finished(PollOutcome::TimedOut)
    } else {
        PollPhase::Checking
    }
}

/// The state of a fresh poller.
pub open spec fn initial_state(interval: nat, timeout_minutes: nat) -> PollState {
    PollState {
        interval,
        timeout: timeout_minutes * 60,
        waited: 0,
        phase: phase_after_wait(0, timeout_minutes * 60),
    }
}

/// The action that a state asks for.
pub open spec fn pending_action(s: PollState) -> PollAction {
    match s.phase {
        PollPhase::Checking => PollAction::Fetch,
        PollPhase::Sleeping => PollAction::Sleep(s.interval as u64),
        PollPhase::Finished(outcome) => PollAction::Finish(outcome),
    }
}

/// The state after `event`.  An event that the phase does not wait for
/// changes nothing.
pub open spec fn next_state(s: PollState, event: PollEvent) -> PollState {
    match (s.phase, event) {
        (PollPhase::Checking, PollEvent::Status(JobStatus::Succeeded)) => PollState {
            phase: PollPhase::Finished(PollOutcome::Succeeded),
            ..s
        },
        (PollPhase::Checking, PollEvent::Status(JobStatus::Failed)) => PollState {
            phase: PollPhase::Finished(PollOutcome::Failed),
            ..s
        },
        (PollPhase::Checking, PollEvent::Status(JobStatus::Pending)) => PollState {
            phase: PollPhase::Sleeping,
            ..s
        },
        (PollPhase::Checking, PollEvent::FetchError) => PollState {
            phase: PollPhase::Finished(PollOutcome::FetchFailed),
            ..s
        },
        (PollPhase::Sleeping, PollEvent::Slept) => PollState {
            waited: s.waited + s.interval,
            phase: phase_after_wait(s.waited + s.interval, s.timeout),
            ..s
        },
        _ => s,
    }
}

/// The state after the events `events`, taken in order.
pub open spec fn run(s: PollState, events: Seq<PollEvent>) -> PollState
    decreases events.len(),
{
    if events.len() == 0 {
        s
    } else {
        next_state(run(s, events.drop_last()), events.last())
    }
}

/// The state after `rounds` rounds in each of which the job is pending and
/// the poller sleeps.
pub open spec fn after_pending_rounds(s: PollState, rounds: nat) -> PollState
    decreases rounds,
{
    if rounds == 0 {
        s
    } else {
        next_state(
            next_state(
                after_pending_rounds(s, (rounds - 1) as nat),
                PollEvent::Status(JobStatus::Pending),
            ),
            PollEvent::Slept,
        )
    }
}

/// The reading of an `is_success` field: absent is pending.
pub open spec fn status_of(is_success: Option<bool>) -> JobStatus {
    match is_success {
        None => JobStatus::Pending,
        Some(true) => JobStatus::Succeeded,
        Some(false) => JobStatus::Failed,
    }
}

/// The outcome that a definite status stands for.
pub open spec fn outcome_of(status: JobStatus) -> PollOutcome
    recommends
        status != JobStatus::Pending,
{
    if status == JobStatus::Succeeded {
        PollOutcome::Succeeded
    } else {
        PollOutcome::Failed
    }
}

/// Once the wait is over, no event changes the state.
pub proof fn lemma_finished_stays(s: PollState, events: Seq<PollEvent>)
    requires
        s.phase is Finished,
    ensures
        run(s, events) == s,
    decreases events.len(),
{
    if events.len() > 0 {
        lemma_finished_stays(s, events.drop_last());
    }
}

/// A definite status ends the wait at once: whatever is reported after it,
/// the poller asks for no further fetch and keeps the outcome of that status.
pub proof fn lemma_no_fetch_after_result(s: PollState, status: JobStatus, events: Seq<PollEvent>)
    requires
        s.phase == PollPhase::Checking,
        status != JobStatus::Pending,
    ensures
        pending_action(run(next_state(s, PollEvent::Status(status)), events)) == PollAction::Finish(
            outcome_of(status),
        ),
{
    lemma_finished_stays(next_state(s, PollEvent::Status(status)), events);
}

/// A failed fetch ends the wait at once, without success.
pub proof fn lemma_no_fetch_after_error(s: PollState, events: Seq<PollEvent>)
    requires
        s.phase == PollPhase::Checking,
    ensures
        pending_action(run(next_state(s, PollEvent::FetchError), events)) == PollAction::Finish(
            PollOutcome::FetchFailed,
        ),
{
    lemma_finished_stays(next_state(s, PollEvent::FetchError), events);
}

/// While the job stays pending, a fresh poller has slept `rounds` intervals
/// after `rounds` fetches, and it asks for one more fetch exactly while that
/// is less than the timeout.  So it fetches as many times as intervals are
/// needed to reach the timeout, then times out.
pub proof fn lemma_pending_rounds(interval: nat, timeout_minutes: nat, rounds: nat)
    requires
        rounds > 0 ==> (rounds - 1) * interval < timeout_minutes * 60,
    ensures
        after_pending_rounds(initial_state(interval, timeout_minutes), rounds).waited == rounds
            * interval,
        after_pending_rounds(initial_state(interval, timeout_minutes), rounds).phase
            == phase_after_wait(rounds * interval, timeout_minutes * 60),
        after_pending_rounds(initial_state(interval, timeout_minutes), rounds).interval
            == interval,
        after_pending_rounds(initial_state(interval, timeout_minutes), rounds).timeout
            == timeout_minutes * 60,
    decreases rounds,
{
    if rounds > 0 {
        let before = (rounds - 1) as nat;
        assert(before * interval + interval == rounds * interval) by (nonlinear_arith)
            requires
                before + 1 == rounds,
        ;
        if before > 0 {
            assert((before - 1) * interval <= before * interval) by (nonlinear_arith)
                requires
                    before > 0,
            ;
        }
        lemma_pending_rounds(interval, timeout_minutes, before);
    } else {
        assert(0 * interval == 0) by (nonlinear_arith);
    }
}


/// What holds of every state that a poller can reach: while the wait goes
/// on, less than the timeout has been waited; once it has timed out, at
/// least the timeout has.
pub open spec fn timeout_respected(s: PollState) -> bool {
    &&& !(s.phase is Finished) ==> s.waited < s.timeout
    &&& s.phase == PollPhase::Finished(PollOutcome::TimedOut) ==> s.waited >= s.timeout
}

/// A wait times out only when the timeout has elapsed, and goes on only
/// while it has not: this holds after any events, from a fresh poller on.
pub proof fn lemma_timeout_only_when_elapsed(
    interval: nat,
    timeout_minutes: nat,
    events: Seq<PollEvent>,
)
    ensures
        timeout_respected(run(initial_state(interval, timeout_minutes), events)),
        run(initial_state(interval, timeout_minutes), events).timeout == timeout_minutes * 60,
        run(initial_state(interval, timeout_minutes), events).interval == interval,
    decreases events.len(),
{
    if events.len() > 0 {
        lemma_timeout_only_when_elapsed(interval, timeout_minutes, events.drop_last());
    }
}

impl JobStatus {
    /// Reads an `is_success` field.
    pub fn from_is_success(is_success: Option<bool>) -> (r: JobStatus)
        ensures
            r == status_of(is_success),
    {
        match is_success {
            None => JobStatus::Pending,
            Some(true) => JobStatus::Succeeded,
            Some(false) => JobStatus::Failed,
        }
    }
}

impl PollOutcome {
    /// Whether the job succeeded.
    pub fn is_success(&self) -> (r: bool)
        ensures
            r == (*self == PollOutcome::Succeeded),
    {
        match self {
            PollOutcome::Succeeded => true,
            _ => false,
        }
    }
}

/// A poller for one job.
pub struct JobPoller {
    interval_secs: u64,
    timeout_secs: u128,
    waited: u128,
    phase: PollPhase,
}

impl View for JobPoller {
    type V = PollState;

    closed spec fn view(&self) -> PollState {
        PollState {
            interval: self.interval_secs as nat,
            timeout: self.timeout_secs as nat,
            waited: self.waited as nat,
            phase: self.phase,
        }
    }
}

impl JobPoller {
    #[verifier::type_invariant]
    spec fn within_bounds(self) -> bool {
        &&& self.timeout_secs <= 60 * u64::MAX
        &&& self.waited <= self.timeout_secs + self.interval_secs
        &&& !(self.phase is Finished) ==> self.waited < self.timeout_secs
    }

    /// A poller that sleeps `interval_secs` seconds between fetches and
    /// gives up after `timeout_minutes` minutes.
    pub fn new(interval_secs: u64, timeout_minutes: u64) -> (r: JobPoller)
        ensures
            r@ == initial_state(interval_secs as nat, timeout_minutes as nat),
    {
        let timeout_secs: u128 = timeout_minutes as u128 * 60;
        let phase = if timeout_secs == 0 {
            PollPhase::Finished(PollOutcome::TimedOut)
        } else {
            PollPhase::Checking
        };
        JobPoller { interval_secs, timeout_secs, waited: 0, phase }
    }

    /// A poller with the default interval, and the default timeout unless
    /// `timeout_minutes` gives one.
    pub fn with_timeout(timeout_minutes: Option<u64>) -> (r: JobPoller)
        ensures
            r@ == initial_state(
                WAIT_TIME_SECS as nat,
                match timeout_minutes {
                    Some(minutes) => minutes as nat,
                    None => WAIT_SERVER_TIMEOUT_MINUTES as nat,
                },
            ),
    {
        match timeout_minutes {
            Some(minutes) => JobPoller::new(WAIT_TIME_SECS, minutes),
            None => JobPoller::new(WAIT_TIME_SECS, WAIT_SERVER_TIMEOUT_MINUTES),
        }
    }

    /// What to do next.
    pub fn next_action(&self) -> (r: PollAction)
        ensures
            r == pending_action(self@),
    {
        match self.phase {
            PollPhase::Checking => PollAction::Fetch,
            PollPhase::Sleeping => PollAction::Sleep(self.interval_secs),
            PollPhase::Finished(outcome) => PollAction::Finish(outcome),
        }
    }

    /// Takes in what came of the last action.
    pub fn step(&mut self, event: PollEvent)
        ensures
            final(self)@ == next_state(old(self)@, event),
    {
        proof {
            use_type_invariant(&*self);
        }
        match self.phase {
            PollPhase::Checking => {
                match event {
                    PollEvent::Status(JobStatus::Succeeded) => {
                        self.phase = PollPhase::Finished(PollOutcome::Succeeded);
                    },
                    PollEvent::Status(JobStatus::Failed) => {
                        self.phase = PollPhase::Finished(PollOutcome::Failed);
                    },
                    PollEvent::Status(JobStatus::Pending) => {
                        self.phase = PollPhase::Sleeping;
                    },
                    PollEvent::FetchError => {
                        self.phase = PollPhase::Finished(PollOutcome::FetchFailed);
                    },
                    PollEvent::Slept => {},
                }
            },
            PollPhase::Sleeping => {
                match event {
                    PollEvent::Slept => {
                        let waited: u128 = self.waited + self.interval_secs as u128;
                        let phase = if waited >= self.timeout_secs {
                            PollPhase::Finished(PollOutcome::TimedOut)
                        } else {
                            PollPhase::Checking
                        };
                        *self = JobPoller {
                            interval_secs: self.interval_secs,
                            timeout_secs: self.timeout_secs,
                            waited,
                            phase,
                        };
                    },
                    _ => {},
                }
            },
            PollPhase::Finished(_) => {},
        }
    }

    /// Seconds slept so far.
    pub fn waited_secs(&self) -> (r: u128)
        ensures
            r == self@.waited,
    {
        self.waited
    }

    /// How the wait ended, once it has.
    pub fn outcome(&self) -> (r: Option<PollOutcome>)
        ensures
            r == match self@.phase {
                PollPhase::Finished(outcome) => Some(outcome),
                _ => None,
            },
    {
        match self.phase {
            PollPhase::Finished(outcome) => Some(outcome),
            _ => None,
        }
    }
}

} // verus!
