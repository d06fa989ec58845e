//! The decisions of a crawl: which unit of the chain's history is fetched,
//! processed and committed next, and what happens when a step fails.
//!
//! The crawl itself waits, queries and writes; it hands each outcome to
//! [`CrawlerState::step`] as an [`Event`] and carries out the [`Action`] that
//! comes back.

use vstd::prelude::*;
use crate::chain::QueryError;

verus! {

/// Where the work on the current unit stands.
#[derive(Debug, Clone, Copy, PartialEq, Eq, Structural)]
pub enum Phase {
    /// Between two units: nothing is under way.
    Idle,
    /// The unit's data is being fetched.
    Fetching,
    /// The chain has not reached the unit yet.
    Waiting,
    /// The fetched data is being turned into records.
    Processing,
    /// The records and the new checkpoint are being written.
    Committing,
    /// A fetch or a commit failed; the unit is tried again after a pause.
    Retrying,
}

/// What happened since the last action.
#[derive(Debug, Clone, Copy, PartialEq, Eq, Structural)]
pub enum Event {
    /// The pause is over, or the crawl starts.
    Wake,
    /// The unit's data has arrived.
    Fetched,
    /// The chain does not hold the unit yet.
    NotAvailable,
    /// The chain could not be reached, or did not answer in time.
    FetchFailed,
    /// The records of the unit are ready.
    Processed,
    /// The records and the new checkpoint were written, together.
    Committed,
    /// Nothing was written.
    CommitFailed,
}

/// What the crawl has to do next.
#[derive(Debug, Clone, Copy, PartialEq, Eq, Structural)]
pub enum Action {
    /// Fetch the data of `unit`.
    Fetch { unit: u32 },
    /// Turn the fetched data of `unit` into records.
    Process { unit: u32 },
    /// Write the records of `unit` and the checkpoint `checkpoint` in one
    /// atomic operation.
    Commit { unit: u32, checkpoint: u32 },
    /// Pause for `millis` milliseconds, then report `Wake`.
    Sleep { millis: u64 },
    /// Report that `unit` failed as often as the policy allows, pause for
    /// `millis` milliseconds, then report `Wake`: the unit is begun anew.
    Fail { unit: u32, millis: u64 },
    /// The unit is done; report `Wake` to go on, or stop here.
    Rest,
    /// The event does not belong to the phase: nothing to do.
    Ignore,
}

/// How often a unit is tried again, and how long the pauses are.
#[derive(Debug, Clone, Copy, PartialEq, Eq, Structural)]
pub struct RetryPolicy {
    /// After this many failures in a row the unit is reported as failed.
    pub max_attempts: u32,
    /// The pause after the first failure, in milliseconds.
    pub base_delay: u64,
    /// No pause is longer than this, in milliseconds.
    pub max_delay: u64,
}

/// The state of a crawl.
#[derive(Debug, Clone, Copy, PartialEq, Eq, Structural)]
pub struct CrawlerState {
    /// The checkpoint: the unit to index next. Every unit before it is
    /// committed, and no unit from it on.
    pub unit: u32,
    pub phase: Phase,
    /// How often the current unit has failed in a row.
    pub attempts: u32,
}

/// Two to the power `n`.
pub open spec fn pow2(n: nat) -> nat
    decreases n,
{
    if n == 0 {
        1
    } else {
        2 * pow2((n - 1) as nat)
    }
}

/// The pause after `attempts` failures in a row: the base delay doubled
/// with each failure after the first, and never more than the longest delay.
pub open spec fn backoff(policy: RetryPolicy, attempts: u32) -> u64 {
    let doubled = policy.base_delay * pow2(attempts as nat);
    if doubled <= policy.max_delay {
        doubled as u64
    } else {
        policy.max_delay
    }
}

/// The state after a failure of the current unit, and what to do: pause and
/// try again, or, once the unit has failed as often as the policy allows,
/// report it and begin it anew. The checkpoint stays.
pub open spec fn after_failure(policy: RetryPolicy, state: CrawlerState) -> (CrawlerState, Action) {
    if state.attempts + 1 >= policy.max_attempts {
        (
            CrawlerState { unit: state.unit, phase: Phase::Idle, attempts: 0 },
            Action::Fail { unit: state.unit, millis: policy.max_delay },
        )
    } else {
        (
            CrawlerState {
                unit: state.unit,
                phase: Phase::Retrying,
                attempts: (state.attempts + 1) as u32,
            },
            Action::Sleep { millis: backoff(policy, state.attempts) },
        )
    }
}

/// The checkpoint after `unit` is committed: the next unit. The last unit
/// that 32 bits can name has no successor and stays.
pub open spec fn successor(unit: u32) -> u32 {
    if unit < u32::MAX {
        (unit + 1) as u32
    } else {
        unit
    }
}

/// The state after an event, and what to do.
pub open spec fn next(policy: RetryPolicy, state: CrawlerState, event: Event) -> (
    CrawlerState,
    Action,
) {
    match (state.phase, event) {
        (Phase::Idle, Event::Wake) | (Phase::Waiting, Event::Wake) | (
            Phase::Retrying,
            Event::Wake,
        ) => (
            CrawlerState { unit: state.unit, phase: Phase::Fetching, attempts: state.attempts },
            Action::Fetch { unit: state.unit },
        ),
        (Phase::Fetching, Event::Fetched) => (
            CrawlerState { unit: state.unit, phase: Phase::Processing, attempts: state.attempts },
            Action::Process { unit: state.unit },
        ),
        (Phase::Fetching, Event::NotAvailable) => (
            CrawlerState { unit: state.unit, phase: Phase::Waiting, attempts: state.attempts },
            Action::Sleep { millis: policy.base_delay },
        ),
        (Phase::Fetching, Event::FetchFailed) => after_failure(policy, state),
        (Phase::Processing, Event::Processed) => (
            CrawlerState { unit: state.unit, phase: Phase::Committing, attempts: state.attempts },
            Action::Commit { unit: state.unit, checkpoint: successor(state.unit) },
        ),
        (Phase::Committing, Event::Committed) => (
            CrawlerState { unit: successor(state.unit), phase: Phase::Idle, attempts: 0 },
            Action::Rest,
        ),
        (Phase::Committing, Event::CommitFailed) => after_failure(policy, state),
        _ => (state, Action::Ignore),
    }
}

/// Does the event commit the current unit?
pub open spec fn commits(state: CrawlerState, event: Event) -> bool {
    state.phase is Committing && event is Committed
}

/// The state after a sequence of events.
pub open spec fn run(policy: RetryPolicy, state: CrawlerState, events: Seq<Event>) -> CrawlerState
    decreases events.len(),
{
    if events.len() == 0 {
        state
    } else {
        next(policy, run(policy, state, events.drop_last()), events.last()).0
    }
}

/// The units that a sequence of events commits, in the order of their
/// commits.
pub open spec fn committed_units(policy: RetryPolicy, state: CrawlerState, events: Seq<Event>) -> Seq<
    u32,
>
    decreases events.len(),
{
    if events.len() == 0 {
        Seq::empty()
    } else {
        let before = committed_units(policy, state, events.drop_last());
        let reached = run(policy, state, events.drop_last());
        if commits(reached, events.last()) {
            before.push(reached.unit)
        } else {
            before
        }
    }
}

/// What the storage does with the commit of a unit.
#[derive(Debug, Clone, Copy, PartialEq, Eq, Structural)]
pub enum CommitDecision {
    /// The records are written and the checkpoint becomes `checkpoint`.
    Write { checkpoint: u32 },
    /// Nothing is written: the stored checkpoint is not at the unit, so the
    /// unit was committed before, or an earlier unit is still missing.
    Stale,
}

/// What the storage does with the commit of `unit` while it holds the
/// checkpoint `stored`: it writes where it holds no checkpoint yet or the
/// checkpoint is at the unit, and then the checkpoint becomes the next unit;
/// else it writes nothing.
pub open spec fn commit_decision_of(stored: Option<u32>, unit: u32) -> CommitDecision {
    match stored {
        None => CommitDecision::Write { checkpoint: successor(unit) },
        Some(checkpoint) => if checkpoint == unit {
            CommitDecision::Write { checkpoint: successor(unit) }
        } else {
            CommitDecision::Stale
        },
    }
}

/// Decides, inside the transaction that commits `unit`, whether the records
/// are written: only one commit of a unit moves the checkpoint.
pub fn commit_decision(stored: Option<u32>, unit: u32) -> (r: CommitDecision)
    ensures
        r == commit_decision_of(stored, unit),
{
    match stored {
        None => CommitDecision::Write { checkpoint: next_unit(unit) },
        Some(checkpoint) => if checkpoint == unit {
            CommitDecision::Write { checkpoint: next_unit(unit) }
        } else {
            CommitDecision::Stale
        },
    }
}

/// The event that the outcome of a fetch stands for: the data has arrived
/// where there is no error; the unit is not available yet where the chain
/// does not hold it, which is no failure; every other error is a failed
/// fetch.
pub open spec fn fetch_event_of(error: Option<QueryError>) -> Event {
    match error {
        None => Event::Fetched,
        Some(QueryError::NotFound) => Event::NotAvailable,
        Some(_) => Event::FetchFailed,
    }
}

/// The event that the outcome of a fetch stands for.
pub fn fetch_event(error: Option<&QueryError>) -> (r: Event)
    ensures
        r == fetch_event_of(
            match error {
                Some(error) => Some(*error),
                None => None,
            },
        ),
{
    match error {
        None => Event::Fetched,
        Some(QueryError::NotFound) => Event::NotAvailable,
        Some(_) => Event::FetchFailed,
    }
}

/// The event that the outcome of a commit stands for.
pub fn commit_event(written: bool) -> (r: Event)
    ensures
        r == if written {
            Event::Committed
        } else {
            Event::CommitFailed
        },
{
    if written {
        Event::Committed
    } else {
        Event::CommitFailed
    }
}

/// The pause after `attempts` failures in a row.
pub fn backoff_delay(policy: &RetryPolicy, attempts: u32) -> (r: u64)
    ensures
        r == backoff(*policy, attempts),
{
    let mut delay: u64 = policy.base_delay;
    let mut i: u32 = 0;
    if delay == 0 {
        assert(policy.base_delay * pow2(attempts as nat) == 0) by (nonlinear_arith)
            requires
                policy.base_delay == 0,
        ;
        return 0;
    }
    if delay > policy.max_delay {
        proof {
            lemma_pow2_positive(attempts as nat);
            assert(policy.base_delay * pow2(attempts as nat) >= policy.base_delay) by (nonlinear_arith)
                requires
                    pow2(attempts as nat) >= 1,
            ;
        }
        return policy.max_delay;
    }
    assert(policy.base_delay * pow2(0) == policy.base_delay) by (nonlinear_arith)
        requires
            pow2(0) == 1,
    ;
    while i < attempts
        invariant
            i <= attempts,
            delay == policy.base_delay * pow2(i as nat),
            delay <= policy.max_delay,
        decreases attempts - i,
    {
        proof {
            assert(policy.base_delay * pow2((i + 1) as nat) == 2 * (policy.base_delay * pow2(
                i as nat,
            ))) by (nonlinear_arith)
                requires
                    pow2((i + 1) as nat) == 2 * pow2(i as nat),
            ;
        }
        if delay > policy.max_delay / 2 {
            proof {
                lemma_pow2_monotonic((i + 1) as nat, attempts as nat);
                assert(policy.base_delay * pow2(attempts as nat) >= policy.base_delay * pow2(
                    (i + 1) as nat,
                )) by (nonlinear_arith)
                    requires
                        pow2(attempts as nat) >= pow2((i + 1) as nat),
                ;
            }
            return policy.max_delay;
        }
        delay = delay * 2;
        i = i + 1;
    }
    delay
}

/// Every power of two is positive.
pub proof fn lemma_pow2_positive(n: nat)
    ensures
        pow2(n) >= 1,
    decreases n,
{
    if n > 0 {
        lemma_pow2_positive((n - 1) as nat);
    }
}

/// A larger exponent gives no smaller power of two.
pub proof fn lemma_pow2_monotonic(a: nat, b: nat)
    requires
        a <= b,
    ensures
        pow2(a) <= pow2(b),
    decreases b,
{
    if a < b {
        lemma_pow2_monotonic(a, (b - 1) as nat);
    }
}

impl CrawlerState {
    /// The state in which a crawl starts: at the persisted checkpoint, or,
    /// where none was persisted, at the unit that the chain is at now.
    pub fn start(checkpoint: Option<u32>, current: u32) -> (r: Self)
        ensures
            r.phase is Idle,
            r.attempts == 0,
            r.unit == match checkpoint {
                Some(unit) => unit,
                None => current,
            },
    {
        let unit = match checkpoint {
            Some(unit) => unit,
            None => current,
        };
        CrawlerState { unit, phase: Phase::Idle, attempts: 0 }
    }

    /// Takes note of a failure of the current unit.
    fn fail(&self, policy: &RetryPolicy) -> (r: (CrawlerState, Action))
        ensures
            r == after_failure(*policy, *self),
    {
        if self.attempts >= u32::MAX - 1 || self.attempts + 1 >= policy.max_attempts {
            (
                CrawlerState { unit: self.unit, phase: Phase::Idle, attempts: 0 },
                Action::Fail { unit: self.unit, millis: policy.max_delay },
            )
        } else {
            (
                CrawlerState { unit: self.unit, phase: Phase::Retrying, attempts: self.attempts + 1 },
                Action::Sleep { millis: backoff_delay(policy, self.attempts) },
            )
        }
    }

    /// The state after `event`, and what the crawl has to do next.
    ///
    /// The checkpoint moves only when a commit has succeeded, and then by one
    /// unit. While the chain has not reached the unit, and after any failure,
    /// it stays where it is.
    pub fn step(&self, policy: &RetryPolicy, event: Event) -> (r: (CrawlerState, Action))
        ensures
            r == next(*policy, *self, event),
            commits(*self, event) ==> r.0.unit == successor(self.unit),
            !commits(*self, event) ==> r.0.unit == self.unit,
            self.phase is Waiting || r.0.phase is Waiting ==> r.0.unit == self.unit,
    {
        match (self.phase, event) {
            (Phase::Idle, Event::Wake) | (Phase::Waiting, Event::Wake) | (
                Phase::Retrying,
                Event::Wake,
            ) => (
                CrawlerState { unit: self.unit, phase: Phase::Fetching, attempts: self.attempts },
                Action::Fetch { unit: self.unit },
            ),
            (Phase::Fetching, Event::Fetched) => (
                CrawlerState { unit: self.unit, phase: Phase::Processing, attempts: self.attempts },
                Action::Process { unit: self.unit },
            ),
            (Phase::Fetching, Event::NotAvailable) => (
                CrawlerState { unit: self.unit, phase: Phase::Waiting, attempts: self.attempts },
                Action::Sleep { millis: policy.base_delay },
            ),
            (Phase::Fetching, Event::FetchFailed) => self.fail(policy),
            (Phase::Processing, Event::Processed) => (
                CrawlerState { unit: self.unit, phase: Phase::Committing, attempts: self.attempts },
                Action::Commit { unit: self.unit, checkpoint: next_unit(self.unit) },
            ),
            (Phase::Committing, Event::Committed) => (
                CrawlerState { unit: next_unit(self.unit), phase: Phase::Idle, attempts: 0 },
                Action::Rest,
            ),
            (Phase::Committing, Event::CommitFailed) => self.fail(policy),
            _ => (*self, Action::Ignore),
        }
    }
}

/// The checkpoint after `unit` is committed.
pub fn next_unit(unit: u32) -> (r: u32)
    ensures
        r == successor(unit),
{
    if unit < u32::MAX {
        unit + 1
    } else {
        unit
    }
}

/// One event moves the checkpoint by one unit where it commits the current
/// unit, and leaves it where it is otherwise.
pub proof fn lemma_step_checkpoint(policy: RetryPolicy, state: CrawlerState, event: Event)
    ensures
        commits(state, event) ==> next(policy, state, event).0.unit == successor(state.unit),
        !commits(state, event) ==> next(policy, state, event).0.unit == state.unit,
{
}

/// While the crawl waits for the chain to reach the unit, the checkpoint
/// does not change: neither the event that makes it wait nor the event that
/// ends the wait moves it.
pub proof fn lemma_waiting_keeps_checkpoint(policy: RetryPolicy, state: CrawlerState, event: Event)
    requires
        state.phase is Waiting || next(policy, state, event).0.phase is Waiting || event
            is NotAvailable,
    ensures
        next(policy, state, event).0.unit == state.unit,
        !commits(state, event),
        !(next(policy, state, event).1 is Commit),
{
}

/// A unit that the chain does not hold yet makes the crawl wait: the fetch
/// is not counted as a failure, and the checkpoint stays.
pub proof fn lemma_not_found_waits(policy: RetryPolicy, state: CrawlerState)
    requires
        state.phase is Fetching,
    ensures
        next(policy, state, fetch_event_of(Some(QueryError::NotFound))).0 == (CrawlerState {
            unit: state.unit,
            phase: Phase::Waiting,
            attempts: state.attempts,
        }),
{
}

/// A failure never moves the checkpoint, and the unit that failed is the
/// unit that is fetched next.
pub proof fn lemma_failure_keeps_unit(policy: RetryPolicy, state: CrawlerState, event: Event)
    requires
        event is FetchFailed || event is CommitFailed,
    ensures
        next(policy, state, event).0.unit == state.unit,
        next(policy, next(policy, state, event).0, Event::Wake).1 is Fetch ==> next(
            policy,
            next(policy, state, event).0,
            Event::Wake,
        ).1 == (Action::Fetch { unit: state.unit }),
{
}

/// A commit is asked for only for the current unit, with the next unit as
/// the new checkpoint.
pub proof fn lemma_commit_names_current_unit(policy: RetryPolicy, state: CrawlerState, event: Event)
    requires
        next(policy, state, event).1 is Commit,
    ensures
        next(policy, state, event).1 == (Action::Commit {
            unit: state.unit,
            checkpoint: successor(state.unit),
        }),
        next(policy, state, event).0.unit == state.unit,
{
}

/// A unit is written once: after its commit the stored checkpoint has moved
/// on, and a second commit of the same unit, from this crawl or from
/// another one on the same storage, writes nothing.
pub proof fn lemma_commit_writes_once(stored: Option<u32>, unit: u32)
    requires
        unit < u32::MAX,
        commit_decision_of(stored, unit) is Write,
    ensures
        commit_decision_of(Some(commit_decision_of(stored, unit)->checkpoint), unit) is Stale,
        commit_decision_of(stored, unit)->checkpoint == unit + 1,
{
}

/// The storage writes what the crawl asks for: the checkpoint that a commit
/// request names is the checkpoint that the storage moves to.
pub proof fn lemma_commit_request_is_accepted(policy: RetryPolicy, state: CrawlerState, event: Event)
    requires
        next(policy, state, event).1 is Commit,
    ensures
        commit_decision_of(Some(state.unit), next(policy, state, event).1->Commit_unit) == (
        CommitDecision::Write { checkpoint: next(policy, state, event).1->Commit_checkpoint }),
{
}

/// The crawl may rest, and so stop, only between two units: right after a
/// commit has succeeded, with nothing under way.
pub proof fn lemma_rest_only_between_units(policy: RetryPolicy, state: CrawlerState, event: Event)
    requires
        next(policy, state, event).1 is Rest,
    ensures
        commits(state, event),
        next(policy, state, event).0.phase is Idle,
        next(policy, state, event).0.attempts == 0,
{
}

/// Whatever happens, the units are committed strictly in order: the first
/// commit is that of the unit the crawl started at, each following commit is
/// that of the next unit, and the checkpoint ends right after the last
/// committed unit. So no unit is committed twice and none is skipped.
pub proof fn lemma_commits_in_order(policy: RetryPolicy, state: CrawlerState, events: Seq<Event>)
    requires
        state.unit + events.len() <= u32::MAX,
    ensures
        committed_units(policy, state, events).len() <= events.len(),
        run(policy, state, events).unit == state.unit + committed_units(
            policy,
            state,
            events,
        ).len(),
        forall|k: int|
            0 <= k < committed_units(policy, state, events).len() ==> #[trigger] committed_units(
                policy,
                state,
                events,
            )[k] == state.unit + k,
    decreases events.len(),
{
    if events.len() > 0 {
        let rest = events.drop_last();
        lemma_commits_in_order(policy, state, rest);
        lemma_step_checkpoint(policy, run(policy, state, rest), events.last());
    }
}

} // verus!
