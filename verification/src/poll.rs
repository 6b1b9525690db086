//! Waiting for a result.
//!
//! The client asks the broker for the value stored under the task's id. While
//! there is none it rests for a fixed time and asks again. The whole wait has
//! a budget of time; when the driver reports that the budget is spent, the
//! wait ends with `Timeout`, which is neither a failure of the broker nor a
//! failure of the task.

use vstd::prelude::*;
use crate::error::{BrokerError, ClientError};

verus! {

/// How long the client rests between two looks at the broker.
pub const POLL_INTERVAL_MILLIS: u64 = 1000;

/// Where a wait stands.
#[derive(Clone, Copy, Debug, PartialEq, Eq, Structural)]
pub enum PollState {
    /// The broker is being asked.
    Asking,
    /// Nothing was stored yet; the client rests.
    Resting,
    /// The wait is over.
    Finished,
}

/// What the driver reports to a wait.
#[derive(Debug)]
pub enum PollEvent {
    /// The broker holds this value under the key.
    Found(String),
    /// The broker holds nothing under the key.
    Absent,
    /// The broker failed to answer.
    GetFailed(BrokerError),
    /// The rest is over.
    Rested,
    /// The budget of the whole wait is spent.
    TimedOut,
}

/// An event as the rules see it.
pub enum PollEventView {
    Found(Seq<char>),
    Absent,
    GetFailed(Seq<char>),
    Rested,
    TimedOut,
}

impl View for PollEvent {
    type V = PollEventView;

    open spec fn view(&self) -> PollEventView {
        match *self {
            PollEvent::Found(value) => PollEventView::Found(value@),
            PollEvent::Absent => PollEventView::Absent,
            PollEvent::GetFailed(BrokerError::RedisError(reason)) => PollEventView::GetFailed(
                reason@,
            ),
            PollEvent::Rested => PollEventView::Rested,
            PollEvent::TimedOut => PollEventView::TimedOut,
        }
    }
}

/// What a wait asks the driver to do next.
#[derive(Debug)]
pub enum PollAction {
    /// Ask the broker for the value under `key`.
    Get { key: String },
    /// Rest for this many milliseconds.
    Sleep { millis: u64 },
    /// The wait is over, with the stored text or with the reason why there is
    /// none.
    Return(Result<String, ClientError>),
    /// The event did not belong here: go on with what was asked before, or
    /// with nothing if the wait is over.
    Ignored,
}

/// How a wait ends.
pub enum PollEnd {
    /// With the text that the broker held.
    Value(Seq<char>),
    /// With the broker's failure.
    Broker(Seq<char>),
    /// With the budget spent.
    Timeout,
}

/// An action as the rules see it.
pub enum PollActionView {
    Get { key: Seq<char> },
    Sleep { millis: int },
    Return(PollEnd),
    Ignored,
}

/// Whether `outcome` is the end `end`.
pub open spec fn ends_with(outcome: Result<String, ClientError>, end: PollEnd) -> bool {
    match end {
        PollEnd::Value(text) => outcome matches Ok(value) && value@ == text,
        PollEnd::Broker(reason) => outcome matches Err(
            ClientError::BrokerError(BrokerError::RedisError(said)),
        ) && said@ == reason,
        PollEnd::Timeout => outcome matches Err(ClientError::Timeout),
    }
}

/// Whether `action` is the action `view`.
pub open spec fn is_action(action: PollAction, view: PollActionView) -> bool {
    match view {
        PollActionView::Get { key } => action matches PollAction::Get { key: asked } && asked@
            == key,
        PollActionView::Sleep { millis } => action matches PollAction::Sleep { millis: rest }
            && rest == millis,
        PollActionView::Return(end) => action matches PollAction::Return(outcome) && ends_with(
            outcome,
            end,
        ),
        PollActionView::Ignored => action is Ignored,
    }
}

/// The rules of a wait for the value under `key`: the state and the action
/// that follow when `event` is reported in `state`.
pub open spec fn next(key: Seq<char>, state: PollState, event: PollEventView) -> (
    PollState,
    PollActionView,
) {
    match (state, event) {
        (PollState::Finished, _) => (PollState::Finished, PollActionView::Ignored),
        (_, PollEventView::TimedOut) => (
            PollState::Finished,
            PollActionView::Return(PollEnd::Timeout),
        ),
        (PollState::Asking, PollEventView::Found(value)) => (
            PollState::Finished,
            PollActionView::Return(PollEnd::Value(value)),
        ),
        (PollState::Asking, PollEventView::Absent) => (
            PollState::Resting,
            PollActionView::Sleep { millis: POLL_INTERVAL_MILLIS as int },
        ),
        (PollState::Asking, PollEventView::GetFailed(reason)) => (
            PollState::Finished,
            PollActionView::Return(PollEnd::Broker(reason)),
        ),
        (PollState::Resting, PollEventView::Rested) => (
            PollState::Asking,
            PollActionView::Get { key },
        ),
        (_, _) => (state, PollActionView::Ignored),
    }
}

/// One wait for one result.
pub struct Poll {
    key: String,
    budget_millis: u64,
    state: PollState,
}

impl Poll {
    /// The key that is asked for: the id of the task.
    pub closed spec fn key(&self) -> Seq<char> {
        self.key@
    }

    /// The budget of the whole wait, in milliseconds.
    pub closed spec fn budget(&self) -> u64 {
        self.budget_millis
    }

    /// Where the wait stands.
    pub closed spec fn state(&self) -> PollState {
        self.state
    }

    /// A wait for the value under `key`, with its first action: to ask the
    /// broker. The driver reports `TimedOut` once `budget_millis` have passed
    /// since the start, whatever it is doing then.
    pub fn start(key: String, budget_millis: u64) -> (begun: (Poll, PollAction))
        ensures
            begun.0.key() == key@,
            begun.0.budget() == budget_millis,
            begun.0.state() == PollState::Asking,
            is_action(begun.1, PollActionView::Get { key: key@ }),
    {
        let asked = key.clone();
        (Poll { key, budget_millis, state: PollState::Asking }, PollAction::Get { key: asked })
    }

    /// The budget of the whole wait, in milliseconds.
    pub fn get_budget(&self) -> (millis: u64)
        ensures
            millis == self.budget(),
    {
        self.budget_millis
    }

    /// Whether the wait is over.
    pub fn is_finished(&self) -> (over: bool)
        ensures
            over == (self.state() == PollState::Finished),
    {
        match self.state {
            PollState::Finished => true,
            _ => false,
        }
    }

    /// Takes one event and answers with the next action, by the rules of
    /// `next`.
    pub fn step(&mut self, event: PollEvent) -> (action: PollAction)
        ensures
            final(self).key() == old(self).key(),
            final(self).budget() == old(self).budget(),
            final(self).state() == next(old(self).key(), old(self).state(), event@).0,
            is_action(action, next(old(self).key(), old(self).state(), event@).1),
    {
        match (self.state, event) {
            (PollState::Finished, _) => PollAction::Ignored,
            (_, PollEvent::TimedOut) => {
                self.state = PollState::Finished;
                PollAction::Return(Err(ClientError::Timeout))
            },
            (PollState::Asking, PollEvent::Found(value)) => {
                self.state = PollState::Finished;
                PollAction::Return(Ok(value))
            },
            (PollState::Asking, PollEvent::Absent) => {
                self.state = PollState::Resting;
                PollAction::Sleep { millis: POLL_INTERVAL_MILLIS }
            },
            (PollState::Asking, PollEvent::GetFailed(e)) => {
                self.state = PollState::Finished;
                PollAction::Return(Err(ClientError::BrokerError(e)))
            },
            (PollState::Resting, PollEvent::Rested) => {
                self.state = PollState::Asking;
                PollAction::Get { key: self.key.clone() }
            },
            (_, _) => PollAction::Ignored,
        }
    }
}

/// The state of a wait after the first `n` of `events`.
pub open spec fn state_after(key: Seq<char>, events: Seq<PollEventView>, n: int) -> PollState
    decreases n,
{
    if n <= 0 {
        PollState::Asking
    } else {
        next(key, state_after(key, events, n - 1), events[n - 1]).0
    }
}

/// While the broker answers with nothing but "absent", the wait goes on: it
/// is not over after any number of such answers and rests.
pub proof fn lemma_absence_keeps_the_wait(key: Seq<char>, events: Seq<PollEventView>, n: int)
    requires
        0 <= n <= events.len(),
        forall|i: int| 0 <= i < n ==> events[i] is Absent || events[i] is Rested,
    ensures
        state_after(key, events, n) != PollState::Finished,
    decreases n,
{
    if n > 0 {
        lemma_absence_keeps_the_wait(key, events, n - 1);
    }
}

/// A wait for a value that never comes ends with `Timeout`, and with nothing
/// else: after any number of "absent" answers and rests, the report that the
/// budget is spent is answered with `Timeout`, and the wait is over.
pub proof fn lemma_timeout_ends_the_wait(key: Seq<char>, events: Seq<PollEventView>, n: int)
    requires
        0 <= n < events.len(),
        forall|i: int| 0 <= i < n ==> events[i] is Absent || events[i] is Rested,
        events[n] is TimedOut,
    ensures
        next(key, state_after(key, events, n), events[n]) == (
            PollState::Finished,
            PollActionView::Return(PollEnd::Timeout),
        ),
{
    lemma_absence_keeps_the_wait(key, events, n);
}

/// A wait that is over stays over, and asks for nothing more.
pub proof fn lemma_finished_is_final(key: Seq<char>, event: PollEventView)
    ensures
        next(key, PollState::Finished, event) == (PollState::Finished, PollActionView::Ignored),
{
}

/// The broker is asked again only after a rest: an answer of "absent" is met
/// with a rest of `POLL_INTERVAL_MILLIS`, and no step but the end of a rest
/// asks the broker.
pub proof fn lemma_rest_between_looks(key: Seq<char>, state: PollState, event: PollEventView)
    ensures
        state == PollState::Asking && event is Absent ==> next(key, state, event) == (
            PollState::Resting,
            PollActionView::Sleep { millis: POLL_INTERVAL_MILLIS as int },
        ),
        next(key, state, event).1 is Get ==> state == PollState::Resting && event is Rested,
{
}

} // verus!
