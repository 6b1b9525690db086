//! The scheduler: the one loop that pulls tasks from the broker and hands them
//! to the workers.
//!
//! It is written as a state machine. The driver performs the action that the
//! machine names (wait for a token, ask the broker, rest, pass a task on) and
//! reports what happened as an event; a shutdown signal may be reported at any
//! moment. The rule of admission is that the broker is asked for a task only
//! while a token is held, that is, only after a worker has said that it is
//! free.

use vstd::prelude::*;
use crate::error::BrokerError;
use crate::signal::SigType;

verus! {

/// How long the scheduler rests after the broker reported an empty queue.
pub const EMPTY_QUEUE_BACKOFF_MILLIS: u64 = 1000;

/// Where the scheduler stands.
#[derive(Clone, Copy, Debug, PartialEq, Eq, Structural)]
pub enum SchedulerState {
    /// No token is held: the scheduler waits for a worker to report free.
    AwaitingToken,
    /// A token is held and the broker is being asked for a task.
    Dequeuing,
    /// A token is held; the queue was empty and the scheduler rests.
    BackingOff,
    /// The token was spent on a task, which is on its way to the workers.
    Dispatching,
    /// A shutdown signal was seen. Nothing is admitted any more.
    Terminated,
}

impl SchedulerState {
    /// Whether a token is held: a worker is known to be free.
    pub open spec fn flag(self) -> bool {
        self is Dequeuing || self is BackingOff
    }
}

/// What the driver reports to the scheduler.
#[derive(Debug)]
pub enum SchedulerEvent {
    /// A worker sent a token.
    Token,
    /// The broker answered: a queue name and a task, or nothing for now.
    Dequeued(Option<(String, String)>),
    /// The broker failed to answer.
    DequeueFailed(BrokerError),
    /// The rest after an empty answer is over.
    BackoffElapsed,
    /// The task was put on the work channel.
    Dispatched,
    /// The work channel did not take the task.
    DispatchFailed,
    /// A shutdown signal arrived, or listening for one failed.
    Shutdown(Option<SigType>),
}

/// An event as the rules see it.
pub enum SchedulerEventView {
    Token,
    Empty,
    Task(Seq<char>),
    DequeueFailed,
    BackoffElapsed,
    Dispatched,
    DispatchFailed,
    Shutdown,
}

impl View for SchedulerEvent {
    type V = SchedulerEventView;

    open spec fn view(&self) -> SchedulerEventView {
        match *self {
            SchedulerEvent::Token => SchedulerEventView::Token,
            SchedulerEvent::Dequeued(None) => SchedulerEventView::Empty,
            SchedulerEvent::Dequeued(Some(found)) => SchedulerEventView::Task(found.1@),
            SchedulerEvent::DequeueFailed(_) => SchedulerEventView::DequeueFailed,
            SchedulerEvent::BackoffElapsed => SchedulerEventView::BackoffElapsed,
            SchedulerEvent::Dispatched => SchedulerEventView::Dispatched,
            SchedulerEvent::DispatchFailed => SchedulerEventView::DispatchFailed,
            SchedulerEvent::Shutdown(_) => SchedulerEventView::Shutdown,
        }
    }
}

/// What the scheduler asks the driver to do next.
#[derive(Debug)]
pub enum SchedulerAction {
    /// Wait until a worker sends a token.
    AwaitToken,
    /// Ask the broker for the next task of this queue.
    Dequeue { queue: String },
    /// Rest for this many milliseconds.
    Backoff { millis: u64 },
    /// Put the task on the work channel.
    Dispatch { task: String },
    /// The event did not belong here: go on with what was asked before.
    Ignored,
    /// Leave the loop.
    Stop,
}

/// An action as the rules see it.
pub enum SchedulerActionView {
    AwaitToken,
    Dequeue { queue: Seq<char> },
    Backoff { millis: int },
    Dispatch { task: Seq<char> },
    Ignored,
    Stop,
}

impl View for SchedulerAction {
    type V = SchedulerActionView;

    open spec fn view(&self) -> SchedulerActionView {
        match *self {
            SchedulerAction::AwaitToken => SchedulerActionView::AwaitToken,
            SchedulerAction::Dequeue { queue } => SchedulerActionView::Dequeue { queue: queue@ },
            SchedulerAction::Backoff { millis } => SchedulerActionView::Backoff {
                millis: millis as int,
            },
            SchedulerAction::Dispatch { task } => SchedulerActionView::Dispatch { task: task@ },
            SchedulerAction::Ignored => SchedulerActionView::Ignored,
            SchedulerAction::Stop => SchedulerActionView::Stop,
        }
    }
}

/// The rules of the scheduler: the state and the action that follow when
/// `event` is reported in `state`, for the queue named `queue`.
pub open spec fn next(queue: Seq<char>, state: SchedulerState, event: SchedulerEventView) -> (
    SchedulerState,
    SchedulerActionView,
) {
    match (state, event) {
        (SchedulerState::Terminated, _) => (SchedulerState::Terminated, SchedulerActionView::Stop),
        (_, SchedulerEventView::Shutdown) => (
            SchedulerState::Terminated,
            SchedulerActionView::Stop,
        ),
        (SchedulerState::AwaitingToken, SchedulerEventView::Token) => (
            SchedulerState::Dequeuing,
            SchedulerActionView::Dequeue { queue },
        ),
        (SchedulerState::Dequeuing, SchedulerEventView::Empty) => (
            SchedulerState::BackingOff,
            SchedulerActionView::Backoff { millis: EMPTY_QUEUE_BACKOFF_MILLIS as int },
        ),
        (SchedulerState::Dequeuing, SchedulerEventView::Task(task)) => (
            SchedulerState::Dispatching,
            SchedulerActionView::Dispatch { task },
        ),
        (SchedulerState::Dequeuing, SchedulerEventView::DequeueFailed) => (
            SchedulerState::Dequeuing,
            SchedulerActionView::Dequeue { queue },
        ),
        (SchedulerState::BackingOff, SchedulerEventView::BackoffElapsed) => (
            SchedulerState::Dequeuing,
            SchedulerActionView::Dequeue { queue },
        ),
        (SchedulerState::Dispatching, SchedulerEventView::Dispatched) => (
            SchedulerState::AwaitingToken,
            SchedulerActionView::AwaitToken,
        ),
        (SchedulerState::Dispatching, SchedulerEventView::DispatchFailed) => (
            SchedulerState::AwaitingToken,
            SchedulerActionView::AwaitToken,
        ),
        (_, _) => (state, SchedulerActionView::Ignored),
    }
}

/// The scheduler of one queue.
pub struct Scheduler {
    queue: String,
    state: SchedulerState,
    signal: Option<SigType>,
}

impl Scheduler {
    /// The name of the queue that is served.
    pub closed spec fn queue(&self) -> Seq<char> {
        self.queue@
    }

    /// Where the scheduler stands.
    pub closed spec fn state(&self) -> SchedulerState {
        self.state
    }

    /// The signal that stopped the scheduler, once one is known.
    pub closed spec fn signal(&self) -> Option<SigType> {
        self.signal
    }

    /// A scheduler for `queue`, with its first action. It holds no token, so
    /// it begins by waiting for one.
    pub fn start(queue: String) -> (begun: (Scheduler, SchedulerAction))
        ensures
            begun.0.queue() == queue@,
            begun.0.state() == SchedulerState::AwaitingToken,
            begun.0.signal() is None,
            begun.1@ == SchedulerActionView::AwaitToken,
    {
        (
            Scheduler { queue, state: SchedulerState::AwaitingToken, signal: None },
            SchedulerAction::AwaitToken,
        )
    }

    /// Takes one event and answers with the next action, by the rules of
    /// `next`. The signal of the shutdown that is seen first is kept.
    pub fn step(&mut self, event: SchedulerEvent) -> (action: SchedulerAction)
        ensures
            (final(self).state(), action@) == next(old(self).queue(), old(self).state(), event@),
            final(self).queue() == old(self).queue(),
            final(self).signal() == (match event {
                SchedulerEvent::Shutdown(signal) if old(self).state() != SchedulerState::Terminated
                    => signal,
                _ => old(self).signal(),
            }),
    {
        match (self.state, event) {
            (SchedulerState::Terminated, _) => SchedulerAction::Stop,
            (_, SchedulerEvent::Shutdown(signal)) => {
                self.state = SchedulerState::Terminated;
                self.signal = signal;
                SchedulerAction::Stop
            },
            (SchedulerState::AwaitingToken, SchedulerEvent::Token) => {
                self.state = SchedulerState::Dequeuing;
                SchedulerAction::Dequeue { queue: self.queue.clone() }
            },
            (SchedulerState::Dequeuing, SchedulerEvent::Dequeued(None)) => {
                self.state = SchedulerState::BackingOff;
                SchedulerAction::Backoff { millis: EMPTY_QUEUE_BACKOFF_MILLIS }
            },
            (SchedulerState::Dequeuing, SchedulerEvent::Dequeued(Some(found))) => {
                self.state = SchedulerState::Dispatching;
                SchedulerAction::Dispatch { task: found.1 }
            },
            (SchedulerState::Dequeuing, SchedulerEvent::DequeueFailed(_)) => {
                SchedulerAction::Dequeue { queue: self.queue.clone() }
            },
            (SchedulerState::BackingOff, SchedulerEvent::BackoffElapsed) => {
                self.state = SchedulerState::Dequeuing;
                SchedulerAction::Dequeue { queue: self.queue.clone() }
            },
            (SchedulerState::Dispatching, SchedulerEvent::Dispatched) => {
                self.state = SchedulerState::AwaitingToken;
                SchedulerAction::AwaitToken
            },
            (SchedulerState::Dispatching, SchedulerEvent::DispatchFailed) => {
                self.state = SchedulerState::AwaitingToken;
                SchedulerAction::AwaitToken
            },
            (_, _) => SchedulerAction::Ignored,
        }
    }

    /// Whether a token is held.
    pub fn flag(&self) -> (held: bool)
        ensures
            held == self.state().flag(),
    {
        match self.state {
            SchedulerState::Dequeuing => true,
            SchedulerState::BackingOff => true,
            _ => false,
        }
    }

    /// Whether the scheduler has stopped.
    pub fn is_terminated(&self) -> (stopped: bool)
        ensures
            stopped == (self.state() == SchedulerState::Terminated),
    {
        match self.state {
            SchedulerState::Terminated => true,
            _ => false,
        }
    }

    /// The signal that stopped the scheduler, if it stopped on one.
    pub fn stopped_by(&self) -> (signal: Option<SigType>)
        ensures
            signal == self.signal(),
    {
        self.signal
    }
}

/// The state after the first `n` of `events`, from a fresh scheduler.
pub open spec fn state_after(queue: Seq<char>, events: Seq<SchedulerEventView>, n: int)
    -> SchedulerState
    decreases n,
{
    if n <= 0 {
        SchedulerState::AwaitingToken
    } else {
        next(queue, state_after(queue, events, n - 1), events[n - 1]).0
    }
}

/// The action with which the scheduler answers event number `i`.
pub open spec fn action_at(queue: Seq<char>, events: Seq<SchedulerEventView>, i: int)
    -> SchedulerActionView {
    next(queue, state_after(queue, events, i), events[i]).1
}

/// How many of the first `n` events were tokens that the scheduler took.
pub open spec fn tokens_taken(queue: Seq<char>, events: Seq<SchedulerEventView>, n: int) -> int
    decreases n,
{
    if n <= 0 {
        0
    } else {
        tokens_taken(queue, events, n - 1) + if state_after(queue, events, n - 1)
            == SchedulerState::AwaitingToken && events[n - 1] is Token {
            1int
        } else {
            0int
        }
    }
}

/// How many tasks the scheduler passed on in answer to the first `n` events.
pub open spec fn tasks_dispatched(queue: Seq<char>, events: Seq<SchedulerEventView>, n: int)
    -> int
    decreases n,
{
    if n <= 0 {
        0
    } else {
        tasks_dispatched(queue, events, n - 1) + if action_at(queue, events, n - 1) is Dispatch {
            1int
        } else {
            0int
        }
    }
}

/// How many times the scheduler asked the broker in answer to the first `n`
/// events while it held no token.
pub open spec fn dequeues_without_token(
    queue: Seq<char>,
    events: Seq<SchedulerEventView>,
    n: int,
) -> int
    decreases n,
{
    if n <= 0 {
        0
    } else {
        dequeues_without_token(queue, events, n - 1) + if action_at(queue, events, n - 1)
            is Dequeue && !state_after(queue, events, n).flag() {
            1int
        } else {
            0int
        }
    }
}

/// Admission: whatever the driver reports and in whatever order, the broker is
/// never asked for a task while no token is held.
pub proof fn lemma_no_dequeue_without_token(
    queue: Seq<char>,
    events: Seq<SchedulerEventView>,
    n: int,
)
    requires
        0 <= n <= events.len(),
    ensures
        dequeues_without_token(queue, events, n) == 0,
        forall|i: int|
            0 <= i < n && action_at(queue, events, i) is Dequeue ==> #[trigger] state_after(
                queue,
                events,
                i + 1,
            ).flag(),
    decreases n,
{
    if n > 0 {
        lemma_no_dequeue_without_token(queue, events, n - 1);
        assert forall|i: int|
            0 <= i < n && action_at(queue, events, i) is Dequeue implies #[trigger] state_after(
            queue,
            events,
            i + 1,
        ).flag() by {
            if i == n - 1 {
                assert(state_after(queue, events, n) == next(
                    queue,
                    state_after(queue, events, n - 1),
                    events[n - 1],
                ).0);
            }
        }
    }
}

/// One task for one token: the tasks passed on, plus the token in hand if
/// there is one, are exactly the tokens taken. So no more tasks leave the
/// broker than workers have reported free.
pub proof fn lemma_one_task_per_token(queue: Seq<char>, events: Seq<SchedulerEventView>, n: int)
    requires
        0 <= n <= events.len(),
    ensures
        !(state_after(queue, events, n) is Terminated) ==> tasks_dispatched(queue, events, n) + (
        if state_after(queue, events, n).flag() {
            1int
        } else {
            0int
        }) == tokens_taken(queue, events, n),
        tasks_dispatched(queue, events, n) <= tokens_taken(queue, events, n),
        tokens_taken(queue, events, n) <= n,
    decreases n,
{
    if n > 0 {
        lemma_one_task_per_token(queue, events, n - 1);
    }
}

/// Shutdown: once a shutdown signal has been reported, the scheduler is
/// terminated for good, and it answers every later event with `Stop`. In
/// particular it never asks the broker again.
pub proof fn lemma_shutdown_is_final(
    queue: Seq<char>,
    events: Seq<SchedulerEventView>,
    at: int,
    later: int,
)
    requires
        0 <= at < later <= events.len(),
        events[at] is Shutdown,
    ensures
        state_after(queue, events, later) is Terminated,
        later < events.len() ==> action_at(queue, events, later) is Stop,
        action_at(queue, events, at) is Stop,
    decreases later - at,
{
    if later > at + 1 {
        lemma_shutdown_is_final(queue, events, at, later - 1);
    }
}

/// Idleness: an empty answer never costs the token, and it is always followed
/// by a rest. While the driver reports nothing but empty answers and rests
/// that are over, the token stays in hand, each empty answer is met with a
/// rest of `EMPTY_QUEUE_BACKOFF_MILLIS`, and the broker is asked again only
/// when a rest is over.
pub proof fn lemma_idle_keeps_token(
    queue: Seq<char>,
    events: Seq<SchedulerEventView>,
    from: int,
    to: int,
)
    requires
        0 <= from <= to <= events.len(),
        state_after(queue, events, from).flag(),
        forall|i: int| from <= i < to ==> events[i] is Empty || events[i] is BackoffElapsed,
    ensures
        state_after(queue, events, to).flag(),
        forall|i: int|
            from <= i < to && events[i] is Empty && state_after(queue, events, i) is Dequeuing
                ==> #[trigger] action_at(queue, events, i) == (SchedulerActionView::Backoff {
                millis: EMPTY_QUEUE_BACKOFF_MILLIS as int,
            }),
        forall|i: int|
            from <= i < to && #[trigger] action_at(queue, events, i) is Dequeue
                ==> events[i] is BackoffElapsed,
    decreases to - from,
{
    if to > from {
        lemma_idle_keeps_token(queue, events, from, to - 1);
    }
}

} // verus!
