//! A worker: one of the loops that run tasks.
//!
//! A worker says that it is free by sending a token, takes one task from the
//! work channel, runs it and has the result written to the broker under the
//! task's id. A task that fails is reported and left behind; the worker goes
//! on with the next. It stops when the work channel is closed.
//!
//! Like the scheduler it is a state machine: the driver owns the channels and
//! the broker, performs the action that the machine names and reports the
//! event that followed.

use vstd::prelude::*;
use crate::error::{BrokerError, MsgError, TracerError, WorkerError};
use crate::message::{wire_message, Message, MessageView};
use crate::queue::AsyncQueue;
use crate::task::{may_trace, AQTask, Traced};
use crate::tracer::TracerTrait;

verus! {

/// How long a worker rests after a token could not be sent.
pub const TOKEN_BACKOFF_MILLIS: u64 = 1000;

/// Where a worker stands.
#[derive(Clone, Copy, Debug, PartialEq, Eq, Structural)]
pub enum WorkerState {
    /// At the head of the loop: is the work channel still open?
    Checking,
    /// A token is being sent.
    Offering,
    /// The token could not be sent; the worker rests before it tries again.
    BackingOff,
    /// The token is out; the worker waits for a task.
    Receiving,
    /// A task was run; its result is being written to the broker.
    Writing,
    /// The work channel is closed. The worker has left its loop.
    Stopped,
}

/// What the driver reports to a worker.
#[derive(Debug)]
pub enum WorkerEvent {
    /// The work channel is open.
    ChannelOpen,
    /// The work channel is closed.
    ChannelClosed,
    /// The token was sent.
    TokenSent,
    /// The token could not be sent.
    TokenFailed,
    /// The rest is over.
    BackoffElapsed,
    /// A task arrived, as the text that the broker held.
    Received(String),
    /// No task could be received; `closed` says whether the work channel is
    /// closed by now.
    ReceiveFailed { closed: bool },
    /// The result was written.
    Written,
    /// The broker refused the result.
    WriteFailed(BrokerError),
}

/// An event as the rules see it.
pub enum WorkerEventView {
    ChannelOpen,
    ChannelClosed,
    TokenSent,
    TokenFailed,
    BackoffElapsed,
    Received(Seq<char>),
    ReceiveFailed { closed: bool },
    Written,
    WriteFailed(Seq<char>),
}

impl View for WorkerEvent {
    type V = WorkerEventView;

    open spec fn view(&self) -> WorkerEventView {
        match *self {
            WorkerEvent::ChannelOpen => WorkerEventView::ChannelOpen,
            WorkerEvent::ChannelClosed => WorkerEventView::ChannelClosed,
            WorkerEvent::TokenSent => WorkerEventView::TokenSent,
            WorkerEvent::TokenFailed => WorkerEventView::TokenFailed,
            WorkerEvent::BackoffElapsed => WorkerEventView::BackoffElapsed,
            WorkerEvent::Received(raw) => WorkerEventView::Received(raw@),
            WorkerEvent::ReceiveFailed { closed } => WorkerEventView::ReceiveFailed { closed },
            WorkerEvent::Written => WorkerEventView::Written,
            WorkerEvent::WriteFailed(BrokerError::RedisError(reason)) => {
                WorkerEventView::WriteFailed(reason@)
            },
        }
    }
}

/// What a worker asks the driver to do next.
#[derive(Debug)]
pub enum WorkerAction {
    /// Look whether the work channel is closed.
    CheckChannel,
    /// Send a token to the scheduler.
    SendToken,
    /// Rest for this many milliseconds.
    Backoff { millis: u64 },
    /// Wait for a task on the work channel.
    Receive,
    /// Write `result` to the broker under the key `id`.
    WriteResult { id: String, result: String },
    /// The event did not belong here: go on with what was asked before.
    Ignored,
    /// Leave the loop.
    Stop,
}

/// An action as the rules see it.
pub enum WorkerActionView {
    CheckChannel,
    SendToken,
    Backoff { millis: int },
    Receive,
    WriteResult { id: Seq<char>, result: Seq<char> },
    Ignored,
    Stop,
}

impl View for WorkerAction {
    type V = WorkerActionView;

    open spec fn view(&self) -> WorkerActionView {
        match *self {
            WorkerAction::CheckChannel => WorkerActionView::CheckChannel,
            WorkerAction::SendToken => WorkerActionView::SendToken,
            WorkerAction::Backoff { millis } => WorkerActionView::Backoff { millis: millis as int },
            WorkerAction::Receive => WorkerActionView::Receive,
            WorkerAction::WriteResult { id, result } => WorkerActionView::WriteResult {
                id: id@,
                result: result@,
            },
            WorkerAction::Ignored => WorkerActionView::Ignored,
            WorkerAction::Stop => WorkerActionView::Stop,
        }
    }
}

/// What becomes of one task on a worker.
pub enum Handled {
    /// The text is no envelope.
    Undecodable,
    /// No kind of that name is registered.
    UnknownTask { name: Seq<char> },
    /// The kind cannot read the payload.
    BadPayload,
    /// The task ran, but its result cannot be written as text.
    Unwritable,
    /// The task ran: `result` is to be stored under `id`.
    Done { id: Seq<char>, result: Seq<char> },
}

/// Whether the task that arrives as the text `raw` can end in `outcome`,
/// with the kinds that `app` has registered.
///
/// A text that is no envelope is undecodable, and a name that is not
/// registered is unknown: there the outcome is fixed. For a registered name it
/// is one that the kind allows for the payload, and a result is stored under
/// the id of the envelope.
pub open spec fn may_handle(app: &AsyncQueue, raw: Seq<char>, outcome: Handled) -> bool {
    match wire_message(raw) {
        None => outcome is Undecodable,
        Some(message) => if !app.has(message.name) {
            outcome == (Handled::UnknownTask { name: message.name })
        } else {
            match outcome {
                Handled::BadPayload => (app.outcomes_of(message.name))(
                    message.payload,
                    Traced::BadPayload,
                ),
                Handled::Unwritable => (app.outcomes_of(message.name))(
                    message.payload,
                    Traced::Unwritable,
                ),
                Handled::Done { id, result } => id == message.id && (app.outcomes_of(
                    message.name,
                ))(message.payload, Traced::Done(result)),
                _ => false,
            }
        },
    }
}

/// Whether `r` is the answer that tells of `outcome`.
pub open spec fn answers(r: Result<(String, String), WorkerError>, outcome: Handled) -> bool {
    match outcome {
        Handled::Done { id, result } => r matches Ok(done) && done.0@ == id && done.1@ == result,
        failed => r is Err && tells(r.err(), WorkerReport::TaskFailed(failed)),
    }
}

/// What a worker reports of the step that it has just taken.
pub enum WorkerReport {
    /// Nothing went wrong.
    Fine,
    /// The task was left behind, for this reason.
    TaskFailed(Handled),
    /// The broker refused the result, with these words.
    ResultLost(Seq<char>),
}

/// Whether the error `failure` is the one that tells of `report`.
pub open spec fn tells(failure: Option<WorkerError>, report: WorkerReport) -> bool {
    match report {
        WorkerReport::Fine => failure is None,
        WorkerReport::TaskFailed(Handled::Undecodable) => failure matches Some(
            WorkerError::ProtocolError(_),
        ),
        WorkerReport::TaskFailed(Handled::UnknownTask { name }) => failure matches Some(
            WorkerError::TracerError(TracerError::TaskNotFound(missing)),
        ) && missing@ == name,
        WorkerReport::TaskFailed(Handled::BadPayload) => failure matches Some(
            WorkerError::TracerError(TracerError::ProtocolError(_)),
        ),
        WorkerReport::TaskFailed(Handled::Unwritable) => failure matches Some(
            WorkerError::TracerError(TracerError::ProtocolError(_)),
        ),
        WorkerReport::TaskFailed(Handled::Done { .. }) => false,
        WorkerReport::ResultLost(reason) => failure matches Some(
            WorkerError::BrokerError(BrokerError::RedisError(said)),
        ) && said@ == reason,
    }
}

/// The rules of a worker: the state, the report and the action that follow
/// when `event` is reported in `state`. Where the event is a task that
/// arrived, `outcome` is what became of it.
pub open spec fn next(state: WorkerState, event: WorkerEventView, outcome: Handled) -> (
    WorkerState,
    WorkerReport,
    WorkerActionView,
) {
    match (state, event) {
        (WorkerState::Stopped, _) => (
            WorkerState::Stopped,
            WorkerReport::Fine,
            WorkerActionView::Stop,
        ),
        (WorkerState::Checking, WorkerEventView::ChannelClosed) => (
            WorkerState::Stopped,
            WorkerReport::Fine,
            WorkerActionView::Stop,
        ),
        (WorkerState::Checking, WorkerEventView::ChannelOpen) => (
            WorkerState::Offering,
            WorkerReport::Fine,
            WorkerActionView::SendToken,
        ),
        (WorkerState::Offering, WorkerEventView::TokenSent) => (
            WorkerState::Receiving,
            WorkerReport::Fine,
            WorkerActionView::Receive,
        ),
        (WorkerState::Offering, WorkerEventView::TokenFailed) => (
            WorkerState::BackingOff,
            WorkerReport::Fine,
            WorkerActionView::Backoff { millis: TOKEN_BACKOFF_MILLIS as int },
        ),
        (WorkerState::BackingOff, WorkerEventView::BackoffElapsed) => (
            WorkerState::Checking,
            WorkerReport::Fine,
            WorkerActionView::CheckChannel,
        ),
        (WorkerState::Receiving, WorkerEventView::Received(raw)) => match outcome {
            Handled::Done { id, result } => (
                WorkerState::Writing,
                WorkerReport::Fine,
                WorkerActionView::WriteResult { id, result },
            ),
            failed => (
                WorkerState::Checking,
                WorkerReport::TaskFailed(failed),
                WorkerActionView::CheckChannel,
            ),
        },
        (WorkerState::Receiving, WorkerEventView::ReceiveFailed { closed }) => if closed {
            (WorkerState::Stopped, WorkerReport::Fine, WorkerActionView::Stop)
        } else {
            (WorkerState::Checking, WorkerReport::Fine, WorkerActionView::CheckChannel)
        },
        (WorkerState::Writing, WorkerEventView::Written) => (
            WorkerState::Checking,
            WorkerReport::Fine,
            WorkerActionView::CheckChannel,
        ),
        (WorkerState::Writing, WorkerEventView::WriteFailed(reason)) => (
            WorkerState::Checking,
            WorkerReport::ResultLost(reason),
            WorkerActionView::CheckChannel,
        ),
        (_, _) => (state, WorkerReport::Fine, WorkerActionView::Ignored),
    }
}

/// One worker of the pool.
pub struct Worker {
    id: i32,
    state: WorkerState,
}

impl Worker {
    /// The worker's number in the pool.
    pub closed spec fn id(&self) -> i32 {
        self.id
    }

    /// Where the worker stands.
    pub closed spec fn state(&self) -> WorkerState {
        self.state
    }

    /// Worker number `i`, at the head of its loop.
    pub fn new(i: i32) -> (worker: Worker)
        ensures
            worker.id() == i,
            worker.state() == WorkerState::Checking,
    {
        Worker { id: i, state: WorkerState::Checking }
    }

    /// The worker's number in the pool.
    pub fn get_id(&self) -> (id: i32)
        ensures
            id == self.id(),
    {
        self.id
    }

    /// Whether the worker has left its loop.
    pub fn is_stopped(&self) -> (stopped: bool)
        ensures
            stopped == (self.state() == WorkerState::Stopped),
    {
        match self.state {
            WorkerState::Stopped => true,
            _ => false,
        }
    }

    /// Enters the loop: the worker goes to the head of its loop, whatever it
    /// was doing, and asks whether the work channel is open.
    pub fn start(&mut self) -> (action: WorkerAction)
        ensures
            final(self).id() == old(self).id(),
            final(self).state() == WorkerState::Checking,
            action@ == WorkerActionView::CheckChannel,
    {
        self.state = WorkerState::Checking;
        WorkerAction::CheckChannel
    }

    /// Takes one event and answers with what went wrong, if anything did, and
    /// with the next action, by the rules of `next`. A task that arrives is
    /// handled on the spot (see `handle`), and what became of it decides the
    /// step. A task that fails never stops the worker: only a closed work
    /// channel does.
    pub fn step(&mut self, app: &AsyncQueue, event: WorkerEvent) -> (answer: (
        Option<WorkerError>,
        WorkerAction,
    ))
        ensures
            final(self).id() == old(self).id(),
            exists|outcome: Handled|
                {
                    &&& #[trigger] settles(app, old(self).state(), event@, outcome)
                    &&& final(self).state() == next(old(self).state(), event@, outcome).0
                    &&& tells(answer.0, next(old(self).state(), event@, outcome).1)
                    &&& answer.1@ == next(old(self).state(), event@, outcome).2
                },
    {
        let ghost before = self.state;
        let ghost seen = event@;
        proof {
            if !(before == WorkerState::Receiving && seen is Received) {
                assert(settles(app, before, seen, Handled::Undecodable));
            }
        }
        match (self.state, event) {
            (WorkerState::Stopped, _) => (None, WorkerAction::Stop),
            (WorkerState::Checking, WorkerEvent::ChannelClosed) => {
                self.state = WorkerState::Stopped;
                (None, WorkerAction::Stop)
            },
            (WorkerState::Checking, WorkerEvent::ChannelOpen) => {
                self.state = WorkerState::Offering;
                (None, WorkerAction::SendToken)
            },
            (WorkerState::Offering, WorkerEvent::TokenSent) => {
                self.state = WorkerState::Receiving;
                (None, WorkerAction::Receive)
            },
            (WorkerState::Offering, WorkerEvent::TokenFailed) => {
                self.state = WorkerState::BackingOff;
                (None, WorkerAction::Backoff { millis: TOKEN_BACKOFF_MILLIS })
            },
            (WorkerState::BackingOff, WorkerEvent::BackoffElapsed) => {
                self.state = WorkerState::Checking;
                (None, WorkerAction::CheckChannel)
            },
            (WorkerState::Receiving, WorkerEvent::Received(raw)) => {
                let handled = self.handle(app, raw.as_str());
                let ghost outcome = choose|outcome: Handled|
                    may_handle(app, raw@, outcome) && answers(handled, outcome);
                assert(settles(app, before, seen, outcome));
                match handled {
                    Ok(done) => {
                        self.state = WorkerState::Writing;
                        (None, WorkerAction::WriteResult { id: done.0, result: done.1 })
                    },
                    Err(e) => {
                        self.state = WorkerState::Checking;
                        (Some(e), WorkerAction::CheckChannel)
                    },
                }
            },
            (WorkerState::Receiving, WorkerEvent::ReceiveFailed { closed }) => {
                if closed {
                    self.state = WorkerState::Stopped;
                    (None, WorkerAction::Stop)
                } else {
                    self.state = WorkerState::Checking;
                    (None, WorkerAction::CheckChannel)
                }
            },
            (WorkerState::Writing, WorkerEvent::Written) => {
                self.state = WorkerState::Checking;
                (None, WorkerAction::CheckChannel)
            },
            (WorkerState::Writing, WorkerEvent::WriteFailed(e)) => {
                self.state = WorkerState::Checking;
                (Some(WorkerError::BrokerError(e)), WorkerAction::CheckChannel)
            },
            (_, _) => (None, WorkerAction::Ignored),
        }
    }

    /// Runs the task that arrived as the text `val`: reads the envelope, has
    /// the registry build the task, runs it. The answer is the id with the
    /// text of the result, to be written to the broker, or what went wrong.
    pub fn handle(&self, app: &AsyncQueue, val: &str) -> (r: Result<(String, String), WorkerError>)
        ensures
            exists|outcome: Handled| #[trigger] may_handle(app, val@, outcome) && answers(r, outcome),
    {
        let msg = match Message::decode(val) {
            Ok(msg) => msg,
            Err(MsgError::ProtocolError(e)) => {
                assert(may_handle(app, val@, Handled::Undecodable));
                return Err(WorkerError::ProtocolError(e));
            },
        };
        let id = msg.get_id();
        let name = msg.get_name();
        let ghost envelope = msg@;
        let run = self.handle_message(app, name, msg);
        proof {
            if !app.has(envelope.name) {
                assert(may_handle(app, val@, Handled::UnknownTask { name: envelope.name }));
            } else {
                if run is Ok {
                    assert(may_handle(
                        app,
                        val@,
                        Handled::Done { id: envelope.id, result: run->Ok_0@ },
                    ));
                } else if (app.outcomes_of(envelope.name))(envelope.payload, Traced::BadPayload) {
                    assert(may_handle(app, val@, Handled::BadPayload));
                } else {
                    assert(may_handle(app, val@, Handled::Unwritable));
                }
            }
        }
        match run {
            Ok(result) => Ok((id, result)),
            Err(e) => Err(e),
        }
    }

    /// Has the registry build the task for `msg` under `name`, and runs it.
    /// The answer is the text of the result, `TaskNotFound` for a name that is
    /// not registered, or a protocol error where the kind could not read the
    /// payload or write the result.
    pub fn handle_message(&self, app: &AsyncQueue, name: String, msg: Message) -> (r: Result<
        String,
        WorkerError,
    >)
        ensures
            !app.has(name@) ==> (r matches Err(
                WorkerError::TracerError(TracerError::TaskNotFound(missing)),
            ) && missing@ == name@),
            app.has(name@) ==> {
                &&& r matches Ok(result) ==> (app.outcomes_of(name@))(
                    msg@.payload,
                    Traced::Done(result@),
                )
                &&& r matches Err(e) ==> e matches WorkerError::TracerError(
                    TracerError::ProtocolError(_),
                ) && ((app.outcomes_of(name@))(msg@.payload, Traced::BadPayload) || (
                app.outcomes_of(name@))(msg@.payload, Traced::Unwritable))
            },
    {
        let mut tracer = match app.get_tracer(name, msg) {
            Ok(tracer) => tracer,
            Err(e) => {
                return Err(WorkerError::TracerError(e));
            },
        };
        match tracer.run() {
            Ok(result) => Ok(result),
            Err(e) => Err(WorkerError::TracerError(e)),
        }
    }
}

/// Whether `outcome` is what became of the task that `event` brought, where
/// it brought one to a worker that was waiting for it.
pub open spec fn settles(
    app: &AsyncQueue,
    state: WorkerState,
    event: WorkerEventView,
    outcome: Handled,
) -> bool {
    state == WorkerState::Receiving && event is Received ==> may_handle(
        app,
        event->Received_0,
        outcome,
    )
}

/// Dispatch is faithful. Let `text` read as the envelope of a task of the
/// kind `T`, as every text does that a client hands out for such a task, and
/// let `T` be registered. Then whatever becomes of the task on a worker is
/// what the kind `T` itself makes of the envelope's payload: a result is
/// stored under the id of the envelope, and it is a text that `T` wrote for
/// the result of a run on the parameters that `T` read from the payload; a
/// failure is a failure of `T` to read the payload or to write the result.
pub proof fn lemma_dispatch_is_faithful<T: AQTask>(
    app: &AsyncQueue,
    envelope: MessageView,
    text: Seq<char>,
    outcome: Handled,
)
    requires
        wire_message(text) == Some(envelope),
        envelope.name == T::NAME@,
        app.has(T::NAME@),
        app.outcomes_of(T::NAME@) == crate::tracer::traced_by::<T>(),
        may_handle(app, text, outcome),
    ensures
        match outcome {
            Handled::Done { id, result } => id == envelope.id && may_trace::<T>(
                envelope.payload,
                Traced::Done(result),
            ),
            Handled::BadPayload => may_trace::<T>(envelope.payload, Traced::BadPayload),
            Handled::Unwritable => may_trace::<T>(envelope.payload, Traced::Unwritable),
            Handled::Undecodable => false,
            Handled::UnknownTask { .. } => false,
        },
{
}

/// A task of a name that no one registered is answered with `TaskNotFound`,
/// and the worker goes back to the head of its loop: it is not stopped.
pub proof fn lemma_unknown_task_is_survived(app: &AsyncQueue, raw: Seq<char>, outcome: Handled)
    requires
        wire_message(raw) matches Some(message) && !app.has(message.name),
        may_handle(app, raw, outcome),
    ensures
        next(WorkerState::Receiving, WorkerEventView::Received(raw), outcome) == (
            WorkerState::Checking,
            WorkerReport::TaskFailed(Handled::UnknownTask { name: wire_message(raw)->Some_0.name }),
            WorkerActionView::CheckChannel,
        ),
{
}

/// No failure of a task stops a worker: whatever arrives and whatever
/// becomes of it, the worker is not stopped by it; unless the task is done
/// the worker is back at the head of its loop, and so it is after a result
/// that the broker refused.
pub proof fn lemma_tasks_never_stop_a_worker(raw: Seq<char>, reason: Seq<char>, outcome: Handled)
    ensures
        next(WorkerState::Receiving, WorkerEventView::Received(raw), outcome).0
            != WorkerState::Stopped,
        !(outcome is Done) ==> next(
            WorkerState::Receiving,
            WorkerEventView::Received(raw),
            outcome,
        ).0 == WorkerState::Checking,
        next(WorkerState::Writing, WorkerEventView::WriteFailed(reason), outcome).0
            == WorkerState::Checking,
{
}

/// Only a closed work channel stops a worker, and only when the worker has
/// no task in hand: a step ends in `Stopped` only from `Stopped`, from the
/// head of the loop on the report that the channel is closed, or from the
/// wait for a task on the report that none can come any more. A worker that
/// has run a task stays until the result is written or refused.
pub proof fn lemma_only_a_closed_channel_stops(
    state: WorkerState,
    event: WorkerEventView,
    outcome: Handled,
)
    requires
        next(state, event, outcome).0 == WorkerState::Stopped,
    ensures
        state == WorkerState::Stopped || (state == WorkerState::Checking && event
            is ChannelClosed) || (state == WorkerState::Receiving && event
            == (WorkerEventView::ReceiveFailed { closed: true })),
{
}

} // verus!
