//! The server: the pool of workers and the scheduler that feeds it.
//!
//! Starting a server means opening the channels, starting the workers one by
//! one, each on a broker connection of its own, running the scheduler until a
//! shutdown signal ends it, and then waiting until every worker has left its
//! loop. The order of these steps is a state machine here; the driver opens,
//! connects, spawns and waits.

use vstd::prelude::*;
use crate::error::{BrokerError, ServerError};
use crate::scheduler::{Scheduler, SchedulerAction, SchedulerActionView, SchedulerState};

verus! {

/// The capacity of the channel whose closing tells that all workers are gone.
pub const SHUTDOWN_CHANNEL_CAPACITY: usize = 1;

/// Where the start of a server stands.
#[derive(Clone, Copy, Debug, PartialEq, Eq, Structural)]
pub enum ServerState {
    /// The channels are being opened.
    Opening,
    /// The workers below `next` run; worker `next` is being started.
    Starting { next: i32 },
    /// All workers run, and so does the scheduler.
    Scheduling,
    /// The scheduler has stopped; the workers are finishing.
    Draining,
    /// The server has returned.
    Closed,
}

/// What the driver reports to a starting server.
#[derive(Debug)]
pub enum ServerEvent {
    /// The channels are open.
    ChannelsOpened,
    /// The worker has its broker and runs.
    WorkerStarted,
    /// No broker could be had for the worker.
    BrokerFailed(BrokerError),
    /// The scheduler has left its loop.
    SchedulerStopped,
    /// The scheduler could not listen for shutdown signals, for this reason.
    SchedulerFailed(String),
    /// Every worker has left its loop.
    Drained,
}

/// An event as the rules see it.
pub enum ServerEventView {
    ChannelsOpened,
    WorkerStarted,
    BrokerFailed(Seq<char>),
    SchedulerStopped,
    SchedulerFailed(Seq<char>),
    Drained,
}

impl View for ServerEvent {
    type V = ServerEventView;

    open spec fn view(&self) -> ServerEventView {
        match *self {
            ServerEvent::ChannelsOpened => ServerEventView::ChannelsOpened,
            ServerEvent::WorkerStarted => ServerEventView::WorkerStarted,
            ServerEvent::BrokerFailed(BrokerError::RedisError(reason)) => {
                ServerEventView::BrokerFailed(reason@)
            },
            ServerEvent::SchedulerStopped => ServerEventView::SchedulerStopped,
            ServerEvent::SchedulerFailed(reason) => ServerEventView::SchedulerFailed(reason@),
            ServerEvent::Drained => ServerEventView::Drained,
        }
    }
}

/// What a starting server asks the driver to do next.
#[derive(Debug)]
pub enum ServerAction {
    /// Open the work channel, the token channel and the shutdown channel,
    /// with these capacities.
    OpenChannels { work: usize, tokens: usize, shutdown: usize },
    /// Build a broker connection with this timeout and start the worker of
    /// this number on it.
    StartWorker { id: i32, timeout: u32 },
    /// Give up the server's own ends of the token and shutdown channels, and
    /// run the scheduler.
    Schedule,
    /// Wait until the shutdown channel is closed: until all workers are gone.
    Drain,
    /// Return from the start, with this outcome.
    Return(Result<(), ServerError>),
    /// The event did not belong here: go on with what was asked before, or
    /// with nothing if the server has returned.
    Ignored,
}

/// How the start of a server ends.
pub enum ServerEnd {
    /// After a shutdown, in good order.
    Closed,
    /// No broker for a worker.
    NoBroker(Seq<char>),
    /// No way to hear shutdown signals.
    NoSignals(Seq<char>),
}

/// An action as the rules see it.
pub enum ServerActionView {
    OpenChannels { work: int, tokens: int, shutdown: int },
    StartWorker { id: int, timeout: int },
    Schedule,
    Drain,
    Return(ServerEnd),
    Ignored,
}

/// Whether `action` is the action `view`.
pub open spec fn is_action(action: ServerAction, view: ServerActionView) -> bool {
    match view {
        ServerActionView::OpenChannels { work, tokens, shutdown } => action
            matches ServerAction::OpenChannels { work: w, tokens: t, shutdown: s } && w == work
            && t == tokens && s == shutdown,
        ServerActionView::StartWorker { id, timeout } => action matches ServerAction::StartWorker {
            id: i,
            timeout: t,
        } && i == id && t == timeout,
        ServerActionView::Schedule => action is Schedule,
        ServerActionView::Drain => action is Drain,
        ServerActionView::Return(ServerEnd::Closed) => action matches ServerAction::Return(Ok(_)),
        ServerActionView::Return(ServerEnd::NoBroker(reason)) => action
            matches ServerAction::Return(
            Err(ServerError::BrokerError(BrokerError::RedisError(said))),
        ) && said@ == reason,
        ServerActionView::Return(ServerEnd::NoSignals(reason)) => action
            matches ServerAction::Return(Err(ServerError::IOError(said))) && said@ == reason,
        ServerActionView::Ignored => action is Ignored,
    }
}

/// The rules of the start of a server with `num` workers whose broker
/// connections get the timeout `timeout`: the state and the action that
/// follow when `event` is reported in `state`.
pub open spec fn next(num: int, timeout: int, state: ServerState, event: ServerEventView) -> (
    ServerState,
    ServerActionView,
) {
    match (state, event) {
        (ServerState::Opening, ServerEventView::ChannelsOpened) => (
            ServerState::Starting { next: 0 },
            ServerActionView::StartWorker { id: 0, timeout },
        ),
        (ServerState::Starting { next }, ServerEventView::WorkerStarted) => if next + 1 < num {
            (
                ServerState::Starting { next: (next + 1) as i32 },
                ServerActionView::StartWorker { id: next + 1, timeout },
            )
        } else {
            (ServerState::Scheduling, ServerActionView::Schedule)
        },
        (ServerState::Starting { next }, ServerEventView::BrokerFailed(reason)) => (
            ServerState::Closed,
            ServerActionView::Return(ServerEnd::NoBroker(reason)),
        ),
        (ServerState::Scheduling, ServerEventView::SchedulerStopped) => (
            ServerState::Draining,
            ServerActionView::Drain,
        ),
        (ServerState::Scheduling, ServerEventView::SchedulerFailed(reason)) => (
            ServerState::Closed,
            ServerActionView::Return(ServerEnd::NoSignals(reason)),
        ),
        (ServerState::Draining, ServerEventView::Drained) => (
            ServerState::Closed,
            ServerActionView::Return(ServerEnd::Closed),
        ),
        (_, _) => (state, ServerActionView::Ignored),
    }
}

/// The server of one queue.
pub struct Server {
    queue: String,
    timeout: u32,
}

/// One start of a server.
pub struct ServerRun {
    num: i32,
    timeout: u32,
    state: ServerState,
}

impl Server {
    /// The name of the queue on the broker.
    pub closed spec fn queue(&self) -> Seq<char> {
        self.queue@
    }

    /// The timeout asked of each broker connection.
    pub closed spec fn timeout(&self) -> u32 {
        self.timeout
    }

    /// A server of the queue named `queue`.
    pub fn new(queue: String, timeout: u32) -> (server: Server)
        ensures
            server.queue() == queue@,
            server.timeout() == timeout,
    {
        Server { queue, timeout }
    }

    /// Begins to start the server with `num` workers: the run, and its first
    /// action, which is to open the channels. The work channel and the token
    /// channel have room for one entry per worker.
    ///
    /// A pool has at least one worker: no channel can be made without room.
    pub fn start(&self, num: i32) -> (begun: (ServerRun, ServerAction))
        requires
            num >= 1,
        ensures
            begun.0.num() == num,
            begun.0.timeout() == self.timeout(),
            begun.0.state() == ServerState::Opening,
            is_action(
                begun.1,
                ServerActionView::OpenChannels {
                    work: num as int,
                    tokens: num as int,
                    shutdown: SHUTDOWN_CHANNEL_CAPACITY as int,
                },
            ),
    {
        let capacity = num as usize;
        (
            ServerRun { num, timeout: self.timeout, state: ServerState::Opening },
            ServerAction::OpenChannels {
                work: capacity,
                tokens: capacity,
                shutdown: SHUTDOWN_CHANNEL_CAPACITY,
            },
        )
    }

    /// The scheduler of this server's queue, with its first action.
    pub fn schedule(&self) -> (begun: (Scheduler, SchedulerAction))
        ensures
            begun.0.queue() == self.queue(),
            begun.0.state() == SchedulerState::AwaitingToken,
            begun.0.signal() is None,
            begun.1@ == SchedulerActionView::AwaitToken,
    {
        Scheduler::start(self.queue.clone())
    }
}

impl ServerRun {
    /// How many workers the pool has.
    pub closed spec fn num(&self) -> i32 {
        self.num
    }

    /// The timeout asked of each broker connection.
    pub closed spec fn timeout(&self) -> u32 {
        self.timeout
    }

    /// Where the start stands.
    pub closed spec fn state(&self) -> ServerState {
        self.state
    }

    /// The pool has a worker, and the worker that is being started is one of
    /// the pool.
    #[verifier::type_invariant]
    spec fn inv(&self) -> bool {
        &&& self.num >= 1
        &&& self.state matches ServerState::Starting { next } ==> 0 <= next < self.num
    }

    /// Whether the server has returned.
    pub fn is_closed(&self) -> (closed: bool)
        ensures
            closed == (self.state() == ServerState::Closed),
    {
        match self.state {
            ServerState::Closed => true,
            _ => false,
        }
    }

    /// Takes one event and answers with the next action, by the rules of
    /// `next`.
    pub fn step(&mut self, event: ServerEvent) -> (action: ServerAction)
        ensures
            final(self).num() == old(self).num(),
            final(self).timeout() == old(self).timeout(),
            final(self).state() == next(
                old(self).num() as int,
                old(self).timeout() as int,
                old(self).state(),
                event@,
            ).0,
            is_action(
                action,
                next(old(self).num() as int, old(self).timeout() as int, old(self).state(), event@).1,
            ),
    {
        proof {
            use_type_invariant(&*self);
        }
        match (self.state, event) {
            (ServerState::Opening, ServerEvent::ChannelsOpened) => {
                self.state = ServerState::Starting { next: 0 };
                ServerAction::StartWorker { id: 0, timeout: self.timeout }
            },
            (ServerState::Starting { next }, ServerEvent::WorkerStarted) => {
                if next + 1 < self.num {
                    self.state = ServerState::Starting { next: next + 1 };
                    ServerAction::StartWorker { id: next + 1, timeout: self.timeout }
                } else {
                    self.state = ServerState::Scheduling;
                    ServerAction::Schedule
                }
            },
            (ServerState::Starting { next }, ServerEvent::BrokerFailed(e)) => {
                self.state = ServerState::Closed;
                ServerAction::Return(Err(ServerError::BrokerError(e)))
            },
            (ServerState::Scheduling, ServerEvent::SchedulerStopped) => {
                self.state = ServerState::Draining;
                ServerAction::Drain
            },
            (ServerState::Scheduling, ServerEvent::SchedulerFailed(reason)) => {
                self.state = ServerState::Closed;
                ServerAction::Return(Err(ServerError::IOError(reason)))
            },
            (ServerState::Draining, ServerEvent::Drained) => {
                self.state = ServerState::Closed;
                ServerAction::Return(Ok(()))
            },
            (_, _) => ServerAction::Ignored,
        }
    }
}

/// The state of a start after the first `n` of `events`.
pub open spec fn state_after(num: int, timeout: int, events: Seq<ServerEventView>, n: int)
    -> ServerState
    decreases n,
{
    if n <= 0 {
        ServerState::Opening
    } else {
        next(num, timeout, state_after(num, timeout, events, n - 1), events[n - 1]).0
    }
}

/// The action with which a start answers event number `i`.
pub open spec fn action_at(num: int, timeout: int, events: Seq<ServerEventView>, i: int)
    -> ServerActionView {
    next(num, timeout, state_after(num, timeout, events, i), events[i]).1
}

/// The workers are started one by one, from number 0 up, each with the
/// server's timeout: once the channels are open, the report that the first
/// `k` workers run is answered by the start of worker `k`, and the report
/// that all `num` run is answered by the scheduler.
pub proof fn lemma_workers_start_in_order(
    num: int,
    timeout: int,
    events: Seq<ServerEventView>,
    k: int,
)
    requires
        1 <= num <= i32::MAX,
        0 <= k <= num,
        k < events.len(),
        events[0] is ChannelsOpened,
        forall|i: int| 1 <= i <= k ==> events[i] is WorkerStarted,
    ensures
        k < num ==> action_at(num, timeout, events, k) == (ServerActionView::StartWorker {
            id: k,
            timeout,
        }) && state_after(num, timeout, events, k + 1) == (ServerState::Starting {
            next: k as i32,
        }),
        k == num ==> action_at(num, timeout, events, k) == ServerActionView::Schedule
            && state_after(num, timeout, events, k + 1) == ServerState::Scheduling,
    decreases k,
{
    if k > 0 {
        lemma_workers_start_in_order(num, timeout, events, k - 1);
    }
}

/// A start returns in good order only when the workers have drained, it
/// waits for them only after the scheduler has stopped, and it runs the
/// scheduler only after the last worker has started.
pub proof fn lemma_server_closes_in_order(
    num: int,
    timeout: int,
    state: ServerState,
    event: ServerEventView,
)
    ensures
        next(num, timeout, state, event).1 == ServerActionView::Return(ServerEnd::Closed) ==> state
            == ServerState::Draining && event is Drained,
        next(num, timeout, state, event).1 == ServerActionView::Drain ==> state
            == ServerState::Scheduling && event is SchedulerStopped,
        next(num, timeout, state, event).1 == ServerActionView::Schedule ==> (state
            matches ServerState::Starting { next } && next + 1 >= num) && event is WorkerStarted,
{
}

} // verus!
