//! The pool as a whole: one scheduler, its workers, and the two channels
//! between them.
//!
//! The token channel and the work channel each have room for one entry per
//! worker. This module states, for the scheduler and the workers taken
//! together, what the rule of admission is for: while the scheduler runs,
//! every task that has left the broker and has not reached a worker yet has a
//! worker of its own that waits for it. So no task ever finds the work
//! channel full, and no token ever finds the token channel full.
//!
//! Nothing here runs: the pool is a model made of the rules of the scheduler
//! and of the workers, and what is proved holds of every order in which a
//! driver may let them move.

use vstd::prelude::*;
use crate::scheduler::{SchedulerEventView, SchedulerState};
use crate::worker::{Handled, WorkerEventView, WorkerState};

verus! {

/// The scheduler, the workers and what the channels hold.
pub struct Pool {
    /// Where the scheduler stands.
    pub scheduler: SchedulerState,
    /// The task that the scheduler is putting on the work channel.
    pub in_flight: Option<Seq<char>>,
    /// Where each worker stands.
    pub workers: Seq<WorkerState>,
    /// How many tokens lie in the token channel.
    pub tokens: nat,
    /// The tasks that lie in the work channel, oldest first.
    pub work: Seq<Seq<char>>,
}

/// One move of the pool: the scheduler takes an event, or one worker takes
/// its news, with what became of the task if the news was a task.
pub enum PoolMove {
    Scheduler { event: SchedulerEventView },
    Worker { who: int, news: WorkerEventView, outcome: Handled },
}

/// A pool of `num` workers at its start: every worker at the head of its
/// loop, no token held, both channels empty.
pub open spec fn fresh(num: nat) -> Pool {
    Pool {
        scheduler: SchedulerState::AwaitingToken,
        in_flight: None,
        workers: Seq::new(num, |i: int| WorkerState::Checking),
        tokens: 0,
        work: Seq::empty(),
    }
}

/// How many of `workers` wait for a task.
pub open spec fn waiting(workers: Seq<WorkerState>) -> nat
    decreases workers.len(),
{
    if workers.len() == 0 {
        0
    } else {
        waiting(workers.drop_last()) + one_if(workers.last() == WorkerState::Receiving)
    }
}

/// Whether the channels allow the move: a token can be taken only where one
/// lies, and sent only where there is room; a task can be put on the work
/// channel only where there is room, and taken only from its head; and a
/// worker finds the work channel closed only after the scheduler has
/// stopped, and fails to receive only when it is closed and empty.
pub open spec fn possible(pool: Pool, mv: PoolMove) -> bool {
    match mv {
        PoolMove::Scheduler { event } => match (pool.scheduler, event) {
            (SchedulerState::AwaitingToken, SchedulerEventView::Token) => pool.tokens > 0,
            (SchedulerState::Dispatching, SchedulerEventView::Dispatched) => pool.work.len()
                < pool.workers.len(),
            _ => true,
        },
        PoolMove::Worker { who, news, outcome } => 0 <= who < pool.workers.len() && match (
            pool.workers[who],
            news,
        ) {
            (WorkerState::Checking, WorkerEventView::ChannelClosed) => pool.scheduler
                == SchedulerState::Terminated,
            (WorkerState::Offering, WorkerEventView::TokenSent) => pool.tokens
                < pool.workers.len(),
            (WorkerState::Receiving, WorkerEventView::Received(raw)) => pool.work.len() > 0
                && pool.work[0] == raw,
            (WorkerState::Receiving, WorkerEventView::ReceiveFailed { closed }) => pool.scheduler
                == SchedulerState::Terminated && pool.work.len() == 0,
            _ => true,
        },
    }
}

/// The pool after the move: the one who moves goes by its own rules, and the
/// channels gain or lose what the move sends or takes.
pub open spec fn moved(queue: Seq<char>, pool: Pool, mv: PoolMove) -> Pool {
    match mv {
        PoolMove::Scheduler { event } => {
            let scheduler = crate::scheduler::next(queue, pool.scheduler, event).0;
            match (pool.scheduler, event) {
                (SchedulerState::AwaitingToken, SchedulerEventView::Token) => Pool {
                    scheduler,
                    tokens: (pool.tokens - 1) as nat,
                    ..pool
                },
                (SchedulerState::Dequeuing, SchedulerEventView::Task(task)) => Pool {
                    scheduler,
                    in_flight: Some(task),
                    ..pool
                },
                (SchedulerState::Dispatching, SchedulerEventView::Dispatched) => Pool {
                    scheduler,
                    in_flight: None,
                    work: if pool.in_flight is Some {
                        pool.work.push(pool.in_flight->Some_0)
                    } else {
                        pool.work
                    },
                    ..pool
                },
                (SchedulerState::Dispatching, _) => Pool {
                    scheduler,
                    in_flight: if scheduler == SchedulerState::Dispatching {
                        pool.in_flight
                    } else {
                        None
                    },
                    ..pool
                },
                _ => Pool { scheduler, ..pool },
            }
        },
        PoolMove::Worker { who, news, outcome } => {
            let worker = crate::worker::next(pool.workers[who], news, outcome).0;
            let workers = pool.workers.update(who, worker);
            match (pool.workers[who], news) {
                (WorkerState::Offering, WorkerEventView::TokenSent) => Pool {
                    workers,
                    tokens: pool.tokens + 1,
                    ..pool
                },
                (WorkerState::Receiving, WorkerEventView::Received(raw)) => Pool {
                    workers,
                    work: pool.work.drop_first(),
                    ..pool
                },
                _ => Pool { workers, ..pool },
            }
        },
    }
}

/// What is owed a waiting worker: the tokens in the channel, the token in
/// the scheduler's hand, the task on its way into the work channel, and the
/// tasks in the work channel.
pub open spec fn owed(pool: Pool) -> nat {
    pool.tokens + one_if(pool.scheduler.flag()) + one_if(pool.in_flight is Some)
        + pool.work.len()
}

/// One if `held`, else nothing.
pub open spec fn one_if(held: bool) -> nat {
    if held {
        1
    } else {
        0
    }
}

/// The rule of admission, for the pool: a task is on its way exactly while
/// the scheduler dispatches, and while the scheduler runs, no more is owed
/// than workers wait.
pub open spec fn admitted(pool: Pool) -> bool {
    &&& pool.in_flight is Some <==> pool.scheduler == SchedulerState::Dispatching
    &&& pool.scheduler != SchedulerState::Terminated ==> owed(pool) <= waiting(pool.workers)
}

/// No more workers wait than there are, and where one of them does not wait,
/// fewer.
pub proof fn lemma_waiting_is_bounded(workers: Seq<WorkerState>, who: int)
    requires
        0 <= who < workers.len(),
    ensures
        waiting(workers) <= workers.len(),
        workers[who] != WorkerState::Receiving ==> waiting(workers) < workers.len(),
    decreases workers.len(),
{
    let others = workers.drop_last();
    if others.len() == 0 {
        assert(waiting(others) == 0);
    } else if who < others.len() {
        assert(others[who] == workers[who]);
        lemma_waiting_is_bounded(others, who);
    } else {
        lemma_waiting_is_bounded(others, 0);
    }
}

/// When one worker changes its state, the number of waiting workers changes
/// by that worker alone.
pub proof fn lemma_waiting_after_update(workers: Seq<WorkerState>, who: int, state: WorkerState)
    requires
        0 <= who < workers.len(),
    ensures
        waiting(workers.update(who, state)) + one_if(workers[who] == WorkerState::Receiving)
            == waiting(workers) + one_if(state == WorkerState::Receiving),
    decreases workers.len(),
{
    let updated = workers.update(who, state);
    if who == workers.len() - 1 {
        assert(updated.drop_last() =~= workers.drop_last());
    } else {
        assert(updated.drop_last() =~= workers.drop_last().update(who, state));
        lemma_waiting_after_update(workers.drop_last(), who, state);
    }
}

/// In a fresh pool no worker waits, and nothing is owed.
pub proof fn lemma_fresh_is_admitted(num: nat)
    ensures
        admitted(fresh(num)),
        waiting(fresh(num).workers) == 0,
    decreases num,
{
    let workers = fresh(num).workers;
    if num > 0 {
        lemma_fresh_is_admitted((num - 1) as nat);
        assert(workers.drop_last() =~= fresh((num - 1) as nat).workers);
    }
}

/// The rule of admission holds of the pool for good: whoever moves, and
/// whatever the event, a move that the channels allow leads from a pool in
/// which the rule holds to one in which it holds.
pub proof fn lemma_admission_is_kept(queue: Seq<char>, pool: Pool, mv: PoolMove)
    requires
        admitted(pool),
        possible(pool, mv),
    ensures
        admitted(moved(queue, pool, mv)),
        moved(queue, pool, mv).workers.len() == pool.workers.len(),
{
    match mv {
        PoolMove::Scheduler { event } => {},
        PoolMove::Worker { who, news, outcome } => {
            let state = crate::worker::next(pool.workers[who], news, outcome).0;
            lemma_waiting_after_update(pool.workers, who, state);
        },
    }
}

/// The pool after the first `n` of `moves`, from a fresh pool of `num`
/// workers.
pub open spec fn pool_after(queue: Seq<char>, num: nat, moves: Seq<PoolMove>, n: int) -> Pool
    decreases n,
{
    if n <= 0 {
        fresh(num)
    } else {
        moved(queue, pool_after(queue, num, moves, n - 1), moves[n - 1])
    }
}

/// Whether the channels allow each of the first `n` of `moves` at its turn.
pub open spec fn allowed(queue: Seq<char>, num: nat, moves: Seq<PoolMove>, n: int) -> bool {
    forall|i: int| 0 <= i < n ==> possible(#[trigger] pool_after(queue, num, moves, i), moves[i])
}

/// The rule of admission holds at every moment of every run: after any
/// number of moves that the channels allowed, in any order.
pub proof fn lemma_admission_always(queue: Seq<char>, num: nat, moves: Seq<PoolMove>, n: int)
    requires
        0 <= n <= moves.len(),
        allowed(queue, num, moves, n),
    ensures
        admitted(pool_after(queue, num, moves, n)),
        pool_after(queue, num, moves, n).workers.len() == num,
    decreases n,
{
    if n > 0 {
        lemma_admission_always(queue, num, moves, n - 1);
        let before = pool_after(queue, num, moves, n - 1);
        assert(possible(before, moves[n - 1]));
        lemma_admission_is_kept(queue, before, moves[n - 1]);
    } else {
        lemma_fresh_is_admitted(num);
    }
}

/// The channels never fill up. While the rule of admission holds and the
/// scheduler runs, a worker that is about to send its token finds room in
/// the token channel, and the scheduler, when it is about to pass a task on,
/// finds room in the work channel: neither is ever held up by a channel that
/// is full.
pub proof fn lemma_channels_have_room(pool: Pool, who: int)
    requires
        admitted(pool),
        pool.scheduler != SchedulerState::Terminated,
        0 <= who < pool.workers.len(),
    ensures
        pool.tokens <= pool.workers.len(),
        pool.work.len() <= pool.workers.len(),
        pool.workers[who] == WorkerState::Offering ==> pool.tokens < pool.workers.len(),
        pool.scheduler == SchedulerState::Dispatching ==> pool.work.len() < pool.workers.len(),
{
    lemma_waiting_is_bounded(pool.workers, who);
}

/// Every task in the work channel has a worker that waits for it: while the
/// scheduler runs, at least as many workers wait as tasks lie in the channel
/// or are on their way into it.
pub proof fn lemma_every_task_has_a_worker(pool: Pool)
    requires
        admitted(pool),
        pool.scheduler != SchedulerState::Terminated,
    ensures
        pool.work.len() + one_if(pool.in_flight is Some) <= waiting(pool.workers),
{
}

} // verus!
