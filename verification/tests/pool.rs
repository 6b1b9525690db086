use std::collections::VecDeque;

use rust_async_queue::error::BrokerError;
use rust_async_queue::message::Message;
use rust_async_queue::queue::AsyncQueue;
use rust_async_queue::scheduler::{Scheduler, SchedulerAction, SchedulerEvent};
use rust_async_queue::task::AQTask;
use rust_async_queue::worker::{Worker, WorkerAction, WorkerEvent};

/// Doubles a number that travels as decimal text.
struct Double {
    n: u32,
}

impl AQTask for Double {
    const NAME: &'static str = "double";
    type Params = u32;
    type Returns = u32;

    fn run(&self) -> u32 {
        self.n * 2
    }

    fn from_params(n: u32) -> Self {
        Double { n }
    }

    fn encode_params(n: &u32) -> Result<Vec<u8>, serde_json::Error> {
        serde_json::to_vec(n)
    }

    fn decode_params(payload: &Vec<u8>) -> Result<u32, serde_json::Error> {
        serde_json::from_slice(payload)
    }

    fn encode_returns(value: &u32) -> Result<String, serde_json::Error> {
        serde_json::to_string(value)
    }

    fn decode_returns(text: &str) -> Result<u32, serde_json::Error> {
        serde_json::from_str(text)
    }
}

/// A scheduler and its workers with the two channels between them, moved
/// one at a time in an order that a seed decides.
struct Pool {
    app: AsyncQueue,
    scheduler: Scheduler,
    asked: SchedulerAction,
    workers: Vec<Worker>,
    wanted: Vec<WorkerAction>,
    tokens: usize,
    work: VecDeque<String>,
    broker: VecDeque<String>,
    written: Vec<(String, String)>,
    seed: u64,
}

impl Pool {
    fn new(num: usize, tasks: u32, seed: u64) -> Pool {
        let mut app = AsyncQueue::new("pool".to_string(), "q".to_string(), "url".to_string());
        app.register::<Double>().unwrap();
        let (scheduler, asked) = Scheduler::start("q".to_string());
        let mut workers = Vec::new();
        let mut wanted = Vec::new();
        for i in 0..num {
            let mut worker = Worker::new(i as i32);
            wanted.push(worker.start());
            workers.push(worker);
        }
        let broker = (0..tasks)
            .map(|n| {
                let payload = Double::encode_params(&n).unwrap();
                Message::new_with_id(format!("task-{}", n), "double".to_string(), payload)
                    .serialize()
                    .unwrap()
            })
            .collect();
        Pool {
            app,
            scheduler,
            asked,
            workers,
            wanted,
            tokens: 0,
            work: VecDeque::new(),
            broker,
            written: Vec::new(),
            seed,
        }
    }

    fn draw(&mut self, bound: usize) -> usize {
        self.seed = self.seed.wrapping_mul(6364136223846793005).wrapping_add(1442695040888963407);
        ((self.seed >> 33) as usize) % bound
    }

    fn move_scheduler(&mut self) {
        let asked = std::mem::replace(&mut self.asked, SchedulerAction::Ignored);
        self.asked = match asked {
            SchedulerAction::AwaitToken => {
                if self.tokens == 0 {
                    SchedulerAction::AwaitToken
                } else {
                    self.tokens -= 1;
                    self.scheduler.step(SchedulerEvent::Token)
                }
            }
            SchedulerAction::Dequeue { queue } => {
                assert_eq!(queue, "q");
                assert!(self.scheduler.flag());
                match self.draw(4) {
                    0 => self.scheduler.step(SchedulerEvent::DequeueFailed(
                        BrokerError::RedisError("hiccup".to_string()),
                    )),
                    1 => self.scheduler.step(SchedulerEvent::Dequeued(None)),
                    _ => {
                        let found = self.broker.pop_front().map(|task| (queue, task));
                        self.scheduler.step(SchedulerEvent::Dequeued(found))
                    }
                }
            }
            SchedulerAction::Backoff { millis } => {
                assert_eq!(millis, 1000);
                self.scheduler.step(SchedulerEvent::BackoffElapsed)
            }
            SchedulerAction::Dispatch { task } => {
                // The work channel has room for one task per worker.
                assert!(self.work.len() < self.workers.len());
                self.work.push_back(task);
                self.scheduler.step(SchedulerEvent::Dispatched)
            }
            other => other,
        };
    }

    fn move_worker(&mut self, who: usize) {
        let wanted = std::mem::replace(&mut self.wanted[who], WorkerAction::Ignored);
        let worker = &mut self.workers[who];
        self.wanted[who] = match wanted {
            WorkerAction::CheckChannel => worker.step(&self.app, WorkerEvent::ChannelOpen).1,
            WorkerAction::SendToken => {
                // The token channel has room for one token per worker.
                assert!(self.tokens < self.wanted.len());
                self.tokens += 1;
                worker.step(&self.app, WorkerEvent::TokenSent).1
            }
            WorkerAction::Receive => match self.work.pop_front() {
                Some(raw) => {
                    let (report, next) = worker.step(&self.app, WorkerEvent::Received(raw));
                    assert!(report.is_none());
                    next
                }
                None => WorkerAction::Receive,
            },
            WorkerAction::WriteResult { id, result } => {
                self.written.push((id, result));
                worker.step(&self.app, WorkerEvent::Written).1
            }
            other => other,
        };
    }

    /// No more is owed than workers wait.
    fn check(&self) {
        let waiting = self.wanted.iter().filter(|w| matches!(w, WorkerAction::Receive)).count();
        let in_hand = if self.scheduler.flag() { 1 } else { 0 };
        let in_flight = if matches!(self.asked, SchedulerAction::Dispatch { .. }) { 1 } else { 0 };
        assert!(self.tokens + in_hand + in_flight + self.work.len() <= waiting);
        assert!(self.tokens <= self.workers.len());
        assert!(self.work.len() <= self.workers.len());
    }

    fn run(&mut self, moves: usize) {
        for _ in 0..moves {
            let who = self.draw(self.workers.len() + 1);
            if who == self.workers.len() {
                self.move_scheduler();
            } else {
                self.move_worker(who);
            }
            self.check();
        }
    }
}

#[test]
fn pool_never_owes_more_than_workers_wait() {
    for num in 1..=4 {
        for seed in 0..20 {
            let mut pool = Pool::new(num, 30, seed);
            pool.run(3000);
        }
    }
}

#[test]
fn pool_runs_every_task_once_and_in_order_of_arrival() {
    let mut pool = Pool::new(1, 25, 7);
    pool.run(20000);
    assert!(pool.broker.is_empty());
    let expected: Vec<(String, String)> =
        (0..25u32).map(|n| (format!("task-{}", n), (2 * n).to_string())).collect();
    assert_eq!(pool.written, expected);
}

#[test]
fn pool_of_three_runs_every_task_once() {
    let mut pool = Pool::new(3, 40, 11);
    pool.run(40000);
    assert!(pool.broker.is_empty());
    let mut written = pool.written.clone();
    written.sort();
    let mut expected: Vec<(String, String)> =
        (0..40u32).map(|n| (format!("task-{}", n), (2 * n).to_string())).collect();
    expected.sort();
    assert_eq!(written, expected);
}
