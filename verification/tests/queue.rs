use std::collections::{BTreeMap, HashMap, VecDeque};

use rust_async_queue::async_result::AsyncResult;
use rust_async_queue::client::Client;
use rust_async_queue::error::{
    BrokerError, ClientError, MsgError, QueueError, TaskError, TracerError, WorkerError,
};
use rust_async_queue::message::Message;
use rust_async_queue::poll::{PollAction, PollEvent};
use rust_async_queue::queue::{AsyncQueue, DEFAULT_TIMEOUT};
use rust_async_queue::scheduler::{SchedulerAction, SchedulerEvent};
use rust_async_queue::signature::Signature;
use rust_async_queue::task::AQTask;
use rust_async_queue::tracer::{build_trace, Tracer, TracerTrait};
use rust_async_queue::worker::{Worker, WorkerAction, WorkerEvent, TOKEN_BACKOFF_MILLIS};

#[derive(Clone, Debug, PartialEq)]
struct AddParams {
    x: i32,
    y: i32,
}

/// `add(x, y) = x + y`, with its parameters written as `{"x":..,"y":..}`.
struct Add {
    params: AddParams,
}

impl AQTask for Add {
    const NAME: &'static str = "add";
    type Params = AddParams;
    type Returns = i32;

    fn run(&self) -> i32 {
        self.params.x + self.params.y
    }

    fn from_params(params: AddParams) -> Self {
        Add { params }
    }

    fn encode_params(params: &AddParams) -> Result<Vec<u8>, serde_json::Error> {
        let mut object = BTreeMap::new();
        object.insert("x", params.x);
        object.insert("y", params.y);
        serde_json::to_vec(&object)
    }

    fn decode_params(payload: &Vec<u8>) -> Result<AddParams, serde_json::Error> {
        let object: BTreeMap<String, i32> = serde_json::from_slice(payload)?;
        match (object.get("x"), object.get("y")) {
            (Some(x), Some(y)) => Ok(AddParams { x: *x, y: *y }),
            _ => Err(<serde_json::Error as serde::de::Error>::custom("missing field")),
        }
    }

    fn encode_returns(value: &i32) -> Result<String, serde_json::Error> {
        serde_json::to_string(value)
    }

    fn decode_returns(text: &str) -> Result<i32, serde_json::Error> {
        serde_json::from_str(text)
    }
}

/// A second kind under another name.
struct Shout;

impl AQTask for Shout {
    const NAME: &'static str = "shout";
    type Params = String;
    type Returns = String;

    fn run(&self) -> String {
        "HEY".to_string()
    }

    fn from_params(_: String) -> Self {
        Shout
    }

    fn encode_params(params: &String) -> Result<Vec<u8>, serde_json::Error> {
        serde_json::to_vec(params)
    }

    fn decode_params(payload: &Vec<u8>) -> Result<String, serde_json::Error> {
        serde_json::from_slice(payload)
    }

    fn encode_returns(value: &String) -> Result<String, serde_json::Error> {
        serde_json::to_string(value)
    }

    fn decode_returns(text: &str) -> Result<String, serde_json::Error> {
        serde_json::from_str(text)
    }
}

/// A kind that takes the name of `Add`.
struct Impostor;

impl AQTask for Impostor {
    const NAME: &'static str = "add";
    type Params = AddParams;
    type Returns = i32;

    fn run(&self) -> i32 {
        -1
    }

    fn from_params(_: AddParams) -> Self {
        Impostor
    }

    fn encode_params(params: &AddParams) -> Result<Vec<u8>, serde_json::Error> {
        Add::encode_params(params)
    }

    fn decode_params(payload: &Vec<u8>) -> Result<AddParams, serde_json::Error> {
        Add::decode_params(payload)
    }

    fn encode_returns(value: &i32) -> Result<String, serde_json::Error> {
        serde_json::to_string(value)
    }

    fn decode_returns(text: &str) -> Result<i32, serde_json::Error> {
        serde_json::from_str(text)
    }
}

/// A kind whose parameters and results cannot be written.
struct Mute;

impl AQTask for Mute {
    const NAME: &'static str = "mute";
    type Params = ();
    type Returns = ();

    fn run(&self) {}

    fn from_params(_: ()) -> Self {
        Mute
    }

    fn encode_params(_: &()) -> Result<Vec<u8>, serde_json::Error> {
        Err(<serde_json::Error as serde::ser::Error>::custom("cannot write"))
    }

    fn decode_params(_: &Vec<u8>) -> Result<(), serde_json::Error> {
        Ok(())
    }

    fn encode_returns(_: &()) -> Result<String, serde_json::Error> {
        Err(<serde_json::Error as serde::ser::Error>::custom("cannot write"))
    }

    fn decode_returns(_: &str) -> Result<(), serde_json::Error> {
        Err(<serde_json::Error as serde::de::Error>::custom("cannot read"))
    }
}

/// A broker in memory: a key/value store and first-in first-out queues.
#[derive(Default)]
struct MemoryBroker {
    store: HashMap<String, String>,
    queues: HashMap<String, VecDeque<String>>,
}

impl MemoryBroker {
    fn get(&self, key: &str) -> Option<String> {
        self.store.get(key).cloned()
    }

    fn set(&mut self, key: &str, val: &str) {
        self.store.insert(key.to_string(), val.to_string());
    }

    fn enqueue(&mut self, queue: &str, val: &str) {
        self.queues.entry(queue.to_string()).or_default().push_back(val.to_string());
    }

    fn dequeue(&mut self, queue: &str) -> Option<(String, String)> {
        let value = self.queues.get_mut(queue)?.pop_front()?;
        Some((queue.to_string(), value))
    }
}

fn app_with_add() -> AsyncQueue {
    let mut app = AsyncQueue::new(
        "async-queue".to_string(),
        "asyncq:test_queue".to_string(),
        "redis://127.0.0.1/".to_string(),
    );
    app.register::<Add>().unwrap();
    app
}

fn add_message(id: &str, x: i32, y: i32) -> Message {
    let payload = Add::encode_params(&AddParams { x, y }).unwrap();
    Message::new_with_id(id.to_string(), "add".to_string(), payload)
}

/// Submits through the client and appends to the broker.
fn submit<T: AQTask>(client: &Client, broker: &mut MemoryBroker, s: &Signature<T>) -> AsyncResult<T> {
    let asked = client.submit(s).unwrap();
    broker.enqueue(&asked.queue, &asked.value);
    client.submitted(s, Ok(())).unwrap()
}

/// Runs the scheduler and one worker in lock step until the worker has
/// finished `cycles` tasks or the scheduler rests. Returns what the worker
/// reported.
fn serve(app: &AsyncQueue, broker: &mut MemoryBroker, cycles: usize) -> Vec<Option<WorkerError>> {
    let server = app.server();
    let (mut scheduler, first) = server.schedule();
    assert!(matches!(first, SchedulerAction::AwaitToken));
    let mut worker = Worker::new(0);
    let mut reports = Vec::new();
    let mut action = worker.start();
    let mut done = 0;
    while done < cycles {
        assert!(matches!(action, WorkerAction::CheckChannel));
        assert!(matches!(worker.step(app, WorkerEvent::ChannelOpen).1, WorkerAction::SendToken));
        assert!(matches!(worker.step(app, WorkerEvent::TokenSent).1, WorkerAction::Receive));
        let asked = scheduler.step(SchedulerEvent::Token);
        let queue = match asked {
            SchedulerAction::Dequeue { queue } => queue,
            other => panic!("unexpected {:?}", other),
        };
        let found = broker.dequeue(&queue);
        let task = match scheduler.step(SchedulerEvent::Dequeued(found)) {
            SchedulerAction::Dispatch { task } => task,
            SchedulerAction::Backoff { .. } => break,
            other => panic!("unexpected {:?}", other),
        };
        assert!(matches!(scheduler.step(SchedulerEvent::Dispatched), SchedulerAction::AwaitToken));
        let (report, next) = worker.step(app, WorkerEvent::Received(task));
        action = match next {
            WorkerAction::WriteResult { id, result } => {
                assert!(report.is_none());
                broker.set(&id, &result);
                worker.step(app, WorkerEvent::Written).1
            }
            other => other,
        };
        reports.push(report);
        done += 1;
    }
    reports
}

/// Polls the broker until the wait is over; every look that finds nothing is
/// followed by the report that the rest is over, and after `patience` looks
/// by the report that the budget is spent.
fn poll<T: AQTask>(
    client: &Client,
    broker: &MemoryBroker,
    handle: &AsyncResult<T>,
    patience: usize,
) -> Result<Result<T::Returns, TaskError>, ClientError> {
    let (mut wait, mut action) = client.poll_result(handle, 200);
    let mut looks = 0;
    loop {
        action = match action {
            PollAction::Get { key } => {
                looks += 1;
                if looks > patience {
                    wait.step(PollEvent::TimedOut)
                } else {
                    match broker.get(&key) {
                        Some(value) => wait.step(PollEvent::Found(value)),
                        None => wait.step(PollEvent::Absent),
                    }
                }
            }
            PollAction::Sleep { millis } => {
                assert_eq!(millis, 1000);
                wait.step(PollEvent::Rested)
            }
            PollAction::Return(outcome) => return client.polled(handle, outcome),
            PollAction::Ignored => panic!("the driver reported what did not fit"),
        };
    }
}

#[test]
fn queue_keeps_its_settings() {
    let app = AsyncQueue::new("async-queue".to_string(), "q".to_string(), "redis://h/".to_string());
    assert_eq!(app.get_info(), "async-queue");
    assert_eq!(app.get_queue(), "q");
    assert_eq!(app.get_broker_url(), "redis://h/");
    assert_eq!(app.get_timeout(), 10);
    assert_eq!(DEFAULT_TIMEOUT, 10);
    assert_eq!(app.task_count(), 0);
    assert!(!app.is_registered("add"));
}

#[test]
fn register_refuses_a_name_that_is_taken() {
    let mut app = app_with_add();
    assert_eq!(app.task_count(), 1);
    assert!(app.is_registered("add"));
    match app.register::<Add>() {
        Err(QueueError::DuplicateTask(name)) => assert_eq!(name, "add"),
        other => panic!("unexpected {:?}", other),
    }
    match app.register::<Impostor>() {
        Err(QueueError::DuplicateTask(name)) => assert_eq!(name, "add"),
        other => panic!("unexpected {:?}", other),
    }
    // Nothing was stored, and the kind that came first is the one that runs.
    assert_eq!(app.task_count(), 1);
    assert_eq!(app.get_info(), "async-queue");
    let mut tracer = app.get_tracer("add".to_string(), add_message("1", 1, 2)).unwrap();
    assert_eq!(tracer.run().unwrap(), "3");
}

#[test]
fn register_keeps_kinds_apart() {
    let mut app = app_with_add();
    assert!(!app.is_registered("shout"));
    app.register::<Shout>().unwrap();
    assert_eq!(app.task_count(), 2);
    assert!(app.is_registered("shout"));
    assert!(app.is_registered("add"));
    assert!(!app.is_registered("Add"));
    assert!(!app.is_registered(""));
    let shout = Message::new_with_id("s".to_string(), "shout".to_string(), b"\"x\"".to_vec());
    let mut tracer = app.get_tracer("shout".to_string(), shout).unwrap();
    assert_eq!(tracer.run().unwrap(), "\"HEY\"");
    let mut tracer = app.get_tracer("add".to_string(), add_message("1", 20, 22)).unwrap();
    assert_eq!(tracer.run().unwrap(), "42");
    assert!(matches!(app.register::<Shout>(), Err(QueueError::DuplicateTask(_))));
}

#[test]
fn get_tracer_of_an_unknown_name_is_task_not_found() {
    let app = app_with_add();
    match app.get_tracer("sub".to_string(), add_message("1", 1, 2)) {
        Err(TracerError::TaskNotFound(name)) => assert_eq!(name, "sub"),
        _ => panic!("a tracer for a name that is not registered"),
    }
    let empty = AsyncQueue::new("a".to_string(), "q".to_string(), "u".to_string());
    assert!(matches!(
        empty.get_tracer("add".to_string(), add_message("1", 1, 2)),
        Err(TracerError::TaskNotFound(_))
    ));
}

#[test]
fn get_tracer_looks_under_the_name_it_is_given() {
    let mut app = app_with_add();
    app.register::<Shout>().unwrap();
    // The envelope says "add", the caller says "shout": the caller decides.
    let envelope = Message::new_with_id("1".to_string(), "add".to_string(), b"\"x\"".to_vec());
    let mut tracer = app.get_tracer("shout".to_string(), envelope).unwrap();
    assert_eq!(tracer.run().unwrap(), "\"HEY\"");
}

#[test]
fn get_tracer_refuses_a_payload_that_the_kind_cannot_read() {
    let app = app_with_add();
    let broken = Message::new_with_id("1".to_string(), "add".to_string(), b"{\"x\":1}".to_vec());
    assert!(matches!(
        app.get_tracer("add".to_string(), broken),
        Err(TracerError::ProtocolError(_))
    ));
}

#[test]
fn build_trace_builds_the_task_from_the_payload() {
    let mut tracer = build_trace::<Add>(add_message("1", 2, 3)).unwrap();
    assert_eq!(tracer.run().unwrap(), "5");
    let broken = Message::new_with_id("1".to_string(), "add".to_string(), vec![0xff]);
    assert!(matches!(build_trace::<Add>(broken), Err(TracerError::ProtocolError(_))));
}

#[test]
fn tracer_runs_the_task_and_writes_the_result() {
    let mut tracer = Tracer::new(Add::from_params(AddParams { x: -4, y: 1 }));
    assert_eq!(tracer.run().unwrap(), "-3");
    // A tracer may be run again.
    assert_eq!(tracer.run().unwrap(), "-3");
    let mut mute = Tracer::new(Mute);
    assert!(matches!(mute.run(), Err(TracerError::ProtocolError(_))));
}

#[test]
fn signature_keeps_the_id_it_was_given() {
    let s = Signature::<Add>::new_with_id("one".to_string(), AddParams { x: 1, y: 2 });
    assert_eq!(s.get_id(), "one");
    assert_eq!(*s.get_params(), AddParams { x: 1, y: 2 });
    assert_eq!(s.name(), "add");
}

#[test]
fn signatures_without_an_id_get_distinct_ids() {
    let mut seen = std::collections::HashSet::new();
    for _ in 0..2000 {
        let s = Signature::<Add>::new(AddParams { x: 1, y: 2 });
        assert_eq!(s.get_id().len(), 36);
        assert!(seen.insert(s.get_id()));
    }
}

#[test]
fn encode_takes_id_name_and_written_parameters() {
    let s = Signature::<Add>::new_with_id("one".to_string(), AddParams { x: 1, y: 2 });
    let m = Message::encode(&s).unwrap();
    assert_eq!(m.get_id(), "one");
    assert_eq!(m.get_name(), "add");
    assert_eq!(m.get_payload(), &b"{\"x\":1,\"y\":2}".to_vec());
    let same = Message::try_from(&s).unwrap();
    assert!(same.same_as(&m));
    let mute = Signature::<Mute>::new_with_id("m".to_string(), ());
    assert!(matches!(Message::encode(&mute), Err(MsgError::ProtocolError(_))));
    assert!(matches!(Message::try_from(&mute), Err(MsgError::ProtocolError(_))));
}

#[test]
fn enveloped_wraps_what_the_kind_wrote() {
    let m = Message::enveloped("i".to_string(), "n".to_string(), Ok(vec![1, 2])).unwrap();
    assert_eq!((m.get_id(), m.get_name(), m.get_payload().clone()), ("i".into(), "n".into(), vec![1, 2]));
    let refused = Err(<serde_json::Error as serde::ser::Error>::custom("no"));
    assert!(matches!(
        Message::enveloped("i".to_string(), "n".to_string(), refused),
        Err(MsgError::ProtocolError(_))
    ));
}

#[test]
fn round_trip_from_signature_to_parameters() {
    let params = AddParams { x: i32::MIN, y: i32::MAX };
    let s = Signature::<Add>::new(params.clone());
    let text = Message::encode(&s).unwrap().serialize().unwrap();
    let back = Message::decode(&text).unwrap();
    assert_eq!(back.get_id(), s.get_id());
    assert_eq!(back.get_name(), "add");
    assert_eq!(Add::decode_params(back.get_payload()).unwrap(), params);
}

#[test]
fn submit_names_the_queue_and_the_wire_text() {
    let client = app_with_add().client();
    let s = Signature::<Add>::new_with_id("one".to_string(), AddParams { x: 1, y: 2 });
    let asked = client.submit(&s).unwrap();
    assert_eq!(asked.queue, "asyncq:test_queue");
    assert_eq!(
        asked.value,
        "{\"id\":\"one\",\"name\":\"add\",\"payload\":[123,34,120,34,58,49,44,34,121,34,58,50,125]}"
    );
    let handle = client.submitted(&s, Ok(())).unwrap();
    assert_eq!(handle.get_id(), "one");
    let handle = AsyncResult::new(&s);
    assert_eq!(handle.get_id(), "one");
}

#[test]
fn submit_fails_when_the_parameters_cannot_be_written() {
    let client = Client::new("q".to_string());
    let s = Signature::<Mute>::new_with_id("m".to_string(), ());
    match client.submit(&s) {
        Err(ClientError::MsgError(MsgError::ProtocolError(e))) => {
            assert_eq!(e.to_string(), "cannot write")
        }
        _ => panic!("a submission of what cannot be written"),
    }
    let envelope = Err(MsgError::ProtocolError(<serde_json::Error as serde::ser::Error>::custom("x")));
    match client.enqueue(envelope) {
        Err(ClientError::MsgError(MsgError::ProtocolError(e))) => assert_eq!(e.to_string(), "x"),
        _ => panic!("an envelope out of nothing"),
    }
    let envelope = Ok(Message::new_with_id("i".to_string(), "n".to_string(), vec![]));
    let asked = client.enqueue(envelope).unwrap();
    assert_eq!((asked.queue.as_str(), asked.value.as_str()), ("q", "{\"id\":\"i\",\"name\":\"n\",\"payload\":[]}"));
}

#[test]
fn submit_fails_when_the_broker_refuses() {
    let client = Client::new("q".to_string());
    let s = Signature::<Add>::new_with_id("one".to_string(), AddParams { x: 1, y: 2 });
    let refused = Err(BrokerError::RedisError("full".to_string()));
    match client.submitted(&s, refused) {
        Err(ClientError::BrokerError(BrokerError::RedisError(reason))) => assert_eq!(reason, "full"),
        _ => panic!("a handle for a task that was not enqueued"),
    }
}

#[test]
fn dispatch_add_one_two_gives_three() {
    let app = app_with_add();
    let client = app.client();
    let mut broker = MemoryBroker::default();
    let s = Signature::<Add>::new(AddParams { x: 1, y: 2 });
    let handle = submit(&client, &mut broker, &s);
    assert_eq!(handle.get_id(), s.get_id());
    let reports = serve(&app, &mut broker, 1);
    assert_eq!(reports.len(), 1);
    assert!(reports[0].is_none());
    assert_eq!(broker.get(&s.get_id()), Some("3".to_string()));
    match poll(&client, &broker, &handle, 5) {
        Ok(Ok(value)) => assert_eq!(value, 3),
        other => panic!("unexpected {:?}", other),
    }
}

#[test]
fn tasks_are_served_in_the_order_of_their_submission() {
    let app = app_with_add();
    let client = app.client();
    let mut broker = MemoryBroker::default();
    let mut handles = Vec::new();
    for i in 0..5 {
        let s = Signature::<Add>::new_with_id(format!("task-{}", i), AddParams { x: i, y: 10 });
        handles.push(submit(&client, &mut broker, &s));
    }
    serve(&app, &mut broker, 3);
    for (i, handle) in handles.iter().enumerate() {
        let got = poll(&client, &broker, handle, 2);
        if i < 3 {
            assert!(matches!(got, Ok(Ok(value)) if value == i as i32 + 10));
        } else {
            assert!(matches!(got, Err(ClientError::Timeout)));
        }
    }
}

#[test]
fn unknown_task_is_reported_and_the_worker_goes_on() {
    let app = app_with_add();
    let client = app.client();
    let mut broker = MemoryBroker::default();
    let stranger = Signature::<Shout>::new_with_id("s".to_string(), "x".to_string());
    let lost = submit(&client, &mut broker, &stranger);
    let known = Signature::<Add>::new_with_id("a".to_string(), AddParams { x: 2, y: 2 });
    let kept = submit(&client, &mut broker, &known);
    let reports = serve(&app, &mut broker, 2);
    assert_eq!(reports.len(), 2);
    match &reports[0] {
        Some(WorkerError::TracerError(TracerError::TaskNotFound(name))) => assert_eq!(name, "shout"),
        other => panic!("unexpected {:?}", other),
    }
    assert!(reports[1].is_none());
    assert_eq!(broker.get("s"), None);
    assert!(matches!(poll(&client, &broker, &lost, 3), Err(ClientError::Timeout)));
    assert!(matches!(poll(&client, &broker, &kept, 3), Ok(Ok(4))));
}

#[test]
fn worker_handle_tells_what_went_wrong() {
    let mut app = app_with_add();
    app.register::<Mute>().unwrap();
    let worker = Worker::new(3);
    assert_eq!(worker.get_id(), 3);
    assert!(matches!(worker.handle(&app, "garbage"), Err(WorkerError::ProtocolError(_))));
    let unknown = Message::new_with_id("1".to_string(), "sub".to_string(), vec![]);
    assert!(matches!(
        worker.handle(&app, &unknown.serialize().unwrap()),
        Err(WorkerError::TracerError(TracerError::TaskNotFound(name))) if name == "sub"
    ));
    let unreadable = Message::new_with_id("1".to_string(), "add".to_string(), vec![1]);
    assert!(matches!(
        worker.handle(&app, &unreadable.serialize().unwrap()),
        Err(WorkerError::TracerError(TracerError::ProtocolError(_)))
    ));
    let unwritable = Message::new_with_id("1".to_string(), "mute".to_string(), vec![]);
    assert!(matches!(
        worker.handle(&app, &unwritable.serialize().unwrap()),
        Err(WorkerError::TracerError(TracerError::ProtocolError(_)))
    ));
    let fine = add_message("id-9", 4, 5).serialize().unwrap();
    assert_eq!(worker.handle(&app, &fine).unwrap(), ("id-9".to_string(), "9".to_string()));
    assert_eq!(
        worker.handle_message(&app, "add".to_string(), add_message("x", 1, 1)).unwrap(),
        "2"
    );
}

#[test]
fn worker_backs_off_when_the_token_cannot_be_sent() {
    let app = app_with_add();
    let mut worker = Worker::new(0);
    assert!(matches!(worker.start(), WorkerAction::CheckChannel));
    assert!(matches!(worker.step(&app, WorkerEvent::ChannelOpen).1, WorkerAction::SendToken));
    let (report, action) = worker.step(&app, WorkerEvent::TokenFailed);
    assert!(report.is_none());
    assert!(matches!(action, WorkerAction::Backoff { millis: 1000 }));
    assert_eq!(TOKEN_BACKOFF_MILLIS, 1000);
    assert!(matches!(worker.step(&app, WorkerEvent::TokenSent).1, WorkerAction::Ignored));
    assert!(matches!(worker.step(&app, WorkerEvent::BackoffElapsed).1, WorkerAction::CheckChannel));
    assert!(!worker.is_stopped());
}

#[test]
fn worker_stops_when_the_work_channel_is_closed() {
    let app = app_with_add();
    let mut worker = Worker::new(0);
    worker.start();
    assert!(matches!(worker.step(&app, WorkerEvent::ChannelClosed).1, WorkerAction::Stop));
    assert!(worker.is_stopped());
    assert!(matches!(worker.step(&app, WorkerEvent::ChannelOpen).1, WorkerAction::Stop));
    assert!(matches!(
        worker.step(&app, WorkerEvent::Received("x".to_string())).1,
        WorkerAction::Stop
    ));

    let mut worker = Worker::new(1);
    worker.start();
    worker.step(&app, WorkerEvent::ChannelOpen);
    worker.step(&app, WorkerEvent::TokenSent);
    let (report, action) = worker.step(&app, WorkerEvent::ReceiveFailed { closed: true });
    assert!(report.is_none());
    assert!(matches!(action, WorkerAction::Stop));
    assert!(worker.is_stopped());
    // It can be sent back to the head of its loop.
    assert!(matches!(worker.start(), WorkerAction::CheckChannel));
    assert!(!worker.is_stopped());
}

#[test]
fn worker_survives_every_failure_of_a_task() {
    let app = app_with_add();
    let mut worker = Worker::new(0);
    worker.start();
    let bad = vec![
        "garbage".to_string(),
        Message::new_with_id("1".to_string(), "sub".to_string(), vec![]).serialize().unwrap(),
        Message::new_with_id("1".to_string(), "add".to_string(), vec![0]).serialize().unwrap(),
    ];
    for raw in bad {
        worker.step(&app, WorkerEvent::ChannelOpen);
        worker.step(&app, WorkerEvent::TokenSent);
        let (report, action) = worker.step(&app, WorkerEvent::Received(raw));
        assert!(report.is_some());
        assert!(matches!(action, WorkerAction::CheckChannel));
        assert!(!worker.is_stopped());
    }
    worker.step(&app, WorkerEvent::ChannelOpen);
    worker.step(&app, WorkerEvent::TokenSent);
    let (report, action) = worker.step(&app, WorkerEvent::ReceiveFailed { closed: false });
    assert!(report.is_none());
    assert!(matches!(action, WorkerAction::CheckChannel));
    worker.step(&app, WorkerEvent::ChannelOpen);
    worker.step(&app, WorkerEvent::TokenSent);
    let raw = add_message("w", 1, 1).serialize().unwrap();
    let (_, action) = worker.step(&app, WorkerEvent::Received(raw));
    assert!(matches!(action, WorkerAction::WriteResult { ref id, ref result } if id == "w" && result == "2"));
    let failure = BrokerError::RedisError("read only".to_string());
    let (report, action) = worker.step(&app, WorkerEvent::WriteFailed(failure));
    assert!(matches!(
        report,
        Some(WorkerError::BrokerError(BrokerError::RedisError(reason))) if reason == "read only"
    ));
    assert!(matches!(action, WorkerAction::CheckChannel));
    assert!(!worker.is_stopped());
}

#[test]
fn polled_reads_the_stored_text_as_the_kind_does() {
    let client = Client::new("q".to_string());
    let s = Signature::<Add>::new_with_id("one".to_string(), AddParams { x: 1, y: 2 });
    let handle = AsyncResult::new(&s);
    assert!(matches!(handle.read("3"), Ok(3)));
    assert!(matches!(handle.read("three"), Err(TaskError::DeserdeError(_))));
    assert!(matches!(client.polled(&handle, Ok("3".to_string())), Ok(Ok(3))));
    assert!(matches!(
        client.polled(&handle, Ok("{}".to_string())),
        Ok(Err(TaskError::DeserdeError(_)))
    ));
    assert!(matches!(client.polled(&handle, Err(ClientError::Timeout)), Err(ClientError::Timeout)));
    let down = Err(ClientError::BrokerError(BrokerError::RedisError("down".to_string())));
    assert!(matches!(
        client.polled(&handle, down),
        Err(ClientError::BrokerError(BrokerError::RedisError(reason))) if reason == "down"
    ));
    let (wait, first) = handle.poll(200);
    assert_eq!(wait.get_budget(), 200);
    assert!(matches!(first, PollAction::Get { key } if key == "one"));
}

#[test]
fn poll_of_a_task_that_no_worker_ran_times_out() {
    let app = app_with_add();
    let client = app.client();
    let mut broker = MemoryBroker::default();
    let s = Signature::<Add>::new(AddParams { x: 1, y: 2 });
    let handle = submit(&client, &mut broker, &s);
    assert!(matches!(poll(&client, &broker, &handle, 1), Err(ClientError::Timeout)));
    assert!(matches!(poll(&client, &broker, &handle, 0), Err(ClientError::Timeout)));
}
