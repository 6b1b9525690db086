//! Where the typed task becomes an untyped one.
//!
//! A worker knows nothing of task kinds: it holds a payload of bytes and wants
//! a text back. A `TraceBuilder` takes the envelope, reads the parameters as
//! its kind does and wraps the task in a `Tracer`; the tracer runs the task
//! and writes the result as text.

use vstd::prelude::*;
use std::marker::PhantomData;
use crate::error::TracerError;
use crate::message::Message;
use crate::task::{may_run, may_trace, AQTask, Traced};

verus! {

/// A task that is ready to run, whatever its kind.
pub trait TracerTrait: Send + Sync {
    /// Whether a run can end in `outcome`.
    spec fn may_give(&self, outcome: Traced) -> bool;

    /// Runs the task and writes its result. The answer is the text that the
    /// kind wrote, or a protocol error where it could not write the result.
    fn run(&mut self) -> (r: Result<String, TracerError>)
        ensures
            r matches Ok(text) ==> old(self).may_give(Traced::Done(text@)),
            r matches Err(e) ==> e is ProtocolError && old(self).may_give(Traced::Unwritable),
    ;
}

/// A task of kind `T`, ready to run.
pub struct Tracer<T: AQTask> {
    task: T,
}

impl<T: AQTask> Tracer<T> {
    /// The task that is held.
    pub closed spec fn task(&self) -> T {
        self.task
    }

    /// Wraps a task.
    pub fn new(task: T) -> (tracer: Self)
        ensures
            tracer.task() == task,
    {
        Tracer { task }
    }
}

impl<T: AQTask> TracerTrait for Tracer<T> {
    open spec fn may_give(&self, outcome: Traced) -> bool {
        may_run::<T>(self.task(), outcome)
    }

    fn run(&mut self) -> (r: Result<String, TracerError>) {
        let returned = self.task.run();
        let written = T::encode_returns(&returned);
        assert(call_ensures(T::run, (&self.task,), returned));
        assert(call_ensures(T::encode_returns, (&returned,), written));
        match written {
            Ok(text) => Ok(text),
            Err(e) => Err(TracerError::ProtocolError(e)),
        }
    }
}

/// What a builder answers: a task ready to run, or the reason why there is
/// none.
pub type TraceBuilderResult = Result<Box<dyn TracerTrait>, TracerError>;

/// `may_trace::<T>` as a relation between payloads and outcomes.
pub open spec fn traced_by<T: AQTask>() -> spec_fn(Seq<u8>, Traced) -> bool {
    |payload: Seq<u8>, outcome: Traced| may_trace::<T>(payload, outcome)
}

/// Turns an envelope into a task of kind `T` that is ready to run: the kind
/// reads the payload and makes the task. Where it cannot read the payload,
/// the answer is a protocol error.
pub fn build_trace<T: AQTask + 'static>(msg: Message) -> (r: TraceBuilderResult)
    ensures
        r matches Ok(tracer) ==> forall|outcome: Traced| #[trigger]
            tracer.may_give(outcome) ==> may_trace::<T>(msg@.payload, outcome),
        r matches Err(e) ==> e is ProtocolError && may_trace::<T>(msg@.payload, Traced::BadPayload),
{
    let payload = msg.get_payload();
    let read = T::decode_params(payload);
    assert(call_ensures(T::decode_params, (payload,), read));
    match read {
        Ok(params) => {
            let task = T::from_params(params);
            assert(call_ensures(T::from_params, (params,), task));
            Ok(Box::new(Tracer::<T>::new(task)))
        },
        Err(e) => Err(TracerError::ProtocolError(e)),
    }
}

/// Something that turns envelopes into tasks ready to run: what the registry
/// keeps for each name.
pub trait TraceBuild: Send + Sync {
    /// Which outcomes each payload can have with this builder.
    spec fn outcomes(&self) -> spec_fn(Seq<u8>, Traced) -> bool;

    /// Builds the task for an envelope.
    fn build(&self, msg: Message) -> (r: TraceBuilderResult)
        ensures
            r matches Ok(tracer) ==> forall|outcome: Traced| #[trigger]
                tracer.may_give(outcome) ==> (self.outcomes())(msg@.payload, outcome),
            r matches Err(e) ==> e is ProtocolError && (self.outcomes())(
                msg@.payload,
                Traced::BadPayload,
            ),
    ;
}

/// A builder as the registry keeps it.
pub type TraceBuilder = Box<dyn TraceBuild>;

/// The builder of the kind `T`: it is `build_trace::<T>`.
pub struct TaskBuilder<T: AQTask> {
    kind: PhantomData<T>,
}

impl<T: AQTask + 'static> TaskBuilder<T> {
    /// The builder of the kind `T`.
    pub fn new() -> (builder: Self) {
        TaskBuilder { kind: PhantomData }
    }
}

impl<T: AQTask + 'static> TraceBuild for TaskBuilder<T> {
    open spec fn outcomes(&self) -> spec_fn(Seq<u8>, Traced) -> bool {
        traced_by::<T>()
    }

    fn build(&self, msg: Message) -> (r: TraceBuilderResult) {
        build_trace::<T>(msg)
    }
}

} // verus!
