//! The handle to a result that is not there yet.

use vstd::prelude::*;
use std::marker::PhantomData;
use serde_json::Error as JsonError;
use crate::error::TaskError;
use crate::poll::{is_action, Poll, PollAction, PollActionView, PollState};
use crate::signature::Signature;
use crate::task::{AQTask, TaskReturn};

verus! {

/// What the client holds after a submission: the id of the task, and in its
/// type the kind `T` whose result is expected. It owns neither the task nor
/// the result; it is the key under which the result will be looked up.
pub struct AsyncResult<T: AQTask> {
    id: String,
    phantom: PhantomData<T>,
}

impl<T: AQTask> AsyncResult<T> {
    /// The id of the task.
    pub closed spec fn id(&self) -> Seq<char> {
        self.id@
    }

    /// The handle for an invocation.
    pub fn new(sig: &Signature<T>) -> (handle: AsyncResult<T>)
        ensures
            handle.id() == sig.id(),
    {
        AsyncResult { id: sig.get_id(), phantom: PhantomData }
    }

    /// The id of the task.
    pub fn get_id(&self) -> (id: String)
        ensures
            id@ == self.id(),
    {
        self.id.clone()
    }

    /// Begins to wait for the result, with a budget of `to_millis`
    /// milliseconds: the wait, and its first action, which is to ask the
    /// broker for the value under the task's id.
    pub fn poll(&self, to_millis: u64) -> (begun: (Poll, PollAction))
        ensures
            begun.0.key() == self.id(),
            begun.0.budget() == to_millis,
            begun.0.state() == PollState::Asking,
            is_action(begun.1, PollActionView::Get { key: self.id() }),
    {
        Poll::start(self.id.clone(), to_millis)
    }

    /// Reads the stored text as a result of the kind `T`: the answer is what
    /// the kind read. A text that it could not read is handed to the caller
    /// as a `DeserdeError`, as data.
    pub fn read(&self, text: &str) -> (r: TaskReturn<T::Returns>)
        ensures
            was_read::<T>(text@, r),
    {
        let read = T::decode_returns(text);
        assert(call_ensures(T::decode_returns, (text,), read));
        match read {
            Ok(value) => Ok(value),
            Err(e) => Err(TaskError::DeserdeError(e)),
        }
    }
}

/// Whether `r` is what the kind `T` made of the stored text `text`:
/// `decode_returns` was asked to read the text, and `r` is what it read, or a
/// `DeserdeError` where it refused.
pub open spec fn was_read<T: AQTask>(text: Seq<char>, r: TaskReturn<T::Returns>) -> bool {
    exists|stored: &str, read: Result<T::Returns, JsonError>|
        #![auto]
        stored@ == text && call_ensures(T::decode_returns, (stored,), read) && match read {
            Ok(value) => r == Ok::<T::Returns, TaskError>(value),
            Err(e) => r matches Err(TaskError::DeserdeError(refusal)) && refusal == e,
        }
}

} // verus!
