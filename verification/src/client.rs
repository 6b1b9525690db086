//! The client: it submits tasks and waits for their results.

use vstd::prelude::*;
use crate::async_result::{was_read, AsyncResult};
use crate::error::{BrokerError, ClientError, MsgError};
use crate::message::{encoded, wire_message, wire_text, Message};
use crate::poll::{is_action, Poll, PollAction, PollActionView, PollState};
use crate::signature::Signature;
use crate::task::{AQTask, TaskReturn};

verus! {

/// What a submission asks of the broker: to append `value` to the tail of
/// the queue named `queue`.
#[derive(Debug)]
pub struct Submission {
    pub queue: String,
    pub value: String,
}

/// The client of one queue.
pub struct Client {
    queue: String,
}

/// Whether `r` is what a submission owes for the envelope that was made, or
/// could not be made: the queue's name with the envelope's wire text, which
/// reads back as the envelope; or a `MsgError` where there is no envelope, or
/// no wire text that reads back.
pub open spec fn submits(
    queue: Seq<char>,
    envelope: Result<Message, MsgError>,
    r: Result<Submission, ClientError>,
) -> bool {
    match envelope {
        Ok(message) => {
            &&& r matches Ok(asked) ==> asked.queue@ == queue && wire_text(message@) == Some(
                asked.value@,
            ) && wire_message(asked.value@) == Some(message@)
            &&& r matches Err(e) ==> e is MsgError && (wire_text(message@) is None || wire_message(
                wire_text(message@)->Some_0,
            ) != Some(message@))
        },
        Err(refusal) => r matches Err(ClientError::MsgError(e)) && e == refusal,
    }
}

impl Client {
    /// The name of the queue on the broker.
    pub closed spec fn queue(&self) -> Seq<char> {
        self.queue@
    }

    /// A client of the queue named `queue`.
    pub fn new(queue: String) -> (client: Client)
        ensures
            client.queue() == queue@,
    {
        Client { queue }
    }

    /// Prepares the submission of `s`: the envelope is made and written, and
    /// the answer names the queue and the text to append to it.
    ///
    /// The text is the wire text of the envelope of `s`, and it reads back as
    /// that envelope. Where the parameters or the envelope cannot be written,
    /// the answer is a `MsgError`, and nothing is to be appended.
    pub fn submit<T: AQTask>(&self, s: &Signature<T>) -> (r: Result<Submission, ClientError>)
        ensures
            exists|envelope: Result<Message, MsgError>| #[trigger]
                encoded::<T>(s.id(), s.params(), envelope) && submits(self.queue(), envelope, r),
    {
        let envelope = Message::encode(s);
        let ghost made = envelope;
        let r = self.enqueue(envelope);
        assert(encoded::<T>(s.id(), s.params(), made) && submits(self.queue(), made, r));
        r
    }

    /// Writes an envelope for this client's queue, or passes on the reason
    /// why there is none: see `submits`.
    pub fn enqueue(&self, envelope: Result<Message, MsgError>) -> (r: Result<
        Submission,
        ClientError,
    >)
        ensures
            submits(self.queue(), envelope, r),
    {
        match envelope {
            Ok(message) => match message.serialize() {
                Ok(value) => Ok(Submission { queue: self.queue.clone(), value }),
                Err(e) => Err(ClientError::MsgError(e)),
            },
            Err(e) => Err(ClientError::MsgError(e)),
        }
    }

    /// Ends the submission of `s` with what the broker said to the append:
    /// the handle to the result if it took the text, its failure if not.
    pub fn submitted<T: AQTask>(&self, s: &Signature<T>, appended: Result<(), BrokerError>) -> (r:
        Result<AsyncResult<T>, ClientError>)
        ensures
            match appended {
                Ok(_) => r matches Ok(handle) && handle.id() == s.id(),
                Err(failure) => r matches Err(ClientError::BrokerError(e)) && e == failure,
            },
    {
        match appended {
            Ok(_) => Ok(AsyncResult::new(s)),
            Err(e) => Err(ClientError::BrokerError(e)),
        }
    }

    /// Begins to wait for the result behind `result`, with a budget of
    /// `to_millis` milliseconds: see `AsyncResult::poll`.
    pub fn poll_result<T: AQTask>(&self, result: &AsyncResult<T>, to_millis: u64) -> (begun: (
        Poll,
        PollAction,
    ))
        ensures
            begun.0.key() == result.id(),
            begun.0.budget() == to_millis,
            begun.0.state() == PollState::Asking,
            is_action(begun.1, PollActionView::Get { key: result.id() }),
    {
        result.poll(to_millis)
    }

    /// Ends a wait: the stored text is read as a result of the kind `T`; a
    /// failure of the broker and a spent budget are passed on as they are.
    pub fn polled<T: AQTask>(&self, result: &AsyncResult<T>, outcome: Result<String, ClientError>)
        -> (r: Result<TaskReturn<T::Returns>, ClientError>)
        ensures
            match outcome {
                Ok(text) => r matches Ok(read) && was_read::<T>(text@, read),
                Err(failure) => r matches Err(e) && e == failure,
            },
    {
        match outcome {
            Ok(text) => Ok(result.read(text.as_str())),
            Err(e) => Err(e),
        }
    }
}

} // verus!
