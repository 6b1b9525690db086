//! What a task is.

use vstd::prelude::*;
use serde_json::Error as JsonError;
use crate::error::TaskError;

verus! {

/// What a poller gets for a task: its result, or the reason why the stored
/// result could not be read.
pub type TaskReturn<R> = Result<R, TaskError>;

/// One kind of task.
///
/// An implementation gives the name of the kind, the type of its parameters
/// and of its result, how to run it, and how parameters and results are
/// written to and read from the wire. The library promises nothing of what an
/// implementation answers: its contracts say which of these methods were
/// asked, with what, and what was done with each answer.
pub trait AQTask: Send + Sync + Sized {
    /// The name of the kind. It does not change, and no two kinds that are
    /// registered with one queue share it.
    const NAME: &'static str;

    /// The input of the task.
    type Params: Send + Sync;

    /// The output of the task.
    type Returns: Send + Sync;

    /// Runs the task.
    fn run(&self) -> Self::Returns;

    /// Builds the task from its parameters.
    fn from_params(params: Self::Params) -> Self;

    /// Writes parameters for the wire.
    fn encode_params(params: &Self::Params) -> Result<Vec<u8>, JsonError>;

    /// Reads parameters from the wire.
    fn decode_params(payload: &Vec<u8>) -> Result<Self::Params, JsonError>;

    /// Writes a result for the wire.
    fn encode_returns(value: &Self::Returns) -> Result<String, JsonError>;

    /// Reads a result from the wire.
    fn decode_returns(text: &str) -> Result<Self::Returns, JsonError>;
}

/// What becomes of a task that is handed to a worker as bytes.
pub enum Traced {
    /// The kind could not read the bytes as parameters.
    BadPayload,
    /// The task ran, but the kind could not write its result.
    Unwritable,
    /// The task ran, and this is the text of its result.
    Done(Seq<char>),
}

/// Whether a run of `task` can end in `outcome`: `run` gave some result, and
/// `encode_returns`, asked to write that result, gave the text of `outcome`
/// or refused.
pub open spec fn may_run<T: AQTask>(task: T, outcome: Traced) -> bool {
    exists|returned: T::Returns, written: Result<String, JsonError>|
        #![auto]
        call_ensures(T::run, (&task,), returned) && call_ensures(
            T::encode_returns,
            (&returned,),
            written,
        ) && match written {
            Ok(text) => outcome == Traced::Done(text@),
            Err(_) => outcome is Unwritable,
        }
}

/// Whether the kind `T`, handed `payload`, can end in `outcome`:
/// `decode_params` refused the bytes, or it gave parameters, `from_params`
/// made a task of them, and a run of that task ended so.
pub open spec fn may_trace<T: AQTask>(payload: Seq<u8>, outcome: Traced) -> bool {
    exists|bytes: Vec<u8>, read: Result<T::Params, JsonError>|
        #![auto]
        bytes@ == payload && call_ensures(T::decode_params, (&bytes,), read) && match read {
            Ok(params) => exists|task: T|
                #![auto]
                call_ensures(T::from_params, (params,), task) && may_run::<T>(task, outcome),
            Err(_) => outcome is BadPayload,
        }
}

} // verus!
