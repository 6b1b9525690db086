//! What can go wrong, by kind.
//!
//! A failure of the broker, a failure of the codec, a name that is taken or
//! unknown, and a poll that ran out of time are told apart; a task that fails
//! by its own logic says so in its result, which is data to this library.
//!
//! Each error has a `message`: the sentence that a report shows for it. The
//! sentence of an error that wraps another ends with the sentence of the one
//! inside; `says` is that rule. Of the words of a codec error nothing is
//! known here, so nothing is said of them.

use vstd::prelude::*;
use vstd::string::StringExecFns;
use serde_json::Error as JsonError;

verus! {

/// The error of the JSON codec. Nothing is known of its inside: it is carried
/// to whoever reports it.
#[verifier::external_type_specification]
#[verifier::external_body]
pub struct ExJsonError(JsonError);

/// The words of a codec error: its `Display`. Nothing is claimed of them.
#[verifier::external_body]
pub(crate) fn json_error_text(e: &JsonError) -> String {
    e.to_string()
}

/// Whether `text` begins with `head` and goes on with `tail`.
pub open spec fn joins(text: Seq<char>, head: Seq<char>, tail: Seq<char>) -> bool {
    text == head + tail
}

/// `head` followed by `tail`.
pub fn joined(head: &str, tail: &str) -> (text: String)
    ensures
        joins(text@, head@, tail@),
{
    let mut text = String::from_str(head);
    text.append(tail);
    text
}

/// The backend failed: an I/O or protocol failure of the broker, in its own
/// words.
#[derive(Debug)]
pub enum BrokerError {
    RedisError(String),
}

impl BrokerError {
    /// Whether `text` is a sentence that tells of this error.
    pub open spec fn says(self, text: Seq<char>) -> bool {
        match self {
            BrokerError::RedisError(reason) => joins(text, "redis error: "@, reason@),
        }
    }

    /// The sentence that tells of this error.
    pub fn message(&self) -> (text: String)
        ensures
            self.says(text@),
    {
        match self {
            BrokerError::RedisError(reason) => joined("redis error: ", reason.as_str()),
        }
    }
}

/// A failure while setting up the queue.
#[derive(Debug)]
pub enum QueueError {
    BrokerError(BrokerError),
    /// The name is registered already.
    DuplicateTask(String),
}

impl QueueError {
    /// Whether `text` is a sentence that tells of this error.
    pub open spec fn says(self, text: Seq<char>) -> bool {
        match self {
            QueueError::BrokerError(inner) => exists|words: Seq<char>|
                inner.says(words) && #[trigger] joins(text, "broker error: "@, words),
            QueueError::DuplicateTask(name) => joins(text, "duplicate task "@, name@),
        }
    }

    /// The sentence that tells of this error.
    pub fn message(&self) -> (text: String)
        ensures
            self.says(text@),
    {
        match self {
            QueueError::BrokerError(inner) => {
                let words = inner.message();
                joined("broker error: ", words.as_str())
            },
            QueueError::DuplicateTask(name) => joined("duplicate task ", name.as_str()),
        }
    }
}

/// A failure while turning a message into a runnable task, or while running
/// it.
#[derive(Debug)]
pub enum TracerError {
    /// The payload or the result could not be encoded or decoded.
    ProtocolError(JsonError),
    /// No task of that name is registered.
    TaskNotFound(String),
}

impl TracerError {
    /// Whether `text` is a sentence that tells of this error.
    pub open spec fn says(self, text: Seq<char>) -> bool {
        match self {
            TracerError::ProtocolError(_) => exists|words: Seq<char>| #[trigger]
                joins(text, "serialization error: "@, words),
            TracerError::TaskNotFound(name) => joins(text, "cannot found task "@, name@),
        }
    }

    /// The sentence that tells of this error.
    pub fn message(&self) -> (text: String)
        ensures
            self.says(text@),
    {
        match self {
            TracerError::ProtocolError(e) => {
                let words = json_error_text(e);
                joined("serialization error: ", words.as_str())
            },
            TracerError::TaskNotFound(name) => joined("cannot found task ", name.as_str()),
        }
    }
}

/// A failure while encoding or decoding the envelope.
#[derive(Debug)]
pub enum MsgError {
    ProtocolError(JsonError),
}

impl MsgError {
    /// Whether `text` is a sentence that tells of this error.
    pub open spec fn says(self, text: Seq<char>) -> bool {
        match self {
            MsgError::ProtocolError(_) => exists|words: Seq<char>| #[trigger]
                joins(text, "serialization error: "@, words),
        }
    }

    /// The sentence that tells of this error.
    pub fn message(&self) -> (text: String)
        ensures
            self.says(text@),
    {
        match self {
            MsgError::ProtocolError(e) => {
                let words = json_error_text(e);
                joined("serialization error: ", words.as_str())
            },
        }
    }
}

/// What a poller gets in place of a result that it cannot read.
#[derive(Debug)]
pub enum TaskError {
    DeserdeError(JsonError),
}

impl TaskError {
    /// Whether `text` is a sentence that tells of this error.
    pub open spec fn says(self, text: Seq<char>) -> bool {
        match self {
            TaskError::DeserdeError(_) => exists|words: Seq<char>| #[trigger]
                joins(text, "deserialization error: "@, words),
        }
    }

    /// The sentence that tells of this error.
    pub fn message(&self) -> (text: String)
        ensures
            self.says(text@),
    {
        match self {
            TaskError::DeserdeError(e) => {
                let words = json_error_text(e);
                joined("deserialization error: ", words.as_str())
            },
        }
    }
}

/// A failure of one task on one worker. It ends that task, never the worker.
#[derive(Debug)]
pub enum WorkerError {
    BrokerError(BrokerError),
    TracerError(TracerError),
    ProtocolError(JsonError),
}

impl WorkerError {
    /// Whether `text` is a sentence that tells of this error.
    pub open spec fn says(self, text: Seq<char>) -> bool {
        match self {
            WorkerError::BrokerError(inner) => exists|words: Seq<char>|
                inner.says(words) && #[trigger] joins(text, "broker error: "@, words),
            WorkerError::TracerError(inner) => exists|words: Seq<char>|
                inner.says(words) && #[trigger] joins(text, "tracer error: "@, words),
            WorkerError::ProtocolError(_) => exists|words: Seq<char>| #[trigger]
                joins(text, "serialization error: "@, words),
        }
    }

    /// The sentence that tells of this error.
    pub fn message(&self) -> (text: String)
        ensures
            self.says(text@),
    {
        match self {
            WorkerError::BrokerError(inner) => {
                let words = inner.message();
                joined("broker error: ", words.as_str())
            },
            WorkerError::TracerError(inner) => {
                let words = inner.message();
                joined("tracer error: ", words.as_str())
            },
            WorkerError::ProtocolError(e) => {
                let words = json_error_text(e);
                joined("serialization error: ", words.as_str())
            },
        }
    }
}

/// A failure that ends the server.
#[derive(Debug)]
pub enum ServerError {
    MsgError(MsgError),
    BrokerError(BrokerError),
    /// The shutdown signals could not be listened for.
    IOError(String),
}

impl ServerError {
    /// Whether `text` is a sentence that tells of this error.
    pub open spec fn says(self, text: Seq<char>) -> bool {
        match self {
            ServerError::MsgError(inner) => exists|words: Seq<char>|
                inner.says(words) && #[trigger] joins(text, "message error: "@, words),
            ServerError::BrokerError(inner) => exists|words: Seq<char>|
                inner.says(words) && #[trigger] joins(text, "broker error: "@, words),
            ServerError::IOError(reason) => joins(text, "io error: "@, reason@),
        }
    }

    /// The sentence that tells of this error.
    pub fn message(&self) -> (text: String)
        ensures
            self.says(text@),
    {
        match self {
            ServerError::MsgError(inner) => {
                let words = inner.message();
                joined("message error: ", words.as_str())
            },
            ServerError::BrokerError(inner) => {
                let words = inner.message();
                joined("broker error: ", words.as_str())
            },
            ServerError::IOError(reason) => joined("io error: ", reason.as_str()),
        }
    }
}

/// A failure seen by the client.
#[derive(Debug)]
pub enum ClientError {
    MsgError(MsgError),
    BrokerError(BrokerError),
    /// The poll ran out of time before any result was there.
    Timeout,
}

impl ClientError {
    /// Whether `text` is a sentence that tells of this error.
    pub open spec fn says(self, text: Seq<char>) -> bool {
        match self {
            ClientError::MsgError(inner) => exists|words: Seq<char>|
                inner.says(words) && #[trigger] joins(text, "message error: "@, words),
            ClientError::BrokerError(inner) => exists|words: Seq<char>|
                inner.says(words) && #[trigger] joins(text, "broker error: "@, words),
            ClientError::Timeout => text == "timeout"@,
        }
    }

    /// The sentence that tells of this error.
    pub fn message(&self) -> (text: String)
        ensures
            self.says(text@),
    {
        match self {
            ClientError::MsgError(inner) => {
                let words = inner.message();
                joined("message error: ", words.as_str())
            },
            ClientError::BrokerError(inner) => {
                let words = inner.message();
                joined("broker error: ", words.as_str())
            },
            ClientError::Timeout => String::from_str("timeout"),
        }
    }
}

/// A failure of the connection pool.
#[derive(Debug)]
pub enum PoolError {
    RedisClientError(String),
    RedisCMDError(String),
    RedisTypeError(String),
}

impl PoolError {
    /// Whether `text` is a sentence that tells of this error.
    pub open spec fn says(self, text: Seq<char>) -> bool {
        match self {
            PoolError::RedisClientError(reason) => joins(text, "cannot creat redis client: "@, reason@),
            PoolError::RedisCMDError(reason) => joins(text, "cannot run command: "@, reason@),
            PoolError::RedisTypeError(reason) => joins(text, "cannot parse value: "@, reason@),
        }
    }

    /// The sentence that tells of this error.
    pub fn message(&self) -> (text: String)
        ensures
            self.says(text@),
    {
        match self {
            PoolError::RedisClientError(reason) => joined("cannot creat redis client: ", reason.as_str()),
            PoolError::RedisCMDError(reason) => joined("cannot run command: ", reason.as_str()),
            PoolError::RedisTypeError(reason) => joined("cannot parse value: ", reason.as_str()),
        }
    }
}

/// A failure of the helpers around the backend.
#[derive(Debug)]
pub enum Error {
    PoolError(PoolError),
}

impl Error {
    /// Whether `text` is a sentence that tells of this error.
    pub open spec fn says(self, text: Seq<char>) -> bool {
        match self {
            Error::PoolError(inner) => exists|words: Seq<char>|
                inner.says(words) && #[trigger] joins(text, "redis pool error: "@, words),
        }
    }

    /// The sentence that tells of this error.
    pub fn message(&self) -> (text: String)
        ensures
            self.says(text@),
    {
        match self {
            Error::PoolError(inner) => {
                let words = inner.message();
                joined("redis pool error: ", words.as_str())
            },
        }
    }
}

impl From<JsonError> for TaskError {
    fn from(e: JsonError) -> (wrapped: TaskError) {
        TaskError::DeserdeError(e)
    }
}

impl vstd::std_specs::convert::FromSpecImpl<JsonError> for TaskError {
    open spec fn obeys_from_spec() -> bool {
        true
    }

    open spec fn from_spec(e: JsonError) -> TaskError {
        TaskError::DeserdeError(e)
    }
}

impl From<BrokerError> for QueueError {
    fn from(e: BrokerError) -> (wrapped: QueueError) {
        QueueError::BrokerError(e)
    }
}

impl vstd::std_specs::convert::FromSpecImpl<BrokerError> for QueueError {
    open spec fn obeys_from_spec() -> bool {
        true
    }

    open spec fn from_spec(e: BrokerError) -> QueueError {
        QueueError::BrokerError(e)
    }
}

impl From<BrokerError> for WorkerError {
    fn from(e: BrokerError) -> (wrapped: WorkerError) {
        WorkerError::BrokerError(e)
    }
}

impl vstd::std_specs::convert::FromSpecImpl<BrokerError> for WorkerError {
    open spec fn obeys_from_spec() -> bool {
        true
    }

    open spec fn from_spec(e: BrokerError) -> WorkerError {
        WorkerError::BrokerError(e)
    }
}

impl From<TracerError> for WorkerError {
    fn from(e: TracerError) -> (wrapped: WorkerError) {
        WorkerError::TracerError(e)
    }
}

impl vstd::std_specs::convert::FromSpecImpl<TracerError> for WorkerError {
    open spec fn obeys_from_spec() -> bool {
        true
    }

    open spec fn from_spec(e: TracerError) -> WorkerError {
        WorkerError::TracerError(e)
    }
}

impl From<JsonError> for WorkerError {
    fn from(e: JsonError) -> (wrapped: WorkerError) {
        WorkerError::ProtocolError(e)
    }
}

impl vstd::std_specs::convert::FromSpecImpl<JsonError> for WorkerError {
    open spec fn obeys_from_spec() -> bool {
        true
    }

    open spec fn from_spec(e: JsonError) -> WorkerError {
        WorkerError::ProtocolError(e)
    }
}

impl From<MsgError> for ServerError {
    fn from(e: MsgError) -> (wrapped: ServerError) {
        ServerError::MsgError(e)
    }
}

impl vstd::std_specs::convert::FromSpecImpl<MsgError> for ServerError {
    open spec fn obeys_from_spec() -> bool {
        true
    }

    open spec fn from_spec(e: MsgError) -> ServerError {
        ServerError::MsgError(e)
    }
}

impl From<BrokerError> for ServerError {
    fn from(e: BrokerError) -> (wrapped: ServerError) {
        ServerError::BrokerError(e)
    }
}

impl vstd::std_specs::convert::FromSpecImpl<BrokerError> for ServerError {
    open spec fn obeys_from_spec() -> bool {
        true
    }

    open spec fn from_spec(e: BrokerError) -> ServerError {
        ServerError::BrokerError(e)
    }
}

impl From<MsgError> for ClientError {
    fn from(e: MsgError) -> (wrapped: ClientError) {
        ClientError::MsgError(e)
    }
}

impl vstd::std_specs::convert::FromSpecImpl<MsgError> for ClientError {
    open spec fn obeys_from_spec() -> bool {
        true
    }

    open spec fn from_spec(e: MsgError) -> ClientError {
        ClientError::MsgError(e)
    }
}

impl From<BrokerError> for ClientError {
    fn from(e: BrokerError) -> (wrapped: ClientError) {
        ClientError::BrokerError(e)
    }
}

impl vstd::std_specs::convert::FromSpecImpl<BrokerError> for ClientError {
    open spec fn obeys_from_spec() -> bool {
        true
    }

    open spec fn from_spec(e: BrokerError) -> ClientError {
        ClientError::BrokerError(e)
    }
}

impl From<JsonError> for MsgError {
    fn from(e: JsonError) -> (wrapped: MsgError) {
        MsgError::ProtocolError(e)
    }
}

impl vstd::std_specs::convert::FromSpecImpl<JsonError> for MsgError {
    open spec fn obeys_from_spec() -> bool {
        true
    }

    open spec fn from_spec(e: JsonError) -> MsgError {
        MsgError::ProtocolError(e)
    }
}

impl From<JsonError> for TracerError {
    fn from(e: JsonError) -> (wrapped: TracerError) {
        TracerError::ProtocolError(e)
    }
}

impl vstd::std_specs::convert::FromSpecImpl<JsonError> for TracerError {
    open spec fn obeys_from_spec() -> bool {
        true
    }

    open spec fn from_spec(e: JsonError) -> TracerError {
        TracerError::ProtocolError(e)
    }
}

impl From<PoolError> for Error {
    fn from(e: PoolError) -> (wrapped: Error) {
        Error::PoolError(e)
    }
}

impl vstd::std_specs::convert::FromSpecImpl<PoolError> for Error {
    open spec fn obeys_from_spec() -> bool {
        true
    }

    open spec fn from_spec(e: PoolError) -> Error {
        Error::PoolError(e)
    }
}

} // verus!
