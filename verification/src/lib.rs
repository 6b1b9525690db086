//! A broker-backed task queue, without the I/O.
//!
//! Callers hand in typed tasks, a pool of workers runs them, and callers
//! fetch the results by polling. This crate holds the decisions of that
//! system: the envelope that travels over the broker, the registry of task
//! kinds, and the scheduler, worker, poller and server as state machines that
//! take an event and answer with the next thing to do. Whoever drives them
//! performs the broker calls, the channel traffic and the sleeping.
//!
//! - `task`, `signature`, `async_result`: a task kind, one invocation of it,
//!   and the handle to its result.
//! - `message`, `wire`, `ident`: the envelope, its JSON text and fresh ids.
//! - `tracer`, `queue`: from an envelope to a task that is ready to run, by
//!   way of the registry.
//! - `client`, `poll`: submitting, and waiting for a result.
//! - `scheduler`, `worker`, `server`, `pool`: the serving side, piece by
//!   piece and as a whole.
//! - `error`, `signal`, `codegen`: what goes wrong, what stops a server, and
//!   the texts that the macros share.

pub mod async_result;
pub mod client;
pub mod codegen;
pub mod error;
pub mod ident;
pub mod message;
pub mod poll;
pub mod pool;
pub mod queue;
pub mod scheduler;
pub mod server;
pub mod signal;
pub mod signature;
pub mod task;
pub mod tracer;
pub mod wire;
pub mod worker;
