//! The queue: its settings and the registry of task kinds.

use vstd::prelude::*;
use crate::client::Client;
use crate::error::{QueueError, TracerError};
use crate::message::Message;
use crate::server::Server;
use crate::task::{AQTask, Traced};
use crate::tracer::{
    traced_by, TaskBuilder, TraceBuild, TraceBuilder, TraceBuilderResult, TracerTrait,
};
use crate::wire::same_text;

verus! {

/// The timeout, in seconds, that a new queue asks of each broker connection.
pub const DEFAULT_TIMEOUT: u32 = 10;

/// What a registered kind can make of a payload: see `may_trace`.
pub type Outcomes = spec_fn(Seq<u8>, Traced) -> bool;

/// One application: its name, the queue it works on, where its broker is, and
/// the task kinds that its workers can run.
///
/// The registry only grows, and no name is in it twice.
pub struct AsyncQueue {
    name: String,
    queue: String,
    broker_url: String,
    timeout: u32,
    task_builders: Vec<Registered>,
}

/// One line of the registry: a name and the builder of the kind that bears it.
struct Registered {
    name: String,
    builder: TraceBuilder,
}

impl Registered {
    /// The line for the kind `T`.
    fn of<T: AQTask + 'static>() -> (entry: Registered)
        ensures
            entry.name@ == T::NAME@,
            entry.builder.outcomes() == traced_by::<T>(),
    {
        Registered { name: T::NAME.to_owned(), builder: Box::new(TaskBuilder::<T>::new()) }
    }
}

/// Whether no name stands twice in `entries`.
pub open spec fn distinct_names(entries: Seq<(Seq<char>, Outcomes)>) -> bool {
    forall|i: int, j: int|
        0 <= i < j < entries.len() ==> (#[trigger] entries[i]).0 != (#[trigger] entries[j]).0
}

/// Whether `name` stands in `entries`.
pub open spec fn names(entries: Seq<(Seq<char>, Outcomes)>, name: Seq<char>) -> bool {
    exists|i: int| 0 <= i < entries.len() && (#[trigger] entries[i]).0 == name
}

/// What stands beside `name` in `entries`.
pub open spec fn beside(entries: Seq<(Seq<char>, Outcomes)>, name: Seq<char>) -> Outcomes {
    let i = choose|i: int| 0 <= i < entries.len() && (#[trigger] entries[i]).0 == name;
    entries[i].1
}

/// A registry that takes a new name keeps every name that it had, with what
/// stood beside it, and has the new name with what came with it.
pub proof fn lemma_registry_grows(
    entries: Seq<(Seq<char>, Outcomes)>,
    name: Seq<char>,
    outcomes: Outcomes,
)
    requires
        distinct_names(entries),
        !names(entries, name),
    ensures
        distinct_names(entries.push((name, outcomes))),
        names(entries.push((name, outcomes)), name),
        beside(entries.push((name, outcomes)), name) == outcomes,
        forall|other: Seq<char>|
            other != name ==> names(entries.push((name, outcomes)), other) == names(
                entries,
                other,
            ),
        forall|other: Seq<char>| #[trigger]
            names(entries, other) ==> beside(entries.push((name, outcomes)), other) == beside(
                entries,
                other,
            ),
{
    let grown = entries.push((name, outcomes));
    assert forall|i: int, j: int| 0 <= i < j < grown.len() implies (#[trigger] grown[i]).0 != (
    #[trigger] grown[j]).0 by {
        if j == entries.len() {
            assert(entries[i].0 != name);
        } else {
            assert(entries[i].0 != entries[j].0);
        }
    }
    assert(grown[entries.len() as int].0 == name);
    lemma_beside_is_at(grown, entries.len() as int);
    assert forall|other: Seq<char>| other != name implies names(grown, other) == names(
        entries,
        other,
    ) by {
        if names(entries, other) {
            let i = choose|i: int| 0 <= i < entries.len() && (#[trigger] entries[i]).0 == other;
            assert(grown[i].0 == other);
        }
        if names(grown, other) {
            let i = choose|i: int| 0 <= i < grown.len() && (#[trigger] grown[i]).0 == other;
            assert(entries[i].0 == other);
        }
    }
    assert forall|other: Seq<char>| #[trigger] names(entries, other) implies beside(grown, other)
        == beside(entries, other) by {
        let i = choose|i: int| 0 <= i < entries.len() && (#[trigger] entries[i]).0 == other;
        assert(grown[i] == entries[i]);
        lemma_beside_is_at(grown, i);
    }
}

/// Where no name stands twice, what stands beside a name is what stands at
/// the one place where the name is.
pub proof fn lemma_beside_is_at(entries: Seq<(Seq<char>, Outcomes)>, at: int)
    requires
        distinct_names(entries),
        0 <= at < entries.len(),
    ensures
        names(entries, entries[at].0),
        beside(entries, entries[at].0) == entries[at].1,
{
    let name = entries[at].0;
    let i = choose|i: int| 0 <= i < entries.len() && (#[trigger] entries[i]).0 == name;
    if i < at {
        assert(entries[i].0 != entries[at].0);
    } else if at < i {
        assert(entries[at].0 != entries[i].0);
    }
}

impl AsyncQueue {
    #[verifier::type_invariant]
    spec fn inv(&self) -> bool {
        distinct_names(self.entries())
    }

    /// The application's name.
    pub closed spec fn name(&self) -> Seq<char> {
        self.name@
    }

    /// The name of the queue on the broker.
    pub closed spec fn queue(&self) -> Seq<char> {
        self.queue@
    }

    /// Where the broker is.
    pub closed spec fn broker_url(&self) -> Seq<char> {
        self.broker_url@
    }

    /// The timeout asked of each broker connection.
    pub closed spec fn timeout(&self) -> u32 {
        self.timeout
    }

    /// The registered kinds in the order of their registration: each name
    /// with what the kind can make of a payload.
    pub closed spec fn entries(&self) -> Seq<(Seq<char>, Outcomes)> {
        Seq::new(
            self.task_builders.len() as nat,
            |i: int| (self.task_builders[i].name@, self.task_builders[i].builder.outcomes()),
        )
    }

    /// Whether a kind of that name is registered.
    pub open spec fn has(&self, name: Seq<char>) -> bool {
        names(self.entries(), name)
    }

    /// What the kind registered under `name` can make of a payload.
    pub open spec fn outcomes_of(&self, name: Seq<char>) -> Outcomes {
        beside(self.entries(), name)
    }

    /// A queue with no task kinds yet.
    pub fn new(name: String, queue: String, broker_url: String) -> (app: AsyncQueue)
        ensures
            app.name() == name@,
            app.queue() == queue@,
            app.broker_url() == broker_url@,
            app.timeout() == DEFAULT_TIMEOUT,
            app.entries().len() == 0,
    {
        AsyncQueue { name, queue, broker_url, timeout: DEFAULT_TIMEOUT, task_builders: Vec::new() }
    }

    /// The application's name.
    pub fn get_info(&self) -> (name: String)
        ensures
            name@ == self.name(),
    {
        self.name.clone()
    }

    /// Where the broker is.
    pub fn get_broker_url(&self) -> (url: String)
        ensures
            url@ == self.broker_url(),
    {
        self.broker_url.clone()
    }

    /// The timeout asked of each broker connection.
    pub fn get_timeout(&self) -> (timeout: u32)
        ensures
            timeout == self.timeout(),
    {
        self.timeout
    }

    /// The name of the queue on the broker.
    pub fn get_queue(&self) -> (queue: String)
        ensures
            queue@ == self.queue(),
    {
        self.queue.clone()
    }

    /// A client of this queue. The broker connection that it works with is
    /// built by the driver, with `get_broker_url` and `get_timeout`.
    pub fn client(&self) -> (client: Client)
        ensures
            client.queue() == self.queue(),
    {
        Client::new(self.queue.clone())
    }

    /// A server of this queue. Its broker connections are built by the
    /// driver: one for the scheduler and one for each worker.
    pub fn server(&self) -> (server: Server)
        ensures
            server.queue() == self.queue(),
            server.timeout() == self.timeout(),
    {
        Server::new(self.queue.clone(), self.timeout)
    }

    /// How many kinds are registered.
    pub fn task_count(&self) -> (count: usize)
        ensures
            count == self.entries().len(),
    {
        self.task_builders.len()
    }

    /// Whether a kind of that name is registered.
    pub fn is_registered(&self, name: &str) -> (found: bool)
        ensures
            found == self.has(name@),
    {
        self.position(name).is_some()
    }

    /// Where `name` stands in the registry.
    fn position(&self, name: &str) -> (found: Option<usize>)
        ensures
            distinct_names(self.entries()),
            match found {
                Some(i) => i < self.entries().len() && self.entries()[i as int].0 == name@
                    && self.has(name@) && self.outcomes_of(name@) == self.entries()[i as int].1,
                None => !self.has(name@),
            },
    {
        proof {
            use_type_invariant(self);
        }
        let mut i: usize = 0;
        while i < self.task_builders.len()
            invariant
                0 <= i <= self.task_builders.len(),
                self.entries().len() == self.task_builders.len(),
                distinct_names(self.entries()),
                forall|j: int| 0 <= j < i ==> (#[trigger] self.entries()[j]).0 != name@,
            decreases self.task_builders.len() - i,
        {
            if same_text(self.task_builders[i].name.as_str(), name) {
                proof {
                    lemma_beside_is_at(self.entries(), i as int);
                }
                return Some(i);
            }
            i += 1;
        }
        None
    }

    /// Registers the kind `T` under its name.
    ///
    /// A name that is registered already is refused with `DuplicateTask`, and
    /// then nothing changes: the kind that was there first stays. Any other
    /// name is added at the end, and every kind that was there stays as it
    /// was.
    pub fn register<T: AQTask + 'static>(&mut self) -> (r: Result<(), QueueError>)
        ensures
            final(self).name() == old(self).name(),
            final(self).queue() == old(self).queue(),
            final(self).broker_url() == old(self).broker_url(),
            final(self).timeout() == old(self).timeout(),
            distinct_names(final(self).entries()),
            old(self).has(T::NAME@) ==> (r matches Err(QueueError::DuplicateTask(name)) && name@
                == T::NAME@) && final(self).entries() == old(self).entries(),
            !old(self).has(T::NAME@) ==> r is Ok && final(self).entries() == old(
                self,
            ).entries().push((T::NAME@, traced_by::<T>())),
            final(self).has(T::NAME@),
            !old(self).has(T::NAME@) ==> final(self).outcomes_of(T::NAME@) == traced_by::<T>(),
            forall|name: Seq<char>|
                name != T::NAME@ ==> #[trigger] final(self).has(name) == old(self).has(name),
            forall|name: Seq<char>| #[trigger]
                old(self).has(name) ==> final(self).outcomes_of(name) == old(self).outcomes_of(
                    name,
                ),
    {
        let name = T::NAME;
        match self.position(name) {
            Some(_) => Err(QueueError::DuplicateTask(name.to_owned())),
            None => {
                let ghost before = self.entries();
                let ghost held = self.task_builders@;
                let entry = Registered::of::<T>();
                let ghost added = entry;
                proof {
                    lemma_registry_grows(before, T::NAME@, traced_by::<T>());
                    assert(Seq::new(
                        held.push(added).len(),
                        |i: int| (held.push(added)[i].name@, held.push(added)[i].builder.outcomes()),
                    ) =~= before.push((T::NAME@, traced_by::<T>())));
                }
                let mut builders: Vec<Registered> = Vec::new();
                core::mem::swap(&mut builders, &mut self.task_builders);
                builders.push(entry);
                assert(builders@ == held.push(added));
                core::mem::swap(&mut builders, &mut self.task_builders);
                Ok(())
            },
        }
    }

    /// The task that the envelope `msg` asks for, ready to run: the builder
    /// registered under `name` is handed the envelope.
    ///
    /// A name that is not registered gives `TaskNotFound`. For a name that is
    /// registered, the answer is what the builder gave: a task whose runs end
    /// as the kind allows for this payload, or a protocol error where the
    /// kind could not read the payload.
    pub fn get_tracer(&self, name: String, msg: Message) -> (r: TraceBuilderResult)
        ensures
            !self.has(name@) ==> (r matches Err(TracerError::TaskNotFound(missing)) && missing@
                == name@),
            self.has(name@) ==> {
                &&& r matches Ok(tracer) ==> forall|outcome: Traced| #[trigger]
                    tracer.may_give(outcome) ==> (self.outcomes_of(name@))(msg@.payload, outcome)
                &&& r matches Err(e) ==> e is ProtocolError && (self.outcomes_of(name@))(
                    msg@.payload,
                    Traced::BadPayload,
                )
            },
    {
        match self.position(name.as_str()) {
            Some(i) => self.task_builders[i].builder.build(msg),
            None => Err(TracerError::TaskNotFound(name)),
        }
    }
}

} // verus!
