//! A task that is ready to be submitted.

use vstd::prelude::*;
use crate::ident::{fresh_id, is_uuid_v4_text};
use crate::task::AQTask;

verus! {

/// One invocation of a task of kind `T` that has not been submitted yet: an
/// id and the parameters. It never changes once made.
pub struct Signature<T: AQTask> {
    id: String,
    params: T::Params,
}

impl<T: AQTask> Signature<T> {
    /// The id of the invocation.
    pub closed spec fn id(&self) -> Seq<char> {
        self.id@
    }

    /// The parameters of the invocation.
    pub closed spec fn params(&self) -> T::Params {
        self.params
    }

    /// An invocation with these parameters and a fresh random id.
    pub fn new(params: T::Params) -> (signature: Self)
        ensures
            is_uuid_v4_text(signature.id()),
            signature.params() == params,
    {
        Self::new_with_id(fresh_id(), params)
    }

    /// An invocation with these parameters and the id that the caller chose.
    pub fn new_with_id(id: String, params: T::Params) -> (signature: Self)
        ensures
            signature.id() == id@,
            signature.params() == params,
    {
        Self { id, params }
    }

    /// The id.
    pub fn get_id(&self) -> (id: String)
        ensures
            id@ == self.id(),
    {
        self.id.clone()
    }

    /// The parameters.
    pub fn get_params(&self) -> (params: &T::Params)
        ensures
            *params == self.params(),
    {
        &self.params
    }

    /// The name of the task's kind.
    pub fn name(&self) -> (name: &'static str)
        ensures
            name@ == T::NAME@,
    {
        T::NAME
    }
}

} // verus!
