//! Texts that the procedural macros around this library agree on.
//!
//! A function `add` that is marked as a task becomes a task kind named
//! `add`, and its arguments become the fields of a struct named `addParams`.
//! The macros themselves work on token streams and are no part of this
//! library; the texts are, since whoever reads what a macro wrote must know
//! them.

use vstd::prelude::*;
use vstd::string::StringExecFns;

verus! {

/// The name of the parameter struct of the task `name`: the name with
/// `Params` behind it.
pub fn get_param_name(name: &String) -> (param_name: String)
    ensures
        param_name@ == name@ + "Params"@,
{
    let mut param_name = name.clone();
    param_name.append("Params");
    param_name
}

/// How the describing derive tells of a struct without fields.
pub fn handle_unit() -> (description: String)
    ensures
        description@ == "a unit struct"@,
{
    String::from_str("a unit struct")
}

} // verus!
