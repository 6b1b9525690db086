//! The JSON text layer, which is serde_json's.
//!
//! Each function here hands plain values to serde_json and takes plain values
//! back. What serde_json answers is a function of what it is given, so each
//! answer has a name, and the contracts of the envelope speak of those names.

use vstd::prelude::*;
use serde_json::Error as JsonError;
use serde_json::value::RawValue;
use std::collections::BTreeMap;

verus! {

/// The JSON text that serde_json writes for the string `s`, if it writes one.
pub uninterp spec fn json_of_string(s: Seq<char>) -> Option<Seq<char>>;

/// The JSON text that serde_json writes for the byte sequence `bytes` (an
/// array of numbers), if it writes one.
pub uninterp spec fn json_of_bytes(bytes: Seq<u8>) -> Option<Seq<char>>;

/// The members of the JSON object that serde_json reads from `text`, each a
/// key with the JSON text of its value; `None` where it reads no object.
pub uninterp spec fn json_members(text: Seq<char>) -> Option<Seq<(Seq<char>, Seq<char>)>>;

/// The string that serde_json reads from the JSON text `raw`, if it reads one.
pub uninterp spec fn json_string(raw: Seq<char>) -> Option<Seq<char>>;

/// The bytes that serde_json reads from the JSON text `raw` (an array of
/// numbers from 0 to 255), if it reads them.
pub uninterp spec fn json_bytes(raw: Seq<char>) -> Option<Seq<u8>>;

/// `serde_json::to_string` on a string slice. The contract only gives the
/// answer its name, `json_of_string`.
#[verifier::external_body]
pub(crate) fn write_string(s: &str) -> (r: Result<String, JsonError>)
    ensures
        r matches Ok(text) ==> json_of_string(s@) == Some(text@),
        r is Err ==> json_of_string(s@) is None,
{
    serde_json::to_string(s)
}

/// `serde_json::to_string` on a vector of bytes. The contract only gives the
/// answer its name, `json_of_bytes`.
#[verifier::external_body]
pub(crate) fn write_bytes(bytes: &Vec<u8>) -> (r: Result<String, JsonError>)
    ensures
        r matches Ok(text) ==> json_of_bytes(bytes@) == Some(text@),
        r is Err ==> json_of_bytes(bytes@) is None,
{
    serde_json::to_string(bytes)
}

/// `serde_json::from_str` into a map from keys to raw values: it accepts a
/// JSON object and keeps the text of each member's value as it stands. The
/// members are handed out in the map's order. The contract only gives the
/// answer its name, `json_members`.
#[verifier::external_body]
pub(crate) fn split_object(text: &str) -> (r: Result<Vec<(String, String)>, JsonError>)
    ensures
        r matches Ok(members) ==> json_members(text@) == Some(members.deep_view()),
        r is Err ==> json_members(text@) is None,
{
    let object: BTreeMap<String, Box<RawValue>> = serde_json::from_str(text)?;
    Ok(object.into_iter().map(|(key, value)| (key, value.get().to_owned())).collect())
}

/// `serde_json::from_str` into a `String`. The contract only gives the answer
/// its name, `json_string`.
#[verifier::external_body]
pub(crate) fn read_string(raw: &str) -> (r: Result<String, JsonError>)
    ensures
        r matches Ok(s) ==> json_string(raw@) == Some(s@),
        r is Err ==> json_string(raw@) is None,
{
    serde_json::from_str::<String>(raw)
}

/// `serde_json::from_str` into a `Vec<u8>`. The contract only gives the
/// answer its name, `json_bytes`.
#[verifier::external_body]
pub(crate) fn read_bytes(raw: &str) -> (r: Result<Vec<u8>, JsonError>)
    ensures
        r matches Ok(bytes) ==> json_bytes(raw@) == Some(bytes@),
        r is Err ==> json_bytes(raw@) is None,
{
    serde_json::from_str::<Vec<u8>>(raw)
}

/// A codec error that carries `reason`: serde's `de::Error::custom` for
/// serde_json's error type. Nothing is claimed of the error.
#[verifier::external_body]
pub(crate) fn protocol_error(reason: &str) -> JsonError {
    <JsonError as serde::de::Error>::custom(reason)
}

/// Whether two texts are the same.
pub fn same_text(a: &str, b: &str) -> (same: bool)
    ensures
        same == (a@ == b@),
{
    a.to_owned() == b.to_owned()
}

/// Whether two byte vectors are the same.
pub fn same_bytes(a: &Vec<u8>, b: &Vec<u8>) -> (same: bool)
    ensures
        same == (a@ == b@),
{
    if a.len() != b.len() {
        return false;
    }
    let mut i: usize = 0;
    while i < a.len()
        invariant
            a.len() == b.len(),
            0 <= i <= a.len(),
            forall|j: int| 0 <= j < i ==> a@[j] == b@[j],
        decreases a.len() - i,
    {
        if a[i] != b[i] {
            return false;
        }
        i += 1;
    }
    assert(a@ =~= b@);
    true
}

/// The value of the first member of `members` whose key is `key`.
pub open spec fn member(members: Seq<(Seq<char>, Seq<char>)>, key: Seq<char>) -> Option<
    Seq<char>,
>
    decreases members.len(),
{
    if members.len() == 0 {
        None
    } else if members[0].0 == key {
        Some(members[0].1)
    } else {
        member(members.drop_first(), key)
    }
}

/// Looks `key` up among `members`.
pub fn find_member<'a>(members: &'a Vec<(String, String)>, key: &str) -> (found: Option<&'a String>)
    ensures
        match found {
            Some(value) => member(members.deep_view(), key@) == Some(value@),
            None => member(members.deep_view(), key@) is None,
        },
{
    let ghost all = members.deep_view();
    let mut i: usize = 0;
    assert(all.subrange(0, all.len() as int) =~= all);
    while i < members.len()
        invariant
            0 <= i <= members.len(),
            all == members.deep_view(),
            member(all, key@) == member(all.subrange(i as int, all.len() as int), key@),
        decreases members.len() - i,
    {
        let ghost rest = all.subrange(i as int, all.len() as int);
        assert(rest[0] == all[i as int]);
        assert(all[i as int].0 == members[i as int].0@);
        assert(all[i as int].1 == members[i as int].1@);
        assert(rest.drop_first() =~= all.subrange(i as int + 1, all.len() as int));
        if same_text(members[i].0.as_str(), key) {
            return Some(&members[i].1);
        }
        i += 1;
    }
    assert(all.subrange(i as int, all.len() as int).len() == 0);
    None
}

} // verus!
