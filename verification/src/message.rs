//! The envelope that carries a task over the broker.
//!
//! On the wire an envelope is a JSON object with the members `id`, `name` and
//! `payload`, written without spaces in that order: two strings and an array
//! of the payload's bytes as numbers. Reading accepts any JSON object that has
//! these three members, whatever else it holds. The strings and numbers are
//! written and read by serde_json (see `wire`); which members there are, and
//! what becomes of an object that lacks one, is decided here.

use vstd::prelude::*;
use vstd::string::StringExecFns;
use serde_json::Error as JsonError;
use crate::error::MsgError;
use crate::ident::{fresh_id, is_uuid_v4_text};
use crate::signature::Signature;
use crate::task::AQTask;
use crate::wire::{
    find_member, json_bytes, json_members, json_of_bytes, json_of_string, json_string, member,
    protocol_error, read_bytes, read_string, same_bytes, same_text, split_object, write_bytes,
    write_string,
};

verus! {

/// One task on its way to a worker: the id of the submission, the name of the
/// task's kind, and the parameters as bytes.
#[derive(Debug)]
pub struct Message {
    id: String,
    name: String,
    payload: Vec<u8>,
}

/// What an envelope holds.
pub struct MessageView {
    pub id: Seq<char>,
    pub name: Seq<char>,
    pub payload: Seq<u8>,
}

impl View for Message {
    type V = MessageView;

    closed spec fn view(&self) -> MessageView {
        MessageView { id: self.id@, name: self.name@, payload: self.payload@ }
    }
}

/// The JSON object with the members `id`, `name` and `payload`, given the
/// JSON text of each value.
pub open spec fn framed(id: Seq<char>, name: Seq<char>, payload: Seq<char>) -> Seq<char> {
    "{\"id\":"@ + id + ",\"name\":"@ + name + ",\"payload\":"@ + payload + "}"@
}

/// The wire text of an envelope, where serde_json writes its three values.
pub open spec fn wire_text(message: MessageView) -> Option<Seq<char>> {
    if json_of_string(message.id) is Some && json_of_string(message.name) is Some && json_of_bytes(
        message.payload,
    ) is Some {
        Some(
            framed(
                json_of_string(message.id)->Some_0,
                json_of_string(message.name)->Some_0,
                json_of_bytes(message.payload)->Some_0,
            ),
        )
    } else {
        None
    }
}

/// The envelope that the members of a JSON object stand for: the members
/// `id`, `name` and `payload` must be there, the first two must read as
/// strings and the third as bytes.
pub open spec fn message_of(members: Seq<(Seq<char>, Seq<char>)>) -> Option<MessageView> {
    let id = member(members, "id"@);
    let name = member(members, "name"@);
    let payload = member(members, "payload"@);
    if id is Some && name is Some && payload is Some && json_string(id->Some_0) is Some
        && json_string(name->Some_0) is Some && json_bytes(payload->Some_0) is Some {
        Some(
            MessageView {
                id: json_string(id->Some_0)->Some_0,
                name: json_string(name->Some_0)->Some_0,
                payload: json_bytes(payload->Some_0)->Some_0,
            },
        )
    } else {
        None
    }
}

/// The envelope that a wire text stands for, if it stands for one.
pub open spec fn wire_message(text: Seq<char>) -> Option<MessageView> {
    match json_members(text) {
        Some(members) => message_of(members),
        None => None,
    }
}

/// Writes the JSON object of an envelope around the JSON texts of its three
/// values.
pub fn envelope_text(id: &str, name: &str, payload: &str) -> (text: String)
    ensures
        text@ == framed(id@, name@, payload@),
{
    let mut text = String::from_str("{\"id\":");
    text.append(id);
    text.append(",\"name\":");
    text.append(name);
    text.append(",\"payload\":");
    text.append(payload);
    text.append("}");
    text
}

impl Message {
    /// An envelope with a fresh random id.
    pub fn new(name: String, payload: Vec<u8>) -> (message: Message)
        ensures
            is_uuid_v4_text(message@.id),
            message@.name == name@,
            message@.payload == payload@,
    {
        Message::new_with_id(fresh_id(), name, payload)
    }

    /// An envelope with the id that the caller chose.
    pub fn new_with_id(id: String, name: String, payload: Vec<u8>) -> (message: Message)
        ensures
            message@ == (MessageView { id: id@, name: name@, payload: payload@ }),
    {
        Message { id, name, payload }
    }

    /// The id of the submission.
    pub fn get_id(&self) -> (id: String)
        ensures
            id@ == self@.id,
    {
        self.id.clone()
    }

    /// The name of the task's kind.
    pub fn get_name(&self) -> (name: String)
        ensures
            name@ == self@.name,
    {
        self.name.clone()
    }

    /// The parameters as they travel.
    pub fn get_payload(&self) -> (payload: &Vec<u8>)
        ensures
            payload@ == self@.payload,
    {
        &self.payload
    }

    /// Whether two envelopes hold the same.
    pub fn same_as(&self, other: &Message) -> (same: bool)
        ensures
            same == (self@ == other@),
    {
        same_text(self.id.as_str(), other.id.as_str()) && same_text(
            self.name.as_str(),
            other.name.as_str(),
        ) && same_bytes(&self.payload, &other.payload)
    }

    /// The wire text of the envelope.
    ///
    /// The text is handed out only after it has been read back. So whatever
    /// is returned is the text that `wire_text` describes, and reading it
    /// gives this very envelope again; where serde_json refuses a value, or
    /// the text does not read back, the answer is a protocol error.
    pub fn serialize(&self) -> (r: Result<String, MsgError>)
        ensures
            r matches Ok(text) ==> wire_text(self@) == Some(text@) && wire_message(text@) == Some(
                self@,
            ),
            r is Err ==> wire_text(self@) is None || wire_message(wire_text(self@)->Some_0) != Some(
                self@,
            ),
    {
        let id = match write_string(self.id.as_str()) {
            Ok(text) => text,
            Err(e) => {
                return Err(MsgError::ProtocolError(e));
            },
        };
        let name = match write_string(self.name.as_str()) {
            Ok(text) => text,
            Err(e) => {
                return Err(MsgError::ProtocolError(e));
            },
        };
        let payload = match write_bytes(&self.payload) {
            Ok(text) => text,
            Err(e) => {
                return Err(MsgError::ProtocolError(e));
            },
        };
        let text = envelope_text(id.as_str(), name.as_str(), payload.as_str());
        match Message::decode(text.as_str()) {
            Ok(back) => {
                if back.same_as(self) {
                    Ok(text)
                } else {
                    Err(MsgError::ProtocolError(protocol_error("envelope does not read back")))
                }
            },
            Err(e) => Err(e),
        }
    }

    /// Reads an envelope from its wire text. It fails with a protocol error
    /// exactly where the text is no JSON object, lacks one of the three
    /// members, or holds one that does not read as its type.
    pub fn decode(text: &str) -> (r: Result<Message, MsgError>)
        ensures
            r matches Ok(message) ==> wire_message(text@) == Some(message@),
            r is Err ==> wire_message(text@) is None,
    {
        match split_object(text) {
            Ok(members) => Message::from_members(&members),
            Err(e) => Err(MsgError::ProtocolError(e)),
        }
    }

    /// Builds an envelope from the members of a JSON object, each a key with
    /// the JSON text of its value.
    pub fn from_members(members: &Vec<(String, String)>) -> (r: Result<Message, MsgError>)
        ensures
            r matches Ok(message) ==> message_of(members.deep_view()) == Some(message@),
            r is Err ==> message_of(members.deep_view()) is None,
    {
        let id_text = match find_member(members, "id") {
            Some(raw) => raw,
            None => {
                return Err(MsgError::ProtocolError(protocol_error("missing field `id`")));
            },
        };
        let name_text = match find_member(members, "name") {
            Some(raw) => raw,
            None => {
                return Err(MsgError::ProtocolError(protocol_error("missing field `name`")));
            },
        };
        let payload_text = match find_member(members, "payload") {
            Some(raw) => raw,
            None => {
                return Err(MsgError::ProtocolError(protocol_error("missing field `payload`")));
            },
        };
        let id = match read_string(id_text.as_str()) {
            Ok(id) => id,
            Err(e) => {
                return Err(MsgError::ProtocolError(e));
            },
        };
        let name = match read_string(name_text.as_str()) {
            Ok(name) => name,
            Err(e) => {
                return Err(MsgError::ProtocolError(e));
            },
        };
        let payload = match read_bytes(payload_text.as_str()) {
            Ok(payload) => payload,
            Err(e) => {
                return Err(MsgError::ProtocolError(e));
            },
        };
        Ok(Message::new_with_id(id, name, payload))
    }

    /// The envelope of an invocation: its id, the name of its kind, and its
    /// parameters as the kind writes them; a protocol error where the kind
    /// refuses to write them.
    pub fn encode<T: AQTask>(signature: &Signature<T>) -> (r: Result<Message, MsgError>)
        ensures
            encoded::<T>(signature.id(), signature.params(), r),
    {
        let id = signature.get_id();
        let name = signature.name().to_owned();
        let params = signature.get_params();
        let written = T::encode_params(params);
        assert(call_ensures(T::encode_params, (params,), written));
        Message::enveloped(id, name, written)
    }

    /// The envelope with this id, this name and the payload that the kind
    /// wrote; its refusal as a protocol error.
    pub fn enveloped(id: String, name: String, written: Result<Vec<u8>, JsonError>) -> (r: Result<
        Message,
        MsgError,
    >)
        ensures
            match written {
                Ok(payload) => r matches Ok(message) && message@ == (MessageView {
                    id: id@,
                    name: name@,
                    payload: payload@,
                }),
                Err(e) => r matches Err(MsgError::ProtocolError(refusal)) && refusal == e,
            },
    {
        match written {
            Ok(payload) => Ok(Message::new_with_id(id, name, payload)),
            Err(e) => Err(MsgError::ProtocolError(e)),
        }
    }
}

/// Whether `r` is what `Message::encode` owes for the invocation of kind `T`
/// with this id and these parameters: `encode_params` was asked to write the
/// parameters, and `r` is the envelope around what it wrote, or a protocol
/// error where it refused.
pub open spec fn encoded<T: AQTask>(id: Seq<char>, params: T::Params, r: Result<Message, MsgError>)
    -> bool {
    exists|written: Result<Vec<u8>, JsonError>|
        #![auto]
        call_ensures(T::encode_params, (&params,), written) && match written {
            Ok(payload) => r matches Ok(message) && message@ == (MessageView {
                id,
                name: T::NAME@,
                payload: payload@,
            }),
            Err(e) => r matches Err(MsgError::ProtocolError(refusal)) && refusal == e,
        }
}

impl<T: AQTask> vstd::std_specs::convert::TryFromSpecImpl<&Signature<T>> for Message {
    /// The conversion is specified by its own `ensures`: which error comes
    /// out is not a function of the invocation that can be written down.
    open spec fn obeys_try_from_spec() -> bool {
        false
    }

    open spec fn try_from_spec(v: &Signature<T>) -> Result<Message, MsgError> {
        arbitrary()
    }
}

impl<T: AQTask> TryFrom<&Signature<T>> for Message {
    type Error = MsgError;

    /// The envelope of an invocation: see `Message::encode`.
    fn try_from(value: &Signature<T>) -> (r: Result<Message, MsgError>)
        ensures
            encoded::<T>(value.id(), value.params(), r),
    {
        Message::encode(value)
    }
}

} // verus!
