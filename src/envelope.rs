//! The command envelope: a command name and its positional arguments, and
//! their JSON wire form.
use crate::json::{
    json_object_members, json_object_text, json_string_list_literal, object_text, json_string_list_of, json_string_literal,
    json_string_of, object_members, string_list_literal, string_list_value, string_literal,
    string_value, utf8_text,
};
use crate::text::{keys_ascending, pairs_model, same_text, text_less, texts_model, unpadded};
use vstd::prelude::*;
use vstd::utf8::{decode_utf8, valid_utf8};

verus! {

/// An envelope as values: the command name and the argument list.
pub type EnvelopeModel = (Seq<char>, Seq<Seq<char>>);

/// The outcome of reading an envelope.
pub type Decoded = Result<EnvelopeModel, MalformedReason>;

/// One unit of inbound work.
pub struct CommandEnvelope {
    pub command: String,
    pub args: Vec<String>,
}

impl View for CommandEnvelope {
    type V = (Seq<char>, Seq<Seq<char>>);

    open spec fn view(&self) -> (Seq<char>, Seq<Seq<char>>) {
        (self.command@, texts_model(self.args@))
    }
}

/// Why an inbound payload is not a command envelope.
#[derive(Clone, Copy, Debug, PartialEq, Eq, Structural)]
pub enum MalformedReason {
    InvalidUtf8,
    NotAnObject,
    MissingCommand,
    MissingArgs,
}

/// A payload that could not be read as a command envelope.
#[derive(Clone, Copy, Debug, PartialEq, Eq, Structural)]
pub enum DecodeError {
    MalformedMessage(MalformedReason),
}

/// The value of the first member named `key`, from position `i` on.
pub open spec fn member_from(
    ms: Seq<(Seq<char>, Seq<char>)>,
    key: Seq<char>,
    i: int,
) -> Option<Seq<char>>
    decreases ms.len() - i,
{
    if i < 0 || i >= ms.len() {
        None
    } else if ms[i].0 == key {
        Some(ms[i].1)
    } else {
        member_from(ms, key, i + 1)
    }
}

/// The value of the first member named `key`.
pub open spec fn member(ms: Seq<(Seq<char>, Seq<char>)>, key: Seq<char>) -> Option<Seq<char>> {
    member_from(ms, key, 0)
}

/// The envelope that the members of a JSON object describe: a `command` member
/// holding a string and an `args` member holding a list of strings.
pub open spec fn envelope_of_members(ms: Seq<(Seq<char>, Seq<char>)>) -> Decoded {
    match member(ms, "command"@) {
        None => Err(MalformedReason::MissingCommand),
        Some(c) => match json_string_of(c) {
            None => Err(MalformedReason::MissingCommand),
            Some(command) => match member(ms, "args"@) {
                None => Err(MalformedReason::MissingArgs),
                Some(a) => match json_string_list_of(a) {
                    None => Err(MalformedReason::MissingArgs),
                    Some(args) => Ok((command, args)),
                },
            },
        },
    }
}

/// The envelope that a JSON text describes.
pub open spec fn envelope_of_text(text: Seq<char>) -> Decoded {
    match json_object_members(text) {
        None => Err(MalformedReason::NotAnObject),
        Some(ms) => envelope_of_members(ms),
    }
}

/// The envelope that an inbound payload carries.
pub open spec fn envelope_of_payload(payload: Seq<u8>) -> Decoded {
    if !valid_utf8(payload) {
        Err(MalformedReason::InvalidUtf8)
    } else {
        envelope_of_text(decode_utf8(payload))
    }
}

/// The members that the wire form of an envelope holds, in key order.
pub open spec fn members_written(e: EnvelopeModel) -> Seq<(Seq<char>, Seq<char>)> {
    seq![("args"@, json_string_list_literal(e.1)), ("command"@, json_string_literal(e.0))]
}

/// The wire form of an envelope: a JSON object with its `args` and `command` members.
pub open spec fn envelope_text(e: EnvelopeModel) -> Seq<char> {
    json_object_text(members_written(e))
}

/// Finds the value of the first member named `key`.
pub fn find_member(members: &Vec<(String, String)>, key: &str) -> (r: Option<String>)
    ensures
        r matches Some(v) ==> member(pairs_model(members@), key@) == Some(v@),
        r is None ==> member(pairs_model(members@), key@) is None,
{
    let ghost ms = pairs_model(members@);
    let mut i: usize = 0;
    while i < members.len()
        invariant
            ms == pairs_model(members@),
            0 <= i <= members@.len(),
            member(ms, key@) == member_from(ms, key@, i as int),
        decreases members@.len() - i,
    {
        if same_text(members[i].0.as_str(), key) {
            return Some(members[i].1.clone());
        }
        i = i + 1;
    }
    None
}

/// Reads an envelope out of the members of a JSON object.
pub fn envelope_from_members(members: &Vec<(String, String)>) -> (r: Result<
    CommandEnvelope,
    DecodeError,
>)
    ensures
        r matches Ok(e) ==> envelope_of_members(pairs_model(members@)) == Decoded::Ok(e@),
        r matches Err(DecodeError::MalformedMessage(why)) ==> envelope_of_members(
            pairs_model(members@),
        ) == Decoded::Err(why),
{
    proof {
        reveal_strlit("command");
        reveal_strlit("args");
    }
    let command = match find_member(members, "command") {
        None => return Err(DecodeError::MalformedMessage(MalformedReason::MissingCommand)),
        Some(raw) => match string_value(raw.as_str()) {
            Err(_) => return Err(DecodeError::MalformedMessage(MalformedReason::MissingCommand)),
            Ok(c) => c,
        },
    };
    let args = match find_member(members, "args") {
        None => return Err(DecodeError::MalformedMessage(MalformedReason::MissingArgs)),
        Some(raw) => match string_list_value(raw.as_str()) {
            Err(_) => return Err(DecodeError::MalformedMessage(MalformedReason::MissingArgs)),
            Ok(a) => a,
        },
    };
    Ok(CommandEnvelope { command, args })
}

/// Reads an envelope out of JSON text.
pub fn decode_text(text: &str) -> (r: Result<CommandEnvelope, DecodeError>)
    ensures
        r matches Ok(e) ==> envelope_of_text(text@) == Decoded::Ok(e@),
        r matches Err(DecodeError::MalformedMessage(why)) ==> envelope_of_text(text@)
            == Decoded::Err(why),
{
    match object_members(text) {
        Err(_) => Err(DecodeError::MalformedMessage(MalformedReason::NotAnObject)),
        Ok(members) => envelope_from_members(&members),
    }
}

/// Reads an envelope out of an inbound payload: UTF-8 text holding a JSON object
/// with a string `command` and a list of strings `args`; anything else is a
/// malformed message, with the first reason that applies.
pub fn decode_envelope(payload: &[u8]) -> (r: Result<CommandEnvelope, DecodeError>)
    ensures
        r matches Ok(e) ==> envelope_of_payload(payload@) == Decoded::Ok(e@),
        r matches Err(DecodeError::MalformedMessage(why)) ==> envelope_of_payload(payload@)
            == Decoded::Err(why),
{
    match utf8_text(payload) {
        None => Err(DecodeError::MalformedMessage(MalformedReason::InvalidUtf8)),
        Some(text) => decode_text(text.as_str()),
    }
}

/// Writes the wire form of an envelope. Reading that text back gives the same
/// command and the same arguments, in the same order.
pub fn encode_envelope(e: &CommandEnvelope) -> (r: String)
    ensures
        r@ == envelope_text(e@),
        envelope_of_text(r@) == Decoded::Ok(e@),
{
    let command = string_literal(e.command.as_str()).unwrap();
    let args = string_list_literal(&e.args).unwrap();
    let mut members: Vec<(String, String)> = Vec::new();
    members.push((String::from_str("args"), args));
    members.push((String::from_str("command"), command));
    proof {
        reveal_strlit("command");
        reveal_strlit("args");
        let ms = pairs_model(members@);
        assert(ms =~= members_written(e@));
        assert(text_less(ms[0].0, ms[1].0));
        assert(keys_ascending(ms));
        assert(unpadded(members@[0].1@));
        assert(unpadded(members@[1].1@));
        assert("command"@.len() != "args"@.len());
        assert(member_from(ms, "command"@, 1) == Some(command@));
        assert(member(ms, "command"@) == Some(command@));
        assert(member(ms, "args"@) == Some(args@));
        assert(forall|i: int|
            0 <= i < members@.len() ==> (json_string_of(#[trigger] members@[i].1@) is Some
                || json_string_list_of(members@[i].1@) is Some));
    }
    object_text(&members).unwrap()
}

} // verus!
