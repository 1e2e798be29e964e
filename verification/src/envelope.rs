//! The command envelope: the JSON object that a text frame may carry.

use vstd::prelude::*;
use crate::command::Command;
use crate::text::same_text;

verus! {

/// A decoded inbound message. The JSON member `type` is its kind.
#[derive(Debug, PartialEq, Eq)]
pub struct Envelope {
    pub kind: String,
    pub payload: String,
}

/// What a text frame asks of the actuator.
#[derive(Clone, Copy, Debug, PartialEq, Eq, Structural)]
pub enum Request {
    /// The frame carries a command envelope whose payload names this command.
    Run(Command),
    /// The frame carries a command envelope whose payload names no command.
    UnknownPayload,
    /// The frame carries an envelope of another kind.
    OtherKind,
    /// The frame carries no envelope.
    NotAnEnvelope,
}

/// The characters of an envelope.
pub struct EnvelopeView {
    pub kind: Seq<char>,
    pub payload: Seq<char>,
}

/// The string that `serde_json` hands out for `key` after it has read `text` as
/// a `Value`, if it hands one out: the outcome of `serde_json::from_str`,
/// `Value::get` and `Value::as_str` in a row, which depends on the two texts
/// alone.
///
/// Nothing here says which texts give a string. As `serde_json` has it: a text
/// that it does not accept as one JSON value gives none, and that includes a
/// text whose arrays and objects are nested 128 deep and a text with a number
/// too large for a finite float anywhere in it, also in a member that is not
/// asked for; a value that is not an object gives none, an array of two
/// strings included; a member that is not a string gives none; and of a key
/// that occurs more than once the last occurrence counts. In the last point
/// and in the one on numbers this differs from decoding into a struct with the
/// two members as fields, which refuses a repeated key and passes over the
/// members it does not know without decoding them.
pub uninterp spec fn json_string_member(text: Seq<char>, key: Seq<char>) -> Option<Seq<char>>;

/// Name of the member that holds an envelope's kind.
pub open spec fn kind_key() -> Seq<char> {
    "type"@
}

/// Name of the member that holds an envelope's payload.
pub open spec fn payload_key() -> Seq<char> {
    "payload"@
}

/// The kind that marks an envelope as a command.
pub open spec fn command_kind() -> Seq<char> {
    "cmd"@
}

/// The envelope made of two members, if both are there.
pub open spec fn assembled(kind: Option<Seq<char>>, payload: Option<Seq<char>>) -> Option<
    EnvelopeView,
> {
    match (kind, payload) {
        (Some(kind), Some(payload)) => Some(EnvelopeView { kind, payload }),
        _ => None,
    }
}

/// The envelope that a text carries, if it carries one.
pub open spec fn decoded(text: Seq<char>) -> Option<EnvelopeView> {
    assembled(json_string_member(text, kind_key()), json_string_member(text, payload_key()))
}

/// What a frame asks of the actuator, given the envelope that was decoded from
/// it, if one was.
pub open spec fn requested(envelope: Option<EnvelopeView>) -> Request {
    match envelope {
        Some(envelope) => envelope.request(),
        None => Request::NotAnEnvelope,
    }
}

/// What a text asks of the actuator.
pub open spec fn request_in(text: Seq<char>) -> Request {
    requested(decoded(text))
}

impl Request {
    /// The command to carry out, if there is one.
    pub open spec fn spec_command(self) -> Option<Command> {
        match self {
            Request::Run(command) => Some(command),
            _ => None,
        }
    }

    /// What a frame asks of the actuator, given the envelope that was decoded
    /// from it, if one was.
    pub fn of(envelope: Option<Envelope>) -> (request: Request)
        ensures
            request == requested(envelope.deep_view()),
    {
        match envelope {
            Some(envelope) => envelope.request(),
            None => Request::NotAnEnvelope,
        }
    }

    /// The command to carry out, if there is one.
    #[verifier::when_used_as_spec(spec_command)]
    pub fn command(self) -> (command: Option<Command>)
        ensures
            command == self.spec_command(),
    {
        match self {
            Request::Run(command) => Some(command),
            _ => None,
        }
    }
}

impl EnvelopeView {
    /// What the envelope asks of the actuator: the command that its payload
    /// names, if its kind is the command kind and the payload names one.
    pub open spec fn request(self) -> Request {
        if self.kind != command_kind() {
            Request::OtherKind
        } else {
            match Command::named_by(self.payload) {
                Some(command) => Request::Run(command),
                None => Request::UnknownPayload,
            }
        }
    }
}

impl View for Envelope {
    type V = EnvelopeView;

    open spec fn view(&self) -> EnvelopeView {
        EnvelopeView { kind: self.kind@, payload: self.payload@ }
    }
}

impl DeepView for Envelope {
    type V = EnvelopeView;

    open spec fn deep_view(&self) -> EnvelopeView {
        self@
    }
}

/// Calls `serde_json::from_str` to read `text` as a `serde_json::Value`, then
/// `Value::get` and `Value::as_str` to pick the string under `key`. The
/// contract gives that outcome its name and claims nothing more: not which
/// texts have such a member, and not that the outcome is that of any other
/// JSON decoder. See [`json_string_member`] for what is known of it.
#[verifier::external_body]
fn string_member(text: &str, key: &str) -> (member: Option<String>)
    ensures
        member.deep_view() == json_string_member(text@, key@),
{
    let document: serde_json::Value = serde_json::from_str(text).ok()?;
    document.get(key)?.as_str().map(String::from)
}

impl Envelope {
    /// Puts an envelope together from the two members read out of a message.
    pub fn assemble(kind: Option<String>, payload: Option<String>) -> (envelope: Option<Envelope>)
        ensures
            envelope.deep_view() == assembled(kind.deep_view(), payload.deep_view()),
    {
        match (kind, payload) {
            (Some(kind), Some(payload)) => Some(Envelope { kind, payload }),
            _ => None,
        }
    }

    /// Decodes the envelope that a text frame carries.
    pub fn decode(text: &str) -> (envelope: Option<Envelope>)
        ensures
            envelope.deep_view() == decoded(text@),
    {
        let kind = string_member(text, "type");
        let payload = string_member(text, "payload");
        Envelope::assemble(kind, payload)
    }

    /// What the envelope asks of the actuator.
    pub fn request(&self) -> (request: Request)
        ensures
            request == self@.request(),
    {
        if !same_text(self.kind.as_str(), "cmd") {
            Request::OtherKind
        } else {
            match Command::from_payload(self.payload.as_str()) {
                Some(command) => Request::Run(command),
                None => Request::UnknownPayload,
            }
        }
    }
}

/// What a text frame asks of the actuator.
pub fn decide(text: &str) -> (request: Request)
    ensures
        request == request_in(text@),
{
    Request::of(Envelope::decode(text))
}

} // verus!
