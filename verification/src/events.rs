//! The events that a host and an agent exchange, and what the agent answers.
//!
//! The host asks with `Query` and gets `Capabilities` with a token; it sends
//! `Dependencies` and gets `Assembled`; it sends `ApplyManifest` with the
//! manifest as payload, the agent runs it and answers `ApplySuccess` or
//! `Error`.

use crate::controller::{run, RunError};
use crate::manifest::ManifestScript;
use crate::protocol::{utf8_text, PluginLibrary};
use crate::registry::ModuleDescriptor;
use crate::util::generate_token;
use vstd::prelude::*;
use vstd::string::StringExecFns;
use vstd::utf8::{decode_utf8, valid_utf8};

verus! {

/// What a query asks for.
#[derive(Debug, Clone, Copy, PartialEq, Eq, Structural)]
pub enum QueryType {
    Health,
    Features,
}

/// The kinds of event.
#[derive(Debug, Clone, PartialEq, Eq)]
pub enum EventType {
    /// Something went wrong; the message says what.
    Error,
    /// The host asks what the agent can do.
    Query,
    /// The agent's answer to a query, with the token to use from then on.
    Capabilities { token: String },
    /// The host sends the plugins that the agent lacks.
    Dependencies,
    /// The agent has put the plugins in place.
    Assembled,
    /// The host sends a manifest to apply.
    ApplyManifest,
    /// The agent has applied the manifest.
    ApplySuccess,
}

/// Why an event could not be answered.
#[derive(Debug, Clone, Copy, PartialEq, Eq, Structural)]
pub enum EventError {
    InvalidEvent,
}

impl EventError {
    /// The text that reports this failure.
    pub open spec fn text(self) -> Seq<char> {
        "Invalid event format"@
    }

    /// The text that reports this failure.
    pub fn message(&self) -> (s: String)
        ensures
            s@ == self.text(),
    {
        "Invalid event format".to_string()
    }
}

/// What an event carries besides its message.
#[derive(Debug, Clone, PartialEq, Eq)]
pub enum EventPayload {
    /// The bytes of a manifest.
    Manifest(Vec<u8>),
}

/// One event. `id` is made anew for every event.
#[derive(Debug, Clone, PartialEq, Eq)]
pub struct Event {
    pub class: EventType,
    pub id: String,
    pub message: Option<String>,
    pub payload: Option<EventPayload>,
}

/// HTTP status `200 OK`.
pub const STATUS_OK: u16 = 200;

/// HTTP status `202 Accepted`.
pub const STATUS_ACCEPTED: u16 = 202;

/// HTTP status `400 Bad Request`.
pub const STATUS_BAD_REQUEST: u16 = 400;

/// HTTP status `500 Internal Server Error`.
pub const STATUS_INTERNAL_SERVER_ERROR: u16 = 500;

/// The name under which a manifest that came with an event is run.
pub open spec fn received_name() -> Seq<char> {
    "manifest"@
}

/// Whether `c` is a digit of base sixteen, in lower case.
pub open spec fn is_lower_hex(c: char) -> bool {
    '0' <= c <= '9' || 'a' <= c <= 'f'
}

/// Whether `id` is an identifier in the hyphenated form: 36 characters, of
/// which the ninth, the fourteenth, the nineteenth and the twenty-fourth are
/// hyphens and the others digits of base sixteen in lower case.
pub open spec fn hyphenated(id: Seq<char>) -> bool {
    &&& id.len() == 36
    &&& forall|i: int|
        0 <= i < 36 ==> if i == 8 || i == 13 || i == 18 || i == 23 {
            #[trigger] id[i] == '-'
        } else {
            is_lower_hex(id[i])
        }
}

/// `Uuid::new_v4` and its `Display`: a random identifier in the hyphenated
/// form.
#[verifier::external_body]
fn fresh_id() -> (id: String)
    ensures
        hyphenated(id@),
{
    uuid::Uuid::new_v4().to_string()
}

impl Event {
    /// The characters of the message, if there is one.
    pub open spec fn message_text(&self) -> Option<Seq<char>> {
        match self.message {
            Some(message) => Some(message@),
            None => None,
        }
    }

    /// This event is of kind `class`, says `message` and carries nothing.
    pub open spec fn says(&self, class: EventType, message: Seq<char>) -> bool {
        &&& self.class == class
        &&& self.message_text() == Some(message)
        &&& self.payload is None
        &&& hyphenated(self.id@)
    }

    /// This event offers the agent's capabilities, with the token.
    pub open spec fn offers_capabilities(&self) -> bool {
        &&& self.class matches EventType::Capabilities { token }
        &&& token@ == "spiderman"@
        &&& self.message_text() == Some("sample capabilities response"@)
        &&& self.payload is None
        &&& hyphenated(self.id@)
    }

    /// A new event of kind `class`, with a fresh id and neither message nor
    /// payload.
    pub fn new(class: EventType) -> (event: Event)
        ensures
            event.class == class,
            event.message is None,
            event.payload is None,
            hyphenated(event.id@),
    {
        Event { class, id: fresh_id(), message: None, payload: None }
    }

    /// This event with `message` as its message.
    pub fn message(self, message: String) -> (event: Event)
        ensures
            event.message == Some(message),
            event.class == self.class,
            event.id == self.id,
            event.payload == self.payload,
    {
        let mut event = self;
        event.message = Some(message);
        event
    }

    /// This event with `payload` as its payload.
    pub fn payload(self, payload: EventPayload) -> (event: Event)
        ensures
            event.payload == Some(payload),
            event.class == self.class,
            event.id == self.id,
            event.message == self.message,
    {
        let mut event = self;
        event.payload = Some(payload);
        event
    }
}

/// The answer to a query: the agent's capabilities, with the token.
pub fn gather_capabilities() -> (r: Result<Event, EventError>)
    ensures
        r matches Ok(event) && event.offers_capabilities(),
{
    let class = EventType::Capabilities { token: generate_token() };
    Ok(Event::new(class).message("sample capabilities response".to_string()))
}

/// The answer to the plugins that the host sent.
pub fn receive_dependencies() -> (r: Result<Event, EventError>)
    ensures
        r matches Ok(event) && event.says(EventType::Assembled, "received dependencies"@),
{
    Ok(Event::new(EventType::Assembled).message("received dependencies".to_string()))
}

/// An `Error` event that says `message`.
fn error_reply(status: u16, message: String) -> (r: (u16, Event))
    ensures
        r.0 == status,
        r.1.says(EventType::Error, message@),
{
    (status, Event::new(EventType::Error).message(message))
}

/// The answer to a manifest that was run with the result `result`:
/// `ApplySuccess`, or an `Error` with the message of the failure.
pub fn report(result: Result<(), RunError>) -> (r: (u16, Event))
    ensures
        match result {
            Ok(_) => r.0 == STATUS_OK && r.1.says(EventType::ApplySuccess, "applied manifest"@),
            Err(error) => r.0 == STATUS_INTERNAL_SERVER_ERROR && r.1.says(
                EventType::Error,
                error.text(),
            ),
        },
{
    match result {
        Ok(_) => (
            STATUS_OK,
            Event::new(EventType::ApplySuccess).message("applied manifest".to_string()),
        ),
        Err(error) => error_reply(STATUS_INTERNAL_SERVER_ERROR, error.message()),
    }
}

/// What an event asks of the agent.
pub enum Request {
    /// Answer with this status and event.
    Answer(u16, Event),
    /// Run this manifest and answer with [`report`].
    Execute(ManifestScript),
}

/// Decides what `event` asks of the agent.
///
/// A query is answered with the capabilities, dependencies with `Assembled`.
/// `ApplyManifest` asks to run its payload, which must be there and be UTF-8
/// text. Any other event is refused.
pub fn dispatch(event: Event) -> (request: Request)
    ensures
        match event.class {
            EventType::Query => request matches Request::Answer(status, reply) && status
                == STATUS_OK && reply.offers_capabilities(),
            EventType::Dependencies => request matches Request::Answer(status, reply) && status
                == STATUS_OK && reply.says(EventType::Assembled, "received dependencies"@),
            EventType::ApplyManifest => match event.payload {
                None => request matches Request::Answer(status, reply) && status
                    == STATUS_BAD_REQUEST && reply.says(
                    EventType::Error,
                    "ApplyManifest events must have a payload"@,
                ),
                Some(EventPayload::Manifest(bytes)) => if valid_utf8(bytes@) {
                    request matches Request::Execute(manifest) && manifest.source_text@
                        == decode_utf8(bytes@) && manifest.display_name@ == received_name()
                } else {
                    request matches Request::Answer(status, reply) && status
                        == STATUS_BAD_REQUEST && reply.says(
                        EventType::Error,
                        "ApplyManifest payload must be UTF-8 text"@,
                    )
                },
            },
            _ => request matches Request::Answer(status, reply) && status == STATUS_BAD_REQUEST
                && reply.says(EventType::Error, "Invalid event type"@),
        },
{
    match event.class {
        EventType::Query => match gather_capabilities() {
            Ok(reply) => Request::Answer(STATUS_OK, reply),
            Err(e) => {
                let (status, reply) = error_reply(
                    STATUS_INTERNAL_SERVER_ERROR,
                    "Failed to gather capabilities: ".to_string().concat(e.message().as_str()),
                );
                Request::Answer(status, reply)
            },
        },
        EventType::Dependencies => match receive_dependencies() {
            Ok(reply) => Request::Answer(STATUS_OK, reply),
            Err(e) => {
                let (status, reply) = error_reply(
                    STATUS_INTERNAL_SERVER_ERROR,
                    "Failed to receive dependencies: ".to_string().concat(e.message().as_str()),
                );
                Request::Answer(status, reply)
            },
        },
        EventType::ApplyManifest => match event.payload {
            None => {
                let (status, reply) = error_reply(
                    STATUS_BAD_REQUEST,
                    "ApplyManifest events must have a payload".to_string(),
                );
                Request::Answer(status, reply)
            },
            Some(EventPayload::Manifest(bytes)) => match utf8_text(bytes.as_slice()) {
                Some(text) => Request::Execute(
                    ManifestScript::new(text.to_string(), "manifest".to_string()),
                ),
                None => {
                    let (status, reply) = error_reply(
                        STATUS_BAD_REQUEST,
                        "ApplyManifest payload must be UTF-8 text".to_string(),
                    );
                    Request::Answer(status, reply)
                },
            },
        },
        _ => {
            let (status, reply) = error_reply(
                STATUS_BAD_REQUEST,
                "Invalid event type".to_string(),
            );
            Request::Answer(status, reply)
        },
    }
}

/// Decides what an event that carries its manifest as its message asks of the
/// agent. Only `ApplyManifest` is accepted, and it must have a message: the
/// message is then the text of the manifest to run.
pub fn receive(event: Event) -> (r: Request)
    ensures
        match event.class {
            EventType::ApplyManifest => match event.message {
                Some(message) => r matches Request::Execute(manifest) && manifest.source_text
                    == message && manifest.display_name@ == received_name(),
                None => r matches Request::Answer(status, reply) && status == STATUS_BAD_REQUEST
                    && reply.says(EventType::Error, "Apply events must have a message"@),
            },
            _ => r matches Request::Answer(status, reply) && status == STATUS_BAD_REQUEST
                && reply.says(EventType::Error, "Only Apply events are accepted"@),
        },
{
    match event.class {
        EventType::ApplyManifest => match event.message {
            Some(message) => Request::Execute(
                ManifestScript::new(message, "manifest".to_string()),
            ),
            None => {
                let (status, reply) = error_reply(
                    STATUS_BAD_REQUEST,
                    "Apply events must have a message".to_string(),
                );
                Request::Answer(status, reply)
            },
        },
        _ => {
            let (status, reply) = error_reply(
                STATUS_BAD_REQUEST,
                "Only Apply events are accepted".to_string(),
            );
            Request::Answer(status, reply)
        },
    }
}

/// Answers `event`: what [`dispatch`] decides, and for a manifest the
/// [`report`] of running it against `modules`, which are borrowed exclusively
/// meanwhile.
pub fn handler<H: PluginLibrary + Clone + 'static>(
    event: Event,
    modules: &mut Vec<ModuleDescriptor<H>>,
) -> (r: (u16, Event))
    ensures
        *final(modules) == *old(modules),
        hyphenated(r.1.id@),
        r.1.payload is None,
        match event.class {
            EventType::Query => r.0 == STATUS_OK && r.1.offers_capabilities(),
            EventType::Dependencies => r.0 == STATUS_OK && r.1.says(
                EventType::Assembled,
                "received dependencies"@,
            ),
            EventType::ApplyManifest => match event.payload {
                None => r.0 == STATUS_BAD_REQUEST && r.1.says(
                    EventType::Error,
                    "ApplyManifest events must have a payload"@,
                ),
                Some(EventPayload::Manifest(bytes)) => if valid_utf8(bytes@) {
                    ||| r.0 == STATUS_OK && r.1.says(EventType::ApplySuccess, "applied manifest"@)
                    ||| r.0 == STATUS_INTERNAL_SERVER_ERROR && r.1.class == EventType::Error
                        && r.1.message is Some
                } else {
                    r.0 == STATUS_BAD_REQUEST && r.1.says(
                        EventType::Error,
                        "ApplyManifest payload must be UTF-8 text"@,
                    )
                },
            },
            _ => r.0 == STATUS_BAD_REQUEST && r.1.says(EventType::Error, "Invalid event type"@),
        },
{
    match dispatch(event) {
        Request::Answer(status, reply) => (status, reply),
        Request::Execute(manifest) => report(run(&manifest, modules)),
    }
}

} // verus!
