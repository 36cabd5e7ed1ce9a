//! The contract between the engine and a plugin: the names of a plugin's entry
//! points, and the JSON response that every call returns.
//!
//! A plugin for the resource `R` exports `RValidate`, `RApply` and, if it
//! likes, `RDumpLua`. The first two take a JSON object and answer with a JSON
//! object `{ state, message, raw_module, module }`. `state` is `"Success"` or
//! `"Error"`; `raw_module` is itself JSON text and must be there on success;
//! `module` is filled in by the engine and ignored on the wire.

use crate::json::{
    json_is_null, json_member, json_parse, json_render, json_string, member, null_value,
    object_value, parse, render, string_of, text_value,
};
use crate::text::same_text;
use crate::ExecutionPhase;
use vstd::prelude::*;
use vstd::string::StringExecFns;
use vstd::utf8::{decode_utf8, valid_utf8};

verus! {

/// A loaded plugin, as the engine calls it. Nothing is assumed of an
/// implementation: the engine is verified for whatever a call returns.
pub trait PluginLibrary {
    /// Whether the library exports the entry point `symbol`.
    fn exports(&self, symbol: &str) -> bool;

    /// Calls the entry point `symbol` with `input`, a JSON object as text, and
    /// hands back the bytes that it returned. Fails where the call cannot be
    /// made, as when the library has no such symbol.
    fn call(&self, symbol: &str, input: &str) -> Result<Vec<u8>, String>;

    /// Calls the entry point `symbol`, which takes nothing, and hands back the
    /// bytes that it returned.
    fn describe(&self, symbol: &str) -> Result<Vec<u8>, String>;
}

/// Whether the plugin did what it was asked.
#[derive(Debug, Clone, Copy, PartialEq, Eq, Structural)]
pub enum CaravelModuleResponseState {
    Success,
    Error,
}

/// What a plugin answered.
///
/// Once the engine has read a response it is [`resolved`](Self::resolved):
/// on `Error` there is no `module`, on `Success` `module` is the document that
/// `raw_module` spells.
#[derive(Debug, Clone, PartialEq)]
pub struct CaravelModuleResponse {
    pub state: CaravelModuleResponseState,
    pub message: String,
    pub raw_module: String,
    pub module: Option<serde_json::Value>,
}

/// Mathematical value of a [`CaravelModuleResponse`].
pub struct ResponseModel {
    pub state: CaravelModuleResponseState,
    pub message: Seq<char>,
    pub raw_module: Seq<char>,
    pub module: Option<serde_json::Value>,
}

impl View for CaravelModuleResponse {
    type V = ResponseModel;

    open spec fn view(&self) -> ResponseModel {
        ResponseModel {
            state: self.state,
            message: self.message@,
            raw_module: self.raw_module@,
            module: self.module,
        }
    }
}

impl ResponseModel {
    /// The invariant of a response that the engine has read.
    pub open spec fn resolved(self) -> bool {
        match self.state {
            CaravelModuleResponseState::Error => self.module is None,
            CaravelModuleResponseState::Success => self.module is Some && self.module
                == json_parse(self.raw_module),
        }
    }
}

impl CaravelModuleResponse {
    /// The invariant of a response that the engine has read.
    pub open spec fn resolved(&self) -> bool {
        self@.resolved()
    }
}

/// How a plugin broke the response protocol.
#[derive(Debug, Clone, Copy, PartialEq, Eq, Structural)]
pub enum ProtocolError {
    /// The bytes are not UTF-8.
    InvalidUtf8,
    /// The text is not JSON.
    InvalidJson,
    /// The document is not a response: `state` is not one of the two names,
    /// `message` is no string, or `raw_module` is no string or is missing from
    /// a success.
    SchemaMismatch,
    /// A success whose `raw_module` is not JSON.
    InvalidModule,
}

impl ProtocolError {
    /// The text that reports this failure.
    pub open spec fn text(self) -> Seq<char> {
        match self {
            ProtocolError::InvalidUtf8 => "plugin response is not UTF-8"@,
            ProtocolError::InvalidJson => "plugin response is not JSON"@,
            ProtocolError::SchemaMismatch => "plugin response does not follow the response schema"@,
            ProtocolError::InvalidModule => "plugin response holds a raw_module that is not JSON"@,
        }
    }

    /// The text that reports this failure.
    pub fn message(&self) -> (s: String)
        ensures
            s@ == self.text(),
    {
        match self {
            ProtocolError::InvalidUtf8 => "plugin response is not UTF-8".to_string(),
            ProtocolError::InvalidJson => "plugin response is not JSON".to_string(),
            ProtocolError::SchemaMismatch => {
                "plugin response does not follow the response schema".to_string()
            },
            ProtocolError::InvalidModule => {
                "plugin response holds a raw_module that is not JSON".to_string()
            },
        }
    }
}

/// What follows the resource's name in the entry point of `phase`.
pub open spec fn phase_suffix(phase: ExecutionPhase) -> Seq<char> {
    match phase {
        ExecutionPhase::Validating => "Validate"@,
        ExecutionPhase::Applying => "Apply"@,
    }
}

/// The wire name of a state.
pub open spec fn state_text(state: CaravelModuleResponseState) -> Seq<char> {
    match state {
        CaravelModuleResponseState::Success => "Success"@,
        CaravelModuleResponseState::Error => "Error"@,
    }
}

/// The state that a wire name stands for.
pub open spec fn state_named(text: Seq<char>) -> Option<CaravelModuleResponseState> {
    if text == "Success"@ {
        Some(CaravelModuleResponseState::Success)
    } else if text == "Error"@ {
        Some(CaravelModuleResponseState::Error)
    } else {
        None
    }
}

/// The characters of the string member `key` of `doc`.
pub open spec fn member_text(doc: serde_json::Value, key: Seq<char>) -> Option<Seq<char>> {
    match json_member(doc, key) {
        Some(found) => json_string(found),
        None => None,
    }
}

/// The `raw_module` of a response document: a string where the member is
/// there, empty where an error leaves it out.
pub open spec fn raw_module_of(doc: serde_json::Value, state: CaravelModuleResponseState) -> Option<
    Seq<char>,
> {
    match json_member(doc, "raw_module"@) {
        Some(found) => json_string(found),
        None => if state == CaravelModuleResponseState::Error {
            Some(Seq::<char>::empty())
        } else {
            None
        },
    }
}

/// The response with its `module` filled in from `raw_module`.
pub open spec fn resolve_spec(
    state: CaravelModuleResponseState,
    message: Seq<char>,
    raw_module: Seq<char>,
) -> Result<ResponseModel, ProtocolError> {
    match state {
        CaravelModuleResponseState::Error => Ok(
            ResponseModel { state, message, raw_module, module: None },
        ),
        CaravelModuleResponseState::Success => match json_parse(raw_module) {
            Some(module) => Ok(ResponseModel { state, message, raw_module, module: Some(module) }),
            None => Err(ProtocolError::InvalidModule),
        },
    }
}

/// The response that a JSON document holds.
pub open spec fn read_spec(doc: serde_json::Value) -> Result<ResponseModel, ProtocolError> {
    match member_text(doc, "state"@) {
        None => Err(ProtocolError::SchemaMismatch),
        Some(name) => match state_named(name) {
            None => Err(ProtocolError::SchemaMismatch),
            Some(state) => match member_text(doc, "message"@) {
                None => Err(ProtocolError::SchemaMismatch),
                Some(message) => match raw_module_of(doc, state) {
                    None => Err(ProtocolError::SchemaMismatch),
                    Some(raw_module) => resolve_spec(state, message, raw_module),
                },
            },
        },
    }
}

/// The response that a text holds.
pub open spec fn parse_spec(text: Seq<char>) -> Result<ResponseModel, ProtocolError> {
    match json_parse(text) {
        None => Err(ProtocolError::InvalidJson),
        Some(doc) => read_spec(doc),
    }
}

/// The response that the bytes returned by a plugin hold.
pub open spec fn decode_spec(bytes: Seq<u8>) -> Result<ResponseModel, ProtocolError> {
    if valid_utf8(bytes) {
        parse_spec(decode_utf8(bytes))
    } else {
        Err(ProtocolError::InvalidUtf8)
    }
}

/// `result` is `expected`, the response taken by its value.
pub open spec fn agrees(
    result: Result<CaravelModuleResponse, ProtocolError>,
    expected: Result<ResponseModel, ProtocolError>,
) -> bool {
    match result {
        Ok(response) => expected == Ok::<ResponseModel, ProtocolError>(response@),
        Err(e) => expected == Err::<ResponseModel, ProtocolError>(e),
    }
}

/// `core::str::from_utf8`, with its error dropped: `Some` exactly for valid
/// UTF-8, and then the text whose encoding is `bytes`.
#[verifier::external_body]
pub(crate) fn utf8_text(bytes: &[u8]) -> (r: Option<&str>)
    ensures
        r is Some <==> valid_utf8(bytes@),
        r matches Some(text) ==> text@ == decode_utf8(bytes@),
{
    core::str::from_utf8(bytes).ok()
}

/// The name of the symbol that a plugin for `name` exports for `phase`:
/// `name` followed by `Validate` or `Apply`.
pub fn entry_point(name: &str, phase: ExecutionPhase) -> (symbol: String)
    ensures
        symbol@ == name@ + phase_suffix(phase),
{
    match phase {
        ExecutionPhase::Validating => name.to_string().concat("Validate"),
        ExecutionPhase::Applying => name.to_string().concat("Apply"),
    }
}

/// The two phases call different entry points of a plugin.
pub proof fn entry_points_differ(name: Seq<char>)
    ensures
        name + phase_suffix(ExecutionPhase::Validating) != name + phase_suffix(
            ExecutionPhase::Applying,
        ),
{
    reveal_strlit("Validate");
    reveal_strlit("Apply");
    assert((name + "Validate"@).len() != (name + "Apply"@).len());
}

/// The name of the symbol under which a plugin for `name` may export its
/// schema description: `name` followed by `DumpLua`.
pub fn schema_entry_point(name: &str) -> (symbol: String)
    ensures
        symbol@ == name@ + "DumpLua"@,
{
    name.to_string().concat("DumpLua")
}

fn state_of(name: &str) -> (r: Option<CaravelModuleResponseState>)
    ensures
        r == state_named(name@),
{
    if same_text(name, "Success") {
        Some(CaravelModuleResponseState::Success)
    } else if same_text(name, "Error") {
        Some(CaravelModuleResponseState::Error)
    } else {
        None
    }
}

fn text_member(doc: &serde_json::Value, key: &str) -> (r: Option<String>)
    ensures
        match r {
            Some(text) => member_text(*doc, key@) == Some(text@),
            None => member_text(*doc, key@) is None,
        },
{
    match member(doc, key) {
        Some(found) => match string_of(found) {
            Some(text) => Some(text.to_string()),
            None => None,
        },
        None => None,
    }
}

fn raw_module_member(doc: &serde_json::Value, state: CaravelModuleResponseState) -> (r: Option<
    String,
>)
    ensures
        match r {
            Some(text) => raw_module_of(*doc, state) == Some(text@),
            None => raw_module_of(*doc, state) is None,
        },
{
    match member(doc, "raw_module") {
        Some(found) => match string_of(found) {
            Some(text) => Some(text.to_string()),
            None => None,
        },
        None => match state {
            CaravelModuleResponseState::Error => Some(String::new()),
            CaravelModuleResponseState::Success => None,
        },
    }
}

/// Fills in `module`: on `Success` the document that `raw_module` spells, which
/// must be JSON; on `Error` nothing.
pub fn resolve(state: CaravelModuleResponseState, message: String, raw_module: String) -> (r:
    Result<CaravelModuleResponse, ProtocolError>)
    ensures
        agrees(r, resolve_spec(state, message@, raw_module@)),
        r matches Ok(response) ==> response.resolved(),
        state == CaravelModuleResponseState::Error ==> r is Ok,
{
    match state {
        CaravelModuleResponseState::Error => Ok(
            CaravelModuleResponse { state, message, raw_module, module: None },
        ),
        CaravelModuleResponseState::Success => match parse(raw_module.as_str()) {
            Ok(module) => Ok(
                CaravelModuleResponse { state, message, raw_module, module: Some(module) },
            ),
            Err(_) => Err(ProtocolError::InvalidModule),
        },
    }
}

/// Reads a response out of a JSON document.
pub fn read_response(doc: &serde_json::Value) -> (r: Result<CaravelModuleResponse, ProtocolError>)
    ensures
        agrees(r, read_spec(*doc)),
        r matches Ok(response) ==> response.resolved(),
{
    let name = match text_member(doc, "state") {
        Some(name) => name,
        None => { return Err(ProtocolError::SchemaMismatch); },
    };
    let state = match state_of(name.as_str()) {
        Some(state) => state,
        None => { return Err(ProtocolError::SchemaMismatch); },
    };
    let message = match text_member(doc, "message") {
        Some(message) => message,
        None => { return Err(ProtocolError::SchemaMismatch); },
    };
    let raw_module = match raw_module_member(doc, state) {
        Some(raw_module) => raw_module,
        None => { return Err(ProtocolError::SchemaMismatch); },
    };
    resolve(state, message, raw_module)
}

/// Reads a response out of JSON text.
pub fn parse_response(text: &str) -> (r: Result<CaravelModuleResponse, ProtocolError>)
    ensures
        agrees(r, parse_spec(text@)),
        r matches Ok(response) ==> response.resolved(),
{
    match parse(text) {
        Ok(doc) => read_response(&doc),
        Err(_) => Err(ProtocolError::InvalidJson),
    }
}

/// Reads a response out of the bytes that a plugin returned.
pub fn decode_response(bytes: &[u8]) -> (r: Result<CaravelModuleResponse, ProtocolError>)
    ensures
        agrees(r, decode_spec(bytes@)),
        r matches Ok(response) ==> response.resolved(),
{
    match utf8_text(bytes) {
        Some(text) => parse_response(text),
        None => Err(ProtocolError::InvalidUtf8),
    }
}

/// Every response that can be read is resolved: a success carries the document
/// that its `raw_module` spells, an error carries none.
pub proof fn decoded_is_resolved(bytes: Seq<u8>)
    ensures
        decode_spec(bytes) matches Ok(response) ==> response.resolved(),
{
}

/// `doc` is the wire form of `response`: the four members and no other.
pub open spec fn spells(doc: serde_json::Value, response: ResponseModel) -> bool {
    &&& member_text(doc, "state"@) == Some(state_text(response.state))
    &&& member_text(doc, "message"@) == Some(response.message)
    &&& member_text(doc, "raw_module"@) == Some(response.raw_module)
    &&& match json_member(doc, "module"@) {
        Some(found) => match response.module {
            Some(module) => found == module,
            None => json_is_null(found),
        },
        None => false,
    }
    &&& forall|key: Seq<char>|
        key != "state"@ && key != "message"@ && key != "raw_module"@ && key != "module"@
            ==> #[trigger] json_member(doc, key) is None
}

fn state_label(state: CaravelModuleResponseState) -> (r: String)
    ensures
        r@ == state_text(state),
{
    match state {
        CaravelModuleResponseState::Success => "Success".to_string(),
        CaravelModuleResponseState::Error => "Error".to_string(),
    }
}

/// The members of a list of four entries, looked up by key.
proof fn four_entries(entries: Seq<(String, serde_json::Value)>, key: Seq<char>)
    requires
        entries.len() == 4,
        crate::json::distinct_keys(entries),
    ensures
        key == entries[0].0@ ==> crate::json::entry_under(entries, key) == Some(entries[0].1),
        key == entries[1].0@ ==> crate::json::entry_under(entries, key) == Some(entries[1].1),
        key == entries[2].0@ ==> crate::json::entry_under(entries, key) == Some(entries[2].1),
        key == entries[3].0@ ==> crate::json::entry_under(entries, key) == Some(entries[3].1),
        key != entries[0].0@ && key != entries[1].0@ && key != entries[2].0@ && key
            != entries[3].0@ ==> crate::json::entry_under(entries, key) is None,
{
    let three = entries.drop_last();
    let two = three.drop_last();
    let one = two.drop_last();
    let none = one.drop_last();
    assert(three.last() == entries[2]);
    assert(two.last() == entries[1]);
    assert(one.last() == entries[0]);
    assert(none.len() == 0);
    reveal_with_fuel(crate::json::entry_under, 5);
}

/// The JSON object that carries `response` over the wire.
pub fn response_document(response: CaravelModuleResponse) -> (doc: serde_json::Value)
    ensures
        spells(doc, response@),
{
    let state = text_value(state_label(response.state));
    let message = text_value(response.message);
    let raw_module = text_value(response.raw_module);
    let module = match response.module {
        Some(module) => module,
        None => null_value(),
    };
    let mut entries: Vec<(String, serde_json::Value)> = Vec::new();
    entries.push(("state".to_string(), state));
    entries.push(("message".to_string(), message));
    entries.push(("raw_module".to_string(), raw_module));
    entries.push(("module".to_string(), module));
    let ghost listed = entries@;
    proof {
        reveal_strlit("state");
        reveal_strlit("message");
        reveal_strlit("raw_module");
        reveal_strlit("module");
        assert(listed[0].0@ == "state"@ && listed[1].0@ == "message"@);
        assert(listed[2].0@ == "raw_module"@ && listed[3].0@ == "module"@);
        assert(listed[0].0@.len() == 5 && listed[1].0@.len() == 7);
        assert(listed[2].0@.len() == 10 && listed[3].0@.len() == 6);
        assert(crate::json::distinct_keys(listed));
    }
    let doc = object_value(entries);
    proof {
        four_entries(listed, "state"@);
        four_entries(listed, "message"@);
        four_entries(listed, "raw_module"@);
        four_entries(listed, "module"@);
        assert forall|key: Seq<char>|
            key != "state"@ && key != "message"@ && key != "raw_module"@ && key != "module"@
                implies #[trigger] json_member(doc, key) is None by {
            four_entries(listed, key);
        }
    }
    doc
}

/// `text` is the compact text of `doc`, which is the wire form of `response`.
pub open spec fn wire_text(text: Seq<char>, doc: serde_json::Value, response: ResponseModel) -> bool {
    spells(doc, response) && text == json_render(doc)
}

/// The JSON text that carries `response` over the wire.
pub fn encode_response(response: CaravelModuleResponse) -> (text: String)
    ensures
        exists|doc: serde_json::Value| #[trigger] wire_text(text@, doc, response@),
{
    let ghost sent = response@;
    let doc = response_document(response);
    let text = render(&doc);
    assert(wire_text(text@, doc, sent));
    text
}

/// Reading the wire form of a response gives the response back, resolved.
pub proof fn read_what_was_spelled(doc: serde_json::Value, response: ResponseModel)
    requires
        spells(doc, response),
    ensures
        read_spec(doc) == resolve_spec(response.state, response.message, response.raw_module),
{
    reveal_strlit("Success");
    reveal_strlit("Error");
    assert(state_named(state_text(response.state)) == Some(response.state)) by {
        assert("Success"@.len() != "Error"@.len());
    }
}

} // verus!
