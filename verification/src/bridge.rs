//! The scripting bridge: a Lua state in which every registered plugin is a
//! global function.
//!
//! A manifest calls the binding of a resource with one table. The bridge turns
//! the table into JSON, calls the plugin's entry point for the phase, reads the
//! response, and hands the script a table with the response's members, or
//! raises an error in the script: a syntax error while validating, a runtime
//! error while applying. What goes wrong at the plugin's boundary is no
//! script error: it is set aside in the Lua state and fails the run as a
//! whole.
//!
//! The Lua state is `mlua`'s. The functions marked `external_body` are calls
//! into `mlua`. Nothing is assumed of what a script does or of what the Lua
//! state returns. Two things are named: of a Lua state, the globals that the
//! bridge has set in it; of an `mlua::Error`, its layer, which is the variant
//! it is, with the message that it carries or the error that it wraps.

use crate::protocol::{
    decode_response, decode_spec, entry_point, response_document, schema_entry_point, utf8_text,
    CaravelModuleResponse, CaravelModuleResponseState, PluginLibrary, ProtocolError,
};
use crate::manifest::ManifestScript;
use crate::registry::ModuleDescriptor;
use crate::ExecutionPhase;
use vstd::prelude::*;
use vstd::utf8::{decode_utf8, valid_utf8};

verus! {

/// `mlua::Lua`: a Lua state.
#[verifier::external_type_specification]
#[verifier::external_body]
pub struct ExLua(mlua::Lua);

/// `mlua::Error`: an error of the Lua state or of a script.
#[verifier::external_type_specification]
#[verifier::external_body]
pub struct ExLuaError(mlua::Error);

/// `mlua::Table`: a table of a Lua state.
#[verifier::external_type_specification]
#[verifier::external_body]
pub struct ExLuaTable<'lua>(mlua::Table<'lua>);

/// `mlua::Value`: a value of a Lua state.
#[verifier::external_type_specification]
#[verifier::external_body]
pub struct ExLuaValue<'lua>(mlua::Value<'lua>);

/// `mlua::Function`: a function of a Lua state.
#[verifier::external_type_specification]
#[verifier::external_body]
pub struct ExLuaFunction<'lua>(mlua::Function<'lua>);

/// The kind of error that a plugin's refusal raises in the script.
#[derive(Debug, Clone, Copy, PartialEq, Eq, Structural)]
pub enum ScriptErrorClass {
    /// The manifest is not well-formed.
    Syntax,
    /// The manifest could not be carried out.
    Runtime,
}

/// A failure at the boundary to a plugin or in the scripting engine itself.
/// It is never the manifest's fault.
#[derive(Debug, Clone, PartialEq, Eq)]
pub enum EngineError {
    /// An entry point could not be called; holds the reason.
    Load(String),
    /// A plugin returned what is no response.
    Protocol(ProtocolError),
    /// The scripting engine failed outside any script; holds its message.
    Scripting(String),
}

impl EngineError {
    /// The text that reports this failure.
    pub open spec fn text(self) -> Seq<char> {
        match self {
            EngineError::Load(reason) => reason@,
            EngineError::Protocol(error) => error.text(),
            EngineError::Scripting(message) => message@,
        }
    }

    /// The text that reports this failure.
    pub fn message(&self) -> (s: String)
        ensures
            s@ == self.text(),
    {
        match self {
            EngineError::Load(reason) => reason.clone(),
            EngineError::Protocol(error) => error.message(),
            EngineError::Scripting(message) => message.clone(),
        }
    }
}

/// What one call of a binding comes to.
#[derive(Debug, Clone, PartialEq)]
pub enum BindingOutcome {
    /// The plugin succeeded; the script gets the response.
    Value(CaravelModuleResponse),
    /// The plugin refused; the script gets an error.
    Raise { class: ScriptErrorClass, message: String },
    /// The run is over.
    Fatal(EngineError),
}

/// The kind of error that a refusal raises in `phase`.
pub open spec fn class_of(phase: ExecutionPhase) -> ScriptErrorClass {
    match phase {
        ExecutionPhase::Validating => ScriptErrorClass::Syntax,
        ExecutionPhase::Applying => ScriptErrorClass::Runtime,
    }
}

/// `outcome` is what the reply `reply` of a plugin comes to in `phase`.
pub open spec fn settles(
    outcome: BindingOutcome,
    phase: ExecutionPhase,
    reply: Result<Vec<u8>, String>,
) -> bool {
    match reply {
        Err(reason) => outcome matches BindingOutcome::Fatal(EngineError::Load(told)) && told@
            == reason@,
        Ok(bytes) => match decode_spec(bytes@) {
            Err(e) => outcome == BindingOutcome::Fatal(EngineError::Protocol(e)),
            Ok(response) => match response.state {
                CaravelModuleResponseState::Success => outcome matches BindingOutcome::Value(given)
                    && given@ == response,
                CaravelModuleResponseState::Error => outcome matches BindingOutcome::Raise {
                    class,
                    message,
                } && class == class_of(phase) && message@ == response.message,
            },
        },
    }
}

/// Two outcomes are alike: the same response, the same error with the same
/// message, or the same failure.
pub open spec fn alike(a: BindingOutcome, b: BindingOutcome) -> bool {
    match (a, b) {
        (BindingOutcome::Value(x), BindingOutcome::Value(y)) => x@ == y@,
        (
            BindingOutcome::Raise { class: c, message: m },
            BindingOutcome::Raise { class: d, message: n },
        ) => c == d && m@ == n@,
        (BindingOutcome::Fatal(e), BindingOutcome::Fatal(f)) => e.text() == f.text() && (e
            is Load <==> f is Load) && (e is Protocol <==> f is Protocol),
        _ => false,
    }
}

/// The engine keeps nothing between calls: in one phase, replies of the same
/// bytes come to outcomes that are alike.
pub proof fn same_reply_same_outcome(
    phase: ExecutionPhase,
    first: Result<Vec<u8>, String>,
    second: Result<Vec<u8>, String>,
    a: BindingOutcome,
    b: BindingOutcome,
)
    requires
        settles(a, phase, first),
        settles(b, phase, second),
        match (first, second) {
            (Ok(x), Ok(y)) => x@ == y@,
            (Err(x), Err(y)) => x@ == y@,
            _ => false,
        },
    ensures
        alike(a, b),
{
}

/// The kind of error that a refusal raises in `phase`.
pub fn error_class(phase: ExecutionPhase) -> (class: ScriptErrorClass)
    ensures
        class == class_of(phase),
{
    match phase {
        ExecutionPhase::Validating => ScriptErrorClass::Syntax,
        ExecutionPhase::Applying => ScriptErrorClass::Runtime,
    }
}

/// Decides what a plugin's reply comes to. A call that could not be made and a
/// reply that is no response end the run; a success is handed to the script; a
/// refusal is raised in the script with the plugin's message, as a syntax error
/// while validating and as a runtime error while applying.
pub fn settle(phase: ExecutionPhase, reply: Result<Vec<u8>, String>) -> (outcome: BindingOutcome)
    ensures
        settles(outcome, phase, reply),
{
    match reply {
        Err(reason) => BindingOutcome::Fatal(EngineError::Load(reason)),
        Ok(bytes) => match decode_response(bytes.as_slice()) {
            Err(e) => BindingOutcome::Fatal(EngineError::Protocol(e)),
            Ok(response) => match response.state {
                CaravelModuleResponseState::Success => BindingOutcome::Value(response),
                CaravelModuleResponseState::Error => BindingOutcome::Raise {
                    class: error_class(phase),
                    message: response.message,
                },
            },
        },
    }
}

/// Calls the entry point of `module` for `phase` with `input` and decides what
/// the reply comes to.
pub fn invoke<H: PluginLibrary>(
    phase: ExecutionPhase,
    module: &ModuleDescriptor<H>,
    input: &str,
) -> (outcome: BindingOutcome)
    ensures
        exists|reply: Result<Vec<u8>, String>| #[trigger] settles(outcome, phase, reply),
        outcome matches BindingOutcome::Value(response) ==> response.resolved() && response.state
            == CaravelModuleResponseState::Success,
        outcome matches BindingOutcome::Raise { class, .. } ==> class == class_of(phase),
        outcome matches BindingOutcome::Fatal(e) ==> !(e is Scripting),
{
    let symbol = entry_point(module.name.as_str(), phase);
    let reply = module.handle.call(symbol.as_str(), input);
    let outcome = settle(phase, reply);
    assert(settles(outcome, phase, reply));
    outcome
}

/// `r` is the schema description in the reply `reply`: the bytes as text. A
/// call that could not be made gives none, and bytes that are no text give
/// none.
pub open spec fn schema_in(r: Option<String>, reply: Result<Vec<u8>, String>) -> bool {
    match reply {
        Ok(bytes) => if valid_utf8(bytes@) {
            r matches Some(text) && text@ == decode_utf8(bytes@)
        } else {
            r is None
        },
        Err(_) => r is None,
    }
}

/// The schema description in a plugin's reply: the text it returned. A call
/// that could not be made gives none, and bytes that are no text give none.
pub fn schema_text(reply: Result<Vec<u8>, String>) -> (r: Option<String>)
    ensures
        schema_in(r, reply),
{
    match reply {
        Ok(bytes) => match utf8_text(bytes.as_slice()) {
            Some(text) => Some(text.to_string()),
            None => None,
        },
        Err(_) => None,
    }
}

/// The schema description that the plugin of `module` offers, if it offers
/// one: what [`schema_text`] reads in the reply of the plugin's schema entry
/// point.
pub fn schema_of<H: PluginLibrary>(module: &ModuleDescriptor<H>) -> (r: Option<String>)
    ensures
        exists|reply: Result<Vec<u8>, String>| #[trigger] schema_in(r, reply),
{
    let symbol = schema_entry_point(module.name.as_str());
    let reply = module.handle.describe(symbol.as_str());
    let r = schema_text(reply);
    assert(schema_in(r, reply));
    r
}

/// The names of the globals that the bridge has set in `lua`, in the order in
/// which it set them.
pub uninterp spec fn bound_names(lua: mlua::Lua) -> Seq<Seq<char>>;

/// `Lua::new`: a fresh Lua state with the safe part of Lua's standard library
/// and no other globals. The bridge has set none in it.
#[verifier::external_body]
fn new_state() -> (lua: mlua::Lua)
    ensures
        bound_names(lua) == Seq::<Seq<char>>::empty(),
{
    mlua::Lua::new()
}

/// `serde_json::to_string` on a Lua table, which `mlua` serializes as an array
/// or an object: the table as JSON text, or why it has none.
#[verifier::external_body]
fn table_json(table: &mlua::Table<'_>) -> Result<String, serde_json::Error> {
    serde_json::to_string(table)
}

/// `Display` for `serde_json::Error`.
#[verifier::external_body]
fn json_error_text(error: &serde_json::Error) -> String {
    error.to_string()
}

/// `LuaSerdeExt::to_value` on a JSON document: the Lua value that mirrors it.
#[verifier::external_body]
fn lua_value<'lua>(lua: &'lua mlua::Lua, doc: &serde_json::Value) -> Result<
    mlua::Value<'lua>,
    mlua::Error,
> {
    mlua::LuaSerdeExt::to_value(lua, doc)
}

/// One layer of an `mlua::Error`.
pub enum ErrorLayer {
    /// `SyntaxError`, with its message.
    Syntax(String),
    /// `RuntimeError`, with its message.
    Runtime(String),
    /// `CallbackError`, with the error that was raised in the callback.
    Callback(mlua::Error),
    /// `WithContext`, with the error that the context was added to.
    Context(mlua::Error),
    /// Any other variant, with its `Display` text.
    Other(String),
}

impl ErrorLayer {
    /// The error that this layer wraps, where it wraps one.
    pub open spec fn wrapped(self) -> Option<mlua::Error> {
        match self {
            ErrorLayer::Callback(inner) => Some(inner),
            ErrorLayer::Context(inner) => Some(inner),
            _ => None,
        }
    }
}

/// The layer of `error`: which variant of `mlua::Error` it is, with the
/// message that it carries or the error that it wraps.
pub uninterp spec fn error_layer(error: mlua::Error) -> ErrorLayer;

/// `mlua::Error::SyntaxError` with the given message, for input that is
/// complete: an error whose layer is `Syntax` with that message.
#[verifier::external_body]
fn syntax_error(message: String) -> (error: mlua::Error)
    ensures
        error_layer(error) == ErrorLayer::Syntax(message),
{
    mlua::Error::SyntaxError { message, incomplete_input: false }
}

/// `mlua::Error::RuntimeError` with the given message: an error whose layer
/// is `Runtime` with that message.
#[verifier::external_body]
fn runtime_error(message: String) -> (error: mlua::Error)
    ensures
        error_layer(error) == ErrorLayer::Runtime(message),
{
    mlua::Error::RuntimeError(message)
}

/// `Lua::set_app_data`: keeps `failure` in the Lua state, in place of one kept
/// before.
#[verifier::external_body]
fn set_aside(lua: &mlua::Lua, failure: EngineError) {
    lua.set_app_data(failure);
}

/// `Lua::remove_app_data`: takes out of the Lua state the failure that was kept
/// there, if one was.
#[verifier::external_body]
fn take_aside(lua: &mlua::Lua) -> Option<EngineError> {
    lua.remove_app_data::<EngineError>()
}

/// `Lua::create_function`, then `Lua::globals` and `Table::set`: makes the
/// global `name` of `lua` a Lua function that, called with a table, answers
/// with [`answer`] for `phase` and a copy of `module`. Where both calls
/// succeed, `name` is one more global that the bridge has set; where one
/// fails, the bridge has set no more than before.
#[verifier::external_body]
fn set_binding<H: PluginLibrary + Clone + 'static>(
    lua: &mut mlua::Lua,
    name: &str,
    phase: ExecutionPhase,
    module: &ModuleDescriptor<H>,
) -> (r: Result<(), mlua::Error>)
    ensures
        match r {
            Ok(_) => bound_names(*final(lua)) == bound_names(*old(lua)).push(name@),
            Err(_) => bound_names(*final(lua)) == bound_names(*old(lua)),
        },
{
    let module = module.clone();
    let function = lua.create_function(
        move |lua, input: mlua::Table| answer(lua, phase, &module, input),
    )?;
    lua.globals().set(name, function)
}

/// `Lua::load`, `Chunk::set_name` and `Chunk::exec`: runs `source` as a chunk
/// that diagnostics call `name`. The chunk may run for as long as it likes.
#[verifier::external_body]
fn execute(lua: &mlua::Lua, source: &str, name: &str) -> Result<(), mlua::Error> {
    lua.load(source).set_name(name).exec()
}

/// Tells the variants of `mlua::Error` apart: the result is the layer of
/// `error`. A `CallbackError` and a `WithContext` give up their cause; any
/// other variant but `SyntaxError` and `RuntimeError` gives its `Display`
/// text.
#[verifier::external_body]
fn layer_of(error: mlua::Error) -> (layer: ErrorLayer)
    ensures
        layer == error_layer(error),
{
    match error {
        mlua::Error::SyntaxError { message, .. } => ErrorLayer::Syntax(message),
        mlua::Error::RuntimeError(message) => ErrorLayer::Runtime(message),
        mlua::Error::CallbackError { cause, .. } => ErrorLayer::Callback((*cause).clone()),
        mlua::Error::WithContext { cause, .. } => ErrorLayer::Context((*cause).clone()),
        other => ErrorLayer::Other(other.to_string()),
    }
}

/// The layer of the error that `class` raises with `message`.
pub open spec fn raised(class: ScriptErrorClass, message: String) -> ErrorLayer {
    match class {
        ScriptErrorClass::Syntax => ErrorLayer::Syntax(message),
        ScriptErrorClass::Runtime => ErrorLayer::Runtime(message),
    }
}

/// The error that `class` raises in a script: a syntax error or a runtime
/// error of Lua that carries `message`.
fn raise(class: ScriptErrorClass, message: String) -> (error: mlua::Error)
    ensures
        error_layer(error) == raised(class, message),
{
    match class {
        ScriptErrorClass::Syntax => syntax_error(message),
        ScriptErrorClass::Runtime => runtime_error(message),
    }
}

/// `r` fails with an error whose layer is `layer`.
pub open spec fn fails_as<'lua>(r: Result<mlua::Value<'lua>, mlua::Error>, layer: ErrorLayer) -> bool {
    match r {
        Ok(_) => false,
        Err(error) => error_layer(error) == layer,
    }
}

/// `r` is what a binding answers in `phase`, where the table it was called
/// with became `marshalled`, the plugin's reply came to `outcome`, and the
/// response went into the Lua state as `delivered`.
///
/// A table without a JSON form raises the error of the phase. A success is
/// answered with the response as it went into the Lua state. A refusal is
/// raised with its class and message. A failure of the engine stops the script
/// with a runtime error.
pub open spec fn answers<'lua>(
    r: Result<mlua::Value<'lua>, mlua::Error>,
    phase: ExecutionPhase,
    marshalled: Result<String, serde_json::Error>,
    outcome: BindingOutcome,
    delivered: Result<mlua::Value<'lua>, mlua::Error>,
) -> bool {
    match marshalled {
        Err(_) => exists|message: String| #[trigger]
            fails_as(r, raised(class_of(phase), message)),
        Ok(_) => {
            &&& exists|reply: Result<Vec<u8>, String>| #[trigger] settles(outcome, phase, reply)
            &&& match outcome {
                BindingOutcome::Value(_) => r == delivered,
                BindingOutcome::Raise { class, message } => fails_as(r, raised(class, message)),
                BindingOutcome::Fatal(_) => exists|message: String|
                    message@ == "the engine failed"@ && #[trigger] fails_as(
                        r,
                        ErrorLayer::Runtime(message),
                    ),
            }
        },
    }
}

/// What a binding does when a script calls it with `input`.
///
/// The table becomes JSON; a table that has no JSON form is the script's
/// error. The plugin is called and its reply settled: a success is handed back
/// as a table with the members of the response, a refusal is raised, and a
/// failure of the engine is set aside in the Lua state and stops the script.
fn answer<'lua, H: PluginLibrary>(
    lua: &'lua mlua::Lua,
    phase: ExecutionPhase,
    module: &ModuleDescriptor<H>,
    input: mlua::Table<'lua>,
) -> (r: Result<mlua::Value<'lua>, mlua::Error>)
    ensures
        exists|
            marshalled: Result<String, serde_json::Error>,
            outcome: BindingOutcome,
            delivered: Result<mlua::Value<'lua>, mlua::Error>,
        | #[trigger]
            answers(r, phase, marshalled, outcome, delivered),
{
    let marshalled = table_json(&input);
    let ghost read = marshalled;
    let text = match marshalled {
        Ok(text) => text,
        Err(e) => {
            let message = json_error_text(&e);
            let ghost told = message;
            let r = Err(raise(error_class(phase), message));
            proof {
                assert(fails_as(r, raised(class_of(phase), told)));
                assert(answers(
                    r,
                    phase,
                    read,
                    vstd::pervasive::arbitrary(),
                    vstd::pervasive::arbitrary(),
                ));
            }
            return r;
        },
    };
    let outcome = invoke(phase, module, text.as_str());
    let ghost settled = outcome;
    match outcome {
        BindingOutcome::Value(response) => {
            let doc = response_document(response);
            let r = lua_value(lua, &doc);
            assert(answers(r, phase, read, settled, r));
            r
        },
        BindingOutcome::Raise { class, message } => {
            let r = Err(raise(class, message));
            assert(answers(r, phase, read, settled, r));
            r
        },
        BindingOutcome::Fatal(failure) => {
            set_aside(lua, failure);
            let message = "the engine failed".to_string();
            let ghost told = message;
            let r = Err(runtime_error(message));
            proof {
                assert(fails_as(r, ErrorLayer::Runtime(told)));
                assert(answers(r, phase, read, settled, r));
            }
            r
        },
    }
}

/// An error that a script ended with.
#[derive(Debug, Clone, PartialEq, Eq)]
pub enum ScriptFailure {
    /// The manifest is not well-formed: Lua could not read it, or a plugin
    /// refused a resource while validating.
    Syntax(String),
    /// The manifest could not be carried out: Lua failed while running it, as
    /// on a call of a name that is not defined, or a plugin refused a resource
    /// while applying.
    Runtime(String),
    /// Any other error of the scripting engine.
    Other(String),
}

impl ScriptFailure {
    /// The message of the error.
    pub open spec fn text(self) -> Seq<char> {
        match self {
            ScriptFailure::Syntax(message) => message@,
            ScriptFailure::Runtime(message) => message@,
            ScriptFailure::Other(message) => message@,
        }
    }

    /// The message of the error.
    pub fn message(&self) -> (s: String)
        ensures
            s@ == self.text(),
    {
        match self {
            ScriptFailure::Syntax(message) => message.clone(),
            ScriptFailure::Runtime(message) => message.clone(),
            ScriptFailure::Other(message) => message.clone(),
        }
    }
}

/// Why a pass failed.
#[derive(Debug, Clone, PartialEq, Eq)]
pub enum PhaseFailure {
    /// The script ended with an error.
    Script(ScriptFailure),
    /// A plugin or the scripting engine failed.
    Fatal(EngineError),
}

/// How a pass ended, where the script ended with `ended` and a binding set
/// `aside` aside.
pub open spec fn phase_outcome_spec(
    ended: Result<(), ScriptFailure>,
    aside: Option<EngineError>,
) -> Result<(), PhaseFailure> {
    match aside {
        Some(failure) => Err(PhaseFailure::Fatal(failure)),
        None => match ended {
            Ok(_) => Ok(()),
            Err(failure) => Err(PhaseFailure::Script(failure)),
        },
    }
}

/// Decides how a pass ended. A failure that a binding set aside fails the pass
/// as `Fatal`, whatever the script made of the error it was given. Otherwise
/// the pass ends as the script did.
pub fn phase_outcome(ended: Result<(), ScriptFailure>, aside: Option<EngineError>) -> (r: Result<
    (),
    PhaseFailure,
>)
    ensures
        r == phase_outcome_spec(ended, aside),
{
    match aside {
        Some(failure) => Err(PhaseFailure::Fatal(failure)),
        None => match ended {
            Ok(_) => Ok(()),
            Err(failure) => Err(PhaseFailure::Script(failure)),
        },
    }
}

/// How many errors wrapped in one another are unwrapped to find the error
/// that a script ended with.
pub const MAX_ERROR_DEPTH: usize = 32;

/// `failure` is what `error` comes to when at most `depth` wrappers are
/// taken off it: the syntax error, runtime error or other error below them,
/// with its message, and `Other` where the wrappers go deeper than that.
pub open spec fn classifies(failure: ScriptFailure, error: mlua::Error, depth: nat) -> bool
    decreases depth, 1nat,
{
    match error_layer(error) {
        ErrorLayer::Syntax(message) => failure == ScriptFailure::Syntax(message),
        ErrorLayer::Runtime(message) => failure == ScriptFailure::Runtime(message),
        ErrorLayer::Other(message) => failure == ScriptFailure::Other(message),
        ErrorLayer::Callback(inner) => below(failure, inner, depth),
        ErrorLayer::Context(inner) => below(failure, inner, depth),
    }
}

/// `failure` is what an error that wraps `inner` comes to when at most `depth`
/// wrappers are taken off it.
pub open spec fn below(failure: ScriptFailure, inner: mlua::Error, depth: nat) -> bool
    decreases depth, 0nat,
{
    if depth == 0 {
        failure matches ScriptFailure::Other(message) && message@ == "error wrapped too deeply"@
    } else {
        classifies(failure, inner, (depth - 1) as nat)
    }
}

/// The error below the wrappers that `mlua` puts around an error raised in a
/// callback. An error wrapped deeper than [`MAX_ERROR_DEPTH`] is reported as
/// `Other`.
fn classify(error: mlua::Error) -> (failure: ScriptFailure)
    ensures
        classifies(failure, error, MAX_ERROR_DEPTH as nat),
{
    let ghost mut current = error;
    let mut layer = layer_of(error);
    let mut depth: usize = 0;
    loop
        invariant
            depth <= MAX_ERROR_DEPTH,
            layer == error_layer(current),
            forall|f: ScriptFailure| #[trigger]
                classifies(f, current, (MAX_ERROR_DEPTH - depth) as nat) ==> classifies(
                    f,
                    error,
                    MAX_ERROR_DEPTH as nat,
                ),
        decreases MAX_ERROR_DEPTH - depth,
    {
        match layer {
            ErrorLayer::Syntax(message) => {
                let failure = ScriptFailure::Syntax(message);
                assert(classifies(failure, current, (MAX_ERROR_DEPTH - depth) as nat));
                return failure;
            },
            ErrorLayer::Runtime(message) => {
                let failure = ScriptFailure::Runtime(message);
                assert(classifies(failure, current, (MAX_ERROR_DEPTH - depth) as nat));
                return failure;
            },
            ErrorLayer::Other(message) => {
                let failure = ScriptFailure::Other(message);
                assert(classifies(failure, current, (MAX_ERROR_DEPTH - depth) as nat));
                return failure;
            },
            ErrorLayer::Callback(inner) | ErrorLayer::Context(inner) => {
                if depth == MAX_ERROR_DEPTH {
                    let failure = ScriptFailure::Other("error wrapped too deeply".to_string());
                    assert(below(failure, inner, 0nat));
                    assert(classifies(failure, current, (MAX_ERROR_DEPTH - depth) as nat));
                    return failure;
                }
                proof {
                    let left = (MAX_ERROR_DEPTH - depth) as nat;
                    assert forall|f: ScriptFailure| #[trigger]
                        classifies(f, inner, (left - 1) as nat) implies classifies(
                        f,
                        error,
                        MAX_ERROR_DEPTH as nat,
                    ) by {
                        assert(below(f, inner, left));
                        assert(classifies(f, current, left));
                    }
                    current = inner;
                }
                depth = depth + 1;
                layer = layer_of(inner);
            },
        }
    }
}

/// `r` is how a pass ends whose script ended with `ended` while a binding had
/// set `aside` aside: with that failure, as `Fatal`; else as the script ended,
/// an error of the script being told by what is below its wrappers.
pub open spec fn ends(
    r: Result<(), PhaseFailure>,
    ended: Result<(), mlua::Error>,
    aside: Option<EngineError>,
) -> bool {
    match aside {
        Some(failure) => r == Err::<(), PhaseFailure>(PhaseFailure::Fatal(failure)),
        None => match ended {
            Ok(_) => r is Ok,
            Err(error) => r matches Err(PhaseFailure::Script(failure)) && classifies(
                failure,
                error,
                MAX_ERROR_DEPTH as nat,
            ),
        },
    }
}

/// A namespace for one pass over a manifest: a Lua state of its own in which
/// each plugin is a global function for the phase it was built for. It is used
/// once: running a manifest uses it up.
pub struct ScriptContext {
    lua: mlua::Lua,
    phase: ExecutionPhase,
}

impl ScriptContext {
    /// The phase that the bindings serve.
    pub closed spec fn phase_spec(&self) -> ExecutionPhase {
        self.phase
    }

    /// The names of the globals that the bridge has set in this namespace, in
    /// the order in which it set them.
    pub closed spec fn bound(&self) -> Seq<Seq<char>> {
        bound_names(self.lua)
    }

    /// The phase that the bindings serve.
    pub fn phase(&self) -> (phase: ExecutionPhase)
        ensures
            phase == self.phase_spec(),
    {
        self.phase
    }

    /// Runs `manifest` in this namespace, which is used up by it. The pass
    /// ends as [`ends`] says of how the script ended and of what the bindings
    /// set aside.
    pub fn execute(self, manifest: &ManifestScript) -> (r: Result<(), PhaseFailure>)
        ensures
            exists|ended: Result<(), mlua::Error>, aside: Option<EngineError>| #[trigger]
                ends(r, ended, aside),
    {
        let ended = execute(
            &self.lua,
            manifest.source_text.as_str(),
            manifest.display_name.as_str(),
        );
        let aside = take_aside(&self.lua);
        let r = match ended {
            Ok(_) => phase_outcome(Ok(()), aside),
            Err(error) => phase_outcome(Err(classify(error)), aside),
        };
        assert(ends(r, ended, aside));
        r
    }
}

/// `e` is the failure of the scripting engine that `error` reports: it has
/// the message of what is below the wrappers of `error`.
pub open spec fn reports(e: EngineError, error: mlua::Error) -> bool {
    &&& e is Scripting
    &&& exists|failure: ScriptFailure| #[trigger]
        classifies(failure, error, MAX_ERROR_DEPTH as nat) && e.text() == failure.text()
}

/// The failure of the scripting engine that `error` reports.
fn scripting_failure(error: mlua::Error) -> (e: EngineError)
    ensures
        reports(e, error),
{
    let failure = classify(error);
    let e = EngineError::Scripting(failure.message());
    assert(classifies(failure, error, MAX_ERROR_DEPTH as nat) && e.text() == failure.text());
    e
}

/// `r` is what binding a plugin comes to, where the Lua state took the
/// binding as `taken` says: a failure of the Lua state is reported as a
/// failure of the scripting engine.
pub open spec fn binds(r: Result<(), EngineError>, taken: Result<(), mlua::Error>) -> bool {
    match taken {
        Err(error) => match r {
            Err(e) => reports(e, error),
            Ok(_) => false,
        },
        Ok(_) => r is Ok,
    }
}

/// Binds the plugin of `module` in `lua` under the name of its resource: on
/// success that name is one more global that the bridge has set. Where the
/// Lua state refuses the function or the name, the binding fails with what
/// the Lua state reported, and the bridge has set no more than before.
fn bind<H: PluginLibrary + Clone + 'static>(
    lua: &mut mlua::Lua,
    phase: ExecutionPhase,
    module: &ModuleDescriptor<H>,
) -> (r: Result<(), EngineError>)
    ensures
        r matches Err(e) ==> e is Scripting,
        match r {
            Ok(_) => bound_names(*final(lua)) == bound_names(*old(lua)).push(module.name@),
            Err(_) => bound_names(*final(lua)) == bound_names(*old(lua)),
        },
        exists|taken: Result<(), mlua::Error>| #[trigger] binds(r, taken),
{
    let taken = set_binding(lua, module.name.as_str(), phase, module);
    let ghost was_taken = taken;
    let r = match taken {
        Ok(_) => Ok(()),
        Err(error) => Err(scripting_failure(error)),
    };
    assert(binds(r, was_taken));
    r
}

/// The names of the resources that `modules` serve, in order.
pub open spec fn resource_names<H>(modules: Seq<ModuleDescriptor<H>>) -> Seq<Seq<char>> {
    Seq::new(modules.len(), |i: int| modules[i].name@)
}

/// Builds the namespace for one pass: a fresh Lua state in which, for each of
/// `modules`, in order, the global named like its resource calls its entry
/// point for `phase`. A later module of the same name takes the place of an
/// earlier one; the registry hands out none.
pub fn build<H: PluginLibrary + Clone + 'static>(
    phase: ExecutionPhase,
    modules: &Vec<ModuleDescriptor<H>>,
) -> (r: Result<ScriptContext, EngineError>)
    ensures
        r matches Ok(context) ==> context.phase_spec() == phase && context.bound()
            == resource_names(modules@),
        r matches Err(e) ==> e is Scripting,
        modules.len() == 0 ==> r is Ok,
{
    let mut lua = new_state();
    let mut i: usize = 0;
    while i < modules.len()
        invariant
            i <= modules.len(),
            bound_names(lua) == resource_names(modules@.take(i as int)),
        decreases modules.len() - i,
    {
        match bind(&mut lua, phase, &modules[i]) {
            Ok(_) => {},
            Err(e) => {
                return Err(e);
            },
        }
        assert(resource_names(modules@.take(i + 1)) =~= resource_names(
            modules@.take(i as int),
        ).push(modules@[i as int].name@));
        i = i + 1;
    }
    assert(modules@.take(i as int) =~= modules@);
    Ok(ScriptContext { lua, phase })
}

} // verus!
