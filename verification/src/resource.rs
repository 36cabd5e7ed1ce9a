//! The plugin's side of the contract: what the author of a resource type
//! implements, and the entry points that the engine calls, built on it.
//!
//! An entry point reads the resource from the JSON it is handed, validates or
//! applies it, and answers with a response in JSON. It never fails: what goes
//! wrong is reported in the response.

use crate::protocol::{
    encode_response, wire_text, CaravelModuleResponse, CaravelModuleResponseState, ResponseModel,
};
use crate::ExecutionPhase;
use vstd::prelude::*;
use vstd::string::StringExecFns;

verus! {

/// A resource type, as its plugin implements it. Nothing is assumed of what
/// an implementation returns: the entry points are verified for whatever its
/// methods return, and of `apply` only what the implementation itself says
/// with `applies`.
pub trait Resource: Sized {
    /// Whether `outcome` is a result that applying this resource can have. An
    /// implementation that says nothing of its results leaves this as it is:
    /// it holds of every outcome.
    open spec fn applies(&self, outcome: Result<(), String>) -> bool {
        true
    }

    /// Reads the resource from the JSON object that the engine passed, or says
    /// why it cannot.
    fn from_json_string(input: &str) -> Result<Self, String>;

    /// The resource as JSON text.
    fn to_json_string(&self) -> String;

    /// Decides whether the resource is well-formed. Has no effect on the
    /// system.
    fn validate(&self) -> Result<(), String>;

    /// Brings the system to the state that the resource describes.
    fn apply(&self) -> (outcome: Result<(), String>)
        ensures
            self.applies(outcome),
    ;
}

/// Resources to apply, in order.
pub struct Manifest<R: Resource> {
    pub resources: Vec<R>,
}

/// The first `count` of `resources` were applied, each with success.
pub open spec fn applied_through<R: Resource>(resources: Seq<R>, count: int) -> bool {
    forall|j: int| 0 <= j < count ==> (#[trigger] resources[j]).applies(Ok::<(), String>(()))
}

/// `r` is what applying `resources` in order comes to: success where each was
/// applied with success, else the error of the first that failed, the ones
/// before it having been applied with success.
pub open spec fn applied_in_order<R: Resource>(resources: Seq<R>, r: Result<(), String>) -> bool {
    match r {
        Ok(_) => applied_through(resources, resources.len() as int),
        Err(e) => exists|i: int|
            0 <= i < resources.len() && (#[trigger] resources[i]).applies(Err::<(), String>(e))
                && applied_through(resources, i),
    }
}

/// Applies the resources of `manifest` in order and stops at the first that
/// fails, handing back its error. Resources applied before it stay applied.
pub fn apply<R: Resource>(manifest: &Manifest<R>) -> (r: Result<(), String>)
    ensures
        manifest.resources.len() == 0 ==> r is Ok,
        applied_in_order(manifest.resources@, r),
{
    let mut i: usize = 0;
    while i < manifest.resources.len()
        invariant
            i <= manifest.resources.len(),
            applied_through(manifest.resources@, i as int),
        decreases manifest.resources.len() - i,
    {
        let outcome = manifest.resources[i].apply();
        assert(manifest.resources@[i as int].applies(outcome));
        match outcome {
            Ok(unit) => {
                assert(unit == ());
                assert(outcome == Ok::<(), String>(unit));
            },
            Err(e) => {
                return Err(e);
            },
        }
        i = i + 1;
    }
    Ok(())
}

/// What an entry point did with its input.
pub enum Outcome {
    /// The input was not a resource; holds the reason.
    Unreadable(String),
    /// The resource was read and refused; holds the reason.
    Refused(String),
    /// The resource was read and accepted; holds it as JSON text.
    Accepted(String),
}

/// The response that reports `outcome`.
pub open spec fn response_spec(outcome: Outcome) -> ResponseModel {
    match outcome {
        Outcome::Unreadable(reason) => ResponseModel {
            state: CaravelModuleResponseState::Error,
            message: reason@,
            raw_module: Seq::<char>::empty(),
            module: None,
        },
        Outcome::Refused(reason) => ResponseModel {
            state: CaravelModuleResponseState::Error,
            message: reason@,
            raw_module: Seq::<char>::empty(),
            module: None,
        },
        Outcome::Accepted(raw_module) => ResponseModel {
            state: CaravelModuleResponseState::Success,
            message: "Success"@,
            raw_module: raw_module@,
            module: None,
        },
    }
}

/// A response as an entry point sends it: `module` is left for the engine to
/// fill in, a success says `Success`, an error has no `raw_module`.
pub open spec fn as_sent(response: ResponseModel) -> bool {
    &&& response.module is None
    &&& response.state == CaravelModuleResponseState::Success ==> response.message == "Success"@
    &&& response.state == CaravelModuleResponseState::Error ==> response.raw_module.len() == 0
}

/// The response that reports `outcome`.
pub fn response_for(outcome: Outcome) -> (response: CaravelModuleResponse)
    ensures
        response@ == response_spec(outcome),
        as_sent(response@),
{
    match outcome {
        Outcome::Unreadable(reason) => CaravelModuleResponse {
            state: CaravelModuleResponseState::Error,
            message: reason,
            raw_module: String::new(),
            module: None,
        },
        Outcome::Refused(reason) => CaravelModuleResponse {
            state: CaravelModuleResponseState::Error,
            message: reason,
            raw_module: String::new(),
            module: None,
        },
        Outcome::Accepted(raw_module) => CaravelModuleResponse {
            state: CaravelModuleResponseState::Success,
            message: "Success".to_string(),
            raw_module,
            module: None,
        },
    }
}

/// Reads a resource from `input` and validates or applies it, as `phase` says.
/// The resource is neither validated nor applied where it cannot be read.
pub fn serve<R: Resource>(phase: ExecutionPhase, input: &str) -> (response: CaravelModuleResponse)
    ensures
        as_sent(response@),
{
    let outcome = match R::from_json_string(input) {
        Err(reason) => Outcome::Unreadable(reason),
        Ok(resource) => {
            let done = match phase {
                ExecutionPhase::Validating => resource.validate(),
                ExecutionPhase::Applying => resource.apply(),
            };
            match done {
                Ok(_) => Outcome::Accepted(resource.to_json_string()),
                Err(reason) => Outcome::Refused(reason),
            }
        },
    };
    response_for(outcome)
}

/// The body of a plugin's `Validate` entry point for the resource type `R`:
/// the response to `input`, as JSON text.
pub fn validate_shim<R: Resource>(input: &str) -> (text: String)
    ensures
        exists|doc: serde_json::Value, response: ResponseModel|
            as_sent(response) && #[trigger] wire_text(text@, doc, response),
{
    let response = serve::<R>(ExecutionPhase::Validating, input);
    encode_response(response)
}

/// The body of a plugin's `Apply` entry point for the resource type `R`: the
/// response to `input`, as JSON text.
pub fn apply_shim<R: Resource>(input: &str) -> (text: String)
    ensures
        exists|doc: serde_json::Value, response: ResponseModel|
            as_sent(response) && #[trigger] wire_text(text@, doc, response),
{
    let response = serve::<R>(ExecutionPhase::Applying, input);
    encode_response(response)
}

/// One field of a resource type, for its schema description.
pub struct FieldDoc {
    pub name: String,
    pub annotation: String,
}

/// The line that describes one field.
pub open spec fn field_line(field: FieldDoc) -> Seq<char> {
    "---@field "@ + field.name@ + " "@ + field.annotation@ + "\n"@
}

/// The lines that describe `fields`, in order.
pub open spec fn field_lines(fields: Seq<FieldDoc>) -> Seq<char>
    decreases fields.len(),
{
    if fields.len() == 0 {
        Seq::<char>::empty()
    } else {
        field_lines(fields.drop_last()) + field_line(fields.last())
    }
}

/// The schema description of the resource type `name` with `fields`.
pub open spec fn lua_doc(name: Seq<char>, fields: Seq<FieldDoc>) -> Seq<char> {
    "---@class "@ + name + "\n"@ + field_lines(fields) + "\n"@
        + "---@alias ModuleResponse {module: "@ + name + "}\n\n"@ + "---@return ModuleResponse\n"@
        + "function "@ + name + "(params)\n"@ + "end\n"@
}

/// The body of a plugin's `DumpLua` entry point: annotations that describe the
/// resource type to an editor of manifests. A class with one line for each
/// field, the alias of the value that the binding returns, and the binding's
/// signature.
pub fn dump_lua(name: &str, fields: &Vec<FieldDoc>) -> (text: String)
    ensures
        text@ == lua_doc(name@, fields@),
{
    let mut text = "---@class ".to_string();
    text.append(name);
    text.append("\n");
    let ghost head = text@;
    let mut i: usize = 0;
    while i < fields.len()
        invariant
            i <= fields.len(),
            text@ == head + field_lines(fields@.take(i as int)),
        decreases fields.len() - i,
    {
        proof {
            assert(fields@.take(i + 1).drop_last() =~= fields@.take(i as int));
            assert(fields@.take(i + 1).last() == fields@[i as int]);
        }
        text.append("---@field ");
        text.append(fields[i].name.as_str());
        text.append(" ");
        text.append(fields[i].annotation.as_str());
        text.append("\n");
        i = i + 1;
        assert(text@ =~= head + field_lines(fields@.take(i as int)));
    }
    assert(fields@.take(i as int) =~= fields@);
    text.append("\n");
    text.append("---@alias ModuleResponse {module: ");
    text.append(name);
    text.append("}\n\n");
    text.append("---@return ModuleResponse\n");
    text.append("function ");
    text.append(name);
    text.append("(params)\n");
    text.append("end\n");
    assert(text@ =~= lua_doc(name@, fields@));
    text
}

} // verus!
