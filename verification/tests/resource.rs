use caravel::protocol::{decode_response, CaravelModuleResponseState};
use caravel::resource::{
    apply, apply_shim, dump_lua, response_for, serve, validate_shim, FieldDoc, Manifest, Outcome,
    Resource,
};
use caravel::ExecutionPhase;
use std::sync::Mutex;

static APPLIED: Mutex<Vec<String>> = Mutex::new(Vec::new());

/// A resource whose JSON is `{"name": <string>}`. A name that starts with `!`
/// fails validation, one that starts with `?` fails to apply.
struct Probe {
    name: String,
}

impl Resource for Probe {
    fn from_json_string(input: &str) -> Result<Self, String> {
        let doc: serde_json::Value = serde_json::from_str(input).map_err(|e| e.to_string())?;
        match doc.get("name").and_then(|n| n.as_str()) {
            Some(name) => Ok(Probe { name: name.to_string() }),
            None => Err("missing field `name`".to_string()),
        }
    }

    fn to_json_string(&self) -> String {
        let mut map = serde_json::Map::new();
        map.insert("name".to_string(), serde_json::Value::String(self.name.clone()));
        serde_json::Value::Object(map).to_string()
    }

    fn validate(&self) -> Result<(), String> {
        if self.name.starts_with('!') {
            Err("bad mode".to_string())
        } else {
            Ok(())
        }
    }

    fn apply(&self) -> Result<(), String> {
        if self.name.starts_with('?') {
            return Err(format!("cannot apply {}", self.name));
        }
        APPLIED.lock().unwrap().push(self.name.clone());
        Ok(())
    }
}

fn applied() -> Vec<String> {
    APPLIED.lock().unwrap().clone()
}

#[test]
fn response_for_each_outcome() {
    let r = response_for(Outcome::Accepted("{\"a\":1}".to_string()));
    assert_eq!(r.state, CaravelModuleResponseState::Success);
    assert_eq!(r.message, "Success");
    assert_eq!(r.raw_module, "{\"a\":1}");
    assert_eq!(r.module, None);

    let r = response_for(Outcome::Refused("bad mode".to_string()));
    assert_eq!(r.state, CaravelModuleResponseState::Error);
    assert_eq!(r.message, "bad mode");
    assert_eq!(r.raw_module, "");
    assert_eq!(r.module, None);

    let r = response_for(Outcome::Unreadable("expected value".to_string()));
    assert_eq!(r.state, CaravelModuleResponseState::Error);
    assert_eq!(r.message, "expected value");
    assert_eq!(r.raw_module, "");
    assert_eq!(r.module, None);
}

#[test]
fn serve_validates_without_applying() {
    let r = serve::<Probe>(ExecutionPhase::Validating, "{\"name\":\"a\"}");
    assert_eq!(r.state, CaravelModuleResponseState::Success);
    assert_eq!(r.raw_module, "{\"name\":\"a\"}");
    assert!(applied().is_empty());

    let r = serve::<Probe>(ExecutionPhase::Validating, "{\"name\":\"!a\"}");
    assert_eq!(r.state, CaravelModuleResponseState::Error);
    assert_eq!(r.message, "bad mode");
    // A resource that only fails to apply passes validation.
    let r = serve::<Probe>(ExecutionPhase::Validating, "{\"name\":\"?a\"}");
    assert_eq!(r.state, CaravelModuleResponseState::Success);
    assert!(applied().is_empty());
}

#[test]
fn serve_applies() {
    let r = serve::<Probe>(ExecutionPhase::Applying, "{\"name\":\"b\"}");
    assert_eq!(r.state, CaravelModuleResponseState::Success);
    assert_eq!(r.message, "Success");
    assert_eq!(applied(), vec!["b".to_string()]);

    let r = serve::<Probe>(ExecutionPhase::Applying, "{\"name\":\"?c\"}");
    assert_eq!(r.state, CaravelModuleResponseState::Error);
    assert_eq!(r.message, "cannot apply ?c");
    assert_eq!(r.raw_module, "");
    assert_eq!(applied(), vec!["b".to_string()]);
}

#[test]
fn serve_reports_unreadable_input() {
    let r = serve::<Probe>(ExecutionPhase::Applying, "{\"nom\":\"b\"}");
    assert_eq!(r.state, CaravelModuleResponseState::Error);
    assert_eq!(r.message, "missing field `name`");
    let r = serve::<Probe>(ExecutionPhase::Applying, "not json");
    assert_eq!(r.state, CaravelModuleResponseState::Error);
    assert!(applied().is_empty());
}

#[test]
fn shims_answer_in_the_wire_format() {
    let wire = validate_shim::<Probe>("{\"name\":\"a\"}");
    assert_eq!(
        wire,
        r#"{"message":"Success","module":null,"raw_module":"{\"name\":\"a\"}","state":"Success"}"#
    );
    let read = decode_response(wire.as_bytes()).unwrap();
    assert_eq!(read.state, CaravelModuleResponseState::Success);
    assert_eq!(read.module, Some(serde_json::from_str("{\"name\":\"a\"}").unwrap()));
    assert!(applied().is_empty());

    let wire = apply_shim::<Probe>("{\"name\":\"?a\"}");
    assert_eq!(
        wire,
        r#"{"message":"cannot apply ?a","module":null,"raw_module":"","state":"Error"}"#
    );
    let wire = apply_shim::<Probe>("{\"name\":\"z\"}");
    let read = decode_response(wire.as_bytes()).unwrap();
    assert_eq!(read.state, CaravelModuleResponseState::Success);
    assert_eq!(applied(), vec!["z".to_string()]);
}

#[test]
fn apply_stops_at_the_first_failure() {
    let manifest = Manifest {
        resources: vec![
            Probe { name: "one".to_string() },
            Probe { name: "?two".to_string() },
            Probe { name: "three".to_string() },
        ],
    };
    assert_eq!(apply(&manifest), Err("cannot apply ?two".to_string()));
    assert_eq!(applied(), vec!["one".to_string()]);
}

#[test]
fn apply_of_nothing_succeeds() {
    let manifest: Manifest<Probe> = Manifest { resources: Vec::new() };
    assert_eq!(apply(&manifest), Ok(()));
    assert!(applied().is_empty());
}

#[test]
fn apply_applies_in_order() {
    let manifest = Manifest {
        resources: vec![Probe { name: "x".to_string() }, Probe { name: "y".to_string() }],
    };
    assert_eq!(apply(&manifest), Ok(()));
    assert_eq!(applied(), vec!["x".to_string(), "y".to_string()]);
}

#[test]
fn dump_lua_describes_the_type() {
    let fields = vec![
        FieldDoc { name: "path".to_string(), annotation: "PathBuf".to_string() },
        FieldDoc { name: "owner".to_string(), annotation: "Option < String >".to_string() },
    ];
    assert_eq!(
        dump_lua("File", &fields),
        "---@class File\n\
         ---@field path PathBuf\n\
         ---@field owner Option < String >\n\
         \n\
         ---@alias ModuleResponse {module: File}\n\
         \n\
         ---@return ModuleResponse\n\
         function File(params)\n\
         end\n"
    );
}

#[test]
fn dump_lua_without_fields() {
    assert_eq!(
        dump_lua("Unit", &Vec::new()),
        "---@class Unit\n\n---@alias ModuleResponse {module: Unit}\n\n---@return ModuleResponse\nfunction Unit(params)\nend\n"
    );
}
