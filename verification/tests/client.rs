use caravel::bridge::{EngineError, ScriptFailure};
use caravel::client::{exit_code, Client, ShipError};
use caravel::controller::RunError;
use caravel::errors::{ClientError, InvalidAgentConfigPath, RunnableError};
use caravel::protocol::{PluginLibrary, ProtocolError};
use caravel::registry::{ModuleLoader, RegistryError};
use std::cell::RefCell;
use std::rc::Rc;

#[derive(Clone)]
struct Double {
    path: String,
    log: Rc<RefCell<Vec<String>>>,
}

impl PluginLibrary for Double {
    fn exports(&self, symbol: &str) -> bool {
        !(self.path.contains("Half") && symbol.ends_with("Apply"))
    }

    fn call(&self, symbol: &str, _input: &str) -> Result<Vec<u8>, String> {
        self.log.borrow_mut().push(format!("{} {}", self.path, symbol));
        if self.path.contains("Broken") {
            return Ok(b"garbage".to_vec());
        }
        if self.path.contains("Strict") && symbol.ends_with("Validate") {
            return Ok(br#"{"state":"Error","message":"bad mode"}"#.to_vec());
        }
        Ok(br#"{"state":"Success","message":"Success","raw_module":"{}"}"#.to_vec())
    }

    fn describe(&self, _symbol: &str) -> Result<Vec<u8>, String> {
        Err("no schema".to_string())
    }
}

struct Loader {
    log: Rc<RefCell<Vec<String>>>,
}

impl ModuleLoader for Loader {
    type Handle = Double;

    fn load(&self, path: &str) -> Result<Double, String> {
        if path.contains("Corrupt") {
            return Err("file too short".to_string());
        }
        self.log.borrow_mut().push(format!("load {}", path));
        Ok(Double { path: path.to_string(), log: self.log.clone() })
    }
}

fn client() -> Client {
    Client { manifest: "site.lua".to_string(), targets: None, groups: None, inventory: None }
}

fn setup() -> (Loader, Rc<RefCell<Vec<String>>>) {
    let log = Rc::new(RefCell::new(Vec::new()));
    (Loader { log: log.clone() }, log)
}

fn entries_of(paths: &[&str]) -> Vec<String> {
    paths.iter().map(|s| s.to_string()).collect()
}

#[test]
fn ship_validates_then_applies() {
    let (loader, log) = setup();
    let entries = entries_of(&["caravel_modules/File.so"]);
    let source = r#"File{path="/tmp/x", state="present"}"#.to_string();
    let r = client().run(Some(source), &loader, Some(&entries), "so");
    assert_eq!(r, Ok(()));
    assert_eq!(exit_code(&r), 0);
    assert_eq!(
        *log.borrow(),
        vec![
            "load caravel_modules/File.so".to_string(),
            "caravel_modules/File.so FileValidate".to_string(),
            "caravel_modules/File.so FileApply".to_string(),
        ]
    );
}

#[test]
fn ship_stops_at_a_validation_error() {
    let (loader, log) = setup();
    let entries = entries_of(&["caravel_modules/Strict.so"]);
    let r = client().run(Some("Strict{mode='x'}".to_string()), &loader, Some(&entries), "so");
    assert_eq!(
        r,
        Err(ShipError::Run(RunError::Validation(ScriptFailure::Syntax("bad mode".to_string()))))
    );
    assert_eq!(exit_code(&r), 1);
    assert!(!log.borrow().iter().any(|l| l.ends_with("Apply")));
}

#[test]
fn ship_without_a_plugin_directory_reports_an_undefined_binding() {
    let (loader, log) = setup();
    let r = client().run(Some("Foo{}".to_string()), &loader, None, "so");
    match &r {
        Err(ShipError::Run(RunError::Validation(ScriptFailure::Runtime(message)))) => {
            assert!(message.contains("Foo"), "{}", message);
            assert!(message.contains("site.lua"), "{}", message);
        }
        other => panic!("{:?}", other),
    }
    assert_eq!(exit_code(&r), 1);
    assert!(log.borrow().is_empty());
}

#[test]
fn ship_refuses_two_plugins_for_one_name_before_any_script() {
    let (loader, log) = setup();
    let entries = entries_of(&["caravel_modules/File.so", "caravel_modules/File.backup.so"]);
    let r = client().run(Some("File{}".to_string()), &loader, Some(&entries), "so");
    assert_eq!(
        r,
        Err(ShipError::Registry(RegistryError::DuplicateResourceName("File".to_string())))
    );
    assert_eq!(exit_code(&r), 1);
    assert!(log.borrow().is_empty());
}

#[test]
fn empty_manifest_needs_no_plugins() {
    let (loader, _) = setup();
    assert_eq!(client().run(Some(String::new()), &loader, None, "so"), Ok(()));
    assert_eq!(client().run(Some("local x = 1".to_string()), &loader, Some(&Vec::new()), "so"), Ok(()));
}

#[test]
fn missing_manifest_is_reported() {
    let (loader, log) = setup();
    let entries = entries_of(&["caravel_modules/File.so"]);
    let r = client().run(None, &loader, Some(&entries), "so");
    assert_eq!(r, Err(ShipError::Client(ClientError::ManifestNotFound("site.lua".to_string()))));
    assert_eq!(exit_code(&r), 1);
    assert!(log.borrow().is_empty());
}

#[test]
fn load_failure_aborts_before_any_script() {
    let (loader, log) = setup();
    let entries = entries_of(&["m/File.so", "m/Corrupt.so"]);
    let r = client().run(Some("File{}".to_string()), &loader, Some(&entries), "so");
    assert_eq!(
        r,
        Err(ShipError::Registry(RegistryError::LoadError {
            path: "m/Corrupt.so".to_string(),
            reason: "file too short".to_string()
        }))
    );
    assert_eq!(*log.borrow(), vec!["load m/File.so".to_string()]);
}

#[test]
fn missing_entry_point_aborts_before_any_script() {
    let (loader, log) = setup();
    let entries = entries_of(&["m/File.so", "m/Half.so"]);
    let r = client().run(Some("File{}".to_string()), &loader, Some(&entries), "so");
    assert_eq!(
        r,
        Err(ShipError::Registry(RegistryError::LoadError {
            path: "m/Half.so".to_string(),
            reason: "missing entry point HalfApply".to_string()
        }))
    );
    assert_eq!(*log.borrow(), vec!["load m/File.so".to_string(), "load m/Half.so".to_string()]);
}

#[test]
fn broken_plugin_fails_the_run() {
    let (loader, _) = setup();
    let entries = entries_of(&["m/Broken.so"]);
    let r = client().run(Some("Broken{}".to_string()), &loader, Some(&entries), "so");
    assert_eq!(
        r,
        Err(ShipError::Run(RunError::Fatal(EngineError::Protocol(ProtocolError::InvalidJson))))
    );
}

#[test]
fn remote_needs_targets_or_groups() {
    assert_eq!(client().remote(), Err(ClientError::TargetsOrGroupsRequired));
    let mut c = client();
    c.targets = Some(vec!["host1".to_string()]);
    assert_eq!(c.remote(), Ok(()));
    let mut c = client();
    c.groups = Some(Vec::new());
    assert_eq!(c.remote(), Ok(()));
    let mut c = client();
    c.inventory = Some("inventory.toml".to_string());
    assert_eq!(c.remote(), Err(ClientError::TargetsOrGroupsRequired));
}

#[test]
fn error_texts() {
    assert_eq!(RunnableError::InvalidManifest.message(), "Invalid manifest");
    assert_eq!(RunnableError::InvalidModule.message(), "Invalid module");
    assert_eq!(RunnableError::InvalidConfig.message(), "Invalid module path");
    assert_eq!(RunnableError::InvalidInventory.message(), "Invalid inventory");
    assert_eq!(RunnableError::InvalidTarget.message(), "Invalid target");
    assert_eq!(RunnableError::InvalidGroup.message(), "Invalid group");
    assert_eq!(RunnableError::InvalidPath.message(), "Invalid agent config");
    assert_eq!(RunnableError::InvalidDestination.message(), "Invalid destination");
    assert_eq!(
        ClientError::ManifestNotFound("site.lua".to_string()).message(),
        "Manifest not found at path site.lua"
    );
    assert_eq!(
        ClientError::TargetsOrGroupsRequired.message(),
        "You must provide either targets or groups!"
    );
    assert_eq!(
        InvalidAgentConfigPath("/etc/x.toml".to_string()).message(),
        "Invalid agent config path /etc/x.toml"
    );
    assert_eq!(ProtocolError::InvalidUtf8.message(), "plugin response is not UTF-8");
    assert_eq!(
        RegistryError::DuplicateResourceName("File".to_string()).message(),
        "two plugins serve the resource File"
    );
    let unloaded = RegistryError::LoadError {
        path: "m/File.so".to_string(),
        reason: "file too short".to_string(),
    };
    assert_eq!(unloaded.message(), "cannot load m/File.so: file too short");
    assert_eq!(ShipError::Registry(unloaded).message(), "cannot load m/File.so: file too short");
    assert_eq!(
        ShipError::Client(ClientError::TargetsOrGroupsRequired).message(),
        "You must provide either targets or groups!"
    );
    assert_eq!(
        ShipError::Run(RunError::Validation(ScriptFailure::Syntax("bad mode".to_string())))
            .message(),
        "bad mode"
    );
    assert_eq!(
        RunError::Fatal(EngineError::Scripting("out of memory".to_string())).message(),
        "out of memory"
    );
    assert_eq!(RunError::Apply(ScriptFailure::Other("x".to_string())).message(), "x");
}
