use caravel::protocol::PluginLibrary;
use caravel::registry::{
    discover, is_plugin_path, missing_entry_point, plan, resource_name, ModuleFile, ModuleLoader,
    RegistryError,
};
use std::cell::RefCell;

/// What the recorder hands out as a loaded library: the path, and whether the
/// library exports the entry points.
#[derive(Debug, PartialEq)]
struct Stub {
    path: String,
    validates: bool,
    applies: bool,
}

impl PluginLibrary for Stub {
    fn exports(&self, symbol: &str) -> bool {
        if symbol.ends_with("Validate") {
            self.validates
        } else if symbol.ends_with("Apply") {
            self.applies
        } else {
            false
        }
    }

    fn call(&self, symbol: &str, _input: &str) -> Result<Vec<u8>, String> {
        Err(format!("{} is not callable", symbol))
    }

    fn describe(&self, symbol: &str) -> Result<Vec<u8>, String> {
        Err(format!("{} is not callable", symbol))
    }
}

/// Loads nothing: hands back the path, and fails for the paths it was told to.
struct Recorder {
    broken: Vec<String>,
    loaded: RefCell<Vec<String>>,
}

impl Recorder {
    fn new(broken: &[&str]) -> Recorder {
        Recorder {
            broken: broken.iter().map(|s| s.to_string()).collect(),
            loaded: RefCell::new(Vec::new()),
        }
    }
}

impl ModuleLoader for Recorder {
    type Handle = Stub;

    fn load(&self, path: &str) -> Result<Stub, String> {
        if self.broken.iter().any(|b| b == path) {
            return Err("invalid ELF header".to_string());
        }
        self.loaded.borrow_mut().push(path.to_string());
        Ok(Stub {
            path: path.to_string(),
            validates: !path.contains("NoValidate") && !path.contains("Empty"),
            applies: !path.contains("NoApply") && !path.contains("Empty"),
        })
    }
}

fn listing(paths: &[&str]) -> Vec<String> {
    paths.iter().map(|s| s.to_string()).collect()
}

#[test]
fn name_is_the_stem_before_the_first_dot() {
    assert_eq!(resource_name("File.v2.so"), "File");
    assert_eq!(resource_name("File.so"), "File");
    assert_eq!(resource_name("./caravel_modules/File.so"), "File");
    assert_eq!(resource_name("./caravel_modules/File.backup.so"), "File");
    assert_eq!(resource_name("/opt/mods.d/Service.so"), "Service");
    assert_eq!(resource_name("a.b/c.d/Package.tar.so"), "Package");
}

#[test]
fn name_edge_cases() {
    assert_eq!(resource_name(""), "");
    assert_eq!(resource_name("File"), "File");
    assert_eq!(resource_name(".so"), "");
    assert_eq!(resource_name("dir/.hidden.so"), "");
    assert_eq!(resource_name("dir/"), "");
    assert_eq!(resource_name("dir.d/"), "");
    assert_eq!(resource_name("/"), "");
    assert_eq!(resource_name("."), "");
    assert_eq!(resource_name("Fichier\u{e9}.so"), "Fichier\u{e9}");
    assert_eq!(resource_name("\u{1f980}/\u{1f40d}.\u{1f980}.so"), "\u{1f40d}");
}

#[test]
fn plugin_files_end_in_the_extension() {
    assert!(is_plugin_path("./caravel_modules/File.so", "so"));
    assert!(is_plugin_path("File.v2.so", "so"));
    assert!(is_plugin_path(".so", "so"));
    assert!(is_plugin_path("File.dylib", "dylib"));
    assert!(is_plugin_path("File.", ""));
    assert!(!is_plugin_path("File.so", "dylib"));
    assert!(!is_plugin_path("File.so.bak", "so"));
    assert!(!is_plugin_path("Fileso", "so"));
    assert!(!is_plugin_path("so", "so"));
    assert!(!is_plugin_path("", "so"));
    assert!(!is_plugin_path("File", ""));
    assert!(!is_plugin_path("README.md", "so"));
    assert!(!is_plugin_path("File.SO", "so"));
}

#[test]
fn plan_picks_plugins_in_listing_order() {
    let entries = listing(&[
        "./caravel_modules/Service.so",
        "./caravel_modules/README.md",
        "./caravel_modules/File.v2.so",
        "./caravel_modules/notes.so.txt",
    ]);
    assert_eq!(
        plan(&entries, "so"),
        Ok(vec![
            ModuleFile {
                name: "Service".to_string(),
                path: "./caravel_modules/Service.so".to_string()
            },
            ModuleFile {
                name: "File".to_string(),
                path: "./caravel_modules/File.v2.so".to_string()
            },
        ])
    );
    assert_eq!(plan(&Vec::new(), "so"), Ok(Vec::new()));
    assert_eq!(plan(&listing(&["a.txt", "b"]), "so"), Ok(Vec::new()));
}

#[test]
fn plan_refuses_two_plugins_for_one_name() {
    let entries = listing(&[
        "./caravel_modules/Service.so",
        "./caravel_modules/File.so",
        "./caravel_modules/Package.so",
        "./caravel_modules/File.backup.so",
        "./caravel_modules/Service.old.so",
    ]);
    assert_eq!(
        plan(&entries, "so"),
        Err(RegistryError::DuplicateResourceName("File".to_string()))
    );
    // A file that is no plugin does not clash.
    let entries = listing(&["File.so", "File.txt", "File"]);
    assert_eq!(plan(&entries, "so").map(|files| files.len()), Ok(1));
}

#[test]
fn missing_directory_has_no_modules() {
    let loader = Recorder::new(&[]);
    let modules = discover(&loader, None, "so").unwrap();
    assert!(modules.is_empty());
    assert!(loader.loaded.borrow().is_empty());
}

#[test]
fn empty_directory_has_no_modules() {
    let loader = Recorder::new(&[]);
    let modules = discover(&loader, Some(&Vec::new()), "so").unwrap();
    assert!(modules.is_empty());
}

#[test]
fn discover_loads_every_plugin_under_its_name() {
    let loader = Recorder::new(&[]);
    let entries = listing(&["mods/File.v2.so", "mods/skip.txt", "mods/Service.so"]);
    let modules = discover(&loader, Some(&entries), "so").unwrap();
    assert_eq!(modules.len(), 2);
    assert_eq!(modules[0].name, "File");
    assert_eq!(modules[0].binary_path, "mods/File.v2.so");
    assert_eq!(modules[0].handle.path, "mods/File.v2.so");
    assert_eq!(modules[1].name, "Service");
    assert_eq!(modules[1].binary_path, "mods/Service.so");
    assert_eq!(modules[1].handle.path, "mods/Service.so");
    assert_eq!(
        *loader.loaded.borrow(),
        vec!["mods/File.v2.so".to_string(), "mods/Service.so".to_string()]
    );
}

#[test]
fn discover_refuses_two_plugins_for_one_name() {
    let loader = Recorder::new(&[]);
    let entries = listing(&["caravel_modules/File.so", "caravel_modules/File.backup.so"]);
    let r = discover(&loader, Some(&entries), "so");
    assert_eq!(
        r.map(|m| m.len()),
        Err(RegistryError::DuplicateResourceName("File".to_string()))
    );
    // Nothing was loaded: names are settled first.
    assert!(loader.loaded.borrow().is_empty());
}

#[test]
fn discover_fails_on_the_first_plugin_that_does_not_load() {
    let loader = Recorder::new(&["mods/Service.so", "mods/Zed.so"]);
    let entries = listing(&["mods/File.so", "mods/Service.so", "mods/Package.so", "mods/Zed.so"]);
    let r = discover(&loader, Some(&entries), "so");
    assert_eq!(
        r.map(|m| m.len()),
        Err(RegistryError::LoadError {
            path: "mods/Service.so".to_string(),
            reason: "invalid ELF header".to_string()
        })
    );
    assert_eq!(*loader.loaded.borrow(), vec!["mods/File.so".to_string()]);
}

#[test]
fn discover_refuses_a_plugin_without_its_entry_points() {
    for (file, symbol) in [
        ("mods/NoValidate.so", "NoValidateValidate"),
        ("mods/NoApply.so", "NoApplyApply"),
        ("mods/Empty.so", "EmptyValidate"),
    ] {
        let loader = Recorder::new(&[]);
        let entries = listing(&["mods/File.so", file, "mods/Service.so"]);
        let r = discover(&loader, Some(&entries), "so");
        assert_eq!(
            r.map(|m| m.len()),
            Err(RegistryError::LoadError {
                path: file.to_string(),
                reason: format!("missing entry point {}", symbol)
            })
        );
        assert_eq!(*loader.loaded.borrow(), vec!["mods/File.so".to_string(), file.to_string()]);
    }
}

#[test]
fn missing_entry_point_names_validation_first() {
    assert_eq!(missing_entry_point("File", true, true), None);
    assert_eq!(missing_entry_point("File", false, true), Some("FileValidate".to_string()));
    assert_eq!(missing_entry_point("File", true, false), Some("FileApply".to_string()));
    assert_eq!(missing_entry_point("File", false, false), Some("FileValidate".to_string()));
}
