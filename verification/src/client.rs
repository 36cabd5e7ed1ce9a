//! `ship`: run a manifest against the plugins of a directory.

use crate::controller::{run, RunError};
use crate::errors::ClientError;
use crate::manifest::ManifestScript;
use crate::protocol::PluginLibrary;
use crate::registry::{
    discover, first_repeat, names_of, plugin_paths, ModuleLoader, RegistryError,
};
use vstd::prelude::*;

verus! {

/// What `ship` was asked to do. Targets, groups and inventory name the machines
/// to ship to; without them the manifest is run on this machine.
#[derive(Debug, Clone, PartialEq, Eq)]
pub struct Client {
    pub manifest: String,
    pub targets: Option<Vec<String>>,
    pub groups: Option<Vec<String>>,
    pub inventory: Option<String>,
}

/// Why shipping failed.
#[derive(Debug, Clone, PartialEq, Eq)]
pub enum ShipError {
    /// The request could not be carried out as given.
    Client(ClientError),
    /// The plugins could not be registered. No script ran.
    Registry(RegistryError),
    /// The manifest failed to validate or to apply.
    Run(RunError),
}

impl ShipError {
    /// The text that reports this failure.
    pub open spec fn text(self) -> Seq<char> {
        match self {
            ShipError::Client(error) => error.text(),
            ShipError::Registry(error) => error.text(),
            ShipError::Run(error) => error.text(),
        }
    }

    /// The text that reports this failure.
    pub fn message(&self) -> (s: String)
        ensures
            s@ == self.text(),
    {
        match self {
            ShipError::Client(error) => error.message(),
            ShipError::Registry(error) => error.message(),
            ShipError::Run(error) => error.message(),
        }
    }
}

/// The exit code of the process for the result of shipping: 0 on success, 1 on
/// any failure.
pub fn exit_code(result: &Result<(), ShipError>) -> (code: u8)
    ensures
        code == (if result is Ok {
            0u8
        } else {
            1u8
        }),
{
    match result {
        Ok(_) => 0,
        Err(_) => 1,
    }
}

impl Client {
    /// Whether machines to ship to were named: requires targets or groups.
    pub fn remote(&self) -> (r: Result<(), ClientError>)
        ensures
            r is Ok <==> self.targets is Some || self.groups is Some,
            r matches Err(e) ==> e == ClientError::TargetsOrGroupsRequired,
    {
        if self.targets.is_none() && self.groups.is_none() {
            Err(ClientError::TargetsOrGroupsRequired)
        } else {
            Ok(())
        }
    }

    /// Runs the manifest on this machine.
    ///
    /// `source` is the text of the manifest, `None` where there is no file at
    /// its path; `listing` holds the paths of the entries of the plugin
    /// directory, `None` where there is no such directory. The plugins are
    /// registered first, then the manifest is validated and applied.
    pub fn run<L: ModuleLoader>(
        &self,
        source: Option<String>,
        loader: &L,
        listing: Option<&Vec<String>>,
        extension: &str,
    ) -> (r: Result<(), ShipError>) where L::Handle: PluginLibrary + Clone + 'static
        ensures
            source is None ==> (r matches Err(
                ShipError::Client(ClientError::ManifestNotFound(path)),
            ) && path@ == self.manifest@),
            source is Some ==> !(r matches Err(ShipError::Client(_))),
            source is Some ==> (match listing {
                Some(entries) => {
                    let names = names_of(plugin_paths(entries@, extension@));
                    match first_repeat(names) {
                        Some(j) => r matches Err(
                            ShipError::Registry(RegistryError::DuplicateResourceName(name)),
                        ) && name@ == names[j],
                        None => !(r matches Err(
                            ShipError::Registry(RegistryError::DuplicateResourceName(_)),
                        )),
                    }
                },
                None => !(r matches Err(ShipError::Registry(_))),
            }),
    {
        let source_text = match source {
            Some(text) => text,
            None => {
                return Err(ShipError::Client(ClientError::ManifestNotFound(self.manifest.clone())));
            },
        };
        let mut modules = match discover(loader, listing, extension) {
            Ok(modules) => modules,
            Err(e) => {
                return Err(ShipError::Registry(e));
            },
        };
        let manifest = ManifestScript::new(source_text, self.manifest.clone());
        match run(&manifest, &mut modules) {
            Ok(_) => Ok(()),
            Err(e) => Err(ShipError::Run(e)),
        }
    }
}

} // verus!
