//! Caravel: configuration management from a manifest.
//!
//! A manifest is a Lua script that declares resources: files, services,
//! packages. Each type of resource is served by a plugin, a dynamic library
//! that can validate and apply one resource of its type. The engine runs the
//! manifest twice against the plugins: once to validate every resource, and,
//! only if that went well, once more to apply them.
//!
//! - [`protocol`]: the entry points of a plugin and the response they return.
//! - [`registry`]: which files are plugins, and under which names.
//! - [`bridge`]: the Lua state in which each plugin is a global function.
//! - [`controller`]: the two passes, and what a run comes to.
//! - [`client`]: `ship`, from the text of a manifest to an exit code.
//! - [`resource`]: the plugin's side, for authors of resource types.
//! - [`events`], [`upload`], [`agent`], [`config`]: the agent that runs
//!   manifests for a host.
//! - [`module`]: the commands on modules.
//!
//! What the library proves is stated in the contracts. What it takes on trust
//! is marked `external_body`: the calls into `serde_json`, `mlua`, `uuid` and
//! `rand`, and a few into `std`.

pub mod agent;
pub mod bridge;
pub mod client;
pub mod config;
pub mod controller;
pub mod errors;
pub mod events;
pub mod file;
pub mod json;
pub mod manifest;
pub mod module;
pub mod protocol;
pub mod registry;
pub mod resource;
pub mod text;
pub mod upload;
pub mod util;

use vstd::prelude::*;

verus! {

/// Which pass of a run a binding serves.
#[derive(Clone, Copy, Debug, PartialEq, Eq, Structural)]
pub enum ExecutionPhase {
    Validating,
    Applying,
}

} // verus!
