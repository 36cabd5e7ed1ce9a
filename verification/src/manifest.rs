//! The manifest script.

use vstd::prelude::*;

verus! {

/// A manifest: the text of a Lua script, and the name by which diagnostics
/// call it. It is read once and run in both passes as it stands.
#[derive(Debug, Clone, PartialEq, Eq)]
pub struct ManifestScript {
    pub source_text: String,
    pub display_name: String,
}

impl ManifestScript {
    pub fn new(source_text: String, display_name: String) -> (manifest: ManifestScript)
        ensures
            manifest.source_text == source_text,
            manifest.display_name == display_name,
    {
        ManifestScript { source_text, display_name }
    }
}

} // verus!
