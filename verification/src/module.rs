//! The commands on modules: `module new` and `module validate`.

use vstd::prelude::*;

verus! {

/// A command that can be run.
pub trait Runnable {
    fn run(&self);
}

/// `module new`: set up a directory in which to develop a module.
#[derive(Debug, Clone, PartialEq, Eq)]
pub struct CreateModule {
    /// The directory to set up.
    pub destination: String,
}

/// `module validate`: look over the directory of a module.
#[derive(Debug, Clone, PartialEq, Eq)]
pub struct ValidateModule {
    /// The directory to look over.
    pub path: String,
}

} // verus!
