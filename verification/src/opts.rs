//! The command line as it was captured, before anything is decided.
use std::path::PathBuf;
use vstd::prelude::*;

verus! {

/// The raw options of one invocation. Nothing here is validated and nothing
/// is defaulted: the struct only carries what was given.
#[derive(Debug)]
pub struct Opts {
    /// The positional tokens, in the order given.
    pub args: Vec<String>,
    /// The path of the store, where one was given explicitly.
    pub config: Option<PathBuf>,
    /// The working directory, where one was given explicitly.
    pub pwd: Option<PathBuf>,
}

} // verus!
