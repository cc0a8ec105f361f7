//! The command line's shape, as plain values.
use vstd::prelude::*;

verus! {

/// A parsed command line.
#[derive(Clone, Debug, PartialEq, Eq)]
pub struct Cli {
    pub command: Commands,
}

/// The commands the tool understands.
#[derive(Clone, Debug, PartialEq, Eq)]
pub enum Commands {
    /// Install a major version of a runtime.
    Install {
        /// The major version, e.g. 17.
        version: u8,
        /// The install base directory; the default one when absent.
        path: Option<String>,
        /// `jdk` or `jre`, in any case.
        package_type: String,
        /// Install even where the home directory already exists.
        force: bool,
    },
}

} // verus!
