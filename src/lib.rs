//! Resolving, fetching and installing a runtime distribution from a release
//! catalog, and making it the active runtime for future sessions.
//!
//! The install pipeline itself is [`install::InstallSession`]: a state
//! machine whose actions the caller performs (network, filesystem, registry)
//! and whose events the caller reports back.

pub mod archive;
pub mod catalog;
pub mod cli;
pub mod environment;
pub mod error;
pub mod fetch;
pub mod install;
pub mod platform;
pub mod text;
