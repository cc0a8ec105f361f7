//! Failures of the install pipeline.
use vstd::prelude::*;

verus! {

/// Why the release catalog could not give an asset.
#[derive(Clone, Copy, Debug, PartialEq, Eq, Structural)]
pub enum CatalogError {
    /// The response is not a list of release entries.
    NotAList,
    /// The list of release entries is empty.
    NotFound,
    /// The first entry has no `version_data.semver` string.
    MissingVersion,
    /// The first entry has no `binaries[0].package` object.
    MissingPackage,
    /// The package object has no `link` string.
    MissingLink,
    /// The package object has no `name` string.
    MissingName,
}

/// Every way an install can fail.
#[derive(Clone, Debug, PartialEq, Eq)]
pub enum InstallError {
    /// The package kind is neither `jdk` nor `jre`.
    InvalidInput,
    /// The host operating system or architecture is not one the catalog serves.
    UnsupportedPlatform,
    /// The catalog could not be queried or its answer was unusable.
    CatalogLookupFailed(CatalogError),
    /// The catalog request itself failed; the cause is carried as text.
    CatalogUnreachable(String),
    /// No install directory was given and the user's home directory is unknown.
    NoHomeDirectory,
    /// The home directory of the resolved release exists and no force was asked for.
    AlreadyInstalled(String),
    /// The artifact could not be fetched.
    DownloadFailed(String),
    /// The artifact's file name carries no known archive extension.
    UnsupportedArchiveFormat,
    /// The archive could not be unpacked.
    ExtractionFailed(String),
    /// The session environment could not be updated.
    EnvironmentConfigFailed(String),
}

} // verus!
