//! Archive formats, told apart by file name.
use vstd::prelude::*;
use crate::error::InstallError;
use crate::text::{ends_with_text, has_suffix};

verus! {

/// The archive formats that can be unpacked.
#[derive(Clone, Copy, Debug, PartialEq, Eq, Structural)]
pub enum ArchiveFormat {
    /// A tar stream compressed with gzip (`.tar.gz`).
    TarGz,
    /// A zip container (`.zip`).
    Zip,
}

/// The format that a file name's extension announces, if any.
pub open spec fn format_of(name: Seq<char>) -> Option<ArchiveFormat> {
    if has_suffix(name, ".tar.gz"@) {
        Some(ArchiveFormat::TarGz)
    } else if has_suffix(name, ".zip"@) {
        Some(ArchiveFormat::Zip)
    } else {
        None
    }
}

/// Determines the archive format from the file name alone; any other
/// extension is `UnsupportedArchiveFormat`.
pub fn archive_format(name: &str) -> (r: Result<ArchiveFormat, InstallError>)
    ensures
        format_of(name@) matches Some(f) ==> r == Ok::<ArchiveFormat, InstallError>(f),
        format_of(name@) is None ==> r == Err::<ArchiveFormat, InstallError>(
            InstallError::UnsupportedArchiveFormat,
        ),
{
    if ends_with_text(name, ".tar.gz") {
        Ok(ArchiveFormat::TarGz)
    } else if ends_with_text(name, ".zip") {
        Ok(ArchiveFormat::Zip)
    } else {
        Err(InstallError::UnsupportedArchiveFormat)
    }
}

} // verus!
