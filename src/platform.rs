//! The host platform, in the vocabulary of the release catalog.
use vstd::prelude::*;
use crate::error::InstallError;
use crate::text::same_text;

verus! {

/// Operating systems that the release catalog serves.
#[derive(Clone, Copy, Debug, PartialEq, Eq, Structural)]
pub enum Os {
    Linux,
    Mac,
    Windows,
}

/// CPU architectures that the release catalog serves.
#[derive(Clone, Copy, Debug, PartialEq, Eq, Structural)]
pub enum Arch {
    X64,
    Aarch64,
}

/// The host platform: fixed once per run.
#[derive(Clone, Copy, Debug, PartialEq, Eq, Structural)]
pub struct PlatformTag {
    pub os: Os,
    pub arch: Arch,
}

/// The catalog's operating system for a Rust target OS name, if it serves it.
pub open spec fn os_of(host: Seq<char>) -> Option<Os> {
    if host == "linux"@ {
        Some(Os::Linux)
    } else if host == "macos"@ {
        Some(Os::Mac)
    } else if host == "windows"@ {
        Some(Os::Windows)
    } else {
        None
    }
}

/// The catalog's architecture for a Rust target architecture name, if it serves it.
pub open spec fn arch_of(host: Seq<char>) -> Option<Arch> {
    if host == "x86_64"@ {
        Some(Arch::X64)
    } else if host == "aarch64"@ {
        Some(Arch::Aarch64)
    } else {
        None
    }
}

pub open spec fn os_name_spec(os: Os) -> Seq<char> {
    match os {
        Os::Linux => "linux"@,
        Os::Mac => "mac"@,
        Os::Windows => "windows"@,
    }
}

pub open spec fn arch_name_spec(arch: Arch) -> Seq<char> {
    match arch {
        Arch::X64 => "x64"@,
        Arch::Aarch64 => "aarch64"@,
    }
}

impl Os {
    /// The name the catalog uses for this operating system.
    pub fn name(&self) -> (r: &'static str)
        ensures
            r@ == os_name_spec(*self),
    {
        match self {
            Os::Linux => "linux",
            Os::Mac => "mac",
            Os::Windows => "windows",
        }
    }
}

impl Arch {
    /// The name the catalog uses for this architecture.
    pub fn name(&self) -> (r: &'static str)
        ensures
            r@ == arch_name_spec(*self),
    {
        match self {
            Arch::X64 => "x64",
            Arch::Aarch64 => "aarch64",
        }
    }
}

/// Maps a Rust target OS name (`std::env::consts::OS`) to the catalog's operating system.
pub fn get_os(host: &str) -> (r: Result<Os, InstallError>)
    ensures
        os_of(host@) matches Some(os) ==> r == Ok::<Os, InstallError>(os),
        os_of(host@) is None ==> r == Err::<Os, InstallError>(InstallError::UnsupportedPlatform),
{
    if same_text(host, "linux") {
        Ok(Os::Linux)
    } else if same_text(host, "macos") {
        Ok(Os::Mac)
    } else if same_text(host, "windows") {
        Ok(Os::Windows)
    } else {
        Err(InstallError::UnsupportedPlatform)
    }
}

/// Maps a Rust target architecture name (`std::env::consts::ARCH`) to the catalog's architecture.
pub fn get_arch(host: &str) -> (r: Result<Arch, InstallError>)
    ensures
        arch_of(host@) matches Some(arch) ==> r == Ok::<Arch, InstallError>(arch),
        arch_of(host@) is None ==> r == Err::<Arch, InstallError>(
            InstallError::UnsupportedPlatform,
        ),
{
    if same_text(host, "x86_64") {
        Ok(Arch::X64)
    } else if same_text(host, "aarch64") {
        Ok(Arch::Aarch64)
    } else {
        Err(InstallError::UnsupportedPlatform)
    }
}

/// The platform tag for a host OS and architecture, or `UnsupportedPlatform`
/// when either is outside the recognised set.
pub open spec fn platform_of(os: Seq<char>, arch: Seq<char>) -> Option<PlatformTag> {
    match (os_of(os), arch_of(arch)) {
        (Some(o), Some(a)) => Some(PlatformTag { os: o, arch: a }),
        _ => None,
    }
}

/// Identifies the platform from the host's OS and architecture names.
pub fn identify(os: &str, arch: &str) -> (r: Result<PlatformTag, InstallError>)
    ensures
        platform_of(os@, arch@) matches Some(t) ==> r == Ok::<PlatformTag, InstallError>(t),
        platform_of(os@, arch@) is None ==> r == Err::<PlatformTag, InstallError>(
            InstallError::UnsupportedPlatform,
        ),
{
    let o = get_os(os)?;
    let a = get_arch(arch)?;
    Ok(PlatformTag { os: o, arch: a })
}

/// Exactly the recognised pairs give a tag, and the tag holds the catalog's
/// operating system and architecture for those names.
pub proof fn lemma_identify_stable(os: Seq<char>, arch: Seq<char>)
    ensures
        platform_of(os, arch) is Some <==> (os_of(os) is Some && arch_of(arch) is Some),
        platform_of(os, arch) matches Some(t) ==> Some(t.os) == os_of(os) && Some(t.arch)
            == arch_of(arch),
{
}

} // verus!
