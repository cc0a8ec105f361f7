//! The install pipeline as a state machine: each event from the outside world
//! (a catalog answer, a directory check, a finished download ...) gives the
//! next state and the next action to perform.
use vstd::prelude::*;
use crate::archive::{archive_format, format_of, ArchiveFormat};
use crate::catalog::{
    catalog_url, catalog_url_spec, kind_name_spec, kind_of, kind_upper_spec,
    parse_kind, resolve, resolve_spec, Json, PackageKind, ReleaseAsset,
};
use crate::environment::{strategy_for, EnvStrategy};
use crate::error::InstallError;
use crate::platform::{identify, platform_of, Os, PlatformTag};
use crate::text::{decimal, decimal_text, join_path, joined, lowercase_of};

verus! {

/// The default base directory: `{home}/.java/{package_type}`.
pub open spec fn default_base_spec(home: Seq<char>, package_type: Seq<char>) -> Seq<char> {
    joined(joined(home, ".java"@), package_type)
}

/// The default install base directory under the user's home directory.
pub fn default_install_path(home: &str, package_type: &str) -> (r: String)
    ensures
        r@ == default_base_spec(home@, package_type@),
{
    let java = join_path(home, ".java");
    join_path(java.as_str(), package_type)
}

/// The home directory of an installation: `{base}/{kind}-{semver}`.
pub open spec fn home_dir_spec(base: Seq<char>, kind: PackageKind, semver: Seq<char>) -> Seq<char> {
    joined(base, kind_name_spec(kind) + "-"@ + semver)
}

/// Computes the home directory of an installation from its base, kind and version.
pub fn home_dir_for(base: &str, kind: PackageKind, semver: &str) -> (r: String)
    ensures
        r@ == home_dir_spec(base@, kind, semver@),
{
    let mut leaf = String::from_str(kind.name());
    leaf.append("-");
    leaf.append(semver);
    join_path(base, leaf.as_str())
}

/// The base directory: the one given, else the default under the home directory.
pub open spec fn base_spec(path: Option<String>, home: Option<String>, kind: PackageKind) -> Option<
    Seq<char>,
> {
    match path {
        Some(p) => Some(p@),
        None => match home {
            Some(h) => Some(default_base_spec(h@, kind_name_spec(kind))),
            None => None,
        },
    }
}

/// What a finished install reports.
#[derive(Clone, Debug, PartialEq, Eq)]
pub struct InstallReport {
    /// The requested major version.
    pub version: u8,
    pub kind: PackageKind,
    /// Where the runtime now lives.
    pub home_dir: String,
    /// Set when the session environment could not be configured.
    pub warning: Option<InstallError>,
}

pub open spec fn report_message_spec(version: u8, kind: PackageKind, home_dir: Seq<char>) -> Seq<
    char,
> {
    "Successfully installed Java "@ + decimal(version as nat) + " "@ + kind_upper_spec(kind)
        + " at "@ + home_dir
}

impl InstallReport {
    /// The line shown to the user on success.
    pub fn message(&self) -> (r: String)
        ensures
            r@ == report_message_spec(self.version, self.kind, self.home_dir@),
    {
        let mut s = String::from_str("Successfully installed Java ");
        let v = decimal_text(self.version);
        s.append(v.as_str());
        s.append(" ");
        s.append(self.kind.upper_name());
        s.append(" at ");
        s.append(self.home_dir.as_str());
        s
    }
}

/// Where the pipeline stands.
#[derive(Clone, Copy, Debug, PartialEq, Eq, Structural)]
pub enum Stage {
    /// Waiting for the catalog's answer.
    Resolving,
    /// Waiting to learn whether the home directory exists.
    Checking,
    /// Waiting for the download into a temporary location.
    Fetching,
    /// Waiting for the archive to be unpacked.
    Extracting,
    /// Waiting for the environment to be configured.
    Configuring,
    /// Done, successfully or not.
    Finished,
}

/// What the outside world reports back.
#[derive(Debug)]
pub enum Event {
    /// The catalog answered with this document.
    CatalogFetched(Json),
    /// The catalog request failed.
    CatalogFailed(String),
    /// Whether the home directory exists.
    Existence(bool),
    Downloaded,
    DownloadFailed(String),
    Extracted,
    ExtractFailed(String),
    Configured,
    ConfigureFailed(String),
}

/// What the outside world is asked to do next.
#[derive(Debug)]
pub enum Action {
    /// Query the catalog at this URL.
    FetchCatalog(String),
    /// Find out whether this directory exists.
    CheckExisting(String),
    /// Create `home_dir` (and its parents), then download `url` into a
    /// temporary directory under the name `file_name`.
    Download { home_dir: String, url: String, file_name: String },
    /// Unpack the downloaded `file_name` into `home_dir`.
    Extract { file_name: String, format: ArchiveFormat, home_dir: String },
    /// Make `home_dir` the active runtime for future sessions.
    Configure { strategy: EnvStrategy, home_dir: String },
    /// The install succeeded.
    Report(InstallReport),
    /// The install failed.
    Fail(InstallError),
}

/// One install in progress.
#[derive(Debug)]
pub struct InstallSession {
    pub version: u8,
    pub kind: PackageKind,
    pub platform: PlatformTag,
    /// The base directory given by the user, if any.
    pub path: Option<String>,
    /// The user's home directory, for the default base directory.
    pub home: Option<String>,
    pub force: bool,
    pub stage: Stage,
    /// The resolved asset; empty until the catalog has answered.
    pub asset: ReleaseAsset,
    /// The installation's home directory; empty until the catalog has answered.
    pub home_dir: String,
}

/// The events that a stage waits for.
pub open spec fn accepts_spec(stage: Stage, event: Event) -> bool {
    match stage {
        Stage::Resolving => event is CatalogFetched || event is CatalogFailed,
        Stage::Checking => event is Existence,
        Stage::Fetching => event is Downloaded || event is DownloadFailed,
        Stage::Extracting => event is Extracted || event is ExtractFailed,
        Stage::Configuring => event is Configured || event is ConfigureFailed,
        Stage::Finished => false,
    }
}

/// A finished session takes no further event: after a failure (a catalog
/// that lists nothing, an existing installation without force) no download
/// or any later step is asked for.
pub proof fn lemma_finished_is_final(event: Event)
    ensures
        !accepts_spec(Stage::Finished, event),
{
}

impl InstallSession {
    /// Whether the session waits for this event.
    pub fn accepts(&self, event: &Event) -> (r: bool)
        ensures
            r == accepts_spec(self.stage, *event),
    {
        match self.stage {
            Stage::Resolving => matches!(event, Event::CatalogFetched(_) | Event::CatalogFailed(_)),
            Stage::Checking => matches!(event, Event::Existence(_)),
            Stage::Fetching => matches!(event, Event::Downloaded | Event::DownloadFailed(_)),
            Stage::Extracting => matches!(event, Event::Extracted | Event::ExtractFailed(_)),
            Stage::Configuring => matches!(event, Event::Configured | Event::ConfigureFailed(_)),
            Stage::Finished => false,
        }
    }

    /// Begins an install: normalises and checks the package kind, identifies
    /// the platform, and asks for the catalog query. Both checks come before
    /// any network work.
    pub fn start(
        version: u8,
        path: Option<String>,
        home: Option<String>,
        package_type: &str,
        force: bool,
        os: &str,
        arch: &str,
    ) -> (r: Result<(InstallSession, Action), InstallError>)
        ensures
            kind_of(lowercase_of(package_type@)) is None ==> r == Err::<
                (InstallSession, Action),
                InstallError,
            >(InstallError::InvalidInput),
            kind_of(lowercase_of(package_type@)) is Some && platform_of(os@, arch@) is None
                ==> r == Err::<(InstallSession, Action), InstallError>(
                InstallError::UnsupportedPlatform,
            ),
            match (kind_of(lowercase_of(package_type@)), platform_of(os@, arch@)) {
                (Some(k), Some(t)) => match r {
                    Ok((s, a)) => s.stage == Stage::Resolving && s.version == version && s.kind
                        == k && s.platform == t && s.path == path && s.home == home && s.force
                        == force && match a {
                        Action::FetchCatalog(u) => u@ == catalog_url_spec(version, t, k),
                        _ => false,
                    },
                    Err(_) => false,
                },
                _ => true,
            },
    {
        let kind = parse_kind(package_type)?;
        let platform = identify(os, arch)?;
        let url = catalog_url(version, platform, kind);
        let session = InstallSession {
            version,
            kind,
            platform,
            path,
            home,
            force,
            stage: Stage::Resolving,
            asset: ReleaseAsset {
                semver: String::new(),
                artifact_name: String::new(),
                download_url: String::new(),
            },
            home_dir: String::new(),
        };
        Ok((session, Action::FetchCatalog(url)))
    }

    /// The base directory for this session, if one can be had.
    fn base_dir(&self) -> (r: Option<String>)
        ensures
            match r {
                Some(b) => base_spec(self.path, self.home, self.kind) == Some(b@),
                None => base_spec(self.path, self.home, self.kind) is None,
            },
    {
        match &self.path {
            Some(p) => Some(p.clone()),
            None => match &self.home {
                Some(h) => Some(default_install_path(h.as_str(), self.kind.name())),
                None => None,
            },
        }
    }

    /// Takes the outside world's report and says what to do next.
    pub fn step(&mut self, event: Event) -> (r: Action)
        requires
            accepts_spec(old(self).stage, event),
        ensures
            final(self).version == old(self).version,
            final(self).kind == old(self).kind,
            final(self).platform == old(self).platform,
            final(self).path == old(self).path,
            final(self).home == old(self).home,
            final(self).force == old(self).force,
            old(self).stage != Stage::Resolving ==> final(self).asset == old(self).asset
                && final(self).home_dir == old(self).home_dir,
            old(self).stage == Stage::Resolving ==> match event {
                Event::CatalogFetched(j) => match resolve_spec(j) {
                    Err(e) => r == Action::Fail(InstallError::CatalogLookupFailed(e))
                        && final(self).stage == Stage::Finished,
                    Ok((semver, link, name)) => match base_spec(
                        old(self).path,
                        old(self).home,
                        old(self).kind,
                    ) {
                        None => r == Action::Fail(InstallError::NoHomeDirectory)
                            && final(self).stage == Stage::Finished,
                        Some(base) => final(self).stage == Stage::Checking
                            && final(self).asset.semver@ == semver
                            && final(self).asset.download_url@ == link
                            && final(self).asset.artifact_name@ == name
                            && final(self).home_dir@ == home_dir_spec(base, old(self).kind, semver)
                            && r == Action::CheckExisting(final(self).home_dir),
                    },
                },
                Event::CatalogFailed(m) => r == Action::Fail(InstallError::CatalogUnreachable(m))
                    && final(self).stage == Stage::Finished,
                _ => false,
            },
            old(self).stage == Stage::Checking ==> match event {
                Event::Existence(exists) => if exists && !old(self).force {
                    r == Action::Fail(InstallError::AlreadyInstalled(old(self).home_dir))
                        && final(self).stage == Stage::Finished
                } else {
                    r == (Action::Download {
                        home_dir: old(self).home_dir,
                        url: old(self).asset.download_url,
                        file_name: old(self).asset.artifact_name,
                    }) && final(self).stage == Stage::Fetching
                },
                _ => false,
            },
            old(self).stage == Stage::Fetching ==> match event {
                Event::Downloaded => match format_of(old(self).asset.artifact_name@) {
                    None => r == Action::Fail(InstallError::UnsupportedArchiveFormat)
                        && final(self).stage == Stage::Finished,
                    Some(f) => r == (Action::Extract {
                        file_name: old(self).asset.artifact_name,
                        format: f,
                        home_dir: old(self).home_dir,
                    }) && final(self).stage == Stage::Extracting,
                },
                Event::DownloadFailed(m) => r == Action::Fail(InstallError::DownloadFailed(m))
                    && final(self).stage == Stage::Finished,
                _ => false,
            },
            old(self).stage == Stage::Extracting ==> match event {
                Event::Extracted => r == (Action::Configure {
                    strategy: if old(self).platform.os == Os::Windows {
                        EnvStrategy::Registry
                    } else {
                        EnvStrategy::ProfileFile
                    },
                    home_dir: old(self).home_dir,
                }) && final(self).stage == Stage::Configuring,
                Event::ExtractFailed(m) => r == Action::Fail(InstallError::ExtractionFailed(m))
                    && final(self).stage == Stage::Finished,
                _ => false,
            },
            old(self).stage == Stage::Configuring ==> final(self).stage == Stage::Finished
                && match event {
                Event::Configured => r == Action::Report(
                    InstallReport {
                        version: old(self).version,
                        kind: old(self).kind,
                        home_dir: old(self).home_dir,
                        warning: None,
                    },
                ),
                Event::ConfigureFailed(m) => r == Action::Report(
                    InstallReport {
                        version: old(self).version,
                        kind: old(self).kind,
                        home_dir: old(self).home_dir,
                        warning: Some(InstallError::EnvironmentConfigFailed(m)),
                    },
                ),
                _ => false,
            },
    {
        match event {
            Event::CatalogFetched(j) => {
                let asset = match resolve(&j) {
                    Ok(a) => a,
                    Err(e) => {
                        self.stage = Stage::Finished;
                        return Action::Fail(InstallError::CatalogLookupFailed(e));
                    },
                };
                let base = match self.base_dir() {
                    Some(b) => b,
                    None => {
                        self.stage = Stage::Finished;
                        return Action::Fail(InstallError::NoHomeDirectory);
                    },
                };
                let home_dir = home_dir_for(base.as_str(), self.kind, asset.semver.as_str());
                self.asset = asset;
                self.home_dir = home_dir.clone();
                self.stage = Stage::Checking;
                Action::CheckExisting(home_dir)
            },
            Event::CatalogFailed(m) => {
                self.stage = Stage::Finished;
                Action::Fail(InstallError::CatalogUnreachable(m))
            },
            Event::Existence(exists) => {
                if exists && !self.force {
                    self.stage = Stage::Finished;
                    Action::Fail(InstallError::AlreadyInstalled(self.home_dir.clone()))
                } else {
                    self.stage = Stage::Fetching;
                    Action::Download {
                        home_dir: self.home_dir.clone(),
                        url: self.asset.download_url.clone(),
                        file_name: self.asset.artifact_name.clone(),
                    }
                }
            },
            Event::Downloaded => {
                match archive_format(self.asset.artifact_name.as_str()) {
                    Ok(f) => {
                        self.stage = Stage::Extracting;
                        Action::Extract {
                            file_name: self.asset.artifact_name.clone(),
                            format: f,
                            home_dir: self.home_dir.clone(),
                        }
                    },
                    Err(e) => {
                        self.stage = Stage::Finished;
                        Action::Fail(e)
                    },
                }
            },
            Event::DownloadFailed(m) => {
                self.stage = Stage::Finished;
                Action::Fail(InstallError::DownloadFailed(m))
            },
            Event::Extracted => {
                self.stage = Stage::Configuring;
                Action::Configure {
                    strategy: strategy_for(self.platform.os),
                    home_dir: self.home_dir.clone(),
                }
            },
            Event::ExtractFailed(m) => {
                self.stage = Stage::Finished;
                Action::Fail(InstallError::ExtractionFailed(m))
            },
            Event::Configured => {
                self.stage = Stage::Finished;
                Action::Report(
                    InstallReport {
                        version: self.version,
                        kind: self.kind,
                        home_dir: self.home_dir.clone(),
                        warning: None,
                    },
                )
            },
            Event::ConfigureFailed(m) => {
                self.stage = Stage::Finished;
                Action::Report(
                    InstallReport {
                        version: self.version,
                        kind: self.kind,
                        home_dir: self.home_dir.clone(),
                        warning: Some(InstallError::EnvironmentConfigFailed(m)),
                    },
                )
            },
        }
    }
}

} // verus!
