//! Release resolution against the remote catalog's answer.
use vstd::prelude::*;
use crate::error::{CatalogError, InstallError};
use crate::platform::{arch_name_spec, os_name_spec, PlatformTag};
use crate::text::{decimal, decimal_text, lowercase, lowercase_of, same_text};

verus! {

/// A JSON document, as the catalog answers.
#[derive(Debug)]
pub enum Json {
    Null,
    Bool(bool),
    /// A number, in its textual form.
    Number(String),
    Str(String),
    Array(Vec<Json>),
    /// Members in document order.
    Object(Vec<(String, Json)>),
}

/// Full SDK or runtime only.
#[derive(Clone, Copy, Debug, PartialEq, Eq, Structural)]
pub enum PackageKind {
    Jdk,
    Jre,
}

pub open spec fn kind_name_spec(kind: PackageKind) -> Seq<char> {
    match kind {
        PackageKind::Jdk => "jdk"@,
        PackageKind::Jre => "jre"@,
    }
}

pub open spec fn kind_upper_spec(kind: PackageKind) -> Seq<char> {
    match kind {
        PackageKind::Jdk => "JDK"@,
        PackageKind::Jre => "JRE"@,
    }
}

/// The kind named by an already lower-cased string.
pub open spec fn kind_of(lowered: Seq<char>) -> Option<PackageKind> {
    if lowered == "jdk"@ {
        Some(PackageKind::Jdk)
    } else if lowered == "jre"@ {
        Some(PackageKind::Jre)
    } else {
        None
    }
}

impl PackageKind {
    /// The catalog's (and the directory layout's) name for this kind.
    pub fn name(&self) -> (r: &'static str)
        ensures
            r@ == kind_name_spec(*self),
    {
        match self {
            PackageKind::Jdk => "jdk",
            PackageKind::Jre => "jre",
        }
    }

    /// The upper-case name used in reports.
    pub fn upper_name(&self) -> (r: &'static str)
        ensures
            r@ == kind_upper_spec(*self),
    {
        match self {
            PackageKind::Jdk => "JDK",
            PackageKind::Jre => "JRE",
        }
    }
}

/// Reads a kind from a string that is already lower case.
pub fn kind_from_lowered(lowered: &str) -> (r: Result<PackageKind, InstallError>)
    ensures
        kind_of(lowered@) matches Some(k) ==> r == Ok::<PackageKind, InstallError>(k),
        kind_of(lowered@) is None ==> r == Err::<PackageKind, InstallError>(
            InstallError::InvalidInput,
        ),
{
    if same_text(lowered, "jdk") {
        Ok(PackageKind::Jdk)
    } else if same_text(lowered, "jre") {
        Ok(PackageKind::Jre)
    } else {
        Err(InstallError::InvalidInput)
    }
}

/// Case-normalises a user-supplied kind and checks it is `jdk` or `jre`.
pub fn parse_kind(package_type: &str) -> (r: Result<PackageKind, InstallError>)
    ensures
        kind_of(lowercase_of(package_type@)) matches Some(k) ==> r == Ok::<
            PackageKind,
            InstallError,
        >(k),
        kind_of(lowercase_of(package_type@)) is None ==> r == Err::<
            PackageKind,
            InstallError,
        >(InstallError::InvalidInput),
{
    let lowered = lowercase(package_type);
    kind_from_lowered(lowered.as_str())
}

/// The catalog's feature-release query for a major version, platform and kind.
pub open spec fn catalog_url_spec(version: u8, platform: PlatformTag, kind: PackageKind) -> Seq<
    char,
> {
    "https://api.adoptium.net/v3/assets/feature_releases/"@ + decimal(version as nat)
        + "/ga?architecture="@ + arch_name_spec(platform.arch) + "&image_type="@
        + kind_name_spec(kind) + "&os="@ + os_name_spec(platform.os) + "&vendor=eclipse"@
}

/// Builds the catalog query for a major version, platform and kind.
pub fn catalog_url(version: u8, platform: PlatformTag, kind: PackageKind) -> (r: String)
    ensures
        r@ == catalog_url_spec(version, platform, kind),
{
    let mut s = String::from_str("https://api.adoptium.net/v3/assets/feature_releases/");
    let v = decimal_text(version);
    s.append(v.as_str());
    s.append("/ga?architecture=");
    s.append(platform.arch.name());
    s.append("&image_type=");
    s.append(kind.name());
    s.append("&os=");
    s.append(platform.os.name());
    s.append("&vendor=eclipse");
    s
}

/// One release asset picked from the catalog.
#[derive(Clone, Debug, PartialEq, Eq)]
pub struct ReleaseAsset {
    /// Canonical dotted version with build metadata, e.g. `17.0.9+9`.
    pub semver: String,
    /// File name of the downloadable archive.
    pub artifact_name: String,
    /// Where the archive is downloaded from.
    pub download_url: String,
}

/// The first member named `key`, if any.
pub open spec fn member(fields: Seq<(String, Json)>, key: Seq<char>) -> Option<Json>
    decreases fields.len(),
{
    if fields.len() == 0 {
        None
    } else if fields[0].0@ == key {
        Some(fields[0].1)
    } else {
        member(fields.drop_first(), key)
    }
}

/// `v[key]`: the member's value, or `Null` when `v` is no object or lacks the member.
pub open spec fn field(v: Json, key: Seq<char>) -> Json {
    match v {
        Json::Object(fields) => match member(fields@, key) {
            Some(j) => j,
            None => Json::Null,
        },
        _ => Json::Null,
    }
}

/// `v[i]`: the element, or `Null` when `v` is no array or too short.
pub open spec fn element(v: Json, i: nat) -> Json {
    match v {
        Json::Array(items) => if i < items@.len() {
            items@[i as int]
        } else {
            Json::Null
        },
        _ => Json::Null,
    }
}

/// The text of a JSON string.
pub open spec fn text_of(v: Json) -> Option<Seq<char>> {
    match v {
        Json::Str(s) => Some(s@),
        _ => None,
    }
}

/// The asset that a catalog answer yields, as (semver, link, name), or the
/// first thing that is missing from it.
pub open spec fn resolve_spec(resp: Json) -> Result<(Seq<char>, Seq<char>, Seq<char>), CatalogError> {
    match resp {
        Json::Array(entries) => if entries@.len() == 0 {
            Err(CatalogError::NotFound)
        } else {
            let entry = entries@[0];
            match text_of(field(field(entry, "version_data"@), "semver"@)) {
                None => Err(CatalogError::MissingVersion),
                Some(semver) => match field(element(field(entry, "binaries"@), 0), "package"@) {
                    Json::Object(package) => match text_of(field(Json::Object(package), "link"@)) {
                        None => Err(CatalogError::MissingLink),
                        Some(link) => match text_of(field(Json::Object(package), "name"@)) {
                            None => Err(CatalogError::MissingName),
                            Some(name) => Ok((semver, link, name)),
                        },
                    },
                    _ => Err(CatalogError::MissingPackage),
                },
            }
        },
        _ => Err(CatalogError::NotAList),
    }
}

fn member_ref<'a>(fields: &'a Vec<(String, Json)>, key: &str) -> (r: Option<&'a Json>)
    ensures
        match r {
            Some(j) => member(fields@, key@) == Some(*j),
            None => member(fields@, key@) is None,
        },
{
    let k = String::from_str(key);
    let mut i: usize = 0;
    assert(fields@.skip(0) =~= fields@);
    while i < fields.len()
        invariant
            i <= fields@.len(),
            k@ == key@,
            member(fields@, key@) == member(fields@.skip(i as int), key@),
        decreases fields.len() - i,
    {
        let entry = &fields[i];
        assert(fields@.skip(i as int).drop_first() =~= fields@.skip(i + 1));
        if entry.0 == k {
            return Some(&entry.1);
        }
        i = i + 1;
    }
    None
}

/// `v[key]` by reference; `None` stands for `Null`.
fn field_ref<'a>(v: &'a Json, key: &str) -> (r: Option<&'a Json>)
    ensures
        match r {
            Some(j) => field(*v, key@) == *j,
            None => field(*v, key@) == Json::Null,
        },
{
    match v {
        Json::Object(fields) => member_ref(fields, key),
        _ => None,
    }
}

fn text_ref(v: Option<&Json>) -> (r: Option<String>)
    ensures
        match v {
            Some(j) => match r {
                Some(s) => text_of(*j) == Some(s@),
                None => text_of(*j) is None,
            },
            None => r is None,
        },
{
    match v {
        Some(Json::Str(s)) => Some(s.clone()),
        _ => None,
    }
}

/// Picks the release asset from the catalog's answer: the first entry's
/// semantic version and its first binary's package link and name.
pub fn resolve(resp: &Json) -> (r: Result<ReleaseAsset, CatalogError>)
    ensures
        match r {
            Ok(a) => resolve_spec(*resp) == Ok::<(Seq<char>, Seq<char>, Seq<char>), CatalogError>(
                (a.semver@, a.download_url@, a.artifact_name@),
            ),
            Err(e) => resolve_spec(*resp) == Err::<(Seq<char>, Seq<char>, Seq<char>), CatalogError>(e),
        },
{
    let entries = match resp {
        Json::Array(entries) => entries,
        _ => return Err(CatalogError::NotAList),
    };
    if entries.len() == 0 {
        return Err(CatalogError::NotFound);
    }
    let entry = &entries[0];
    let version_data = field_ref(entry, "version_data");
    let semver = match version_data {
        Some(vd) => text_ref(field_ref(vd, "semver")),
        None => None,
    };
    let semver = match semver {
        Some(s) => s,
        None => return Err(CatalogError::MissingVersion),
    };
    let first = match field_ref(entry, "binaries") {
        Some(Json::Array(items)) => if items.len() > 0 {
            Some(&items[0])
        } else {
            None
        },
        _ => None,
    };
    let package = match first {
        Some(b) => field_ref(b, "package"),
        None => None,
    };
    let package = match package {
        Some(p) => match p {
            Json::Object(_) => p,
            _ => return Err(CatalogError::MissingPackage),
        },
        None => return Err(CatalogError::MissingPackage),
    };
    let link = match text_ref(field_ref(package, "link")) {
        Some(l) => l,
        None => return Err(CatalogError::MissingLink),
    };
    let name = match text_ref(field_ref(package, "name")) {
        Some(n) => n,
        None => return Err(CatalogError::MissingName),
    };
    Ok(ReleaseAsset { semver, artifact_name: name, download_url: link })
}

} // verus!
