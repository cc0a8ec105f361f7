use java_installer::catalog::{catalog_url, parse_kind, resolve, Json, PackageKind};
use java_installer::error::{CatalogError, InstallError};
use java_installer::platform::{get_arch, get_os, identify, Arch, Os, PlatformTag};

fn s(t: &str) -> String {
    t.to_string()
}

fn package(link: Option<&str>, name: Option<&str>) -> Json {
    let mut fields = Vec::new();
    if let Some(l) = link {
        fields.push((s("link"), Json::Str(s(l))));
    }
    if let Some(n) = name {
        fields.push((s("name"), Json::Str(s(n))));
    }
    fields.push((s("size"), Json::Number(s("1234"))));
    Json::Object(fields)
}

fn entry(semver: Option<&str>, binaries: Json) -> Json {
    let mut fields = Vec::new();
    if let Some(v) = semver {
        fields.push((
            s("version_data"),
            Json::Object(vec![
                (s("major"), Json::Number(s("17"))),
                (s("semver"), Json::Str(s(v))),
            ]),
        ));
    }
    fields.push((s("binaries"), binaries));
    Json::Object(fields)
}

fn binaries_with(pkg: Json) -> Json {
    Json::Array(vec![Json::Object(vec![
        (s("os"), Json::Str(s("linux"))),
        (s("package"), pkg),
    ])])
}

#[test]
fn identify_recognised_pairs() {
    assert_eq!(
        identify("linux", "x86_64"),
        Ok(PlatformTag { os: Os::Linux, arch: Arch::X64 })
    );
    assert_eq!(
        identify("macos", "aarch64"),
        Ok(PlatformTag { os: Os::Mac, arch: Arch::Aarch64 })
    );
    assert_eq!(
        identify("windows", "x86_64"),
        Ok(PlatformTag { os: Os::Windows, arch: Arch::X64 })
    );
    assert_eq!(identify("linux", "x86_64"), identify("linux", "x86_64"));
}

#[test]
fn identify_rejects_unknown_hosts() {
    assert_eq!(identify("freebsd", "x86_64"), Err(InstallError::UnsupportedPlatform));
    assert_eq!(identify("linux", "riscv64"), Err(InstallError::UnsupportedPlatform));
    assert_eq!(identify("mac", "x86_64"), Err(InstallError::UnsupportedPlatform));
    assert_eq!(get_os("Linux"), Err(InstallError::UnsupportedPlatform));
    assert_eq!(get_arch("x64"), Err(InstallError::UnsupportedPlatform));
}

#[test]
fn catalog_names_of_platforms() {
    assert_eq!(get_os("macos").unwrap().name(), "mac");
    assert_eq!(get_os("linux").unwrap().name(), "linux");
    assert_eq!(get_os("windows").unwrap().name(), "windows");
    assert_eq!(get_arch("x86_64").unwrap().name(), "x64");
    assert_eq!(get_arch("aarch64").unwrap().name(), "aarch64");
}

#[test]
fn kind_is_case_normalised() {
    assert_eq!(parse_kind("jdk"), Ok(PackageKind::Jdk));
    assert_eq!(parse_kind("JDK"), Ok(PackageKind::Jdk));
    assert_eq!(parse_kind("Jre"), Ok(PackageKind::Jre));
    assert_eq!(parse_kind("jdk "), Err(InstallError::InvalidInput));
    assert_eq!(parse_kind("sdk"), Err(InstallError::InvalidInput));
    assert_eq!(parse_kind(""), Err(InstallError::InvalidInput));
}

#[test]
fn catalog_query_url() {
    let t = PlatformTag { os: Os::Linux, arch: Arch::X64 };
    assert_eq!(
        catalog_url(17, t, PackageKind::Jdk),
        "https://api.adoptium.net/v3/assets/feature_releases/17/ga?architecture=x64&image_type=jdk&os=linux&vendor=eclipse"
    );
    let m = PlatformTag { os: Os::Mac, arch: Arch::Aarch64 };
    assert_eq!(
        catalog_url(8, m, PackageKind::Jre),
        "https://api.adoptium.net/v3/assets/feature_releases/8/ga?architecture=aarch64&image_type=jre&os=mac&vendor=eclipse"
    );
    assert_eq!(
        catalog_url(255, t, PackageKind::Jdk),
        "https://api.adoptium.net/v3/assets/feature_releases/255/ga?architecture=x64&image_type=jdk&os=linux&vendor=eclipse"
    );
}

#[test]
fn resolve_takes_first_entry() {
    let first = entry(
        Some("17.0.9+9"),
        binaries_with(package(Some("https://example/jdk17.tar.gz"), Some("jdk17.tar.gz"))),
    );
    let second = entry(
        Some("17.0.8+7"),
        binaries_with(package(Some("https://example/old.tar.gz"), Some("old.tar.gz"))),
    );
    let asset = resolve(&Json::Array(vec![first, second])).unwrap();
    assert_eq!(asset.semver, "17.0.9+9");
    assert_eq!(asset.download_url, "https://example/jdk17.tar.gz");
    assert_eq!(asset.artifact_name, "jdk17.tar.gz");
}

#[test]
fn resolve_empty_list_is_not_found() {
    assert_eq!(resolve(&Json::Array(vec![])), Err(CatalogError::NotFound));
}

#[test]
fn resolve_rejects_non_list() {
    assert_eq!(resolve(&Json::Null), Err(CatalogError::NotAList));
    assert_eq!(resolve(&Json::Object(vec![])), Err(CatalogError::NotAList));
}

#[test]
fn resolve_missing_version() {
    let e = entry(None, binaries_with(package(Some("u"), Some("n.zip"))));
    assert_eq!(resolve(&Json::Array(vec![e])), Err(CatalogError::MissingVersion));
    let bad = Json::Object(vec![(
        s("version_data"),
        Json::Object(vec![(s("semver"), Json::Number(s("17")))]),
    )]);
    assert_eq!(resolve(&Json::Array(vec![bad])), Err(CatalogError::MissingVersion));
}

#[test]
fn resolve_missing_package() {
    let no_binaries = entry(Some("17.0.9+9"), Json::Array(vec![]));
    assert_eq!(resolve(&Json::Array(vec![no_binaries])), Err(CatalogError::MissingPackage));
    let not_object = entry(Some("17.0.9+9"), binaries_with(Json::Str(s("pkg"))));
    assert_eq!(resolve(&Json::Array(vec![not_object])), Err(CatalogError::MissingPackage));
}

#[test]
fn resolve_missing_link() {
    let e = entry(Some("17.0.9+9"), binaries_with(package(None, Some("jdk17.tar.gz"))));
    assert_eq!(resolve(&Json::Array(vec![e])), Err(CatalogError::MissingLink));
    let again = entry(Some("17.0.9+9"), binaries_with(package(None, Some("jdk17.tar.gz"))));
    assert_eq!(resolve(&Json::Array(vec![again])), Err(CatalogError::MissingLink));
}

#[test]
fn resolve_missing_name() {
    let e = entry(Some("17.0.9+9"), binaries_with(package(Some("u"), None)));
    assert_eq!(resolve(&Json::Array(vec![e])), Err(CatalogError::MissingName));
}
