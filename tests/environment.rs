use java_installer::archive::{archive_format, ArchiveFormat};
use java_installer::environment::{
    bin_dir, profile_addition, shell_config_file, strategy_for, updated_search_path, EnvStrategy,
};
use java_installer::error::InstallError;
use java_installer::fetch::DownloadProgress;
use java_installer::platform::Os;
use java_installer::text::{decimal_text, join_path, same_text};

#[test]
fn search_path_prepends_bin_once() {
    let bin = "C:/java/jdk-17/bin";
    let first = updated_search_path("C:/Windows", bin).unwrap();
    assert_eq!(first, "C:/java/jdk-17/bin;C:/Windows");
    assert_eq!(updated_search_path(&first, bin), None);
    assert_eq!(updated_search_path("", bin).unwrap(), "C:/java/jdk-17/bin;");
}

#[test]
fn profile_lines_added_once() {
    let home = "/home/u/.java/jdk/jdk-17.0.9+9";
    let add = profile_addition("alias ll='ls -l'\n", home).unwrap();
    assert_eq!(
        add,
        "\nexport JAVA_HOME=/home/u/.java/jdk/jdk-17.0.9+9\nexport PATH=\"$JAVA_HOME/bin:$PATH\"\n"
    );
    let after = format!("alias ll='ls -l'\n{}", add);
    assert_eq!(profile_addition(&after, home), None);
    assert_eq!(after.matches("JAVA_HOME=").count(), 1);
    assert!(profile_addition("", home).is_some());
    assert_eq!(profile_addition("export JAVA_HOME=/opt/other\n", home), None);
}

#[test]
fn shell_start_up_file() {
    assert_eq!(shell_config_file("/usr/bin/zsh"), ".zshrc");
    assert_eq!(shell_config_file("/bin/bash"), ".bashrc");
    assert_eq!(shell_config_file(""), ".bashrc");
}

#[test]
fn strategy_by_platform() {
    assert_eq!(strategy_for(Os::Windows), EnvStrategy::Registry);
    assert_eq!(strategy_for(Os::Linux), EnvStrategy::ProfileFile);
    assert_eq!(strategy_for(Os::Mac), EnvStrategy::ProfileFile);
    assert_eq!(bin_dir("/opt/jdk"), "/opt/jdk/bin");
}

#[test]
fn archive_format_by_extension() {
    assert_eq!(archive_format("x.tar.gz"), Ok(ArchiveFormat::TarGz));
    assert_eq!(archive_format("x.zip"), Ok(ArchiveFormat::Zip));
    assert_eq!(archive_format("x.exe"), Err(InstallError::UnsupportedArchiveFormat));
    assert_eq!(archive_format("x.gz"), Err(InstallError::UnsupportedArchiveFormat));
    assert_eq!(archive_format("zip"), Err(InstallError::UnsupportedArchiveFormat));
}

#[test]
fn text_helpers() {
    assert_eq!(decimal_text(0), "0");
    assert_eq!(decimal_text(7), "7");
    assert_eq!(decimal_text(17), "17");
    assert_eq!(decimal_text(100), "100");
    assert_eq!(decimal_text(255), "255");
    assert_eq!(join_path("", "a"), "a");
    assert_eq!(join_path("/x/", "a"), "/x/a");
    assert_eq!(join_path("/x", "a"), "/x/a");
    assert!(same_text("abc", "abc"));
    assert!(!same_text("abc", "abd"));
    assert!(!same_text("abc", "ab"));
}

#[test]
fn progress_counts_chunks() {
    let mut p = DownloadProgress::new(Some(10));
    assert!(p.advance(4));
    assert!(p.advance(6));
    assert_eq!(p.downloaded, 10);
    assert_eq!(p.total, Some(10));
    let mut q = DownloadProgress::new(None);
    assert!(q.advance(u64::MAX));
    assert!(!q.advance(1));
    assert_eq!(q.downloaded, u64::MAX);
}
