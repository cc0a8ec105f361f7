//! Making an installed runtime discoverable in future sessions.
use vstd::prelude::*;
use crate::platform::Os;
use crate::text::{contains_text, joined, join_path, occurs_in};

verus! {

/// How the environment is made to persist on a platform family.
#[derive(Clone, Copy, Debug, PartialEq, Eq, Structural)]
pub enum EnvStrategy {
    /// The current user's environment store in the registry.
    Registry,
    /// A line-oriented shell start-up file.
    ProfileFile,
}

/// The strategy for an operating system: the registry on Windows, a profile file elsewhere.
pub fn strategy_for(os: Os) -> (r: EnvStrategy)
    ensures
        r == (if os == Os::Windows {
            EnvStrategy::Registry
        } else {
            EnvStrategy::ProfileFile
        }),
{
    match os {
        Os::Windows => EnvStrategy::Registry,
        _ => EnvStrategy::ProfileFile,
    }
}

/// The directory of a runtime's executables.
pub fn bin_dir(java_home: &str) -> (r: String)
    ensures
        r@ == joined(java_home@, "bin"@),
{
    join_path(java_home, "bin")
}

/// The search-path value after making `bin` reachable: unchanged when `bin`
/// already occurs in it, else `bin` prepended with a `;` separator.
pub open spec fn search_path_after(path_value: Seq<char>, bin: Seq<char>) -> Seq<char> {
    if occurs_in(bin, path_value) {
        path_value
    } else {
        bin + ";"@ + path_value
    }
}

/// The new search-path value to write, or `None` when `bin` is already in it.
pub fn updated_search_path(path_value: &str, bin: &str) -> (r: Option<String>)
    ensures
        r is None <==> occurs_in(bin@, path_value@),
        r matches Some(s) ==> s@ == search_path_after(path_value@, bin@),
{
    if contains_text(path_value, bin) {
        None
    } else {
        let mut s = String::from_str(bin);
        s.append(";");
        s.append(path_value);
        Some(s)
    }
}

/// Re-applying the search-path update changes nothing: `bin` is added at most once.
pub proof fn lemma_search_path_idempotent(path_value: Seq<char>, bin: Seq<char>)
    ensures
        search_path_after(search_path_after(path_value, bin), bin) == search_path_after(
            path_value,
            bin,
        ),
{
    let once = search_path_after(path_value, bin);
    if !occurs_in(bin, path_value) {
        let z: int = 0;
        assert(once.subrange(z, z + bin.len()) =~= bin);
        assert(occurs_in(bin, once));
    }
}

/// The start-up file, relative to the home directory, for the active shell.
pub open spec fn shell_config_spec(shell: Seq<char>) -> Seq<char> {
    if occurs_in("zsh"@, shell) {
        ".zshrc"@
    } else {
        ".bashrc"@
    }
}

/// Picks the start-up file for the active shell (`$SHELL`): zsh has its own, anything else
/// uses the bash one.
pub fn shell_config_file(shell: &str) -> (r: &'static str)
    ensures
        r@ == shell_config_spec(shell@),
{
    if contains_text(shell, "zsh") {
        ".zshrc"
    } else {
        ".bashrc"
    }
}

/// The lines appended to a start-up file: the home export and the path update.
pub open spec fn profile_lines(java_home: Seq<char>) -> Seq<char> {
    "\nexport JAVA_HOME="@ + java_home + "\n"@ + "export PATH=\"$JAVA_HOME/bin:$PATH\"\n"@
}

/// A start-up file's content after configuring `java_home`: unchanged when
/// a home export is already present, else with the two lines appended.
pub open spec fn profile_after(content: Seq<char>, java_home: Seq<char>) -> Seq<char> {
    if occurs_in("JAVA_HOME"@, content) {
        content
    } else {
        content + profile_lines(java_home)
    }
}

/// The text to append to a start-up file, or `None` when it already exports the home.
pub fn profile_addition(content: &str, java_home: &str) -> (r: Option<String>)
    ensures
        r is None <==> occurs_in("JAVA_HOME"@, content@),
        r matches Some(s) ==> content@ + s@ == profile_after(content@, java_home@),
        r matches Some(s) ==> s@ == profile_lines(java_home@),
{
    if contains_text(content, "JAVA_HOME") {
        None
    } else {
        let mut s = String::from_str("\nexport JAVA_HOME=");
        s.append(java_home);
        s.append("\n");
        s.append("export PATH=\"$JAVA_HOME/bin:$PATH\"\n");
        Some(s)
    }
}

/// Re-applying the start-up file update changes nothing: one home export and
/// one path line, however often it runs.
pub proof fn lemma_profile_idempotent(content: Seq<char>, java_home: Seq<char>)
    ensures
        profile_after(profile_after(content, java_home), java_home) == profile_after(
            content,
            java_home,
        ),
{
    let once = profile_after(content, java_home);
    if !occurs_in("JAVA_HOME"@, content) {
        reveal_strlit("\nexport JAVA_HOME=");
        reveal_strlit("JAVA_HOME");
        let at: int = content.len() as int + 8;
        assert(once.subrange(at, at + 9) =~= "JAVA_HOME"@);
        assert(occurs_in("JAVA_HOME"@, once));
    }
}

} // verus!
