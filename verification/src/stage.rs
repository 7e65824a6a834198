//! The script stager: where a rewritten script is written before it runs.
//!
//! A staged script lives under the host's temporary directory, in a directory of the
//! invoking user where one is known and then in this package's own, under a file name
//! drawn at random. The library names the place; the host creates it.
//!
//! The temporary directory is the host's own path and is handed on as it came. What
//! lies below it is text.

use rand::Rng;
use vstd::prelude::*;
use crate::text::{chars_of, optional_view, string_of, strings_view};
use crate::types::Platform;

verus! {

/// Whether `c` is an ASCII letter or digit.
pub open spec fn is_alphanumeric(c: char) -> bool {
    ('a' <= c && c <= 'z') || ('A' <= c && c <= 'Z') || ('0' <= c && c <= '9')
}

/// How many characters a random file name has before its extension.
pub open spec fn name_length() -> nat {
    10
}

/// Whether `name` can be a staged file's name before the extension: ten ASCII letters
/// and digits.
pub open spec fn is_random_name(name: Seq<char>) -> bool {
    name.len() == name_length() && forall|i: int| 0 <= i < name.len() ==> is_alphanumeric(name[i])
}

/// The directory, below the user's, in which this package stages its scripts.
pub open spec fn package_directory() -> Seq<char> {
    "run_script"@
}

/// The extension of a script file: `bat` on Windows, `sh` elsewhere.
pub open spec fn extension(platform: Platform) -> Seq<char> {
    if platform == Platform::Windows {
        "bat"@
    } else {
        "sh"@
    }
}

/// The file name of a staged script: the name, a dot and the platform's extension.
pub open spec fn file_name(name: Seq<char>, platform: Platform) -> Seq<char> {
    name + seq!['.'] + extension(platform)
}

/// The directories that lead from the temporary directory to a staged script,
/// outermost first: the user's directory where a user is known, then the package's.
pub open spec fn staging_directories(user: Option<Seq<char>>) -> Seq<Seq<char>> {
    match user {
        Some(user) => seq![user, package_directory()],
        None => seq![package_directory()],
    }
}

/// The per-user directory that a lookup of the current user yields: the user's name
/// where a user was found and the name is valid text, none otherwise.
pub open spec fn user_directory(username: Option<Option<String>>) -> Option<String> {
    match username {
        Some(Some(name)) => Some(name),
        _ => None,
    }
}

/// A script to be written: where, and with what contents.
#[derive(Debug)]
pub struct ScriptFile {
    /// The directory below which the file is staged: the host's temporary directory.
    pub root: std::path::PathBuf,
    /// The directories that lead from the root to the file, outermost first. Each is
    /// to exist before the file is written.
    pub directories: Vec<String>,
    /// The file's name within the innermost directory.
    pub file_name: String,
    /// The text to write.
    pub contents: String,
}

/// The mathematical content of a [`ScriptFile`].
pub struct ScriptFileView {
    pub root: std::path::PathBuf,
    pub directories: Seq<Seq<char>>,
    pub file_name: Seq<char>,
    pub contents: Seq<char>,
}

impl View for ScriptFile {
    type V = ScriptFileView;

    open spec fn view(&self) -> ScriptFileView {
        ScriptFileView {
            root: self.root,
            directories: strings_view(self.directories@),
            file_name: self.file_name@,
            contents: self.contents@,
        }
    }
}

/// The staged form of `script`: its place and contents.
pub open spec fn script_file(
    script: Seq<char>,
    temp_dir: std::path::PathBuf,
    user: Option<Seq<char>>,
    name: Seq<char>,
    platform: Platform,
) -> ScriptFileView {
    ScriptFileView {
        root: temp_dir,
        directories: staging_directories(user),
        file_name: file_name(name, platform),
        contents: script,
    }
}

/// Different names give different file names.
pub proof fn lemma_file_name_tells_names_apart(a: Seq<char>, b: Seq<char>, platform: Platform)
    requires
        a != b,
    ensures
        file_name(a, platform) != file_name(b, platform),
{
    if file_name(a, platform) == file_name(b, platform) {
        assert(file_name(a, platform).len() == a.len() + 1 + extension(platform).len());
        assert(file_name(b, platform).len() == b.len() + 1 + extension(platform).len());
        assert forall|i: int| 0 <= i < a.len() implies a[i] == b[i] by {
            assert(file_name(a, platform)[i] == a[i]);
            assert(file_name(b, platform)[i] == b[i]);
        }
        assert(a =~= b);
    }
}

/// Two scripts that are staged under different names never share their file,
/// whatever their text, and wherever they are staged.
pub proof fn lemma_staged_files_differ(
    first: Seq<char>,
    second: Seq<char>,
    temp_dir: std::path::PathBuf,
    user: Option<Seq<char>>,
    name_of_first: Seq<char>,
    name_of_second: Seq<char>,
    platform: Platform,
)
    requires
        name_of_first != name_of_second,
    ensures
        script_file(first, temp_dir, user, name_of_first, platform).file_name != script_file(
            second,
            temp_dir,
            user,
            name_of_second,
            platform,
        ).file_name,
{
    lemma_file_name_tells_names_apart(name_of_first, name_of_second, platform);
}

/// One draw from `rand`'s `Alphanumeric` distribution with the thread's generator
/// (`Rng::sample` on `thread_rng()`). The crate draws from the ASCII letters and
/// digits; which of them comes is left open. The generator is seeded from the
/// operating system when a thread first uses it, and the crate gives up where the
/// system has no randomness to offer.
#[verifier::external_body]
fn sample_alphanumeric() -> (c: char)
    ensures
        is_alphanumeric(c),
{
    rand::thread_rng().sample(rand::distributions::Alphanumeric)
}

/// The name of the user who runs the process, as `users::get_current_username`
/// finds it: nothing where the user is unknown, and inside that nothing where the
/// name is no valid text. Nothing is claimed of the outcome.
#[verifier::external_body]
fn current_username() -> (username: Option<Option<String>>) {
    match users::get_current_username() {
        Some(name) => Some(name.into_string().ok()),
        None => None,
    }
}

/// Draws a fresh name for a staged file.
pub fn random_file_name() -> (name: String)
    ensures
        is_random_name(name@),
{
    let mut name: Vec<char> = Vec::new();
    let mut drawn: usize = 0;
    while drawn < 10
        invariant
            drawn <= 10,
            name.len() == drawn,
            forall|i: int| 0 <= i < name.len() ==> is_alphanumeric(name@[i]),
        decreases 10 - drawn,
    {
        let c = sample_alphanumeric();
        name.push(c);
        drawn += 1;
    }
    string_of(&name)
}

/// The directory of the current user, from what a lookup of the user gave.
pub fn additional_temp_path_of(username: Option<Option<String>>) -> (path: Option<String>)
    ensures
        path == user_directory(username),
{
    match username {
        Some(os_value) => match os_value {
            Some(value) => Some(value),
            None => None,
        },
        None => None,
    }
}

/// The per-user directory below the temporary directory, which keeps the scripts of
/// different users apart. Windows has none. Elsewhere it is the name of the user who
/// runs the process, and none where that user is unknown or has a name that is no
/// valid text.
pub fn get_additional_temp_path(platform: Platform) -> (path: Option<String>)
    ensures
        platform == Platform::Windows ==> path is None,
{
    match platform {
        Platform::Windows => None,
        Platform::Unix => additional_temp_path_of(current_username()),
    }
}

/// The extension of script files on `platform`.
fn extension_of(platform: Platform) -> (text: &'static str)
    ensures
        text@ == extension(platform),
{
    match platform {
        Platform::Windows => "bat",
        Platform::Unix => "sh",
    }
}

/// Names the place of a script that is about to be staged: the directories to create
/// and the file to write, with the script as its contents.
pub fn create_script_file(
    script: &String,
    temp_dir: std::path::PathBuf,
    user: &Option<String>,
    name: &String,
    platform: Platform,
) -> (file: ScriptFile)
    ensures
        file@ == script_file(script@, temp_dir, optional_view(*user), name@, platform),
{
    let mut directories: Vec<String> = Vec::new();
    match user {
        Some(additional_path) => {
            directories.push(additional_path.clone());
        },
        None => {},
    }
    directories.push(string_of(&chars_of("run_script")));
    let mut file_name = chars_of(name.as_str());
    file_name.push('.');
    let extension = chars_of(extension_of(platform));
    let mut i: usize = 0;
    while i < extension.len()
        invariant
            i <= extension.len(),
            file_name@ == name@ + seq!['.'] + extension@.take(i as int),
        decreases extension.len() - i,
    {
        file_name.push(extension[i]);
        i += 1;
    }
    assert(extension@.take(extension.len() as int) == extension@);
    let file = ScriptFile {
        root: temp_dir,
        directories,
        file_name: string_of(&file_name),
        contents: script.clone(),
    };
    assert(file@.directories =~= staging_directories(optional_view(*user)));
    file
}

} // verus!
