//! Where the program keeps its data, and what it says of itself.

use vstd::prelude::*;

verus! {

/// The directory used when neither an override nor the operating system
/// names one: `.data` in the working directory.
pub open spec fn fallback_data_dir() -> Seq<char> {
    "./.data"@
}

/// The data directory for a given override and a given answer of the
/// operating system: the override where there is one, else the operating
/// system's directory where there is one, else the fallback.
pub open spec fn data_dir_from(
    data_folder: Option<Seq<char>>,
    project_dir: Option<Seq<char>>,
) -> Seq<char> {
    match (data_folder, project_dir) {
        (Some(folder), _) => folder,
        (None, Some(dir)) => dir,
        (None, None) => fallback_data_dir(),
    }
}

/// The view of an optional string.
pub open spec fn text_of(s: Option<String>) -> Option<Seq<char>> {
    match s {
        Some(s) => Some(s@),
        None => None,
    }
}

/// The text that [`version`] puts together.
pub open spec fn version_text(
    release: Seq<char>,
    build_date: Seq<char>,
    sha: Seq<char>,
    log_file: Seq<char>,
    data_dir: Seq<char>,
) -> Seq<char> {
    release + "\n\nBuilt: "@ + build_date + "\nCommit: "@ + sha + "\nLog file: "@ + log_file
        + "\nData directory: "@ + data_dir
}

/// The project's local data directory as the `directories` crate finds it:
/// `ProjectDirs::from(..)`, then `data_local_dir()`.
///
/// Trusted, with nothing claimed of the result: it depends on the operating
/// system and on the environment, and there is none where the system names
/// no home directory.
#[verifier::external_body]
fn project_data_local_dir(qualifier: &str, organization: &str, application: &str) -> (dir: Option<
    String,
>) {
    match directories::ProjectDirs::from(qualifier, organization, application) {
        Some(dirs) => Some(dirs.data_local_dir().to_string_lossy().into_owned()),
        None => None,
    }
}

/// `String::push_str` appends the characters of `string` to `s`.
pub assume_specification[ String::push_str ](s: &mut String, string: &str)
    ensures
        final(s)@ == old(s)@ + string@,
;

/// Picks the data directory: `data_folder` where it is given, else
/// `project_dir` where it is given, else `./.data`.
pub fn choose_data_dir(data_folder: Option<String>, project_dir: Option<String>) -> (dir: String)
    ensures
        dir@ == data_dir_from(text_of(data_folder), text_of(project_dir)),
{
    match data_folder {
        Some(folder) => folder,
        None => match project_dir {
            Some(dir) => dir,
            None => {
                proof {
                    reveal_strlit("./.data");
                }
                "./.data".to_owned()
            },
        },
    }
}

/// The directory in which the program keeps its data. `data_folder` is the
/// override that the user has set, if any, and wins. Without one the
/// operating system is asked for the project's local data directory, and the
/// directory is chosen as [`choose_data_dir`] does.
pub fn get_data_dir(data_folder: Option<String>) -> (dir: String)
    ensures
        data_folder matches Some(folder) ==> dir@ == folder@,
{
    match data_folder {
        Some(folder) => folder,
        None => choose_data_dir(None, project_data_local_dir("com", "termdef", "termdef")),
    }
}

/// What the program says of itself: its version, when and from which
/// commit it was built, and where its log file and data directory are.
pub fn version(release: &str, build_date: &str, sha: &str, log_file: &str, data_dir: &str) -> (text:
    String)
    ensures
        text@ == version_text(release@, build_date@, sha@, log_file@, data_dir@),
{
    let mut text = release.to_owned();
    text.push_str("\n\nBuilt: ");
    text.push_str(build_date);
    text.push_str("\nCommit: ");
    text.push_str(sha);
    text.push_str("\nLog file: ");
    text.push_str(log_file);
    text.push_str("\nData directory: ");
    text.push_str(data_dir);
    text
}

} // verus!
