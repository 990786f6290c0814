//! The verified core of frun, a lightweight background task manager.
//!
//! The daemon and the client alternate between work on the outside (connections, processes, files,
//! the terminal) and decisions. The decisions are here: most of them as a step function, which
//! takes the piece of work at hand and what it came to, and gives the next piece of work. Whoever
//! calls it does the work.

use std::path::PathBuf;
use vstd::prelude::*;

pub mod chunk;
pub mod client;
pub mod connect;
pub mod daemon;
pub mod delete;
pub mod forward;
pub mod history;
pub mod lifecycle;
pub mod notice;
pub mod protocal;
pub mod pump;
pub mod relay;
pub mod sessions;
pub mod text;

verus! {

/// A path of the file system. Nothing inside a value of it is visible here.
#[verifier::external_type_specification]
#[verifier::external_body]
pub struct ExPathBuf(std::path::PathBuf);

/// Whether `directories` may give `outcome` when it is asked for the data directory of the project
/// with this qualifier, organization and application: some directory, or none. Which outcome it
/// gives depends on the environment of the process.
pub uninterp spec fn data_dir_for(
    qualifier: Seq<char>,
    organization: Seq<char>,
    application: Seq<char>,
    outcome: Option<PathBuf>,
) -> bool;

/// What `Path::join` makes of a directory and the name of a file.
pub uninterp spec fn joined(dir: PathBuf, leaf: Seq<char>) -> PathBuf;

/// Where the program keeps its files.
pub struct Paths {
    pub daemon_info_path: PathBuf,
}

/// `directories::ProjectDirs::from` and, on its result, `data_dir`: a directory for the data of the
/// project with this qualifier, organization and application, or none where the system does not
/// tell the home directory of the user. Which directory that is, and whether there is one, is left
/// unsaid: it rests on the environment of the process.
#[verifier::external_body]
fn project_data_dir(qualifier: &str, organization: &str, application: &str) -> (res: Option<PathBuf>)
    ensures
        data_dir_for(qualifier@, organization@, application@, res),
{
    let dirs = directories::ProjectDirs::from(qualifier, organization, application)?;
    Some(dirs.data_dir().to_path_buf())
}

/// `std::path::Path::join`: the path of the file of this name in the directory.
#[verifier::external_body]
fn join(dir: &PathBuf, leaf: &str) -> (res: PathBuf)
    ensures
        res == joined(*dir, leaf@),
{
    dir.join(leaf)
}

/// The paths in a given data directory.
pub fn paths_in(data_dir: &PathBuf) -> (res: Paths)
    ensures
        res.daemon_info_path == joined(*data_dir, "daemon_info.json"@),
{
    Paths { daemon_info_path: join(data_dir, "daemon_info.json") }
}

/// The paths for what came of the search for the data directory: none exactly where it found none.
pub open spec fn paths_for(outcome: Option<PathBuf>) -> Option<Paths> {
    match outcome {
        Some(dir) => Some(Paths { daemon_info_path: joined(dir, "daemon_info.json"@) }),
        None => None,
    }
}

/// The paths for what came of the search for the data directory.
pub fn paths_found(outcome: Option<PathBuf>) -> (res: Option<Paths>)
    ensures
        res == paths_for(outcome),
        outcome matches Some(dir) ==> res matches Some(paths) && paths.daemon_info_path == joined(
            dir,
            "daemon_info.json"@,
        ),
        outcome is None ==> res is None,
{
    match outcome {
        Some(dir) => Some(paths_in(&dir)),
        None => None,
    }
}

/// The paths in the data directory of this project; none exactly where the search for it found
/// none. Which directory that is, and whether there is one, rests on the environment of the
/// process.
pub fn get_paths() -> (res: Option<Paths>)
    ensures
        exists|outcome: Option<PathBuf>| #[trigger]
            data_dir_for("dev"@, "false_star"@, "backrunner"@, outcome) && res == paths_for(outcome),
{
    paths_found(project_data_dir("dev", "false_star", "backrunner"))
}

/// Where a data directory was found the file with the word of the daemon is in it, whichever
/// directory it is; where none was found there are no paths.
pub proof fn the_paths_are_in_the_directory_that_was_found(dir: PathBuf)
    ensures
        paths_for(Some(dir)) matches Some(paths) && paths.daemon_info_path == joined(
            dir,
            "daemon_info.json"@,
        ),
        paths_for(None) is None,
{
}

} // verus!
