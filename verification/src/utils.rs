//! Where the configuration file is looked for when no path is given.

use std::path::PathBuf;
use vstd::prelude::*;
use vstd::string::StringExecFns;

verus! {

/// The path type of the standard library. Paths are carried through as
/// they are; nothing of what they hold is read here.
#[verifier::external_type_specification]
#[verifier::external_body]
pub struct ExPathBuf(std::path::PathBuf);

/// The words for a user without a home directory.
pub open spec fn no_home_message() -> Seq<char> {
    "Could not determine user home directory."@
}

/// Asks `directories::UserDirs::new` for the user's home directory. The
/// answer depends on the user and the environment of the process, so nothing
/// is claimed of it.
#[verifier::external_body]
pub(crate) fn home_directory() -> (home: Option<PathBuf>) {
    match directories::UserDirs::new() {
        Some(dirs) => Some(dirs.home_dir().to_path_buf()),
        None => None,
    }
}

/// Extends a path by one component with `Path::join`. Nothing is claimed of
/// the path that comes back: how components are joined is the platform's.
#[verifier::external_body]
pub(crate) fn join_path(base: PathBuf, part: &str) -> (joined: PathBuf) {
    base.join(part)
}

/// The configuration file of the user whose home directory is `home`:
/// `.config/chronsync/config.json` below it. Without a home directory there
/// is no such file, and the error says so.
pub fn config_path_under(home: Option<PathBuf>) -> (path: Result<PathBuf, String>)
    ensures
        home is Some <==> path is Ok,
        path matches Err(message) ==> message@ == no_home_message(),
{
    match home {
        Some(home) => {
            let dir = join_path(join_path(home, ".config"), "chronsync");
            Ok(join_path(dir, "config.json"))
        },
        None => Err(String::from_str("Could not determine user home directory.")),
    }
}

/// The configuration file of the user who runs the process.
pub fn get_config_path() -> (path: Result<PathBuf, String>)
    ensures
        path matches Err(message) ==> message@ == no_home_message(),
{
    config_path_under(home_directory())
}

/// The configuration file to use: the one named, or else the user's own.
pub fn resolve_config_path(given: Option<PathBuf>) -> (path: Result<PathBuf, String>)
    ensures
        given matches Some(named) ==> path == Ok::<PathBuf, String>(named),
        path matches Err(message) ==> given is None && message@ == no_home_message(),
{
    match given {
        Some(named) => Ok(named),
        None => get_config_path(),
    }
}

} // verus!
