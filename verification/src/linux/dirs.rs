//! Directories of the current user on Linux.

use vstd::prelude::*;
use crate::locator::text_of_str;
use crate::utils::errors::LaunchError;
use crate::utils::strings::{join_path, joined};

verus! {

/// `home::home_dir`: the home directory of the current user, taken from the
/// environment or from the user database, or `None` where neither names one.
/// The answer depends on the environment, so nothing is claimed of it.
#[verifier::external_body]
pub(crate) fn home_dir() -> (home: Option<String>) {
    home::home_dir().map(|p| p.to_string_lossy().into_owned())
}

/// The configuration directory of a user whose home directory is `home`:
/// `.config` below it, and `HomeNotFound` for a user without one.
pub open spec fn config_directory_of(home: Option<Seq<char>>) -> Result<Seq<char>, LaunchError> {
    match home {
        Some(dir) => Ok(joined(dir, ".config"@)),
        None => Err(LaunchError::HomeNotFound),
    }
}

/// Whether `result` stands for `expected`: the same text, or the same error.
pub open spec fn is_path_result(
    result: Result<String, LaunchError>,
    expected: Result<Seq<char>, LaunchError>,
) -> bool {
    match (result, expected) {
        (Ok(path), Ok(text)) => path@ == text,
        (Err(error), Err(cause)) => error == cause,
        _ => false,
    }
}

/// The configuration directory of a user whose home directory is `home`.
pub fn config_directory_in(home: Option<&str>) -> (result: Result<String, LaunchError>)
    ensures
        is_path_result(result, config_directory_of(text_of_str(home))),
{
    match home {
        Some(dir) => Ok(join_path(dir, ".config")),
        None => Err(LaunchError::HomeNotFound),
    }
}

/// The configuration directory of the current user: `.config` below the
/// home directory, whatever that is, and `HomeNotFound` where there is none.
pub fn current_user_config_directory() -> (result: Result<String, LaunchError>)
    ensures
        exists|home: Option<Seq<char>>| is_path_result(result, #[trigger] config_directory_of(home)),
{
    match home_dir() {
        Some(dir) => config_directory_in(Some(dir.as_str())),
        None => config_directory_in(None),
    }
}

} // verus!
