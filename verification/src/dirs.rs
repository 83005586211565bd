//! The directories that the launcher works in.

use vstd::prelude::*;
use crate::linux::dirs::{config_directory_of, current_user_config_directory, is_path_result};
use crate::locator::{parent_of, path_parent};
use crate::metadata::Metadata;
use crate::utils::errors::LaunchError;
use crate::utils::strings::{join_path, joined};

verus! {

/// The name of the directory in which a variant of the application keeps its
/// data.
pub open spec fn base_dir_name(is_premium: bool) -> Seq<char> {
    if is_premium {
        "clash-multiplatform"@
    } else {
        "clash-multiplatform-foss"@
    }
}

/// The directory in which the application keeps its data by default, for a
/// user whose directory for such data is `local_dir`.
pub open spec fn default_base_dir_below(local_dir: Seq<char>, is_premium: bool) -> Seq<char> {
    joined(local_dir, base_dir_name(is_premium))
}

/// The same for a user directory that may not have been found.
pub open spec fn default_base_dir_of(
    local_dir: Result<Seq<char>, LaunchError>,
    is_premium: bool,
) -> Result<Seq<char>, LaunchError> {
    match local_dir {
        Ok(dir) => Ok(default_base_dir_below(dir, is_premium)),
        Err(cause) => Err(cause),
    }
}

/// The directory that holds the launcher, whose own file is at `current_exe`;
/// `AppDirNotFound` where that path has no directory above it.
pub fn current_app_dir(current_exe: &str) -> (result: Result<String, LaunchError>)
    ensures
        is_path_result(
            result,
            match path_parent(current_exe@) {
                Some(dir) => Ok(dir),
                None => Err(LaunchError::AppDirNotFound),
            },
        ),
{
    match parent_of(current_exe) {
        Some(dir) => Ok(dir),
        None => Err(LaunchError::AppDirNotFound),
    }
}

/// The default data directory below `local_dir`.
pub fn default_base_dir_in(local_dir: &str, metadata: &Metadata) -> (dir: String)
    ensures
        dir@ == default_base_dir_below(local_dir@, metadata.is_premium),
{
    if metadata.is_premium {
        join_path(local_dir, "clash-multiplatform")
    } else {
        join_path(local_dir, "clash-multiplatform-foss")
    }
}

/// The default data directory of the current user: below the user's
/// configuration directory, whatever the home directory is, and
/// `HomeNotFound` where the user has none.
pub fn default_base_dir(metadata: &Metadata) -> (result: Result<String, LaunchError>)
    ensures
        exists|home: Option<Seq<char>>|
            is_path_result(
                result,
                #[trigger] default_base_dir_of(config_directory_of(home), metadata.is_premium),
            ),
{
    let config = current_user_config_directory();
    let ghost home = choose|home: Option<Seq<char>>|
        is_path_result(config, #[trigger] config_directory_of(home));
    let result = match config {
        Ok(local_dir) => Ok(default_base_dir_in(local_dir.as_str(), metadata)),
        Err(cause) => Err(cause),
    };
    assert(is_path_result(
        result,
        default_base_dir_of(config_directory_of(home), metadata.is_premium),
    ));
    result
}

/// The default data directory is never empty and always ends in the name of
/// the variant's directory: `clash-multiplatform-foss` unless the application
/// is the premium variant.
pub proof fn lemma_default_base_dir_ends_in_name(local_dir: Seq<char>, is_premium: bool)
    ensures
        default_base_dir_below(local_dir, is_premium).len() > 0,
        ({
            let dir = default_base_dir_below(local_dir, is_premium);
            let name = base_dir_name(is_premium);
            dir.len() >= name.len() && dir.subrange(dir.len() - name.len(), dir.len() as int)
                == name
        }),
        !is_premium ==> base_dir_name(is_premium) == "clash-multiplatform-foss"@,
{
    reveal_strlit("clash-multiplatform");
    reveal_strlit("clash-multiplatform-foss");
}

} // verus!
