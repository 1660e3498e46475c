//! Well-known locations under the launcher's base directory.
//!
//! The base directory itself (where the launcher executable sits) can only
//! be discovered by the surrounding binary; these functions fix how the two
//! directories the pipeline cares about are derived from it.

use vstd::prelude::*;
use vstd::string::StringExecFns;

verus! {

/// Path of the live install directory: the single location the launch gate
/// trusts as "the installed bundle".
pub fn get_game_dir(app_dir: &str) -> (p: String)
    ensures
        p@ == app_dir@ + "/game"@,
{
    String::from_str(app_dir).concat("/game")
}

/// Path of the cache directory, which holds the cached manifest and the
/// temporary downloaded archive. Never part of the live install.
pub fn get_cache_dir(app_dir: &str) -> (p: String)
    ensures
        p@ == app_dir@ + "/cache"@,
{
    String::from_str(app_dir).concat("/cache")
}

} // verus!
