//! Locations of the host's own files inside its asset directory.
//!
//! The asset directory itself is the host's to find — it depends on the
//! operating system and the user's home — and is handed in as a plain
//! path string; the well-known file names are appended here.

use vstd::prelude::*;
use vstd::string::StringExecFns;

verus! {

/// The path under `asset_dir` where the configuration file lives.
pub fn config_path(asset_dir: &str) -> (r: String)
    ensures
        r@ == asset_dir@ + "/config.json"@,
{
    let mut out: String = asset_dir.to_owned();
    out.append("/config.json");
    out
}

/// The path under `asset_dir` where the executor profiles live.
pub fn profiles_path(asset_dir: &str) -> (r: String)
    ensures
        r@ == asset_dir@ + "/profiles.json"@,
{
    let mut out: String = asset_dir.to_owned();
    out.append("/profiles.json");
    out
}

} // verus!
