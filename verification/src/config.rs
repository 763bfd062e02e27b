//! Launcher settings.

use vstd::prelude::*;

verus! {

/// The player's launcher settings.
#[derive(Clone, Debug, PartialEq, Eq)]
pub struct LauncherConfig {
    pub java_path: Option<String>,
    pub install_dir: String,
    pub close_on_launch: bool,
    pub min_memory_mb: u32,
    pub max_memory_mb: u32,
}

/// The settings used before the player saved any: no explicit Java, the
/// given install directory, close on launch, 512 to 2048 MB of heap.
pub fn default_config(install_dir: String) -> (c: LauncherConfig)
    ensures
        c.java_path is None,
        c.install_dir == install_dir,
        c.close_on_launch,
        c.min_memory_mb == 512,
        c.max_memory_mb == 2048,
{
    LauncherConfig {
        java_path: None,
        install_dir,
        close_on_launch: true,
        min_memory_mb: 512,
        max_memory_mb: 2048,
    }
}

/// The settings in effect: the stored ones, or the defaults for
/// `default_install_dir` when none are stored.
pub fn effective_config(stored: Option<LauncherConfig>, default_install_dir: String) -> (c: LauncherConfig)
    ensures
        stored matches Some(s) ==> c == s,
        stored is None ==> c == default_config_spec(default_install_dir),
{
    match stored {
        Some(s) => s,
        None => default_config(default_install_dir),
    }
}

/// The default settings as a value.
pub open spec fn default_config_spec(install_dir: String) -> LauncherConfig {
    LauncherConfig {
        java_path: None,
        install_dir,
        close_on_launch: true,
        min_memory_mb: 512,
        max_memory_mb: 2048,
    }
}

} // verus!
