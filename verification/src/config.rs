//! User-level launcher settings and their fallback rules.

use vstd::prelude::*;
use vstd::string::StringExecFns;

verus! {

/// What happens to the launcher window once the game has been spawned.
#[derive(Clone, Copy, Debug, PartialEq, Eq, Structural)]
pub enum CloseBehavior {
    MinimizeToTray,
    Exit,
}

/// User-level settings, persisted independently of any install.
#[derive(Debug)]
pub struct LauncherConfig {
    pub language: String,
    pub close_behavior: CloseBehavior,
    pub launch_at_startup: bool,
}

impl Clone for LauncherConfig {
    fn clone(&self) -> (c: Self)
        ensures
            c == *self,
    {
        LauncherConfig {
            language: self.language.clone(),
            close_behavior: self.close_behavior,
            launch_at_startup: self.launch_at_startup,
        }
    }
}

/// The settings a configuration value must hold when nothing was ever saved.
pub open spec fn spec_default_config(c: LauncherConfig) -> bool {
    &&& c.language@ == "en"@
    &&& c.close_behavior == CloseBehavior::MinimizeToTray
    &&& !c.launch_at_startup
}

impl Default for LauncherConfig {
    fn default() -> (c: LauncherConfig)
        ensures
            spec_default_config(c),
    {
        LauncherConfig {
            language: String::from_str("en"),
            close_behavior: CloseBehavior::MinimizeToTray,
            launch_at_startup: false,
        }
    }
}

impl LauncherConfig {
    /// Settles which configuration the launcher runs with, given what the
    /// configuration file yielded. A missing, unreadable or unparsable file
    /// falls back to the defaults, so startup is never blocked by it.
    pub fn load(stored: Option<LauncherConfig>) -> (c: LauncherConfig)
        ensures
            stored is Some ==> c == stored->0,
            stored is None ==> spec_default_config(c),
    {
        match stored {
            Some(c) => c,
            None => LauncherConfig::default(),
        }
    }
}

} // verus!
