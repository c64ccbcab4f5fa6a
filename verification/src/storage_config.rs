//! Deploy-time configuration of the agent. Each setter records a new value
//! and reports whether it changed, so that the caller knows to persist the
//! configuration; loading and saving the file itself is I/O and lives outside
//! the core.

use vstd::prelude::*;

verus! {

#[derive(Clone, Debug, PartialEq)]
pub struct StorageConfig {
    pub port: Option<u16>,
    pub is_auto_launch: Option<bool>,
    pub is_ubuntu22: Option<bool>,
    pub interactive: Option<bool>,
}

impl StorageConfig {
    /// Fresh configuration with no field set. A caller that finds a saved
    /// configuration file loads that one instead.
    pub fn new() -> (r: Self)
        ensures
            r.port is None,
            r.is_auto_launch is None,
            r.is_ubuntu22 is None,
            r.interactive is None,
    {
        Self { port: None, is_auto_launch: None, is_ubuntu22: None, interactive: None }
    }

    pub fn get_is_ubuntu22(&self) -> (r: Option<bool>)
        ensures
            r == self.is_ubuntu22,
    {
        self.is_ubuntu22
    }

    /// Records the flag; returns whether the stored value changed and the
    /// configuration must therefore be saved.
    pub fn set_is_ubuntu22(&mut self, is_ubuntu22: bool) -> (changed: bool)
        ensures
            final(self).is_ubuntu22 == Some(is_ubuntu22),
            final(self).interactive == old(self).interactive,
            final(self).port == old(self).port,
            final(self).is_auto_launch == old(self).is_auto_launch,
            changed == (old(self).is_ubuntu22 != Some(is_ubuntu22)),
    {
        let changed = match self.is_ubuntu22 {
            Some(b) => b != is_ubuntu22,
            None => true,
        };
        if changed {
            self.is_ubuntu22 = Some(is_ubuntu22);
        }
        changed
    }

    /// Records the flag; returns whether the stored value changed and the
    /// configuration must therefore be saved.
    pub fn set_interactive(&mut self, interactive: bool) -> (changed: bool)
        ensures
            final(self).interactive == Some(interactive),
            final(self).is_ubuntu22 == old(self).is_ubuntu22,
            final(self).port == old(self).port,
            final(self).is_auto_launch == old(self).is_auto_launch,
            changed == (old(self).interactive != Some(interactive)),
    {
        let changed = match self.interactive {
            Some(b) => b != interactive,
            None => true,
        };
        if changed {
            self.interactive = Some(interactive);
        }
        changed
    }

    pub fn get_interactive(&self) -> (r: Option<bool>)
        ensures
            r == self.interactive,
    {
        self.interactive
    }

    /// Records the flag; returns whether the stored value changed and the
    /// configuration must therefore be saved.
    pub fn set_auto_launch(&mut self, is_auto_launch: bool) -> (changed: bool)
        ensures
            final(self).is_auto_launch == Some(is_auto_launch),
            final(self).is_ubuntu22 == old(self).is_ubuntu22,
            final(self).interactive == old(self).interactive,
            final(self).port == old(self).port,
            changed == (old(self).is_auto_launch != Some(is_auto_launch)),
    {
        let changed = match self.is_auto_launch {
            Some(b) => b != is_auto_launch,
            None => true,
        };
        if changed {
            self.is_auto_launch = Some(is_auto_launch);
        }
        changed
    }

    /// Auto-launch defaults to on while unset.
    pub fn get_auto_launch(&self) -> (r: bool)
        ensures
            r == (match self.is_auto_launch {
                Some(b) => b,
                None => true,
            }),
    {
        match self.is_auto_launch {
            Some(b) => b,
            None => true,
        }
    }

    /// Records the port; returns whether the stored value changed and the
    /// configuration must therefore be saved.
    pub fn set_port(&mut self, port: u16) -> (changed: bool)
        ensures
            final(self).port == Some(port),
            final(self).is_ubuntu22 == old(self).is_ubuntu22,
            final(self).interactive == old(self).interactive,
            final(self).is_auto_launch == old(self).is_auto_launch,
            changed == (old(self).port != Some(port)),
    {
        let changed = match self.port {
            Some(p) => p != port,
            None => true,
        };
        if changed {
            self.port = Some(port);
        }
        changed
    }

    /// The file name of the saved configuration; callers resolve it against
    /// their working directory.
    pub fn deploy_config_path() -> (r: String)
        ensures
            r@ == "deploy-config.yml"@,
    {
        "deploy-config.yml".to_owned()
    }
}

} // verus!
