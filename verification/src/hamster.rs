//! The remote, phone-resident engine variant, reachable only over
//! HTTP.

use vstd::prelude::*;

use crate::im::{IMUpdateConfig, InputMethod, ProcessCommand};
use crate::paths;

verus! {

/// The remote engine: no local filesystem, no addressable process.
pub struct Hamster {
    /// Its configuration record.
    pub config: IMUpdateConfig,
    /// The address files are uploaded to.
    pub host: String,
}

impl Hamster {
    /// Wraps a configuration record together with the device address.
    pub fn new(config: IMUpdateConfig, host: String) -> (s: Self)
        ensures
            s.config == config,
            s.host == host,
    {
        Hamster { config, host }
    }

    /// The record a fresh remote device named `name` starts from,
    /// rooted in the caller's home directory.  The remote engine has
    /// no local live directory and no executable.
    pub fn default_config(home: &str, name: &str) -> (c: IMUpdateConfig)
        ensures
            c.name@ == "Hamster"@,
            c.exe is None,
            c.user_dir@ == Seq::<char>::empty(),
            c.update_dir@ == home@ + "/.sbsrf-update"@ + "/"@ + name@,
            c.max_backups == 1,
            !c.sentence,
            c.version@ == "20051203"@,
            c.wf(),
    {
        let wd = paths::work_dir(home);
        let update_dir = paths::join(wd.as_str(), name);
        IMUpdateConfig {
            name: "Hamster".to_owned(),
            exe: None,
            user_dir: String::new(),
            update_dir,
            max_backups: 1,
            sentence: false,
            version: "20051203".to_owned(),
        }
    }
}

impl InputMethod for Hamster {
    open spec fn spec_tag(&self) -> Seq<char> {
        "hamster"@
    }

    open spec fn spec_has_guard(&self) -> bool {
        false
    }

    open spec fn spec_is_remote(&self) -> bool {
        true
    }

    /// The remote engine is redeployed by hand on the device: there is
    /// no reload invocation to run here.
    open spec fn spec_deploy(&self) -> Option<(Seq<char>, Seq<Seq<char>>)> {
        None
    }

    fn tag(&self) -> (t: String) {
        "hamster".to_owned()
    }

    fn has_process_guard(&self) -> (b: bool) {
        false
    }

    fn is_remote(&self) -> (b: bool) {
        true
    }

    fn deploy_command(&self) -> (c: Option<ProcessCommand>) {
        None
    }
}

} // verus!
