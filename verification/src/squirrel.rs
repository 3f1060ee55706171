//! The local macOS engine variant whose live directory sits under the
//! user's library.

use vstd::prelude::*;

use crate::im::{IMUpdateConfig, InputMethod, ProcessCommand};
use crate::paths;
use crate::text;

verus! {

use vstd::string::StringExecFns;

/// The local macOS engine.
pub struct Squirrel {
    /// Its configuration record.
    pub config: IMUpdateConfig,
}

impl Squirrel {
    /// Wraps a configuration record.
    pub fn new(config: IMUpdateConfig) -> (s: Self)
        ensures
            s.config == config,
    {
        Squirrel { config }
    }

    /// The record a fresh installation starts from, rooted in the
    /// caller's home directory.
    pub fn default_config(home: &str) -> (c: IMUpdateConfig)
        ensures
            c.name@ == "Squirrel"@,
            c.exe matches Some(e) && e@
                == "/Library/Input Methods/Squirrel.app/Contents/MacOS/Squirrel"@,
            c.user_dir@ == home@ + "/Library/Rime"@,
            c.update_dir@ == home@ + "/.sbsrf-update/macos"@,
            c.max_backups == 1,
            !c.sentence,
            c.version@ == "20051203"@,
            c.wf(),
    {
        let wd = paths::work_dir(home);
        let update_dir = paths::join(wd.as_str(), "macos");
        let mut user_dir = home.to_owned();
        user_dir.append("/Library/Rime");
        proof {
            reveal_strlit("/.sbsrf-update");
            reveal_strlit("/");
            reveal_strlit("macos");
            reveal_strlit("/.sbsrf-update/macos");
            assert(update_dir@ =~= home@ + "/.sbsrf-update/macos"@);
        }
        IMUpdateConfig {
            name: "Squirrel".to_owned(),
            exe: Some("/Library/Input Methods/Squirrel.app/Contents/MacOS/Squirrel".to_owned()),
            user_dir,
            update_dir,
            max_backups: 1,
            sentence: false,
            version: "20051203".to_owned(),
        }
    }

    /// Which archive entry holds the engine's own installer bundle:
    /// the first one named like the engine.
    pub fn pick_installer_entry(names: &Vec<String>) -> (r: Option<usize>)
        ensures
            match r {
                Some(i) => i < names@.len() && "Squirrel"@.is_prefix_of(names@[i as int]@)
                    && forall|j: int| 0 <= j < i ==> !"Squirrel"@.is_prefix_of(names@[j]@),
                None => forall|j: int|
                    0 <= j < names@.len() ==> !"Squirrel"@.is_prefix_of(names@[j]@),
            },
    {
        text::find_first_with_prefix(names, "Squirrel")
    }

    /// Which entry of the nested bundle is the installer package: the
    /// first one with the package extension.
    pub fn pick_pkg_entry(names: &Vec<String>) -> (r: Option<usize>)
        ensures
            match r {
                Some(i) => i < names@.len() && ".pkg"@.is_suffix_of(names@[i as int]@) && forall|
                    j: int,
                | 0 <= j < i ==> !".pkg"@.is_suffix_of(names@[j]@),
                None => forall|j: int| 0 <= j < names@.len() ==> !".pkg"@.is_suffix_of(names@[j]@),
            },
    {
        text::find_first_with_suffix(names, ".pkg")
    }
}

impl InputMethod for Squirrel {
    open spec fn spec_tag(&self) -> Seq<char> {
        "squirrel"@
    }

    open spec fn spec_has_guard(&self) -> bool {
        false
    }

    open spec fn spec_is_remote(&self) -> bool {
        false
    }

    open spec fn spec_deploy(&self) -> Option<(Seq<char>, Seq<Seq<char>>)> {
        match self.config.exe {
            Some(e) => Some((e@, seq!["--reload"@])),
            None => None,
        }
    }

    fn tag(&self) -> (t: String) {
        "squirrel".to_owned()
    }

    fn has_process_guard(&self) -> (b: bool) {
        false
    }

    fn is_remote(&self) -> (b: bool) {
        false
    }

    fn deploy_command(&self) -> (c: Option<ProcessCommand>) {
        match &self.config.exe {
            Some(e) => {
                let mut args: Vec<String> = Vec::new();
                args.push("--reload".to_owned());
                proof {
                    assert(args.deep_view() =~= seq!["--reload"@]);
                }
                Some(ProcessCommand { program: e.clone(), args })
            },
            None => None,
        }
    }
}

} // verus!
