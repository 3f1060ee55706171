//! The alternative local engine variant, reloaded through a helper
//! binary that sits beside it.

use vstd::prelude::*;

use crate::im::{IMUpdateConfig, InputMethod, ProcessCommand};
use crate::paths;

verus! {

use vstd::string::StringExecFns;

/// The alternative local engine.
pub struct Fcitx5 {
    /// Its configuration record.
    pub config: IMUpdateConfig,
}

impl Fcitx5 {
    /// Wraps a configuration record.
    pub fn new(config: IMUpdateConfig) -> (s: Self)
        ensures
            s.config == config,
    {
        Fcitx5 { config }
    }

    /// The record a fresh installation starts from, rooted in the
    /// caller's home directory.
    pub fn default_config(home: &str) -> (c: IMUpdateConfig)
        ensures
            c.name@ == "Fcitx5"@,
            c.exe matches Some(e) && e@
                == "/Library/Input Methods/Fcitx5.app/Contents/MacOS/Fcitx5"@,
            c.user_dir@ == home@ + "/.local/share/fcitx5/rime"@,
            c.update_dir@ == home@ + "/.sbsrf-update/Fcitx5"@,
            c.max_backups == 1,
            !c.sentence,
            c.version@ == "20051203"@,
            c.wf(),
    {
        let wd = paths::work_dir(home);
        let update_dir = paths::join(wd.as_str(), "Fcitx5");
        let mut user_dir = home.to_owned();
        user_dir.append("/.local/share/fcitx5/rime");
        proof {
            reveal_strlit("/.sbsrf-update");
            reveal_strlit("/");
            reveal_strlit("Fcitx5");
            reveal_strlit("/.sbsrf-update/Fcitx5");
            assert(update_dir@ =~= home@ + "/.sbsrf-update/Fcitx5"@);
        }
        IMUpdateConfig {
            name: "Fcitx5".to_owned(),
            exe: Some("/Library/Input Methods/Fcitx5.app/Contents/MacOS/Fcitx5".to_owned()),
            user_dir,
            update_dir,
            max_backups: 1,
            sentence: false,
            version: "20051203".to_owned(),
        }
    }
}

impl InputMethod for Fcitx5 {
    open spec fn spec_tag(&self) -> Seq<char> {
        "fcitx5"@
    }

    open spec fn spec_has_guard(&self) -> bool {
        false
    }

    open spec fn spec_is_remote(&self) -> bool {
        false
    }

    /// The reload goes through the helper binary two directories above
    /// the engine executable; an executable path without that much
    /// structure leaves the variant with no reload.
    open spec fn spec_deploy(&self) -> Option<(Seq<char>, Seq<Seq<char>>)> {
        match self.config.exe {
            Some(e) => match paths::spec_parent_dir(e@) {
                Some(p1) => match paths::spec_parent_dir(p1) {
                    Some(p2) => Some(
                        (
                            p2 + "/bin/fcitx5-curl"@,
                            seq!["/config/addon/rime/deploy"@, "-X"@, "POST"@, "-d"@, "{}"@],
                        ),
                    ),
                    None => None,
                },
                None => None,
            },
            None => None,
        }
    }

    fn tag(&self) -> (t: String) {
        "fcitx5".to_owned()
    }

    fn has_process_guard(&self) -> (b: bool) {
        false
    }

    fn is_remote(&self) -> (b: bool) {
        false
    }

    fn deploy_command(&self) -> (c: Option<ProcessCommand>) {
        match &self.config.exe {
            Some(e) => {
                match paths::parent_dir(e.as_str()) {
                    Some(p1) => {
                        match paths::parent_dir(p1.as_str()) {
                            Some(mut p2) => {
                                p2.append("/bin/fcitx5-curl");
                                let mut args: Vec<String> = Vec::new();
                                args.push("/config/addon/rime/deploy".to_owned());
                                args.push("-X".to_owned());
                                args.push("POST".to_owned());
                                args.push("-d".to_owned());
                                args.push("{}".to_owned());
                                proof {
                                    assert(args.deep_view() =~= seq![
                                        "/config/addon/rime/deploy"@,
                                        "-X"@,
                                        "POST"@,
                                        "-d"@,
                                        "{}"@,
                                    ]);
                                }
                                Some(ProcessCommand { program: p2, args })
                            },
                            None => None,
                        }
                    },
                    None => None,
                }
            },
            None => None,
        }
    }
}

} // verus!
