//! The local Windows engine variant.  Its live directory is locked by
//! a server process while that process runs, so update and restore
//! quiesce it first; the process is found, stopped and started through
//! OS queries whose output is parsed here.

use vstd::prelude::*;

use crate::im::{IMUpdateConfig, InputMethod, ProcessCommand};
use crate::parse;
use crate::paths;
use crate::text;

verus! {

use vstd::string::StringExecFns;

/// The local Windows engine, guarded by its server process.
pub struct Weasel {
    /// Its configuration record.
    pub config: IMUpdateConfig,
}

/// The server's PID as the process-table listing reports it: the
/// second whitespace-delimited token of the fourth CRLF line, read as
/// a decimal number, when the listing mentions the server's image name
/// at all; `-1` otherwise.
pub open spec fn spec_weasel_pid(out: Seq<char>) -> int {
    if parse::spec_find(out, "WeaselServer.exe"@) >= 0 {
        let lines = parse::spec_split(out, "\r\n"@);
        if lines.len() > 3 {
            let fields = parse::spec_fields(lines[3]);
            if fields.len() > 1 {
                parse::spec_parse_i32(fields[1])
            } else {
                -1
            }
        } else {
            -1
        }
    } else {
        -1
    }
}

/// The executable path a process query prints: its second CRLF line,
/// trimmed; nothing when the output has fewer lines.
pub open spec fn spec_weasel_exe(out: Seq<char>) -> Option<Seq<char>> {
    let lines = parse::spec_split(out, "\r\n"@);
    if lines.len() > 1 {
        Some(parse::spec_trim(lines[1]))
    } else {
        None
    }
}

impl Weasel {
    /// Wraps a configuration record.
    pub fn new(config: IMUpdateConfig) -> (s: Self)
        ensures
            s.config == config,
    {
        Weasel { config }
    }

    /// The record a fresh installation starts from: the update root in
    /// the caller's profile directory, the live directory under the
    /// caller's application-data directory.  The executable is learned
    /// later, from the running server.
    pub fn default_config(home: &str, appdata: &str) -> (c: IMUpdateConfig)
        ensures
            c.name@ == "Weasel"@,
            c.exe is None,
            c.user_dir@ == appdata@ + "/Rime"@,
            c.update_dir@ == home@ + "/.sbsrf-update/windows"@,
            c.max_backups == 1,
            !c.sentence,
            c.version@ == "20051203"@,
            c.wf(),
    {
        let wd = paths::work_dir(home);
        let update_dir = paths::join(wd.as_str(), "windows");
        let mut user_dir = appdata.to_owned();
        user_dir.append("/Rime");
        proof {
            reveal_strlit("/.sbsrf-update");
            reveal_strlit("/");
            reveal_strlit("windows");
            reveal_strlit("/.sbsrf-update/windows");
            assert(update_dir@ =~= home@ + "/.sbsrf-update/windows"@);
        }
        IMUpdateConfig {
            name: "Weasel".to_owned(),
            exe: None,
            user_dir,
            update_dir,
            max_backups: 1,
            sentence: false,
            version: "20051203".to_owned(),
        }
    }

    /// Reads the server's PID out of a process-table listing.
    pub fn get_weasel_server_pid(output: &str) -> (pid: i32)
        ensures
            pid as int == spec_weasel_pid(output@),
    {
        proof {
            reveal_strlit("\r\n");
        }
        match parse::str_find(output, "WeaselServer.exe") {
            Some(_) => {},
            None => {
                return -1;
            },
        }
        let lines = parse::split_str(output, "\r\n");
        if lines.len() <= 3 {
            return -1;
        }
        let fields = parse::ascii_fields(lines[3].as_str());
        if fields.len() <= 1 {
            return -1;
        }
        parse::parse_i32(fields[1].as_str())
    }

    /// Reads the server's executable path out of a process query's
    /// output.
    pub fn get_weasel_exe(output: &str) -> (r: Option<String>)
        ensures
            match r {
                Some(p) => spec_weasel_exe(output@) == Some(p@),
                None => spec_weasel_exe(output@) is None,
            },
    {
        proof {
            reveal_strlit("\r\n");
        }
        let lines = parse::split_str(output, "\r\n");
        if lines.len() <= 1 {
            return None;
        }
        Some(parse::trim_str(lines[1].as_str()))
    }

    /// Whether the server is running, given a fresh process-table
    /// listing: a matching process with a positive PID was found.
    pub fn running(&self, tasklist_output: &str) -> (b: bool)
        ensures
            b == (spec_weasel_pid(tasklist_output@) > 0),
    {
        Weasel::get_weasel_server_pid(tasklist_output) > 0
    }

    /// The invocation that relaunches the server, for the caller to
    /// run; nothing when no executable is recorded.  The caller polls
    /// `running` until it reports true.
    pub fn start(&self) -> (c: Option<ProcessCommand>)
        ensures
            match c {
                Some(cmd) => self.config.exe matches Some(e) && cmd.program == e
                    && cmd.args.deep_view() == Seq::<Seq<char>>::empty(),
                None => self.config.exe is None,
            },
    {
        match &self.config.exe {
            Some(e) => {
                let args: Vec<String> = Vec::new();
                proof {
                    assert(args.deep_view() =~= Seq::<Seq<char>>::empty());
                }
                Some(ProcessCommand { program: e.clone(), args })
            },
            None => None,
        }
    }

    /// The invocation that asks the server to quit gracefully, for the
    /// caller to run; nothing when no executable is recorded.  The
    /// caller polls `running` until it reports false before touching
    /// the live directory.
    pub fn stop(&self) -> (c: Option<ProcessCommand>)
        ensures
            match c {
                Some(cmd) => self.config.exe matches Some(e) && cmd.program == e
                    && cmd.args.deep_view() == seq!["/q"@],
                None => self.config.exe is None,
            },
    {
        match &self.config.exe {
            Some(e) => {
                let mut args: Vec<String> = Vec::new();
                args.push("/q".to_owned());
                proof {
                    assert(args.deep_view() =~= seq!["/q"@]);
                }
                Some(ProcessCommand { program: e.clone(), args })
            },
            None => None,
        }
    }

    /// Which archive entry holds the engine's own installer: the first
    /// one with the executable extension.
    pub fn pick_exe_entry(names: &Vec<String>) -> (r: Option<usize>)
        ensures
            match r {
                Some(i) => i < names@.len() && ".exe"@.is_suffix_of(names@[i as int]@) && forall|
                    j: int,
                | 0 <= j < i ==> !".exe"@.is_suffix_of(names@[j]@),
                None => forall|j: int| 0 <= j < names@.len() ==> !".exe"@.is_suffix_of(names@[j]@),
            },
    {
        text::find_first_with_suffix(names, ".exe")
    }
}

impl InputMethod for Weasel {
    open spec fn spec_tag(&self) -> Seq<char> {
        "weasel"@
    }

    open spec fn spec_has_guard(&self) -> bool {
        true
    }

    open spec fn spec_is_remote(&self) -> bool {
        false
    }

    /// Redeploying goes through the deployer binary beside the server
    /// executable; with no executable recorded (or one without a
    /// directory) there is nothing to run.
    open spec fn spec_deploy(&self) -> Option<(Seq<char>, Seq<Seq<char>>)> {
        match self.config.exe {
            Some(e) => match paths::spec_parent_dir(e@) {
                Some(p) => Some((p + "/WeaselDeployer.exe"@, Seq::<Seq<char>>::empty())),
                None => None,
            },
            None => None,
        }
    }

    fn tag(&self) -> (t: String) {
        "weasel".to_owned()
    }

    fn has_process_guard(&self) -> (b: bool) {
        true
    }

    fn is_remote(&self) -> (b: bool) {
        false
    }

    fn deploy_command(&self) -> (c: Option<ProcessCommand>) {
        match &self.config.exe {
            Some(e) => {
                match paths::parent_dir(e.as_str()) {
                    Some(mut p) => {
                        p.append("/WeaselDeployer.exe");
                        let args: Vec<String> = Vec::new();
                        proof {
                            assert(args.deep_view() =~= Seq::<Seq<char>>::empty());
                        }
                        Some(ProcessCommand { program: p, args })
                    },
                    None => None,
                }
            },
            None => None,
        }
    }
}

} // verus!
