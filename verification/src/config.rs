//! The application-level configuration record: retention, the
//! sentence-model switch, the engine's configuration path, and the
//! installed version under its two names.  Reading and writing the
//! record on disk is the caller's work.

use vstd::prelude::*;

verus! {

use vstd::string::StringExecFns;

/// Settings of the updater itself.
struct AppConfig {
    /// Retention limit for backups; zero disables backup.
    max_backups: i64,
    /// Whether the sentence-level language model is included.
    include_octagram: bool,
    /// Whether custom configuration files are updated too.
    update_custom_config: bool,
    /// The installed version's identifier.
    version_id: String,
    /// The installed version's display name.
    version_name: String,
}

/// Where the engine keeps its own configuration.
struct RimeConfig {
    /// The engine's configuration directory.
    config_path: String,
}

/// One device's durable configuration.
pub struct Config {
    /// The device's private root directory.
    pub working_dir: String,
    app: AppConfig,
    rime: RimeConfig,
}

impl Config {
    /// The private root directory recorded.
    pub closed spec fn spec_working_dir(self) -> Seq<char> {
        self.working_dir@
    }

    /// The engine configuration directory recorded.
    pub closed spec fn spec_rime_config_path(self) -> Seq<char> {
        self.rime.config_path@
    }

    /// The recorded version identifier.
    pub closed spec fn spec_version_id(self) -> Seq<char> {
        self.app.version_id@
    }

    /// The recorded version name.
    pub closed spec fn spec_version_name(self) -> Seq<char> {
        self.app.version_name@
    }

    /// The recorded retention limit.
    pub closed spec fn spec_max_backups(self) -> int {
        self.app.max_backups as int
    }

    /// Whether the sentence-level language model is included.
    pub closed spec fn spec_include_octagram(self) -> bool {
        self.app.include_octagram
    }

    /// The record a device starts from when none is on disk yet: one
    /// backup kept, no sentence model, custom configuration updated,
    /// and the initial version markers.  The caller writes it back to
    /// disk.
    pub fn new(working_dir: &str, rime_config_path: &str) -> (c: Config)
        ensures
            c.spec_working_dir() == working_dir@,
            c.spec_rime_config_path() == rime_config_path@,
            c.spec_max_backups() == 1,
            !c.spec_include_octagram(),
            c.spec_version_id() == "init-version"@,
            c.spec_version_name() == "20051203"@,
    {
        Config {
            working_dir: working_dir.to_owned(),
            app: AppConfig {
                max_backups: 1,
                include_octagram: false,
                update_custom_config: true,
                version_id: "init-version".to_owned(),
                version_name: "20051203".to_owned(),
            },
            rime: RimeConfig { config_path: rime_config_path.to_owned() },
        }
    }

    /// A path under the caller's home (or profile) directory.
    pub fn path_in_home(home: &str, sub_path: &str) -> (r: String)
        ensures
            r@ == home@ + "/"@ + sub_path@,
    {
        let mut r = home.to_owned();
        r.append("/");
        r.append(sub_path);
        r
    }

    /// Where the engine's configuration lives by default: under the
    /// user's library on the local engines' host, directly under the
    /// profile on the windowed one.
    pub fn default_rime_config_path(home: &str, windows: bool) -> (r: String)
        ensures
            !windows ==> r@ == home@ + "/"@ + "Library/Rime"@,
            windows ==> r@ == home@ + "/"@ + "Rime"@,
    {
        if windows {
            Config::path_in_home(home, "Rime")
        } else {
            Config::path_in_home(home, "Library/Rime")
        }
    }

    /// The engine configuration directory recorded.
    pub fn get_rime_config_path(&self) -> (r: String)
        ensures
            r@ == self.spec_rime_config_path(),
    {
        self.rime.config_path.clone()
    }

    /// The recorded version identifier.
    pub fn get_version_id(&self) -> (r: String)
        ensures
            r@ == self.spec_version_id(),
    {
        self.app.version_id.clone()
    }

    /// The recorded version name.
    pub fn get_version_name(&self) -> (r: String)
        ensures
            r@ == self.spec_version_name(),
    {
        self.app.version_name.clone()
    }

    /// Records a newly applied version under both names.  The caller
    /// writes the record back to disk afterwards.
    pub fn set_version(&mut self, version_id: String, version_name: String)
        ensures
            final(self).spec_version_id() == version_id@,
            final(self).spec_version_name() == version_name@,
            final(self).spec_working_dir() == old(self).spec_working_dir(),
            final(self).spec_rime_config_path() == old(self).spec_rime_config_path(),
            final(self).spec_max_backups() == old(self).spec_max_backups(),
            final(self).spec_include_octagram() == old(self).spec_include_octagram(),
    {
        self.app.version_id = version_id;
        self.app.version_name = version_name;
    }

    /// The recorded retention limit.
    pub fn get_max_backups(&self) -> (r: i64)
        ensures
            r as int == self.spec_max_backups(),
    {
        self.app.max_backups
    }

    /// Whether the sentence-level language model is included.
    pub fn is_include_octagram(&self) -> (r: bool)
        ensures
            r == self.spec_include_octagram(),
    {
        self.app.include_octagram
    }
}

} // verus!
