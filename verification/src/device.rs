//! The registry-level view of one device: its durable record, and the
//! capability surface a target device offers.

use vstd::prelude::*;

use crate::error::Error;
use crate::release::Asset;
use crate::text;

verus! {

use vstd::string::StringExecFns;

/// One device's durable record, keyed by its name.
pub struct Device {
    /// The device's private root directory.
    pub base_dir: String,
    /// Retention limit for backups; zero disables backup.
    pub max_backups: i32,
    /// Whether the sentence-level language model is included.
    pub sentence: bool,
    /// The operating system the device runs.
    pub platform: String,
    /// The last applied release identifier.
    pub version: String,
}

impl Device {
    /// The record for a device that has none on disk yet: the device
    /// running this process gets a default record, any other name is
    /// unknown and refused.  The caller reads the disk first and calls
    /// this only when nothing was found.
    pub fn new(work_dir: &str, name: &str, os: &str) -> (r: Result<Device, Error>)
        ensures
            match r {
                Result::Ok(d) => name@ == os@ && d.base_dir@ == work_dir@ + "/"@ + name@
                    && d.max_backups == 1 && !d.sentence && d.platform@ == os@ && d.version@
                    == "20051203"@,
                Result::Err(e) => name@ != os@ && e.spec_message() == "no configuration for device "@
                    + name@,
            },
    {
        if text::str_eq(name, os) {
            let base_dir = crate::paths::join(work_dir, name);
            Result::Ok(
                Device {
                    base_dir,
                    max_backups: 1,
                    sentence: false,
                    platform: os.to_owned(),
                    version: "20051203".to_owned(),
                },
            )
        } else {
            let mut message = "no configuration for device ".to_owned();
            message.append(name);
            Result::Err(Error::new(message.as_str()))
        }
    }

    /// Records `version` as the last applied release.  The caller
    /// writes the record back to disk afterwards.
    pub fn save(&mut self, version: &str)
        ensures
            final(self).version@ == version@,
            final(self).base_dir == old(self).base_dir,
            final(self).max_backups == old(self).max_backups,
            final(self).sentence == old(self).sentence,
            final(self).platform == old(self).platform,
    {
        self.version = version.to_owned();
    }
}

/// The operations every installation target offers; kept for callers
/// that drive a target through a registry.
pub trait TargetDevice {
    /// Installs the engine itself.
    fn install();

    /// Snapshots the live state.
    fn backup();

    /// Installs the given release assets.
    fn update(assets: Vec<Asset>);

    /// Rolls the live state back to a snapshot.
    fn restore();
}

} // verus!
