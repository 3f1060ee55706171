//! Path and URL construction.  Paths are plain strings joined with a
//! forward slash; every builder pins the exact characters of its
//! result.

use vstd::prelude::*;

verus! {

use vstd::string::StringExecFns;
use vstd::string::StrSliceExecFns;

/// `base`, a slash, then `name`.
pub fn join(base: &str, name: &str) -> (r: String)
    ensures
        r@ == base@ + "/"@ + name@,
{
    let mut r = base.to_owned();
    r.append("/");
    r.append(name);
    r
}

/// The updater's own root inside the caller's home directory.
pub fn work_dir(home: &str) -> (r: String)
    ensures
        r@ == home@ + "/.sbsrf-update"@,
{
    let mut r = home.to_owned();
    r.append("/.sbsrf-update");
    r
}

/// The shared download cache below the working root.
pub fn cache_dir(work: &str) -> (r: String)
    ensures
        r@ == work@ + "/_cache"@,
{
    let mut r = work.to_owned();
    r.append("/_cache");
    r
}

/// The root of one device's snapshots below its private directory.
pub fn backups_dir(update_dir: &str) -> (r: String)
    ensures
        r@ == update_dir@ + "/backups"@,
{
    let mut r = update_dir.to_owned();
    r.append("/backups");
    r
}

/// Where the snapshot named `version` lives (or is to be created).
pub fn backup_target(update_dir: &str, version: &str) -> (r: String)
    ensures
        r@ == update_dir@ + "/backups"@ + "/"@ + version@,
{
    let mut r = update_dir.to_owned();
    r.append("/backups");
    r.append("/");
    r.append(version);
    r
}

/// What a restore reads: the snapshot directory itself for a local
/// engine, or the single archive stored inside it for the remote one.
pub fn restore_source(update_dir: &str, version: &str, remote: bool) -> (r: String)
    ensures
        !remote ==> r@ == update_dir@ + "/backups"@ + "/"@ + version@,
        remote ==> r@ == update_dir@ + "/backups"@ + "/"@ + version@ + "/Rime.zip"@,
{
    let mut r = backup_target(update_dir, version);
    if remote {
        r.append("/Rime.zip");
    }
    r
}

/// The endpoint one extracted file is sent to on the remote engine,
/// overriding whatever is there.
pub fn upload_url(host: &str, name: &str) -> (r: String)
    ensures
        r@ == "http://"@ + host@ + "/api/tus/Rime/"@ + name@ + "?override=true"@,
{
    let mut r = "http://".to_owned();
    r.append(host);
    r.append("/api/tus/Rime/");
    r.append(name);
    r.append("?override=true");
    r
}

/// The endpoint that serves an archive of the remote engine's live
/// state, read when backing it up.
pub fn remote_backup_url(host: &str) -> (r: String)
    ensures
        r@ == "http://"@ + host@ + "/api/raw/Rime"@,
{
    let mut r = "http://".to_owned();
    r.append(host);
    r.append("/api/raw/Rime");
    r
}

/// The position of the last slash of `s`, or `-1` when it has none.
pub open spec fn spec_last_slash(s: Seq<char>) -> int
    decreases s.len(),
{
    if s.len() == 0 {
        -1
    } else if s[s.len() - 1] == '/' {
        s.len() - 1
    } else {
        spec_last_slash(s.drop_last())
    }
}

/// Everything before the last slash, or nothing when there is none.
pub open spec fn spec_parent_dir(s: Seq<char>) -> Option<Seq<char>> {
    let i = spec_last_slash(s);
    if i >= 0 {
        Some(s.subrange(0, i))
    } else {
        None
    }
}

/// The directory holding `path`: everything before its last slash.
pub fn parent_dir(path: &str) -> (r: Option<String>)
    ensures
        match r {
            Some(p) => spec_parent_dir(path@) == Some(p@),
            None => spec_parent_dir(path@) is None,
        },
{
    let len = path.unicode_len();
    let mut k: usize = len;
    proof {
        assert(path@.take(len as int) =~= path@);
    }
    while k > 0
        invariant
            k <= len,
            len == path@.len(),
            spec_last_slash(path@) == spec_last_slash(path@.take(k as int)),
        decreases k,
    {
        if path.get_char(k - 1) == '/' {
            proof {
                assert(path@.take(k as int)[k - 1] == '/');
            }
            return Some(path.substring_char(0, k - 1).to_owned());
        }
        proof {
            assert(path@.take(k as int).drop_last() =~= path@.take(k as int - 1));
        }
        k -= 1;
    }
    proof {
        assert(path@.take(0).len() == 0);
    }
    None
}

} // verus!
