//! The store of versioned snapshots kept for one device, with the
//! retention policy that rotates old entries out.
//!
//! The store models the `backups` directory: one entry per snapshot,
//! named by the version it preserved, ordered lexicographically by
//! name (version tags sort as strings; newest last).  The caller reads
//! the directory, hands the names in, and carries out the plans this
//! module returns.

use vstd::prelude::*;

use crate::text;
use crate::text::{chars_le, strings_sorted};

verus! {

/// Whether some entry of `entries` is named `v`.
pub open spec fn contains_name(entries: Seq<String>, v: Seq<char>) -> bool {
    exists|i: int| 0 <= i < entries.len() && entries[i]@ == v
}

/// How many of the oldest entries must leave so that, after one more
/// snapshot is inserted, at most `max_backups` remain: none while the
/// store is below its limit, otherwise enough to bring the count down
/// to one below the limit (bounded by the number of entries there
/// are).
pub open spec fn spec_victim_count(n: int, max_backups: int) -> int {
    if n >= max_backups {
        if n + 1 - max_backups <= n {
            n + 1 - max_backups
        } else {
            n
        }
    } else {
        0
    }
}

/// The collection of snapshots of one device, sorted ascending by
/// name.
pub struct BackupStore {
    entries: Vec<String>,
}

impl BackupStore {
    /// The entries, oldest first.
    pub closed spec fn spec_entries(self) -> Seq<String> {
        self.entries@
    }

    /// The entries are in ascending lexicographic order.
    pub open spec fn wf(self) -> bool {
        strings_sorted(self.spec_entries())
    }

    /// Builds the store from a directory listing, in any order.
    pub fn new(names: Vec<String>) -> (s: Self)
        ensures
            s.wf(),
            s.spec_entries().to_multiset() == names@.to_multiset(),
            s.spec_entries().len() == names@.len(),
    {
        BackupStore { entries: text::sort_strings(&names) }
    }

    /// The snapshots held, oldest first.
    pub fn list(&self) -> (r: &Vec<String>)
        ensures
            r@ == self.spec_entries(),
    {
        &self.entries
    }

    /// Whether a snapshot named `version` is held.
    pub fn contains_version(&self, version: &str) -> (r: bool)
        ensures
            r == contains_name(self.spec_entries(), version@),
    {
        let mut i: usize = 0;
        while i < self.entries.len()
            invariant
                i <= self.entries@.len(),
                forall|j: int| 0 <= j < i ==> self.entries@[j]@ != version@,
            decreases self.entries@.len() - i,
        {
            if text::str_eq(self.entries[i].as_str(), version) {
                return true;
            }
            i += 1;
        }
        false
    }

    /// Records that a snapshot named `version` now exists, keeping the
    /// entries sorted.
    pub fn record_snapshot(&mut self, version: &str)
        requires
            old(self).wf(),
        ensures
            final(self).wf(),
            final(self).spec_entries().len() == old(self).spec_entries().len() + 1,
            contains_name(final(self).spec_entries(), version@),
            forall|v: Seq<char>|
                contains_name(old(self).spec_entries(), v) ==> contains_name(
                    final(self).spec_entries(),
                    v,
                ),
            forall|v: Seq<char>|
                contains_name(final(self).spec_entries(), v) ==> contains_name(
                    old(self).spec_entries(),
                    v,
                ) || v == version@,
    {
        let ghost old_entries = self.entries@;
        let mut pos: usize = 0;
        while pos < self.entries.len() && text::str_le(self.entries[pos].as_str(), version)
            invariant
                pos <= self.entries@.len(),
                self.entries@ == old_entries,
                forall|j: int| 0 <= j < pos ==> chars_le(self.entries@[j]@, version@),
            decreases self.entries@.len() - pos,
        {
            pos += 1;
        }
        proof {
            if pos < old_entries.len() {
                text::lemma_chars_le_total(old_entries[pos as int]@, version@);
            }
        }
        let owned = version.to_owned();
        self.entries.insert(pos, owned);
        proof {
            let new_entries = self.entries@;
            assert(new_entries =~= old_entries.insert(pos as int, owned));
            assert forall|i: int, j: int|
                0 <= i < j < new_entries.len() implies chars_le(
                new_entries[i]@,
                new_entries[j]@,
            ) by {
                if i < pos && j < pos {
                } else if i < pos && j == pos {
                } else if i == pos && j > pos {
                    if j - 1 > pos {
                        text::lemma_chars_le_trans(
                            version@,
                            old_entries[pos as int]@,
                            old_entries[j - 1]@,
                        );
                    }
                } else if i < pos && j > pos {
                    assert(new_entries[j] == old_entries[j - 1]);
                } else if i > pos && j > pos {
                    assert(new_entries[i] == old_entries[i - 1]);
                    assert(new_entries[j] == old_entries[j - 1]);
                }
            }
            assert(contains_name(new_entries, version@)) by {
                assert(new_entries[pos as int]@ == version@);
            }
            assert forall|v: Seq<char>|
                contains_name(old_entries, v) implies contains_name(new_entries, v) by {
                let i = choose|i: int| 0 <= i < old_entries.len() && old_entries[i]@ == v;
                if i < pos {
                    assert(new_entries[i]@ == v);
                } else {
                    assert(new_entries[i + 1]@ == v);
                }
            }
            assert forall|v: Seq<char>|
                contains_name(new_entries, v) implies contains_name(old_entries, v) || v
                == version@ by {
                let i = choose|i: int| 0 <= i < new_entries.len() && new_entries[i]@ == v;
                if i < pos {
                    assert(old_entries[i]@ == v);
                } else if i > pos {
                    assert(old_entries[i - 1]@ == v);
                }
            }
        }
    }
}

/// Names the oldest entries that must be removed before one more
/// snapshot is taken so that the store stays within its retention
/// limit.  The result is a prefix of the sorted entries; removal of a
/// named entry is the caller's to perform, and a removal failure must
/// abort the operation rather than overwrite a full store.
pub fn ensure_max_backups(store: &BackupStore, max_backups: i32) -> (victims: Vec<String>)
    requires
        store.wf(),
        max_backups >= 0,
    ensures
        victims@ == store.spec_entries().subrange(
            0,
            spec_victim_count(store.spec_entries().len() as int, max_backups as int),
        ),
{
    let entries = store.list();
    let n = entries.len();
    let k: usize = if n >= max_backups as usize {
        if max_backups == 0 {
            n
        } else {
            n - max_backups as usize + 1
        }
    } else {
        0
    };
    let mut victims: Vec<String> = Vec::new();
    let mut i: usize = 0;
    while i < k
        invariant
            i <= k,
            k <= entries@.len(),
            entries@ == store.spec_entries(),
            victims@.len() == i,
            forall|j: int| 0 <= j < i ==> victims@[j] == entries@[j],
        decreases k - i,
    {
        victims.push(entries[i].clone());
        i += 1;
    }
    proof {
        assert(victims@ =~= store.spec_entries().subrange(0, k as int));
    }
    victims
}

/// What taking a snapshot amounts to, given the retention limit and
/// the entries already held.
pub enum SnapshotAction {
    /// Retention is zero: backup is disabled, nothing is ever created
    /// under the backup root.
    Disabled,
    /// The version is already backed up: the snapshot is a successful
    /// no-op, never a second copy.
    Skip,
    /// A fresh snapshot directory is to be created and filled.
    Create,
}

/// The decision `plan_snapshot` takes, as a function of the store's
/// entries, the retention limit, and the version to preserve.
pub open spec fn spec_snapshot_action(
    entries: Seq<String>,
    max_backups: int,
    version: Seq<char>,
) -> SnapshotAction {
    if max_backups == 0 {
        SnapshotAction::Disabled
    } else if contains_name(entries, version) {
        SnapshotAction::Skip
    } else {
        SnapshotAction::Create
    }
}

/// A snapshot plan: the decision, and, when a copy is due, which old
/// entries must be removed first.
pub enum SnapshotPlan {
    /// Backup is disabled by a zero retention limit.
    Disabled,
    /// This version is already backed up; skip the copy and succeed.
    AlreadyBackedUp,
    /// Remove the named oldest entries, then copy the live state into
    /// a fresh directory named after the version.
    Create { remove_first: Vec<String> },
}

/// Plans a snapshot of the current live state under the name
/// `version`: disabled when retention is zero, a skip when this
/// version is already held, otherwise a copy preceded by the removals
/// the retention limit demands.
pub fn plan_snapshot(store: &BackupStore, max_backups: i32, version: &str) -> (p: SnapshotPlan)
    requires
        store.wf(),
        max_backups >= 0,
    ensures
        (p is Disabled) == (spec_snapshot_action(
            store.spec_entries(),
            max_backups as int,
            version@,
        ) is Disabled),
        (p is AlreadyBackedUp) == (spec_snapshot_action(
            store.spec_entries(),
            max_backups as int,
            version@,
        ) is Skip),
        (p matches SnapshotPlan::Create { remove_first } ==> spec_snapshot_action(
            store.spec_entries(),
            max_backups as int,
            version@,
        ) is Create && remove_first@ == store.spec_entries().subrange(
            0,
            spec_victim_count(store.spec_entries().len() as int, max_backups as int),
        )),
        (spec_snapshot_action(store.spec_entries(), max_backups as int, version@) is Create
            ==> p is Create),
{
    if max_backups == 0 {
        return SnapshotPlan::Disabled;
    }
    if store.contains_version(version) {
        return SnapshotPlan::AlreadyBackedUp;
    }
    let remove_first = ensure_max_backups(store, max_backups);
    SnapshotPlan::Create { remove_first }
}

/// A zero retention limit disables backup entirely: the plan is never
/// a copy, so nothing is ever created under the backup root.
pub proof fn law_zero_retention_disables_backup(entries: Seq<String>, version: Seq<char>)
    ensures
        spec_snapshot_action(entries, 0, version) is Disabled,
{
}

/// Snapshots are idempotent: for a version the store already holds,
/// the plan is a skip — the copy is performed at most once.
pub proof fn law_snapshot_idempotent(entries: Seq<String>, max_backups: int, version: Seq<char>)
    requires
        max_backups != 0,
        contains_name(entries, version),
    ensures
        spec_snapshot_action(entries, max_backups, version) is Skip,
{
}

/// Retention removes exactly the oldest names: when the store holds at
/// least as many entries as the limit allows, the victims are the
/// first `n + 1 - max` in sorted order, so that after the removals and
/// one insertion at most `max` remain.
pub proof fn law_retention_keeps_newest(n: int, max_backups: int)
    requires
        1 <= max_backups <= n,
    ensures
        spec_victim_count(n, max_backups) == n + 1 - max_backups,
        n - spec_victim_count(n, max_backups) + 1 == max_backups,
{
}

} // verus!
