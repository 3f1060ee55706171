//! The update and restore flows, written once against the facts a
//! device exposes (its versions, whether it has a guarded process,
//! which snapshots it holds).
//!
//! Each flow is a state machine the caller drives: the caller performs
//! the outside work a state calls for (prompting, copying,
//! downloading, stopping a process) and reports what it observed; the
//! flow decides what comes next.  The contracts pin every transition,
//! and the proof functions at the end state the orderings the flows
//! guarantee: no install before the backup is resolved, no version
//! persisted after a failed copy, no mutation of the live directory
//! while a guarded process has not been seen stopped.

use vstd::prelude::*;

use crate::backup::BackupStore;
use crate::error::Error;
use crate::im::{IMUpdateConfig, InputMethod};
use crate::text;
use crate::text::{chars_le, strings_sorted};

verus! {

/// Where an update run stands.
pub enum UpdateState {
    /// The fetched release is the installed version and the run was
    /// not forced: terminal, with no side effects.
    UpToDate,
    /// Waiting for the caller to confirm the update.
    AwaitConfirmation,
    /// The caller declined: terminal, with no side effects.
    Declined,
    /// Waiting for the caller to report whether the guarded process is
    /// running.
    CheckingProcess,
    /// The guarded process was running: waiting for it to be observed
    /// stopped.
    Quiescing,
    /// Waiting for the snapshot of the current version to be resolved.
    BackingUp,
    /// Waiting for the per-asset install batch to finish.
    Installing,
    /// Waiting for the guarded process to be observed running again.
    Resuming,
    /// Waiting for the deploy (reload) signal to be attempted.
    Deploying,
    /// Everything due has been attempted; the new version may be
    /// persisted.
    ReadyToPersist,
    /// The new version has been recorded: terminal.
    Persisted,
    /// A fatal step failed: terminal, the version must not be
    /// persisted.
    Failed,
}

/// One update run for one device.
pub struct UpdateFlow {
    /// The version the device records as installed.
    pub local_version: String,
    /// The version the fetched release carries.
    pub release_version: String,
    /// Whether a reinstall over an equal version was asked for.
    pub force: bool,
    /// Whether this device's live directory is locked by a process
    /// that must be quiesced.
    pub has_guard: bool,
    /// Where the run stands.
    pub state: UpdateState,
    /// The guarded process was observed running before mutation began.
    pub guard_was_running: bool,
    /// The guarded process has been observed stopped.
    pub stop_observed: bool,
    /// The pre-update snapshot is resolved: taken, already present, or
    /// disabled by a zero retention limit.
    pub backup_resolved: bool,
    /// The install batch has run (whatever each task reported).
    pub install_attempted: bool,
    /// The guarded process has been observed running again.
    pub resume_observed: bool,
    /// The deploy signal has been attempted.
    pub deploy_attempted: bool,
}

impl UpdateFlow {
    /// The device-given inputs never change while the flow runs.
    pub open spec fn same_inputs(self, other: UpdateFlow) -> bool {
        &&& self.local_version == other.local_version
        &&& self.release_version == other.release_version
        &&& self.force == other.force
        &&& self.has_guard == other.has_guard
    }

    /// Whether the run is a no-op because the release is already
    /// installed and no reinstall was forced.
    pub open spec fn spec_up_to_date(self) -> bool {
        self.local_version@ == self.release_version@ && !self.force
    }

    /// The orderings every reachable flow obeys.
    pub open spec fn wf(self) -> bool {
        &&& (self.guard_was_running ==> self.has_guard)
        &&& (self.stop_observed ==> self.guard_was_running)
        &&& (self.resume_observed ==> self.stop_observed && self.install_attempted)
        &&& (self.install_attempted ==> self.backup_resolved)
        &&& (self.deploy_attempted ==> self.install_attempted)
        &&& match self.state {
            UpdateState::UpToDate => self.spec_up_to_date() && !self.backup_resolved
                && !self.install_attempted && !self.deploy_attempted && !self.guard_was_running,
            UpdateState::AwaitConfirmation => !self.spec_up_to_date() && !self.backup_resolved
                && !self.install_attempted && !self.deploy_attempted && !self.guard_was_running,
            UpdateState::Declined => !self.backup_resolved && !self.install_attempted
                && !self.deploy_attempted && !self.guard_was_running,
            UpdateState::CheckingProcess => self.has_guard && !self.guard_was_running
                && !self.backup_resolved && !self.install_attempted && !self.deploy_attempted,
            UpdateState::Quiescing => self.guard_was_running && !self.stop_observed
                && !self.backup_resolved && !self.install_attempted && !self.deploy_attempted,
            UpdateState::BackingUp => (self.guard_was_running ==> self.stop_observed)
                && !self.backup_resolved && !self.install_attempted && !self.deploy_attempted,
            UpdateState::Installing => self.backup_resolved && (self.guard_was_running
                ==> self.stop_observed) && !self.install_attempted && !self.deploy_attempted,
            UpdateState::Resuming => self.install_attempted && self.guard_was_running
                && self.stop_observed && !self.resume_observed && !self.deploy_attempted,
            UpdateState::Deploying => self.install_attempted && (self.guard_was_running
                ==> self.resume_observed) && !self.deploy_attempted,
            UpdateState::ReadyToPersist => self.deploy_attempted && (self.guard_was_running
                ==> self.resume_observed),
            UpdateState::Persisted => self.deploy_attempted && (self.guard_was_running
                ==> self.resume_observed),
            UpdateState::Failed => true,
        }
    }

    /// Starts a run: compares the installed version to the release's
    /// by exact string equality, and either ends at once (equal, not
    /// forced) or asks for confirmation.
    pub fn begin(local_version: &str, release_version: &str, force: bool, has_guard: bool) -> (f:
        UpdateFlow)
        ensures
            f.wf(),
            f.local_version@ == local_version@,
            f.release_version@ == release_version@,
            f.force == force,
            f.has_guard == has_guard,
            !f.backup_resolved && !f.install_attempted && !f.deploy_attempted
                && !f.guard_was_running && !f.stop_observed && !f.resume_observed,
            f.state == if local_version@ == release_version@ && !force {
                UpdateState::UpToDate
            } else {
                UpdateState::AwaitConfirmation
            },
    {
        let equal = text::str_eq(local_version, release_version);
        let state = if equal && !force {
            UpdateState::UpToDate
        } else {
            UpdateState::AwaitConfirmation
        };
        UpdateFlow {
            local_version: local_version.to_owned(),
            release_version: release_version.to_owned(),
            force,
            has_guard,
            state,
            guard_was_running: false,
            stop_observed: false,
            backup_resolved: false,
            install_attempted: false,
            resume_observed: false,
            deploy_attempted: false,
        }
    }

    /// The default answer of the confirmation prompt: yes for a new
    /// version, no for a forced reinstall of the same one.
    pub fn default_confirmation(&self) -> (r: bool)
        requires
            self.state is AwaitConfirmation,
        ensures
            r == (self.local_version@ != self.release_version@),
    {
        !text::str_eq(self.local_version.as_str(), self.release_version.as_str())
    }

    /// Records the caller's answer.  A refusal ends the run with no
    /// side effects; consent moves on to the process check (guarded
    /// devices) or straight to the backup.
    pub fn confirm(&mut self, yes: bool)
        requires
            old(self).wf(),
            old(self).state is AwaitConfirmation,
        ensures
            final(self).wf(),
            final(self).same_inputs(*old(self)),
            final(self).state == if !yes {
                UpdateState::Declined
            } else if old(self).has_guard {
                UpdateState::CheckingProcess
            } else {
                UpdateState::BackingUp
            },
            !final(self).backup_resolved && !final(self).install_attempted && !final(self).deploy_attempted && !final(self).guard_was_running,
    {
        if !yes {
            self.state = UpdateState::Declined;
        } else if self.has_guard {
            self.state = UpdateState::CheckingProcess;
        } else {
            self.state = UpdateState::BackingUp;
        }
    }

    /// Records whether the guarded process was found running.  A
    /// running process must be stopped before anything is touched; an
    /// idle one lets the backup begin at once.
    pub fn observe_running(&mut self, running: bool)
        requires
            old(self).wf(),
            old(self).state is CheckingProcess,
        ensures
            final(self).wf(),
            final(self).same_inputs(*old(self)),
            final(self).guard_was_running == running,
            final(self).state == if running {
                UpdateState::Quiescing
            } else {
                UpdateState::BackingUp
            },
            !final(self).backup_resolved && !final(self).install_attempted && !final(self).deploy_attempted,
    {
        self.guard_was_running = running;
        if running {
            self.state = UpdateState::Quiescing;
        } else {
            self.state = UpdateState::BackingUp;
        }
    }

    /// Records that the guarded process has been observed stopped; the
    /// backup may now begin.
    pub fn observe_stopped(&mut self)
        requires
            old(self).wf(),
            old(self).state is Quiescing,
        ensures
            final(self).wf(),
            final(self).same_inputs(*old(self)),
            final(self).stop_observed,
            final(self).guard_was_running == old(self).guard_was_running,
            final(self).state == UpdateState::BackingUp,
    {
        self.stop_observed = true;
        self.state = UpdateState::BackingUp;
    }

    /// The version the snapshot must be tagged with: always the one
    /// about to be overwritten, never the incoming one.
    pub fn backup_version(&self) -> (v: &String)
        ensures
            v@ == self.local_version@,
    {
        &self.local_version
    }

    /// Records the outcome of the snapshot.  A resolved snapshot
    /// (taken, already present, or disabled) lets the install batch
    /// begin; a failed one is fatal to the run.
    pub fn on_backup_result(&mut self, ok: bool)
        requires
            old(self).wf(),
            old(self).state is BackingUp,
        ensures
            final(self).wf(),
            final(self).same_inputs(*old(self)),
            final(self).guard_was_running == old(self).guard_was_running,
            final(self).stop_observed == old(self).stop_observed,
            ok ==> final(self).state == UpdateState::Installing && final(self).backup_resolved,
            !ok ==> final(self).state == UpdateState::Failed && !final(self).backup_resolved,
    {
        if ok {
            self.backup_resolved = true;
            self.state = UpdateState::Installing;
        } else {
            self.state = UpdateState::Failed;
        }
    }

    /// Records that the install batch has run.  One outcome per asset
    /// is reported; no outcome aborts the run or its siblings — the
    /// next state does not depend on the outcomes at all.
    pub fn on_install_batch(&mut self, outcomes: &Vec<bool>)
        requires
            old(self).wf(),
            old(self).state is Installing,
        ensures
            final(self).wf(),
            final(self).same_inputs(*old(self)),
            final(self).install_attempted,
            final(self).backup_resolved,
            final(self).guard_was_running == old(self).guard_was_running,
            final(self).state == if old(self).guard_was_running {
                UpdateState::Resuming
            } else {
                UpdateState::Deploying
            },
    {
        let ghost _ = outcomes@;
        self.install_attempted = true;
        if self.guard_was_running {
            self.state = UpdateState::Resuming;
        } else {
            self.state = UpdateState::Deploying;
        }
    }

    /// Records that the guarded process has been observed running
    /// again after the install.
    pub fn observe_started(&mut self)
        requires
            old(self).wf(),
            old(self).state is Resuming,
        ensures
            final(self).wf(),
            final(self).same_inputs(*old(self)),
            final(self).resume_observed,
            final(self).state == UpdateState::Deploying,
    {
        self.resume_observed = true;
        self.state = UpdateState::Deploying;
    }

    /// Records that the deploy (reload) signal has been attempted.  A
    /// deploy failure is reported by the caller but never rolls the
    /// installed files back, so no outcome is taken here.
    pub fn on_deploy_attempted(&mut self)
        requires
            old(self).wf(),
            old(self).state is Deploying,
        ensures
            final(self).wf(),
            final(self).same_inputs(*old(self)),
            final(self).deploy_attempted,
            final(self).state == UpdateState::ReadyToPersist,
    {
        self.deploy_attempted = true;
        self.state = UpdateState::ReadyToPersist;
    }

    /// The version to record as installed: exactly the release's.
    pub fn version_to_persist(&self) -> (v: &String)
        requires
            self.wf(),
            self.state is ReadyToPersist,
        ensures
            v@ == self.release_version@,
    {
        &self.release_version
    }

    /// Records that the configuration has been written back.
    pub fn persisted(&mut self)
        requires
            old(self).wf(),
            old(self).state is ReadyToPersist,
        ensures
            final(self).wf(),
            final(self).same_inputs(*old(self)),
            final(self).state == UpdateState::Persisted,
    {
        self.state = UpdateState::Persisted;
    }
}

/// An up-to-date run is silent: it happens exactly when the versions
/// are equal and no reinstall was forced, and nothing has been backed
/// up, installed or deployed in it.
pub proof fn law_up_to_date_is_silent(f: UpdateFlow)
    requires
        f.wf(),
        f.state is UpToDate,
    ensures
        f.local_version@ == f.release_version@,
        !f.force,
        !f.backup_resolved,
        !f.install_attempted,
        !f.deploy_attempted,
{
}

/// The backup is resolved before any asset is installed: a flow that
/// has run its install batch settled its snapshot first.
pub proof fn law_backup_precedes_install(f: UpdateFlow)
    requires
        f.wf(),
    ensures
        f.install_attempted ==> f.backup_resolved,
{
}

/// A persisted update went the whole way: snapshot resolved, install
/// batch run, deploy attempted.
pub proof fn law_persist_needs_full_run(f: UpdateFlow)
    requires
        f.wf(),
        f.state is Persisted,
    ensures
        f.backup_resolved,
        f.install_attempted,
        f.deploy_attempted,
{
}

/// A guarded process seen running is seen stopped before the backup or
/// the install touches anything, and seen running again only after the
/// install batch is done.
pub proof fn law_guard_order(f: UpdateFlow)
    requires
        f.wf(),
    ensures
        (f.state is BackingUp || f.state is Installing) && f.guard_was_running
            ==> f.stop_observed,
        f.resume_observed ==> f.stop_observed && f.install_attempted,
{
}

/// Where a restore run stands.
pub enum RestoreState {
    /// Waiting for the caller to pick one of the held snapshots.
    Choosing,
    /// Waiting for the caller to confirm overwriting the live
    /// directory.
    AwaitConfirmation,
    /// The caller declined: terminal, with no side effects.
    Declined,
    /// Waiting for the caller to report whether the guarded process is
    /// running.
    CheckingProcess,
    /// The guarded process was running: waiting for it to be observed
    /// stopped.
    Quiescing,
    /// The live directory may now be wiped and refilled from the
    /// snapshot; waiting for the copy's outcome.
    Restoring,
    /// Waiting for the guarded process to be observed running again.
    Resuming,
    /// Waiting for the deploy (reload) signal to be attempted.
    Deploying,
    /// The copy succeeded and the deploy was attempted; the selected
    /// version may be persisted.
    ReadyToPersist,
    /// The selected version has been recorded: terminal.
    Persisted,
    /// The copy failed (or another fatal step): terminal, the version
    /// must not be persisted.
    Failed,
}

/// One restore run for one device.
pub struct RestoreFlow {
    /// The snapshots held when the run began, oldest first.
    pub entries: Vec<String>,
    /// The index of the snapshot chosen to restore.
    pub selected: usize,
    /// Whether this device's live directory is locked by a process
    /// that must be quiesced.
    pub has_guard: bool,
    /// Where the run stands.
    pub state: RestoreState,
    /// The guarded process was observed running before mutation began.
    pub guard_was_running: bool,
    /// The guarded process has been observed stopped.
    pub stop_observed: bool,
    /// The wipe-and-copy of the live directory succeeded.
    pub copy_ok: bool,
    /// The guarded process has been observed running again.
    pub resume_observed: bool,
    /// The deploy signal has been attempted.
    pub deploy_attempted: bool,
}

impl RestoreFlow {
    /// The inputs never change while the flow runs.
    pub open spec fn same_inputs(self, other: RestoreFlow) -> bool {
        &&& self.entries == other.entries
        &&& self.has_guard == other.has_guard
    }

    /// The orderings every reachable flow obeys.
    pub open spec fn wf(self) -> bool {
        &&& strings_sorted(self.entries@)
        &&& self.entries@.len() > 0
        &&& (!(self.state is Choosing) ==> self.selected < self.entries@.len())
        &&& (self.guard_was_running ==> self.has_guard)
        &&& (self.stop_observed ==> self.guard_was_running)
        &&& (self.resume_observed ==> self.stop_observed && self.copy_ok)
        &&& (self.deploy_attempted ==> self.copy_ok)
        &&& match self.state {
            RestoreState::Choosing => !self.copy_ok && !self.deploy_attempted
                && !self.guard_was_running,
            RestoreState::AwaitConfirmation => !self.copy_ok && !self.deploy_attempted
                && !self.guard_was_running,
            RestoreState::Declined => !self.copy_ok && !self.deploy_attempted
                && !self.guard_was_running,
            RestoreState::CheckingProcess => self.has_guard && !self.guard_was_running
                && !self.copy_ok && !self.deploy_attempted,
            RestoreState::Quiescing => self.guard_was_running && !self.stop_observed
                && !self.copy_ok && !self.deploy_attempted,
            RestoreState::Restoring => (self.guard_was_running ==> self.stop_observed)
                && !self.copy_ok && !self.deploy_attempted,
            RestoreState::Resuming => self.copy_ok && self.guard_was_running
                && self.stop_observed && !self.resume_observed && !self.deploy_attempted,
            RestoreState::Deploying => self.copy_ok && (self.guard_was_running
                ==> self.resume_observed) && !self.deploy_attempted,
            RestoreState::ReadyToPersist => self.copy_ok && self.deploy_attempted
                && (self.guard_was_running ==> self.resume_observed),
            RestoreState::Persisted => self.copy_ok && self.deploy_attempted,
            RestoreState::Failed => true,
        }
    }

    /// Starts a run over the snapshots a device holds.  With no
    /// snapshot to restore the run is refused before anything is
    /// touched.
    pub fn begin(store: &BackupStore, has_guard: bool) -> (r: Result<RestoreFlow, Error>)
        requires
            store.wf(),
        ensures
            match r {
                Result::Ok(f) => store.spec_entries().len() > 0 && f.wf() && f.entries@
                    == store.spec_entries() && f.has_guard == has_guard && f.state
                    == RestoreState::Choosing && !f.copy_ok && !f.deploy_attempted
                    && !f.guard_was_running && !f.stop_observed && !f.resume_observed,
                Result::Err(e) => store.spec_entries().len() == 0 && e.spec_message()
                    == "no backups available"@,
            },
    {
        let listed = store.list();
        if listed.len() == 0 {
            return Result::Err(Error::new("no backups available"));
        }
        let mut entries: Vec<String> = Vec::new();
        let mut i: usize = 0;
        while i < listed.len()
            invariant
                i <= listed@.len(),
                listed@ == store.spec_entries(),
                entries@.len() == i,
                forall|j: int| 0 <= j < i ==> entries@[j] == listed@[j],
            decreases listed@.len() - i,
        {
            entries.push(listed[i].clone());
            i += 1;
        }
        proof {
            assert(entries@ =~= store.spec_entries());
        }
        Result::Ok(
            RestoreFlow {
                entries,
                selected: 0,
                has_guard,
                state: RestoreState::Choosing,
                guard_was_running: false,
                stop_observed: false,
                copy_ok: false,
                resume_observed: false,
                deploy_attempted: false,
            },
        )
    }

    /// The selection offered by default: the most recent snapshot,
    /// which sits last in sorted order.
    pub fn default_selection(&self) -> (r: usize)
        requires
            self.wf(),
        ensures
            r == self.entries@.len() - 1,
    {
        self.entries.len() - 1
    }

    /// Records which snapshot the caller picked.
    pub fn select(&mut self, idx: usize)
        requires
            old(self).wf(),
            old(self).state is Choosing,
            idx < old(self).entries@.len(),
        ensures
            final(self).wf(),
            final(self).same_inputs(*old(self)),
            final(self).selected == idx,
            final(self).state == RestoreState::AwaitConfirmation,
            !final(self).copy_ok && !final(self).deploy_attempted && !final(self).guard_was_running,
    {
        self.selected = idx;
        self.state = RestoreState::AwaitConfirmation;
    }

    /// The name of the snapshot picked.
    pub fn selected_version(&self) -> (v: &String)
        requires
            self.wf(),
            !(self.state is Choosing),
        ensures
            v == self.entries@[self.selected as int],
    {
        &self.entries[self.selected]
    }

    /// Records the caller's answer to destructively overwriting the
    /// live directory.
    pub fn confirm(&mut self, yes: bool)
        requires
            old(self).wf(),
            old(self).state is AwaitConfirmation,
        ensures
            final(self).wf(),
            final(self).same_inputs(*old(self)),
            final(self).selected == old(self).selected,
            final(self).state == if !yes {
                RestoreState::Declined
            } else if old(self).has_guard {
                RestoreState::CheckingProcess
            } else {
                RestoreState::Restoring
            },
            !final(self).copy_ok && !final(self).deploy_attempted && !final(self).guard_was_running,
    {
        if !yes {
            self.state = RestoreState::Declined;
        } else if self.has_guard {
            self.state = RestoreState::CheckingProcess;
        } else {
            self.state = RestoreState::Restoring;
        }
    }

    /// Records whether the guarded process was found running.
    pub fn observe_running(&mut self, running: bool)
        requires
            old(self).wf(),
            old(self).state is CheckingProcess,
        ensures
            final(self).wf(),
            final(self).same_inputs(*old(self)),
            final(self).selected == old(self).selected,
            final(self).guard_was_running == running,
            final(self).state == if running {
                RestoreState::Quiescing
            } else {
                RestoreState::Restoring
            },
            !final(self).copy_ok && !final(self).deploy_attempted,
    {
        self.guard_was_running = running;
        if running {
            self.state = RestoreState::Quiescing;
        } else {
            self.state = RestoreState::Restoring;
        }
    }

    /// Records that the guarded process has been observed stopped; the
    /// live directory may now be wiped.
    pub fn observe_stopped(&mut self)
        requires
            old(self).wf(),
            old(self).state is Quiescing,
        ensures
            final(self).wf(),
            final(self).same_inputs(*old(self)),
            final(self).selected == old(self).selected,
            final(self).stop_observed,
            final(self).guard_was_running == old(self).guard_was_running,
            final(self).state == RestoreState::Restoring,
    {
        self.stop_observed = true;
        self.state = RestoreState::Restoring;
    }

    /// Records the outcome of wiping the live directory and copying
    /// the snapshot in.  A failure is fatal: the run ends and the
    /// selected version is never persisted.
    pub fn on_copy_result(&mut self, ok: bool)
        requires
            old(self).wf(),
            old(self).state is Restoring,
        ensures
            final(self).wf(),
            final(self).same_inputs(*old(self)),
            final(self).selected == old(self).selected,
            final(self).guard_was_running == old(self).guard_was_running,
            final(self).copy_ok == ok,
            ok ==> final(self).state == if old(self).guard_was_running {
                RestoreState::Resuming
            } else {
                RestoreState::Deploying
            },
            !ok ==> final(self).state == RestoreState::Failed,
    {
        if ok {
            self.copy_ok = true;
            if self.guard_was_running {
                self.state = RestoreState::Resuming;
            } else {
                self.state = RestoreState::Deploying;
            }
        } else {
            self.state = RestoreState::Failed;
        }
    }

    /// Records that the guarded process has been observed running
    /// again after the copy.
    pub fn observe_started(&mut self)
        requires
            old(self).wf(),
            old(self).state is Resuming,
        ensures
            final(self).wf(),
            final(self).same_inputs(*old(self)),
            final(self).selected == old(self).selected,
            final(self).resume_observed,
            final(self).state == RestoreState::Deploying,
    {
        self.resume_observed = true;
        self.state = RestoreState::Deploying;
    }

    /// Records that the deploy (reload) signal has been attempted.
    pub fn on_deploy_attempted(&mut self)
        requires
            old(self).wf(),
            old(self).state is Deploying,
        ensures
            final(self).wf(),
            final(self).same_inputs(*old(self)),
            final(self).selected == old(self).selected,
            final(self).deploy_attempted,
            final(self).state == RestoreState::ReadyToPersist,
    {
        self.deploy_attempted = true;
        self.state = RestoreState::ReadyToPersist;
    }

    /// The version to record as installed: exactly the snapshot
    /// selected.
    pub fn version_to_persist(&self) -> (v: &String)
        requires
            self.wf(),
            self.state is ReadyToPersist,
        ensures
            v == self.entries@[self.selected as int],
    {
        &self.entries[self.selected]
    }

    /// Records that the configuration has been written back.
    pub fn persisted(&mut self)
        requires
            old(self).wf(),
            old(self).state is ReadyToPersist,
        ensures
            final(self).wf(),
            final(self).same_inputs(*old(self)),
            final(self).selected == old(self).selected,
            final(self).state == RestoreState::Persisted,
    {
        self.state = RestoreState::Persisted;
    }
}

/// Starts an update run for a device, whichever variant it is: the
/// flow takes the variant's facts through the capability interface and
/// nothing else.
pub fn begin_update_for<M: InputMethod>(
    im: &M,
    config: &IMUpdateConfig,
    release_version: &str,
    force: bool,
) -> (f: UpdateFlow)
    ensures
        f.wf(),
        f.local_version@ == config.version@,
        f.release_version@ == release_version@,
        f.force == force,
        f.has_guard == im.spec_has_guard(),
        !f.backup_resolved && !f.install_attempted && !f.deploy_attempted && !f.guard_was_running,
        f.state == if config.version@ == release_version@ && !force {
            UpdateState::UpToDate
        } else {
            UpdateState::AwaitConfirmation
        },
{
    UpdateFlow::begin(config.version.as_str(), release_version, force, im.has_process_guard())
}

/// Starts a restore run for a device, whichever variant it is.
pub fn begin_restore_for<M: InputMethod>(im: &M, store: &BackupStore) -> (r: Result<
    RestoreFlow,
    Error,
>)
    requires
        store.wf(),
    ensures
        match r {
            Result::Ok(f) => store.spec_entries().len() > 0 && f.wf() && f.entries@
                == store.spec_entries() && f.has_guard == im.spec_has_guard() && f.state
                == RestoreState::Choosing,
            Result::Err(e) => store.spec_entries().len() == 0 && e.spec_message()
                == "no backups available"@,
        },
{
    RestoreFlow::begin(store, im.has_process_guard())
}

/// Whether the shared download cache was written by another release
/// and must be cleared before this run downloads into it.  A cache
/// without a version marker counts as version `0`.
pub fn cache_is_stale(cache_version: &Option<String>, release_version: &str) -> (r: bool)
    ensures
        r == (match cache_version {
            Option::Some(s) => s@,
            Option::None => "0"@,
        } != release_version@),
{
    match cache_version {
        Option::Some(s) => !text::str_eq(s.as_str(), release_version),
        Option::None => !text::str_eq("0", release_version),
    }
}

/// A version is persisted only after the copy of its snapshot into the
/// live directory succeeded: after a failed copy the run is in
/// `Failed`, where no version can be read off.
pub proof fn law_no_persist_without_copy(f: RestoreFlow)
    requires
        f.wf(),
    ensures
        f.state is ReadyToPersist || f.state is Persisted ==> f.copy_ok,
        f.deploy_attempted ==> f.copy_ok,
{
}

/// A guarded process seen running is seen stopped before the live
/// directory is wiped, and seen running again only after the copy
/// succeeded.
pub proof fn law_restore_guard_order(f: RestoreFlow)
    requires
        f.wf(),
    ensures
        f.state is Restoring && f.guard_was_running ==> f.stop_observed,
        f.resume_observed ==> f.stop_observed && f.copy_ok,
{
}

/// The default selection is the newest snapshot: no held entry sorts
/// after it.
pub proof fn law_default_selection_is_newest(f: RestoreFlow)
    requires
        f.wf(),
    ensures
        forall|j: int|
            0 <= j < f.entries@.len() ==> chars_le(
                #[trigger] f.entries@[j]@,
                f.entries@[f.entries@.len() - 1]@,
            ),
{
    assert forall|j: int|
        0 <= j < f.entries@.len() implies chars_le(
        #[trigger] f.entries@[j]@,
        f.entries@[f.entries@.len() - 1]@,
    ) by {
        if j < f.entries@.len() - 1 {
        } else {
            text::lemma_chars_le_total(f.entries@[j]@, f.entries@[j]@);
        }
    }
}

} // verus!
