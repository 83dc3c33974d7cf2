//! The update of the sidecar: a transaction of steps that ends with the new
//! version installed or with the previous one back in place.

use crate::text::optional_text;
use vstd::prelude::*;
use vstd::string::*;

verus! {

/// One step of an update. The caller performs the step that is pending and reports
/// how it ended.
#[derive(Clone, Copy, Debug, PartialEq, Eq, Structural)]
pub enum UpdateStep {
    /// Stop the running sidecar.
    StopServer,
    /// Rename the install directory to the backup location, over any earlier backup.
    BackUpInstall,
    /// Download and install the requested version.
    Install,
    /// Delete the install directory, which holds a partial or a broken install.
    RemoveInstall,
    /// Rename the backup to the install directory.
    RestoreBackup,
    /// Start the sidecar from the new install.
    StartNew,
    /// Start the sidecar from the restored install.
    RestartPrevious,
    /// Delete the backup.
    DeleteBackup,
}

/// What made an update fail.
#[derive(Clone, Copy, Debug, PartialEq, Eq, Structural)]
pub enum UpdateFault {
    /// The install directory could not be moved to the backup location.
    Backup,
    /// The new version could not be downloaded or installed.
    Install,
    /// The new version was installed and did not start.
    Start,
    /// A step of the rollback failed on the disk.
    Rollback,
    /// The new version is in place, and the backup could not be deleted.
    Cleanup,
}

/// An update of the sidecar in progress: a transaction that ends with the new
/// version installed or with the previous one back in place.
#[derive(Clone, Debug, PartialEq, Eq)]
pub struct UpdateTransaction {
    /// Whether a sidecar was running when the update began.
    pub was_running: bool,
    /// Whether an install existed when the update began, so that a backup is made.
    pub had_install: bool,
    /// The step to perform now; `None` once the update has ended.
    pub pending: Option<UpdateStep>,
    /// What went wrong, once something has.
    pub fault: Option<UpdateFault>,
    /// The failure to report, once there is one.
    pub failure: Option<String>,
}

/// An update as the contracts see it.
pub struct UpdateView {
    pub was_running: bool,
    pub had_install: bool,
    pub pending: Option<UpdateStep>,
    pub fault: Option<UpdateFault>,
    pub failure: Option<Seq<char>>,
}

impl View for UpdateTransaction {
    type V = UpdateView;

    open spec fn view(&self) -> UpdateView {
        UpdateView {
            was_running: self.was_running,
            had_install: self.had_install,
            pending: self.pending,
            fault: self.fault,
            failure: optional_text(self.failure),
        }
    }
}

/// Whether a step acts on the install or the backup directory.
pub open spec fn touches_disk(step: UpdateStep) -> bool {
    step == UpdateStep::BackUpInstall || step == UpdateStep::RemoveInstall || step
        == UpdateStep::RestoreBackup || step == UpdateStep::DeleteBackup
}

/// The report of a backup that could not be made.
pub open spec fn backup_failure_text(detail: Seq<char>) -> Seq<char> {
    "Failed to back up the current install: "@ + detail
}

/// The report of a rollback that could not be completed, after the failure that
/// made it necessary.
pub open spec fn rollback_failure_text(cause: Seq<char>, detail: Seq<char>) -> Seq<char> {
    cause + "; rollback failed: "@ + detail
}

/// The report of a backup that could not be deleted.
pub open spec fn cleanup_failure_text(detail: Seq<char>) -> Seq<char> {
    "Failed to remove the backup of the previous install: "@ + detail
}

/// The failure that led to a rollback; empty where none is on record.
pub open spec fn cause_of(failure: Option<Seq<char>>) -> Seq<char> {
    match failure {
        Some(cause) => cause,
        None => Seq::empty(),
    }
}

impl UpdateView {
    /// The update has ended.
    pub open spec fn finished(self) -> bool {
        self.pending is None
    }

    /// The update has ended with the new version in place.
    pub open spec fn succeeded(self) -> bool {
        self.pending is None && self.fault is None
    }

    /// The update has ended with a failure.
    pub open spec fn failed(self) -> bool {
        self.pending is None && self.fault is Some
    }

    /// The update at its beginning. A running sidecar is stopped first; an
    /// existing install is then backed up; then the new version is installed.
    pub open spec fn begun(was_running: bool, install_exists: bool) -> UpdateView {
        UpdateView {
            was_running,
            had_install: install_exists,
            pending: Some(
                if was_running {
                    UpdateStep::StopServer
                } else if install_exists {
                    UpdateStep::BackUpInstall
                } else {
                    UpdateStep::Install
                },
            ),
            fault: None,
            failure: None,
        }
    }

    /// The update goes on with `step`.
    pub open spec fn goes_on(self, step: UpdateStep) -> UpdateView {
        UpdateView { pending: Some(step), ..self }
    }

    /// The update ends without a failure.
    pub open spec fn done(self) -> UpdateView {
        UpdateView { pending: None, fault: None, failure: None, ..self }
    }

    /// The update goes on with `step`, or ends where `step` is `None`, and will
    /// report `failure`, which is of the kind `fault`.
    pub open spec fn failing(self, fault: UpdateFault, failure: Seq<char>, step: Option<UpdateStep>)
        -> UpdateView {
        UpdateView { pending: step, fault: Some(fault), failure: Some(failure), ..self }
    }

    /// The update ends and reports the failure that made it roll back.
    pub open spec fn rolled_back(self) -> UpdateView {
        UpdateView { pending: None, failure: Some(cause_of(self.failure)), ..self }
    }

    /// The update after the pending step has ended, with success (`ok`) or with a
    /// failure that `detail` describes. An update that has ended stays as it is.
    ///
    /// A failed install, or a failed start of the new version, begins the rollback:
    /// the new install is deleted, the backup restored, and the previous sidecar
    /// started again where one was running. Where no backup was made, a failed
    /// install ends the update at once. What the rollback restarts may fail without
    /// changing the report. A step on the disk that fails ends the update with a
    /// report of it.
    pub open spec fn advanced(self, ok: bool, detail: Seq<char>) -> UpdateView {
        match self.pending {
            None => self,
            Some(UpdateStep::StopServer) => self.goes_on(
                if self.had_install {
                    UpdateStep::BackUpInstall
                } else {
                    UpdateStep::Install
                },
            ),
            Some(UpdateStep::BackUpInstall) => if ok {
                self.goes_on(UpdateStep::Install)
            } else {
                self.failing(UpdateFault::Backup, backup_failure_text(detail), None)
            },
            Some(UpdateStep::Install) => if ok {
                if self.was_running {
                    self.goes_on(UpdateStep::StartNew)
                } else if self.had_install {
                    self.goes_on(UpdateStep::DeleteBackup)
                } else {
                    self.done()
                }
            } else if self.had_install {
                self.failing(UpdateFault::Install, detail, Some(UpdateStep::RemoveInstall))
            } else {
                self.failing(UpdateFault::Install, detail, None)
            },
            Some(UpdateStep::StartNew) => if ok {
                if self.had_install {
                    self.goes_on(UpdateStep::DeleteBackup)
                } else {
                    self.done()
                }
            } else {
                self.failing(UpdateFault::Start, detail, Some(UpdateStep::RemoveInstall))
            },
            Some(UpdateStep::RemoveInstall) => if ok {
                if self.had_install {
                    self.goes_on(UpdateStep::RestoreBackup)
                } else {
                    self.rolled_back()
                }
            } else {
                self.failing(
                    UpdateFault::Rollback,
                    rollback_failure_text(cause_of(self.failure), detail),
                    None,
                )
            },
            Some(UpdateStep::RestoreBackup) => if ok {
                if self.was_running {
                    self.goes_on(UpdateStep::RestartPrevious)
                } else {
                    self.rolled_back()
                }
            } else {
                self.failing(
                    UpdateFault::Rollback,
                    rollback_failure_text(cause_of(self.failure), detail),
                    None,
                )
            },
            Some(UpdateStep::RestartPrevious) => self.rolled_back(),
            Some(UpdateStep::DeleteBackup) => if ok {
                self.done()
            } else {
                self.failing(UpdateFault::Cleanup, cleanup_failure_text(detail), None)
            },
        }
    }
}

impl UpdateTransaction {
    /// Begins an update. `was_running` tells whether a sidecar is on record,
    /// `install_exists` whether the install directory exists.
    pub fn begin(was_running: bool, install_exists: bool) -> (tx: UpdateTransaction)
        ensures
            tx@ == UpdateView::begun(was_running, install_exists),
    {
        let first = if was_running {
            UpdateStep::StopServer
        } else if install_exists {
            UpdateStep::BackUpInstall
        } else {
            UpdateStep::Install
        };
        UpdateTransaction {
            was_running,
            had_install: install_exists,
            pending: Some(first),
            fault: None,
            failure: None,
        }
    }

    /// The step to perform now, or `None` where the update has ended.
    pub fn pending_step(&self) -> (step: Option<UpdateStep>)
        ensures
            step == self@.pending,
    {
        self.pending
    }

    /// Takes note of how the pending step ended and decides what follows.
    /// `detail` describes the failure where `succeeded` is `false`.
    pub fn advance(&mut self, succeeded: bool, detail: &str)
        ensures
            final(self)@ == old(self)@.advanced(succeeded, detail@),
    {
        let step = match self.pending {
            None => {
                return ;
            },
            Some(step) => step,
        };
        match step {
            UpdateStep::StopServer => {
                self.pending = Some(
                    if self.had_install {
                        UpdateStep::BackUpInstall
                    } else {
                        UpdateStep::Install
                    },
                );
            },
            UpdateStep::BackUpInstall => {
                if succeeded {
                    self.pending = Some(UpdateStep::Install);
                } else {
                    let mut report = String::from_str("Failed to back up the current install: ");
                    report.append(detail);
                    self.fault = Some(UpdateFault::Backup);
                    self.failure = Some(report);
                    self.pending = None;
                }
            },
            UpdateStep::Install => {
                if succeeded {
                    if self.was_running {
                        self.pending = Some(UpdateStep::StartNew);
                    } else if self.had_install {
                        self.pending = Some(UpdateStep::DeleteBackup);
                    } else {
                        self.pending = None;
                        self.fault = None;
                        self.failure = None;
                    }
                } else {
                    self.fault = Some(UpdateFault::Install);
                    self.failure = Some(String::from_str(detail));
                    self.pending = if self.had_install {
                        Some(UpdateStep::RemoveInstall)
                    } else {
                        None
                    };
                }
            },
            UpdateStep::StartNew => {
                if succeeded {
                    if self.had_install {
                        self.pending = Some(UpdateStep::DeleteBackup);
                    } else {
                        self.pending = None;
                        self.fault = None;
                        self.failure = None;
                    }
                } else {
                    self.fault = Some(UpdateFault::Start);
                    self.failure = Some(String::from_str(detail));
                    self.pending = Some(UpdateStep::RemoveInstall);
                }
            },
            UpdateStep::RemoveInstall => {
                if succeeded {
                    if self.had_install {
                        self.pending = Some(UpdateStep::RestoreBackup);
                    } else {
                        self.keep_cause();
                        self.pending = None;
                    }
                } else {
                    self.rollback_failed(detail);
                }
            },
            UpdateStep::RestoreBackup => {
                if succeeded {
                    if self.was_running {
                        self.pending = Some(UpdateStep::RestartPrevious);
                    } else {
                        self.keep_cause();
                        self.pending = None;
                    }
                } else {
                    self.rollback_failed(detail);
                }
            },
            UpdateStep::RestartPrevious => {
                self.keep_cause();
                self.pending = None;
            },
            UpdateStep::DeleteBackup => {
                if succeeded {
                    self.pending = None;
                    self.fault = None;
                    self.failure = None;
                } else {
                    let mut report = String::from_str(
                        "Failed to remove the backup of the previous install: ",
                    );
                    report.append(detail);
                    self.fault = Some(UpdateFault::Cleanup);
                    self.failure = Some(report);
                    self.pending = None;
                }
            },
        }
    }

    fn keep_cause(&mut self)
        ensures
            optional_text(final(self).failure) == Some(cause_of(optional_text(old(self).failure))),
            final(self).was_running == old(self).was_running,
            final(self).had_install == old(self).had_install,
            final(self).pending == old(self).pending,
            final(self).fault == old(self).fault,
    {
        if self.failure.is_none() {
            self.failure = Some(String::new());
        }
    }

    fn rollback_failed(&mut self, detail: &str)
        ensures
            optional_text(final(self).failure) == Some(
                rollback_failure_text(cause_of(optional_text(old(self).failure)), detail@),
            ),
            final(self).was_running == old(self).was_running,
            final(self).had_install == old(self).had_install,
            final(self).pending is None,
            final(self).fault == Some(UpdateFault::Rollback),
    {
        let mut report = match &self.failure {
            Some(cause) => cause.clone(),
            None => String::new(),
        };
        report.append("; rollback failed: ");
        report.append(detail);
        self.fault = Some(UpdateFault::Rollback);
        self.failure = Some(report);
        self.pending = None;
    }

    /// How the update ended: `None` while a step is pending, then `Ok` where the new
    /// version is in place and `Err` with the report of the failure where it is not.
    pub fn result(&self) -> (outcome: Option<Result<(), String>>)
        ensures
            outcome is Some == self@.finished(),
            outcome is Some ==> (outcome->0 is Ok == self@.succeeded()),
            outcome is Some && outcome->0 is Err ==> outcome->0->Err_0@ == cause_of(self@.failure),
    {
        if self.pending.is_some() {
            return None;
        }
        if self.fault.is_none() {
            return Some(Ok(()));
        }
        match &self.failure {
            None => Some(Err(String::new())),
            Some(report) => Some(Err(report.clone())),
        }
    }
}


/// The two directories that an update acts on, each with what it holds: `None`
/// for a directory that does not exist, and a number that stands for its content
/// where it does. Equal numbers mean the same content, byte for byte.
pub struct Disk {
    pub install: Option<int>,
    pub backup: Option<int>,
}

/// How a step ended, as reported to the transaction. `debris` is what a failed
/// install leaves in the install directory.
pub struct StepReport {
    pub ok: bool,
    pub detail: Seq<char>,
    pub debris: Option<int>,
}

/// What a step does to the two directories. `new_install` stands for the content
/// of the version that is being installed. A step on the disk that fails changes
/// nothing; a failed install leaves its debris.
pub open spec fn disk_after(disk: Disk, step: UpdateStep, report: StepReport, new_install: int)
    -> Disk {
    match step {
        UpdateStep::BackUpInstall => if report.ok {
            Disk { install: None, backup: disk.install }
        } else {
            disk
        },
        UpdateStep::Install => if report.ok {
            Disk { install: Some(new_install), ..disk }
        } else {
            Disk { install: report.debris, ..disk }
        },
        UpdateStep::RemoveInstall => if report.ok {
            Disk { install: None, ..disk }
        } else {
            disk
        },
        UpdateStep::RestoreBackup => if report.ok {
            Disk { install: disk.backup, backup: None }
        } else {
            disk
        },
        UpdateStep::DeleteBackup => if report.ok {
            Disk { backup: None, ..disk }
        } else {
            disk
        },
        UpdateStep::StopServer | UpdateStep::StartNew | UpdateStep::RestartPrevious => disk,
    }
}

/// An update and the disk after the caller has performed the pending steps one by
/// one and reported `reports` in turn. Reports that come after the update has
/// ended are not looked at.
pub open spec fn run(tx: UpdateView, disk: Disk, reports: Seq<StepReport>, new_install: int) -> (
    UpdateView,
    Disk,
)
    decreases reports.len(),
{
    if reports.len() == 0 || tx.pending is None {
        (tx, disk)
    } else {
        run(
            tx.advanced(reports[0].ok, reports[0].detail),
            disk_after(disk, tx.pending->0, reports[0], new_install),
            reports.drop_first(),
            new_install,
        )
    }
}

/// What holds of an update under way, and of one that has ended, when it began on
/// an install directory that held `previous`.
pub open spec fn on_course(tx: UpdateView, disk: Disk, previous: Option<int>, new_install: int)
    -> bool {
    let rolling_back = tx.fault == Some(UpdateFault::Install) || tx.fault == Some(
        UpdateFault::Start,
    );
    &&& tx.had_install == (previous is Some)
    &&& match tx.pending {
        Some(UpdateStep::StopServer) => tx.fault is None && disk.install == previous,
        Some(UpdateStep::BackUpInstall) => tx.fault is None && disk.install == previous
            && tx.had_install,
        Some(UpdateStep::Install) => tx.fault is None && (tx.had_install ==> disk.backup
            == previous),
        Some(UpdateStep::StartNew) => tx.fault is None && disk.install == Some(new_install) && (
        tx.had_install ==> disk.backup == previous),
        Some(UpdateStep::DeleteBackup) => tx.fault is None && disk.install == Some(new_install),
        Some(UpdateStep::RemoveInstall) => rolling_back && (tx.had_install ==> disk.backup
            == previous),
        Some(UpdateStep::RestoreBackup) => rolling_back && tx.had_install && disk.backup
            == previous && disk.install is None,
        Some(UpdateStep::RestartPrevious) => rolling_back && disk.install == previous,
        None => settled(tx.fault, disk, previous, new_install),
    }
}

/// What the install directory holds once an update has ended: the new version
/// after a success, and the previous one, where there was one, after a failed
/// install or start. A backup that could not be made leaves the previous version
/// where it was; a backup that could not be deleted leaves the new version in
/// place. Nothing is promised after a rollback that failed on the disk.
pub open spec fn settled(
    fault: Option<UpdateFault>,
    disk: Disk,
    previous: Option<int>,
    new_install: int,
) -> bool {
    match fault {
        None => disk.install == Some(new_install),
        Some(UpdateFault::Cleanup) => disk.install == Some(new_install),
        Some(UpdateFault::Backup) => disk.install == previous,
        Some(UpdateFault::Install) => previous is Some ==> disk.install == previous,
        Some(UpdateFault::Start) => disk.install == previous,
        Some(UpdateFault::Rollback) => true,
    }
}

/// One step keeps an update on course.
proof fn lemma_step_on_course(
    tx: UpdateView,
    disk: Disk,
    report: StepReport,
    previous: Option<int>,
    new_install: int,
)
    requires
        on_course(tx, disk, previous, new_install),
        tx.pending is Some,
    ensures
        on_course(
            tx.advanced(report.ok, report.detail),
            disk_after(disk, tx.pending->0, report, new_install),
            previous,
            new_install,
        ),
{
}

/// Any number of steps keep an update on course.
proof fn lemma_run_on_course(
    tx: UpdateView,
    disk: Disk,
    reports: Seq<StepReport>,
    previous: Option<int>,
    new_install: int,
)
    requires
        on_course(tx, disk, previous, new_install),
    ensures
        on_course(
            run(tx, disk, reports, new_install).0,
            run(tx, disk, reports, new_install).1,
            previous,
            new_install,
        ),
    decreases reports.len(),
{
    if reports.len() == 0 || tx.pending is None {
    } else {
        lemma_step_on_course(tx, disk, reports[0], previous, new_install);
        lemma_run_on_course(
            tx.advanced(reports[0].ok, reports[0].detail),
            disk_after(disk, tx.pending->0, reports[0], new_install),
            reports.drop_first(),
            previous,
            new_install,
        );
    }
}

/// After an update has ended, however its steps went, the install directory holds
/// the new version or the previous one, as `settled` says for each way to end.
pub proof fn lemma_update_settles(
    was_running: bool,
    disk: Disk,
    reports: Seq<StepReport>,
    new_install: int,
)
    ensures
        ({
            let end = run(
                UpdateView::begun(was_running, disk.install is Some),
                disk,
                reports,
                new_install,
            );
            end.0.finished() ==> settled(end.0.fault, end.1, disk.install, new_install)
        }),
{
    lemma_run_on_course(
        UpdateView::begun(was_running, disk.install is Some),
        disk,
        reports,
        disk.install,
        new_install,
    );
}

/// An update whose install fails leaves the previous install as it was: once
/// the update has ended with that fault, the install directory holds what it held
/// before the update began.
pub proof fn lemma_failed_install_keeps_previous(
    was_running: bool,
    disk: Disk,
    reports: Seq<StepReport>,
    new_install: int,
)
    requires
        disk.install is Some,
        run(
            UpdateView::begun(was_running, true),
            disk,
            reports,
            new_install,
        ).0.finished(),
        run(UpdateView::begun(was_running, true), disk, reports, new_install).0.fault == Some(
            UpdateFault::Install,
        ),
    ensures
        run(UpdateView::begun(was_running, true), disk, reports, new_install).1.install
            == disk.install,
{
    lemma_update_settles(was_running, disk, reports, new_install);
}

/// An update whose new version does not start puts the previous install back:
/// once the update has ended with that fault, the install directory holds what it
/// held before the update began, so that the sidecar can be started from it again.
pub proof fn lemma_failed_start_restores_previous(
    was_running: bool,
    disk: Disk,
    reports: Seq<StepReport>,
    new_install: int,
)
    requires
        run(
            UpdateView::begun(was_running, disk.install is Some),
            disk,
            reports,
            new_install,
        ).0.finished(),
        run(
            UpdateView::begun(was_running, disk.install is Some),
            disk,
            reports,
            new_install,
        ).0.fault == Some(UpdateFault::Start),
    ensures
        run(
            UpdateView::begun(was_running, disk.install is Some),
            disk,
            reports,
            new_install,
        ).1.install == disk.install,
{
    lemma_update_settles(was_running, disk, reports, new_install);
}

/// A failed install is never reported as a success, and a failed start of the new
/// version neither: the step that follows belongs to the rollback, or the update
/// has ended with a fault.
pub proof fn lemma_failure_is_reported(tx: UpdateView, detail: Seq<char>)
    requires
        tx.pending == Some(UpdateStep::Install) || tx.pending == Some(UpdateStep::StartNew),
    ensures
        tx.advanced(false, detail).fault is Some,
        tx.advanced(false, detail).failure == Some(detail),
        tx.advanced(false, detail).pending == Some(UpdateStep::RemoveInstall) || tx.advanced(
            false,
            detail,
        ).pending is None,
{
}

/// The steps of an update come in a fixed order: whatever step follows another
/// stands later in the order stop, backup, install, start, and then either the
/// deletion of the backup or the rollback by removal, restoration and restart.
pub proof fn lemma_update_steps_in_order(tx: UpdateView, ok: bool, detail: Seq<char>)
    requires
        tx.pending is Some,
    ensures
        steps_left(tx.advanced(ok, detail)) < steps_left(tx),
        tx.advanced(ok, detail).was_running == tx.was_running,
        tx.advanced(ok, detail).had_install == tx.had_install,
{
}

/// An update ends: every step that can follow another stands later in the order
/// of the steps, so at most eight reports bring any update to its end.
pub proof fn lemma_update_ends(tx: UpdateView, disk: Disk, reports: Seq<StepReport>, new_install: int)
    requires
        reports.len() >= 8,
    ensures
        run(tx, disk, reports, new_install).0.finished(),
{
    lemma_run_progress(tx, disk, reports, new_install);
}

/// How many steps an update may still take.
pub open spec fn steps_left(tx: UpdateView) -> nat {
    match tx.pending {
        None => 0,
        Some(UpdateStep::StopServer) => 8,
        Some(UpdateStep::BackUpInstall) => 7,
        Some(UpdateStep::Install) => 6,
        Some(UpdateStep::StartNew) => 5,
        Some(UpdateStep::RemoveInstall) => 3,
        Some(UpdateStep::RestoreBackup) => 2,
        Some(UpdateStep::RestartPrevious) => 1,
        Some(UpdateStep::DeleteBackup) => 1,
    }
}

proof fn lemma_run_progress(tx: UpdateView, disk: Disk, reports: Seq<StepReport>, new_install: int)
    requires
        reports.len() >= steps_left(tx),
    ensures
        run(tx, disk, reports, new_install).0.finished(),
    decreases reports.len(),
{
    if reports.len() == 0 || tx.pending is None {
    } else {
        lemma_run_progress(
            tx.advanced(reports[0].ok, reports[0].detail),
            disk_after(disk, tx.pending->0, reports[0], new_install),
            reports.drop_first(),
            new_install,
        );
    }
}

} // verus!
