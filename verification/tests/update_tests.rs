use llm_backend::update::{UpdateFault, UpdateStep, UpdateTransaction};

/// The two directories of an update, as a test keeps them: what each holds.
struct Disk {
    install: Option<&'static str>,
    backup: Option<&'static str>,
}

/// Performs the pending steps on `disk`, each ending as `fails` says, and tells
/// which steps ran.
fn perform(
    tx: &mut UpdateTransaction,
    disk: &mut Disk,
    new_version: &'static str,
    fails: &[UpdateStep],
) -> Vec<UpdateStep> {
    let mut ran = Vec::new();
    while let Some(step) = tx.pending_step() {
        ran.push(step);
        let ok = !fails.contains(&step);
        match step {
            UpdateStep::BackUpInstall if ok => {
                disk.backup = disk.install.take();
            }
            UpdateStep::Install => {
                disk.install = Some(if ok { new_version } else { "half extracted" });
            }
            UpdateStep::RemoveInstall if ok => {
                disk.install = None;
            }
            UpdateStep::RestoreBackup if ok => {
                disk.install = disk.backup.take();
            }
            UpdateStep::DeleteBackup if ok => {
                disk.backup = None;
            }
            _ => {}
        }
        let detail = if ok { String::new() } else { format!("{:?} failed", step) };
        tx.advance(ok, &detail);
        assert!(ran.len() <= 8);
    }
    ran
}

#[test]
fn an_update_of_a_running_sidecar_succeeds() {
    let mut disk = Disk { install: Some("v1"), backup: Some("v0") };
    let mut tx = UpdateTransaction::begin(true, true);
    assert_eq!(tx.result(), None);
    let ran = perform(&mut tx, &mut disk, "v2", &[]);
    assert_eq!(
        ran,
        vec![
            UpdateStep::StopServer,
            UpdateStep::BackUpInstall,
            UpdateStep::Install,
            UpdateStep::StartNew,
            UpdateStep::DeleteBackup,
        ]
    );
    assert_eq!(tx.result(), Some(Ok(())));
    assert_eq!(tx.fault, None);
    assert_eq!(disk.install, Some("v2"));
    assert_eq!(disk.backup, None);
}

#[test]
fn an_update_without_a_running_sidecar_starts_nothing() {
    let mut disk = Disk { install: Some("v1"), backup: None };
    let mut tx = UpdateTransaction::begin(false, true);
    let ran = perform(&mut tx, &mut disk, "v2", &[]);
    assert_eq!(
        ran,
        vec![UpdateStep::BackUpInstall, UpdateStep::Install, UpdateStep::DeleteBackup]
    );
    assert_eq!(tx.result(), Some(Ok(())));
    assert_eq!(disk.install, Some("v2"));
    assert_eq!(disk.backup, None);
}

#[test]
fn a_first_install_makes_no_backup() {
    let mut disk = Disk { install: None, backup: None };
    let mut tx = UpdateTransaction::begin(false, false);
    let ran = perform(&mut tx, &mut disk, "v1", &[]);
    assert_eq!(ran, vec![UpdateStep::Install]);
    assert_eq!(tx.result(), Some(Ok(())));
    assert_eq!(disk.install, Some("v1"));
}

#[test]
fn a_failed_install_leaves_the_previous_install_unchanged() {
    let mut disk = Disk { install: Some("v1"), backup: None };
    let mut tx = UpdateTransaction::begin(true, true);
    let ran = perform(&mut tx, &mut disk, "v2", &[UpdateStep::Install]);
    assert_eq!(
        ran,
        vec![
            UpdateStep::StopServer,
            UpdateStep::BackUpInstall,
            UpdateStep::Install,
            UpdateStep::RemoveInstall,
            UpdateStep::RestoreBackup,
            UpdateStep::RestartPrevious,
        ]
    );
    assert_eq!(tx.result(), Some(Err("Install failed".to_string())));
    assert_eq!(tx.fault, Some(UpdateFault::Install));
    assert_eq!(disk.install, Some("v1"));
    assert_eq!(disk.backup, None);
}

#[test]
fn a_failed_install_without_a_running_sidecar_restarts_nothing() {
    let mut disk = Disk { install: Some("v1"), backup: None };
    let mut tx = UpdateTransaction::begin(false, true);
    let ran = perform(&mut tx, &mut disk, "v2", &[UpdateStep::Install]);
    assert_eq!(
        ran,
        vec![
            UpdateStep::BackUpInstall,
            UpdateStep::Install,
            UpdateStep::RemoveInstall,
            UpdateStep::RestoreBackup,
        ]
    );
    assert_eq!(tx.result(), Some(Err("Install failed".to_string())));
    assert_eq!(disk.install, Some("v1"));
}

#[test]
fn a_failed_first_install_ends_at_once() {
    let mut disk = Disk { install: None, backup: None };
    let mut tx = UpdateTransaction::begin(false, false);
    let ran = perform(&mut tx, &mut disk, "v1", &[UpdateStep::Install]);
    assert_eq!(ran, vec![UpdateStep::Install]);
    assert_eq!(tx.result(), Some(Err("Install failed".to_string())));
    assert_eq!(tx.fault, Some(UpdateFault::Install));
}

#[test]
fn a_failed_start_restores_the_previous_binary() {
    let mut disk = Disk { install: Some("v1"), backup: None };
    let mut tx = UpdateTransaction::begin(true, true);
    let ran = perform(&mut tx, &mut disk, "v2", &[UpdateStep::StartNew]);
    assert_eq!(
        ran,
        vec![
            UpdateStep::StopServer,
            UpdateStep::BackUpInstall,
            UpdateStep::Install,
            UpdateStep::StartNew,
            UpdateStep::RemoveInstall,
            UpdateStep::RestoreBackup,
            UpdateStep::RestartPrevious,
        ]
    );
    assert_eq!(tx.result(), Some(Err("StartNew failed".to_string())));
    assert_eq!(tx.fault, Some(UpdateFault::Start));
    assert_eq!(disk.install, Some("v1"));
    assert_eq!(disk.backup, None);
}

#[test]
fn a_failed_restart_does_not_change_the_report() {
    let mut disk = Disk { install: Some("v1"), backup: None };
    let mut tx = UpdateTransaction::begin(true, true);
    perform(&mut tx, &mut disk, "v2", &[UpdateStep::Install, UpdateStep::RestartPrevious]);
    assert_eq!(tx.result(), Some(Err("Install failed".to_string())));
    assert_eq!(tx.fault, Some(UpdateFault::Install));
    assert_eq!(disk.install, Some("v1"));
}

#[test]
fn a_backup_that_cannot_be_made_ends_the_update() {
    let mut disk = Disk { install: Some("v1"), backup: None };
    let mut tx = UpdateTransaction::begin(false, true);
    let ran = perform(&mut tx, &mut disk, "v2", &[UpdateStep::BackUpInstall]);
    assert_eq!(ran, vec![UpdateStep::BackUpInstall]);
    assert_eq!(
        tx.result(),
        Some(Err("Failed to back up the current install: BackUpInstall failed".to_string()))
    );
    assert_eq!(tx.fault, Some(UpdateFault::Backup));
    assert_eq!(disk.install, Some("v1"));
}

#[test]
fn a_rollback_that_fails_on_the_disk_is_reported() {
    let mut disk = Disk { install: Some("v1"), backup: None };
    let mut tx = UpdateTransaction::begin(false, true);
    let ran = perform(&mut tx, &mut disk, "v2", &[UpdateStep::Install, UpdateStep::RestoreBackup]);
    assert_eq!(ran.last(), Some(&UpdateStep::RestoreBackup));
    assert_eq!(
        tx.result(),
        Some(Err("Install failed; rollback failed: RestoreBackup failed".to_string()))
    );
    assert_eq!(tx.fault, Some(UpdateFault::Rollback));

    let mut disk = Disk { install: Some("v1"), backup: None };
    let mut tx = UpdateTransaction::begin(false, true);
    let ran = perform(&mut tx, &mut disk, "v2", &[UpdateStep::Install, UpdateStep::RemoveInstall]);
    assert_eq!(ran.last(), Some(&UpdateStep::RemoveInstall));
    assert_eq!(
        tx.result(),
        Some(Err("Install failed; rollback failed: RemoveInstall failed".to_string()))
    );
}

#[test]
fn a_backup_that_cannot_be_deleted_is_reported() {
    let mut disk = Disk { install: Some("v1"), backup: None };
    let mut tx = UpdateTransaction::begin(false, true);
    perform(&mut tx, &mut disk, "v2", &[UpdateStep::DeleteBackup]);
    assert_eq!(
        tx.result(),
        Some(Err(
            "Failed to remove the backup of the previous install: DeleteBackup failed".to_string()
        ))
    );
    assert_eq!(tx.fault, Some(UpdateFault::Cleanup));
    assert_eq!(disk.install, Some("v2"));
}

#[test]
fn an_update_that_has_ended_takes_no_more_reports() {
    let mut tx = UpdateTransaction::begin(false, false);
    tx.advance(true, "");
    assert_eq!(tx.result(), Some(Ok(())));
    let ended = tx.clone();
    tx.advance(false, "late");
    assert_eq!(tx, ended);
}

#[test]
fn every_update_leaves_the_new_or_the_previous_install() {
    let steps = [
        UpdateStep::Install,
        UpdateStep::StartNew,
        UpdateStep::RestartPrevious,
        UpdateStep::StopServer,
    ];
    for was_running in [false, true] {
        for mask in 0..16u32 {
            let fails: Vec<UpdateStep> =
                (0..4).filter(|k| mask & (1 << k) != 0).map(|k| steps[k]).collect();
            let mut disk = Disk { install: Some("v1"), backup: Some("older") };
            let mut tx = UpdateTransaction::begin(was_running, true);
            perform(&mut tx, &mut disk, "v2", &fails);
            match tx.result() {
                Some(Ok(())) => assert_eq!(disk.install, Some("v2")),
                Some(Err(_)) => assert_eq!(disk.install, Some("v1")),
                None => panic!("the update did not end"),
            }
            assert_eq!(disk.backup, None);
        }
    }
}
