use multivus_backup::errors::Error;
use multivus_backup::fs_state::FsState;
use multivus_backup::gateway::create_backup as gw_create_backup;
use multivus_backup::gateway::export_data as gw_export_data;
use multivus_backup::gateway::get_app_data_dir as gw_get_app_data_dir;
use multivus_backup::gateway::restore_backup as gw_restore_backup;
use multivus_backup::transfer::ensure_backups_dir;
use multivus_backup::transfer::export;
use multivus_backup::transfer::restore;
use multivus_backup::transfer::snapshot;

fn seeded_root(root: &str) -> FsState {
    let mut fs = FsState::new();
    fs.create_dir_all(root);
    fs
}

#[test]
fn snapshot_then_restore_is_byte_identical() {
    let mut fs = seeded_root("/tmp/app");
    fs.write_file("/tmp/app/multivus.db", vec![10, 20, 30]).unwrap();
    let art = snapshot(&mut fs, "/tmp/app", "nightly").unwrap();
    assert_eq!(art, "/tmp/app/backups/nightly.db");
    // the live file changes after the snapshot was taken
    fs.write_file("/tmp/app/multivus.db", vec![99]).unwrap();
    restore(&mut fs, "/tmp/app", &art).unwrap();
    assert_eq!(fs.read_file("/tmp/app/multivus.db").unwrap(), vec![10, 20, 30]);
}

#[test]
fn snapshot_without_live_file_fails_and_creates_no_directory() {
    let mut fs = seeded_root("/tmp/app");
    let r = snapshot(&mut fs, "/tmp/app", "nightly");
    assert!(matches!(
        r,
        Err(Error::SourceNotFound(multivus_backup::errors::SourceKind::LiveDatabase))
    ));
    // the existence probe runs before ensure-dir: no directory was created
    assert!(!fs.dir_exists("/tmp/app/backups"));
}

#[test]
fn ensure_backups_dir_is_idempotent() {
    let mut fs = seeded_root("/tmp/app");
    let first = ensure_backups_dir(&mut fs, "/tmp/app");
    assert_eq!(first.unwrap(), "/tmp/app/backups");
    assert!(fs.dir_exists("/tmp/app/backups"));
    let second = ensure_backups_dir(&mut fs, "/tmp/app");
    assert_eq!(second.unwrap(), "/tmp/app/backups");
    assert!(fs.dir_exists("/tmp/app/backups"));
}

#[test]
fn restore_overwrites_even_when_live_file_is_absent() {
    let mut fs = seeded_root("/tmp/app");
    fs.create_dir_all("/tmp/app/backups");
    fs.write_file("/tmp/app/backups/old.db", vec![7, 8]).unwrap();
    assert!(!fs.file_exists("/tmp/app/multivus.db"));
    restore(&mut fs, "/tmp/app", "/tmp/app/backups/old.db").unwrap();
    assert_eq!(fs.read_file("/tmp/app/multivus.db").unwrap(), vec![7, 8]);
}

#[test]
fn restore_with_missing_backup_fails_and_changes_nothing() {
    let mut fs = seeded_root("/tmp/app");
    fs.write_file("/tmp/app/multivus.db", vec![1]).unwrap();
    let r = restore(&mut fs, "/tmp/app", "/tmp/app/backups/ghost.db");
    assert!(matches!(
        r,
        Err(Error::SourceNotFound(multivus_backup::errors::SourceKind::BackupArtifact))
    ));
    assert_eq!(fs.read_file("/tmp/app/multivus.db").unwrap(), vec![1]);
}

#[test]
fn export_to_missing_directory_is_an_io_error_not_source_not_found() {
    let mut fs = seeded_root("/tmp/app");
    fs.write_file("/tmp/app/multivus.db", vec![1, 2]).unwrap();
    let r = export(&mut fs, "/tmp/app", "/tmp/nowhere/out.db");
    match r {
        Err(Error::IoError(m)) => assert_eq!(m, "destination directory does not exist"),
        other => panic!("expected an I/O error, got {:?}", other),
    }
}

#[test]
fn export_succeeds_into_an_existing_directory() {
    let mut fs = seeded_root("/tmp/app");
    fs.create_dir_all("/tmp/exports");
    fs.write_file("/tmp/app/multivus.db", vec![5, 6, 7]).unwrap();
    export(&mut fs, "/tmp/app", "/tmp/exports/out.db").unwrap();
    assert_eq!(fs.read_file("/tmp/exports/out.db").unwrap(), vec![5, 6, 7]);
    // the live file itself is untouched
    assert_eq!(fs.read_file("/tmp/app/multivus.db").unwrap(), vec![5, 6, 7]);
}

#[test]
fn export_without_live_file_is_source_not_found() {
    let mut fs = seeded_root("/tmp/app");
    fs.create_dir_all("/tmp/exports");
    let r = export(&mut fs, "/tmp/app", "/tmp/exports/out.db");
    assert!(matches!(
        r,
        Err(Error::SourceNotFound(multivus_backup::errors::SourceKind::LiveDatabase))
    ));
    assert!(!fs.file_exists("/tmp/exports/out.db"));
}

#[test]
fn end_to_end_backup_and_restore_through_the_gateway() {
    let root = Some(String::from("/tmp/app"));
    let mut fs = seeded_root("/tmp/app");

    // no live file yet
    let r = gw_create_backup(&mut fs, &root, "foo");
    assert_eq!(r.unwrap_err(), "Database file not found");

    // create the live file with bytes [1,2,3]
    fs.write_file("/tmp/app/multivus.db", vec![1, 2, 3]).unwrap();
    let r = gw_create_backup(&mut fs, &root, "foo");
    assert_eq!(r.unwrap(), "/tmp/app/backups/foo.db");
    assert_eq!(fs.read_file("/tmp/app/backups/foo.db").unwrap(), vec![1, 2, 3]);

    // overwrite the live file, then restore the snapshot
    fs.write_file("/tmp/app/multivus.db", vec![4, 5, 6]).unwrap();
    gw_restore_backup(&mut fs, &root, "/tmp/app/backups/foo.db").unwrap();
    assert_eq!(fs.read_file("/tmp/app/multivus.db").unwrap(), vec![1, 2, 3]);
}

#[test]
fn gateway_reports_resolution_failure_for_every_command() {
    let mut fs = FsState::new();
    assert_eq!(gw_get_app_data_dir(&None).unwrap_err(), "Failed to get app data directory");
    assert_eq!(
        gw_create_backup(&mut fs, &None, "foo").unwrap_err(),
        "Failed to get app data directory"
    );
    assert_eq!(
        gw_restore_backup(&mut fs, &None, "/x/y.db").unwrap_err(),
        "Failed to get app data directory"
    );
    assert_eq!(
        gw_export_data(&mut fs, &None, "/x/y.db").unwrap_err(),
        "Failed to get app data directory"
    );
}

#[test]
fn gateway_returns_the_resolved_directory() {
    let r = gw_get_app_data_dir(&Some(String::from("/home/user/.local/share/app")));
    assert_eq!(r.unwrap(), "/home/user/.local/share/app");
}

#[test]
fn gateway_rejects_traversal_names_before_touching_anything() {
    let root = Some(String::from("/tmp/app"));
    let mut fs = seeded_root("/tmp/app");
    fs.write_file("/tmp/app/multivus.db", vec![1]).unwrap();
    for bad in ["", "..", "a/b", "a\\b", "../../etc/passwd"] {
        let r = gw_create_backup(&mut fs, &root, bad);
        assert_eq!(r.unwrap_err(), "Invalid backup name");
    }
    assert!(!fs.dir_exists("/tmp/app/backups"));
}

#[test]
fn gateway_restore_with_missing_backup_reports_backup_not_found() {
    let root = Some(String::from("/tmp/app"));
    let mut fs = seeded_root("/tmp/app");
    let r = gw_restore_backup(&mut fs, &root, "/tmp/app/backups/none.db");
    assert_eq!(r.unwrap_err(), "Backup file not found");
}

#[test]
fn gateway_export_flattens_io_errors_to_their_cause_text() {
    let root = Some(String::from("/tmp/app"));
    let mut fs = seeded_root("/tmp/app");
    fs.write_file("/tmp/app/multivus.db", vec![1]).unwrap();
    let r = gw_export_data(&mut fs, &root, "/tmp/nowhere/out.db");
    assert_eq!(r.unwrap_err(), "destination directory does not exist");
}

#[test]
fn snapshot_with_separator_in_name_fails_without_gateway_validation() {
    // the transfer layer itself takes names as given; a separator makes the
    // artifact land in a directory that does not exist
    let mut fs = seeded_root("/tmp/app");
    fs.write_file("/tmp/app/multivus.db", vec![1]).unwrap();
    let r = snapshot(&mut fs, "/tmp/app", "nested/name");
    match r {
        Err(Error::IoError(m)) => assert_eq!(m, "destination directory does not exist"),
        other => panic!("expected an I/O error, got {:?}", other),
    }
}

#[test]
fn error_messages_match_the_trust_boundary_table() {
    assert_eq!(Error::ResolutionError.message(), "Failed to get app data directory");
    assert_eq!(
        Error::SourceNotFound(multivus_backup::errors::SourceKind::LiveDatabase).message(),
        "Database file not found"
    );
    assert_eq!(
        Error::SourceNotFound(multivus_backup::errors::SourceKind::BackupArtifact).message(),
        "Backup file not found"
    );
    assert_eq!(Error::IoError(String::from("disk on fire")).message(), "disk on fire");
}
