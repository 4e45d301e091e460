//! The three supported data movements — snapshot, restore and export — and
//! the backup store's directory bookkeeping.  Each is a single whole-file
//! duplication with an existence probe first: the probe runs before any side
//! effect, so a missing source leaves the file system untouched.

use vstd::prelude::*;

use crate::errors::Error;
use crate::errors::SourceKind;
use crate::fs_state::FsState;
use crate::paths::artifact_of;
use crate::paths::artifact_path;
use crate::paths::backups_dir_of;
use crate::paths::backups_dir_path;
use crate::paths::live_db_of;
use crate::paths::live_db_path;

verus! {

/// Creates `root/backups` (with any missing ancestors) if it is absent; a
/// no-op if it is present.  Returns the backup store's path.
pub fn ensure_backups_dir(fs: &mut FsState, root: &str) -> (r: Result<String, Error>)
    ensures
        final(fs)@ == old(fs)@.mkdirs(backups_dir_of(root@)),
        r matches Ok(d) && d@ == backups_dir_of(root@),
        old(fs)@.wf() ==> final(fs)@.wf(),
{
    let bdir = backups_dir_path(root);
    fs.create_dir_all(bdir.as_str());
    Ok(bdir)
}

/// `Snapshot(root, name)`: duplicates the live database into the backup
/// store under `name`, ensuring the store directory first.  The live file is
/// probed before anything else: when it is absent the operation fails with
/// `SourceNotFound` and no directory is created.  On success returns the
/// artifact's path.
pub fn snapshot(fs: &mut FsState, root: &str, name: &str) -> (r: Result<String, Error>)
    ensures
        final(fs)@ == old(fs)@.after_snapshot(root@, name@),
        r is Ok <==> old(fs)@.snapshot_ok(root@, name@),
        r matches Ok(p) ==> p@ == artifact_of(root@, name@),
        !old(fs)@.files.contains_key(live_db_of(root@)) ==> r matches Err(
            Error::SourceNotFound(SourceKind::LiveDatabase),
        ),
        old(fs)@.files.contains_key(live_db_of(root@)) && !old(fs)@.snapshot_ok(root@, name@)
            ==> (r matches Err(e) && e matches Error::IoError(m) && m@
            == crate::errors::dest_missing_msg()),
        old(fs)@.wf() ==> final(fs)@.wf(),
{
    let db = live_db_path(root);
    if !fs.file_exists(db.as_str()) {
        return Err(Error::SourceNotFound(SourceKind::LiveDatabase));
    }
    let bdir = backups_dir_path(root);
    fs.create_dir_all(bdir.as_str());
    let art = artifact_path(root, name);
    match fs.copy_file(db.as_str(), art.as_str()) {
        Ok(_) => Ok(art),
        Err(e) => Err(e),
    }
}

/// `Restore(root, backup_path)`: duplicates the chosen backup over the live
/// database, overwriting it unconditionally.  When the backup is absent the
/// operation fails with `SourceNotFound` and changes nothing.
pub fn restore(fs: &mut FsState, root: &str, backup_path: &str) -> (r: Result<(), Error>)
    ensures
        final(fs)@ == old(fs)@.after_restore(root@, backup_path@),
        r is Ok <==> old(fs)@.restore_ok(root@, backup_path@),
        !old(fs)@.files.contains_key(backup_path@) ==> r matches Err(
            Error::SourceNotFound(SourceKind::BackupArtifact),
        ),
        old(fs)@.files.contains_key(backup_path@) && !old(fs)@.writable(live_db_of(root@)) ==> (
        r matches Err(e) && e matches Error::IoError(m) && m@
            == crate::errors::dest_missing_msg()),
        old(fs)@.wf() ==> final(fs)@.wf(),
{
    if !fs.file_exists(backup_path) {
        return Err(Error::SourceNotFound(SourceKind::BackupArtifact));
    }
    let db = live_db_path(root);
    fs.copy_file(backup_path, db.as_str())
}

/// `Export(root, export_path)`: duplicates the live database to an external
/// target, creating or overwriting the target file.  The target's parent
/// directory must already exist — export creates no directories — so a
/// missing parent surfaces as an I/O failure, not as `SourceNotFound`.
pub fn export(fs: &mut FsState, root: &str, export_path: &str) -> (r: Result<(), Error>)
    ensures
        final(fs)@ == old(fs)@.after_export(root@, export_path@),
        r is Ok <==> old(fs)@.export_ok(root@, export_path@),
        !old(fs)@.files.contains_key(live_db_of(root@)) ==> r matches Err(
            Error::SourceNotFound(SourceKind::LiveDatabase),
        ),
        old(fs)@.files.contains_key(live_db_of(root@)) && !old(fs)@.writable(export_path@) ==> (
        r matches Err(e) && e matches Error::IoError(m) && m@
            == crate::errors::dest_missing_msg()),
        old(fs)@.wf() ==> final(fs)@.wf(),
{
    let db = live_db_path(root);
    if !fs.file_exists(db.as_str()) {
        return Err(Error::SourceNotFound(SourceKind::LiveDatabase));
    }
    fs.copy_file(db.as_str(), export_path)
}

} // verus!
