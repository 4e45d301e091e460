//! The boundary that accepts requests from the untrusted front-end.  Each
//! command takes the platform resolver's answer (the application data
//! directory, or `None` when the host could not supply one), validates its
//! inputs, delegates to the transfer operations, and flattens every failure
//! to a single human-readable string — commands never panic.

use vstd::prelude::*;

use crate::errors::Error;
use crate::errors::SourceKind;
use crate::fs_state::FsState;
use crate::paths::artifact_of;
use crate::paths::live_db_of;
use crate::paths::valid_backup_name;
use crate::paths::valid_backup_name_of;
use crate::transfer::export;
use crate::transfer::restore;
use crate::transfer::snapshot;

verus! {

/// The message returned when a caller-supplied backup name is rejected
/// before any path is composed from it.
pub open spec fn invalid_name_msg() -> Seq<char> {
    "Invalid backup name"@
}

/// `get_app_data_dir`: hands the resolved application data directory to the
/// front-end, or the resolution failure message.
pub fn get_app_data_dir(resolved: &Option<String>) -> (r: Result<String, String>)
    ensures
        resolved matches Some(root) ==> (r matches Ok(p) && p@ == root@),
        resolved is None ==> (r matches Err(m) && m@ == Error::ResolutionError.message_view()),
{
    match resolved {
        Some(root) => Ok(root.clone()),
        None => Err(Error::ResolutionError.message()),
    }
}

/// `create_backup`: validates the caller-supplied name, then snapshots the
/// live database into the backup store and returns the artifact's path.
pub fn create_backup(fs: &mut FsState, resolved: &Option<String>, backup_name: &str) -> (r:
    Result<String, String>)
    ensures
        resolved is None ==> final(fs)@ == old(fs)@ && (r matches Err(m) && m@
            == Error::ResolutionError.message_view()),
        resolved matches Some(root) ==> if !valid_backup_name_of(backup_name@) {
            final(fs)@ == old(fs)@ && (r matches Err(m) && m@ == invalid_name_msg())
        } else {
            &&& final(fs)@ == old(fs)@.after_snapshot(root@, backup_name@)
            &&& (r is Ok <==> old(fs)@.snapshot_ok(root@, backup_name@))
            &&& (r matches Ok(p) ==> p@ == artifact_of(root@, backup_name@))
            &&& (!old(fs)@.files.contains_key(live_db_of(root@)) ==> (r matches Err(m) && m@
                == Error::SourceNotFound(SourceKind::LiveDatabase).message_view()))
            &&& (old(fs)@.files.contains_key(live_db_of(root@)) && !old(fs)@.snapshot_ok(
                root@,
                backup_name@,
            ) ==> (r matches Err(m) && m@ == crate::errors::dest_missing_msg()))
        },
        old(fs)@.wf() ==> final(fs)@.wf(),
{
    let root = match resolved {
        Some(root) => root,
        None => {
            return Err(Error::ResolutionError.message());
        },
    };
    if !valid_backup_name(backup_name) {
        return Err(String::from_str("Invalid backup name"));
    }
    match snapshot(fs, root.as_str(), backup_name) {
        Ok(p) => Ok(p),
        Err(e) => Err(e.message()),
    }
}

/// `restore_backup`: overwrites the live database with the backup at the
/// caller-supplied path.
pub fn restore_backup(fs: &mut FsState, resolved: &Option<String>, backup_path: &str) -> (r:
    Result<(), String>)
    ensures
        resolved is None ==> final(fs)@ == old(fs)@ && (r matches Err(m) && m@
            == Error::ResolutionError.message_view()),
        resolved matches Some(root) ==> {
            &&& final(fs)@ == old(fs)@.after_restore(root@, backup_path@)
            &&& (r is Ok <==> old(fs)@.restore_ok(root@, backup_path@))
            &&& (!old(fs)@.files.contains_key(backup_path@) ==> (r matches Err(m) && m@
                == Error::SourceNotFound(SourceKind::BackupArtifact).message_view()))
            &&& (old(fs)@.files.contains_key(backup_path@) && !old(fs)@.writable(
                live_db_of(root@),
            ) ==> (r matches Err(m) && m@ == crate::errors::dest_missing_msg()))
        },
        old(fs)@.wf() ==> final(fs)@.wf(),
{
    let root = match resolved {
        Some(root) => root,
        None => {
            return Err(Error::ResolutionError.message());
        },
    };
    match restore(fs, root.as_str(), backup_path) {
        Ok(u) => Ok(u),
        Err(e) => Err(e.message()),
    }
}

/// `export_data`: duplicates the live database to the caller-supplied
/// external path.
pub fn export_data(fs: &mut FsState, resolved: &Option<String>, export_path: &str) -> (r:
    Result<(), String>)
    ensures
        resolved is None ==> final(fs)@ == old(fs)@ && (r matches Err(m) && m@
            == Error::ResolutionError.message_view()),
        resolved matches Some(root) ==> {
            &&& final(fs)@ == old(fs)@.after_export(root@, export_path@)
            &&& (r is Ok <==> old(fs)@.export_ok(root@, export_path@))
            &&& (!old(fs)@.files.contains_key(live_db_of(root@)) ==> (r matches Err(m) && m@
                == Error::SourceNotFound(SourceKind::LiveDatabase).message_view()))
            &&& (old(fs)@.files.contains_key(live_db_of(root@)) && !old(fs)@.writable(
                export_path@,
            ) ==> (r matches Err(m) && m@ == crate::errors::dest_missing_msg()))
        },
        old(fs)@.wf() ==> final(fs)@.wf(),
{
    let root = match resolved {
        Some(root) => root,
        None => {
            return Err(Error::ResolutionError.message());
        },
    };
    match export(fs, root.as_str(), export_path) {
        Ok(u) => Ok(u),
        Err(e) => Err(e.message()),
    }
}

} // verus!
