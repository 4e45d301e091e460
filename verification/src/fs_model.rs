//! The mathematical model of the slice of the file system this subsystem
//! touches: a map from file paths to file contents and a set of existing
//! directories.  The backup, restore and export operations are defined here
//! as transitions on that model; the executable operations in `fs_state` and
//! the laws below are stated against these definitions.

use vstd::prelude::*;

use crate::paths::artifact_of;
use crate::paths::backups_dir_of;
use crate::paths::has_parent;
use crate::paths::lemma_artifact_parent;
use crate::paths::lemma_live_db_parent;
use crate::paths::live_db_of;
use crate::paths::parent_dir_of;
use crate::paths::valid_backup_name_of;

verus! {

/// Every directory that `create_dir_all` on `p` guarantees to exist
/// afterwards: `p` itself and each prefix of `p` that ends just before a
/// separator (for an absolute path this includes the empty prefix, which
/// stands for the file-system root).
pub open spec fn ancestors_of(p: Seq<char>) -> Set<Seq<char>> {
    Set::new(
        |q: Seq<char>|
            q == p || (exists|i: int| 0 <= i < p.len() && p[i] == '/' && q == p.take(i)),
    )
}

/// The state of the file system, as far as this subsystem observes it.
#[verifier::ext_equal]
pub ghost struct FsModel {
    /// Contents of every existing regular file, by path.
    pub files: Map<Seq<char>, Seq<u8>>,
    /// Every existing directory, by path.
    pub dirs: Set<Seq<char>>,
}

impl FsModel {
    /// A destination path can be written: the directory containing it exists.
    /// A path without a separator names an entry of the working directory,
    /// which always exists.
    pub open spec fn writable(self, p: Seq<char>) -> bool {
        has_parent(p) ==> self.dirs.contains(parent_dir_of(p))
    }

    /// Every file hangs under an existing directory.
    pub open spec fn wf(self) -> bool {
        forall|p: Seq<char>| #[trigger] self.files.contains_key(p) ==> self.writable(p)
    }

    /// After `create_dir_all(d)`: the directory and all its ancestors exist.
    pub open spec fn mkdirs(self, d: Seq<char>) -> FsModel {
        FsModel { files: self.files, dirs: self.dirs + ancestors_of(d) }
    }

    /// After writing `data` to the file at `p`, overwriting any previous
    /// contents; only possible when `p` is writable.
    pub open spec fn with_file(self, p: Seq<char>, data: Seq<u8>) -> FsModel {
        FsModel { files: self.files.insert(p, data), dirs: self.dirs }
    }

    /// After an attempted write of `data` at `p`: unchanged when `p` is not
    /// writable.
    pub open spec fn after_write(self, p: Seq<char>, data: Seq<u8>) -> FsModel {
        if self.writable(p) {
            self.with_file(p, data)
        } else {
            self
        }
    }

    /// The whole-file duplication primitive succeeds: the source file exists
    /// and the destination can be written.
    pub open spec fn copy_ok(self, src: Seq<char>, dst: Seq<char>) -> bool {
        self.files.contains_key(src) && self.writable(dst)
    }

    /// After an attempted whole-file duplication `src` to `dst`: on success
    /// the destination holds exactly the bytes of the source; otherwise the
    /// file system is unchanged.
    pub open spec fn after_copy(self, src: Seq<char>, dst: Seq<char>) -> FsModel {
        if self.copy_ok(src, dst) {
            self.with_file(dst, self.files[src])
        } else {
            self
        }
    }

    /// `Snapshot` succeeds: the live database exists, and once the backup
    /// store directory has been ensured the artifact path can be written.
    pub open spec fn snapshot_ok(self, root: Seq<char>, name: Seq<char>) -> bool {
        &&& self.files.contains_key(live_db_of(root))
        &&& self.mkdirs(backups_dir_of(root)).writable(artifact_of(root, name))
    }

    /// After `Snapshot(root, name)`: the live database is checked first — if
    /// it is absent nothing happens, not even directory creation; otherwise
    /// the backup store directory is ensured and the live file duplicated to
    /// the artifact path.
    pub open spec fn after_snapshot(self, root: Seq<char>, name: Seq<char>) -> FsModel {
        if !self.files.contains_key(live_db_of(root)) {
            self
        } else {
            self.mkdirs(backups_dir_of(root)).after_copy(
                live_db_of(root),
                artifact_of(root, name),
            )
        }
    }

    /// `Restore` succeeds: the chosen backup exists and the live database
    /// path can be written.
    pub open spec fn restore_ok(self, root: Seq<char>, backup_path: Seq<char>) -> bool {
        self.files.contains_key(backup_path) && self.writable(live_db_of(root))
    }

    /// After `Restore(root, backup_path)`: when the backup exists, its bytes
    /// overwrite the live database unconditionally; otherwise nothing
    /// happens.
    pub open spec fn after_restore(self, root: Seq<char>, backup_path: Seq<char>) -> FsModel {
        if self.files.contains_key(backup_path) {
            self.after_copy(backup_path, live_db_of(root))
        } else {
            self
        }
    }

    /// `Export` succeeds: the live database exists and the external target
    /// can be written (its parent directory already exists — export never
    /// creates directories).
    pub open spec fn export_ok(self, root: Seq<char>, export_path: Seq<char>) -> bool {
        self.files.contains_key(live_db_of(root)) && self.writable(export_path)
    }

    /// After `Export(root, export_path)`: when the live database exists it is
    /// duplicated to the external target; otherwise nothing happens.
    pub open spec fn after_export(self, root: Seq<char>, export_path: Seq<char>) -> FsModel {
        if self.files.contains_key(live_db_of(root)) {
            self.after_copy(live_db_of(root), export_path)
        } else {
            self
        }
    }
}

pub proof fn lemma_mkdirs_preserves_wf(fs: FsModel, d: Seq<char>)
    requires
        fs.wf(),
    ensures
        fs.mkdirs(d).wf(),
{
    assert forall|p: Seq<char>| #[trigger] fs.mkdirs(d).files.contains_key(p) implies fs.mkdirs(
        d,
    ).writable(p) by {
        assert(fs.files.contains_key(p));
    }
}

pub proof fn lemma_write_preserves_wf(fs: FsModel, p: Seq<char>, data: Seq<u8>)
    requires
        fs.wf(),
    ensures
        fs.after_write(p, data).wf(),
{
}

pub proof fn lemma_copy_preserves_wf(fs: FsModel, src: Seq<char>, dst: Seq<char>)
    requires
        fs.wf(),
    ensures
        fs.after_copy(src, dst).wf(),
{
}

/// The live database file is never modified by `Snapshot` or `Export`: after
/// either, it exists exactly when it existed before, with the same bytes.
/// Only `Restore` modifies it, and only by whole-file overwrite
/// (`lemma_restore_overwrites`).
pub proof fn lemma_snapshot_and_export_preserve_live(
    fs: FsModel,
    root: Seq<char>,
    name: Seq<char>,
    export_path: Seq<char>,
)
    ensures
        fs.after_snapshot(root, name).files.contains_key(live_db_of(root))
            <==> fs.files.contains_key(live_db_of(root)),
        fs.files.contains_key(live_db_of(root)) ==> fs.after_snapshot(root, name).files[live_db_of(
            root,
        )] == fs.files[live_db_of(root)],
        fs.after_export(root, export_path).files.contains_key(live_db_of(root))
            <==> fs.files.contains_key(live_db_of(root)),
        fs.files.contains_key(live_db_of(root)) ==> fs.after_export(
            root,
            export_path,
        ).files[live_db_of(root)] == fs.files[live_db_of(root)],
{
    crate::paths::lemma_artifact_is_not_live(root, name);
}

/// Ensuring the backup store directory is idempotent: the directory exists
/// after one call, files are untouched, and a second call changes nothing.
pub proof fn lemma_ensure_backups_dir_idempotent(fs: FsModel, root: Seq<char>)
    ensures
        fs.mkdirs(backups_dir_of(root)).dirs.contains(backups_dir_of(root)),
        fs.mkdirs(backups_dir_of(root)).files == fs.files,
        fs.mkdirs(backups_dir_of(root)).mkdirs(backups_dir_of(root)) == fs.mkdirs(
            backups_dir_of(root),
        ),
{
    let d = backups_dir_of(root);
    assert(ancestors_of(d).contains(d));
    assert(fs.mkdirs(d).mkdirs(d).dirs =~= fs.mkdirs(d).dirs);
    assert(fs.mkdirs(d).mkdirs(d) =~= fs.mkdirs(d));
}

/// `Restore` overwrites the live database unconditionally whenever the chosen
/// backup exists — even if the live file did not previously exist — and
/// afterwards the live file holds exactly the backup's bytes.
pub proof fn lemma_restore_overwrites(fs: FsModel, root: Seq<char>, backup_path: Seq<char>)
    requires
        fs.files.contains_key(backup_path),
        fs.dirs.contains(root),
    ensures
        fs.restore_ok(root, backup_path),
        fs.after_restore(root, backup_path).files.contains_key(live_db_of(root)),
        fs.after_restore(root, backup_path).files[live_db_of(root)] == fs.files[backup_path],
{
    lemma_live_db_parent(root);
}

/// Round trip: when the live database exists, snapshotting it under a valid
/// name and then restoring that very artifact succeeds and leaves the live
/// file byte-identical to its pre-snapshot contents.
pub proof fn lemma_snapshot_restore_round_trip(fs: FsModel, root: Seq<char>, name: Seq<char>)
    requires
        fs.wf(),
        fs.files.contains_key(live_db_of(root)),
        valid_backup_name_of(name),
    ensures
        fs.snapshot_ok(root, name),
        fs.after_snapshot(root, name).restore_ok(root, artifact_of(root, name)),
        ({
            let restored = fs.after_snapshot(root, name).after_restore(
                root,
                artifact_of(root, name),
            );
            &&& restored.files.contains_key(live_db_of(root))
            &&& restored.files[live_db_of(root)] == fs.files[live_db_of(root)]
        }),
{
    let live = live_db_of(root);
    let art = artifact_of(root, name);
    let ensured = fs.mkdirs(backups_dir_of(root));
    lemma_artifact_parent(root, name);
    lemma_live_db_parent(root);
    assert(ancestors_of(backups_dir_of(root)).contains(backups_dir_of(root)));
    assert(ensured.dirs.contains(backups_dir_of(root)));
    assert(ensured.writable(art));
    assert(fs.snapshot_ok(root, name));
    let snapped = fs.after_snapshot(root, name);
    assert(snapped == ensured.with_file(art, fs.files[live]));
    assert(snapped.files.contains_key(art));
    // the data directory itself exists, because the live file hangs under it
    assert(fs.writable(live));
    assert(fs.dirs.contains(root));
    assert(snapped.dirs.contains(root));
    assert(snapped.writable(live));
    assert(snapped.restore_ok(root, art));
    let restored = snapped.after_restore(root, art);
    assert(restored.files[live] == snapped.files[art]);
    assert(snapped.files[art] == fs.files[live]);
}

} // verus!
