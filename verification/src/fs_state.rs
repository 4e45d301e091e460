//! An executable file-system state whose view is the `FsModel` of
//! `fs_model`.  Files are kept as a journal of writes (the latest entry for a
//! path wins) and directories as the list of paths created so far; both views
//! collapse to the map and set of the model.

use vstd::prelude::*;

use crate::errors::Error;
use crate::fs_model::ancestors_of;
use crate::fs_model::FsModel;
use crate::paths::parent_dir;

verus! {

struct FsFile {
    path: String,
    data: Vec<u8>,
}

/// The in-memory file system the verified operations run against.
pub struct FsState {
    files: Vec<FsFile>,
    dirs: Vec<String>,
}

spec fn files_map_of(entries: Seq<FsFile>) -> Map<Seq<char>, Seq<u8>>
    decreases entries.len(),
{
    if entries.len() == 0 {
        Map::empty()
    } else {
        files_map_of(entries.drop_last()).insert(entries.last().path@, entries.last().data@)
    }
}

spec fn dirs_set_of(ds: Seq<String>) -> Set<Seq<char>>
    decreases ds.len(),
{
    if ds.len() == 0 {
        Set::empty()
    } else {
        dirs_set_of(ds.drop_last()).insert(ds.last()@)
    }
}

impl View for FsState {
    type V = FsModel;

    closed spec fn view(&self) -> FsModel {
        FsModel { files: files_map_of(self.files@), dirs: dirs_set_of(self.dirs@) }
    }
}

proof fn lemma_files_map_membership(entries: Seq<FsFile>, p: Seq<char>)
    ensures
        files_map_of(entries).contains_key(p) <==> (exists|j: int|
            0 <= j < entries.len() && entries[j].path@ == p),
    decreases entries.len(),
{
    if entries.len() > 0 {
        let dl = entries.drop_last();
        lemma_files_map_membership(dl, p);
        assert(forall|j: int| 0 <= j < dl.len() ==> dl[j] == entries[j]);
        if files_map_of(entries).contains_key(p) {
            if entries.last().path@ == p {
                assert(entries[entries.len() - 1].path@ == p);
            } else {
                let j = choose|j: int| 0 <= j < dl.len() && dl[j].path@ == p;
                assert(entries[j].path@ == p);
            }
        }
        if exists|j: int| 0 <= j < entries.len() && entries[j].path@ == p {
            let j = choose|j: int| 0 <= j < entries.len() && entries[j].path@ == p;
            if j < entries.len() - 1 {
                assert(dl[j].path@ == p);
            }
        }
    }
}

proof fn lemma_files_map_latest(entries: Seq<FsFile>, j: int)
    requires
        0 <= j < entries.len(),
        forall|k: int| j < k < entries.len() ==> entries[k].path@ != entries[j].path@,
    ensures
        files_map_of(entries).contains_key(entries[j].path@),
        files_map_of(entries)[entries[j].path@] == entries[j].data@,
    decreases entries.len(),
{
    if j == entries.len() - 1 {
    } else {
        lemma_files_map_latest(entries.drop_last(), j);
    }
}

proof fn lemma_dirs_set_membership(ds: Seq<String>, p: Seq<char>)
    ensures
        dirs_set_of(ds).contains(p) <==> (exists|j: int| 0 <= j < ds.len() && ds[j]@ == p),
    decreases ds.len(),
{
    if ds.len() > 0 {
        let dl = ds.drop_last();
        lemma_dirs_set_membership(dl, p);
        assert(forall|j: int| 0 <= j < dl.len() ==> dl[j] == ds[j]);
        if dirs_set_of(ds).contains(p) {
            if ds.last()@ == p {
                assert(ds[ds.len() - 1]@ == p);
            } else {
                let j = choose|j: int| 0 <= j < dl.len() && dl[j]@ == p;
                assert(ds[j]@ == p);
            }
        }
        if exists|j: int| 0 <= j < ds.len() && ds[j]@ == p {
            let j = choose|j: int| 0 <= j < ds.len() && ds[j]@ == p;
            if j < ds.len() - 1 {
                assert(dl[j]@ == p);
            }
        }
    }
}

/// A verified byte-for-byte copy of a buffer.
fn clone_bytes(src: &Vec<u8>) -> (r: Vec<u8>)
    ensures
        r@ == src@,
{
    let mut r: Vec<u8> = Vec::new();
    let mut i: usize = 0;
    while i < src.len()
        invariant
            i <= src.len(),
            r@ =~= src@.take(i as int),
        decreases src.len() - i,
    {
        r.push(src[i]);
        proof {
            assert(r@ =~= src@.take(i as int + 1));
        }
        i = i + 1;
    }
    proof {
        assert(src@.take(src@.len() as int) =~= src@);
    }
    r
}

impl FsState {
    /// An empty file system: no files, no directories.
    pub fn new() -> (r: FsState)
        ensures
            r@.files == Map::<Seq<char>, Seq<u8>>::empty(),
            r@.dirs == Set::<Seq<char>>::empty(),
            r@.wf(),
    {
        let r = FsState { files: Vec::new(), dirs: Vec::new() };
        proof {
            assert(r@.files =~= Map::<Seq<char>, Seq<u8>>::empty());
            assert(r@.dirs =~= Set::<Seq<char>>::empty());
        }
        r
    }

    /// Whether a regular file exists at `path`.
    pub fn file_exists(&self, path: &str) -> (r: bool)
        ensures
            r == self@.files.contains_key(path@),
    {
        let n = self.files.len();
        let mut i: usize = 0;
        while i < n
            invariant
                i <= n,
                n == self.files.len(),
                forall|j: int| 0 <= j < i ==> self.files@[j].path@ != path@,
            decreases n - i,
        {
            if crate::paths::str_eq(self.files[i].path.as_str(), path) {
                proof {
                    lemma_files_map_membership(self.files@, path@);
                }
                return true;
            }
            i = i + 1;
        }
        proof {
            lemma_files_map_membership(self.files@, path@);
        }
        false
    }

    /// Whether a directory exists at `path`.
    pub fn dir_exists(&self, path: &str) -> (r: bool)
        ensures
            r == self@.dirs.contains(path@),
    {
        let n = self.dirs.len();
        let mut i: usize = 0;
        while i < n
            invariant
                i <= n,
                n == self.dirs.len(),
                forall|j: int| 0 <= j < i ==> self.dirs@[j]@ != path@,
            decreases n - i,
        {
            if crate::paths::str_eq(self.dirs[i].as_str(), path) {
                proof {
                    lemma_dirs_set_membership(self.dirs@, path@);
                }
                return true;
            }
            i = i + 1;
        }
        proof {
            lemma_dirs_set_membership(self.dirs@, path@);
        }
        false
    }

    /// Whether the directory containing `path` exists, so that `path` itself
    /// could be written.
    pub fn dest_writable(&self, path: &str) -> (r: bool)
        ensures
            r == self@.writable(path@),
    {
        match parent_dir(path) {
            Some(d) => self.dir_exists(d.as_str()),
            None => true,
        }
    }

    /// The contents of the file at `path`, if it exists.
    pub fn read_file(&self, path: &str) -> (r: Option<Vec<u8>>)
        ensures
            r matches Some(d) ==> self@.files.contains_key(path@) && d@ == self@.files[path@],
            r is None ==> !self@.files.contains_key(path@),
    {
        let n = self.files.len();
        let mut i: usize = n;
        while i > 0
            invariant
                i <= n,
                n == self.files.len(),
                forall|j: int| i <= j < n ==> self.files@[j].path@ != path@,
            decreases i,
        {
            i = i - 1;
            if crate::paths::str_eq(self.files[i].path.as_str(), path) {
                proof {
                    lemma_files_map_latest(self.files@, i as int);
                }
                return Some(clone_bytes(&self.files[i].data));
            }
        }
        proof {
            lemma_files_map_membership(self.files@, path@);
        }
        None
    }

    /// Writes `data` to the file at `path`, overwriting any previous
    /// contents; fails when the containing directory does not exist.
    pub fn write_file(&mut self, path: &str, data: Vec<u8>) -> (r: Result<(), Error>)
        ensures
            final(self)@ == old(self)@.after_write(path@, data@),
            r is Ok <==> old(self)@.writable(path@),
            r matches Err(e) ==> e matches Error::IoError(m) && m@
                == crate::errors::dest_missing_msg(),
            old(self)@.wf() ==> final(self)@.wf(),
    {
        proof {
            if self@.wf() {
                crate::fs_model::lemma_write_preserves_wf(self@, path@, data@);
            }
        }
        if self.dest_writable(path) {
            let ghost entries = self.files@;
            let entry = FsFile { path: String::from_str(path), data };
            proof {
                assert(entries.push(entry).drop_last() =~= entries);
            }
            self.files.push(entry);
            proof {
                assert(self@ =~= old(self)@.after_write(path@, data@));
            }
            Ok(())
        } else {
            Err(Error::IoError(String::from_str("destination directory does not exist")))
        }
    }

    /// Creates the directory at `path` and all its missing ancestors;
    /// existing directories are left as they are.
    pub fn create_dir_all(&mut self, path: &str)
        ensures
            final(self)@ == old(self)@.mkdirs(path@),
            old(self)@.wf() ==> final(self)@.wf(),
    {
        proof {
            if self@.wf() {
                crate::fs_model::lemma_mkdirs_preserves_wf(self@, path@);
            }
        }
        let n = path.unicode_len();
        let mut i: usize = 0;
        while i < n
            invariant
                i <= n,
                n == path@.len(),
                self.files@ == old(self).files@,
                self@.dirs =~= old(self)@.dirs + Set::new(
                    |q: Seq<char>|
                        exists|k: int| 0 <= k < i && path@[k] == '/' && q == path@.take(k),
                ),
            decreases n - i,
        {
            let c = path.get_char(i);
            if c == '/' {
                let pre = String::from_str(path.substring_char(0, i));
                let ghost ds = self.dirs@;
                proof {
                    assert(ds.push(pre).drop_last() =~= ds);
                }
                self.dirs.push(pre);
            }
            proof {
                assert(self@.dirs =~= old(self)@.dirs + Set::new(
                    |q: Seq<char>|
                        exists|k: int| 0 <= k < i + 1 && path@[k] == '/' && q == path@.take(k),
                ));
            }
            i = i + 1;
        }
        let whole = String::from_str(path);
        let ghost ds = self.dirs@;
        proof {
            assert(ds.push(whole).drop_last() =~= ds);
        }
        self.dirs.push(whole);
        proof {
            assert(self@.dirs =~= old(self)@.dirs + ancestors_of(path@));
            assert(self@ =~= old(self)@.mkdirs(path@));
        }
    }

    /// The whole-file duplication primitive: duplicates the file at `src` to
    /// `dst`, overwriting `dst` if present.  Fails when the source file or
    /// the directory containing the destination is absent.
    pub fn copy_file(&mut self, src: &str, dst: &str) -> (r: Result<(), Error>)
        ensures
            final(self)@ == old(self)@.after_copy(src@, dst@),
            r is Ok <==> old(self)@.copy_ok(src@, dst@),
            !old(self)@.files.contains_key(src@) ==> (r matches Err(e) && e
                matches Error::IoError(m) && m@ == crate::errors::source_missing_msg()),
            old(self)@.files.contains_key(src@) && !old(self)@.writable(dst@) ==> (r matches Err(
                e,
            ) && e matches Error::IoError(m) && m@ == crate::errors::dest_missing_msg()),
            old(self)@.wf() ==> final(self)@.wf(),
    {
        proof {
            if self@.wf() {
                crate::fs_model::lemma_copy_preserves_wf(self@, src@, dst@);
            }
        }
        match self.read_file(src) {
            Some(data) => self.write_file(dst, data),
            None => Err(Error::IoError(String::from_str("source file not found"))),
        }
    }
}

} // verus!
