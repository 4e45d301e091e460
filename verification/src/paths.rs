//! Path composition for the backup subsystem.
//!
//! The live database always sits at `<root>/multivus.db`, backup artifacts at
//! `<root>/backups/<name>.db`.  Paths are plain strings; a separator is `/`.
//! The parent directory of a path is everything before its last separator.

use vstd::prelude::*;

verus! {

/// The location of the live database file under the data directory `root`.
pub open spec fn live_db_of(root: Seq<char>) -> Seq<char> {
    root + "/multivus.db"@
}

/// The backup store directory under the data directory `root`.
pub open spec fn backups_dir_of(root: Seq<char>) -> Seq<char> {
    root + "/backups"@
}

/// The backup artifact written for the caller-supplied `name`.
pub open spec fn artifact_of(root: Seq<char>, name: Seq<char>) -> Seq<char> {
    root + "/backups/"@ + name + ".db"@
}

/// The index of the last separator in `p`, or `-1` if `p` has none.
pub open spec fn last_sep(p: Seq<char>) -> int
    decreases p.len(),
{
    if p.len() == 0 {
        -1
    } else if p[p.len() - 1] == '/' {
        p.len() - 1
    } else {
        last_sep(p.drop_last())
    }
}

/// Whether `p` names an entry inside some directory (it contains a separator).
pub open spec fn has_parent(p: Seq<char>) -> bool {
    last_sep(p) >= 0
}

/// The directory that contains `p`: everything before the last separator.
pub open spec fn parent_dir_of(p: Seq<char>) -> Seq<char> {
    p.take(last_sep(p))
}

pub proof fn lemma_last_sep_bounds(p: Seq<char>)
    ensures
        -1 <= last_sep(p) < p.len(),
        last_sep(p) >= 0 ==> p[last_sep(p)] == '/',
    decreases p.len(),
{
    if p.len() == 0 {
    } else if p[p.len() - 1] == '/' {
    } else {
        lemma_last_sep_bounds(p.drop_last());
    }
}

/// Appending separator-free text does not move the last separator.
pub proof fn lemma_last_sep_append_sep_free(p: Seq<char>, q: Seq<char>)
    requires
        forall|i: int| 0 <= i < q.len() ==> q[i] != '/',
    ensures
        last_sep(p + q) == last_sep(p),
    decreases q.len(),
{
    if q.len() == 0 {
        assert(p + q =~= p);
    } else {
        let pq = p + q;
        assert(pq[pq.len() - 1] == q[q.len() - 1]);
        assert(pq.drop_last() =~= p + q.drop_last());
        lemma_last_sep_append_sep_free(p, q.drop_last());
    }
}

/// The parent of the live database path is the data directory itself.
pub proof fn lemma_live_db_parent(root: Seq<char>)
    ensures
        has_parent(live_db_of(root)),
        parent_dir_of(live_db_of(root)) == root,
{
    reveal_strlit("/multivus.db");
    reveal_strlit("/");
    let sep = "/"@;
    let tail = "multivus.db"@;
    reveal_strlit("multivus.db");
    assert(live_db_of(root) =~= (root + sep) + tail);
    lemma_last_sep_append_sep_free(root + sep, tail);
    assert((root + sep)[(root + sep).len() - 1] == '/');
    assert(last_sep(live_db_of(root)) == root.len());
    assert(parent_dir_of(live_db_of(root)) =~= root);
}

/// The parent of a backup artifact for a separator-free name is the backup
/// store directory.
pub proof fn lemma_artifact_parent(root: Seq<char>, name: Seq<char>)
    requires
        forall|i: int| 0 <= i < name.len() ==> name[i] != '/',
    ensures
        has_parent(artifact_of(root, name)),
        parent_dir_of(artifact_of(root, name)) == backups_dir_of(root),
{
    reveal_strlit("/backups/");
    reveal_strlit("/backups");
    reveal_strlit(".db");
    let head = root + "/backups/"@;
    let tail = name + ".db"@;
    assert(artifact_of(root, name) =~= head + tail);
    assert(forall|i: int| 0 <= i < tail.len() ==> tail[i] != '/');
    lemma_last_sep_append_sep_free(head, tail);
    assert(head[head.len() - 1] == '/');
    assert(last_sep(artifact_of(root, name)) == head.len() - 1);
    assert(parent_dir_of(artifact_of(root, name)) =~= backups_dir_of(root));
}

/// A backup artifact never aliases the live database file of the same root:
/// right after the root the artifact path continues with `/backups/` and the
/// live path with `/multivus.db`.
pub proof fn lemma_artifact_is_not_live(root: Seq<char>, name: Seq<char>)
    ensures
        artifact_of(root, name) != live_db_of(root),
{
    reveal_strlit("/backups/");
    reveal_strlit("/multivus.db");
    reveal_strlit(".db");
    let art = artifact_of(root, name);
    let live = live_db_of(root);
    assert(art.len() >= root.len() + 12);
    assert(art[root.len() as int + 1] == 'b');
    assert(live[root.len() as int + 1] == 'm');
    if art == live {
        assert(art[root.len() as int + 1] == live[root.len() as int + 1]);
    }
}

/// Composes `root/multivus.db`.
pub fn live_db_path(root: &str) -> (r: String)
    ensures
        r@ == live_db_of(root@),
{
    let mut p = String::from_str(root);
    p.append("/multivus.db");
    p
}

/// Composes `root/backups`.
pub fn backups_dir_path(root: &str) -> (r: String)
    ensures
        r@ == backups_dir_of(root@),
{
    let mut p = String::from_str(root);
    p.append("/backups");
    p
}

/// Composes `root/backups/<name>.db`.  The name is taken as given; callers
/// that accept untrusted names must validate them first (`valid_backup_name`).
pub fn artifact_path(root: &str, name: &str) -> (r: String)
    ensures
        r@ == artifact_of(root@, name@),
{
    let mut p = String::from_str(root);
    p.append("/backups/");
    p.append(name);
    p.append(".db");
    proof {
        assert(p@ =~= artifact_of(root@, name@));
    }
    p
}

/// Character-for-character string equality.
pub fn str_eq(a: &str, b: &str) -> (r: bool)
    ensures
        r == (a@ == b@),
{
    let sa = String::from_str(a);
    let sb = String::from_str(b);
    sa == sb
}

/// Finds the last separator of `path`, if any.
pub fn find_last_sep(path: &str) -> (r: Option<usize>)
    ensures
        r matches Some(i) ==> last_sep(path@) == i,
        r is None ==> last_sep(path@) == -1,
{
    let n = path.unicode_len();
    proof {
        assert(path@.take(n as int) =~= path@);
    }
    let mut i: usize = n;
    while i > 0
        invariant
            i <= n,
            n == path@.len(),
            last_sep(path@) == last_sep(path@.take(i as int)),
        decreases i,
    {
        i = i - 1;
        let c = path.get_char(i);
        proof {
            assert(path@.take(i as int + 1).drop_last() =~= path@.take(i as int));
            assert(path@.take(i as int + 1)[i as int] == path@[i as int]);
        }
        if c == '/' {
            return Some(i);
        }
    }
    proof {
        assert(path@.take(0) =~= Seq::<char>::empty());
    }
    None
}

/// The directory containing `path`, or `None` for a bare file name.
pub fn parent_dir(path: &str) -> (r: Option<String>)
    ensures
        r matches Some(d) ==> has_parent(path@) && d@ == parent_dir_of(path@),
        r is None ==> !has_parent(path@),
{
    match find_last_sep(path) {
        Some(i) => {
            proof {
                lemma_last_sep_bounds(path@);
            }
            let d = path.substring_char(0, i);
            Some(String::from_str(d))
        },
        None => None,
    }
}

/// Whether `name` may be used to name a backup artifact: non-empty, free of
/// path separators, and not the traversal component `..`.
pub open spec fn valid_backup_name_of(name: Seq<char>) -> bool {
    &&& name.len() > 0
    &&& !(name.len() == 2 && name[0] == '.' && name[1] == '.')
    &&& forall|i: int| 0 <= i < name.len() ==> name[i] != '/' && name[i] != '\\'
}

/// Checks a caller-supplied backup name before it is composed into a path,
/// rejecting empty names, separators and the traversal component `..`.
pub fn valid_backup_name(name: &str) -> (r: bool)
    ensures
        r == valid_backup_name_of(name@),
{
    let n = name.unicode_len();
    if n == 0 {
        return false;
    }
    if n == 2 && name.get_char(0) == '.' && name.get_char(1) == '.' {
        return false;
    }
    let mut i: usize = 0;
    while i < n
        invariant
            i <= n,
            n == name@.len(),
            forall|j: int| 0 <= j < i ==> name@[j] != '/' && name@[j] != '\\',
        decreases n - i,
    {
        let c = name.get_char(i);
        if c == '/' || c == '\\' {
            return false;
        }
        i = i + 1;
    }
    true
}

} // verus!
