//! Preservation of user data across a destructive update, modelled over a
//! flat file tree: each file is a slash-joined relative path with its
//! content. A backup session holds a copy of every file under one of the
//! fixed preserve paths; restoring replaces, under each preserve path the
//! session covers, whatever the target holds. The unverified shell mirrors
//! these operations on disk, directory by directory.

use vstd::prelude::*;
use crate::text::matches_at;

verus! {

/// One file of the modelled tree: its slash-joined relative path and its
/// content bytes.
pub struct FileEntry {
    pub path: String,
    pub content: Vec<u8>,
}

/// The mathematical view of a file: path characters and content bytes.
pub open spec fn entry_view(e: FileEntry) -> (Seq<char>, Seq<u8>) {
    (e.path@, e.content@)
}

/// The view of a whole tree.
pub open spec fn tree_view(s: Seq<FileEntry>) -> Seq<(Seq<char>, Seq<u8>)> {
    s.map_values(|e: FileEntry| entry_view(e))
}

/// The views of a list of preserve paths.
pub open spec fn path_views(ps: Seq<String>) -> Seq<Seq<char>> {
    ps.map_values(|p: String| p@)
}

/// `path` lies strictly under the directory `dir`: `dir` is a proper
/// prefix followed by a separator.
pub open spec fn under_dir(path: Seq<char>, dir: Seq<char>) -> bool {
    &&& path.len() > dir.len()
    &&& path.subrange(0, dir.len() as int) == dir
    &&& path[dir.len() as int] == '/'
}

/// `path` lies under one of the preserve paths.
pub open spec fn preserved(path: Seq<char>, pres: Seq<Seq<char>>) -> bool {
    exists|j: int| 0 <= j < pres.len() && under_dir(path, #[trigger] pres[j])
}

/// The backup of a tree: exactly its files under a preserve path, in
/// order, contents identical.
pub open spec fn spec_backup(t: Seq<(Seq<char>, Seq<u8>)>, pres: Seq<Seq<char>>) -> Seq<
    (Seq<char>, Seq<u8>),
>
    decreases t.len(),
{
    if t.len() == 0 {
        Seq::empty()
    } else {
        spec_backup(t.drop_last(), pres) + if preserved(t.last().0, pres) {
            seq![t.last()]
        } else {
            Seq::empty()
        }
    }
}

/// `path` is replaced by restoring `b`: some preserve path covers it and
/// the backup holds something under that same preserve path.
pub open spec fn replaced(
    path: Seq<char>,
    b: Seq<(Seq<char>, Seq<u8>)>,
    pres: Seq<Seq<char>>,
) -> bool {
    exists|j: int|
        0 <= j < pres.len() && under_dir(path, #[trigger] pres[j]) && exists|k: int|
            0 <= k < b.len() && under_dir(#[trigger] b[k].0, pres[j])
}

/// The files of the target that a restore leaves in place.
pub open spec fn spec_keep(
    t: Seq<(Seq<char>, Seq<u8>)>,
    b: Seq<(Seq<char>, Seq<u8>)>,
    pres: Seq<Seq<char>>,
) -> Seq<(Seq<char>, Seq<u8>)>
    decreases t.len(),
{
    if t.len() == 0 {
        Seq::empty()
    } else {
        spec_keep(t.drop_last(), b, pres) + if !replaced(t.last().0, b, pres) {
            seq![t.last()]
        } else {
            Seq::empty()
        }
    }
}

/// The result of restoring the backup `b` into the target `t`: the target
/// files not replaced, then every backup file.
pub open spec fn spec_restore(
    t: Seq<(Seq<char>, Seq<u8>)>,
    b: Seq<(Seq<char>, Seq<u8>)>,
    pres: Seq<Seq<char>>,
) -> Seq<(Seq<char>, Seq<u8>)> {
    spec_keep(t, b, pres) + b
}

/// The fixed, ordered list of user-data paths preserved across updates,
/// relative to the installation root.
pub fn preserve_paths() -> (r: Vec<String>)
    ensures
        r@.len() == 6,
        r@[0]@ == "server/static/assets"@,
        r@[1]@ == "server/static/thumbnails"@,
        r@[2]@ == "server/static/mods"@,
        r@[3]@ == "server/data"@,
        r@[4]@ == "server/save_backups"@,
        r@[5]@ == "extensions/compendium/db"@,
{
    let mut r: Vec<String> = Vec::new();
    r.push(String::from_str("server/static/assets"));
    r.push(String::from_str("server/static/thumbnails"));
    r.push(String::from_str("server/static/mods"));
    r.push(String::from_str("server/data"));
    r.push(String::from_str("server/save_backups"));
    r.push(String::from_str("extensions/compendium/db"));
    r
}

/// `path` lies strictly under the directory `dir`.
pub fn under_dir_exec(path: &str, dir: &str) -> (r: bool)
    ensures
        r == under_dir(path@, dir@),
{
    let n = dir.unicode_len();
    if path.unicode_len() <= n {
        return false;
    }
    matches_at(path, dir, 0) && path.get_char(n) == '/'
}

fn preserved_exec(path: &str, pres: &Vec<String>) -> (r: bool)
    ensures
        r == preserved(path@, path_views(pres@)),
{
    let mut j: usize = 0;
    while j < pres.len()
        invariant
            0 <= j <= pres@.len(),
            forall|k: int| 0 <= k < j ==> !under_dir(path@, #[trigger] path_views(pres@)[k]),
        decreases pres@.len() - j,
    {
        if under_dir_exec(path, pres[j].as_str()) {
            assert(under_dir(path@, path_views(pres@)[j as int]));
            return true;
        }
        j = j + 1;
    }
    false
}

fn copy_entry(e: &FileEntry) -> (r: FileEntry)
    ensures
        r.path@ == e.path@,
        r.content@ == e.content@,
{
    let mut content: Vec<u8> = Vec::new();
    let mut i: usize = 0;
    while i < e.content.len()
        invariant
            0 <= i <= e.content@.len(),
            content@ == e.content@.subrange(0, i as int),
        decreases e.content@.len() - i,
    {
        content.push(e.content[i]);
        assert(content@ =~= e.content@.subrange(0, i + 1));
        i = i + 1;
    }
    assert(content@ =~= e.content@);
    FileEntry { path: e.path.clone(), content }
}

/// Builds the backup session for `tree`: a copy of every file under one of
/// the preserve paths, at the same relative path, contents identical.
/// Files elsewhere are left out; a tree with nothing to preserve yields an
/// empty session.
pub fn backup_tree(tree: &Vec<FileEntry>, pres: &Vec<String>) -> (r: Vec<FileEntry>)
    ensures
        tree_view(r@) == spec_backup(tree_view(tree@), path_views(pres@)),
{
    let ghost full = tree_view(tree@);
    let ghost pv = path_views(pres@);
    let mut out: Vec<FileEntry> = Vec::new();
    let mut i: usize = 0;
    while i < tree.len()
        invariant
            full == tree_view(tree@),
            pv == path_views(pres@),
            0 <= i <= tree@.len(),
            tree_view(out@) == spec_backup(full.take(i as int), pv),
        decreases tree@.len() - i,
    {
        let ghost prev = tree_view(out@);
        proof {
            assert(full.take(i + 1).drop_last() =~= full.take(i as int));
            assert(full.take(i + 1).last() == entry_view(tree@[i as int]));
        }
        if preserved_exec(tree[i].path.as_str(), pres) {
            let copy = copy_entry(&tree[i]);
            out.push(copy);
            proof {
                assert(tree_view(out@) =~= prev + seq![entry_view(tree@[i as int])]);
            }
        } else {
            proof {
                assert(spec_backup(full.take(i + 1), pv) =~= prev);
            }
        }
        i = i + 1;
    }
    proof {
        assert(full.take(tree@.len() as int) =~= full);
    }
    out
}

fn replaced_exec(path: &str, b: &Vec<FileEntry>, pres: &Vec<String>) -> (r: bool)
    ensures
        r == replaced(path@, tree_view(b@), path_views(pres@)),
{
    let ghost bv = tree_view(b@);
    let ghost pv = path_views(pres@);
    let mut j: usize = 0;
    while j < pres.len()
        invariant
            bv == tree_view(b@),
            pv == path_views(pres@),
            0 <= j <= pres@.len(),
            forall|m: int|
                0 <= m < j ==> !(under_dir(path@, #[trigger] pv[m]) && exists|k: int|
                    0 <= k < bv.len() && under_dir(#[trigger] bv[k].0, pv[m])),
        decreases pres@.len() - j,
    {
        if under_dir_exec(path, pres[j].as_str()) {
            let mut k: usize = 0;
            while k < b.len()
                invariant
                    bv == tree_view(b@),
                    pv == path_views(pres@),
                    0 <= j < pres@.len(),
                    0 <= k <= b@.len(),
                    under_dir(path@, pv[j as int]),
                    forall|m: int| 0 <= m < k ==> !under_dir(#[trigger] bv[m].0, pv[j as int]),
                decreases b@.len() - k,
            {
                if under_dir_exec(b[k].path.as_str(), pres[j].as_str()) {
                    assert(under_dir(bv[k as int].0, pv[j as int]));
                    assert(replaced(path@, bv, pv));
                    return true;
                }
                k = k + 1;
            }
        }
        j = j + 1;
    }
    false
}

/// Restores the backup session `b` into the target tree `target`: under
/// every preserve path the session covers, the target's files are fully
/// replaced by the session's; everything else in the target stays.
pub fn restore_tree(target: &Vec<FileEntry>, b: &Vec<FileEntry>, pres: &Vec<String>) -> (r: Vec<
    FileEntry,
>)
    ensures
        tree_view(r@) == spec_restore(tree_view(target@), tree_view(b@), path_views(pres@)),
{
    let ghost full = tree_view(target@);
    let ghost bv = tree_view(b@);
    let ghost pv = path_views(pres@);
    let mut out: Vec<FileEntry> = Vec::new();
    let mut i: usize = 0;
    while i < target.len()
        invariant
            full == tree_view(target@),
            bv == tree_view(b@),
            pv == path_views(pres@),
            0 <= i <= target@.len(),
            tree_view(out@) == spec_keep(full.take(i as int), bv, pv),
        decreases target@.len() - i,
    {
        let ghost prev = tree_view(out@);
        proof {
            assert(full.take(i + 1).drop_last() =~= full.take(i as int));
            assert(full.take(i + 1).last() == entry_view(target@[i as int]));
        }
        if !replaced_exec(target[i].path.as_str(), b, pres) {
            let copy = copy_entry(&target[i]);
            out.push(copy);
            proof {
                assert(tree_view(out@) =~= prev + seq![entry_view(target@[i as int])]);
            }
        } else {
            proof {
                assert(spec_keep(full.take(i + 1), bv, pv) =~= prev);
            }
        }
        i = i + 1;
    }
    proof {
        assert(full.take(target@.len() as int) =~= full);
    }
    let mut k: usize = 0;
    while k < b.len()
        invariant
            full == tree_view(target@),
            bv == tree_view(b@),
            pv == path_views(pres@),
            0 <= k <= b@.len(),
            tree_view(out@) == spec_keep(full, bv, pv) + bv.take(k as int),
        decreases b@.len() - k,
    {
        let ghost prev = tree_view(out@);
        let copy = copy_entry(&b[k]);
        out.push(copy);
        proof {
            assert(tree_view(out@) =~= prev + seq![entry_view(b@[k as int])]);
            assert(bv.take(k + 1) =~= bv.take(k as int) + seq![entry_view(b@[k as int])]);
            assert(tree_view(out@) =~= spec_keep(full, bv, pv) + bv.take(k + 1));
        }
        k = k + 1;
    }
    proof {
        assert(bv.take(b@.len() as int) =~= bv);
        assert(tree_view(out@) =~= spec_restore(full, bv, pv));
    }
    out
}

proof fn lemma_add_contains(a: Seq<(Seq<char>, Seq<u8>)>, b: Seq<(Seq<char>, Seq<u8>)>, x: (
    Seq<char>,
    Seq<u8>,
))
    requires
        a.contains(x) || b.contains(x),
    ensures
        (a + b).contains(x),
{
    if a.contains(x) {
        let i = choose|i: int| 0 <= i < a.len() && a[i] == x;
        assert((a + b)[i] == x);
    } else {
        let i = choose|i: int| 0 <= i < b.len() && b[i] == x;
        assert((a + b)[a.len() + i] == x);
    }
}

/// Everything in a backup session comes from the tree it was taken of, and
/// lies under a preserve path.
pub proof fn lemma_backup_sound(t: Seq<(Seq<char>, Seq<u8>)>, pres: Seq<Seq<char>>)
    ensures
        forall|k: int|
            0 <= k < spec_backup(t, pres).len() ==> t.contains(#[trigger] spec_backup(t, pres)[k])
                && preserved(spec_backup(t, pres)[k].0, pres),
    decreases t.len(),
{
    if t.len() > 0 {
        lemma_backup_sound(t.drop_last(), pres);
        assert forall|k: int| 0 <= k < spec_backup(t, pres).len() implies t.contains(
            #[trigger] spec_backup(t, pres)[k],
        ) && preserved(spec_backup(t, pres)[k].0, pres) by {
            let head = spec_backup(t.drop_last(), pres);
            if k < head.len() {
                assert(spec_backup(t, pres)[k] == head[k]);
                let i = choose|i: int| 0 <= i < t.drop_last().len() && t.drop_last()[i] == head[k];
                assert(t[i] == head[k]);
            } else {
                assert(spec_backup(t, pres)[k] == t.last());
                assert(t[t.len() - 1] == t.last());
            }
        }
    }
}

/// Every file of the tree under a preserve path stands in the backup
/// session, content identical.
pub proof fn lemma_backup_complete(t: Seq<(Seq<char>, Seq<u8>)>, pres: Seq<Seq<char>>)
    ensures
        forall|i: int|
            0 <= i < t.len() && preserved(#[trigger] t[i].0, pres) ==> spec_backup(
                t,
                pres,
            ).contains(t[i]),
    decreases t.len(),
{
    if t.len() > 0 {
        lemma_backup_complete(t.drop_last(), pres);
        assert forall|i: int|
            0 <= i < t.len() && preserved(#[trigger] t[i].0, pres) implies spec_backup(
            t,
            pres,
        ).contains(t[i]) by {
            let head = spec_backup(t.drop_last(), pres);
            if i < t.len() - 1 {
                assert(t.drop_last()[i] == t[i]);
                lemma_add_contains(
                    head,
                    if preserved(t.last().0, pres) {
                        seq![t.last()]
                    } else {
                        Seq::empty()
                    },
                    t[i],
                );
            } else {
                assert(spec_backup(t, pres) == head + seq![t.last()]);
                assert(spec_backup(t, pres)[head.len() as int] == t.last());
            }
        }
    }
}

/// Backing up a tree and restoring the session into an empty target
/// reproduces exactly the tree's preserved files: the result is the backup
/// itself, which holds a file for each preserved file of the tree, at the
/// same path with identical content, and nothing else.
pub proof fn lemma_backup_restore_round_trip(t: Seq<(Seq<char>, Seq<u8>)>, pres: Seq<Seq<char>>)
    ensures
        spec_restore(Seq::empty(), spec_backup(t, pres), pres) == spec_backup(t, pres),
        forall|i: int|
            0 <= i < t.len() && preserved(#[trigger] t[i].0, pres) ==> spec_backup(
                t,
                pres,
            ).contains(t[i]),
        forall|k: int|
            0 <= k < spec_backup(t, pres).len() ==> t.contains(#[trigger] spec_backup(t, pres)[k])
                && preserved(spec_backup(t, pres)[k].0, pres),
{
    let b = spec_backup(t, pres);
    assert(spec_keep(Seq::empty(), b, pres) =~= Seq::<(Seq<char>, Seq<u8>)>::empty());
    assert(spec_restore(Seq::empty(), b, pres) =~= b);
    lemma_backup_sound(t, pres);
    lemma_backup_complete(t, pres);
}

proof fn lemma_keep_not_replaced(
    t: Seq<(Seq<char>, Seq<u8>)>,
    b: Seq<(Seq<char>, Seq<u8>)>,
    pres: Seq<Seq<char>>,
)
    ensures
        forall|k: int|
            0 <= k < spec_keep(t, b, pres).len() ==> !replaced(
                #[trigger] spec_keep(t, b, pres)[k].0,
                b,
                pres,
            ),
    decreases t.len(),
{
    if t.len() > 0 {
        lemma_keep_not_replaced(t.drop_last(), b, pres);
        assert forall|k: int| 0 <= k < spec_keep(t, b, pres).len() implies !replaced(
            #[trigger] spec_keep(t, b, pres)[k].0,
            b,
            pres,
        ) by {
            let head = spec_keep(t.drop_last(), b, pres);
            if k < head.len() {
                assert(spec_keep(t, b, pres)[k] == head[k]);
            } else {
                assert(spec_keep(t, b, pres)[k] == t.last());
            }
        }
    }
}

/// Restoring fully replaces: a file of the result whose path a covered
/// preserve path claims comes from the backup session, never from the old
/// target, and every file of the session stands in the result.
pub proof fn lemma_restore_replaces(
    t: Seq<(Seq<char>, Seq<u8>)>,
    b: Seq<(Seq<char>, Seq<u8>)>,
    pres: Seq<Seq<char>>,
)
    ensures
        forall|k: int|
            0 <= k < spec_restore(t, b, pres).len() && replaced(
                #[trigger] spec_restore(t, b, pres)[k].0,
                b,
                pres,
            ) ==> b.contains(spec_restore(t, b, pres)[k]),
        forall|k: int| 0 <= k < b.len() ==> spec_restore(t, b, pres).contains(#[trigger] b[k]),
{
    let keep = spec_keep(t, b, pres);
    lemma_keep_not_replaced(t, b, pres);
    assert forall|k: int|
        0 <= k < spec_restore(t, b, pres).len() && replaced(
            #[trigger] spec_restore(t, b, pres)[k].0,
            b,
            pres,
        ) implies b.contains(spec_restore(t, b, pres)[k]) by {
        if k < keep.len() {
            assert(spec_restore(t, b, pres)[k] == keep[k]);
        } else {
            assert(spec_restore(t, b, pres)[k] == b[k - keep.len()]);
        }
    }
    assert forall|k: int| 0 <= k < b.len() implies spec_restore(t, b, pres).contains(
        #[trigger] b[k],
    ) by {
        assert(spec_restore(t, b, pres)[keep.len() as int + k] == b[k]);
    }
}

} // verus!
