//! Immutable directory snapshots: the listing one poll cycle produced,
//! with all directories ordered before all non-directories and the
//! filesystem's enumeration order kept within each group.

use vstd::prelude::*;
use crate::entry::FileStat;

verus! {

/// Ghost image of a snapshot: the path it describes and its entries.
pub struct SnapshotView {
    pub source_path: Seq<char>,
    pub entries: Seq<FileStat>,
}

/// The sort rule of a snapshot: a stable partition. All directories come
/// first, then everything else; inside each group the original enumeration
/// order is kept, with no secondary ordering.
pub open spec fn dirs_first(s: Seq<FileStat>) -> Seq<FileStat> {
    s.filter(|e: FileStat| e@.is_dir()) + s.filter(|e: FileStat| !e@.is_dir())
}

/// What one poll cycle publishes for a directory: the sorted listing when
/// the directory could be read, and an empty listing when it could not —
/// an unreadable directory never surfaces as an error.
pub open spec fn scan_result(source: Seq<char>, children: Option<Seq<FileStat>>) -> SnapshotView {
    SnapshotView {
        source_path: source,
        entries: match children {
            Some(c) => dirs_first(c),
            None => Seq::empty(),
        },
    }
}

/// An immutable, sorted listing of one directory's immediate children,
/// produced by one poll cycle. Replaced wholesale, never patched in place.
pub struct DirectorySnapshot {
    pub source_path: String,
    pub entries: Vec<FileStat>,
}

impl View for DirectorySnapshot {
    type V = SnapshotView;

    open spec fn view(&self) -> SnapshotView {
        SnapshotView { source_path: self.source_path@, entries: self.entries@ }
    }
}

/// Ghost image of the children a scan handed over: `None` when the
/// directory was unreadable.
pub open spec fn children_view(children: Option<Vec<FileStat>>) -> Option<Seq<FileStat>> {
    match children {
        Some(c) => Some(c@),
        None => None,
    }
}

impl Clone for DirectorySnapshot {
    fn clone(&self) -> (r: Self)
        ensures
            r@ == self@,
    {
        let mut entries: Vec<FileStat> = Vec::new();
        let n = self.entries.len();
        let mut i: usize = 0;
        while i < n
            invariant
                0 <= i <= n,
                n == self.entries@.len(),
                entries@ == self.entries@.subrange(0, i as int),
            decreases n - i,
        {
            entries.push(self.entries[i].clone());
            proof {
                assert(entries@ =~= self.entries@.subrange(0, i + 1));
            }
            i = i + 1;
        }
        proof {
            assert(self.entries@.subrange(0, n as int) =~= self.entries@);
        }
        DirectorySnapshot { source_path: self.source_path.clone(), entries }
    }
}

impl DirectorySnapshot {
    /// Builds the snapshot of one scan: `children` is the directory's raw
    /// listing in enumeration order, or `None` when the directory could not
    /// be opened; in that case the snapshot is empty and no error
    /// propagates. Otherwise the entries are the stable dirs-first
    /// partition of the listing.
    pub fn build(source_path: String, children: Option<Vec<FileStat>>) -> (r: DirectorySnapshot)
        ensures
            r@ == scan_result(source_path@, children_view(children)),
    {
        match children {
            None => DirectorySnapshot { source_path, entries: Vec::new() },
            Some(c) => {
                let mut dirs: Vec<FileStat> = Vec::new();
                let mut rest: Vec<FileStat> = Vec::new();
                let n = c.len();
                let mut i: usize = 0;
                while i < n
                    invariant
                        0 <= i <= n,
                        n == c@.len(),
                        dirs@ == c@.subrange(0, i as int).filter(|e: FileStat| e@.is_dir()),
                        rest@ == c@.subrange(0, i as int).filter(|e: FileStat| !e@.is_dir()),
                    decreases n - i,
                {
                    let e = c[i].clone();
                    proof {
                        reveal(Seq::filter);
                        let pre = c@.subrange(0, i as int);
                        let post = c@.subrange(0, i + 1);
                        assert(post.drop_last() =~= pre);
                        assert(post.last() == c@[i as int]);
                    }
                    if e.is_dir() {
                        dirs.push(e);
                    } else {
                        rest.push(e);
                    }
                    i = i + 1;
                }
                proof {
                    assert(c@.subrange(0, n as int) =~= c@);
                }
                let mut entries = dirs;
                entries.append(&mut rest);
                DirectorySnapshot { source_path, entries }
            },
        }
    }

    /// Returns how many entries the snapshot holds.
    pub fn len(&self) -> (r: usize)
        ensures
            r == self@.entries.len(),
    {
        self.entries.len()
    }
}

/// The snapshot holds exactly the scanned children: the dirs-first partition
/// neither drops, adds nor duplicates an entry.
pub proof fn lemma_dirs_first_permutation(s: Seq<FileStat>)
    ensures
        dirs_first(s).to_multiset() == s.to_multiset(),
    decreases s.len(),
{
    broadcast use vstd::seq_lib::group_to_multiset_ensures;
    broadcast use vstd::multiset::group_multiset_axioms;

    let dpred = |e: FileStat| e@.is_dir();
    let npred = |e: FileStat| !e@.is_dir();
    vstd::seq_lib::lemma_multiset_commutative::<FileStat>(s.filter(dpred), s.filter(npred));
    if s.len() == 0 {
        reveal(Seq::filter);
        assert(dirs_first(s).to_multiset() =~= s.to_multiset());
    } else {
        let t = s.drop_last();
        let x = s.last();
        lemma_dirs_first_permutation(t);
        vstd::seq_lib::lemma_multiset_commutative::<FileStat>(t.filter(dpred), t.filter(npred));
        reveal(Seq::filter);
        assert(t.push(x) =~= s);
        assert(t.push(x).to_multiset() =~= t.to_multiset().insert(x));
        if dpred(x) {
            assert(s.filter(dpred) == t.filter(dpred).push(x));
            assert(s.filter(npred) == t.filter(npred));
            assert(s.filter(dpred).to_multiset() =~= t.filter(dpred).to_multiset().insert(x));
            assert(dirs_first(s).to_multiset() =~= s.to_multiset());
        } else {
            assert(s.filter(npred) == t.filter(npred).push(x));
            assert(s.filter(dpred) == t.filter(dpred));
            assert(s.filter(npred).to_multiset() =~= t.filter(npred).to_multiset().insert(x));
            assert(dirs_first(s).to_multiset() =~= s.to_multiset());
        }
    }
}

/// In a snapshot no non-directory ever stands before a directory.
pub proof fn lemma_dirs_first_ordering(s: Seq<FileStat>)
    ensures
        forall|i: int, j: int|
            0 <= i < j < dirs_first(s).len() && !(#[trigger] dirs_first(s)[i])@.is_dir()
                ==> !(#[trigger] dirs_first(s)[j])@.is_dir(),
{
    broadcast use vstd::seq_lib::group_filter_ensures;

    let dpred = |e: FileStat| e@.is_dir();
    let npred = |e: FileStat| !e@.is_dir();
    let r = dirs_first(s);
    let nd = s.filter(dpred).len() as int;
    assert forall|i: int, j: int|
        0 <= i < j < r.len() && !(#[trigger] r[i])@.is_dir() implies !(#[trigger] r[j])@.is_dir() by {
        if i < nd {
            assert(r[i] == s.filter(dpred)[i]);
            assert(dpred(s.filter(dpred)[i]));
        }
        assert(j >= nd);
        assert(r[j] == s.filter(npred)[j - nd]);
        assert(npred(s.filter(npred)[j - nd]));
    }
}

} // verus!
