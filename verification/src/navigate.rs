//! The navigation protocol of the view loop: requesting a move to the
//! parent or into a child directory, and resolving the view to show once
//! the poller has caught up — the saved view of the revisited directory
//! when the history holds one, else the row of the directory just exited,
//! else the origin.

use vstd::prelude::*;
use crate::entry::FileStat;
use crate::history::{NavigationHistory, lookup_of};
use crate::paths::{join_of, last_component_of, lemma_join_round_trip, no_trailing_slash,
    parent_of, path_join, path_parent, slash_free};
use crate::view_state::{ViewState, VIEW_BOUND, wf_view};
use crate::watcher::{FileWatcher, request_step};

verus! {

/// Index of the first entry named `name`, or -1 when no entry is.
pub open spec fn first_match(entries: Seq<FileStat>, name: Seq<char>) -> int
    decreases entries.len(),
{
    if entries.len() == 0 {
        -1
    } else if entries[0]@.file_name == name {
        0
    } else {
        let r = first_match(entries.drop_first(), name);
        if r < 0 {
            -1
        } else {
            r + 1
        }
    }
}

/// `first_match` is what its name says: the entry it points at is named
/// `name` and no earlier entry is; -1 means no entry at all is.
pub proof fn lemma_first_match_props(entries: Seq<FileStat>, name: Seq<char>)
    ensures
        -1 <= first_match(entries, name) < entries.len(),
        first_match(entries, name) >= 0 ==> entries[first_match(entries, name)]@.file_name
            == name,
        forall|j: int|
            0 <= j < entries.len() && j < first_match(entries, name)
                ==> (#[trigger] entries[j])@.file_name != name,
        first_match(entries, name) == -1 ==> forall|j: int|
            0 <= j < entries.len() ==> (#[trigger] entries[j])@.file_name != name,
    decreases entries.len(),
{
    if entries.len() == 0 {
    } else if entries[0]@.file_name == name {
    } else {
        lemma_first_match_props(entries.drop_first(), name);
        assert(forall|j: int|
            1 <= j < entries.len() ==> (#[trigger] entries[j]) == entries.drop_first()[j - 1]);
    }
}

/// Resolves the view to show for `new_path` once its snapshot is fresh:
/// the saved view when the history remembers the directory; otherwise the
/// first entry named like the final component of `old_path` (the directory
/// just exited), with cursor and viewport both on its row; otherwise the
/// origin.
pub fn resolve_view(
    history: &NavigationHistory,
    new_path: &String,
    old_leaf: &String,
    entries: &Vec<FileStat>,
) -> (r: ViewState)
    requires
        history.wf(),
        entries@.len() <= VIEW_BOUND as usize,
    ensures
        history@.contains_key(new_path@) ==> r == history@[new_path@],
        !history@.contains_key(new_path@) ==> {
            let i = first_match(entries@, old_leaf@);
            if i >= 0 {
                r.selected == i && r.scroll == i
            } else {
                r.selected == 0 && r.scroll == 0
            }
        },
        !history@.contains_key(new_path@) ==> wf_view(r),
{
    match history.lookup(new_path) {
        Some(v) => v,
        None => {
            proof {
                assert(lookup_of(history@, new_path@) is None);
                assert(!history@.contains_key(new_path@));
            }
            let n = entries.len();
            let mut i: usize = 0;
            proof {
                lemma_first_match_props(entries@, old_leaf@);
            }
            while i < n
                invariant
                    0 <= i <= n,
                    n == entries@.len(),
                    n <= VIEW_BOUND as usize,
                    !history@.contains_key(new_path@),
                    forall|j: int| 0 <= j < i ==> (#[trigger] entries@[j])@.file_name != old_leaf@,
                    -1 <= first_match(entries@, old_leaf@) < n,
                    first_match(entries@, old_leaf@) >= 0 ==> entries@[first_match(
                        entries@,
                        old_leaf@,
                    )]@.file_name == old_leaf@,
                    forall|j: int|
                        0 <= j < n && j < first_match(entries@, old_leaf@)
                            ==> (#[trigger] entries@[j])@.file_name != old_leaf@,
                    first_match(entries@, old_leaf@) == -1 ==> forall|j: int|
                        0 <= j < n ==> (#[trigger] entries@[j])@.file_name != old_leaf@,
                decreases n - i,
            {
                if entries[i].file_name.eq(old_leaf) {
                    proof {
                        let fm = first_match(entries@, old_leaf@);
                        assert(fm != -1);
                        assert(!(fm < i as int));
                        assert(!(fm > i as int));
                    }
                    return ViewState { selected: i as i32, scroll: i as i32 };
                }
                i = i + 1;
            }
            ViewState { selected: 0, scroll: 0 }
        },
    }
}

/// The entry the cursor stands on, if the listing still has that row: the
/// directory may have shrunk since the cursor was placed, and acting on a
/// vanished row is recovered from silently rather than failing.
pub fn selected_entry(entries: &Vec<FileStat>, v: ViewState) -> (r: Option<FileStat>)
    ensures
        0 <= v.selected < entries@.len() ==> r == Some(entries@[v.selected as int]),
        !(0 <= v.selected < entries@.len()) ==> r is None,
{
    if v.selected >= 0 && (v.selected as usize) < entries.len() {
        Some(entries[v.selected as usize].clone())
    } else {
        None
    }
}

/// Begins an ascend: requests the parent of the current target and hands
/// back the path being left, whose final component the caller scans for
/// after the convergence wait.
pub fn request_ascend(w: &mut FileWatcher) -> (old_path: String)
    ensures
        old_path@ == old(w)@.target_path,
        final(w)@ == request_step(old(w)@, parent_of(old(w)@.target_path)),
{
    let p = w.path();
    let parent = path_parent(p.as_str());
    w.set_path(parent);
    p
}

/// Begins a descend into the child `name` of the current target: requests
/// the joined path and hands back the path being left.
pub fn request_descend(w: &mut FileWatcher, name: &str) -> (old_path: String)
    ensures
        old_path@ == old(w)@.target_path,
        final(w)@ == request_step(old(w)@, join_of(old(w)@.target_path, name@)),
{
    let p = w.path();
    let joined = path_join(p.as_str(), name);
    w.set_path(joined);
    p
}

/// Ascend-then-descend idempotence. The browser stands in the child
/// directory `join_of(p, name)` with view `v`, which the render loop has
/// saved in the history `h`. It ascends: the new target is the parent of
/// that path — which is `p` again — and while the user stands in `p` the
/// render loop overwrites only `p`'s history entry (with some `vp`).
/// Descending back into `name` then finds the child's entry untouched and
/// restores exactly `v`, provided nothing else changed it in between.
pub proof fn lemma_ascend_descend_restores(
    h: Map<Seq<char>, ViewState>,
    p: Seq<char>,
    name: Seq<char>,
    v: ViewState,
    vp: ViewState,
)
    requires
        name.len() > 0,
        slash_free(name),
        no_trailing_slash(p),
        h.contains_key(join_of(p, name)),
        h[join_of(p, name)] == v,
    ensures
        parent_of(join_of(p, name)) == p,
        last_component_of(join_of(p, name)) == name,
        lookup_of(h.insert(p, vp), join_of(p, name)) == Some(v),
{
    lemma_join_round_trip(p, name);
    let q = join_of(p, name);
    assert(q.len() > p.len());
    assert(q != p);
}

} // verus!
