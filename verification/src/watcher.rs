//! The shared browser state: the desired directory (written by the view
//! loop), the latest published snapshot and the acknowledged path (written
//! together, atomically, by the background poller).
//!
//! The struct here is the sequential heart of that state: every operation
//! is one whole-value read or write, so a caller that holds it behind a
//! lock gets exactly the atomic accessor contract — a reader can never
//! observe a torn snapshot or a fresh snapshot paired with a stale
//! acknowledgement.

use vstd::prelude::*;
use crate::entry::FileStat;
use crate::snapshot::{DirectorySnapshot, SnapshotView, scan_result};

verus! {

/// Ghost image of the shared state.
pub struct StateView {
    pub target_path: Seq<char>,
    pub snapshot: SnapshotView,
    pub acknowledged_path: Seq<char>,
}

/// A path change: only the desired directory moves; the snapshot and the
/// acknowledgement keep describing whatever was last scanned.
pub open spec fn request_step(s: StateView, p: Seq<char>) -> StateView {
    StateView { target_path: p, ..s }
}

/// A publication: the snapshot and the acknowledged path move together, in
/// one step; the acknowledged path becomes the path the snapshot was
/// scanned for.
pub open spec fn publish_step(s: StateView, snap: SnapshotView) -> StateView {
    StateView { target_path: s.target_path, snapshot: snap, acknowledged_path: snap.source_path }
}

/// The state is well formed when the acknowledged path is the source path
/// of the published snapshot. Publication establishes this and nothing
/// breaks it, so the two can never drift apart.
pub open spec fn wf_state(s: StateView) -> bool {
    s.acknowledged_path == s.snapshot.source_path
}

/// The displayed snapshot is guaranteed fresh for the requested directory
/// exactly when the acknowledged path has caught up with the target.
pub open spec fn is_fresh(s: StateView) -> bool {
    s.acknowledged_path == s.target_path
}

/// The shared container behind the browser: one poller writes the snapshot
/// and the acknowledgement, one view loop writes the target path, both
/// read. Held behind a lock by the embedding program; each method below is
/// one critical section.
pub struct FileWatcher {
    pub target_path: String,
    pub snapshot: DirectorySnapshot,
    pub acknowledged_path: String,
}

impl View for FileWatcher {
    type V = StateView;

    open spec fn view(&self) -> StateView {
        StateView {
            target_path: self.target_path@,
            snapshot: self.snapshot@,
            acknowledged_path: self.acknowledged_path@,
        }
    }
}

impl FileWatcher {
    /// Starts watching `initial_path`. No scan has happened yet: the
    /// snapshot is empty and describes the empty path, so the state is not
    /// fresh until the poller publishes its first scan of the target.
    pub fn new(initial_path: String) -> (r: FileWatcher)
        ensures
            r@.target_path == initial_path@,
            r@.snapshot.source_path == Seq::<char>::empty(),
            r@.snapshot.entries == Seq::<FileStat>::empty(),
            r@.acknowledged_path == Seq::<char>::empty(),
            wf_state(r@),
    {
        FileWatcher {
            target_path: initial_path,
            snapshot: DirectorySnapshot { source_path: String::new(), entries: Vec::new() },
            acknowledged_path: String::new(),
        }
    }

    /// Reads the desired directory.
    pub fn path(&self) -> (r: String)
        ensures
            r@ == self@.target_path,
    {
        self.target_path.clone()
    }

    /// Requests a path change: the next poll cycle that reads the target
    /// will scan `p`. Nothing else moves.
    pub fn set_path(&mut self, p: String)
        ensures
            final(self)@ == request_step(old(self)@, p@),
            wf_state(old(self)@) ==> wf_state(final(self)@),
    {
        self.target_path = p;
    }

    /// Reads the entries of the latest published snapshot, as one whole
    /// value.
    pub fn filez(&self) -> (r: Vec<FileStat>)
        ensures
            r@ == self@.snapshot.entries,
    {
        let snap = self.snapshot.clone();
        snap.entries
    }

    /// Reads the latest published snapshot together with the path it
    /// describes, as one whole value.
    pub fn snapshot(&self) -> (r: DirectorySnapshot)
        ensures
            r@ == self@.snapshot,
    {
        self.snapshot.clone()
    }

    /// Reads the latest published snapshot and the current target path in
    /// one step: the pair a render pass works from.
    pub fn read_snapshot_and_path(&self) -> (r: (DirectorySnapshot, String))
        ensures
            r.0@ == self@.snapshot,
            r.1@ == self@.target_path,
    {
        (self.snapshot.clone(), self.target_path.clone())
    }

    /// Reads the path the poller has most recently finished scanning.
    pub fn path2(&self) -> (r: String)
        ensures
            r@ == self@.acknowledged_path,
    {
        self.acknowledged_path.clone()
    }

    /// Publishes the outcome of one scan: the snapshot and the
    /// acknowledged path are replaced together, so no reader ever sees one
    /// without the other. Poller-only.
    pub fn publish(&mut self, snap: DirectorySnapshot)
        ensures
            final(self)@ == publish_step(old(self)@, snap@),
            wf_state(final(self)@),
    {
        let ack = snap.source_path.clone();
        self.snapshot = snap;
        self.acknowledged_path = ack;
    }
}

/// Convergence: after a path change to `p`, one full poll cycle that reads
/// the (unchanged) target and publishes its scan leaves the acknowledged
/// path equal to `p` — and at that point the visible snapshot describes
/// exactly `p`, whatever the scan found there.
pub proof fn lemma_convergence(s: StateView, p: Seq<char>, children: Option<Seq<FileStat>>)
    ensures
        ({
            let s1 = request_step(s, p);
            let s2 = publish_step(s1, scan_result(s1.target_path, children));
            &&& is_fresh(s2)
            &&& s2.acknowledged_path == p
            &&& s2.snapshot.source_path == p
            &&& wf_state(s2)
        }),
{
}

/// A path change that lands mid-scan is not masked: the publication that
/// follows acknowledges the path the scan actually read, so the state
/// stays visibly stale until the next cycle picks the new target up. The
/// one-tick latency is intentional; this says it is also honest.
pub proof fn lemma_mid_scan_change_stays_stale(s: StateView, p: Seq<char>, snap: SnapshotView)
    requires
        snap.source_path == s.target_path,
        p != s.target_path,
    ensures
        !is_fresh(publish_step(request_step(s, p), snap)),
        publish_step(request_step(s, p), snap).acknowledged_path == s.target_path,
{
}

/// Freshness is exactly what the view loop waits for: in a well-formed
/// state whose acknowledged path has reached the target, the snapshot on
/// display is the one scanned for the target, never a stale one.
pub proof fn lemma_fresh_snapshot_matches_target(s: StateView)
    requires
        wf_state(s),
        is_fresh(s),
    ensures
        s.snapshot.source_path == s.target_path,
{
}

} // verus!
