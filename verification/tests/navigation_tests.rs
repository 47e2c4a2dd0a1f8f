use dirnav::entry::FileStat;
use dirnav::history::NavigationHistory;
use dirnav::navigate::{request_ascend, request_descend, resolve_view};
use dirnav::snapshot::DirectorySnapshot;
use dirnav::view_state::ViewState;
use dirnav::watcher::FileWatcher;

fn dir(path: &str, name: &str) -> FileStat {
    FileStat::new(path.to_string(), name.to_string(), true, false)
}

fn file(path: &str, name: &str) -> FileStat {
    FileStat::new(path.to_string(), name.to_string(), false, true)
}

#[test]
fn descend_into_unvisited_directory_starts_at_origin() {
    // User at /root, selects dirA, descends; the history has no entry for
    // /root/dirA and the new listing holds nothing named like the old path's
    // final component, so the fallback is the origin.
    let h = NavigationHistory::new();
    let entries = vec![file("/root/dirA/a.txt", "a.txt"), file("/root/dirA/b.txt", "b.txt")];
    let v = resolve_view(&h, &"/root/dirA".to_string(), &"root".to_string(), &entries);
    assert_eq!(v, ViewState { selected: 0, scroll: 0 });
}

#[test]
fn ascend_restores_saved_view_instead_of_recomputing() {
    // User at /root/dirA with selected = 2 ascends to /root; /root has a
    // saved view {1, 0} from an earlier visit. The saved view wins over the
    // position of dirA in the listing.
    let mut h = NavigationHistory::new();
    h.save("/root".to_string(), ViewState { selected: 1, scroll: 0 });
    let entries = vec![
        dir("/root/dirA", "dirA"),
        dir("/root/dirB", "dirB"),
        file("/root/file1.txt", "file1.txt"),
    ];
    let v = resolve_view(&h, &"/root".to_string(), &"dirA".to_string(), &entries);
    assert_eq!(v, ViewState { selected: 1, scroll: 0 });
}

#[test]
fn ascend_without_history_lands_on_the_directory_just_exited() {
    let h = NavigationHistory::new();
    let entries = vec![
        dir("/root/dirA", "dirA"),
        dir("/root/dirB", "dirB"),
        file("/root/file1.txt", "file1.txt"),
    ];
    let v = resolve_view(&h, &"/root".to_string(), &"dirB".to_string(), &entries);
    assert_eq!(v, ViewState { selected: 1, scroll: 1 });
}

#[test]
fn ascend_after_directory_vanished_falls_back_to_origin() {
    let h = NavigationHistory::new();
    let entries = vec![dir("/root/dirB", "dirB")];
    let v = resolve_view(&h, &"/root".to_string(), &"deleted".to_string(), &entries);
    assert_eq!(v, ViewState { selected: 0, scroll: 0 });
}

#[test]
fn fallback_scan_picks_the_first_matching_name() {
    let h = NavigationHistory::new();
    let entries = vec![
        file("/root/x", "x"),
        dir("/root/dirA", "dirA"),
        dir("/root/other/dirA", "dirA"),
    ];
    let v = resolve_view(&h, &"/root".to_string(), &"dirA".to_string(), &entries);
    assert_eq!(v, ViewState { selected: 1, scroll: 1 });
}

fn poll_cycle(w: &mut FileWatcher, children: Vec<FileStat>) {
    let target = w.path();
    let snap = DirectorySnapshot::build(target, Some(children));
    w.publish(snap);
}

#[test]
fn ascend_then_descend_restores_the_exact_view() {
    // The browser stands in /a/b with a distinctive view; the render loop
    // has saved it. Ascending to /a and descending back into b restores it
    // verbatim, even though renders at /a saved a different view meanwhile.
    let mut w = FileWatcher::new("/a/b".to_string());
    let mut h = NavigationHistory::new();
    let in_b = ViewState { selected: 3, scroll: 1 };
    h.save("/a/b".to_string(), in_b);

    // Ascend: request the parent, run one poll cycle, resolve the view.
    let old_path = request_ascend(&mut w);
    assert_eq!(old_path, "/a/b");
    assert_eq!(w.path(), "/a");
    let a_listing = vec![dir("/a/b", "b"), file("/a/readme", "readme")];
    poll_cycle(&mut w, a_listing.clone());
    assert_eq!(w.path2(), "/a");
    let at_a = resolve_view(&h, &w.path(), &"b".to_string(), &w.filez());
    // No saved view for /a: the cursor lands on b, the directory just left.
    assert_eq!(at_a, ViewState { selected: 0, scroll: 0 });
    // The render loop keeps saving the active path's view.
    h.save("/a".to_string(), at_a);

    // Descend back into b.
    let old_path = request_descend(&mut w, "b");
    assert_eq!(old_path, "/a");
    assert_eq!(w.path(), "/a/b");
    poll_cycle(&mut w, vec![file("/a/b/c.txt", "c.txt")]);
    assert_eq!(w.path2(), "/a/b");
    let back_in_b = resolve_view(&h, &w.path(), &"a".to_string(), &w.filez());
    assert_eq!(back_in_b, in_b);
}

#[test]
fn acting_on_a_vanished_row_is_recovered_silently() {
    let entries = vec![dir("/root/dirA", "dirA")];
    let on_row = dirnav::navigate::selected_entry(&entries, ViewState { selected: 0, scroll: 0 });
    assert_eq!(on_row.unwrap().file_name(), "dirA");
    let off_row = dirnav::navigate::selected_entry(&entries, ViewState { selected: 5, scroll: 0 });
    assert!(off_row.is_none());
    let negative = dirnav::navigate::selected_entry(&entries, ViewState { selected: -1, scroll: 0 });
    assert!(negative.is_none());
}
