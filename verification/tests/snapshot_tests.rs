use dirnav::entry::FileStat;
use dirnav::snapshot::DirectorySnapshot;

fn dir(path: &str, name: &str) -> FileStat {
    FileStat::new(path.to_string(), name.to_string(), true, false)
}

fn file(path: &str, name: &str) -> FileStat {
    FileStat::new(path.to_string(), name.to_string(), false, true)
}

fn names(snap: &DirectorySnapshot) -> Vec<String> {
    snap.entries.iter().map(|e| e.file_name().to_string()).collect()
}

#[test]
fn directories_sort_before_files_keeping_enumeration_order() {
    let children = vec![
        dir("/root/dirA", "dirA"),
        dir("/root/dirB", "dirB"),
        file("/root/file1.txt", "file1.txt"),
    ];
    let snap = DirectorySnapshot::build("/root".to_string(), Some(children));
    assert_eq!(snap.source_path, "/root");
    assert_eq!(names(&snap), vec!["dirA", "dirB", "file1.txt"]);
}

#[test]
fn interleaved_listing_is_partitioned_stably() {
    let children = vec![
        file("/d/x.txt", "x.txt"),
        dir("/d/one", "one"),
        file("/d/y.txt", "y.txt"),
        dir("/d/two", "two"),
        file("/d/z.txt", "z.txt"),
    ];
    let snap = DirectorySnapshot::build("/d".to_string(), Some(children));
    // All directories first, then all files; within each group the original
    // enumeration order, with no alphabetical reordering.
    assert_eq!(names(&snap), vec!["one", "two", "x.txt", "y.txt", "z.txt"]);
}

#[test]
fn no_secondary_alphabetical_sort_is_applied() {
    let children = vec![
        file("/d/b.txt", "b.txt"),
        file("/d/a.txt", "a.txt"),
        dir("/d/zeta", "zeta"),
        dir("/d/alpha", "alpha"),
    ];
    let snap = DirectorySnapshot::build("/d".to_string(), Some(children));
    assert_eq!(names(&snap), vec!["zeta", "alpha", "b.txt", "a.txt"]);
}

#[test]
fn unreadable_directory_gives_empty_snapshot() {
    let snap = DirectorySnapshot::build("/locked".to_string(), None);
    assert_eq!(snap.source_path, "/locked");
    assert!(snap.entries.is_empty());
    assert_eq!(snap.len(), 0);
}

#[test]
fn empty_listing_gives_empty_snapshot() {
    let snap = DirectorySnapshot::build("/empty".to_string(), Some(Vec::new()));
    assert_eq!(snap.len(), 0);
}

#[test]
fn entry_kind_flags_round_trip() {
    let d = dir("/root/dirA", "dirA");
    assert!(d.is_dir());
    assert!(!d.is_file());
    assert_eq!(d.path(), "/root/dirA");
    assert_eq!(d.file_name(), "dirA");
    let f = file("/root/file1.txt", "file1.txt");
    assert!(!f.is_dir());
    assert!(f.is_file());
    let other = FileStat::new("/dev/sda".to_string(), "sda".to_string(), false, false);
    assert!(!other.is_dir());
    assert!(!other.is_file());
}

#[test]
fn parent_entry_is_a_directory_one_level_up() {
    let f = file("/root/dirA/notes.txt", "notes.txt");
    let p = f.parent();
    assert_eq!(p.path(), "/root/dirA");
    assert_eq!(p.file_name(), "dirA");
    assert!(p.is_dir());
    assert!(!p.is_file());
}
