use dirnav::history::NavigationHistory;
use dirnav::view_state::ViewState;

#[test]
fn save_then_lookup_round_trips() {
    let mut h = NavigationHistory::new();
    let v = ViewState { selected: 4, scroll: 2 };
    h.save("/root/dirA".to_string(), v);
    assert_eq!(h.lookup(&"/root/dirA".to_string()), Some(v));
}

#[test]
fn lookup_of_unvisited_path_is_none() {
    let h = NavigationHistory::new();
    assert_eq!(h.lookup(&"/never".to_string()), None);
}

#[test]
fn lookup_is_exact_match_only() {
    let mut h = NavigationHistory::new();
    h.save("/root".to_string(), ViewState { selected: 1, scroll: 0 });
    assert_eq!(h.lookup(&"/root/dirA".to_string()), None);
    assert_eq!(h.lookup(&"/roo".to_string()), None);
}

#[test]
fn save_overwrites_unconditionally() {
    let mut h = NavigationHistory::new();
    h.save("/p".to_string(), ViewState { selected: 1, scroll: 1 });
    h.save("/p".to_string(), ViewState { selected: 7, scroll: 3 });
    assert_eq!(h.lookup(&"/p".to_string()), Some(ViewState { selected: 7, scroll: 3 }));
}

#[test]
fn saves_for_other_paths_do_not_disturb_an_entry() {
    let mut h = NavigationHistory::new();
    let v = ViewState { selected: 5, scroll: 2 };
    h.save("/a/b".to_string(), v);
    h.save("/a".to_string(), ViewState { selected: 0, scroll: 0 });
    h.save("/c".to_string(), ViewState { selected: 9, scroll: 9 });
    assert_eq!(h.lookup(&"/a/b".to_string()), Some(v));
}
