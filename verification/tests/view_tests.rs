use dirnav::view_state::ViewState;

#[test]
fn cursor_moves_one_row_at_a_time() {
    let v = ViewState::origin();
    let v = v.cursor_down();
    let v = v.cursor_down();
    assert_eq!(v, ViewState { selected: 2, scroll: 0 });
    let v = v.cursor_up();
    assert_eq!(v, ViewState { selected: 1, scroll: 0 });
}

#[test]
fn wheel_scrolls_one_row_per_notch() {
    let v = ViewState::origin();
    let v = v.scroll_down();
    let v = v.scroll_down();
    assert_eq!(v.scroll, 2);
    let v = v.scroll_up();
    assert_eq!(v.scroll, 1);
    assert_eq!(v.selected, 0);
}

#[test]
fn render_clamps_cursor_into_a_shrunken_listing() {
    // The cursor sat on row 9, then the directory shrank to 4 entries: the
    // next render pass clamps to the last entry.
    let v = ViewState { selected: 9, scroll: 0 };
    let r = v.render_pass(4, 20);
    assert_eq!(r.selected, 3);
}

#[test]
fn render_clamps_cursor_to_zero_in_an_emptied_listing() {
    let v = ViewState { selected: 9, scroll: 5 };
    let r = v.render_pass(0, 20);
    assert_eq!(r.selected, 0);
}

#[test]
fn render_clamps_negative_cursor_to_zero() {
    let v = ViewState::origin().cursor_up();
    assert_eq!(v.selected, -1);
    let r = v.render_pass(3, 20);
    assert_eq!(r.selected, 0);
}

#[test]
fn viewport_follows_cursor_below_the_bottom_row() {
    // 10 visible rows; the cursor on row 15 pulls the viewport down just
    // far enough that the cursor sits on the bottom row.
    let v = ViewState { selected: 15, scroll: 0 };
    let r = v.render_pass(100, 10);
    assert_eq!(r.selected, 15);
    assert_eq!(r.scroll, 5);
}

#[test]
fn viewport_follows_cursor_above_the_top_row() {
    let v = ViewState { selected: 3, scroll: 8 };
    let r = v.render_pass(100, 10);
    assert_eq!(r.selected, 3);
    assert_eq!(r.scroll, 3);
}

#[test]
fn viewport_stays_put_while_cursor_is_visible() {
    let v = ViewState { selected: 12, scroll: 6 };
    let r = v.render_pass(100, 10);
    assert_eq!(r, ViewState { selected: 12, scroll: 6 });
}
