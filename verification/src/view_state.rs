//! The cursor and viewport of one directory's listing, and the rules that
//! move them: one-step cursor and wheel moves, and the fix-up every render
//! pass applies — clamp the cursor into the listing's bounds, then move
//! the viewport so the cursor stays visible.

use vstd::prelude::*;

verus! {

/// Furthest the cursor or the scroll offset ever wanders from zero. One
/// render pass pulls both back toward the listing's bounds, so the only
/// purpose of this bound is to keep every viewport computation inside
/// `i32`; it never bites for any listing a filesystem can hold.
pub const VIEW_BOUND: i32 = 0x4000_0000;

/// The cursor position and scroll offset for one directory.
#[derive(Clone, Copy, PartialEq, Eq, Structural, Debug)]
pub struct ViewState {
    pub selected: i32,
    pub scroll: i32,
}

/// Both coordinates are in range for the viewport arithmetic.
pub open spec fn wf_view(v: ViewState) -> bool {
    &&& -VIEW_BOUND <= v.selected <= VIEW_BOUND
    &&& -VIEW_BOUND <= v.scroll <= VIEW_BOUND
}

/// Where the cursor lands after a render pass over a listing of `len`
/// entries: inside `[0, len - 1]`, or at 0 when the listing is empty.
pub open spec fn clamped_selected(sel: int, len: int) -> int {
    if len <= 0 {
        0
    } else if sel < 0 {
        0
    } else if sel > len - 1 {
        len - 1
    } else {
        sel
    }
}

/// Where the viewport lands: raised just far enough when the cursor sits
/// below the bottom visible row (`rows` is that row's offset from the
/// scroll origin), then lowered to the cursor when the cursor sits above
/// the viewport.
pub open spec fn adjusted_scroll(sel: int, scroll: int, rows: int) -> int {
    let raised = if sel > rows + scroll {
        sel - rows
    } else {
        scroll
    };
    if sel < raised {
        sel
    } else {
        raised
    }
}

impl ViewState {
    /// The view a directory starts with when nothing is known about it.
    pub fn origin() -> (r: ViewState)
        ensures
            r.selected == 0,
            r.scroll == 0,
            wf_view(r),
    {
        ViewState { selected: 0, scroll: 0 }
    }

    /// Moves the cursor one row down. The render pass clamps it back into
    /// the listing, so the move saturates only at the arithmetic bound.
    pub fn cursor_down(self) -> (r: ViewState)
        ensures
            r.scroll == self.scroll,
            r.selected as int == if self.selected < VIEW_BOUND {
                self.selected + 1
            } else {
                self.selected as int
            },
            wf_view(self) ==> wf_view(r),
    {
        if self.selected < VIEW_BOUND {
            ViewState { selected: self.selected + 1, scroll: self.scroll }
        } else {
            self
        }
    }

    /// Moves the cursor one row up.
    pub fn cursor_up(self) -> (r: ViewState)
        ensures
            r.scroll == self.scroll,
            r.selected as int == if self.selected > -VIEW_BOUND {
                self.selected - 1
            } else {
                self.selected as int
            },
            wf_view(self) ==> wf_view(r),
    {
        if self.selected > -VIEW_BOUND {
            ViewState { selected: self.selected - 1, scroll: self.scroll }
        } else {
            self
        }
    }

    /// Scrolls the viewport one row down (wheel down).
    pub fn scroll_down(self) -> (r: ViewState)
        ensures
            r.selected == self.selected,
            r.scroll as int == if self.scroll < VIEW_BOUND {
                self.scroll + 1
            } else {
                self.scroll as int
            },
            wf_view(self) ==> wf_view(r),
    {
        if self.scroll < VIEW_BOUND {
            ViewState { selected: self.selected, scroll: self.scroll + 1 }
        } else {
            self
        }
    }

    /// Scrolls the viewport one row up (wheel up).
    pub fn scroll_up(self) -> (r: ViewState)
        ensures
            r.selected == self.selected,
            r.scroll as int == if self.scroll > -VIEW_BOUND {
                self.scroll - 1
            } else {
                self.scroll as int
            },
            wf_view(self) ==> wf_view(r),
    {
        if self.scroll > -VIEW_BOUND {
            ViewState { selected: self.selected, scroll: self.scroll - 1 }
        } else {
            self
        }
    }

    /// The fix-up every render pass applies before drawing: the cursor is
    /// clamped into the listing's bounds (to 0 when the listing is empty —
    /// an entry that disappeared between snapshots is recovered from
    /// silently), then the viewport follows the cursor. `rows` is the
    /// offset of the bottom visible row from the scroll origin.
    pub fn render_pass(self, len: usize, rows: i32) -> (r: ViewState)
        requires
            wf_view(self),
            len <= VIEW_BOUND as usize,
            -VIEW_BOUND <= rows <= VIEW_BOUND,
        ensures
            r.selected == clamped_selected(self.selected as int, len as int),
            r.scroll == adjusted_scroll(r.selected as int, self.scroll as int, rows as int),
            wf_view(r),
            len > 0 ==> 0 <= r.selected < len,
            len == 0 ==> r.selected == 0,
    {
        let sel: i32 = if len == 0 {
            0
        } else {
            let max_i: i32 = (len - 1) as i32;
            if self.selected < 0 {
                0
            } else if self.selected > max_i {
                max_i
            } else {
                self.selected
            }
        };
        let raised: i32 = if (sel as i64) > (rows as i64) + (self.scroll as i64) {
            sel - rows
        } else {
            self.scroll
        };
        let scr: i32 = if sel < raised {
            sel
        } else {
            raised
        };
        ViewState { selected: sel, scroll: scr }
    }
}

/// The clamping rule in one sentence: when the cursor has fallen off the
/// end of a listing that shrank, the next render pass puts it on the last
/// entry, or on 0 when the directory emptied.
pub proof fn lemma_render_clamps(sel: int, len: int)
    requires
        len >= 0,
        sel >= len,
    ensures
        clamped_selected(sel, len) == if len == 0 {
            0int
        } else {
            len - 1
        },
{
}

} // verus!
