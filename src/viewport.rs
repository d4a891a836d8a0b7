use vstd::prelude::*;

verus! {

/// Number of rows of context kept between the selection and the edge of the
/// viewport before scrolling starts.
pub const MARGIN: usize = 5;

/// The scroll offset `scroll`, moved as little as needed so that `sel` lies in
/// the window `[scroll, scroll + height)` and the offset never passes `sel`.
pub open spec fn keep_visible(sel: int, scroll: int, height: int) -> int {
    if scroll > sel {
        sel
    } else if height > 0 && sel - scroll >= height {
        sel - height + 1
    } else {
        scroll
    }
}

/// Scroll offset after the selection moved up to `sel`: one row back when
/// fewer than `MARGIN` rows stand above the selection and the selection is
/// past the first `MARGIN` entries.
pub open spec fn up_scroll(sel: int, scroll: int, height: int) -> int {
    let s = if sel - scroll < MARGIN && sel >= MARGIN {
        scroll - 1
    } else {
        scroll
    };
    keep_visible(sel, s, height)
}

/// Scroll offset after the selection moved down to `sel` in a listing of `n`
/// entries: one row on when fewer than `MARGIN` rows of the viewport are left
/// below the selection and at least `MARGIN` entries remain from it on.
pub open spec fn down_scroll(sel: int, scroll: int, height: int, n: int) -> int {
    let s = if height - (sel - scroll) < MARGIN && n - sel >= MARGIN {
        scroll + 1
    } else {
        scroll
    };
    keep_visible(sel, s, height)
}

/// Scroll offset computed from scratch for selection `sel`: the offset that
/// moving down one step at a time from the top of the listing arrives at.
pub open spec fn fresh_scroll(sel: int, height: int, n: int) -> int
    decreases sel,
{
    if sel <= 0 {
        0
    } else {
        down_scroll(sel, fresh_scroll(sel - 1, height, n), height, n)
    }
}

/// The window that `keep_visible` returns holds `sel`, and starts at or
/// before it.
pub proof fn lemma_keep_visible(sel: int, scroll: int, height: int)
    requires
        0 <= sel,
        0 <= scroll,
    ensures
        0 <= keep_visible(sel, scroll, height) <= sel,
        height > 0 ==> sel < keep_visible(sel, scroll, height) + height,
{
}

/// The offset computed from scratch keeps `sel` visible.
pub proof fn lemma_fresh_scroll(sel: int, height: int, n: int)
    requires
        0 <= sel,
    ensures
        0 <= fresh_scroll(sel, height, n) <= sel,
        height > 0 ==> sel < fresh_scroll(sel, height, n) + height,
    decreases sel,
{
    if sel > 0 {
        lemma_fresh_scroll(sel - 1, height, n);
        let prev = fresh_scroll(sel - 1, height, n);
        let s = if height - (sel - prev) < MARGIN && n - sel >= MARGIN {
            prev + 1
        } else {
            prev
        };
        lemma_keep_visible(sel, s, height);
    }
}

/// New scroll offset after the selection moved up to `selection`.
pub fn scroll_after_up(selection: usize, scroll: usize, height: usize) -> (r: usize)
    ensures
        r == up_scroll(selection as int, scroll as int, height as int),
{
    let s = if selection >= MARGIN && (selection < scroll || selection - scroll < MARGIN) {
        scroll - 1
    } else {
        scroll
    };
    keep_in_view(selection, s, height)
}

/// New scroll offset after the selection moved down to `selection`, in a
/// listing of `n` entries.
pub fn scroll_after_down(selection: usize, scroll: usize, height: usize, n: usize) -> (r: usize)
    requires
        scroll <= selection,
    ensures
        r == down_scroll(selection as int, scroll as int, height as int, n as int),
{
    let below_short = selection - scroll >= height || height - (selection - scroll) < MARGIN;
    let s = if below_short && n >= selection && n - selection >= MARGIN {
        scroll + 1
    } else {
        scroll
    };
    keep_in_view(selection, s, height)
}

/// Scroll offset for `selection` computed from scratch, as moving down step by
/// step from the top of a listing of `n` entries would leave it.
pub fn scroll_from_scratch(selection: usize, height: usize, n: usize) -> (r: usize)
    ensures
        r == fresh_scroll(selection as int, height as int, n as int),
        r <= selection,
        height > 0 ==> selection < r + height,
{
    let mut s: usize = 0;
    let mut i: usize = 0;
    while i < selection
        invariant
            i <= selection,
            s == fresh_scroll(i as int, height as int, n as int),
            s <= i,
        decreases selection - i,
    {
        i = i + 1;
        proof {
            lemma_fresh_scroll(i as int, height as int, n as int);
        }
        s = scroll_after_down(i, s, height, n);
    }
    proof {
        lemma_fresh_scroll(selection as int, height as int, n as int);
    }
    s
}

/// `scroll` moved as little as needed to keep `selection` in view.
fn keep_in_view(selection: usize, scroll: usize, height: usize) -> (r: usize)
    ensures
        r == keep_visible(selection as int, scroll as int, height as int),
{
    if scroll > selection {
        selection
    } else if height > 0 && selection - scroll >= height {
        selection - height + 1
    } else {
        scroll
    }
}

} // verus!
