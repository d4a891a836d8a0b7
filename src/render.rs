use vstd::prelude::*;
use vstd::string::*;

use crate::navigation::{moved_down, moved_up, wf_view, Entry, NavView, NavigationState};

verus! {

/// The part of the listing on screen, derived from a navigator's state.
pub struct ViewportWindow {
    /// Index of the first entry shown.
    pub start: usize,
    /// One past the index of the last entry shown.
    pub end: usize,
    /// Whether entries exist before the first one shown.
    pub has_more_above: bool,
    /// Whether entries exist after the last one shown.
    pub has_more_below: bool,
}

/// The lines that show a listing: a marker line, one line per entry on
/// screen, and a marker line; and the index of the selected entry's line.
pub struct Frame {
    pub lines: Vec<String>,
    pub cursor_line: usize,
}

/// One past the last entry on screen.
pub open spec fn window_end(v: NavView) -> int {
    if v.scroll + v.height < v.entries.len() {
        v.scroll + v.height
    } else {
        v.entries.len() as int
    }
}

/// A marker line: dots where entries are hidden on that side, else blanks.
pub open spec fn marker(more: bool) -> Seq<char> {
    if more {
        seq!['.', '.', '.']
    } else {
        seq![' ', ' ', ' ']
    }
}

/// An entry's line: its name, with a trailing separator for a directory.
pub open spec fn label(e: Entry) -> Seq<char> {
    if e.is_dir {
        e.name@ + seq!['/']
    } else {
        e.name@
    }
}

/// The lines of the screen for state `v`.
pub open spec fn frame_lines(v: NavView) -> Seq<Seq<char>> {
    let start = v.scroll;
    let end = window_end(v);
    seq![marker(start > 0)] + Seq::new((end - start) as nat, |k: int| label(v.entries[start + k]))
        + seq![marker(end < v.entries.len())]
}

/// With an empty listing, moving up or down changes nothing and the screen
/// holds the two marker lines only.
pub proof fn lemma_empty_listing(v: NavView)
    requires
        wf_view(v),
        v.entries.len() == 0,
    ensures
        moved_up(v) == v,
        moved_down(v) == v,
        frame_lines(v).len() == 2,
{
}

fn marker_line(more: bool) -> (r: String)
    ensures
        r@ == marker(more),
{
    proof {
        reveal_strlit("...");
        reveal_strlit("   ");
    }
    if more {
        String::from_str("...")
    } else {
        String::from_str("   ")
    }
}

fn label_line(e: &Entry) -> (r: String)
    ensures
        r@ == label(*e),
{
    proof {
        reveal_strlit("/");
    }
    if e.is_dir {
        e.name.clone().concat("/")
    } else {
        e.name.clone()
    }
}

impl NavigationState {
    /// The part of the listing on screen.
    pub fn window(&self) -> (r: ViewportWindow)
        requires
            self.wf(),
        ensures
            r.start == self@.scroll,
            r.end == window_end(self@),
            r.has_more_above == (self@.scroll > 0),
            r.has_more_below == (window_end(self@) < self@.entries.len()),
    {
        let n = self.listing().len();
        let start = self.scroll();
        let end = if self.viewport_height() < n - start {
            start + self.viewport_height()
        } else {
            n
        };
        ViewportWindow { start, end, has_more_above: start > 0, has_more_below: end < n }
    }

    /// The lines that show the listing, and the line of the selected entry.
    pub fn frame(&self) -> (r: Frame)
        requires
            self.wf(),
        ensures
            r.lines@.len() == frame_lines(self@).len(),
            forall|i: int| 0 <= i < r.lines@.len() ==> #[trigger] r.lines@[i]@ == frame_lines(self@)[i],
            r.cursor_line == self@.selection - self@.scroll + 1,
    {
        let w = self.window();
        let listing = self.listing();
        let ghost v = self@;
        let ghost want = frame_lines(v);
        let mut lines: Vec<String> = Vec::new();
        lines.push(marker_line(w.has_more_above));
        let mut k: usize = w.start;
        while k < w.end
            invariant
                v == self@,
                wf_view(v),
                want == frame_lines(v),
                listing@ == v.entries,
                w.start == v.scroll,
                w.end == window_end(v),
                w.start <= k <= w.end,
                w.end <= listing@.len(),
                lines@.len() == k - w.start + 1,
                forall|i: int| 0 <= i < lines@.len() ==> #[trigger] lines@[i]@ == want[i],
            decreases w.end - k,
        {
            let line = label_line(&listing[k]);
            assert(want[k - w.start + 1] == label(v.entries[k as int]));
            lines.push(line);
            k = k + 1;
        }
        lines.push(marker_line(w.has_more_below));
        let n = listing.len();
        let sel = self.selection();
        assert(sel < n || sel == 0);
        Frame { lines, cursor_line: sel - self.scroll() + 1 }
    }
}

} // verus!
