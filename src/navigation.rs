use vstd::prelude::*;

use crate::viewport::{
    down_scroll, fresh_scroll, lemma_fresh_scroll, lemma_keep_visible, scroll_after_down,
    scroll_after_up, scroll_from_scratch, up_scroll, MARGIN,
};

verus! {

/// One member of a directory listing.
pub struct Entry {
    /// The member's file name.
    pub name: String,
    /// Whether the member is a directory that can be entered.
    pub is_dir: bool,
    /// The member's path: the listed directory joined with `name`.
    pub path: String,
}

/// The abstract state of a navigator: where it is, what it lists, which entry
/// is selected, the first entry on screen and how many entry rows fit.
pub ghost struct NavView {
    pub path: Seq<char>,
    pub entries: Seq<Entry>,
    pub selection: int,
    pub scroll: int,
    pub height: int,
}

/// What every navigator state satisfies: the selection indexes the listing
/// (or is 0 when the listing is empty), the scroll offset never passes the
/// selection, and the selection lies inside the window of `height` rows.
pub open spec fn wf_view(v: NavView) -> bool {
    let n = v.entries.len();
    &&& 0 <= v.scroll <= v.selection
    &&& (n == 0 ==> v.selection == 0)
    &&& (n > 0 ==> v.selection < n)
    &&& 0 <= v.height
    &&& (v.height > 0 ==> v.selection < v.scroll + v.height)
}

/// The state a navigator starts in.
pub open spec fn initial(path: Seq<char>, entries: Seq<Entry>, height: int) -> NavView {
    NavView { path, entries, selection: 0, scroll: 0, height }
}

/// Moving the selection one entry up; nothing happens at the first entry.
pub open spec fn moved_up(v: NavView) -> NavView {
    if v.selection == 0 || v.entries.len() == 0 {
        v
    } else {
        NavView {
            selection: v.selection - 1,
            scroll: up_scroll(v.selection - 1, v.scroll, v.height),
            ..v
        }
    }
}

/// Moving the selection one entry down; nothing happens at the last entry.
pub open spec fn moved_down(v: NavView) -> NavView {
    let n = v.entries.len();
    if n == 0 || v.selection == n - 1 {
        v
    } else {
        NavView {
            selection: v.selection + 1,
            scroll: down_scroll(v.selection + 1, v.scroll, v.height, n as int),
            ..v
        }
    }
}

/// A new number of entry rows; the scroll offset is computed anew for it.
pub open spec fn resized(v: NavView, height: int) -> NavView {
    NavView { height, scroll: fresh_scroll(v.selection, height, v.entries.len() as int), ..v }
}

/// Whether the selected entry is a directory.
pub open spec fn selects_dir(v: NavView) -> bool {
    v.entries.len() > 0 && v.entries[v.selection].is_dir
}

/// Entering the selected directory, found at `path` and holding `entries`;
/// nothing happens unless a directory is selected.
pub open spec fn entered(v: NavView, path: Seq<char>, entries: Seq<Entry>) -> NavView {
    if selects_dir(v) {
        NavView { path, entries, selection: 0, scroll: 0, ..v }
    } else {
        v
    }
}

/// Index of the first entry whose path is `p`, if any.
pub open spec fn position_of(entries: Seq<Entry>, p: Seq<char>) -> Option<int>
    decreases entries.len(),
{
    if entries.len() == 0 {
        None
    } else {
        match position_of(entries.drop_last(), p) {
            Some(i) => Some(i),
            None => if entries.last().path@ == p {
                Some(entries.len() - 1)
            } else {
                None
            },
        }
    }
}

/// Where the selection lands in a parent's listing: on the entry for the
/// directory just left, or on the first entry when it is not listed.
pub open spec fn landing(entries: Seq<Entry>, p: Seq<char>) -> int {
    match position_of(entries, p) {
        Some(i) => i,
        None => 0,
    }
}

/// Going to the parent directory, found at `path` and holding `entries`.
/// The scroll offset starts at the top and is computed anew only where the
/// selection would fall outside that first window.
pub open spec fn left(v: NavView, path: Seq<char>, entries: Seq<Entry>) -> NavView {
    let sel = landing(entries, v.path);
    NavView {
        path,
        entries,
        selection: sel,
        scroll: if sel < v.height {
            0
        } else {
            fresh_scroll(sel, v.height, entries.len() as int)
        },
        ..v
    }
}

/// `position_of` finds the first entry with the path, and only such an entry.
pub proof fn lemma_position_of(entries: Seq<Entry>, p: Seq<char>)
    ensures
        match position_of(entries, p) {
            Some(i) => 0 <= i < entries.len() && entries[i].path@ == p && forall|j: int|
                0 <= j < i ==> entries[j].path@ != p,
            None => forall|j: int| 0 <= j < entries.len() ==> entries[j].path@ != p,
        },
    decreases entries.len(),
{
    if entries.len() > 0 {
        let init = entries.drop_last();
        lemma_position_of(init, p);
        assert forall|j: int| 0 <= j < init.len() implies init[j] == entries[j] by {}
    }
}

/// Every transition keeps the state well formed, and the initial state is.
pub proof fn lemma_transitions_keep_wf(
    v: NavView,
    height: int,
    path: Seq<char>,
    entries: Seq<Entry>,
)
    requires
        wf_view(v),
        0 <= height,
    ensures
        wf_view(initial(path, entries, height)),
        wf_view(moved_up(v)),
        wf_view(moved_down(v)),
        wf_view(resized(v, height)),
        wf_view(entered(v, path, entries)),
        wf_view(left(v, path, entries)),
{
    if v.selection > 0 && v.entries.len() > 0 {
        let sel = v.selection - 1;
        let s = if sel - v.scroll < MARGIN && sel >= MARGIN {
            v.scroll - 1
        } else {
            v.scroll
        };
        lemma_keep_visible(sel, s, v.height);
    }
    let n = v.entries.len();
    if n > 0 && v.selection != n - 1 {
        let sel = v.selection + 1;
        let s = if v.height - (sel - v.scroll) < MARGIN && n - sel >= MARGIN {
            v.scroll + 1
        } else {
            v.scroll
        };
        lemma_keep_visible(sel, s, v.height);
    }
    lemma_fresh_scroll(v.selection, height, n as int);
    lemma_position_of(entries, v.path);
    let sel = landing(entries, v.path);
    lemma_fresh_scroll(sel, v.height, entries.len() as int);
}

/// Every well-formed state has `0 <= scroll <= selection < N`, or
/// `selection == scroll == 0` for an empty listing.
pub proof fn lemma_selection_in_listing(v: NavView)
    requires
        wf_view(v),
    ensures
        v.entries.len() == 0 ==> v.selection == 0 && v.scroll == 0,
        v.entries.len() > 0 ==> 0 <= v.scroll <= v.selection < v.entries.len(),
{
}

/// In every well-formed state with at least one entry row, the selection is
/// on screen: `scroll <= selection <= scroll + height - 1`.
pub proof fn lemma_selection_on_screen(v: NavView)
    requires
        wf_view(v),
        v.height > 0,
    ensures
        v.scroll <= v.selection <= v.scroll + v.height - 1,
{
}

/// Moving up from the first entry, or down from the last, changes nothing.
pub proof fn lemma_moves_at_ends(v: NavView)
    requires
        wf_view(v),
    ensures
        v.selection == 0 ==> moved_up(v) == v,
        v.entries.len() > 0 && v.selection == v.entries.len() - 1 ==> moved_down(v) == v,
{
}

/// Entering the selected directory and then leaving it again returns to the
/// directory left and selects the entry for the directory just visited, as
/// long as the reloaded listing still holds that entry.
pub proof fn lemma_enter_then_leave(
    v: NavView,
    inner: Seq<Entry>,
    parent: Seq<char>,
    outer: Seq<Entry>,
)
    requires
        wf_view(v),
        selects_dir(v),
        parent == v.path,
        exists|i: int| 0 <= i < outer.len() && #[trigger] outer[i].path@ == v.entries[v.selection].path@,
    ensures
        ({
            let sub = v.entries[v.selection].path@;
            let w = left(entered(v, sub, inner), parent, outer);
            &&& w.path == v.path
            &&& 0 <= w.selection < w.entries.len()
            &&& w.entries[w.selection].path@ == sub
        }),
{
    let sub = v.entries[v.selection].path@;
    lemma_position_of(outer, sub);
}

/// Index of the first entry of `listing` whose path is `path`.
pub fn find_path(listing: &Vec<Entry>, path: &String) -> (r: Option<usize>)
    ensures
        match r {
            Some(i) => position_of(listing@, path@) == Some(i as int),
            None => position_of(listing@, path@) is None,
        },
{
    let mut i: usize = 0;
    while i < listing.len()
        invariant
            i <= listing@.len(),
            position_of(listing@.subrange(0, i as int), path@) is None,
        decreases listing@.len() - i,
    {
        assert(listing@.subrange(0, i as int + 1).drop_last() =~= listing@.subrange(0, i as int));
        if listing[i].path == *path {
            proof {
                lemma_position_of(listing@.subrange(0, i as int), path@);
                lemma_position_of(listing@, path@);
                assert(listing@[i as int].path@ == path@);
                assert forall|j: int| 0 <= j < i implies listing@[j].path@ != path@ by {
                    assert(listing@.subrange(0, i as int)[j] == listing@[j]);
                }
            }
            return Some(i);
        }
        i = i + 1;
    }
    assert(listing@.subrange(0, listing@.len() as int) =~= listing@);
    None
}

/// A navigator: the current directory, its listing, the selected entry, the
/// first entry on screen, and the number of entry rows on screen.
pub struct NavigationState {
    current_path: String,
    listing: Vec<Entry>,
    selection: usize,
    scroll: usize,
    viewport_height: usize,
}

impl View for NavigationState {
    type V = NavView;

    closed spec fn view(&self) -> NavView {
        NavView {
            path: self.current_path@,
            entries: self.listing@,
            selection: self.selection as int,
            scroll: self.scroll as int,
            height: self.viewport_height as int,
        }
    }
}

impl NavigationState {
    pub open spec fn wf(&self) -> bool {
        wf_view(self@)
    }

    /// A navigator on `path`, listing `listing`, with the first entry selected.
    pub fn new(path: String, listing: Vec<Entry>, viewport_height: usize) -> (r: Self)
        ensures
            r.wf(),
            r@ == initial(path@, listing@, viewport_height as int),
    {
        let r = NavigationState { current_path: path, listing, selection: 0, scroll: 0, viewport_height };
        proof {
            lemma_transitions_keep_wf(r@, 0, path@, listing@);
        }
        r
    }

    /// A navigator at a given selection and scroll offset, or `None` where
    /// these break the invariant of a navigator.
    pub fn from_parts(
        path: String,
        listing: Vec<Entry>,
        selection: usize,
        scroll: usize,
        viewport_height: usize,
    ) -> (r: Option<Self>)
        ensures
            ({
                let v = NavView {
                    path: path@,
                    entries: listing@,
                    selection: selection as int,
                    scroll: scroll as int,
                    height: viewport_height as int,
                };
                &&& r is Some <==> wf_view(v)
                &&& r matches Some(st) ==> st@ == v && st.wf()
            }),
    {
        let n = listing.len();
        let ok = scroll <= selection && (if n == 0 {
            selection == 0
        } else {
            selection < n
        }) && (viewport_height == 0 || selection - scroll < viewport_height);
        if ok {
            Some(NavigationState { current_path: path, listing, selection, scroll, viewport_height })
        } else {
            None
        }
    }

    /// Moves the selection one entry up, scrolling to keep context above it.
    pub fn move_up(&mut self)
        requires
            old(self).wf(),
        ensures
            final(self).wf(),
            final(self)@ == moved_up(old(self)@),
    {
        proof {
            lemma_transitions_keep_wf(self@, 0, self@.path, self@.entries);
        }
        if self.selection > 0 && self.listing.len() > 0 {
            self.selection = self.selection - 1;
            self.scroll = scroll_after_up(self.selection, self.scroll, self.viewport_height);
        }
    }

    /// Moves the selection one entry down, scrolling to keep context below it.
    pub fn move_down(&mut self)
        requires
            old(self).wf(),
        ensures
            final(self).wf(),
            final(self)@ == moved_down(old(self)@),
    {
        proof {
            lemma_transitions_keep_wf(self@, 0, self@.path, self@.entries);
        }
        let n = self.listing.len();
        if n > 0 && self.selection != n - 1 {
            self.selection = self.selection + 1;
            self.scroll = scroll_after_down(
                self.selection,
                self.scroll,
                self.viewport_height,
                n,
            );
        }
    }

    /// Takes a new number of entry rows and computes the scroll offset anew,
    /// leaving the selection where it is.
    pub fn resize(&mut self, viewport_height: usize)
        requires
            old(self).wf(),
        ensures
            final(self).wf(),
            final(self)@ == resized(old(self)@, viewport_height as int),
    {
        proof {
            lemma_transitions_keep_wf(self@, viewport_height as int, self@.path, self@.entries);
        }
        self.viewport_height = viewport_height;
        self.scroll = scroll_from_scratch(self.selection, viewport_height, self.listing.len());
    }

    /// The path of the selected entry where it is a directory, else `None`.
    pub fn selected_directory(&self) -> (r: Option<String>)
        requires
            self.wf(),
        ensures
            r is Some <==> selects_dir(self@),
            r matches Some(p) ==> p@ == self@.entries[self@.selection].path@,
    {
        if self.listing.len() > 0 && self.listing[self.selection].is_dir {
            Some(self.listing[self.selection].path.clone())
        } else {
            None
        }
    }

    /// Enters the selected directory, found at `path` and listing `listing`,
    /// with its first entry selected. Nothing happens unless a directory is
    /// selected.
    pub fn enter(&mut self, path: String, listing: Vec<Entry>)
        requires
            old(self).wf(),
        ensures
            final(self).wf(),
            final(self)@ == entered(old(self)@, path@, listing@),
    {
        proof {
            lemma_transitions_keep_wf(self@, 0, path@, listing@);
        }
        if self.listing.len() > 0 && self.listing[self.selection].is_dir {
            self.current_path = path;
            self.listing = listing;
            self.selection = 0;
            self.scroll = 0;
        }
    }

    /// Goes to the parent directory, found at `path` and listing `listing`,
    /// and selects the entry for the directory just left where it is listed.
    pub fn leave(&mut self, path: String, listing: Vec<Entry>)
        requires
            old(self).wf(),
        ensures
            final(self).wf(),
            final(self)@ == left(old(self)@, path@, listing@),
    {
        proof {
            lemma_transitions_keep_wf(self@, 0, path@, listing@);
        }
        let selection = match find_path(&listing, &self.current_path) {
            Some(i) => i,
            None => 0,
        };
        let scroll = if selection < self.viewport_height {
            0
        } else {
            scroll_from_scratch(selection, self.viewport_height, listing.len())
        };
        self.current_path = path;
        self.listing = listing;
        self.selection = selection;
        self.scroll = scroll;
    }

    /// The current directory.
    pub fn current_path(&self) -> (r: &String)
        ensures
            r@ == self@.path,
    {
        &self.current_path
    }

    /// The listing of the current directory.
    pub fn listing(&self) -> (r: &Vec<Entry>)
        ensures
            r@ == self@.entries,
    {
        &self.listing
    }

    /// Index of the selected entry.
    pub fn selection(&self) -> (r: usize)
        ensures
            r == self@.selection,
    {
        self.selection
    }

    /// Index of the first entry on screen.
    pub fn scroll(&self) -> (r: usize)
        ensures
            r == self@.scroll,
    {
        self.scroll
    }

    /// Number of entry rows on screen.
    pub fn viewport_height(&self) -> (r: usize)
        ensures
            r == self@.height,
    {
        self.viewport_height
    }
}

} // verus!
