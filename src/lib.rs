//! Navigation state of a terminal directory browser: the selected entry, the
//! scroll offset that keeps it on screen, the moves between directories, and
//! the lines that show the listing.

use vstd::prelude::*;

pub mod input;
pub mod navigation;
pub mod render;
pub mod viewport;

verus! {

} // verus!
