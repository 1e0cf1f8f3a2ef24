//! What a window is created from.

use vstd::prelude::*;

verus! {

/// Title and size of the window to create.
pub struct KWindowCreateInfo<'s> {
    pub title: &'s str,
    pub width: u32,
    pub height: u32,
}

} // verus!
