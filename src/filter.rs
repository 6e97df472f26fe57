//! Collision filtering data of a fixture.
use vstd::prelude::*;

verus! {

/// Collision filter of a fixture: which category it belongs to, which
/// categories it collides with, and its collision group.
#[allow(non_camel_case_types)]
#[derive(Debug, Clone, Copy, PartialEq, Eq, Structural)]
pub struct b2Filter {
    pub category: u16,
    pub mask: u16,
    pub group_index: i16,
}

/// The category a fixture belongs to unless told otherwise.
pub const DEFAULT_CATEGORY: u16 = 0x0001;

/// The mask that accepts every category.
pub const ALL_CATEGORIES: u16 = 0xFFFF;

impl Default for b2Filter {
    /// Belongs to the first category, collides with every category, no group.
    fn default() -> (r: Self)
        ensures
            r.category == DEFAULT_CATEGORY,
            r.mask == ALL_CATEGORIES,
            r.group_index == 0,
    {
        b2Filter { category: DEFAULT_CATEGORY, mask: ALL_CATEGORIES, group_index: 0 }
    }
}

} // verus!
