//! Game data the editor tweaks read: plain-value models of the structures
//! whose layout the signatures resolve.

use vstd::prelude::*;

verus! {

/// The flip state owner of the component being placed.
pub struct FlipParent {
    /// The current flip bits.
    pub cur_flip: u8,
}

/// The base of a placed component: its rotation matrix and the address of
/// its flip-type record.
pub struct ComponentBase {
    /// The 3x3 rotation matrix, row-major.
    pub matrix: [i32; 9],
    /// Address of the component's flip-type record.
    pub flip_type: usize,
}

} // verus!
