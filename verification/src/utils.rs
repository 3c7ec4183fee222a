use vstd::prelude::*;

verus! {

/// A two-dimensional pixel resolution.
#[derive(Default, Clone, Copy, Debug)]
pub struct Extent2D {
    pub width: u32,
    pub height: u32,
}

} // verus!
