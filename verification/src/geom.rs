use vstd::prelude::*;

verus! {

/// An axis-aligned rectangle in pixel units: top-left corner and size.
///
/// Used both for source rectangles inside the sprite sheet and for
/// destination rectangles on the screen.
#[derive(Clone, Copy, Debug, PartialEq, Eq, Structural)]
pub struct Rect {
    pub x: i32,
    pub y: i32,
    pub w: u32,
    pub h: u32,
}

} // verus!
