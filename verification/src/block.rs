//! Cells of the playing field. A cell is either empty or holds a `Block`:
//! a material tag with no behaviour of its own, remembering which piece
//! kind produced it and whether it is a dimmed ghost (landing preview)
//! block. The presentation layer maps the tag to a colour.

use vstd::prelude::*;

verus! {

/// The seven canonical tetromino kinds.
#[derive(Copy, Clone, PartialEq, Eq, Structural, Debug)]
pub enum ShapeKind {
    I,
    J,
    L,
    O,
    S,
    T,
    Z,
}

/// A colour/material tag occupying one cell. `shadow` marks the ghost
/// (landing-preview) variant, which shares the geometry of the normal
/// variant and is only ever written into the transient overlay.
#[derive(Copy, Clone, PartialEq, Eq, Structural, Debug)]
pub struct Block {
    pub kind: ShapeKind,
    pub shadow: bool,
}

impl Block {
    pub fn new(kind: ShapeKind, shadow: bool) -> (b: Block)
        ensures
            b.kind == kind,
            b.shadow == shadow,
    {
        Block { kind, shadow }
    }
}

} // verus!
