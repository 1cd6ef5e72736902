//! Positions and sizes in physical pixels.

use vstd::prelude::*;

verus! {

/// A position in physical pixels.
#[derive(Debug, Clone, Copy, PartialEq, Eq, Hash, Default)]
pub struct PhysicalPosition<P> {
    pub x: P,
    pub y: P,
}

impl<P> PhysicalPosition<P> {
    pub fn new(x: P, y: P) -> (position: Self)
        ensures
            position == (PhysicalPosition { x, y }),
    {
        PhysicalPosition { x, y }
    }
}

/// A size in physical pixels.
#[derive(Debug, Clone, Copy, PartialEq, Eq, Hash, Default)]
pub struct PhysicalSize<P> {
    pub width: P,
    pub height: P,
}

impl<P> PhysicalSize<P> {
    pub fn new(width: P, height: P) -> (size: Self)
        ensures
            size == (PhysicalSize { width, height }),
    {
        PhysicalSize { width, height }
    }
}

} // verus!
