use vstd::prelude::*;

verus! {

/// The sheet axis along which successive frames are laid out.
#[derive(Clone, Copy, Debug, PartialEq, Eq, Structural)]
pub enum Axis {
    X,
    Y,
}

/// A point in world space, in whole units.
#[derive(Clone, Copy, Debug, PartialEq, Eq, Structural)]
pub struct Point {
    pub x: i64,
    pub y: i64,
}

/// The size of one sprite-sheet cell, in pixels.
#[derive(Clone, Copy, Debug, PartialEq, Eq, Structural)]
pub struct Size {
    pub w: u32,
    pub h: u32,
}

impl Size {
    /// The extent of the size along an axis.
    pub open spec fn along(self, axis: Axis) -> nat {
        match axis {
            Axis::X => self.w as nat,
            Axis::Y => self.h as nat,
        }
    }

    /// The extent of the size along an axis.
    pub fn extent_along(&self, axis: Axis) -> (r: u32)
        ensures
            r as nat == self.along(axis),
    {
        match axis {
            Axis::X => self.w,
            Axis::Y => self.h,
        }
    }
}

} // verus!
