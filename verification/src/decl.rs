//! Plain value types shared by the handle wrappers.

use vstd::prelude::*;

verus! {

/// The color value that stands for "no color" in the native drawing calls.
pub const CLR_NONE: u32 = 0xffff_ffff;

/// A width and a height, in pixels.
#[derive(Clone, Copy, PartialEq, Eq, Structural, Debug)]
pub struct SIZE {
    pub cx: i32,
    pub cy: i32,
}

impl SIZE {
    /// A size with the given extents.
    pub fn new(cx: i32, cy: i32) -> (s: SIZE)
        ensures
            s == (SIZE { cx, cy }),
    {
        SIZE { cx, cy }
    }
}

/// An RGB color value as the native drawing calls encode it.
#[derive(Clone, Copy, PartialEq, Eq, Structural, Debug)]
pub struct COLORREF(pub u32);

impl COLORREF {
    /// The underlying encoded value.
    pub open spec fn spec_raw(self) -> u32 {
        self.0
    }

    /// Wraps a raw encoded color value.
    pub fn from_raw(raw: u32) -> (c: COLORREF)
        ensures
            c.spec_raw() == raw,
    {
        COLORREF(raw)
    }

    /// The underlying encoded value.
    pub fn raw(self) -> (r: u32)
        ensures
            r == self.spec_raw(),
    {
        self.0
    }
}

} // verus!
