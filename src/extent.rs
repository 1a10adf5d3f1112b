use vstd::prelude::*;

verus! {

/// Logical size of a render surface, in pixels.
#[derive(Clone, Copy, Debug, PartialEq, Eq, Structural)]
pub struct Extent2d {
    pub width: u32,
    pub height: u32,
}

/// A dimension as the device is asked to allocate it: never below one.
pub open spec fn clamp_dim(d: u32) -> u32 {
    if d == 0 { 1 } else { d }
}

impl Extent2d {
    /// The size at which an attachment of this logical size is allocated:
    /// each zero dimension becomes one, the others are kept.
    pub fn allocation_extent(&self) -> (r: Extent2d)
        ensures
            r.width == clamp_dim(self.width),
            r.height == clamp_dim(self.height),
    {
        Extent2d {
            width: if self.width == 0 { 1 } else { self.width },
            height: if self.height == 0 { 1 } else { self.height },
        }
    }
}

/// The resolution at which the client renders, as width and height.
#[derive(Clone, Copy, Debug, PartialEq, Eq, Structural)]
pub struct RenderResolution(pub u32, pub u32);

impl RenderResolution {
    /// The extent of this resolution.
    pub fn extent(&self) -> (r: Extent2d)
        ensures
            r.width == self.0,
            r.height == self.1,
    {
        Extent2d { width: self.0, height: self.1 }
    }
}

} // verus!
