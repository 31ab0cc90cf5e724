//! The size and scale snapshot that every window carries.

use vstd::prelude::*;

use crate::geometry::{size_to_logical_spec, size_to_physical_spec, PhySize, Scale, Size};

verus! {

/// Logical size, physical size, and the scale factor that relates
/// them. Derived once when a window opens and recomputed whenever the
/// native system reports a resize; the scale factor itself never
/// changes except through such a notification.
#[derive(Clone, Copy, Debug, PartialEq, Eq, Structural)]
pub struct WindowInfo {
    pub logical: Size,
    pub physical: PhySize,
    pub factor: Scale,
}

impl WindowInfo {
    pub open spec fn wf(self) -> bool {
        self.factor.wf()
    }

    /// Builds window info from a requested logical size: the logical
    /// size is kept as given and the physical size is derived from it.
    pub fn from_logical_size(size: Size, factor: Scale) -> (r: WindowInfo)
        requires
            factor.wf(),
        ensures
            r.logical == size,
            r.physical == size_to_physical_spec(size, factor),
            r.factor == factor,
            r.wf(),
    {
        WindowInfo { logical: size, physical: size.to_physical(factor), factor }
    }

    /// Builds window info from a physical size reported by the native
    /// system: the logical size is derived by dividing out the scale.
    pub fn from_physical_size(size: PhySize, factor: Scale) -> (r: WindowInfo)
        requires
            factor.wf(),
        ensures
            r.physical == size,
            r.logical == size_to_logical_spec(size, factor),
            r.factor == factor,
            r.wf(),
    {
        WindowInfo { logical: size.to_logical(factor), physical: size, factor }
    }

    /// The size of the window in logical pixels.
    pub fn logical_size(&self) -> (r: Size)
        ensures
            r == self.logical,
    {
        self.logical
    }

    /// The size of the window in physical pixels.
    pub fn physical_size(&self) -> (r: PhySize)
        ensures
            r == self.physical,
    {
        self.physical
    }

    /// The scale factor between logical and physical pixels.
    pub fn scale(&self) -> (r: Scale)
        ensures
            r == self.factor,
    {
        self.factor
    }
}

} // verus!
