//! Sizes, points, and the logical/physical scale factor.
//!
//! Scale factors are kept in fixed point, in thousandths: a `Scale` of
//! 1000 maps logical pixels one to one onto physical pixels, 2000
//! doubles every dimension. Conversions round half away from zero and
//! saturate at the machine bounds of the coordinate types.

use vstd::prelude::*;

verus! {

/// Fixed-point scale factor between logical and physical pixels,
/// in thousandths. Well-formed scales are strictly positive.
#[derive(Clone, Copy, Debug, PartialEq, Eq, Structural)]
pub struct Scale {
    pub millis: u32,
}

/// The 1:1 scale factor, in thousandths.
pub const SCALE_ONE_MILLIS: u32 = 1000;

impl Scale {
    /// A scale is usable only if it is strictly positive.
    pub open spec fn wf(self) -> bool {
        self.millis >= 1
    }

    /// Builds a scale from thousandths; a zero request is clamped up to
    /// the smallest positive scale so the result is always well-formed.
    pub fn new(millis: u32) -> (r: Scale)
        ensures
            r.millis == if millis == 0 { 1u32 } else { millis },
            r.wf(),
    {
        if millis == 0 {
            Scale { millis: 1 }
        } else {
            Scale { millis }
        }
    }

    /// The 1:1 scale.
    pub fn one() -> (r: Scale)
        ensures
            r.millis == SCALE_ONE_MILLIS,
            r.wf(),
    {
        Scale { millis: SCALE_ONE_MILLIS }
    }

    /// The scale factor a reported font-resolution value stands for,
    /// against the 96-dots-per-inch baseline: 96 is 1:1, 192 doubles
    /// every dimension. Rounds half up, clamps up to the smallest
    /// positive scale, and saturates at the largest.
    pub fn from_dpi(dpi: u32) -> (r: Scale)
        ensures
            r.millis == ({
                let exact = dpi_to_millis_int(dpi as int);
                if exact < 1 {
                    1u32
                } else if exact > u32::MAX as int {
                    u32::MAX
                } else {
                    exact as u32
                }
            }),
            r.wf(),
    {
        let wide: u64 = (dpi as u64) * 1000 + 48;
        let q: u64 = wide / 96;
        if q < 1 {
            Scale { millis: 1 }
        } else if q > u32::MAX as u64 {
            Scale { millis: u32::MAX }
        } else {
            Scale { millis: q as u32 }
        }
    }
}

/// The scale in thousandths that a dots-per-inch value names, relative
/// to the 96-dpi baseline, rounding half up.
pub open spec fn dpi_to_millis_int(dpi: int) -> int {
    (dpi * 1000 + 48) / 96
}

/// Logical-to-physical conversion of one nonnegative extent, as a
/// mathematical integer: multiply by the scale and round half up.
pub open spec fn scale_up_int(v: int, millis: int) -> int {
    (v * millis + 500) / 1000
}

/// Physical-to-logical conversion of one nonnegative extent, as a
/// mathematical integer: divide by the scale and round half up.
pub open spec fn scale_down_int(v: int, millis: int) -> int {
    (v * 1000 + millis / 2) / millis
}

/// Logical-to-physical conversion of an extent, saturating at `u32::MAX`.
pub open spec fn scale_up_spec(v: u32, s: Scale) -> u32 {
    if scale_up_int(v as int, s.millis as int) > u32::MAX as int {
        u32::MAX
    } else {
        scale_up_int(v as int, s.millis as int) as u32
    }
}

/// Physical-to-logical conversion of an extent, saturating at `u32::MAX`.
pub open spec fn scale_down_spec(v: u32, s: Scale) -> u32 {
    if scale_down_int(v as int, s.millis as int) > u32::MAX as int {
        u32::MAX
    } else {
        scale_down_int(v as int, s.millis as int) as u32
    }
}

/// Multiplies a logical extent by a scale, rounding half up and
/// saturating at `u32::MAX`.
pub fn scale_up(v: u32, s: Scale) -> (r: u32)
    requires
        s.wf(),
    ensures
        r == scale_up_spec(v, s),
{
    proof {
        assert((v as u64) * (s.millis as u64) <= (u32::MAX as u64) * (u32::MAX as u64))
            by (nonlinear_arith)
            requires
                v <= u32::MAX,
                s.millis <= u32::MAX,
        ;
    }
    let wide: u64 = (v as u64) * (s.millis as u64) + 500;
    let q: u64 = wide / 1000;
    if q > u32::MAX as u64 {
        u32::MAX
    } else {
        q as u32
    }
}

/// Divides a physical extent by a scale, rounding half up and
/// saturating at `u32::MAX`.
pub fn scale_down(v: u32, s: Scale) -> (r: u32)
    requires
        s.wf(),
    ensures
        r == scale_down_spec(v, s),
{
    let wide: u64 = (v as u64) * 1000 + (s.millis as u64) / 2;
    let q: u64 = wide / (s.millis as u64);
    if q > u32::MAX as u64 {
        u32::MAX
    } else {
        q as u32
    }
}

/// Scales one signed coordinate by `1000 / millis` (physical to
/// logical) or by `millis / 1000` (logical to physical), depending on
/// the factor pair handed in: the magnitude is scaled rounding half up,
/// the sign is kept.
pub open spec fn scale_coord_int(v: int, num: int, den: int) -> int {
    if v >= 0 {
        (v * num + den / 2) / den
    } else {
        -(((-v) * num + den / 2) / den)
    }
}

/// Saturates a mathematical integer into the `i32` range.
pub open spec fn clamp_i32_spec(v: int) -> i32 {
    if v > i32::MAX as int {
        i32::MAX
    } else if v < i32::MIN as int {
        i32::MIN
    } else {
        v as i32
    }
}

/// Physical-to-logical conversion of one signed coordinate,
/// saturating at the `i32` bounds.
pub open spec fn coord_to_logical_spec(v: i32, s: Scale) -> i32 {
    clamp_i32_spec(scale_coord_int(v as int, 1000, s.millis as int))
}

/// Logical-to-physical conversion of one signed coordinate,
/// saturating at the `i32` bounds.
pub open spec fn coord_to_physical_spec(v: i32, s: Scale) -> i32 {
    clamp_i32_spec(scale_coord_int(v as int, s.millis as int, 1000))
}

/// Scales the magnitude of a signed coordinate by `num / den`,
/// rounding half up, and reapplies the sign, saturating at the `i32`
/// bounds.
fn scale_coord(v: i32, num: u32, den: u32) -> (r: i32)
    requires
        den >= 1,
    ensures
        r == clamp_i32_spec(scale_coord_int(v as int, num as int, den as int)),
{
    let neg: bool = v < 0;
    let mag: u64 = if neg {
        (-(v as i64)) as u64
    } else {
        v as u64
    };
    proof {
        assert(mag * (num as u64) <= (u32::MAX as u64 + 1) * (u32::MAX as u64)) by (nonlinear_arith)
            requires
                mag <= u32::MAX as u64 + 1,
                num <= u32::MAX,
        ;
    }
    let wide: u64 = mag * (num as u64) + (den as u64) / 2;
    let q: u64 = wide / (den as u64);
    if neg {
        if q > 2147483648u64 {
            i32::MIN
        } else {
            (-(q as i64)) as i32
        }
    } else {
        if q > i32::MAX as u64 {
            i32::MAX
        } else {
            q as i32
        }
    }
}

/// A size in logical pixels.
#[derive(Clone, Copy, Debug, PartialEq, Eq, Structural)]
pub struct Size {
    pub width: u32,
    pub height: u32,
}

/// A size in physical pixels.
#[derive(Clone, Copy, Debug, PartialEq, Eq, Structural)]
pub struct PhySize {
    pub width: u32,
    pub height: u32,
}

/// A point in logical pixels.
#[derive(Clone, Copy, Debug, PartialEq, Eq, Structural)]
pub struct Point {
    pub x: i32,
    pub y: i32,
}

/// A point in physical pixels.
#[derive(Clone, Copy, Debug, PartialEq, Eq, Structural)]
pub struct PhyPoint {
    pub x: i32,
    pub y: i32,
}

/// The physical size that a logical size maps to under a scale.
pub open spec fn size_to_physical_spec(s: Size, sc: Scale) -> PhySize {
    PhySize { width: scale_up_spec(s.width, sc), height: scale_up_spec(s.height, sc) }
}

/// The logical size that a physical size maps to under a scale.
pub open spec fn size_to_logical_spec(p: PhySize, sc: Scale) -> Size {
    Size { width: scale_down_spec(p.width, sc), height: scale_down_spec(p.height, sc) }
}

/// The physical point that a logical point maps to under a scale.
pub open spec fn point_to_physical_spec(p: Point, sc: Scale) -> PhyPoint {
    PhyPoint { x: coord_to_physical_spec(p.x, sc), y: coord_to_physical_spec(p.y, sc) }
}

/// The logical point that a physical point maps to under a scale.
pub open spec fn point_to_logical_spec(p: PhyPoint, sc: Scale) -> Point {
    Point { x: coord_to_logical_spec(p.x, sc), y: coord_to_logical_spec(p.y, sc) }
}

impl Size {
    pub fn new(width: u32, height: u32) -> (r: Size)
        ensures
            r == (Size { width, height }),
    {
        Size { width, height }
    }

    /// Converts this logical size to physical pixels under `scale`.
    pub fn to_physical(&self, scale: Scale) -> (r: PhySize)
        requires
            scale.wf(),
        ensures
            r == size_to_physical_spec(*self, scale),
    {
        PhySize { width: scale_up(self.width, scale), height: scale_up(self.height, scale) }
    }
}

impl PhySize {
    pub fn new(width: u32, height: u32) -> (r: PhySize)
        ensures
            r == (PhySize { width, height }),
    {
        PhySize { width, height }
    }

    /// Converts this physical size to logical pixels under `scale`.
    pub fn to_logical(&self, scale: Scale) -> (r: Size)
        requires
            scale.wf(),
        ensures
            r == size_to_logical_spec(*self, scale),
    {
        Size { width: scale_down(self.width, scale), height: scale_down(self.height, scale) }
    }
}

impl Point {
    pub fn new(x: i32, y: i32) -> (r: Point)
        ensures
            r == (Point { x, y }),
    {
        Point { x, y }
    }

    /// Converts this logical point to physical pixels under `scale`.
    pub fn to_physical(&self, scale: Scale) -> (r: PhyPoint)
        requires
            scale.wf(),
        ensures
            r == point_to_physical_spec(*self, scale),
    {
        PhyPoint {
            x: scale_coord(self.x, scale.millis, 1000),
            y: scale_coord(self.y, scale.millis, 1000),
        }
    }
}

impl PhyPoint {
    pub fn new(x: i32, y: i32) -> (r: PhyPoint)
        ensures
            r == (PhyPoint { x, y }),
    {
        PhyPoint { x, y }
    }

    /// Converts this physical point to logical pixels under `scale`.
    pub fn to_logical(&self, scale: Scale) -> (r: Point)
        requires
            scale.wf(),
        ensures
            r == point_to_logical_spec(*self, scale),
    {
        Point {
            x: scale_coord(self.x, 1000, scale.millis),
            y: scale_coord(self.y, 1000, scale.millis),
        }
    }
}

} // verus!
