use vstd::prelude::*;

verus! {

/// A native floating-point scalar. The library never computes with scalars: it
/// carries them to the engine, either as the bits of a 32-bit IEEE value or as an
/// integer that the engine converts itself.
#[derive(Clone, Copy, Debug, PartialEq, Eq, Structural)]
pub enum Scalar {
    Bits(u32),
    Int(i32),
}

impl Scalar {
    pub fn from_bits(bits: u32) -> (r: Scalar)
        ensures
            r == Scalar::Bits(bits),
    {
        Scalar::Bits(bits)
    }

    pub fn from_int(v: i32) -> (r: Scalar)
        ensures
            r == Scalar::Int(v),
    {
        Scalar::Int(v)
    }
}

/// An integer rectangle, edges left/top inclusive and right/bottom exclusive.
#[derive(Clone, Copy, Debug, PartialEq, Eq, Structural)]
pub struct IRect {
    pub left: i32,
    pub top: i32,
    pub right: i32,
    pub bottom: i32,
}

impl IRect {
    pub fn new(left: i32, top: i32, right: i32, bottom: i32) -> (r: IRect)
        ensures
            r == (IRect { left, top, right, bottom }),
    {
        IRect { left, top, right, bottom }
    }
}

/// A scalar rectangle.
#[derive(Clone, Copy, Debug, PartialEq, Eq, Structural)]
pub struct Rect {
    pub left: Scalar,
    pub top: Scalar,
    pub right: Scalar,
    pub bottom: Scalar,
}

impl Rect {
    pub fn new(left: Scalar, top: Scalar, right: Scalar, bottom: Scalar) -> (r: Rect)
        ensures
            r == (Rect { left, top, right, bottom }),
    {
        Rect { left, top, right, bottom }
    }

    /// The rectangle at the origin with the given integer width and height.
    pub open spec fn spec_from_iwh(w: i32, h: i32) -> Rect {
        Rect {
            left: Scalar::Int(0),
            top: Scalar::Int(0),
            right: Scalar::Int(w),
            bottom: Scalar::Int(h),
        }
    }

    pub fn from_iwh(w: i32, h: i32) -> (r: Rect)
        ensures
            r == Rect::spec_from_iwh(w, h),
    {
        Rect { left: Scalar::Int(0), top: Scalar::Int(0), right: Scalar::Int(w), bottom: Scalar::Int(h) }
    }
}

#[derive(Clone, Copy, Debug, PartialEq, Eq, Structural)]
pub struct ISize {
    pub width: i32,
    pub height: i32,
}

impl ISize {
    pub fn new(width: i32, height: i32) -> (r: ISize)
        ensures
            r == (ISize { width, height }),
    {
        ISize { width, height }
    }
}

#[derive(Clone, Copy, Debug, PartialEq, Eq, Structural)]
pub struct IPoint {
    pub x: i32,
    pub y: i32,
}

impl IPoint {
    pub fn new(x: i32, y: i32) -> (r: IPoint)
        ensures
            r == (IPoint { x, y }),
    {
        IPoint { x, y }
    }
}

/// A two-dimensional offset.
#[derive(Clone, Copy, Debug, PartialEq, Eq, Structural)]
pub struct Vector {
    pub x: Scalar,
    pub y: Scalar,
}

impl Vector {
    pub fn new(x: Scalar, y: Scalar) -> (r: Vector)
        ensures
            r == (Vector { x, y }),
    {
        Vector { x, y }
    }
}

#[derive(Clone, Copy, Debug, PartialEq, Eq, Structural)]
pub struct Point3 {
    pub x: Scalar,
    pub y: Scalar,
    pub z: Scalar,
}

impl Point3 {
    pub fn new(x: Scalar, y: Scalar, z: Scalar) -> (r: Point3)
        ensures
            r == (Point3 { x, y, z }),
    {
        Point3 { x, y, z }
    }
}

/// A 32-bit ARGB color.
#[derive(Clone, Copy, Debug, PartialEq, Eq, Structural)]
pub struct Color {
    pub argb: u32,
}

impl Color {
    pub fn new(argb: u32) -> (r: Color)
        ensures
            r == (Color { argb }),
    {
        Color { argb }
    }
}

/// A 3x3 transformation matrix, row by row.
#[derive(Clone, Copy, Debug, PartialEq, Eq, Structural)]
pub struct Matrix {
    pub scale_x: Scalar,
    pub skew_x: Scalar,
    pub trans_x: Scalar,
    pub skew_y: Scalar,
    pub scale_y: Scalar,
    pub trans_y: Scalar,
    pub persp_0: Scalar,
    pub persp_1: Scalar,
    pub persp_2: Scalar,
}

#[derive(Clone, Copy, Debug, PartialEq, Eq, Structural)]
pub enum TileMode {
    Clamp,
    Repeat,
    Mirror,
    Decal,
}

#[derive(Clone, Copy, Debug, PartialEq, Eq, Structural)]
pub enum FilterQuality {
    Nearest,
    Low,
    Medium,
    High,
}

#[derive(Clone, Copy, Debug, PartialEq, Eq, Structural)]
pub enum ColorChannel {
    R,
    G,
    B,
    A,
}

#[derive(Clone, Copy, Debug, PartialEq, Eq, Structural)]
pub enum BlendMode {
    Clear,
    Src,
    Dst,
    SrcOver,
    DstOver,
    SrcIn,
    DstIn,
    SrcOut,
    DstOut,
    SrcATop,
    DstATop,
    Xor,
    Plus,
    Modulate,
    Screen,
    Overlay,
    Darken,
    Lighten,
    ColorDodge,
    ColorBurn,
    HardLight,
    SoftLight,
    Difference,
    Exclusion,
    Multiply,
    Hue,
    Saturation,
    Color,
    Luminosity,
}

/// The paint settings a paint-filling filter carries.
#[derive(Clone, Copy, Debug, PartialEq, Eq, Structural)]
pub struct Paint {
    pub color: Color,
    pub blend_mode: BlendMode,
    pub anti_alias: bool,
}

/// A set of pixels, as the integer rectangles whose union it is.
#[derive(Debug)]
pub struct Region {
    pub rects: Vec<IRect>,
}

impl Region {
    pub fn new(rects: Vec<IRect>) -> (r: Region)
        ensures
            r.rects@ == rects@,
    {
        Region { rects }
    }
}

} // verus!
