//! Plain values shared by the builders and the views.
//!
//! Real-valued quantities are held as IEEE-754 single-precision bit patterns. The
//! library only stores, copies and compares them; computing with them is left to
//! the GPU backend and to the application shell.
use vstd::prelude::*;

verus! {

/// Bit pattern of the single-precision value `0.0`.
pub const ZERO_BITS: u32 = 0x0000_0000;

/// Bit pattern of the single-precision value `1.0`.
pub const ONE_BITS: u32 = 0x3f80_0000;

/// One single-precision real value, by its bit pattern.
#[derive(Clone, Copy, Debug, PartialEq, Eq, Structural)]
pub struct Scalar {
    pub bits: u32,
}

impl Scalar {
    pub fn zero() -> (s: Scalar)
        ensures
            s.bits == ZERO_BITS,
    {
        Scalar { bits: ZERO_BITS }
    }

    pub fn one() -> (s: Scalar)
        ensures
            s.bits == ONE_BITS,
    {
        Scalar { bits: ONE_BITS }
    }
}

#[derive(Clone, Copy, Debug, PartialEq, Eq, Structural)]
pub struct Vec3 {
    pub x: Scalar,
    pub y: Scalar,
    pub z: Scalar,
}

#[derive(Clone, Copy, Debug, PartialEq, Eq, Structural)]
pub struct Vec4 {
    pub x: Scalar,
    pub y: Scalar,
    pub z: Scalar,
    pub w: Scalar,
}

/// A 4x4 matrix by its columns.
#[derive(Clone, Copy, Debug, PartialEq, Eq, Structural)]
pub struct Mat4 {
    pub x_axis: Vec4,
    pub y_axis: Vec4,
    pub z_axis: Vec4,
    pub w_axis: Vec4,
}

pub open spec fn unit_vec4(i: int) -> Vec4 {
    Vec4 {
        x: Scalar { bits: if i == 0 { ONE_BITS } else { ZERO_BITS } },
        y: Scalar { bits: if i == 1 { ONE_BITS } else { ZERO_BITS } },
        z: Scalar { bits: if i == 2 { ONE_BITS } else { ZERO_BITS } },
        w: Scalar { bits: if i == 3 { ONE_BITS } else { ZERO_BITS } },
    }
}

pub open spec fn identity_mat4() -> Mat4 {
    Mat4 { x_axis: unit_vec4(0), y_axis: unit_vec4(1), z_axis: unit_vec4(2), w_axis: unit_vec4(3) }
}

fn unit_axis(i: u8) -> (v: Vec4)
    requires
        i < 4,
    ensures
        v == unit_vec4(i as int),
{
    Vec4 {
        x: if i == 0 { Scalar::one() } else { Scalar::zero() },
        y: if i == 1 { Scalar::one() } else { Scalar::zero() },
        z: if i == 2 { Scalar::one() } else { Scalar::zero() },
        w: if i == 3 { Scalar::one() } else { Scalar::zero() },
    }
}

impl Mat4 {
    pub fn identity() -> (m: Mat4)
        ensures
            m == identity_mat4(),
    {
        Mat4 { x_axis: unit_axis(0), y_axis: unit_axis(1), z_axis: unit_axis(2), w_axis: unit_axis(3) }
    }
}

/// A rotation quaternion.
#[derive(Clone, Copy, Debug, PartialEq, Eq, Structural)]
pub struct Quat {
    pub x: Scalar,
    pub y: Scalar,
    pub z: Scalar,
    pub w: Scalar,
}

/// A rigid transform: a rotation followed by a translation.
#[derive(Clone, Copy, Debug, PartialEq, Eq, Structural)]
pub struct IsoTransform {
    pub rotation: Quat,
    pub translation: Vec3,
}

/// An 8-bit-per-channel color with alpha.
#[derive(Clone, Copy, Debug, PartialEq, Eq, Structural)]
pub struct Color32 {
    pub r: u8,
    pub g: u8,
    pub b: u8,
    pub a: u8,
}

impl Color32 {
    pub fn from_rgb(r: u8, g: u8, b: u8) -> (c: Color32)
        ensures
            c == (Color32 { r, g, b, a: 255 }),
    {
        Color32 { r, g, b, a: 255 }
    }

    pub fn white() -> (c: Color32)
        ensures
            c == (Color32 { r: 255, g: 255, b: 255, a: 255 }),
    {
        Color32 { r: 255, g: 255, b: 255, a: 255 }
    }
}

/// A real-valued color with alpha, as used for clearing a render target.
#[derive(Clone, Copy, Debug, PartialEq, Eq, Structural)]
pub struct Rgba {
    pub r: Scalar,
    pub g: Scalar,
    pub b: Scalar,
    pub a: Scalar,
}

impl Rgba {
    pub open spec fn transparent_spec() -> Rgba {
        Rgba {
            r: Scalar { bits: ZERO_BITS },
            g: Scalar { bits: ZERO_BITS },
            b: Scalar { bits: ZERO_BITS },
            a: Scalar { bits: ZERO_BITS },
        }
    }

    pub fn transparent() -> (c: Rgba)
        ensures
            c == Rgba::transparent_spec(),
    {
        Rgba { r: Scalar::zero(), g: Scalar::zero(), b: Scalar::zero(), a: Scalar::zero() }
    }
}

/// A radius, either in world units of the scene or in screen-space points. The two
/// unit spaces are never converted into one another.
#[derive(Clone, Copy, Debug, PartialEq, Eq, Structural)]
pub enum Size {
    Scene(Scalar),
    Points(Scalar),
}

impl Size {
    pub fn new_scene(s: Scalar) -> (r: Size)
        ensures
            r == Size::Scene(s),
    {
        Size::Scene(s)
    }

    pub fn new_points(s: Scalar) -> (r: Size)
        ensures
            r == Size::Points(s),
    {
        Size::Points(s)
    }

    pub fn is_points(&self) -> (r: bool)
        ensures
            r == (*self is Points),
    {
        match self {
            Size::Points(_) => true,
            Size::Scene(_) => false,
        }
    }
}

} // verus!
