//! Fixed-point scalar and small vector types.
//!
//! Every scalar quantity of the scene (positions, colors, wave amplitudes,
//! radii, …) is carried as an integer number of thousandths, written as the
//! type alias [`Milli`].  The engine never performs arithmetic on these
//! quantities — it only copies them between payloads, the document and the
//! live state — so the fixed-point choice is purely a representation of the
//! boundary values.  One whole unit is [`MILLI_ONE`].

use vstd::prelude::*;

verus! {

/// A scalar in thousandths of a unit.
pub type Milli = i64;

/// The number of milli-units in one whole unit.
pub const MILLI_ONE: i64 = 1000;

/// A three-component vector (position, rotation in degrees, scale, color).
#[derive(Clone, Copy, Debug, PartialEq, Eq, Structural)]
pub struct Vec3 {
    pub x: Milli,
    pub y: Milli,
    pub z: Milli,
}

/// A two-component vector (wave directions, feature centers).
#[derive(Clone, Copy, Debug, PartialEq, Eq, Structural)]
pub struct Vec2 {
    pub x: Milli,
    pub y: Milli,
}

/// An RGBA color; each channel in thousandths, `1000` meaning full.
#[derive(Clone, Copy, Debug, PartialEq, Eq, Structural)]
pub struct Color4 {
    pub r: Milli,
    pub g: Milli,
    pub b: Milli,
    pub a: Milli,
}

impl Vec3 {
    /// The zero vector: default position and rotation.
    pub open spec fn zero() -> Vec3 {
        Vec3 { x: 0, y: 0, z: 0 }
    }

    /// The unit scale vector.
    pub open spec fn one() -> Vec3 {
        Vec3 { x: MILLI_ONE, y: MILLI_ONE, z: MILLI_ONE }
    }
}

/// An RGB color extended with a fully opaque alpha channel.
pub open spec fn with_full_alpha(c: Vec3) -> Color4 {
    Color4 { r: c.x, g: c.y, b: c.z, a: MILLI_ONE }
}

/// Executable counterpart of [`with_full_alpha`].
pub fn opaque_color(c: Vec3) -> (r: Color4)
    ensures
        r == with_full_alpha(c),
{
    Color4 { r: c.x, g: c.y, b: c.z, a: MILLI_ONE }
}

/// Picks the overriding value when the payload supplies one.
pub open spec fn or_milli(over: Option<Milli>, base: Milli) -> Milli {
    match over {
        Some(v) => v,
        None => base,
    }
}

/// Picks the overriding vector when the payload supplies one.
pub open spec fn or_vec3(over: Option<Vec3>, base: Vec3) -> Vec3 {
    match over {
        Some(v) => v,
        None => base,
    }
}

/// Picks the overriding vector when the payload supplies one.
pub open spec fn or_vec2(over: Option<Vec2>, base: Vec2) -> Vec2 {
    match over {
        Some(v) => v,
        None => base,
    }
}

/// Picks the overriding count when the payload supplies one.
pub open spec fn or_count(over: Option<u32>, base: u32) -> u32 {
    match over {
        Some(v) => v,
        None => base,
    }
}

} // verus!
