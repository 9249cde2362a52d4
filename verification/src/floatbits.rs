//! IEEE 754 single-precision values as bit patterns, and the exact integer
//! form of the float rules the format depends on: finiteness, the
//! absolute-value/lower-bound clamp on scales, and the writer's
//! "approximately the invalid sentinel" test.

use vstd::prelude::*;

verus! {

/// Bits of `0.0f32`.
pub const F32_ZERO: u32 = 0;

/// Bits of `1.0f32`.
pub const F32_ONE: u32 = 0x3F80_0000;

/// Bits of `1e-5f32`, the smallest magnitude a read scale component keeps.
pub const F32_SCALE_FLOOR: u32 = 0x3727_C5AC;

/// Bits of `-10000.0f32`, the invalid-value sentinel for float fields.
pub const F32_INVALID: u32 = 0xC61C_4000;

/// Smallest bit pattern that counts as approximately the sentinel.
pub const F32_INVALID_LO: u32 = 0xC61C_3FF6;

/// Largest bit pattern that counts as approximately the sentinel.
pub const F32_INVALID_HI: u32 = 0xC61C_400A;

/// The exponent field is not all ones: the value is neither an infinity
/// nor a NaN.
pub open spec fn f32_finite_bits(b: u32) -> bool {
    (b >> 23) & 0xFF != 0xFF
}

/// Bits of the absolute value: the sign bit cleared.
pub open spec fn f32_abs_bits(b: u32) -> u32 {
    b & 0x7FFF_FFFF
}

/// Whether the value lies within the engine's tolerance of the `-10000.0`
/// sentinel: a relative tolerance of `1e-6` times the larger magnitude,
/// floored at eight times the machine epsilon. Around `-10000.0` that
/// tolerance spans exactly the bit patterns from [`F32_INVALID_LO`] to
/// [`F32_INVALID_HI`]; no NaN, infinity, or value of other sign is within
/// it.
pub open spec fn f32_approx_invalid(b: u32) -> bool {
    F32_INVALID_LO <= b <= F32_INVALID_HI
}

/// The clamp a read scale component goes through: absolute value, floored
/// at `1e-5`. On finite bits, unsigned order of nonnegative patterns is
/// the order of the values they denote, so the comparison is exact.
pub open spec fn f32_scale_clamp(b: u32) -> u32 {
    if f32_abs_bits(b) < F32_SCALE_FLOOR {
        F32_SCALE_FLOOR
    } else {
        f32_abs_bits(b)
    }
}

pub fn f32_is_finite_bits(b: u32) -> (r: bool)
    ensures
        r == f32_finite_bits(b),
{
    (b >> 23) & 0xFF != 0xFF
}

pub fn f32_is_approx_invalid(b: u32) -> (r: bool)
    ensures
        r == f32_approx_invalid(b),
{
    F32_INVALID_LO <= b && b <= F32_INVALID_HI
}

pub fn f32_clamp_scale(b: u32) -> (r: u32)
    ensures
        r == f32_scale_clamp(b),
{
    let a = b & 0x7FFF_FFFF;
    if a < F32_SCALE_FLOOR {
        F32_SCALE_FLOOR
    } else {
        a
    }
}

/// A three-component float vector, each component an f32 bit pattern.
#[derive(Debug, Clone, Copy, PartialEq, Eq, Hash, Structural)]
pub struct Vector3 {
    pub x: u32,
    pub y: u32,
    pub z: u32,
}

/// A quaternion, each component an f32 bit pattern; `w` is the scalar part.
#[derive(Debug, Clone, Copy, PartialEq, Eq, Hash, Structural)]
pub struct Quaternion {
    pub x: u32,
    pub y: u32,
    pub z: u32,
    pub w: u32,
}

/// An r,g,b,a color, each channel an f32 bit pattern.
#[derive(Debug, Clone, Copy, PartialEq, Eq, Hash, Structural)]
pub struct Color {
    pub r: u32,
    pub g: u32,
    pub b: u32,
    pub a: u32,
}

impl Color {
    pub fn new(r: u32, g: u32, b: u32, a: u32) -> (c: Color)
        ensures
            c == (Color { r, g, b, a }),
    {
        Color { r, g, b, a }
    }
}

/// The all-zeros vector.
pub fn zeros_vector3() -> (v: Vector3)
    ensures
        v == spec_zeros_vector3(),
{
    Vector3 { x: F32_ZERO, y: F32_ZERO, z: F32_ZERO }
}

pub open spec fn spec_zeros_vector3() -> Vector3 {
    Vector3 { x: F32_ZERO, y: F32_ZERO, z: F32_ZERO }
}

/// The all-ones vector.
pub fn ones_vector3() -> (v: Vector3)
    ensures
        v == spec_ones_vector3(),
{
    Vector3 { x: F32_ONE, y: F32_ONE, z: F32_ONE }
}

pub open spec fn spec_ones_vector3() -> Vector3 {
    Vector3 { x: F32_ONE, y: F32_ONE, z: F32_ONE }
}

/// The identity rotation `(0, 0, 0, 1)`.
pub fn default_quaternion() -> (q: Quaternion)
    ensures
        q == spec_default_quaternion(),
{
    Quaternion { x: F32_ZERO, y: F32_ZERO, z: F32_ZERO, w: F32_ONE }
}

pub open spec fn spec_default_quaternion() -> Quaternion {
    Quaternion { x: F32_ZERO, y: F32_ZERO, z: F32_ZERO, w: F32_ONE }
}

/// Opaque white, the color every material color field starts from.
pub fn white_color() -> (c: Color)
    ensures
        c == (Color { r: F32_ONE, g: F32_ONE, b: F32_ONE, a: F32_ONE }),
{
    Color { r: F32_ONE, g: F32_ONE, b: F32_ONE, a: F32_ONE }
}

/// All components finite.
pub open spec fn vector3_finite(v: Vector3) -> bool {
    f32_finite_bits(v.x) && f32_finite_bits(v.y) && f32_finite_bits(v.z)
}

/// All components finite.
pub open spec fn quaternion_finite(q: Quaternion) -> bool {
    f32_finite_bits(q.x) && f32_finite_bits(q.y) && f32_finite_bits(q.z) && f32_finite_bits(q.w)
}

/// Componentwise approximately the sentinel vector.
pub open spec fn vector3_approx_invalid(v: Vector3) -> bool {
    f32_approx_invalid(v.x) && f32_approx_invalid(v.y) && f32_approx_invalid(v.z)
}

/// Componentwise approximately the sentinel quaternion.
pub open spec fn quaternion_approx_invalid(q: Quaternion) -> bool {
    f32_approx_invalid(q.x) && f32_approx_invalid(q.y) && f32_approx_invalid(q.z)
        && f32_approx_invalid(q.w)
}

pub fn vector3_is_finite(v: &Vector3) -> (r: bool)
    ensures
        r == vector3_finite(*v),
{
    f32_is_finite_bits(v.x) && f32_is_finite_bits(v.y) && f32_is_finite_bits(v.z)
}

pub fn quaternion_is_finite(q: &Quaternion) -> (r: bool)
    ensures
        r == quaternion_finite(*q),
{
    f32_is_finite_bits(q.x) && f32_is_finite_bits(q.y) && f32_is_finite_bits(q.z)
        && f32_is_finite_bits(q.w)
}

pub fn vector3_is_approx_invalid(v: &Vector3) -> (r: bool)
    ensures
        r == vector3_approx_invalid(*v),
{
    f32_is_approx_invalid(v.x) && f32_is_approx_invalid(v.y) && f32_is_approx_invalid(v.z)
}

pub fn quaternion_is_approx_invalid(q: &Quaternion) -> (r: bool)
    ensures
        r == quaternion_approx_invalid(*q),
{
    f32_is_approx_invalid(q.x) && f32_is_approx_invalid(q.y) && f32_is_approx_invalid(q.z)
        && f32_is_approx_invalid(q.w)
}

/// The sentinel value itself reads as approximately invalid, and ordinary
/// values do not: absence written as the sentinel comes back as absence.
pub proof fn lemma_sentinel_is_approx_invalid()
    ensures
        f32_approx_invalid(F32_INVALID),
        !f32_approx_invalid(F32_ZERO),
        !f32_approx_invalid(F32_ONE),
{
}

} // verus!
