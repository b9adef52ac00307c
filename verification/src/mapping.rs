//! Parameter mapping functions: translate a 7-bit controller value
//! (0..=127) into a sketch parameter's own domain.
//!
//! Parameter values are exact rationals with a fixed denominator per
//! family, so the asymmetry of the bipolar curve (0 -> -1, 127 -> 63/64)
//! is kept exactly. A renderer divides numerator by denominator once per
//! frame, outside this library.

use vstd::prelude::*;

verus! {

/// Denominator of a [`UnitValue`]: the largest 7-bit controller value.
pub const UNIT_DENOMINATOR: u8 = 127;

/// Denominator of a [`BipolarValue`]: the centre of the 7-bit range.
pub const BIPOLAR_DENOMINATOR: u8 = 64;

/// Denominator of a [`SpeedValue`]: 4 * 127 * 127.
pub const SPEED_DENOMINATOR: u32 = 64516;

/// Numerator of the speed curve's smallest value, a quarter:
/// 16129 / 64516.
pub const SPEED_MIN_NUMERATOR: u32 = 16129;

/// Numerator of the speed curve's largest value, four:
/// 258064 / 64516.
pub const SPEED_MAX_NUMERATOR: u32 = 258064;

/// A parameter value in the unit interval: the exact rational
/// `num / 127`, used for weights, opacities and the like.
#[derive(Clone, Copy, Debug, PartialEq, Eq, Structural)]
pub struct UnitValue {
    pub num: u8,
}

/// A parameter value in `[-1, 63/64]`: the exact rational `num / 64`,
/// centred so that a controller value of 64 is exactly zero.
#[derive(Clone, Copy, Debug, PartialEq, Eq, Structural)]
pub struct BipolarValue {
    pub num: i8,
}

/// A speed multiplier in `[1/4, 4]`: the exact rational `num / 64516`.
#[derive(Clone, Copy, Debug, PartialEq, Eq, Structural)]
pub struct SpeedValue {
    pub num: u32,
}

impl UnitValue {
    /// The value lies in `[0, 1]`: the numerator is at most the
    /// denominator.
    pub open spec fn wf(self) -> bool {
        self.num <= 127
    }
}

impl BipolarValue {
    /// The value lies in `[-1, 63/64]`: the numerator is between -64
    /// and 63.
    pub open spec fn wf(self) -> bool {
        -64 <= self.num <= 63
    }
}

impl SpeedValue {
    /// The value lies in `[1/4, 4]`: the numerator is between the
    /// curve's documented minimum and maximum.
    pub open spec fn wf(self) -> bool {
        16129 <= self.num <= 258064
    }
}

/// Numerator of the linear unit mapping `v / 127`.
pub open spec fn linear_numer(v: int) -> int {
    v
}

/// Numerator of the bipolar mapping `(v - 64) / 64`.
pub open spec fn bipolar_numer(v: int) -> int {
    v - 64
}

/// Numerator of the nonlinear speed curve
/// `1/4 + 15/4 * (v / 127)^2`, over the denominator 64516. The square
/// gives the low half of the knob's travel to the slow speeds.
pub open spec fn speed_numer(v: int) -> int {
    16129 + 15 * (v * v)
}

/// Linear unit mapping: controller value `v` to the rational `v / 127`,
/// in `[0, 1]`.
pub fn linear(v: u8) -> (r: UnitValue)
    requires
        v <= 127,
    ensures
        r.wf(),
        r.num == linear_numer(v as int),
{
    UnitValue { num: v }
}

/// Bipolar centred mapping: controller value `v` to the rational
/// `(v - 64) / 64`, in `[-1, 63/64]`, with 64 mapped to exactly zero.
pub fn bipolar(v: u8) -> (r: BipolarValue)
    requires
        v <= 127,
    ensures
        r.wf(),
        r.num == bipolar_numer(v as int),
{
    BipolarValue { num: (v as i8) - 64 }
}

/// Nonlinear speed mapping: controller value `v` to the rational
/// `(16129 + 15 v^2) / 64516`, in `[1/4, 4]`.
pub fn speed_curve(v: u8) -> (r: SpeedValue)
    requires
        v <= 127,
    ensures
        r.wf(),
        r.num == speed_numer(v as int),
{
    proof {
        assert((v as int) * (v as int) <= 127 * 127) by (nonlinear_arith)
            requires
                v <= 127,
        ;
    }
    let square: u32 = (v as u32) * (v as u32);
    SpeedValue { num: 16129 + 15 * square }
}

/// The linear unit mapping stays in `[0, 1]` over the whole 7-bit
/// domain and is monotonic non-decreasing.
pub proof fn lemma_linear_bounded_monotonic(v1: int, v2: int)
    requires
        0 <= v1 <= v2 <= 127,
    ensures
        0 <= linear_numer(v1) <= 127,
        linear_numer(v1) <= linear_numer(v2),
{
}

/// The bipolar mapping stays in `[-1, 63/64]` over the whole 7-bit
/// domain, is monotonic non-decreasing, sends the centre 64 to exactly
/// zero, and keeps the curve's asymmetry: 0 maps to -1 and 127 to
/// 63/64, not 1.
pub proof fn lemma_bipolar_bounded_centred(v1: int, v2: int)
    requires
        0 <= v1 <= v2 <= 127,
    ensures
        -64 <= bipolar_numer(v1) <= 63,
        bipolar_numer(v1) <= bipolar_numer(v2),
        bipolar_numer(64) == 0,
        bipolar_numer(0) == -64,
        bipolar_numer(127) == 63,
{
}

/// The speed curve stays within its documented bounds, a quarter at
/// controller value 0 and four at 127, and is monotonic non-decreasing.
pub proof fn lemma_speed_curve_bounded_monotonic(v1: int, v2: int)
    requires
        0 <= v1 <= v2 <= 127,
    ensures
        16129 <= speed_numer(v1) <= 258064,
        speed_numer(v1) <= speed_numer(v2),
        speed_numer(0) == 16129,
        speed_numer(127) == 258064,
{
    assert(16129 <= 16129 + 15 * (v1 * v1) <= 258064 && 16129 + 15 * (v1 * v1) <= 16129 + 15 * (v2
        * v2)) by (nonlinear_arith)
        requires
            0 <= v1 <= v2 <= 127,
    ;
}

} // verus!
