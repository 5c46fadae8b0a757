//! Attenuation presets for positional lights.

use vstd::prelude::*;

verus! {

/// Bit pattern of the `f32` value `1.0`.
pub const ONE: u32 = 0x3F80_0000;

/// How far a positional light reaches.
#[derive(Clone, Copy, Debug, PartialEq, Eq, Structural)]
pub enum Strength {
    Weak,
    Medium,
    Strong,
}

/// The constant, linear and quadratic attenuation terms of a preset, each as
/// the bit pattern of an `f32`.
pub open spec fn strength_values(s: Strength) -> (u32, u32, u32) {
    match s {
        // 1.0, 0.22, 0.2
        Strength::Weak => (ONE, 0x3E61_47AEu32, 0x3E4C_CCCDu32),
        // 1.0, 0.09, 0.032
        Strength::Medium => (ONE, 0x3DB8_51ECu32, 0x3D03_126Fu32),
        // 1.0, 0.045, 0.0075
        Strength::Strong => (ONE, 0x3D38_51ECu32, 0x3BF5_C28Fu32),
    }
}

impl Strength {
    /// Attenuation terms `(constant, linear, quadratic)` of this preset.
    pub fn get_values(&self) -> (values: (u32, u32, u32))
        ensures
            values == strength_values(*self),
    {
        match self {
            Strength::Weak => (ONE, 0x3E61_47AE, 0x3E4C_CCCD),
            Strength::Medium => (ONE, 0x3DB8_51EC, 0x3D03_126F),
            Strength::Strong => (ONE, 0x3D38_51EC, 0x3BF5_C28F),
        }
    }
}

} // verus!
