//! The uniform parameter set: every user-adjustable render parameter.
//!
//! Fractional parameters are carried in fixed-point units — thousandths for
//! dimensionless values (`*_milli`) and thousandths of a degree for angles
//! (`*_millideg`) — so that every value is exact. The driver converts them
//! to the floating-point values the shaders consume. Values outside the UI
//! ranges are accepted as they are: the shaders clamp, the pipeline never
//! rejects a parameter.

use vstd::prelude::*;

verus! {

/// An RGB color in thousandths per channel (0 is black, 1000 is full).
#[derive(Debug, Clone, Copy, PartialEq, Eq, Structural)]
pub struct ColorMilli {
    pub r: u16,
    pub g: u16,
    pub b: u16,
}

/// A flat record of every render parameter, mutated by the caller between
/// frames and read by the pipeline during one render call.
#[derive(Debug, Clone, Copy, PartialEq, Eq, Structural)]
pub struct UniformParams {
    // Palette colors
    pub color1: ColorMilli,
    pub color2: ColorMilli,
    pub color3: ColorMilli,
    pub color4: ColorMilli,
    // Pattern parameters
    pub angle_millideg: i32,
    pub scale_milli: i32,
    pub speed_milli: i32,
    pub blend_milli: i32,
    pub distort_type: i32,
    pub distort_strength_milli: i32,
    pub ripple_freq_milli: i32,
    pub noise_milli: i32,
    pub center_milli: i32,
    pub dither: bool,
    // Lighting
    pub lighting_type: i32,
    pub light_strength_milli: i32,
    pub bevel_width_milli: i32,
    pub light_angle_millideg: i32,
    // Blur post-processing
    pub blur_type: i32,
    pub blur_strength_milli: i32,
    pub blur_angle_millideg: i32,
    // Bloom post-processing
    pub bloom_threshold_milli: i32,
    pub bloom_intensity_milli: i32,
    pub bloom_enabled: bool,
    // Chromatic-aberration post-processing
    pub chromatic_strength_milli: i32,
    pub chromatic_angle_millideg: i32,
    pub chromatic_enabled: bool,
}

impl UniformParams {
    /// The defaults every parameter starts from: a warm four-color palette,
    /// a 45-degree angle, and every post-processing effect switched off.
    pub open spec fn spec_default() -> UniformParams {
        UniformParams {
            color1: ColorMilli { r: 800, g: 330, b: 0 },
            color2: ColorMilli { r: 930, g: 530, b: 70 },
            color3: ColorMilli { r: 1000, g: 750, b: 150 },
            color4: ColorMilli { r: 1000, g: 920, b: 350 },
            angle_millideg: 45_000,
            scale_milli: 1_000,
            speed_milli: 1_000,
            blend_milli: 500,
            distort_type: 0,
            distort_strength_milli: 0,
            ripple_freq_milli: 2_500,
            noise_milli: 0,
            center_milli: 0,
            dither: false,
            lighting_type: 0,
            light_strength_milli: 0,
            bevel_width_milli: 50,
            light_angle_millideg: -45_000i32,
            blur_type: 0,
            blur_strength_milli: 500,
            blur_angle_millideg: 0,
            bloom_threshold_milli: 500,
            bloom_intensity_milli: 1_000,
            bloom_enabled: false,
            chromatic_strength_milli: 0,
            chromatic_angle_millideg: 0,
            chromatic_enabled: false,
        }
    }
}

impl Default for UniformParams {
    fn default() -> (r: Self)
        ensures
            r == UniformParams::spec_default(),
    {
        UniformParams {
            color1: ColorMilli { r: 800, g: 330, b: 0 },
            color2: ColorMilli { r: 930, g: 530, b: 70 },
            color3: ColorMilli { r: 1000, g: 750, b: 150 },
            color4: ColorMilli { r: 1000, g: 920, b: 350 },
            angle_millideg: 45_000,
            scale_milli: 1_000,
            speed_milli: 1_000,
            blend_milli: 500,
            distort_type: 0,
            distort_strength_milli: 0,
            ripple_freq_milli: 2_500,
            noise_milli: 0,
            center_milli: 0,
            dither: false,
            lighting_type: 0,
            light_strength_milli: 0,
            bevel_width_milli: 50,
            light_angle_millideg: -45_000i32,
            blur_type: 0,
            blur_strength_milli: 500,
            blur_angle_millideg: 0,
            bloom_threshold_milli: 500,
            bloom_intensity_milli: 1_000,
            bloom_enabled: false,
            chromatic_strength_milli: 0,
            chromatic_angle_millideg: 0,
            chromatic_enabled: false,
        }
    }
}

} // verus!
