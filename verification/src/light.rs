//! Lights: the directional sun light, its GPU wire layout, the keyboard
//! sun controller, and point lights.

use vstd::prelude::*;
use crate::fixed::FX_ONE;
use crate::fixed::abs_int;
use crate::fixed::spec_fx_mul;
use crate::fixed::spec_sin_fx;
use crate::fixed::spec_cos_fx;
use crate::fixed::spec_clamp;
use crate::fixed::fx_mul;
use crate::fixed::sin_fx;
use crate::fixed::cos_fx;
use crate::math::Vec3;
use crate::input::KeyCode;

verus! {

/// One degree in fixed-point radians.
pub const DEG_TO_RAD: i64 = 17_453;

/// The sun controller moves the angles in five-degree steps.
pub const ANGLE_DELTA: i64 = 5_000_000;

/// The sun controller moves the intensity in steps of one tenth.
pub const INTENSITY_DELTA: i64 = 100_000;

/// A quarter turn, in fixed-point degrees.
pub const DEG_90: i64 = 90_000_000;

/// A full turn, in fixed-point degrees.
pub const DEG_360: i64 = 360_000_000;

/// Common operations of every light.
pub trait Light {
    /// The light's RGB color, fixed-point.
    fn get_color(&self) -> Vec3;

    /// Set the light's RGB color.
    fn set_color(&mut self, color: Vec3);

    /// The light's intensity, fixed-point.
    fn get_intensity(&self) -> i64;

    /// Set the light's intensity.
    fn set_intensity(&mut self, intensity: i64);
}

/// A directional light source. Scalars are fixed-point; the GPU wire
/// layout is produced by [`SunLight::to_words`].
#[derive(Clone, Copy, Debug, PartialEq, Eq, Structural)]
pub struct SunLight {
    pub direction: Vec3,
    pub color: Vec3,
    pub intensity: i64,
    pub use_pbr: u32,
    pub metallic_factor: i64,
    pub roughness_factor: i64,
}

/// One 4-byte word of a GPU uniform block: either a fixed-point scalar
/// the collaborator converts to a 32-bit float, or a raw 32-bit word
/// written as-is (integers and padding).
#[derive(Clone, Copy, Debug, PartialEq, Eq, Structural)]
pub enum UniformWord {
    F(i64),
    U(u32),
}

/// The 48-byte sun-light uniform layout, as twelve 4-byte words:
/// direction (3 floats), 4 bytes of padding, color (3 floats), intensity,
/// the PBR flag as a raw word, the metallic and roughness factors, and 4
/// bytes of final padding — 16-byte aligned.
pub open spec fn spec_sun_light_words(s: SunLight) -> Seq<UniformWord> {
    seq![
        UniformWord::F(s.direction.x),
        UniformWord::F(s.direction.y),
        UniformWord::F(s.direction.z),
        UniformWord::U(0u32),
        UniformWord::F(s.color.x),
        UniformWord::F(s.color.y),
        UniformWord::F(s.color.z),
        UniformWord::F(s.intensity),
        UniformWord::U(s.use_pbr),
        UniformWord::F(s.metallic_factor),
        UniformWord::F(s.roughness_factor),
        UniformWord::U(0u32),
    ]
}

impl SunLight {
    /// A new sun light: pointing down and slightly forward, white, full
    /// intensity, PBR disabled, balanced metallic and roughness.
    pub fn new() -> (r: SunLight)
        ensures
            r == (SunLight {
                direction: Vec3 { x: (-500_000) as i64, y: (-FX_ONE) as i64, z: (-300_000) as i64 },
                color: Vec3 { x: FX_ONE, y: FX_ONE, z: FX_ONE },
                intensity: FX_ONE,
                use_pbr: 0,
                metallic_factor: 500_000,
                roughness_factor: 500_000,
            }),
    {
        SunLight {
            direction: Vec3 { x: -500_000, y: -FX_ONE, z: -300_000 },
            color: Vec3 { x: FX_ONE, y: FX_ONE, z: FX_ONE },
            intensity: FX_ONE,
            use_pbr: 0,
            metallic_factor: 500_000,
            roughness_factor: 500_000,
        }
    }

    /// The default sun light: top-down, white, full intensity, PBR
    /// enabled, non-metallic, medium roughness.
    pub fn default_light() -> (r: SunLight)
        ensures
            r == (SunLight {
                direction: Vec3 { x: 0, y: (-FX_ONE) as i64, z: 0 },
                color: Vec3 { x: FX_ONE, y: FX_ONE, z: FX_ONE },
                intensity: FX_ONE,
                use_pbr: 1,
                metallic_factor: 0,
                roughness_factor: 500_000,
            }),
    {
        SunLight {
            direction: Vec3 { x: 0, y: -FX_ONE, z: 0 },
            color: Vec3 { x: FX_ONE, y: FX_ONE, z: FX_ONE },
            intensity: FX_ONE,
            use_pbr: 1,
            metallic_factor: 0,
            roughness_factor: 500_000,
        }
    }

    /// Serialize the light into its twelve-word uniform layout.
    pub fn to_words(&self) -> (r: Vec<UniformWord>)
        ensures
            r@ == spec_sun_light_words(*self),
            r@.len() == 12,
    {
        let mut out: Vec<UniformWord> = Vec::new();
        out.push(UniformWord::F(self.direction.x));
        out.push(UniformWord::F(self.direction.y));
        out.push(UniformWord::F(self.direction.z));
        out.push(UniformWord::U(0));
        out.push(UniformWord::F(self.color.x));
        out.push(UniformWord::F(self.color.y));
        out.push(UniformWord::F(self.color.z));
        out.push(UniformWord::F(self.intensity));
        out.push(UniformWord::U(self.use_pbr));
        out.push(UniformWord::F(self.metallic_factor));
        out.push(UniformWord::F(self.roughness_factor));
        out.push(UniformWord::U(0));
        proof {
            assert(out@ =~= spec_sun_light_words(*self));
        }
        out
    }
}

impl Light for SunLight {
    fn get_color(&self) -> Vec3 {
        self.color
    }

    fn set_color(&mut self, color: Vec3) {
        self.color = color;
    }

    fn get_intensity(&self) -> i64 {
        self.intensity
    }

    fn set_intensity(&mut self, intensity: i64) {
        self.intensity = intensity;
    }
}

/// The sun direction derived from elevation and azimuth (fixed-point
/// degrees): the unit sphere direction, negated vertically so the light
/// points down.
pub open spec fn spec_sun_direction(elevation: int, azimuth: int) -> Vec3 {
    let el = spec_fx_mul(elevation, DEG_TO_RAD as int);
    let az = spec_fx_mul(azimuth, DEG_TO_RAD as int);
    Vec3 {
        x: spec_fx_mul(spec_sin_fx(az), spec_cos_fx(el)) as i64,
        y: -spec_sin_fx(el) as i64,
        z: spec_fx_mul(spec_cos_fx(az), spec_cos_fx(el)) as i64,
    }
}

/// Interactive control of the sun: elevation and azimuth angles in
/// fixed-point degrees, driving the light's direction.
#[derive(Clone, Copy, Debug, PartialEq, Eq, Structural)]
pub struct SunController {
    pub sun_light: SunLight,
    pub elevation: i64,
    pub azimuth: i64,
}

/// The controller after one handled key press; see
/// [`SunController::process_keyboard`].
pub open spec fn spec_sun_key(c: SunController, key: KeyCode) -> SunController {
    match key {
        KeyCode::I => {
            let el = spec_clamp(c.elevation + ANGLE_DELTA, -0x7fff_ffff_ffff_ffff, DEG_90 as int);
            SunController {
                elevation: el as i64,
                sun_light: SunLight {
                    direction: spec_sun_direction(el, c.azimuth as int),
                    ..c.sun_light
                },
                ..c
            }
        },
        KeyCode::K => {
            let el = spec_clamp(c.elevation - ANGLE_DELTA, 0, 0x7fff_ffff_ffff_ffff);
            SunController {
                elevation: el as i64,
                sun_light: SunLight {
                    direction: spec_sun_direction(el, c.azimuth as int),
                    ..c.sun_light
                },
                ..c
            }
        },
        KeyCode::J => {
            let az = (c.azimuth + ANGLE_DELTA) % (DEG_360 as int);
            SunController {
                azimuth: az as i64,
                sun_light: SunLight {
                    direction: spec_sun_direction(c.elevation as int, az),
                    ..c.sun_light
                },
                ..c
            }
        },
        KeyCode::L => {
            let az = (c.azimuth - ANGLE_DELTA + DEG_360 as int) % (DEG_360 as int);
            SunController {
                azimuth: az as i64,
                sun_light: SunLight {
                    direction: spec_sun_direction(c.elevation as int, az),
                    ..c.sun_light
                },
                ..c
            }
        },
        KeyCode::U => {
            let i = spec_clamp(c.sun_light.intensity + INTENSITY_DELTA, -0x7fff_ffff_ffff_ffff, 2 * FX_ONE as int);
            SunController { sun_light: SunLight { intensity: i as i64, ..c.sun_light }, ..c }
        },
        KeyCode::O => {
            let i = spec_clamp(c.sun_light.intensity - INTENSITY_DELTA, 0, 0x7fff_ffff_ffff_ffff);
            SunController { sun_light: SunLight { intensity: i as i64, ..c.sun_light }, ..c }
        },
        _ => c,
    }
}

/// Whether the sun controller reacts to this key.
pub open spec fn spec_sun_key_handled(key: KeyCode) -> bool {
    match key {
        KeyCode::I | KeyCode::K | KeyCode::J | KeyCode::L | KeyCode::U | KeyCode::O => true,
        _ => false,
    }
}

impl SunController {
    /// The angles stay within the ranges the stepping keeps them in.
    pub open spec fn wf(&self) -> bool {
        &&& 0 <= self.azimuth < DEG_360
        &&& 0 <= self.elevation <= 200_000_000
        &&& 0 <= self.sun_light.intensity <= 2 * FX_ONE
    }

    /// A new controller: the initial angles point the sun down and
    /// slightly forward, and the direction matches them.
    pub fn new() -> (r: SunController)
        ensures
            r.wf(),
            r.elevation == 120_000_000,
            r.azimuth == 210_000_000,
            r.sun_light.direction == spec_sun_direction(120_000_000, 210_000_000),
    {
        let mut controller = SunController {
            sun_light: SunLight::new(),
            elevation: 120_000_000,
            azimuth: 210_000_000,
        };
        controller.update_direction();
        controller
    }

    /// Recompute the light's direction from the current angles.
    pub fn update_direction(&mut self)
        requires
            abs_int(old(self).elevation as int) <= 400_000_000,
            abs_int(old(self).azimuth as int) <= 400_000_000,
        ensures
            *final(self) == (SunController {
                sun_light: SunLight {
                    direction: spec_sun_direction(
                        old(self).elevation as int,
                        old(self).azimuth as int,
                    ),
                    ..old(self).sun_light
                },
                ..*old(self)
            }),
    {
        proof {
            crate::math::lemma_fx_mul_abs_le(
                self.elevation as int,
                DEG_TO_RAD as int,
                400_000_000,
                DEG_TO_RAD as int,
            );
            crate::math::lemma_fx_mul_abs_le(
                self.azimuth as int,
                DEG_TO_RAD as int,
                400_000_000,
                DEG_TO_RAD as int,
            );
        }
        let el = fx_mul(self.elevation, DEG_TO_RAD);
        let az = fx_mul(self.azimuth, DEG_TO_RAD);
        let sin_el = sin_fx(el);
        let cos_el = cos_fx(el);
        let sin_az = sin_fx(az);
        let cos_az = cos_fx(az);
        proof {
            crate::math::lemma_fx_mul_abs_le(sin_az as int, cos_el as int, FX_ONE as int, FX_ONE as int);
            crate::math::lemma_fx_mul_abs_le(cos_az as int, cos_el as int, FX_ONE as int, FX_ONE as int);
        }
        self.sun_light.direction = Vec3 {
            x: fx_mul(sin_az, cos_el),
            y: -sin_el,
            z: fx_mul(cos_az, cos_el),
        };
    }

    /// React to a sun-control key press. Releases and unhandled keys do
    /// nothing; `I`/`K` step the elevation within `[0, 90]` degrees,
    /// `J`/`L` step the azimuth modulo a full turn, `U`/`O` step the
    /// intensity within `[0, 2]`. Every angle change updates the light's
    /// direction. Returns whether the key was handled.
    pub fn process_keyboard(&mut self, key: KeyCode, pressed: bool) -> (r: bool)
        requires
            old(self).wf(),
        ensures
            final(self).wf(),
            pressed ==> *final(self) == spec_sun_key(*old(self), key),
            !pressed ==> *final(self) == *old(self),
            r == (pressed && spec_sun_key_handled(key)),
    {
        if !pressed {
            return false;
        }
        match key {
            KeyCode::I => {
                let e = self.elevation + ANGLE_DELTA;
                self.elevation = if e > DEG_90 {
                    DEG_90
                } else {
                    e
                };
                self.update_direction();
                true
            },
            KeyCode::K => {
                let e = self.elevation - ANGLE_DELTA;
                self.elevation = if e < 0 {
                    0
                } else {
                    e
                };
                self.update_direction();
                true
            },
            KeyCode::J => {
                self.azimuth = ((self.azimuth + ANGLE_DELTA) as u64 % (DEG_360 as u64)) as i64;
                proof {
                    vstd::arithmetic::div_mod::lemma_mod_bound(
                        old(self).azimuth + ANGLE_DELTA,
                        DEG_360 as int,
                    );
                }
                self.update_direction();
                true
            },
            KeyCode::L => {
                self.azimuth = ((self.azimuth - ANGLE_DELTA + DEG_360) as u64 % (
                DEG_360 as u64)) as i64;
                proof {
                    vstd::arithmetic::div_mod::lemma_mod_bound(
                        old(self).azimuth - ANGLE_DELTA + DEG_360,
                        DEG_360 as int,
                    );
                }
                self.update_direction();
                true
            },
            KeyCode::U => {
                let i = self.sun_light.intensity + INTENSITY_DELTA;
                self.sun_light.intensity = if i > 2 * FX_ONE {
                    2 * FX_ONE
                } else {
                    i
                };
                true
            },
            KeyCode::O => {
                let i = self.sun_light.intensity - INTENSITY_DELTA;
                self.sun_light.intensity = if i < 0 {
                    0
                } else {
                    i
                };
                true
            },
            _ => false,
        }
    }
}

/// A point light with a position, radius and falloff.
#[derive(Clone, Copy, Debug, PartialEq, Eq, Structural)]
pub struct PointLight {
    pub position: Vec3,
    pub color: Vec3,
    pub intensity: i64,
    pub radius: i64,
    pub falloff: i64,
}

impl PointLight {
    /// A new point light with unit falloff.
    pub fn new(position: Vec3, color: Vec3, intensity: i64, radius: i64) -> (r: PointLight)
        ensures
            r == (PointLight { position, color, intensity, radius, falloff: FX_ONE }),
    {
        PointLight { position, color, intensity, radius, falloff: FX_ONE }
    }
}

impl Light for PointLight {
    fn get_color(&self) -> Vec3 {
        self.color
    }

    fn set_color(&mut self, color: Vec3) {
        self.color = color;
    }

    fn get_intensity(&self) -> i64 {
        self.intensity
    }

    fn set_intensity(&mut self, intensity: i64) {
        self.intensity = intensity;
    }
}

} // verus!
