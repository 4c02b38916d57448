//! The per-frame record of parameters handed to the batch executor.

use vstd::prelude::*;
use crate::config::UISettings;
use crate::fixed::ONE;

verus! {

/// Width of the rendered image, in pixels.
pub const TEXTURE_WIDTH: i64 = 1280;

/// Height of the rendered image, in pixels.
pub const TEXTURE_HEIGHT: i64 = 720;

/// The parameters of one frame's tick, as the batch executor reads them.
#[derive(Clone, Copy, Debug, PartialEq, Eq, Structural)]
pub struct SettingsUniform {
    pub delta_time: i64,
    pub time: i64,
    /// Width over height of the image: the world is this wide and `ONE` high.
    pub inv_aspect_ratio: i64,
    pub n_types: u32,
    pub n_particles: u32,
    pub min_r: i64,
    pub max_r: i64,
    /// Share of the velocity kept per tick.
    pub friction: i64,
    pub speed: i64,
    /// One for a wrapping world, zero otherwise.
    pub wrap: i32,
}

/// The record for this frame, from the configuration and the clock.
pub fn prepare_settings_buffer(settings: &UISettings, delta_time: i64, time: i64) -> (u: SettingsUniform)
    requires
        settings.wf(),
    ensures
        u.delta_time == delta_time,
        u.time == time,
        u.inv_aspect_ratio == TEXTURE_WIDTH * ONE / (TEXTURE_HEIGHT as int),
        u.n_types == settings.num_particle_types,
        u.n_particles == settings.num_particle_types * settings.num_particles_per_type,
        u.min_r == settings.min_r,
        u.max_r == settings.max_r,
        u.friction == ONE - settings.friction,
        u.speed == settings.speed,
        u.wrap == (if settings.wrap {
            1i32
        } else {
            0i32
        }),
{
    proof {
        assert(settings.num_particle_types * settings.num_particles_per_type <= 16 * 1024)
            by (nonlinear_arith)
            requires
                settings.num_particle_types <= 16,
                settings.num_particles_per_type <= 1024,
        ;
    }
    SettingsUniform {
        delta_time,
        time,
        inv_aspect_ratio: TEXTURE_WIDTH * ONE / TEXTURE_HEIGHT,
        n_types: settings.num_particle_types,
        n_particles: settings.num_particle_types * settings.num_particles_per_type,
        min_r: settings.min_r,
        max_r: settings.max_r,
        friction: ONE - settings.friction,
        speed: settings.speed,
        wrap: if settings.wrap {
            1
        } else {
            0
        },
    }
}

} // verus!
