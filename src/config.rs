//! The configuration record edited between frames: type and particle
//! counts, the attraction matrix, the force and integration parameters, and
//! the flags that tell the rest of the frame what changed.

use vstd::prelude::*;
use crate::fixed::{LIMIT, ONE};
use crate::matrix::{clamp, AttractionMatrix, MAX_TYPES};
use crate::particle::SimParams;
use crate::tick::MAX_PER_TYPE;

verus! {

/// Smallest particle size (a fifth of a unit).
pub const MIN_PARTICLE_SIZE: i64 = 200_000;

/// Largest particle size (a hundred units).
pub const MAX_PARTICLE_SIZE: i64 = 100_000_000;

/// Why an edit of the configuration was refused.
#[derive(Clone, Copy, Debug, PartialEq, Eq, Structural)]
pub enum ConfigError {
    /// A simulation needs at least one type.
    NoTypes,
    /// More types than `MAX_TYPES`.
    TooManyTypes,
    /// More particles per type than `MAX_PER_TYPE`.
    TooManyParticles,
    /// The radii are negative, out of range, or `min_r > max_r`.
    BadRadii,
    /// Friction outside `[0, ONE]`.
    BadFriction,
    /// Speed outside `[-LIMIT, LIMIT]`.
    BadSpeed,
    /// A saved matrix whose shape differs from its type count.
    BadMatrixShape,
    /// A saved coefficient outside `[-ONE, ONE]`.
    BadCoefficient,
}

/// Whether the settings panels are shown.
#[derive(Clone, Copy, Debug, PartialEq, Eq, Structural)]
pub enum UIVisibility {
    Visible,
    Hidden,
}

impl Default for UIVisibility {
    fn default() -> (v: UIVisibility)
        ensures
            v == UIVisibility::Visible,
    {
        UIVisibility::Visible
    }
}

impl UIVisibility {
    /// The other visibility.
    pub fn toggled(self) -> (v: UIVisibility)
        ensures
            v != self,
    {
        match self {
            UIVisibility::Visible => UIVisibility::Hidden,
            UIVisibility::Hidden => UIVisibility::Visible,
        }
    }
}

pub struct UISettings {
    pub num_particle_types: u32,
    pub num_particles_per_type: u32,
    pub attraction_table: AttractionMatrix,
    pub particle_size: i64,
    pub min_r: i64,
    pub max_r: i64,
    pub friction: i64,
    pub speed: i64,
    pub wrap: bool,
    /// The simulation was started during this frame.
    pub just_started: bool,
    /// A reset was asked for during this frame.
    pub just_reset: bool,
    pub particle_size_changed: bool,
    /// The type count or the particles per type changed during this frame.
    pub particle_count_changed: bool,
    pub running: bool,
}

impl UISettings {
    pub open spec fn wf(&self) -> bool {
        &&& self.attraction_table.wf()
        &&& self.attraction_table.n_types == self.num_particle_types
        &&& 1 <= self.num_particle_types <= MAX_TYPES
        &&& self.num_particles_per_type <= MAX_PER_TYPE
        &&& MIN_PARTICLE_SIZE <= self.particle_size <= MAX_PARTICLE_SIZE
        &&& 0 <= self.min_r <= self.max_r <= ONE
        &&& 0 <= self.friction <= ONE
        &&& -LIMIT <= self.speed <= LIMIT
    }

    /// Forgets what changed during the previous frame.
    pub fn begin_frame(&mut self)
        ensures
            *final(self) == (UISettings {
                just_started: final(self).just_started,
                just_reset: final(self).just_reset,
                particle_size_changed: final(self).particle_size_changed,
                particle_count_changed: final(self).particle_count_changed,
                ..*old(self)
            }),
            !final(self).just_started,
            !final(self).just_reset,
            !final(self).particle_size_changed,
            !final(self).particle_count_changed,
    {
        self.just_started = false;
        self.just_reset = false;
        self.particle_size_changed = false;
        self.particle_count_changed = false;
    }

    /// Adds a type, unless there are `MAX_TYPES` already. The matrix keeps
    /// its entries and gains a zero row and column.
    pub fn add_type(&mut self) -> (added: bool)
        requires
            old(self).wf(),
        ensures
            final(self).wf(),
            added == (old(self).num_particle_types < MAX_TYPES),
            added ==> final(self).num_particle_types == old(self).num_particle_types + 1
                && final(self).particle_count_changed && AttractionMatrix::resized_from(
                &final(self).attraction_table,
                &old(self).attraction_table,
            ),
            !added ==> *final(self) == *old(self),
            *final(self) == (UISettings {
                num_particle_types: final(self).num_particle_types,
                attraction_table: final(self).attraction_table,
                particle_count_changed: final(self).particle_count_changed,
                ..*old(self)
            }),
    {
        if self.num_particle_types < MAX_TYPES as u32 {
            let n = self.num_particle_types + 1;
            self.attraction_table.resize(n as usize);
            self.num_particle_types = n;
            self.particle_count_changed = true;
            true
        } else {
            false
        }
    }

    /// Removes the last type, unless it is the only one. The matrix loses
    /// that type's row and column for good.
    pub fn remove_type(&mut self) -> (removed: bool)
        requires
            old(self).wf(),
        ensures
            final(self).wf(),
            removed == (old(self).num_particle_types > 1),
            removed ==> final(self).num_particle_types == old(self).num_particle_types - 1
                && final(self).particle_count_changed && AttractionMatrix::resized_from(
                &final(self).attraction_table,
                &old(self).attraction_table,
            ),
            !removed ==> *final(self) == *old(self),
            *final(self) == (UISettings {
                num_particle_types: final(self).num_particle_types,
                attraction_table: final(self).attraction_table,
                particle_count_changed: final(self).particle_count_changed,
                ..*old(self)
            }),
    {
        if self.num_particle_types > 1 {
            let n = self.num_particle_types - 1;
            self.attraction_table.resize(n as usize);
            self.num_particle_types = n;
            self.particle_count_changed = true;
            true
        } else {
            false
        }
    }

    /// Sets the number of particles of each type; more than `MAX_PER_TYPE`
    /// is refused and changes nothing.
    pub fn set_particles_per_type(&mut self, n: u32) -> (r: Result<(), ConfigError>)
        requires
            old(self).wf(),
        ensures
            final(self).wf(),
            n > MAX_PER_TYPE ==> r == Err::<(), ConfigError>(ConfigError::TooManyParticles)
                && *final(self) == *old(self),
            n <= MAX_PER_TYPE ==> r is Ok && final(self).num_particles_per_type == n
                && final(self).particle_count_changed == (old(self).particle_count_changed || n
                != old(self).num_particles_per_type),
            *final(self) == (UISettings {
                num_particles_per_type: final(self).num_particles_per_type,
                particle_count_changed: final(self).particle_count_changed,
                ..*old(self)
            }),
    {
        if n > MAX_PER_TYPE as u32 {
            return Err(ConfigError::TooManyParticles);
        }
        if n != self.num_particles_per_type {
            self.num_particles_per_type = n;
            self.particle_count_changed = true;
        }
        Ok(())
    }

    /// Sets the drawn size of a particle, clamped to its allowed range.
    pub fn set_particle_size(&mut self, size: i64)
        requires
            old(self).wf(),
        ensures
            final(self).wf(),
            final(self).particle_size == clamp(
                size as int,
                MIN_PARTICLE_SIZE as int,
                MAX_PARTICLE_SIZE as int,
            ),
            final(self).particle_size_changed == (old(self).particle_size_changed
                || final(self).particle_size != old(self).particle_size),
            *final(self) == (UISettings {
                particle_size: final(self).particle_size,
                particle_size_changed: final(self).particle_size_changed,
                ..*old(self)
            }),
    {
        let v = if size < MIN_PARTICLE_SIZE {
            MIN_PARTICLE_SIZE
        } else if size > MAX_PARTICLE_SIZE {
            MAX_PARTICLE_SIZE
        } else {
            size
        };
        if v != self.particle_size {
            self.particle_size = v;
            self.particle_size_changed = true;
        }
    }

    /// Sets the coefficient that type `r` feels from type `c`, clamped to `[-ONE, ONE]`.
    pub fn set_attraction(&mut self, r: u32, c: u32, g: i64)
        requires
            old(self).wf(),
            r < old(self).num_particle_types,
            c < old(self).num_particle_types,
        ensures
            final(self).wf(),
            *final(self) == (UISettings {
                attraction_table: final(self).attraction_table,
                ..*old(self)
            }),
            final(self).attraction_table.coef(r as int, c as int) == clamp(
                g as int,
                -ONE as int,
                ONE as int,
            ),
            forall|i: int, j: int|
                0 <= i < old(self).num_particle_types && 0 <= j < old(self).num_particle_types && (i
                    != r || j != c) ==> #[trigger] final(self).attraction_table.coef(i, j)
                    == old(self).attraction_table.coef(i, j),
    {
        self.attraction_table.set(r as usize, c as usize, g);
    }

    /// Draws every coefficient of the active types anew.
    pub fn randomize_attractions(&mut self)
        requires
            old(self).wf(),
        ensures
            final(self).wf(),
            *final(self) == (UISettings {
                attraction_table: final(self).attraction_table,
                ..*old(self)
            }),
    {
        self.attraction_table.randomize();
    }

    /// Sets the repulsion distance, clamped to `[0, max_r]`.
    pub fn set_min_r(&mut self, v: i64)
        requires
            old(self).wf(),
        ensures
            final(self).wf(),
            final(self).min_r == clamp(v as int, 0, old(self).max_r as int),
            *final(self) == (UISettings {
                min_r: final(self).min_r,
                ..*old(self)
            }),
    {
        self.min_r = if v < 0 {
            0
        } else if v > self.max_r {
            self.max_r
        } else {
            v
        };
    }

    /// Sets the interaction distance, clamped to `[min_r, ONE]`.
    pub fn set_max_r(&mut self, v: i64)
        requires
            old(self).wf(),
        ensures
            final(self).wf(),
            final(self).max_r == clamp(v as int, old(self).min_r as int, ONE as int),
            *final(self) == (UISettings {
                max_r: final(self).max_r,
                ..*old(self)
            }),
    {
        self.max_r = if v < self.min_r {
            self.min_r
        } else if v > ONE {
            ONE
        } else {
            v
        };
    }

    /// Sets the friction, clamped to `[0, ONE]`.
    pub fn set_friction(&mut self, v: i64)
        requires
            old(self).wf(),
        ensures
            final(self).wf(),
            final(self).friction == clamp(v as int, 0, ONE as int),
            *final(self) == (UISettings {
                friction: final(self).friction,
                ..*old(self)
            }),
    {
        self.friction = if v < 0 {
            0
        } else if v > ONE {
            ONE
        } else {
            v
        };
    }

    /// Sets the speed, clamped to `[-LIMIT, LIMIT]`.
    pub fn set_speed(&mut self, v: i64)
        requires
            old(self).wf(),
        ensures
            final(self).wf(),
            final(self).speed == clamp(v as int, -LIMIT as int, LIMIT as int),
            *final(self) == (UISettings {
                speed: final(self).speed,
                ..*old(self)
            }),
    {
        self.speed = if v < -LIMIT {
            -LIMIT
        } else if v > LIMIT {
            LIMIT
        } else {
            v
        };
    }

    pub fn set_wrap(&mut self, wrap: bool)
        requires
            old(self).wf(),
        ensures
            final(self).wf(),
            final(self).wrap == wrap,
            *final(self) == (UISettings {
                wrap: final(self).wrap,
                ..*old(self)
            }),
    {
        self.wrap = wrap;
    }

    /// Runs a paused simulation or pauses a running one.
    pub fn toggle_running(&mut self)
        requires
            old(self).wf(),
        ensures
            final(self).wf(),
            final(self).running == !old(self).running,
            final(self).just_started == (old(self).just_started || final(self).running),
            *final(self) == (UISettings {
                running: final(self).running,
                just_started: final(self).just_started,
                ..*old(self)
            }),
    {
        self.running = !self.running;
        if self.running {
            self.just_started = true;
        }
    }

    /// Asks for a fresh population at the next frame.
    pub fn request_reset(&mut self)
        requires
            old(self).wf(),
        ensures
            final(self).wf(),
            final(self).just_reset,
            *final(self) == (UISettings {
                just_reset: final(self).just_reset,
                ..*old(self)
            }),
    {
        self.just_reset = true;
    }

    pub open spec fn sim_params(&self, width: i64, height: i64) -> SimParams {
        SimParams {
            min_r: self.min_r,
            max_r: self.max_r,
            friction: self.friction,
            speed: self.speed,
            wrap: self.wrap,
            width,
            height,
        }
    }

    /// The force and integration parameters for a `width` by `height` world.
    pub fn params(&self, width: i64, height: i64) -> (p: SimParams)
        requires
            self.wf(),
            0 < width <= LIMIT,
            0 < height <= LIMIT,
        ensures
            p.wf(),
            p == self.sim_params(width, height),
    {
        SimParams {
            min_r: self.min_r,
            max_r: self.max_r,
            friction: self.friction,
            speed: self.speed,
            wrap: self.wrap,
            width,
            height,
        }
    }
}

impl Default for UISettings {
    /// One type of 128 particles with a zero coefficient, radii of 0.3,
    /// friction 0.1, unit speed and size, a wrapping world, paused.
    fn default() -> (s: UISettings)
        ensures
            s.wf(),
            s.num_particle_types == 1,
            s.num_particles_per_type == 128,
            s.attraction_table.coef(0, 0) == 0,
            s.particle_size == ONE,
            s.min_r == 300_000,
            s.max_r == 300_000,
            s.friction == 100_000,
            s.speed == ONE,
            s.wrap,
            !s.just_started && !s.just_reset && !s.particle_size_changed,
            !s.particle_count_changed && !s.running,
    {
        UISettings {
            num_particle_types: 1,
            num_particles_per_type: 128,
            attraction_table: AttractionMatrix::new(1),
            particle_size: ONE,
            min_r: 300_000,
            max_r: 300_000,
            friction: 100_000,
            speed: ONE,
            wrap: true,
            just_started: false,
            just_reset: false,
            particle_size_changed: false,
            particle_count_changed: false,
            running: false,
        }
    }
}

} // verus!
