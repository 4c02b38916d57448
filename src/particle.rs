//! Particles and the parameters that govern a simulation tick.

use vstd::prelude::*;
use crate::fixed::{abs, LIMIT, ONE};

verus! {

/// One particle: position and velocity in fixed point, and its type index.
#[derive(Clone, Copy, Debug, PartialEq, Eq, Structural)]
pub struct Particle {
    pub x: i64,
    pub y: i64,
    pub vx: i64,
    pub vy: i64,
    pub ptype: u32,
}

impl Particle {
    /// Each coordinate and velocity component lies within `[-LIMIT, LIMIT]`.
    pub open spec fn in_range(self) -> bool {
        &&& abs(self.x as int) <= LIMIT
        &&& abs(self.y as int) <= LIMIT
        &&& abs(self.vx as int) <= LIMIT
        &&& abs(self.vy as int) <= LIMIT
    }

    /// A particle of type `ptype` at rest at `(x, y)`.
    pub fn new(ptype: u32, x: i64, y: i64) -> (p: Particle)
        ensures
            p == (Particle { x, y, vx: 0, vy: 0, ptype }),
    {
        Particle { x, y, vx: 0, vy: 0, ptype }
    }
}

/// The parameters of the force law and of the integrator.
#[derive(Clone, Copy, Debug, PartialEq, Eq, Structural)]
pub struct SimParams {
    /// Below this distance particles repel each other whatever their types.
    pub min_r: i64,
    /// Beyond this distance particles do not interact.
    pub max_r: i64,
    /// Share of the velocity lost per tick, `ONE` meaning all of it.
    pub friction: i64,
    /// Factor applied to the summed forces before they change a velocity.
    pub speed: i64,
    /// Whether the world is a torus; otherwise its edges bounce particles back.
    pub wrap: bool,
    pub width: i64,
    pub height: i64,
}

impl SimParams {
    pub open spec fn wf(self) -> bool {
        &&& 0 <= self.min_r <= self.max_r <= LIMIT
        &&& 0 <= self.friction <= ONE
        &&& -LIMIT <= self.speed <= LIMIT
        &&& 0 < self.width <= LIMIT
        &&& 0 < self.height <= LIMIT
    }
}

} // verus!
