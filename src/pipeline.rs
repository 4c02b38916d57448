//! When the batch executor may run, and what one frame does.
//!
//! The executor's compute program is prepared asynchronously; until it is
//! ready nothing is dispatched or drawn. Afterwards the simulation is idle or
//! running as the configuration asks, and every frame refreshes the
//! renderer's snapshot whatever the state.

use vstd::prelude::*;
use crate::buffers::{placed, write_particles_buffer, write_vertex_buffer, ParticlesBuffer};
use crate::geometry::hexagon_vertices;
use crate::config::UISettings;
use crate::fixed::LIMIT;
use crate::matrix::AttractionMatrix;
use crate::particle::{Particle, SimParams};
use crate::tick::{advanced, population_ok, tick_fits, TickError, MAX_DT};

verus! {

#[derive(Clone, Copy, Debug, PartialEq, Eq, Structural)]
pub enum ReadinessState {
    /// The compute program is still being prepared.
    Compiling,
    /// Ready, but paused: the state is frozen.
    Idle,
    /// Every frame runs a full tick.
    Running,
}

/// The state after one frame's check, given whether the compute program is
/// ready and whether the configuration asks to run.
pub open spec fn next_state(s: ReadinessState, compute_ready: bool, running: bool) -> ReadinessState {
    match s {
        ReadinessState::Compiling => if compute_ready {
            ReadinessState::Idle
        } else {
            ReadinessState::Compiling
        },
        ReadinessState::Idle => if running {
            ReadinessState::Running
        } else {
            ReadinessState::Idle
        },
        ReadinessState::Running => if running {
            ReadinessState::Running
        } else {
            ReadinessState::Idle
        },
    }
}

/// What a frame does in a given state.
#[derive(Clone, Copy, Debug, PartialEq, Eq, Structural)]
pub struct FramePlan {
    /// Run one tick of the batch executor.
    pub dispatch: bool,
    /// Copy the last completed state into the snapshot.
    pub copy_snapshot: bool,
    /// Draw the snapshot.
    pub draw: bool,
}

/// A tick only when running, a snapshot refresh always, drawing once the
/// compute program is ready.
pub open spec fn plan_for(s: ReadinessState) -> FramePlan {
    FramePlan {
        dispatch: s == ReadinessState::Running,
        copy_snapshot: true,
        draw: s != ReadinessState::Compiling,
    }
}

pub struct ParticleLifeNode {
    pub state: ReadinessState,
}

impl Default for ParticleLifeNode {
    fn default() -> (n: ParticleLifeNode)
        ensures
            n.state == ReadinessState::Compiling,
    {
        ParticleLifeNode { state: ReadinessState::Compiling }
    }
}

impl ParticleLifeNode {
    /// Advances the state once per frame, without waiting for anything.
    pub fn update(&mut self, compute_ready: bool, running: bool)
        ensures
            final(self).state == next_state(old(self).state, compute_ready, running),
    {
        self.state = match self.state {
            ReadinessState::Compiling => if compute_ready {
                ReadinessState::Idle
            } else {
                ReadinessState::Compiling
            },
            ReadinessState::Idle => if running {
                ReadinessState::Running
            } else {
                ReadinessState::Idle
            },
            ReadinessState::Running => if running {
                ReadinessState::Running
            } else {
                ReadinessState::Idle
            },
        };
    }

    /// What this frame does in the current state.
    pub fn run(&self) -> (plan: FramePlan)
        ensures
            plan == plan_for(self.state),
    {
        match self.state {
            ReadinessState::Compiling => FramePlan { dispatch: false, copy_snapshot: true, draw: false },
            ReadinessState::Idle => FramePlan { dispatch: false, copy_snapshot: true, draw: true },
            ReadinessState::Running => FramePlan { dispatch: true, copy_snapshot: true, draw: true },
        }
    }
}

/// How the population after a frame relates to `start`, the population the
/// frame began its tick from, given the plan that was followed and the tick's
/// outcome: unchanged when no tick ran or the tick was refused, advanced by
/// one tick otherwise.
pub open spec fn frame_outcome(
    start: Seq<Particle>,
    end: Seq<Particle>,
    r: (FramePlan, Result<(), TickError>),
    m: AttractionMatrix,
    p: SimParams,
    dt: int,
) -> bool {
    &&& !r.0.dispatch ==> r.1 is Ok && end == start
    &&& r.0.dispatch ==> (r.1 is Ok <==> tick_fits(start, m, p, dt))
    &&& r.0.dispatch && r.1 is Ok ==> advanced(start, end, m, p, dt)
    &&& r.0.dispatch && r.1 is Err ==> end == start
}

/// One frame of the batch path, after the configuration's edits: a fresh
/// population when the counts changed or a reset was asked for, a new
/// polygon when the size changed, the readiness check, a tick when running,
/// and the snapshot refresh. Returns the plan that was followed, and the
/// tick's outcome (`Ok` when no tick ran).
pub fn run_frame(
    buffers: &mut ParticlesBuffer,
    node: &mut ParticleLifeNode,
    settings: &UISettings,
    compute_ready: bool,
    width: i64,
    height: i64,
    dt: i64,
) -> (r: (FramePlan, Result<(), TickError>))
    requires
        settings.wf(),
        0 < width <= LIMIT,
        0 < height <= LIMIT,
        0 <= dt <= MAX_DT,
        settings.particle_count_changed || settings.just_reset || population_ok(
            old(buffers).storage@,
            settings.attraction_table,
        ),
    ensures
        final(node).state == next_state(old(node).state, compute_ready, settings.running),
        r.0 == plan_for(final(node).state),
        population_ok(final(buffers).storage@, settings.attraction_table),
        final(buffers).staging@ == final(buffers).storage@,
        settings.particle_size_changed ==> final(buffers).vertex_data@ == hexagon_vertices(
            settings.particle_size as int,
        ),
        !settings.particle_size_changed ==> final(buffers).vertex_data@ == old(buffers).vertex_data@,
        final(buffers).index_data@ == old(buffers).index_data@,
        !(settings.particle_count_changed || settings.just_reset) ==> frame_outcome(
            old(buffers).storage@,
            final(buffers).storage@,
            r,
            settings.attraction_table,
            settings.sim_params(width, height),
            dt as int,
        ),
        settings.particle_count_changed || settings.just_reset ==> exists|start: Seq<Particle>|
            placed(
                start,
                settings.num_particle_types as int,
                settings.num_particles_per_type as int,
                width as int,
                height as int,
            ) && frame_outcome(
                start,
                #[trigger] final(buffers).storage@,
                r,
                settings.attraction_table,
                settings.sim_params(width, height),
                dt as int,
            ),
{
    write_particles_buffer(buffers, settings, width, height);
    let ghost start = buffers.storage@;
    write_vertex_buffer(buffers, settings);
    node.update(compute_ready, settings.running);
    let plan = node.run();
    let mut outcome: Result<(), TickError> = Ok(());
    if plan.dispatch {
        let p = settings.params(width, height);
        outcome = buffers.dispatch(&settings.attraction_table, &p, dt);
    }
    buffers.copy_to_staging();
    assert(frame_outcome(
        start,
        buffers.storage@,
        (plan, outcome),
        settings.attraction_table,
        settings.sim_params(width, height),
        dt as int,
    ));
    (plan, outcome)
}

} // verus!
