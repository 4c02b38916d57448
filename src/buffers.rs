//! The batch executor: particle state in a buffer that every unit of a tick
//! reads as it stood when the tick began, an output buffer that the units
//! write, and a snapshot buffer that the renderer reads.

use vstd::prelude::*;
use crate::config::UISettings;
use crate::fixed::LIMIT;
use crate::geometry::{create_hexagon_data, hexagon_vertices, hexagon_indices};
use crate::matrix::{AttractionMatrix, MAX_TYPES};
use crate::particle::{Particle, SimParams};
use crate::random::random_in;
use crate::tick::{
    advanced,
    motion_fits,
    population_ok,
    step_particle,
    stepped,
    tick_fits,
    TickError,
    MAX_DT,
    MAX_PARTICLES,
};

verus! {

/// Number of units that run together in one group of a batch.
pub const WORKGROUP_SIZE: usize = 64;

/// The layout of a freshly placed population of `n_types * per_type`
/// particles: grouped by type, at rest, inside a `width` by `height` world.
pub open spec fn placed(ps: Seq<Particle>, n_types: int, per_type: int, width: int, height: int) -> bool {
    &&& ps.len() == n_types * per_type
    &&& forall|k: int|
        0 <= k < ps.len() ==> {
            let p = #[trigger] ps[k];
            &&& p.ptype * per_type <= k < (p.ptype + 1) * per_type
            &&& 0 <= p.x < width
            &&& 0 <= p.y < height
            &&& p.vx == 0
            &&& p.vy == 0
        }
}

/// Places `per_type` particles of each of the first `n_types` types at
/// random positions in the world, at rest, grouped by type.
pub fn create_particles(n_types: u32, per_type: u32, width: i64, height: i64) -> (ps: Vec<Particle>)
    requires
        n_types <= MAX_TYPES,
        n_types * per_type <= MAX_PARTICLES,
        0 < width <= LIMIT,
        0 < height <= LIMIT,
    ensures
        placed(ps@, n_types as int, per_type as int, width as int, height as int),
{
    let mut ps: Vec<Particle> = Vec::new();
    let mut i: u32 = 0;
    while i < n_types
        invariant
            i <= n_types <= MAX_TYPES,
            0 < width <= LIMIT,
            0 < height <= LIMIT,
            placed(ps@, i as int, per_type as int, width as int, height as int),
        decreases n_types - i,
    {
        let mut j: u32 = 0;
        while j < per_type
            invariant
                i < n_types <= MAX_TYPES,
                j <= per_type,
                0 < width <= LIMIT,
                0 < height <= LIMIT,
                ps.len() == i * per_type + j,
                forall|k: int|
                    0 <= k < ps.len() ==> {
                        let p = #[trigger] ps@[k];
                        &&& p.ptype * per_type <= k < (p.ptype + 1) * per_type
                        &&& 0 <= p.x < width
                        &&& 0 <= p.y < height
                        &&& p.vx == 0
                        &&& p.vy == 0
                    },
            decreases per_type - j,
        {
            let x = random_in(0, width - 1);
            let y = random_in(0, height - 1);
            let ghost k = ps.len() as int;
            assert(i * per_type <= k < (i + 1) * per_type) by (nonlinear_arith)
                requires
                    k == i * per_type + j,
                    j < per_type,
            ;
            ps.push(Particle::new(i, x, y));
            j = j + 1;
        }
        assert((i + 1) * per_type == i * per_type + per_type) by (nonlinear_arith);
        i = i + 1;
    }
    ps
}

/// A copy of the particles, element by element.
fn copy_particles(src: &Vec<Particle>) -> (dst: Vec<Particle>)
    ensures
        dst@ == src@,
{
    let mut dst: Vec<Particle> = Vec::new();
    let mut k: usize = 0;
    while k < src.len()
        invariant
            k <= src.len(),
            dst@ == src@.subrange(0, k as int),
        decreases src.len() - k,
    {
        dst.push(src[k]);
        k = k + 1;
    }
    assert(dst@ =~= src@);
    dst
}

/// The buffers of the batch executor and of the renderer.
pub struct ParticlesBuffer {
    /// The state that every unit of a tick reads.
    pub storage: Vec<Particle>,
    /// Where the units of a tick write; swapped with `storage` once the
    /// whole batch has completed.
    pub output: Vec<Particle>,
    /// The last completed state, the only one the renderer reads.
    pub staging: Vec<Particle>,
    /// Corners of the polygon drawn for each particle, as (x, y) pairs.
    pub vertex_data: Vec<i64>,
    /// Triangles of that polygon, as indices into its corners.
    pub index_data: Vec<u32>,
}

impl ParticlesBuffer {
    /// A buffer holding a fresh population of `n_types * per_type`
    /// particles, its snapshot, and the polygon for particles of size `radius`.
    pub fn new(n_types: u32, per_type: u32, radius: i64, width: i64, height: i64) -> (b: ParticlesBuffer)
        requires
            n_types <= MAX_TYPES,
            n_types * per_type <= MAX_PARTICLES,
            0 < width <= LIMIT,
            0 < height <= LIMIT,
            0 <= radius <= LIMIT,
        ensures
            placed(b.storage@, n_types as int, per_type as int, width as int, height as int),
            b.staging@ == b.storage@,
            b.vertex_data@ == hexagon_vertices(radius as int),
            b.index_data@ == hexagon_indices(),
    {
        let storage = create_particles(n_types, per_type, width, height);
        let staging = copy_particles(&storage);
        let (vertex_data, index_data) = create_hexagon_data(radius);
        ParticlesBuffer { storage, output: Vec::new(), staging, vertex_data, index_data }
    }

    /// Runs one tick as a batch: groups of `WORKGROUP_SIZE` units, one unit
    /// per particle, each reading only the storage buffer and writing its
    /// own particle into the output buffer. When every unit has finished the
    /// output buffer becomes the storage buffer. If some particle would leave
    /// the fixed-point range the storage buffer is left as it was.
    pub fn dispatch(&mut self, m: &AttractionMatrix, s: &SimParams, dt: i64) -> (r: Result<
        (),
        TickError,
    >)
        requires
            m.wf(),
            s.wf(),
            population_ok(old(self).storage@, *m),
            0 <= dt <= MAX_DT,
        ensures
            r is Ok <==> tick_fits(old(self).storage@, *m, *s, dt as int),
            r is Ok ==> advanced(old(self).storage@, final(self).storage@, *m, *s, dt as int),
            r is Err ==> final(self).storage@ == old(self).storage@,
            population_ok(final(self).storage@, *m),
            final(self).staging@ == old(self).staging@,
            final(self).vertex_data@ == old(self).vertex_data@,
            final(self).index_data@ == old(self).index_data@,
    {
        let n = self.storage.len();
        let mut out = copy_particles(&self.storage);
        let groups: usize = (n + WORKGROUP_SIZE - 1) / WORKGROUP_SIZE;
        assert(n <= groups * WORKGROUP_SIZE);
        assert(groups * WORKGROUP_SIZE <= n + WORKGROUP_SIZE);
        let mut g: usize = 0;
        while g < groups
            invariant
                m.wf(),
                s.wf(),
                population_ok(self.storage@, *m),
                0 <= dt <= MAX_DT,
                n == self.storage.len(),
                self.storage@ == old(self).storage@,
                self.staging@ == old(self).staging@,
                self.vertex_data@ == old(self).vertex_data@,
                self.index_data@ == old(self).index_data@,
                n <= groups * WORKGROUP_SIZE,
                groups * WORKGROUP_SIZE <= n + WORKGROUP_SIZE,
                g <= groups,
                out.len() == n,
                forall|k: int|
                    0 <= k < n && k < g * WORKGROUP_SIZE ==> (#[trigger] out@[k]).ptype
                        == self.storage@[k].ptype && crate::tick::motion_of(out@[k]) == stepped(
                        self.storage@,
                        k,
                        *m,
                        *s,
                        dt as int,
                    ),
                forall|k: int|
                    0 <= k < n && k < g * WORKGROUP_SIZE ==> motion_fits(
                        #[trigger] stepped(self.storage@, k, *m, *s, dt as int),
                    ),
            decreases groups - g,
        {
            let mut lane: usize = 0;
            while lane < WORKGROUP_SIZE
                invariant
                    m.wf(),
                    s.wf(),
                    population_ok(self.storage@, *m),
                    0 <= dt <= MAX_DT,
                    n == self.storage.len(),
                    self.storage@ == old(self).storage@,
                    self.staging@ == old(self).staging@,
                    self.vertex_data@ == old(self).vertex_data@,
                    self.index_data@ == old(self).index_data@,
                    n <= groups * WORKGROUP_SIZE,
                    groups * WORKGROUP_SIZE <= n + WORKGROUP_SIZE,
                groups * WORKGROUP_SIZE <= n + WORKGROUP_SIZE,
                    g < groups,
                    lane <= WORKGROUP_SIZE,
                    out.len() == n,
                    forall|k: int|
                        0 <= k < n && k < g * WORKGROUP_SIZE + lane ==> (#[trigger] out@[k]).ptype
                            == self.storage@[k].ptype && crate::tick::motion_of(out@[k]) == stepped(
                            self.storage@,
                            k,
                            *m,
                            *s,
                            dt as int,
                        ),
                    forall|k: int|
                        0 <= k < n && k < g * WORKGROUP_SIZE + lane ==> motion_fits(
                            #[trigger] stepped(self.storage@, k, *m, *s, dt as int),
                        ),
                decreases WORKGROUP_SIZE - lane,
            {
                let k: usize = g * WORKGROUP_SIZE + lane;
                if k < n {
                    match step_particle(&self.storage, k, m, s, dt) {
                        Some(p) => {
                            out.set(k, p);
                        },
                        None => {
                            return Err(TickError::OutOfRange);
                        },
                    }
                }
                lane = lane + 1;
            }
            g = g + 1;
        }
        assert forall|k: int| 0 <= k < out.len() implies (#[trigger] out@[k]).in_range() by {
            assert(motion_fits(stepped(self.storage@, k, *m, *s, dt as int)));
        }
        self.output = out;
        std::mem::swap(&mut self.storage, &mut self.output);
        Ok(())
    }

    /// Refreshes the renderer's snapshot from the last completed state.
    pub fn copy_to_staging(&mut self)
        ensures
            final(self).staging@ == old(self).storage@,
            final(self).storage@ == old(self).storage@,
            final(self).vertex_data@ == old(self).vertex_data@,
            final(self).index_data@ == old(self).index_data@,
    {
        self.staging = copy_particles(&self.storage);
    }
}

/// Places a fresh population in the storage buffer when the counts changed
/// or a reset was asked for during this frame, and leaves it alone otherwise.
pub fn write_particles_buffer(
    particles_buf: &mut ParticlesBuffer,
    ui_settings: &UISettings,
    width: i64,
    height: i64,
)
    requires
        ui_settings.wf(),
        0 < width <= LIMIT,
        0 < height <= LIMIT,
    ensures
        ui_settings.particle_count_changed || ui_settings.just_reset ==> placed(
            final(particles_buf).storage@,
            ui_settings.num_particle_types as int,
            ui_settings.num_particles_per_type as int,
            width as int,
            height as int,
        ) && population_ok(final(particles_buf).storage@, ui_settings.attraction_table),
        !(ui_settings.particle_count_changed || ui_settings.just_reset) ==> final(particles_buf).storage@ == old(particles_buf).storage@,
        final(particles_buf).staging@ == old(particles_buf).staging@,
        final(particles_buf).vertex_data@ == old(particles_buf).vertex_data@,
        final(particles_buf).index_data@ == old(particles_buf).index_data@,
{
    if ui_settings.particle_count_changed || ui_settings.just_reset {
        assert(ui_settings.num_particle_types * ui_settings.num_particles_per_type <= 16 * 1024)
            by (nonlinear_arith)
            requires
                ui_settings.num_particle_types <= 16,
                ui_settings.num_particles_per_type <= 1024,
        ;
        let ps = create_particles(
            ui_settings.num_particle_types,
            ui_settings.num_particles_per_type,
            width,
            height,
        );
        proof {
            let n = ui_settings.num_particle_types as int;
            let per = ui_settings.num_particles_per_type as int;
            assert(ps@.len() <= 16 * 1024) by (nonlinear_arith)
                requires
                    ps@.len() == n * per,
                    1 <= n <= 16,
                    0 <= per <= 1024,
            ;
            assert forall|k: int| 0 <= k < ps@.len() implies (#[trigger] ps@[k]).ptype < n by {
                let t = ps@[k].ptype as int;
                if t >= n {
                    assert(t * per >= n * per) by (nonlinear_arith)
                        requires
                            t >= n,
                            per >= 0,
                    ;
                }
            }
        }
        particles_buf.storage = ps;
    }
}

/// Rebuilds the polygon drawn for each particle when the particle size
/// changed during this frame, and leaves it alone otherwise.
pub fn write_vertex_buffer(particles_buf: &mut ParticlesBuffer, ui_settings: &UISettings)
    requires
        ui_settings.wf(),
    ensures
        ui_settings.particle_size_changed ==> final(particles_buf).vertex_data@ == hexagon_vertices(
            ui_settings.particle_size as int,
        ),
        !ui_settings.particle_size_changed ==> final(particles_buf).vertex_data@ == old(particles_buf).vertex_data@,
        final(particles_buf).storage@ == old(particles_buf).storage@,
        final(particles_buf).staging@ == old(particles_buf).staging@,
        final(particles_buf).index_data@ == old(particles_buf).index_data@,
{
    if ui_settings.particle_size_changed {
        let (vertices, _indices) = create_hexagon_data(ui_settings.particle_size);
        particles_buf.vertex_data = vertices;
    }
}

} // verus!
