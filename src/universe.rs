//! A simulation driven by the sequential executor, with its own types,
//! matrix and parameters, and the settings record it can be saved to and
//! restored from.

use vstd::prelude::*;
use crate::buffers::{create_particles, placed};
use crate::config::ConfigError;
use crate::fixed::{abs, LIMIT, ONE};
use crate::matrix::{clamp, AttractionMatrix, MAX_TYPES};
use crate::particle::{Particle, SimParams};
use crate::tick::{advanced, population_ok, tick, tick_fits, TickError, MAX_DT, MAX_PARTICLES};

verus! {

/// What a universe is initialised with.
#[derive(Clone, Copy, Debug, PartialEq, Eq, Structural)]
pub struct UniverseParams {
    pub n_types: u32,
    pub particle_per_type: u32,
    pub min_r: i64,
    pub max_r: i64,
    pub friction: i64,
    pub speed: i64,
    pub wrap: bool,
}

impl Default for UniverseParams {
    /// Five types of fifty particles, radii of one and ten units, friction
    /// 0.1, unit speed, bouncing edges.
    fn default() -> (p: UniverseParams)
        ensures
            p == (UniverseParams {
                n_types: 5,
                particle_per_type: 50,
                min_r: ONE,
                max_r: 10_000_000,
                friction: 100_000,
                speed: ONE,
                wrap: false,
            }),
    {
        UniverseParams {
            n_types: 5,
            particle_per_type: 50,
            min_r: ONE,
            max_r: 10 * ONE,
            friction: 100_000,
            speed: ONE,
            wrap: false,
        }
    }
}

/// The first thing wrong with a type count, a particle count, radii and a friction.
pub open spec fn counts_error(
    n_types: int,
    per_type: int,
    min_r: int,
    max_r: int,
    friction: int,
) -> Option<ConfigError> {
    if n_types < 1 {
        Some(ConfigError::NoTypes)
    } else if n_types > MAX_TYPES {
        Some(ConfigError::TooManyTypes)
    } else if n_types * per_type > MAX_PARTICLES {
        Some(ConfigError::TooManyParticles)
    } else if !(0 <= min_r <= max_r <= LIMIT) {
        Some(ConfigError::BadRadii)
    } else if !(0 <= friction <= ONE) {
        Some(ConfigError::BadFriction)
    } else {
        None
    }
}

/// The first thing wrong with the parameters, if any. A universe has one
/// type more than `p.n_types`.
pub open spec fn params_error(p: UniverseParams) -> Option<ConfigError> {
    match counts_error(
        p.n_types + 1,
        p.particle_per_type as int,
        p.min_r as int,
        p.max_r as int,
        p.friction as int,
    ) {
        Some(e) => Some(e),
        None => if abs(p.speed as int) > LIMIT {
            Some(ConfigError::BadSpeed)
        } else {
            None
        },
    }
}

/// What is saved of a universe and restored later.
pub struct SimulationSettings {
    pub n_types: u32,
    pub particle_per_type: u32,
    /// The active block of the attraction matrix, row by row.
    pub attraction_matrix: Vec<Vec<i64>>,
    pub min_r: i64,
    pub max_r: i64,
    pub friction: i64,
}

/// What is wrong with saved rows for `n` types, if anything: they must form
/// an `n` by `n` block of coefficients in `[-ONE, ONE]`.
pub open spec fn matrix_error(rows: Seq<Vec<i64>>, n: int) -> Option<ConfigError> {
    if rows.len() != n || exists|i: int| 0 <= i < n && (#[trigger] rows[i]).len() != n {
        Some(ConfigError::BadMatrixShape)
    } else if exists|i: int, j: int|
        0 <= i < n && 0 <= j < n && !(-ONE <= #[trigger] rows[i]@[j] <= ONE) {
        Some(ConfigError::BadCoefficient)
    } else {
        None
    }
}

/// The first thing wrong with saved settings, if any.
pub open spec fn settings_error(s: &SimulationSettings) -> Option<ConfigError> {
    match counts_error(
        s.n_types as int,
        s.particle_per_type as int,
        s.min_r as int,
        s.max_r as int,
        s.friction as int,
    ) {
        Some(e) => Some(e),
        None => matrix_error(s.attraction_matrix@, s.n_types as int),
    }
}

pub struct Universe {
    pub n_types: u32,
    pub particle_per_type: u32,
    pub params: SimParams,
    pub matrix: AttractionMatrix,
    pub particles: Vec<Particle>,
}

impl Universe {
    pub open spec fn wf(&self) -> bool {
        &&& self.matrix.wf()
        &&& self.matrix.n_types == self.n_types
        &&& 1 <= self.n_types <= MAX_TYPES
        &&& self.n_types * self.particle_per_type <= MAX_PARTICLES
        &&& self.params.wf()
        &&& population_ok(self.particles@, self.matrix)
    }

    /// A universe of the given size with one type of a hundred particles
    /// not placed yet, a zero coefficient, radii of one and ten units,
    /// friction 0.1, unit speed and bouncing edges.
    pub fn new(width: i64, height: i64) -> (u: Universe)
        requires
            0 < width <= LIMIT,
            0 < height <= LIMIT,
        ensures
            u.wf(),
            u.n_types == 1,
            u.particle_per_type == 100,
            u.params == (SimParams {
                min_r: ONE,
                max_r: 10_000_000,
                friction: 100_000,
                speed: ONE,
                wrap: false,
                width,
                height,
            }),
            u.matrix.coef(0, 0) == 0,
            u.particles@.len() == 0,
    {
        Universe {
            n_types: 1,
            particle_per_type: 100,
            params: SimParams {
                min_r: ONE,
                max_r: 10 * ONE,
                friction: 100_000,
                speed: ONE,
                wrap: false,
                width,
                height,
            },
            matrix: AttractionMatrix::new(1),
            particles: Vec::new(),
        }
    }

    /// Places a fresh population: `particle_per_type` particles of each
    /// type at random positions, at rest, grouped by type.
    pub fn init_particle(&mut self)
        requires
            old(self).wf(),
        ensures
            final(self).wf(),
            placed(
                final(self).particles@,
                old(self).n_types as int,
                old(self).particle_per_type as int,
                old(self).params.width as int,
                old(self).params.height as int,
            ),
            final(self).n_types == old(self).n_types,
            final(self).particle_per_type == old(self).particle_per_type,
            final(self).params == old(self).params,
            final(self).matrix == old(self).matrix,
    {
        let ps = create_particles(
            self.n_types,
            self.particle_per_type,
            self.params.width,
            self.params.height,
        );
        proof {
            let n = self.n_types as int;
            let per = self.particle_per_type as int;
            assert forall|k: int| 0 <= k < ps@.len() implies (#[trigger] ps@[k]).ptype < n by {
                let t = ps@[k].ptype as int;
                if t >= n {
                    assert(t * per >= n * per) by (nonlinear_arith)
                        requires
                            t >= n,
                            per >= 0,
                    ;
                }
            }
            assert forall|k: int| 0 <= k < ps@.len() implies (#[trigger] ps@[k]).in_range() by {
                assert(0 <= ps@[k].x < self.params.width);
            }
        }
        self.particles = ps;
    }

    /// Takes new counts and parameters and places a fresh population. The
    /// universe gets `params.n_types + 1` types. The matrix keeps the entries of the types that remain. Invalid parameters
    /// are refused, with the first thing wrong, and change nothing.
    pub fn init(&mut self, params: UniverseParams) -> (r: Result<(), ConfigError>)
        requires
            old(self).wf(),
        ensures
            final(self).wf(),
            params_error(params) matches Some(e) ==> {
                &&& r == Err::<(), ConfigError>(e)
                &&& final(self).n_types == old(self).n_types
                &&& final(self).particle_per_type == old(self).particle_per_type
                &&& final(self).params == old(self).params
                &&& final(self).matrix == old(self).matrix
                &&& final(self).particles@ == old(self).particles@
            },
            params_error(params) is None ==> {
                &&& r is Ok
                &&& final(self).n_types == params.n_types + 1
                &&& final(self).particle_per_type == params.particle_per_type
                &&& final(self).params == (SimParams {
                    min_r: params.min_r,
                    max_r: params.max_r,
                    friction: params.friction,
                    speed: params.speed,
                    wrap: params.wrap,
                    width: old(self).params.width,
                    height: old(self).params.height,
                })
                &&& AttractionMatrix::resized_from(&final(self).matrix, &old(self).matrix)
                &&& placed(
                    final(self).particles@,
                    params.n_types + 1,
                    params.particle_per_type as int,
                    old(self).params.width as int,
                    old(self).params.height as int,
                )
            },
    {
        if params.n_types >= MAX_TYPES as u32 {
            return Err(ConfigError::TooManyTypes);
        }
        let n_types: u32 = params.n_types + 1;
        assert(n_types * params.particle_per_type <= 16 * 0xffff_ffff) by (nonlinear_arith)
            requires
                n_types <= 16,
                params.particle_per_type <= 0xffff_ffff,
        ;
        if n_types as u64 * params.particle_per_type as u64 > MAX_PARTICLES as u64 {
            return Err(ConfigError::TooManyParticles);
        }
        if !(0 <= params.min_r && params.min_r <= params.max_r && params.max_r <= LIMIT) {
            return Err(ConfigError::BadRadii);
        }
        if !(0 <= params.friction && params.friction <= ONE) {
            return Err(ConfigError::BadFriction);
        }
        if params.speed < -LIMIT || params.speed > LIMIT {
            return Err(ConfigError::BadSpeed);
        }
        self.n_types = n_types;
        self.particle_per_type = params.particle_per_type;
        self.params = SimParams {
            min_r: params.min_r,
            max_r: params.max_r,
            friction: params.friction,
            speed: params.speed,
            wrap: params.wrap,
            width: self.params.width,
            height: self.params.height,
        };
        self.matrix.resize(n_types as usize);
        self.particles = Vec::new();
        self.init_particle();
        Ok(())
    }

    /// Advances every particle by one tick of length `dt` with the
    /// sequential executor. When some particle would leave the fixed-point
    /// range the tick is refused and nothing changes.
    pub fn step(&mut self, dt: i64) -> (r: Result<(), TickError>)
        requires
            old(self).wf(),
            0 <= dt <= MAX_DT,
        ensures
            final(self).wf(),
            r is Ok <==> tick_fits(old(self).particles@, old(self).matrix, old(self).params, dt as int),
            r is Ok ==> advanced(
                old(self).particles@,
                final(self).particles@,
                old(self).matrix,
                old(self).params,
                dt as int,
            ),
            r is Err ==> final(self).particles@ == old(self).particles@,
            final(self).n_types == old(self).n_types,
            final(self).particle_per_type == old(self).particle_per_type,
            final(self).params == old(self).params,
            final(self).matrix == old(self).matrix,
    {
        tick(&mut self.particles, &self.matrix, &self.params, dt)
    }

    /// Sets the coefficient that type `r` feels from type `c`, clamped to `[-ONE, ONE]`.
    pub fn set_attraction(&mut self, r: u32, c: u32, g: i64)
        requires
            old(self).wf(),
            r < old(self).n_types,
            c < old(self).n_types,
        ensures
            final(self).wf(),
            final(self).matrix.coef(r as int, c as int) == clamp(g as int, -ONE as int, ONE as int),
            forall|i: int, j: int|
                0 <= i < old(self).n_types && 0 <= j < old(self).n_types && (i != r || j != c)
                    ==> #[trigger] final(self).matrix.coef(i, j) == old(self).matrix.coef(i, j),
            final(self).n_types == old(self).n_types,
            final(self).particle_per_type == old(self).particle_per_type,
            final(self).params == old(self).params,
            final(self).particles@ == old(self).particles@,
    {
        self.matrix.set(r as usize, c as usize, g);
    }

    /// Draws every coefficient of the active types anew.
    pub fn randomize_attractions(&mut self)
        requires
            old(self).wf(),
        ensures
            final(self).wf(),
            final(self).n_types == old(self).n_types,
            final(self).particle_per_type == old(self).particle_per_type,
            final(self).params == old(self).params,
            final(self).particles@ == old(self).particles@,
    {
        self.matrix.randomize();
    }

    /// The particles, for drawing.
    pub fn particles(&self) -> (ps: &Vec<Particle>)
        ensures
            ps@ == self.particles@,
    {
        &self.particles
    }

    /// What is saved of this universe: the counts, the active block of the
    /// matrix row by row, the radii and the friction.
    pub fn save_settings(&self) -> (s: SimulationSettings)
        requires
            self.wf(),
        ensures
            s.n_types == self.n_types,
            s.particle_per_type == self.particle_per_type,
            s.min_r == self.params.min_r,
            s.max_r == self.params.max_r,
            s.friction == self.params.friction,
            s.attraction_matrix@.len() == self.n_types,
            forall|i: int|
                0 <= i < self.n_types ==> (#[trigger] s.attraction_matrix@[i])@.len()
                    == self.n_types,
            forall|i: int, j: int|
                0 <= i < self.n_types && 0 <= j < self.n_types
                    ==> #[trigger] s.attraction_matrix@[i]@[j] == self.matrix.coef(i, j),
    {
        let n = self.n_types as usize;
        let mut rows: Vec<Vec<i64>> = Vec::new();
        let mut i: usize = 0;
        while i < n
            invariant
                self.wf(),
                n == self.n_types,
                i <= n,
                rows@.len() == i,
                forall|a: int| 0 <= a < i ==> (#[trigger] rows@[a])@.len() == n,
                forall|a: int, b: int|
                    0 <= a < i && 0 <= b < n ==> #[trigger] rows@[a]@[b] == self.matrix.coef(a, b),
            decreases n - i,
        {
            let mut row: Vec<i64> = Vec::new();
            let mut j: usize = 0;
            while j < n
                invariant
                    self.wf(),
                    n == self.n_types,
                    i < n,
                    j <= n,
                    row@.len() == j,
                    forall|b: int| 0 <= b < j ==> #[trigger] row@[b] == self.matrix.coef(i as int, b),
                decreases n - j,
            {
                row.push(self.matrix.get(i, j));
                j = j + 1;
            }
            rows.push(row);
            i = i + 1;
        }
        SimulationSettings {
            n_types: self.n_types,
            particle_per_type: self.particle_per_type,
            attraction_matrix: rows,
            min_r: self.params.min_r,
            max_r: self.params.max_r,
            friction: self.params.friction,
        }
    }

    /// Restores saved settings: the matrix is first resized to the saved
    /// type count, then the saved coefficients are written into it, and a
    /// fresh population is placed. Invalid settings are refused, with the
    /// first thing wrong, and change nothing.
    #[verifier::loop_isolation(false)]
    pub fn load_settings(&mut self, s: &SimulationSettings) -> (r: Result<(), ConfigError>)
        requires
            old(self).wf(),
        ensures
            final(self).wf(),
            settings_error(s) matches Some(e) ==> {
                &&& r == Err::<(), ConfigError>(e)
                &&& final(self).n_types == old(self).n_types
                &&& final(self).particle_per_type == old(self).particle_per_type
                &&& final(self).params == old(self).params
                &&& final(self).matrix == old(self).matrix
                &&& final(self).particles@ == old(self).particles@
            },
            settings_error(s) is None ==> {
                &&& r is Ok
                &&& final(self).n_types == s.n_types
                &&& final(self).particle_per_type == s.particle_per_type
                &&& final(self).params == (SimParams {
                    min_r: s.min_r,
                    max_r: s.max_r,
                    friction: s.friction,
                    ..old(self).params
                })
                &&& forall|i: int, j: int|
                    0 <= i < s.n_types && 0 <= j < s.n_types ==> #[trigger] final(self).matrix.coef(i, j)
                        == s.attraction_matrix@[i]@[j]
                &&& placed(
                    final(self).particles@,
                    s.n_types as int,
                    s.particle_per_type as int,
                    old(self).params.width as int,
                    old(self).params.height as int,
                )
            },
    {
        if s.n_types < 1 {
            return Err(ConfigError::NoTypes);
        }
        if s.n_types > MAX_TYPES as u32 {
            return Err(ConfigError::TooManyTypes);
        }
        assert(s.n_types * s.particle_per_type <= 16 * 0xffff_ffff) by (nonlinear_arith)
            requires
                s.n_types <= 16,
                s.particle_per_type <= 0xffff_ffff,
        ;
        if s.n_types as u64 * s.particle_per_type as u64 > MAX_PARTICLES as u64 {
            return Err(ConfigError::TooManyParticles);
        }
        if !(0 <= s.min_r && s.min_r <= s.max_r && s.max_r <= LIMIT) {
            return Err(ConfigError::BadRadii);
        }
        if !(0 <= s.friction && s.friction <= ONE) {
            return Err(ConfigError::BadFriction);
        }
        let n = s.n_types as usize;
        let rows = &s.attraction_matrix;
        if rows.len() != n {
            return Err(ConfigError::BadMatrixShape);
        }
        let mut i: usize = 0;
        while i < n
            invariant
                n == s.n_types,
                rows@ == s.attraction_matrix@,
                rows@.len() == n,
                i <= n,
                forall|a: int| 0 <= a < i ==> (#[trigger] rows@[a])@.len() == n,
            decreases n - i,
        {
            if rows[i].len() != n {
                assert(rows@[i as int]@.len() != n);
                return Err(ConfigError::BadMatrixShape);
            }
            i = i + 1;
        }
        let mut i: usize = 0;
        while i < n
            invariant
                n == s.n_types,
                rows@ == s.attraction_matrix@,
                rows@.len() == n,
                forall|a: int| 0 <= a < n ==> (#[trigger] rows@[a])@.len() == n,
                i <= n,
                forall|a: int, b: int|
                    0 <= a < i && 0 <= b < n ==> -ONE <= #[trigger] rows@[a]@[b] <= ONE,
            decreases n - i,
        {
            let mut j: usize = 0;
            while j < n
                invariant
                    n == s.n_types,
                    rows@ == s.attraction_matrix@,
                    rows@.len() == n,
                    forall|a: int| 0 <= a < n ==> (#[trigger] rows@[a])@.len() == n,
                    i < n,
                    j <= n,
                    forall|a: int, b: int|
                        0 <= a < i && 0 <= b < n ==> -ONE <= #[trigger] rows@[a]@[b] <= ONE,
                    forall|b: int| 0 <= b < j ==> -ONE <= #[trigger] rows@[i as int]@[b] <= ONE,
                decreases n - j,
            {
                let g = rows[i][j];
                if g < -ONE || g > ONE {
                    assert(!(-ONE <= rows@[i as int]@[j as int] <= ONE));
                    return Err(ConfigError::BadCoefficient);
                }
                j = j + 1;
            }
            i = i + 1;
        }
        assert(settings_error(s) is None);
        self.matrix.resize(n);
        let mut i: usize = 0;
        while i < n
            invariant
                n == s.n_types,
                1 <= n <= MAX_TYPES,
                rows@ == s.attraction_matrix@,
                rows@.len() == n,
                forall|a: int| 0 <= a < n ==> (#[trigger] rows@[a])@.len() == n,
                forall|a: int, b: int| 0 <= a < n && 0 <= b < n ==> -ONE <= #[trigger] rows@[a]@[b] <= ONE,
                self.matrix.wf(),
                self.matrix.n_types == n,
                self.params == old(self).params,
                i <= n,
                forall|a: int, b: int|
                    0 <= a < i && 0 <= b < n ==> #[trigger] self.matrix.coef(a, b) == rows@[a]@[b],
            decreases n - i,
        {
            let mut j: usize = 0;
            while j < n
                invariant
                    n == s.n_types,
                    1 <= n <= MAX_TYPES,
                    rows@ == s.attraction_matrix@,
                    rows@.len() == n,
                    forall|a: int| 0 <= a < n ==> (#[trigger] rows@[a])@.len() == n,
                    forall|a: int, b: int|
                        0 <= a < n && 0 <= b < n ==> -ONE <= #[trigger] rows@[a]@[b] <= ONE,
                    self.matrix.wf(),
                    self.matrix.n_types == n,
                    self.params == old(self).params,
                    i < n,
                    j <= n,
                    forall|a: int, b: int|
                        0 <= a < i && 0 <= b < n ==> #[trigger] self.matrix.coef(a, b)
                            == rows@[a]@[b],
                    forall|b: int| 0 <= b < j ==> #[trigger] self.matrix.coef(i as int, b) == rows@[i as int]@[b],
                decreases n - j,
            {
                let g = rows[i][j];
                self.matrix.set(i, j, g);
                j = j + 1;
            }
            i = i + 1;
        }
        self.n_types = s.n_types;
        self.particle_per_type = s.particle_per_type;
        self.params = SimParams {
            min_r: s.min_r,
            max_r: s.max_r,
            friction: s.friction,
            speed: self.params.speed,
            wrap: self.params.wrap,
            width: self.params.width,
            height: self.params.height,
        };
        self.particles = Vec::new();
        self.init_particle();
        Ok(())
    }
}

} // verus!
