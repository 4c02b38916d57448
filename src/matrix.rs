//! The attraction matrix: a square table of force coefficients, one per
//! ordered pair of particle types.
//!
//! The table always has room for `MAX_TYPES` types. Only the top-left block
//! of the active type count is meaningful; it is laid out row by row with
//! the active count as stride, and every entry past it is zero. Entry
//! `(r, c)` is the coefficient that a particle of type `r` feels from a
//! particle of type `c`.

use vstd::prelude::*;
use crate::fixed::ONE;
use crate::random::random_in;

verus! {

/// Most particle types a simulation can have.
pub const MAX_TYPES: usize = 16;

/// Number of entries of the backing table.
pub const TABLE_LEN: usize = 256;

pub open spec fn min(a: int, b: int) -> int {
    if a < b {
        a
    } else {
        b
    }
}

pub open spec fn clamp(v: int, lo: int, hi: int) -> int {
    if v < lo {
        lo
    } else if v > hi {
        hi
    } else {
        v
    }
}

pub struct AttractionMatrix {
    pub table: Vec<i64>,
    pub n_types: usize,
}

/// Entry `(i, j)` of an `n`-type block lies at `i * n + j`, inside the block.
pub proof fn lemma_index_in_block(i: int, j: int, n: int)
    requires
        0 <= i < n,
        0 <= j < n,
    ensures
        0 <= i * n + j < n * n,
{
    assert(0 <= i * n + j < n * n) by (nonlinear_arith)
        requires
            0 <= i < n,
            0 <= j < n,
    ;
}

/// Distinct cells of an `n`-type block have distinct indices.
pub proof fn lemma_index_injective(i: int, j: int, i2: int, j2: int, n: int)
    requires
        0 <= i,
        0 <= i2,
        0 <= j < n,
        0 <= j2 < n,
        i * n + j == i2 * n + j2,
    ensures
        i == i2,
        j == j2,
{
    if i < i2 {
        assert(i * n + j < i2 * n + j2) by (nonlinear_arith)
            requires
                i < i2,
                0 <= j < n,
                0 <= j2,
        ;
    } else if i2 < i {
        assert(i2 * n + j2 < i * n + j) by (nonlinear_arith)
            requires
                i2 < i,
                0 <= j2 < n,
                0 <= j,
        ;
    }
}

/// `n * n` fits the table when `n <= MAX_TYPES`.
proof fn lemma_block_fits(n: int)
    requires
        0 <= n <= MAX_TYPES,
    ensures
        n * n <= TABLE_LEN,
{
    assert(n * n <= 16 * 16) by (nonlinear_arith)
        requires
            0 <= n <= 16,
    ;
}

fn zero_table() -> (t: Vec<i64>)
    ensures
        t.len() == TABLE_LEN,
        forall|k: int| 0 <= k < TABLE_LEN ==> t@[k] == 0,
{
    let mut t: Vec<i64> = Vec::new();
    let mut k: usize = 0;
    while k < TABLE_LEN
        invariant
            k <= TABLE_LEN,
            t.len() == k,
            forall|m: int| 0 <= m < k ==> t@[m] == 0,
        decreases TABLE_LEN - k,
    {
        t.push(0);
        k = k + 1;
    }
    t
}

impl AttractionMatrix {
    pub open spec fn wf(&self) -> bool {
        &&& self.table.len() == TABLE_LEN
        &&& self.n_types <= MAX_TYPES
        &&& forall|k: int| 0 <= k < TABLE_LEN ==> -ONE <= #[trigger] self.table@[k] <= ONE
        &&& forall|k: int|
            self.n_types * self.n_types <= k < TABLE_LEN ==> #[trigger] self.table@[k] == 0
    }

    /// The coefficient that type `r` feels from type `c`.
    pub open spec fn coef(&self, r: int, c: int) -> int {
        self.table@[r * self.n_types + c] as int
    }

    /// `next` is `prev` resized to `next.n_types` types: the entries of both
    /// indices below the smaller count are kept, every other entry is zero.
    pub open spec fn resized_from(next: &AttractionMatrix, prev: &AttractionMatrix) -> bool {
        let keep = min(prev.n_types as int, next.n_types as int);
        forall|i: int, j: int|
            0 <= i < next.n_types && 0 <= j < next.n_types ==> #[trigger] next.coef(i, j) == if i
                < keep && j < keep {
                prev.coef(i, j)
            } else {
                0
            }
    }

    /// A matrix of `n_types` types whose coefficients are all zero.
    pub fn new(n_types: usize) -> (m: AttractionMatrix)
        requires
            n_types <= MAX_TYPES,
        ensures
            m.wf(),
            m.n_types == n_types,
            forall|i: int, j: int|
                0 <= i < n_types && 0 <= j < n_types ==> #[trigger] m.coef(i, j) == 0,
    {
        let table = zero_table();
        let m = AttractionMatrix { table, n_types };
        assert forall|i: int, j: int| 0 <= i < n_types && 0 <= j < n_types implies #[trigger] m.coef(
            i,
            j,
        ) == 0 by {
            lemma_index_in_block(i, j, n_types as int);
            lemma_block_fits(n_types as int);
        }
        m
    }

    /// The coefficient that type `r` feels from type `c`.
    pub fn get(&self, r: usize, c: usize) -> (g: i64)
        requires
            self.wf(),
            r < self.n_types,
            c < self.n_types,
        ensures
            g == self.coef(r as int, c as int),
            -ONE <= g <= ONE,
    {
        proof {
            lemma_index_in_block(r as int, c as int, self.n_types as int);
            lemma_block_fits(self.n_types as int);
        }
        self.table[r * self.n_types + c]
    }

    /// Sets the coefficient of `(r, c)` to `g`, clamped to `[-ONE, ONE]`.
    pub fn set(&mut self, r: usize, c: usize, g: i64)
        requires
            old(self).wf(),
            r < old(self).n_types,
            c < old(self).n_types,
        ensures
            final(self).wf(),
            final(self).n_types == old(self).n_types,
            final(self).coef(r as int, c as int) == clamp(g as int, -ONE as int, ONE as int),
            forall|i: int, j: int|
                0 <= i < old(self).n_types && 0 <= j < old(self).n_types && (i != r || j != c)
                    ==> #[trigger] final(self).coef(i, j) == old(self).coef(i, j),
    {
        let n = self.n_types;
        proof {
            lemma_index_in_block(r as int, c as int, n as int);
            lemma_block_fits(n as int);
        }
        let v: i64 = if g < -ONE {
            -ONE
        } else if g > ONE {
            ONE
        } else {
            g
        };
        self.table.set(r * n + c, v);
        assert forall|i: int, j: int|
            0 <= i < n && 0 <= j < n && (i != r || j != c) implies #[trigger] self.coef(i, j)
            == old(self).coef(i, j) by {
            lemma_index_in_block(i, j, n as int);
            if i * n + j == r * n + c {
                lemma_index_injective(i, j, r as int, c as int, n as int);
            }
        }
    }

    /// Changes the number of active types to `new_n`, laying the kept block
    /// out again with the new stride.
    ///
    /// Entries of a type that is removed are lost for good: growing the count
    /// again afterwards brings back zeros, not the old values.
    pub fn resize(&mut self, new_n: usize)
        requires
            old(self).wf(),
            new_n <= MAX_TYPES,
        ensures
            final(self).wf(),
            final(self).n_types == new_n,
            AttractionMatrix::resized_from(final(self), old(self)),
    {
        let old_n = self.n_types;
        let keep: usize = if old_n < new_n {
            old_n
        } else {
            new_n
        };
        let mut table = zero_table();
        proof {
            lemma_block_fits(new_n as int);
            lemma_block_fits(old_n as int);
        }
        assert forall|a: int, b: int| 0 <= a < new_n && 0 <= b < new_n implies #[trigger] table@[a
            * new_n + b] == 0 by {
            lemma_index_in_block(a, b, new_n as int);
        }
        let mut i: usize = 0;
        while i < keep
            invariant
                self.wf(),
                self.n_types == old_n,
                keep == min(old_n as int, new_n as int),
                new_n <= MAX_TYPES,
                i <= keep,
                table.len() == TABLE_LEN,
                forall|k: int| 0 <= k < TABLE_LEN ==> -ONE <= #[trigger] table@[k] <= ONE,
                forall|k: int| new_n * new_n <= k < TABLE_LEN ==> #[trigger] table@[k] == 0,
                forall|a: int, b: int|
                    0 <= a < new_n && 0 <= b < new_n ==> #[trigger] table@[a * new_n + b] == if a
                        < i && b < keep {
                        self.coef(a, b)
                    } else {
                        0
                    },
            decreases keep - i,
        {
            let mut j: usize = 0;
            while j < keep
                invariant
                    self.wf(),
                    self.n_types == old_n,
                    keep == min(old_n as int, new_n as int),
                    new_n <= MAX_TYPES,
                    i < keep,
                    j <= keep,
                    table.len() == TABLE_LEN,
                    forall|k: int| 0 <= k < TABLE_LEN ==> -ONE <= #[trigger] table@[k] <= ONE,
                    forall|k: int| new_n * new_n <= k < TABLE_LEN ==> #[trigger] table@[k] == 0,
                    forall|a: int, b: int|
                        0 <= a < new_n && 0 <= b < new_n ==> #[trigger] table@[a * new_n + b]
                            == if (a < i || (a == i && b < j)) && b < keep {
                            self.coef(a, b)
                        } else {
                            0
                        },
                decreases keep - j,
            {
                proof {
                    lemma_index_in_block(i as int, j as int, new_n as int);
                    lemma_index_in_block(i as int, j as int, old_n as int);
                    lemma_block_fits(new_n as int);
                    lemma_block_fits(old_n as int);
                }
                let v = self.table[i * old_n + j];
                let ghost prev = table@;
                table.set(i * new_n + j, v);
                assert forall|a: int, b: int| 0 <= a < new_n && 0 <= b < new_n implies #[trigger] table@[a
                    * new_n + b] == if (a < i || (a == i && b < j + 1)) && b < keep {
                    self.coef(a, b)
                } else {
                    0
                } by {
                    lemma_index_in_block(a, b, new_n as int);
                    if a * new_n + b == i * new_n + j {
                        lemma_index_injective(a, b, i as int, j as int, new_n as int);
                    } else {
                        assert(table@[a * new_n + b] == prev[a * new_n + b]);
                    }
                }
                j = j + 1;
            }
            i = i + 1;
        }
        self.table = table;
        self.n_types = new_n;
    }

    /// Writes `draws`, row by row, into the active block, each clamped to
    /// `[-ONE, ONE]`.
    pub fn fill(&mut self, draws: &Vec<i64>)
        requires
            old(self).wf(),
            draws.len() == old(self).n_types * old(self).n_types,
        ensures
            final(self).wf(),
            final(self).n_types == old(self).n_types,
            forall|i: int, j: int|
                0 <= i < old(self).n_types && 0 <= j < old(self).n_types ==> #[trigger] final(self).coef(i, j) == clamp(
                    draws@[i * old(self).n_types + j] as int,
                    -ONE as int,
                    ONE as int,
                ),
    {
        let n = self.n_types;
        let mut i: usize = 0;
        while i < n
            invariant
                self.wf(),
                self.n_types == n,
                draws.len() == n * n,
                i <= n,
                forall|a: int, b: int|
                    0 <= a < i && 0 <= b < n ==> #[trigger] self.coef(a, b) == clamp(
                        draws@[a * n + b] as int,
                        -ONE as int,
                        ONE as int,
                    ),
            decreases n - i,
        {
            let mut j: usize = 0;
            while j < n
                invariant
                    self.wf(),
                    self.n_types == n,
                    draws.len() == n * n,
                    i < n,
                    j <= n,
                    forall|a: int, b: int|
                        0 <= a < i && 0 <= b < n ==> #[trigger] self.coef(a, b) == clamp(
                            draws@[a * n + b] as int,
                            -ONE as int,
                            ONE as int,
                        ),
                    forall|b: int|
                        0 <= b < j ==> #[trigger] self.coef(i as int, b) == clamp(
                            draws@[i * n + b] as int,
                            -ONE as int,
                            ONE as int,
                        ),
                decreases n - j,
            {
                proof {
                    lemma_index_in_block(i as int, j as int, n as int);
                }
                let g = draws[i * n + j];
                self.set(i, j, g);
                j = j + 1;
            }
            i = i + 1;
        }
    }

    /// Draws every coefficient of the active block anew, uniformly from `[-ONE, ONE]`.
    pub fn randomize(&mut self)
        requires
            old(self).wf(),
        ensures
            final(self).wf(),
            final(self).n_types == old(self).n_types,
    {
        let n = self.n_types;
        let mut draws: Vec<i64> = Vec::new();
        let mut k: usize = 0;
        proof {
            lemma_block_fits(n as int);
        }
        while k < n * n
            invariant
                n == self.n_types,
                n * n <= TABLE_LEN,
                k <= n * n,
                draws.len() == k,
            decreases n * n - k,
        {
            draws.push(random_in(-ONE, ONE));
            k = k + 1;
        }
        self.fill(&draws);
    }
}

/// Resizing twice keeps only the entries whose indices are below all three
/// type counts; every other entry of the result is zero. In particular a
/// type removed by the first resize does not come back by the second.
pub proof fn lemma_resize_twice(m0: &AttractionMatrix, m1: &AttractionMatrix, m2: &AttractionMatrix)
    requires
        AttractionMatrix::resized_from(m1, m0),
        AttractionMatrix::resized_from(m2, m1),
    ensures
        forall|i: int, j: int|
            0 <= i < m2.n_types && 0 <= j < m2.n_types ==> #[trigger] m2.coef(i, j) == {
                let keep = min(min(m0.n_types as int, m1.n_types as int), m2.n_types as int);
                if i < keep && j < keep {
                    m0.coef(i, j)
                } else {
                    0
                }
            },
{
    assert forall|i: int, j: int| 0 <= i < m2.n_types && 0 <= j < m2.n_types implies #[trigger] m2.coef(
        i,
        j,
    ) == {
        let keep = min(min(m0.n_types as int, m1.n_types as int), m2.n_types as int);
        if i < keep && j < keep {
            m0.coef(i, j)
        } else {
            0
        }
    } by {
        let k12 = min(m1.n_types as int, m2.n_types as int);
        if i < k12 && j < k12 {
            assert(m1.coef(i, j) == if i < min(m0.n_types as int, m1.n_types as int) && j < min(
                m0.n_types as int,
                m1.n_types as int,
            ) {
                m0.coef(i, j)
            } else {
                0
            });
        }
    }
}

} // verus!
