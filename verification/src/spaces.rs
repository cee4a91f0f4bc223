//! Dense occupancy bitset over the voxel grid, one bit per cell.

use vstd::prelude::*;
use vstd::arithmetic::div_mod::{
    lemma_fundamental_div_mod, lemma_fundamental_div_mod_converse, lemma_div_is_ordered,
    lemma_mod_bound, lemma_div_pos_is_pos,
};
use vstd::set_lib::{set_int_range, lemma_int_range, lemma_len_subset};
use vstd::slice::SliceAdditionalExecFns;
use crate::direction::{Cell, GridDims};

verus! {

broadcast use vstd::set::group_set_axioms;

/// Linear index of a cell: X varies fastest, then Y, then Z.
pub open spec fn lin_index(dims: GridDims, c: Cell) -> int {
    c.x + c.y * dims.width + c.z * (dims.width * dims.height)
}

/// True when bit `b` of `word` is set.
pub open spec fn word_bit(word: u64, b: u64) -> bool {
    (word >> b) & 1 == 1
}

/// Bit `b` of the zero word is clear.
proof fn lemma_word_bit_zero(b: u64)
    by (bit_vector)
    ensures
        !word_bit(0u64, b),
{
}

/// Or-ing in a single-bit mask sets exactly that bit.
proof fn lemma_word_bit_or(word: u64, b: u64, j: u64)
    by (bit_vector)
    requires
        b < 64,
        j < 64,
    ensures
        word_bit(word | (1u64 << b), j) == (j == b || word_bit(word, j)),
{
}

/// The linear index of every in-bounds cell lies inside `[0, volume)`.
pub proof fn lemma_lin_index_in_range(dims: GridDims, c: Cell)
    requires
        dims.wf(),
        dims.contains_cell(c),
    ensures
        0 <= lin_index(dims, c) < dims.volume(),
{
    assert(0 <= c.x + c.y * dims.width + c.z * (dims.width * dims.height) < dims.width
        * dims.height * dims.depth) by (nonlinear_arith)
        requires
            c.x < dims.width,
            c.y < dims.height,
            c.z < dims.depth,
            1 <= dims.width,
            1 <= dims.height,
            1 <= dims.depth,
    ;
}

/// Distinct in-bounds cells have distinct linear indices: the bitset keeps
/// one private bit for every cell of the grid, so no two placed segments can
/// share a cell without the occupancy check seeing it.
pub proof fn lemma_lin_index_injective(dims: GridDims, c1: Cell, c2: Cell)
    requires
        dims.wf(),
        dims.contains_cell(c1),
        dims.contains_cell(c2),
        lin_index(dims, c1) == lin_index(dims, c2),
    ensures
        c1 == c2,
{
    let w = dims.width as int;
    let h = dims.height as int;
    let i1 = lin_index(dims, c1);
    let i2 = lin_index(dims, c2);
    assert((c1.y + h * c1.z) * w + c1.x == i1 && (c2.y + h * c2.z) * w + c2.x == i2)
        by (nonlinear_arith)
        requires
            i1 == c1.x + c1.y * dims.width + c1.z * (dims.width * dims.height),
            i2 == c2.x + c2.y * dims.width + c2.z * (dims.width * dims.height),
            w == dims.width,
            h == dims.height,
    ;
    assert(0 <= c1.y + h * c1.z && 0 <= c2.y + h * c2.z) by (nonlinear_arith)
        requires
            h >= 1,
            c1.y >= 0,
            c1.z >= 0,
            c2.y >= 0,
            c2.z >= 0,
    ;
    lemma_fundamental_div_mod_converse(i1, w, c1.y + h * c1.z, c1.x as int);
    lemma_fundamental_div_mod_converse(i2, w, c2.y + h * c2.z, c2.x as int);
    let q = c1.y + h * c1.z;
    assert(c1.z * h + c1.y == q && c2.z * h + c2.y == q) by (nonlinear_arith)
        requires
            q == c1.y + h * c1.z,
            q == c2.y + h * c2.z,
    ;
    lemma_fundamental_div_mod_converse(q, h, c1.z as int, c1.y as int);
    lemma_fundamental_div_mod_converse(q, h, c2.z as int, c2.y as int);
}

/// After marking one cell, that cell reads back occupied, every other cell
/// reads back exactly as before, and on a cleared grid every cell reads
/// back unoccupied. Stated over the occupancy view that `set`, `get` and
/// `clear` are specified against.
pub proof fn lemma_bitset_round_trip(s: Spaces, c: Cell, other: Cell)
    requires
        s.wf(),
        s.dims.contains_cell(c),
        s.dims.contains_cell(other),
    ensures
        s.occ().insert(lin_index(s.dims, c)).contains(lin_index(s.dims, c)),
        other != c ==> s.occ().insert(lin_index(s.dims, c)).contains(lin_index(s.dims, other))
            == s.occ().contains(lin_index(s.dims, other)),
        !Set::<int>::empty().contains(lin_index(s.dims, other)),
{
    if other != c && lin_index(s.dims, c) == lin_index(s.dims, other) {
        lemma_lin_index_injective(s.dims, c, other);
    }
}

/// The error a checked occupancy access reports: the coordinate left the
/// grid on some axis. Callers of the unchecked accessors must never let
/// this happen; the checked accessors surface it instead of reading memory
/// that belongs to another cell.
#[derive(Debug, Copy, Clone, PartialEq, Eq, Structural)]
pub enum SpacesError {
    OutOfBounds,
}

/// Tracks which cells are occupied by a placed pipe segment. The bit for a
/// cell sits at its linear index, packed into 64-bit words; bits are set as
/// pipes grow and only return to zero on a full clear.
#[derive(Debug, Clone)]
pub struct Spaces {
    pub dims: GridDims,
    pub words: Vec<u64>,
    pub count: usize,
}

impl Spaces {
    /// The set of linear indices of occupied cells.
    pub open spec fn occ(self) -> Set<int> {
        Set::new(
            |i: int|
                0 <= i < self.dims.volume() && word_bit(self.words@[i / 64], (i % 64) as u64),
        )
    }

    /// True when the cell at the given coordinates is occupied.
    pub open spec fn occupied(self, c: Cell) -> bool {
        self.occ().contains(lin_index(self.dims, c))
    }

    /// The words cover exactly the grid volume and the cached count matches
    /// the number of occupied cells.
    pub open spec fn wf(self) -> bool {
        &&& self.dims.wf()
        &&& self.words@.len() == (self.dims.volume() - 1) / 64 + 1
        &&& self.count == self.occ().len()
    }

    /// The occupied set is finite, bounded by the grid volume, and contained
    /// in the linear index range of the grid.
    pub proof fn lemma_occ_bound(self)
        requires
            self.dims.wf(),
        ensures
            self.occ().finite(),
            self.occ().subset_of(set_int_range(0, self.dims.volume())),
            self.occ().len() <= self.dims.volume(),
    {
        self.dims.lemma_volume_bound();
        lemma_int_range(0, self.dims.volume());
        assert(self.occ().subset_of(set_int_range(0, self.dims.volume())));
        lemma_len_subset(self.occ(), set_int_range(0, self.dims.volume()));
    }

    /// A word array of zeroes holds no occupied cell.
    proof fn lemma_all_zero_occ_empty(self)
        requires
            self.dims.wf(),
            self.words@.len() == (self.dims.volume() - 1) / 64 + 1,
            forall|j: int| 0 <= j < self.words@.len() ==> self.words@[j] == 0u64,
        ensures
            self.occ() == Set::<int>::empty(),
    {
        self.dims.lemma_volume_bound();
        assert forall|i: int| !self.occ().contains(i) by {
            if 0 <= i < self.dims.volume() {
                lemma_div_pos_is_pos(i, 64);
                lemma_div_is_ordered(i, self.dims.volume() - 1, 64);
                lemma_mod_bound(i, 64);
                lemma_word_bit_zero((i % 64) as u64);
            }
        }
        assert(self.occ() =~= Set::<int>::empty());
    }

    /// Allocates a grid with every cell unoccupied.
    pub fn new(dims: GridDims) -> (s: Spaces)
        requires
            dims.wf(),
        ensures
            s.wf(),
            s.dims == dims,
            s.occ() == Set::<int>::empty(),
            s.count == 0,
    {
        proof {
            dims.lemma_volume_bound();
        }
        let n_cells = dims.cell_count();
        let n_words = (n_cells - 1) / 64 + 1;
        let mut words: Vec<u64> = Vec::new();
        while words.len() < n_words
            invariant
                words@.len() <= n_words,
                forall|j: int| 0 <= j < words@.len() ==> words@[j] == 0u64,
            decreases n_words - words@.len(),
        {
            words.push(0u64);
        }
        let s = Spaces { dims, words, count: 0 };
        proof {
            s.lemma_all_zero_occ_empty();
        }
        s
    }

    /// Reports how many cells are currently occupied.
    pub fn occupied_count(&self) -> (n: usize)
        requires
            self.wf(),
        ensures
            n == self.occ().len(),
    {
        self.count
    }

    /// Computes the linear index of an in-bounds cell.
    fn index_of(&self, x: usize, y: usize, z: usize) -> (idx: usize)
        requires
            self.wf(),
            self.dims.contains_cell(Cell { x, y, z }),
        ensures
            idx == lin_index(self.dims, Cell { x, y, z }),
            idx < self.dims.volume(),
            idx / 64 < self.words@.len(),
            idx % 64 < 64,
    {
        proof {
            lemma_lin_index_in_range(self.dims, Cell { x, y, z });
            self.dims.lemma_volume_bound();
            assert(y * self.dims.width <= 1024 * 1024 && z * (self.dims.width * self.dims.height)
                <= 1024 * 1024 * 1024 && self.dims.width * self.dims.height <= 1024 * 1024)
                by (nonlinear_arith)
                requires
                    y < self.dims.height <= 1024,
                    z < self.dims.depth <= 1024,
                    1 <= self.dims.width <= 1024,
                    1 <= self.dims.height <= 1024,
            ;
        }
        let idx = x + y * self.dims.width + z * (self.dims.width * self.dims.height);
        proof {
            lemma_div_is_ordered(idx as int, self.dims.volume() - 1, 64);
            lemma_div_pos_is_pos(idx as int, 64);
            lemma_mod_bound(idx as int, 64);
        }
        idx
    }

    /// Marks a cell occupied. Out-of-bounds coordinates are a caller error
    /// that the precondition rules out; `try_set` is the checked form.
    pub fn set(&mut self, x: usize, y: usize, z: usize)
        requires
            old(self).wf(),
            old(self).dims.contains_cell(Cell { x, y, z }),
        ensures
            final(self).wf(),
            final(self).dims == old(self).dims,
            final(self).occ() == old(self).occ().insert(
                lin_index(old(self).dims, Cell { x, y, z }),
            ),
            final(self).count == old(self).count + if old(self).occupied(Cell { x, y, z }) {
                0int
            } else {
                1int
            },
    {
        let idx = self.index_of(x, y, z);
        let w = idx / 64;
        let b = (idx % 64) as u64;
        let word = self.words[w];
        let already = ((word >> b) & 1) == 1;
        proof {
            lemma_fundamental_div_mod(idx as int, 64);
            self.lemma_occ_bound();
            self.dims.lemma_volume_bound();
            if !already {
                lemma_int_range(0, self.dims.volume());
                self.occ().lemma_subset_not_in_lt(
                    set_int_range(0, self.dims.volume()),
                    idx as int,
                );
            }
        }
        if !already {
            self.words.set(w, word | (1u64 << b));
            self.count = self.count + 1;
        }
        proof {
            let pre = *old(self);
            let post = *self;
            let t = lin_index(pre.dims, Cell { x, y, z });
            assert forall|i: int| post.occ().contains(i) == pre.occ().insert(t).contains(i) by {
                if 0 <= i < pre.dims.volume() {
                    lemma_mod_bound(i, 64);
                    lemma_div_pos_is_pos(i, 64);
                    lemma_fundamental_div_mod(i, 64);
                    lemma_div_is_ordered(i, pre.dims.volume() - 1, 64);
                    if !already && i / 64 == idx as int / 64 {
                        lemma_word_bit_or(word, b, (i % 64) as u64);
                    }
                }
            }
            assert(post.occ() =~= pre.occ().insert(t));
        }
    }

    /// Marks a cell occupied after checking bounds; reports the violation
    /// instead of touching any bit when the cell is outside the grid.
    pub fn try_set(&mut self, x: usize, y: usize, z: usize) -> (r: Result<(), SpacesError>)
        requires
            old(self).wf(),
        ensures
            final(self).wf(),
            final(self).dims == old(self).dims,
            old(self).dims.contains_cell(Cell { x, y, z }) ==> r == Ok::<(), SpacesError>(())
                && final(self).occ() == old(self).occ().insert(
                lin_index(old(self).dims, Cell { x, y, z }),
            ),
            !old(self).dims.contains_cell(Cell { x, y, z }) ==> r == Err::<(), SpacesError>(
                SpacesError::OutOfBounds,
            ) && *final(self) == *old(self),
    {
        if x < self.dims.width && y < self.dims.height && z < self.dims.depth {
            self.set(x, y, z);
            Ok(())
        } else {
            Err(SpacesError::OutOfBounds)
        }
    }

    /// Gets whether a cell is occupied. Out-of-bounds coordinates are a
    /// caller error that the precondition rules out; `try_get` is the
    /// checked form.
    pub fn get(&self, x: usize, y: usize, z: usize) -> (r: bool)
        requires
            self.wf(),
            self.dims.contains_cell(Cell { x, y, z }),
        ensures
            r == self.occupied(Cell { x, y, z }),
    {
        let idx = self.index_of(x, y, z);
        let w = idx / 64;
        let b = (idx % 64) as u64;
        ((self.words[w] >> b) & 1) == 1
    }

    /// Gets whether a cell is occupied after checking bounds; reports the
    /// violation instead of reading another cell's bit when the coordinate
    /// is outside the grid.
    pub fn try_get(&self, x: usize, y: usize, z: usize) -> (r: Result<bool, SpacesError>)
        requires
            self.wf(),
        ensures
            self.dims.contains_cell(Cell { x, y, z }) ==> r == Ok::<bool, SpacesError>(
                self.occupied(Cell { x, y, z }),
            ),
            !self.dims.contains_cell(Cell { x, y, z }) ==> r == Err::<bool, SpacesError>(
                SpacesError::OutOfBounds,
            ),
    {
        if x < self.dims.width && y < self.dims.height && z < self.dims.depth {
            Ok(self.get(x, y, z))
        } else {
            Err(SpacesError::OutOfBounds)
        }
    }

    /// Marks the given cell occupied.
    pub fn set_cell(&mut self, c: Cell)
        requires
            old(self).wf(),
            old(self).dims.contains_cell(c),
        ensures
            final(self).wf(),
            final(self).dims == old(self).dims,
            final(self).occ() == old(self).occ().insert(lin_index(old(self).dims, c)),
            final(self).count == old(self).count + if old(self).occupied(c) {
                0int
            } else {
                1int
            },
    {
        self.set(c.x, c.y, c.z)
    }

    /// Gets whether the given cell is occupied.
    pub fn get_cell(&self, c: Cell) -> (r: bool)
        requires
            self.wf(),
            self.dims.contains_cell(c),
        ensures
            r == self.occupied(c),
    {
        self.get(c.x, c.y, c.z)
    }

    /// Clears all the spaces.
    pub fn clear(&mut self)
        requires
            old(self).wf(),
        ensures
            final(self).wf(),
            final(self).dims == old(self).dims,
            final(self).occ() == Set::<int>::empty(),
            final(self).count == 0,
    {
        let n = self.words.len();
        let mut i: usize = 0;
        while i < n
            invariant
                i <= n,
                n == self.words@.len(),
                self.dims == old(self).dims,
                self.words@.len() == old(self).words@.len(),
                forall|j: int| 0 <= j < i ==> self.words@[j] == 0u64,
            decreases n - i,
        {
            self.words.set(i, 0u64);
            i = i + 1;
        }
        self.count = 0;
        proof {
            self.lemma_all_zero_occ_empty();
        }
    }
}

} // verus!
