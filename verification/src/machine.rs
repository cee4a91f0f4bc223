//! The growth state machine.
//!
//! Each tick either extends the currently growing pipe by one cell, starts a
//! new pipe, or — when the grid has become too crowded to place a new pipe —
//! clears everything and starts over. The state machine owns the occupancy
//! grid, the per-variant instance collections, and the growth cursor, and
//! keeps them in lockstep: the number of instance records always equals the
//! number of occupied cells, so the bounded instance collections can never
//! overflow their capacity.

use vstd::prelude::*;
use vstd::set_lib::{set_int_range, lemma_int_range};
use crate::candidates::{
    candidate_codes, candidates_new, candidates_push, candidates_len, candidates_get,
};
use crate::direction::{
    Cell, Direction, GridDims, direction_code, direction_from_code, direction_code_spec,
    direction_from_code_spec, offset_cell, lemma_legal_iff_offset_in_bounds,
};
use crate::groups::{
    Color, Instance, InstanceGroups, GROUP_SINGLE, GROUP_START, GROUP_END,
};
use crate::messages::{FlowControl, KeyCode, KeyState, KeyboardEvent};
use crate::resolver::{
    starting_transform, joint_transform, opposite, dir_unit, sp_starting_rotation,
    sp_joint_rotation,
};
use crate::rotation::{is_rotation, rot_identity, sp_rot_identity};
use crate::rng::random_below;
use crate::spaces::{Spaces, lin_index, lemma_lin_index_in_range};

verus! {

broadcast use vstd::set::group_set_axioms;

/// How many milliseconds to wait before causing a pipe to grow.
pub const GROWTH_DURATION_MS: u64 = 50;

/// How many times to try to spawn a new pipe before clearing all the pipes.
pub const MAX_START_ATTEMPTS: u32 = 3;

/// The growth cursor: direction, location and mesh group of the most
/// recently placed segment of the currently growing pipe.
#[derive(Debug, Copy, Clone, PartialEq, Eq, Structural)]
pub struct PreviousSegment {
    pub direction: Direction,
    pub location: Cell,
    pub group: usize,
}

/// The whole simulation: occupancy grid, instance collections, growth
/// cursor, the color shared by the growing pipe's segments, and the time
/// accumulated towards the next growth tick.
#[derive(Debug)]
pub struct SimulationState {
    pub spaces: Spaces,
    pub groups: InstanceGroups,
    pub previous_segment: Option<PreviousSegment>,
    pub current_color: Color,
    pub time_since_growth_ms: u64,
}

/// One instance was appended: the collection grew by the given record,
/// rotated by the cap table's exact entry for `d`, which points the cap
/// mesh along `d`.
pub open spec fn cap_pushed(
    pre_seq: Seq<Instance>,
    post_seq: Seq<Instance>,
    color: Color,
    loc: Cell,
    d: Direction,
) -> bool {
    &&& post_seq.len() == pre_seq.len() + 1
    &&& post_seq.take(post_seq.len() - 1) == pre_seq
    &&& post_seq.last().color == color
    &&& post_seq.last().location == loc
    &&& post_seq.last().rotation == sp_starting_rotation(d)
    &&& is_rotation(post_seq.last().rotation)
    &&& post_seq.last().rotation.y_img == dir_unit(d)
}

/// One joint instance was appended: its rotation is the joint table's
/// exact entry for the pair, which carries the mesh's canonical incoming
/// axis onto `pdir` and, when the pipe bends, the canonical outgoing axis
/// onto `d`.
pub open spec fn joint_pushed(
    pre_seq: Seq<Instance>,
    post_seq: Seq<Instance>,
    color: Color,
    loc: Cell,
    pdir: Direction,
    d: Direction,
) -> bool {
    &&& post_seq.len() == pre_seq.len() + 1
    &&& post_seq.take(post_seq.len() - 1) == pre_seq
    &&& post_seq.last().color == color
    &&& post_seq.last().location == loc
    &&& post_seq.last().rotation == sp_joint_rotation(pdir, d)
    &&& is_rotation(post_seq.last().rotation)
    &&& post_seq.last().rotation.y_img == dir_unit(pdir)
    &&& (pdir != d ==> post_seq.last().rotation.z_img == dir_unit(d))
}

impl SimulationState {
    /// A direction is a usable move from `loc`: it stays inside the grid and
    /// the destination cell is unoccupied.
    pub open spec fn legal_free(self, loc: Cell, d: Direction) -> bool {
        &&& d.is_offset_legal_spec(loc, self.spaces.dims)
        &&& !self.spaces.occupied(offset_cell(d, loc))
    }

    /// The pipe is boxed in at `loc`: no direction is a usable move.
    pub open spec fn no_free_moves(self, loc: Cell) -> bool {
        forall|d: Direction| !self.legal_free(loc, d)
    }

    /// The growth cursor is sound: it sits on an occupied in-bounds cell, it
    /// belongs to the single or end-cap group and that group is nonempty,
    /// and for an end-cap cursor the cell the pipe came from is occupied —
    /// which is what keeps the pipe from ever reversing onto itself.
    pub open spec fn cursor_ok(self, prev: PreviousSegment) -> bool {
        &&& self.spaces.dims.contains_cell(prev.location)
        &&& self.spaces.occupied(prev.location)
        &&& (prev.group == GROUP_SINGLE || prev.group == GROUP_END)
        &&& (prev.group == GROUP_SINGLE ==> self.groups.group(GROUP_SINGLE as int).len() >= 1)
        &&& (prev.group == GROUP_END ==> self.groups.group(GROUP_END as int).len() >= 1)
        &&& (prev.group == GROUP_END ==> {
            let rev = prev.direction.reverse_spec();
            &&& rev.is_offset_legal_spec(prev.location, self.spaces.dims)
            &&& self.spaces.occupied(offset_cell(rev, prev.location))
        })
    }

    /// The simulation invariant: the grid is well formed, the instance
    /// collections share the grid's capacity, the total number of instance
    /// records equals the number of occupied cells, and the cursor is sound.
    pub open spec fn wf(self) -> bool {
        &&& self.spaces.wf()
        &&& self.groups.capacity == self.spaces.dims.volume()
        &&& self.groups.total() == self.spaces.occ().len()
        &&& (self.previous_segment matches Some(prev) ==> self.cursor_ok(prev))
    }

    /// A new pipe was started at the free cell `c`: the cell became
    /// occupied, one single-segment instance appeared there, and the cursor
    /// now points at it with the canonical Up direction.
    pub open spec fn started_at(pre: Self, post: Self, c: Cell) -> bool {
        &&& pre.spaces.dims.contains_cell(c)
        &&& !pre.spaces.occupied(c)
        &&& post.spaces.dims == pre.spaces.dims
        &&& post.spaces.occ() == pre.spaces.occ().insert(lin_index(pre.spaces.dims, c))
        &&& post.groups.capacity == pre.groups.capacity
        &&& post.groups.group(GROUP_SINGLE as int) == pre.groups.group(GROUP_SINGLE as int).push(
            Instance { color: post.current_color, location: c, rotation: sp_rot_identity() },
        )
        &&& (forall|g: int|
            0 <= g < 5 && g != GROUP_SINGLE ==> post.groups.group(g) == pre.groups.group(g))
        &&& post.previous_segment == Some(
            PreviousSegment { direction: Direction::Up, location: c, group: GROUP_SINGLE },
        )
        &&& post.time_since_growth_ms == pre.time_since_growth_ms
    }

    /// The whole field was cleared and a single fresh pipe was started at
    /// `c`: exactly one cell is occupied and exactly one instance exists.
    pub open spec fn fresh_start(pre: Self, post: Self, c: Cell) -> bool {
        &&& pre.spaces.dims.contains_cell(c)
        &&& post.spaces.dims == pre.spaces.dims
        &&& post.spaces.occ() == Set::<int>::empty().insert(lin_index(pre.spaces.dims, c))
        &&& post.groups.capacity == pre.groups.capacity
        &&& post.groups.group(GROUP_SINGLE as int) == Seq::<Instance>::empty().push(
            Instance { color: post.current_color, location: c, rotation: sp_rot_identity() },
        )
        &&& (forall|g: int|
            0 <= g < 5 && g != GROUP_SINGLE ==> post.groups.group(g) == Seq::<Instance>::empty())
        &&& post.previous_segment == Some(
            PreviousSegment { direction: Direction::Up, location: c, group: GROUP_SINGLE },
        )
        &&& post.time_since_growth_ms == pre.time_since_growth_ms
    }

    /// The outcome of asking for a new pipe: either a start segment was
    /// placed on some free cell, or — after the retry budget ran out on a
    /// crowded grid — the field was reset and exactly one fresh start
    /// placed. On a grid with no free cell only the reset outcome is
    /// possible.
    pub open spec fn new_pipe_step(pre: Self, post: Self) -> bool {
        ||| (exists|c: Cell| Self::started_at(pre, post, c))
        ||| (exists|c: Cell| Self::fresh_start(pre, post, c))
    }

    /// The five collections after the pipe at `prev` was extended in
    /// direction `d`: the old tip's instance is replaced by its resolved
    /// form, and a new end-cap tip appears on the destination cell.
    pub open spec fn groups_transition(pre: Self, post: Self, prev: PreviousSegment, d: Direction) -> bool {
        let nl = offset_cell(d, prev.location);
        if prev.group == GROUP_SINGLE {
            // The lone unoriented segment becomes an oriented start cap.
            &&& post.groups.group(0) == pre.groups.group(0).take(pre.groups.group(0).len() - 1)
            &&& cap_pushed(
                pre.groups.group(1),
                post.groups.group(1),
                pre.current_color,
                prev.location,
                d,
            )
            &&& post.groups.group(2) == pre.groups.group(2)
            &&& post.groups.group(3) == pre.groups.group(3)
            &&& cap_pushed(
                pre.groups.group(4),
                post.groups.group(4),
                pre.current_color,
                nl,
                d,
            )
        } else {
            // The old end cap becomes a straight or bent joint.
            let jg = if prev.direction == d { 2int } else { 3int };
            &&& post.groups.group(0) == pre.groups.group(0)
            &&& post.groups.group(1) == pre.groups.group(1)
            &&& joint_pushed(
                pre.groups.group(jg),
                post.groups.group(jg),
                pre.current_color,
                prev.location,
                prev.direction,
                d,
            )
            &&& (jg == 2 ==> post.groups.group(3) == pre.groups.group(3))
            &&& (jg == 3 ==> post.groups.group(2) == pre.groups.group(2))
            &&& cap_pushed(
                pre.groups.group(4).take(pre.groups.group(4).len() - 1),
                post.groups.group(4),
                pre.current_color,
                nl,
                d,
            )
        }
    }

    /// The pipe at cursor `prev` was extended one cell in direction `d`:
    /// the move was legal and free, never the reverse of an end-cap
    /// cursor's direction, the destination cell became occupied, and the
    /// instance collections changed by exactly the replace-and-append the
    /// extension calls for.
    pub open spec fn extended(pre: Self, post: Self, prev: PreviousSegment, d: Direction) -> bool {
        let nl = offset_cell(d, prev.location);
        &&& pre.legal_free(prev.location, d)
        &&& (prev.group == GROUP_END ==> !opposite(prev.direction, d))
        &&& post.spaces.dims == pre.spaces.dims
        &&& post.spaces.occ() == pre.spaces.occ().insert(lin_index(pre.spaces.dims, nl))
        &&& post.groups.capacity == pre.groups.capacity
        &&& post.previous_segment == Some(
            PreviousSegment { direction: d, location: nl, group: GROUP_END },
        )
        &&& post.current_color == pre.current_color
        &&& post.time_since_growth_ms == pre.time_since_growth_ms
        &&& Self::groups_transition(pre, post, prev, d)
    }

    /// Everything a full reset leaves behind: an empty grid, empty
    /// collections, no cursor.
    pub open spec fn cleared(pre: Self, post: Self) -> bool {
        &&& post.spaces.dims == pre.spaces.dims
        &&& post.spaces.occ() == Set::<int>::empty()
        &&& post.groups.capacity == pre.groups.capacity
        &&& (forall|g: int| 0 <= g < 5 ==> post.groups.group(g) == Seq::<Instance>::empty())
        &&& post.previous_segment is None
        &&& post.current_color == pre.current_color
        &&& post.time_since_growth_ms == pre.time_since_growth_ms
    }

    /// What one growth tick does: extend the current pipe along some usable
    /// move; or, exactly when the pipe is absent or boxed in, start a new
    /// pipe (with a full reset when the retry budget ran out).
    pub open spec fn grow_step(pre: Self, post: Self) -> bool {
        &&& (pre.previous_segment matches Some(prev) ==> {
            ||| (exists|d: Direction| Self::extended(pre, post, prev, d))
            ||| (pre.no_free_moves(prev.location) && Self::new_pipe_step(pre, post))
        })
        &&& (pre.previous_segment is None ==> Self::new_pipe_step(pre, post))
    }

    /// Law: starting a pipe occupies exactly one previously-free cell, or —
    /// on the reset path — leaves exactly one occupied cell in the grid.
    proof fn lemma_new_pipe_adds_one(pre: Self, post: Self)
        requires
            Self::new_pipe_step(pre, post),
        ensures
            (exists|i: int|
                !pre.spaces.occ().contains(i) && post.spaces.occ() == pre.spaces.occ().insert(i))
                || (exists|i: int| post.spaces.occ() == Set::<int>::empty().insert(i)),
    {
        if exists|c: Cell| Self::started_at(pre, post, c) {
            let c = choose|c: Cell| Self::started_at(pre, post, c);
            let i = lin_index(pre.spaces.dims, c);
            assert(!pre.spaces.occ().contains(i) && post.spaces.occ() == pre.spaces.occ().insert(
                i,
            ));
        } else {
            let c = choose|c: Cell| Self::fresh_start(pre, post, c);
            let i = lin_index(pre.spaces.dims, c);
            assert(post.spaces.occ() == Set::<int>::empty().insert(i));
        }
    }

    /// Law: growth never overlaps. Every growth tick marks exactly one
    /// previously-free cell occupied, so no two placed segments ever share
    /// a cell, and the occupied set only grows — except across a reset,
    /// which leaves exactly one occupied cell.
    pub proof fn lemma_growth_never_overlaps(pre: Self, post: Self)
        requires
            Self::grow_step(pre, post),
        ensures
            (exists|i: int|
                !pre.spaces.occ().contains(i) && post.spaces.occ() == pre.spaces.occ().insert(i))
                || (exists|i: int| post.spaces.occ() == Set::<int>::empty().insert(i)),
    {
        match pre.previous_segment {
            Some(prev) => {
                if exists|d: Direction| Self::extended(pre, post, prev, d) {
                    let d = choose|d: Direction| Self::extended(pre, post, prev, d);
                    let nl = offset_cell(d, prev.location);
                    let i = lin_index(pre.spaces.dims, nl);
                    assert(!pre.spaces.occ().contains(i) && post.spaces.occ()
                        == pre.spaces.occ().insert(i));
                } else {
                    Self::lemma_new_pipe_adds_one(pre, post);
                }
            },
            None => {
                Self::lemma_new_pipe_adds_one(pre, post);
            },
        }
    }

    /// Law: an extension of an end-cap cursor never departs opposite to the
    /// direction it arrived along, so the orientation resolver is never
    /// asked for a reversing pair.
    pub proof fn lemma_extension_never_reverses(
        pre: Self,
        post: Self,
        prev: PreviousSegment,
        d: Direction,
    )
        requires
            Self::extended(pre, post, prev, d),
            prev.group == GROUP_END,
        ensures
            !opposite(prev.direction, d),
    {
    }

    /// Law: the lockstep invariant bounds every instance collection by its
    /// capacity, so adding an instance during growth can never overflow a
    /// collection.
    pub proof fn lemma_within_capacity(self)
        requires
            self.wf(),
        ensures
            self.groups.total() <= self.groups.capacity,
            forall|g: int| 0 <= g < 5 ==> self.groups.group(g).len() <= self.groups.capacity,
    {
        self.spaces.lemma_occ_bound();
    }

    /// Creates an idle simulation over an empty grid.
    pub fn new(dims: GridDims) -> (s: SimulationState)
        requires
            dims.wf(),
        ensures
            s.wf(),
            s.spaces.dims == dims,
            s.spaces.occ() == Set::<int>::empty(),
            forall|g: int| 0 <= g < 5 ==> s.groups.group(g) == Seq::<Instance>::empty(),
            s.previous_segment is None,
            s.time_since_growth_ms == 0,
    {
        let spaces = Spaces::new(dims);
        let capacity = dims.cell_count();
        let groups = InstanceGroups::new(capacity);
        SimulationState {
            spaces,
            groups,
            previous_segment: None,
            current_color: random_color(),
            time_since_growth_ms: 0,
        }
    }

    /// Reports how many cells are currently occupied.
    pub fn occupied_count(&self) -> (n: usize)
        requires
            self.wf(),
        ensures
            n == self.spaces.occ().len(),
    {
        self.spaces.occupied_count()
    }

    /// The number of occupied cells is strictly below the grid volume
    /// exactly while some cell is free; this bounds every instance
    /// collection through the lockstep invariant.
    proof fn lemma_room_left(self, c: Cell)
        requires
            self.spaces.dims.wf(),
            self.spaces.dims.contains_cell(c),
            !self.spaces.occupied(c),
        ensures
            self.spaces.occ().len() < self.spaces.dims.volume(),
    {
        let vol = self.spaces.dims.volume();
        self.spaces.lemma_occ_bound();
        self.spaces.dims.lemma_volume_bound();
        lemma_int_range(0, vol);
        lemma_lin_index_in_range(self.spaces.dims, c);
        self.spaces.occ().lemma_subset_not_in_lt(
            set_int_range(0, vol),
            lin_index(self.spaces.dims, c),
        );
    }

    /// Places the start of a new pipe on a free cell: one single-segment
    /// instance in the current color, the cell marked occupied, and the
    /// cursor set onto it.
    fn place_start(&mut self, c: Cell)
        requires
            old(self).wf(),
            old(self).spaces.dims.contains_cell(c),
            !old(self).spaces.occupied(c),
        ensures
            final(self).wf(),
            Self::started_at(*old(self), *final(self), c),
            final(self).current_color == old(self).current_color,
    {
        proof {
            self.lemma_room_left(c);
            self.spaces.lemma_occ_bound();
        }
        self.groups.add(
            GROUP_SINGLE,
            Instance { color: self.current_color, location: c, rotation: rot_identity() },
        );
        self.spaces.set_cell(c);
        self.previous_segment = Some(
            PreviousSegment { direction: Direction::Up, location: c, group: GROUP_SINGLE },
        );
    }

    /// Clears all the pipes: empties the grid and every instance
    /// collection and drops the cursor.
    pub fn clear_all(&mut self)
        requires
            old(self).wf(),
        ensures
            final(self).wf(),
            Self::cleared(*old(self), *final(self)),
    {
        self.spaces.clear();
        self.groups.clear_all();
        self.previous_segment = None;
    }

    /// Tries up to the retry budget to find an unoccupied random cell.
    fn pick_free_cell(&self) -> (r: Option<Cell>)
        requires
            self.wf(),
        ensures
            r matches Some(c) ==> self.spaces.dims.contains_cell(c) && !self.spaces.occupied(c),
    {
        let mut attempts: u32 = 0;
        while attempts < MAX_START_ATTEMPTS
            invariant
                self.wf(),
            decreases MAX_START_ATTEMPTS - attempts,
        {
            let c = random_cell(self.spaces.dims);
            if !self.spaces.get_cell(c) {
                return Some(c);
            }
            attempts = attempts + 1;
        }
        None
    }

    /// Starts growing a new pipe on a random free cell, rolling a fresh
    /// color for it. When the retry budget finds only occupied cells, the
    /// whole field is cleared and the pipe is placed on the now-empty grid,
    /// where the chosen cell is provably free.
    pub fn new_pipe(&mut self)
        requires
            old(self).wf(),
        ensures
            final(self).wf(),
            Self::new_pipe_step(*old(self), *final(self)),
            final(self).time_since_growth_ms == old(self).time_since_growth_ms,
    {
        let picked = self.pick_free_cell();
        self.current_color = random_color();
        match picked {
            Some(c) => {
                self.place_start(c);
                proof {
                    assert(Self::started_at(*old(self), *self, c));
                }
            },
            None => {
                self.clear_all();
                let c = random_cell(self.spaces.dims);
                self.place_start(c);
                proof {
                    assert(Self::fresh_start(*old(self), *self, c));
                }
            },
        }
    }

    /// Starts a new pipe on a chosen cell, keeping the current color.
    /// Returns whether the cell was in bounds and free; otherwise nothing
    /// changes.
    pub fn start_pipe_at(&mut self, x: usize, y: usize, z: usize) -> (r: bool)
        requires
            old(self).wf(),
        ensures
            final(self).wf(),
            r == (old(self).spaces.dims.contains_cell(Cell { x, y, z })
                && !old(self).spaces.occupied(Cell { x, y, z })),
            r ==> Self::started_at(*old(self), *final(self), Cell { x, y, z }),
            r ==> final(self).current_color == old(self).current_color,
            !r ==> *final(self) == *old(self),
    {
        let c = Cell { x, y, z };
        if x < self.spaces.dims.width && y < self.spaces.dims.height && z
            < self.spaces.dims.depth {
            if !self.spaces.get_cell(c) {
                self.place_start(c);
                return true;
            }
        }
        false
    }

    /// Adds a candidate move to the list when it is legal and leads to a
    /// free cell.
    fn consider_direction(
        &self,
        cands: &mut arrayvec::ArrayVec<u8, 6>,
        loc: Cell,
        d: Direction,
    )
        requires
            self.wf(),
            self.spaces.dims.contains_cell(loc),
            candidate_codes(*old(cands)).len() < 6,
        ensures
            self.legal_free(loc, d) ==> candidate_codes(*final(cands)) == candidate_codes(
                *old(cands),
            ).push(direction_code_spec(d)),
            !self.legal_free(loc, d) ==> candidate_codes(*final(cands)) == candidate_codes(
                *old(cands),
            ),
    {
        if d.is_offset_legal(loc, self.spaces.dims) {
            proof {
                lemma_legal_iff_offset_in_bounds(d, loc, self.spaces.dims);
            }
            let target = d.offset(loc);
            if !self.spaces.get_cell(target) {
                candidates_push(cands, direction_code(d));
            }
        }
    }

    /// Extends the pipe one cell along a chosen usable move: replaces the
    /// old tip's instance by its resolved form, appends the new end-cap tip
    /// on the destination cell, marks that cell occupied, and advances the
    /// cursor.
    #[verifier::rlimit(60)]
    fn extend_to(&mut self, prev: PreviousSegment, d: Direction)
        requires
            old(self).wf(),
            old(self).previous_segment == Some(prev),
            old(self).legal_free(prev.location, d),
        ensures
            final(self).wf(),
            Self::extended(*old(self), *final(self), prev, d),
    {
        let loc = prev.location;
        proof {
            lemma_legal_iff_offset_in_bounds(d, loc, self.spaces.dims);
        }
        let nl = d.offset(loc);

        proof {
            self.lemma_room_left(nl);
            self.spaces.lemma_occ_bound();
        }

        if prev.group == GROUP_SINGLE {
            self.groups.remove_last(GROUP_SINGLE, 1);
            let cap_rot = starting_transform(d);
            self.groups.add(
                GROUP_START,
                Instance { color: self.current_color, location: loc, rotation: cap_rot },
            );
        } else {
            proof {
                // The reverse move would land on the cell the pipe came
                // from, which is occupied, so the chosen free move is never
                // the reverse of the cursor's direction.
                if d == prev.direction.reverse_spec() {
                    assert(!old(self).legal_free(loc, d));
                }
            }
            self.groups.remove_last(GROUP_END, 1);
            let joint = joint_transform(prev.direction, d);
            self.groups.add(
                joint.1,
                Instance { color: self.current_color, location: loc, rotation: joint.0 },
            );
        }

        let tip_rot = starting_transform(d);
        self.groups.add(
            GROUP_END,
            Instance { color: self.current_color, location: nl, rotation: tip_rot },
        );
        self.spaces.set_cell(nl);
        self.previous_segment = Some(
            PreviousSegment { direction: d, location: nl, group: GROUP_END },
        );

        proof {
            let pre = *old(self);
            let post = *self;
            if prev.group == GROUP_SINGLE {
                assert(post.groups.group(1).take(post.groups.group(1).len() - 1)
                    =~= pre.groups.group(1));
            } else {
                let jg = if prev.direction == d { 2int } else { 3int };
                assert(post.groups.group(jg).take(post.groups.group(jg).len() - 1)
                    =~= pre.groups.group(jg));
            }
            assert(post.groups.group(4).take(post.groups.group(4).len() - 1)
                =~= if prev.group == GROUP_SINGLE {
                    pre.groups.group(4)
                } else {
                    pre.groups.group(4).take(pre.groups.group(4).len() - 1)
                });
        }
    }

    /// Places a pipe segment connected to the existing pipe, replacing the
    /// old tip's instance as its visual role changes. Starts a new pipe
    /// instead when the current pipe is boxed in.
    #[verifier::rlimit(100)]
    pub fn grow_existing(&mut self)
        requires
            old(self).wf(),
            old(self).previous_segment is Some,
        ensures
            final(self).wf(),
            old(self).previous_segment matches Some(prev) ==> {
                ||| (exists|d: Direction| Self::extended(*old(self), *final(self), prev, d))
                ||| (old(self).no_free_moves(prev.location) && Self::new_pipe_step(
                    *old(self),
                    *final(self),
                ))
            },
            final(self).time_since_growth_ms == old(self).time_since_growth_ms,
    {
        let prev = self.previous_segment.unwrap();
        let loc = prev.location;

        let mut cands = candidates_new();
        self.consider_direction(&mut cands, loc, Direction::Up);
        self.consider_direction(&mut cands, loc, Direction::Down);
        self.consider_direction(&mut cands, loc, Direction::East);
        self.consider_direction(&mut cands, loc, Direction::West);
        self.consider_direction(&mut cands, loc, Direction::South);
        self.consider_direction(&mut cands, loc, Direction::North);

        let n = candidates_len(&cands);
        if n == 0 {
            proof {
                assert forall|d: Direction| !old(self).legal_free(loc, d) by {
                    if old(self).legal_free(loc, d) {
                        assert(candidate_codes(cands).len() >= 1);
                    }
                }
            }
            self.new_pipe();
            return ;
        }

        let i = random_below(n);
        let code = candidates_get(&cands, i);
        proof {
            // Every code in the list was pushed for a direction that is a
            // usable move.
            assert(code < 6 && old(self).legal_free(
                loc,
                direction_from_code_spec(code),
            )) by {
                let codes = candidate_codes(cands);
                assert(forall|j: int|
                    0 <= j < codes.len() ==> codes[j] < 6 && old(self).legal_free(
                        loc,
                        direction_from_code_spec(codes[j]),
                    ));
            }
        }
        let d = direction_from_code(code);
        self.extend_to(prev, d);
        proof {
            assert(Self::extended(*old(self), *self, prev, d));
        }
    }

    /// Performs a growth step: extends the current pipe when one is
    /// growing, otherwise starts a new one.
    pub fn grow(&mut self)
        requires
            old(self).wf(),
        ensures
            final(self).wf(),
            Self::grow_step(*old(self), *final(self)),
            final(self).time_since_growth_ms == old(self).time_since_growth_ms,
    {
        if self.previous_segment.is_some() {
            self.grow_existing();
        } else {
            self.new_pipe();
        }
    }

    /// `post` follows from `pre` by one full growth tick: one tick duration
    /// leaves the accumulator and one growth step runs.
    pub open spec fn tick_step(pre: Self, post: Self) -> bool {
        &&& pre.time_since_growth_ms >= GROWTH_DURATION_MS
        &&& Self::grow_step(
            SimulationState {
                time_since_growth_ms: (pre.time_since_growth_ms - GROWTH_DURATION_MS) as u64,
                ..pre
            },
            post,
        )
    }

    /// `post` follows from `pre` by exactly `n` full growth ticks.
    pub open spec fn ticked(pre: Self, post: Self, n: nat) -> bool
        decreases n,
    {
        if n == 0 {
            post == pre
        } else {
            exists|mid: Self|
                Self::ticked(pre, mid, (n - 1) as nat) && Self::tick_step(mid, post)
        }
    }

    /// Accumulates elapsed time and catches up on growth: while at least a
    /// full tick duration has accumulated, one tick duration is subtracted
    /// and one growth step runs, so a long frame performs several steps and
    /// the accumulator always ends below one tick duration.
    pub fn update(&mut self, delta_ms: u64) -> (r: FlowControl)
        requires
            old(self).wf(),
            old(self).time_since_growth_ms + delta_ms <= u64::MAX,
        ensures
            final(self).wf(),
            r == FlowControl::Continue,
            Self::ticked(
                SimulationState {
                    time_since_growth_ms: (old(self).time_since_growth_ms + delta_ms) as u64,
                    ..*old(self)
                },
                *final(self),
                ((old(self).time_since_growth_ms + delta_ms) / (GROWTH_DURATION_MS as int)) as nat,
            ),
            final(self).time_since_growth_ms == (old(self).time_since_growth_ms + delta_ms) % (
            GROWTH_DURATION_MS as int),
    {
        self.time_since_growth_ms = self.time_since_growth_ms + delta_ms;
        let ghost start = *self;
        let ghost mut k: nat = 0nat;
        while self.time_since_growth_ms >= GROWTH_DURATION_MS
            invariant
                self.wf(),
                Self::ticked(start, *self, k),
                start.time_since_growth_ms == self.time_since_growth_ms + k
                    * GROWTH_DURATION_MS,
            decreases self.time_since_growth_ms,
        {
            let ghost mid = *self;
            self.time_since_growth_ms = self.time_since_growth_ms - GROWTH_DURATION_MS;
            self.grow();
            proof {
                assert(Self::tick_step(mid, *self));
                assert(Self::ticked(start, *self, (k + 1) as nat));
                k = k + 1nat;
            }
        }
        proof {
            assert(start == (SimulationState {
                time_since_growth_ms: (old(self).time_since_growth_ms + delta_ms) as u64,
                ..*old(self)
            }));
            vstd::arithmetic::div_mod::lemma_fundamental_div_mod_converse(
                start.time_since_growth_ms as int,
                GROWTH_DURATION_MS as int,
                k as int,
                self.time_since_growth_ms as int,
            );
        }
        FlowControl::Continue
    }

    /// Reacts to a keyboard event: Escape asks the shell to exit, C clears
    /// all the pipes, anything else is ignored.
    pub fn keyboard_event(&mut self, input: KeyboardEvent) -> (r: FlowControl)
        requires
            old(self).wf(),
        ensures
            final(self).wf(),
            (input.state is Pressed && input.virtual_keycode == Some(KeyCode::Escape)) ==> r
                == FlowControl::Exit && *final(self) == *old(self),
            (input.state is Pressed && input.virtual_keycode == Some(KeyCode::C)) ==> r
                == FlowControl::Continue && Self::cleared(*old(self), *final(self)),
            !(input.state is Pressed && (input.virtual_keycode == Some(KeyCode::Escape)
                || input.virtual_keycode == Some(KeyCode::C))) ==> r == FlowControl::Continue
                && *final(self) == *old(self),
    {
        match input {
            KeyboardEvent { state: KeyState::Pressed, virtual_keycode: Some(KeyCode::Escape) } => {
                FlowControl::Exit
            },
            KeyboardEvent { state: KeyState::Pressed, virtual_keycode: Some(KeyCode::C) } => {
                self.clear_all();
                FlowControl::Continue
            },
            _ => FlowControl::Continue,
        }
    }
}

/// Generates a random color.
fn random_color() -> Color {
    Color {
        r: random_below(256) as u8,
        g: random_below(256) as u8,
        b: random_below(256) as u8,
    }
}

/// Generates a random location within the bounds of the grid.
fn random_cell(dims: GridDims) -> (c: Cell)
    requires
        dims.wf(),
    ensures
        dims.contains_cell(c),
{
    Cell {
        x: random_below(dims.width),
        y: random_below(dims.height),
        z: random_below(dims.depth),
    }
}

} // verus!
