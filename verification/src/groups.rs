//! Per-mesh-variant instance collections.
//!
//! Each placed segment is one instance record in the collection of its mesh
//! variant: a free-floating single segment, a start cap, a straight piece, a
//! bent piece, or an end cap. The growth machine adds and removes records
//! here; a rendering layer mirrors the records into GPU buffers.

use vstd::prelude::*;
use crate::direction::Cell;
use crate::rotation::Rot;

verus! {

/// Index of the free-floating single-segment mesh group.
pub const GROUP_SINGLE: usize = 0;

/// Index of the start-cap mesh group.
pub const GROUP_START: usize = 1;

/// Index of the straight-through mesh group.
pub const GROUP_STRAIGHT: usize = 2;

/// Index of the bent mesh group.
pub const GROUP_BENT: usize = 3;

/// Index of the end-cap mesh group.
pub const GROUP_END: usize = 4;

/// Number of mesh groups.
pub const GROUP_COUNT: usize = 5;

/// An RGB color, one byte per channel.
#[derive(Debug, Copy, Clone, PartialEq, Eq, Structural)]
pub struct Color {
    pub r: u8,
    pub g: u8,
    pub b: u8,
}

/// One placed mesh instance: its color and its model transform, split into
/// the cell that translates it and the exact rotation that orients it.
#[derive(Debug, Copy, Clone, PartialEq, Eq, Structural)]
pub struct Instance {
    pub color: Color,
    pub location: Cell,
    pub rotation: Rot,
}

/// One bounded instance collection per mesh group. The shared capacity is
/// the total cell count of the grid, which bounds how many segments can be
/// placed at once.
#[derive(Debug, Clone)]
pub struct InstanceGroups {
    pub capacity: usize,
    pub single: Vec<Instance>,
    pub start: Vec<Instance>,
    pub straight: Vec<Instance>,
    pub bent: Vec<Instance>,
    pub end: Vec<Instance>,
}

impl InstanceGroups {
    /// The records of one mesh group, oldest first.
    pub open spec fn group(self, g: int) -> Seq<Instance> {
        if g == 0 {
            self.single@
        } else if g == 1 {
            self.start@
        } else if g == 2 {
            self.straight@
        } else if g == 3 {
            self.bent@
        } else {
            self.end@
        }
    }

    /// Total number of instance records over all five groups.
    pub open spec fn total(self) -> int {
        self.single@.len() + self.start@.len() + self.straight@.len() + self.bent@.len()
            + self.end@.len() as int
    }

    /// Creates five empty collections sharing one capacity.
    pub fn new(capacity: usize) -> (r: InstanceGroups)
        ensures
            r.capacity == capacity,
            forall|g: int| 0 <= g < 5 ==> r.group(g) == Seq::<Instance>::empty(),
            r.total() == 0,
    {
        InstanceGroups {
            capacity,
            single: Vec::new(),
            start: Vec::new(),
            straight: Vec::new(),
            bent: Vec::new(),
            end: Vec::new(),
        }
    }

    /// Reports how many instances one group currently holds.
    pub fn group_len(&self, g: usize) -> (n: usize)
        requires
            g < 5,
        ensures
            n == self.group(g as int).len(),
    {
        match g {
            0 => self.single.len(),
            1 => self.start.len(),
            2 => self.straight.len(),
            3 => self.bent.len(),
            _ => self.end.len(),
        }
    }

    /// Reads one instance record of a group.
    pub fn instance_at(&self, g: usize, i: usize) -> (inst: Instance)
        requires
            g < 5,
            i < self.group(g as int).len(),
        ensures
            inst == self.group(g as int)[i as int],
    {
        match g {
            0 => self.single[i],
            1 => self.start[i],
            2 => self.straight[i],
            3 => self.bent[i],
            _ => self.end[i],
        }
    }

    /// Appends one instance record to a group. The collection is bounded;
    /// the precondition keeps the request under the capacity, and the growth
    /// machine maintains an invariant that makes that always true.
    pub fn add(&mut self, g: usize, inst: Instance)
        requires
            g < 5,
            old(self).group(g as int).len() < old(self).capacity,
        ensures
            final(self).capacity == old(self).capacity,
            final(self).group(g as int) == old(self).group(g as int).push(inst),
            forall|j: int| 0 <= j < 5 && j != g ==> final(self).group(j) == old(self).group(j),
            final(self).total() == old(self).total() + 1,
    {
        match g {
            0 => self.single.push(inst),
            1 => self.start.push(inst),
            2 => self.straight.push(inst),
            3 => self.bent.push(inst),
            _ => self.end.push(inst),
        }
    }

    /// Removes the most recently added `count` instances from a group.
    /// Removing more than the group holds is a caller error that the
    /// precondition rules out.
    pub fn remove_last(&mut self, g: usize, count: usize)
        requires
            g < 5,
            count <= old(self).group(g as int).len(),
        ensures
            final(self).capacity == old(self).capacity,
            final(self).group(g as int) == old(self).group(g as int).take(
                old(self).group(g as int).len() - count,
            ),
            forall|j: int| 0 <= j < 5 && j != g ==> final(self).group(j) == old(self).group(j),
            final(self).total() == old(self).total() - count,
    {
        let n = self.group_len(g);
        match g {
            0 => self.single.truncate(n - count),
            1 => self.start.truncate(n - count),
            2 => self.straight.truncate(n - count),
            3 => self.bent.truncate(n - count),
            _ => self.end.truncate(n - count),
        }
        proof {
            assert(self.group(g as int) =~= old(self).group(g as int).take(
                old(self).group(g as int).len() - count,
            ));
        }
    }

    /// Empties one group unconditionally.
    pub fn clear(&mut self, g: usize)
        requires
            g < 5,
        ensures
            final(self).capacity == old(self).capacity,
            final(self).group(g as int) == Seq::<Instance>::empty(),
            forall|j: int| 0 <= j < 5 && j != g ==> final(self).group(j) == old(self).group(j),
    {
        match g {
            0 => self.single.clear(),
            1 => self.start.clear(),
            2 => self.straight.clear(),
            3 => self.bent.clear(),
            _ => self.end.clear(),
        }
    }

    /// Empties every group.
    pub fn clear_all(&mut self)
        ensures
            final(self).capacity == old(self).capacity,
            forall|g: int| 0 <= g < 5 ==> final(self).group(g) == Seq::<Instance>::empty(),
            final(self).total() == 0,
    {
        self.single.clear();
        self.start.clear();
        self.straight.clear();
        self.bent.clear();
        self.end.clear();
    }
}

} // verus!
