//! The six axis-aligned moves, grid coordinates, and per-move bounds logic.

use vstd::prelude::*;

verus! {

/// A cell coordinate inside the voxel grid.
#[derive(Debug, Copy, Clone, PartialEq, Eq, Structural)]
pub struct Cell {
    pub x: usize,
    pub y: usize,
    pub z: usize,
}

/// The fixed dimensions of the voxel grid.
#[derive(Debug, Copy, Clone, PartialEq, Eq, Structural)]
pub struct GridDims {
    pub width: usize,
    pub height: usize,
    pub depth: usize,
}

/// Largest extent allowed on each axis; keeps every linear cell index,
/// and products of dimensions, comfortably inside `usize` on all targets.
pub const MAX_DIM: usize = 1024;

impl GridDims {
    /// Dimensions are usable when every axis is at least one cell long and
    /// small enough that the total cell count fits machine arithmetic.
    pub open spec fn wf(self) -> bool {
        1 <= self.width <= MAX_DIM && 1 <= self.height <= MAX_DIM && 1 <= self.depth <= MAX_DIM
    }

    /// Total number of cells in the grid.
    pub open spec fn volume(self) -> int {
        self.width * self.height * self.depth
    }

    /// The volume of well-formed dimensions is positive and bounded by
    /// `MAX_DIM` cubed, so it always fits in a `usize`.
    pub proof fn lemma_volume_bound(self)
        requires
            self.wf(),
        ensures
            1 <= self.volume() <= 0x4000_0000,
    {
        assert(1 <= self.width * self.height * self.depth <= 0x4000_0000) by (nonlinear_arith)
            requires
                1 <= self.width <= 1024,
                1 <= self.height <= 1024,
                1 <= self.depth <= 1024,
        ;
    }

    /// Computes the total cell count.
    pub fn cell_count(&self) -> (n: usize)
        requires
            self.wf(),
        ensures
            n == self.volume(),
    {
        proof {
            self.lemma_volume_bound();
            assert(self.width * self.height <= 0x4000_0000) by (nonlinear_arith)
                requires
                    1 <= self.width <= 1024,
                    1 <= self.height <= 1024,
            ;
        }
        self.width * self.height * self.depth
    }

    /// True when the cell lies inside the grid on every axis.
    pub open spec fn contains_cell(self, c: Cell) -> bool {
        c.x < self.width && c.y < self.height && c.z < self.depth
    }
}

/// Describes a direction in 3d space: Up/Down move along the Y axis,
/// East/West along the X axis, and South/North along the Z axis.
#[derive(Debug, Copy, Clone, PartialEq, Eq, Structural)]
pub enum Direction {
    Up,
    Down,
    East,
    West,
    South,
    North,
}

/// Unit offset a direction applies to the X coordinate.
pub open spec fn delta_x(d: Direction) -> int {
    match d {
        Direction::East => 1,
        Direction::West => -1,
        _ => 0,
    }
}

/// Unit offset a direction applies to the Y coordinate.
pub open spec fn delta_y(d: Direction) -> int {
    match d {
        Direction::Up => 1,
        Direction::Down => -1,
        _ => 0,
    }
}

/// Unit offset a direction applies to the Z coordinate.
pub open spec fn delta_z(d: Direction) -> int {
    match d {
        Direction::South => 1,
        Direction::North => -1,
        _ => 0,
    }
}

/// The cell reached by moving one unit along a direction, as a coordinate
/// triple. Faithful whenever the move neither underflows nor overflows.
pub open spec fn offset_cell(d: Direction, c: Cell) -> Cell {
    Cell {
        x: (c.x + delta_x(d)) as usize,
        y: (c.y + delta_y(d)) as usize,
        z: (c.z + delta_z(d)) as usize,
    }
}

impl Direction {
    /// The same direction reversed on its axis.
    pub open spec fn reverse_spec(self) -> Direction {
        match self {
            Direction::Up => Direction::Down,
            Direction::Down => Direction::Up,
            Direction::East => Direction::West,
            Direction::West => Direction::East,
            Direction::South => Direction::North,
            Direction::North => Direction::South,
        }
    }

    /// Returns the opposite direction on the same axis.
    pub fn reverse(self) -> (r: Direction)
        ensures
            r == self.reverse_spec(),
    {
        match self {
            Direction::Up => Direction::Down,
            Direction::Down => Direction::Up,
            Direction::East => Direction::West,
            Direction::West => Direction::East,
            Direction::South => Direction::North,
            Direction::North => Direction::South,
        }
    }

    /// The coordinates produced by moving one unit along the direction,
    /// as unbounded integers.
    pub open spec fn offset_spec(self, c: Cell) -> (int, int, int) {
        (c.x + delta_x(self), c.y + delta_y(self), c.z + delta_z(self))
    }

    /// True when moving one unit along the direction neither underflows nor
    /// overflows any coordinate.
    pub open spec fn can_offset(self, c: Cell) -> bool {
        &&& 0 <= c.x + delta_x(self) <= usize::MAX
        &&& 0 <= c.y + delta_y(self) <= usize::MAX
        &&& 0 <= c.z + delta_z(self) <= usize::MAX
    }

    /// Moves a cell one unit along this direction.
    pub fn offset(&self, c: Cell) -> (r: Cell)
        requires
            self.can_offset(c),
        ensures
            (r.x as int, r.y as int, r.z as int) == self.offset_spec(c),
            r == offset_cell(*self, c),
    {
        match *self {
            Direction::Up => Cell { x: c.x, y: c.y + 1, z: c.z },
            Direction::Down => Cell { x: c.x, y: c.y - 1, z: c.z },
            Direction::East => Cell { x: c.x + 1, y: c.y, z: c.z },
            Direction::West => Cell { x: c.x - 1, y: c.y, z: c.z },
            Direction::South => Cell { x: c.x, y: c.y, z: c.z + 1 },
            Direction::North => Cell { x: c.x, y: c.y, z: c.z - 1 },
        }
    }

    /// True when moving one unit along the direction keeps the coordinate on
    /// the direction's own axis within `[0, dimension - 1]`.
    pub open spec fn is_offset_legal_spec(self, c: Cell, dims: GridDims) -> bool {
        match self {
            Direction::Up => c.y + 1 < dims.height,
            Direction::Down => c.y >= 1,
            Direction::East => c.x + 1 < dims.width,
            Direction::West => c.x >= 1,
            Direction::South => c.z + 1 < dims.depth,
            Direction::North => c.z >= 1,
        }
    }

    /// Decides whether moving one unit along this direction stays within the
    /// grid bounds on the direction's axis.
    pub fn is_offset_legal(&self, c: Cell, dims: GridDims) -> (r: bool)
        requires
            dims.wf(),
        ensures
            r == self.is_offset_legal_spec(c, dims),
    {
        match *self {
            Direction::Up => c.y < dims.height - 1,
            Direction::Down => c.y > 0,
            Direction::East => c.x < dims.width - 1,
            Direction::West => c.x > 0,
            Direction::South => c.z < dims.depth - 1,
            Direction::North => c.z > 0,
        }
    }
}

/// A legal move from an in-bounds cell lands in bounds, and conversely:
/// the legality test is exactly "applying the offset stays inside the grid".
pub proof fn lemma_legal_iff_offset_in_bounds(d: Direction, c: Cell, dims: GridDims)
    requires
        dims.wf(),
        dims.contains_cell(c),
    ensures
        d.is_offset_legal_spec(c, dims) <==> {
            let (ox, oy, oz) = d.offset_spec(c);
            0 <= ox < dims.width && 0 <= oy < dims.height && 0 <= oz < dims.depth
        },
        d.is_offset_legal_spec(c, dims) ==> d.can_offset(c),
{
}

/// The six directions in their fixed enumeration order.
pub fn all_directions() -> (v: Vec<Direction>)
    ensures
        v@ =~= seq![
            Direction::Up,
            Direction::Down,
            Direction::East,
            Direction::West,
            Direction::South,
            Direction::North,
        ],
{
    let mut v: Vec<Direction> = Vec::new();
    v.push(Direction::Up);
    v.push(Direction::Down);
    v.push(Direction::East);
    v.push(Direction::West);
    v.push(Direction::South);
    v.push(Direction::North);
    v
}

/// A small integer code naming each direction, in enumeration order.
pub open spec fn direction_code_spec(d: Direction) -> u8 {
    match d {
        Direction::Up => 0,
        Direction::Down => 1,
        Direction::East => 2,
        Direction::West => 3,
        Direction::South => 4,
        Direction::North => 5,
    }
}

/// The direction named by a code below six.
pub open spec fn direction_from_code_spec(code: u8) -> Direction {
    if code == 0 {
        Direction::Up
    } else if code == 1 {
        Direction::Down
    } else if code == 2 {
        Direction::East
    } else if code == 3 {
        Direction::West
    } else if code == 4 {
        Direction::South
    } else {
        Direction::North
    }
}

/// Encodes a direction as its enumeration index.
pub fn direction_code(d: Direction) -> (code: u8)
    ensures
        code == direction_code_spec(d),
        code < 6,
{
    match d {
        Direction::Up => 0,
        Direction::Down => 1,
        Direction::East => 2,
        Direction::West => 3,
        Direction::South => 4,
        Direction::North => 5,
    }
}

/// Decodes an enumeration index back into a direction.
pub fn direction_from_code(code: u8) -> (d: Direction)
    requires
        code < 6,
    ensures
        d == direction_from_code_spec(code),
        direction_code_spec(d) == code,
{
    if code == 0 {
        Direction::Up
    } else if code == 1 {
        Direction::Down
    } else if code == 2 {
        Direction::East
    } else if code == 3 {
        Direction::West
    } else if code == 4 {
        Direction::South
    } else {
        Direction::North
    }
}

} // verus!
