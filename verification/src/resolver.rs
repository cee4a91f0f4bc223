//! Segment/orientation resolver: maps directions to mesh variants and
//! rotations.
//!
//! The cap meshes are authored pointing Up, and the straight and bent meshes
//! are authored for a pipe that arrives travelling Up, with the bent mesh
//! departing South. Each table entry below rotates that canonical pose into
//! the requested pose; the contracts pin the geometry down by stating where
//! the rotation sends the canonical axes.

use vstd::prelude::*;
use vstd::pervasive::unreached;
use crate::direction::Direction;
use crate::groups::{GROUP_STRAIGHT, GROUP_BENT};
use crate::rotation::{
    IVec3, Rot, is_rotation, rot_identity, rot_mul, rot_x_90, rot_x_180, rot_x_270, rot_y_90,
    rot_y_180, rot_y_270, rot_z_90, rot_z_180, rot_z_270, sp_rot_identity,
};

verus! {

/// The signed unit axis vector a direction moves along.
pub open spec fn dir_unit(d: Direction) -> IVec3 {
    match d {
        Direction::Up => IVec3 { x: 0, y: 1, z: 0 },
        Direction::Down => IVec3 { x: 0, y: -1i32, z: 0 },
        Direction::East => IVec3 { x: 1, y: 0, z: 0 },
        Direction::West => IVec3 { x: -1i32, y: 0, z: 0 },
        Direction::South => IVec3 { x: 0, y: 0, z: 1 },
        Direction::North => IVec3 { x: 0, y: 0, z: -1i32 },
    }
}

/// True when the two directions are opposite moves on one axis: the one
/// pairing a pipe can never take in a single step.
pub open spec fn opposite(a: Direction, b: Direction) -> bool {
    b == a.reverse_spec()
}

/// The authoritative pose table for endpoint segments: the exact rotation
/// that orients the cap mesh, which is authored pointing Up, along each
/// direction. Up keeps the canonical identity orientation.
pub open spec fn sp_starting_rotation(d: Direction) -> Rot {
    match d {
        Direction::Up => sp_rot_identity(),
        Direction::Down => (Rot {
            x_img: IVec3 { x: 1, y: 0, z: 0 },
            y_img: IVec3 { x: 0, y: -1i32, z: 0 },
            z_img: IVec3 { x: 0, y: 0, z: -1i32 },
        }),
        Direction::East => (Rot {
            x_img: IVec3 { x: 0, y: -1i32, z: 0 },
            y_img: IVec3 { x: 1, y: 0, z: 0 },
            z_img: IVec3 { x: 0, y: 0, z: 1 },
        }),
        Direction::West => (Rot {
            x_img: IVec3 { x: 0, y: 1, z: 0 },
            y_img: IVec3 { x: -1i32, y: 0, z: 0 },
            z_img: IVec3 { x: 0, y: 0, z: 1 },
        }),
        Direction::South => (Rot {
            x_img: IVec3 { x: 1, y: 0, z: 0 },
            y_img: IVec3 { x: 0, y: 0, z: 1 },
            z_img: IVec3 { x: 0, y: -1i32, z: 0 },
        }),
        Direction::North => (Rot {
            x_img: IVec3 { x: 1, y: 0, z: 0 },
            y_img: IVec3 { x: 0, y: 0, z: -1i32 },
            z_img: IVec3 { x: 0, y: 1, z: 0 },
        }),
    }
}

/// The authoritative orientation table for intermediate segments: the
/// exact rotation for each ordered pair of arrival and departure
/// directions, fixed by the visual design. The six reversing pairs can
/// never be requested, so their entries are immaterial and read as the
/// identity.
pub open spec fn sp_joint_rotation(primary: Direction, secondary: Direction) -> Rot {
    match primary {
        Direction::Up => match secondary {
            Direction::Up => sp_rot_identity(),
            Direction::Down => sp_rot_identity(),
            Direction::East => (Rot {
                x_img: IVec3 { x: 0, y: 0, z: -1i32 },
                y_img: IVec3 { x: 0, y: 1, z: 0 },
                z_img: IVec3 { x: 1, y: 0, z: 0 },
            }),
            Direction::West => (Rot {
                x_img: IVec3 { x: 0, y: 0, z: 1 },
                y_img: IVec3 { x: 0, y: 1, z: 0 },
                z_img: IVec3 { x: -1i32, y: 0, z: 0 },
            }),
            Direction::South => sp_rot_identity(),
            Direction::North => (Rot {
                x_img: IVec3 { x: -1i32, y: 0, z: 0 },
                y_img: IVec3 { x: 0, y: 1, z: 0 },
                z_img: IVec3 { x: 0, y: 0, z: -1i32 },
            }),
        },
        Direction::Down => match secondary {
            Direction::Up => sp_rot_identity(),
            Direction::Down => (Rot {
                x_img: IVec3 { x: 1, y: 0, z: 0 },
                y_img: IVec3 { x: 0, y: -1i32, z: 0 },
                z_img: IVec3 { x: 0, y: 0, z: -1i32 },
            }),
            Direction::East => (Rot {
                x_img: IVec3 { x: 0, y: 0, z: 1 },
                y_img: IVec3 { x: 0, y: -1i32, z: 0 },
                z_img: IVec3 { x: 1, y: 0, z: 0 },
            }),
            Direction::West => (Rot {
                x_img: IVec3 { x: 0, y: 0, z: -1i32 },
                y_img: IVec3 { x: 0, y: -1i32, z: 0 },
                z_img: IVec3 { x: -1i32, y: 0, z: 0 },
            }),
            Direction::South => (Rot {
                x_img: IVec3 { x: -1i32, y: 0, z: 0 },
                y_img: IVec3 { x: 0, y: -1i32, z: 0 },
                z_img: IVec3 { x: 0, y: 0, z: 1 },
            }),
            Direction::North => (Rot {
                x_img: IVec3 { x: 1, y: 0, z: 0 },
                y_img: IVec3 { x: 0, y: -1i32, z: 0 },
                z_img: IVec3 { x: 0, y: 0, z: -1i32 },
            }),
        },
        Direction::East => match secondary {
            Direction::Up => (Rot {
                x_img: IVec3 { x: 0, y: 0, z: 1 },
                y_img: IVec3 { x: 1, y: 0, z: 0 },
                z_img: IVec3 { x: 0, y: 1, z: 0 },
            }),
            Direction::Down => (Rot {
                x_img: IVec3 { x: 0, y: 0, z: -1i32 },
                y_img: IVec3 { x: 1, y: 0, z: 0 },
                z_img: IVec3 { x: 0, y: -1i32, z: 0 },
            }),
            Direction::East => (Rot {
                x_img: IVec3 { x: 0, y: -1i32, z: 0 },
                y_img: IVec3 { x: 1, y: 0, z: 0 },
                z_img: IVec3 { x: 0, y: 0, z: 1 },
            }),
            Direction::West => sp_rot_identity(),
            Direction::South => (Rot {
                x_img: IVec3 { x: 0, y: -1i32, z: 0 },
                y_img: IVec3 { x: 1, y: 0, z: 0 },
                z_img: IVec3 { x: 0, y: 0, z: 1 },
            }),
            Direction::North => (Rot {
                x_img: IVec3 { x: 0, y: 1, z: 0 },
                y_img: IVec3 { x: 1, y: 0, z: 0 },
                z_img: IVec3 { x: 0, y: 0, z: -1i32 },
            }),
        },
        Direction::West => match secondary {
            Direction::Up => (Rot {
                x_img: IVec3 { x: 0, y: 0, z: -1i32 },
                y_img: IVec3 { x: -1i32, y: 0, z: 0 },
                z_img: IVec3 { x: 0, y: 1, z: 0 },
            }),
            Direction::Down => (Rot {
                x_img: IVec3 { x: 0, y: 0, z: 1 },
                y_img: IVec3 { x: -1i32, y: 0, z: 0 },
                z_img: IVec3 { x: 0, y: -1i32, z: 0 },
            }),
            Direction::East => sp_rot_identity(),
            Direction::West => (Rot {
                x_img: IVec3 { x: 0, y: 1, z: 0 },
                y_img: IVec3 { x: -1i32, y: 0, z: 0 },
                z_img: IVec3 { x: 0, y: 0, z: 1 },
            }),
            Direction::South => (Rot {
                x_img: IVec3 { x: 0, y: 1, z: 0 },
                y_img: IVec3 { x: -1i32, y: 0, z: 0 },
                z_img: IVec3 { x: 0, y: 0, z: 1 },
            }),
            Direction::North => (Rot {
                x_img: IVec3 { x: 0, y: -1i32, z: 0 },
                y_img: IVec3 { x: -1i32, y: 0, z: 0 },
                z_img: IVec3 { x: 0, y: 0, z: -1i32 },
            }),
        },
        Direction::South => match secondary {
            Direction::Up => (Rot {
                x_img: IVec3 { x: -1i32, y: 0, z: 0 },
                y_img: IVec3 { x: 0, y: 0, z: 1 },
                z_img: IVec3 { x: 0, y: 1, z: 0 },
            }),
            Direction::Down => (Rot {
                x_img: IVec3 { x: 1, y: 0, z: 0 },
                y_img: IVec3 { x: 0, y: 0, z: 1 },
                z_img: IVec3 { x: 0, y: -1i32, z: 0 },
            }),
            Direction::East => (Rot {
                x_img: IVec3 { x: 0, y: 1, z: 0 },
                y_img: IVec3 { x: 0, y: 0, z: 1 },
                z_img: IVec3 { x: 1, y: 0, z: 0 },
            }),
            Direction::West => (Rot {
                x_img: IVec3 { x: 0, y: -1i32, z: 0 },
                y_img: IVec3 { x: 0, y: 0, z: 1 },
                z_img: IVec3 { x: -1i32, y: 0, z: 0 },
            }),
            Direction::South => (Rot {
                x_img: IVec3 { x: 1, y: 0, z: 0 },
                y_img: IVec3 { x: 0, y: 0, z: 1 },
                z_img: IVec3 { x: 0, y: -1i32, z: 0 },
            }),
            Direction::North => sp_rot_identity(),
        },
        Direction::North => match secondary {
            Direction::Up => (Rot {
                x_img: IVec3 { x: 1, y: 0, z: 0 },
                y_img: IVec3 { x: 0, y: 0, z: -1i32 },
                z_img: IVec3 { x: 0, y: 1, z: 0 },
            }),
            Direction::Down => (Rot {
                x_img: IVec3 { x: -1i32, y: 0, z: 0 },
                y_img: IVec3 { x: 0, y: 0, z: -1i32 },
                z_img: IVec3 { x: 0, y: -1i32, z: 0 },
            }),
            Direction::East => (Rot {
                x_img: IVec3 { x: 0, y: -1i32, z: 0 },
                y_img: IVec3 { x: 0, y: 0, z: -1i32 },
                z_img: IVec3 { x: 1, y: 0, z: 0 },
            }),
            Direction::West => (Rot {
                x_img: IVec3 { x: 0, y: 1, z: 0 },
                y_img: IVec3 { x: 0, y: 0, z: -1i32 },
                z_img: IVec3 { x: -1i32, y: 0, z: 0 },
            }),
            Direction::South => sp_rot_identity(),
            Direction::North => (Rot {
                x_img: IVec3 { x: 1, y: 0, z: 0 },
                y_img: IVec3 { x: 0, y: 0, z: -1i32 },
                z_img: IVec3 { x: 0, y: 1, z: 0 },
            }),
        },
    }
}

/// Converts a direction into the rotation for an endpoint pipe segment: the
/// cap mesh is authored pointing Up, and the result points it along the
/// direction instead.
pub fn starting_transform(direction: Direction) -> (r: Rot)
    ensures
        r == sp_starting_rotation(direction),
        is_rotation(r),
        r.y_img == dir_unit(direction),
{
    match direction {
        Direction::Up => rot_identity(),
        Direction::Down => rot_x_180(),
        Direction::East => rot_z_270(),
        Direction::West => rot_z_90(),
        Direction::South => rot_x_90(),
        Direction::North => rot_x_270(),
    }
}

/// Converts a pair of directions into a rotation and mesh group for an
/// intermediate pipe segment. `primary` is the direction the pipe arrived
/// along, `secondary` the direction it departs in. The pipe continues
/// straight when the two agree and bends otherwise; arriving and departing
/// on opposite moves of one axis can never be requested, which the growth
/// machine guarantees because the cell behind the pipe tip is always
/// occupied.
#[verifier::rlimit(60)]
pub fn joint_transform(primary: Direction, secondary: Direction) -> (r: (Rot, usize))
    requires
        !opposite(primary, secondary),
    ensures
        r.0 == sp_joint_rotation(primary, secondary),
        is_rotation(r.0),
        r.0.y_img == dir_unit(primary),
        r.1 == if primary == secondary {
            GROUP_STRAIGHT as int
        } else {
            GROUP_BENT as int
        },
        primary != secondary ==> r.0.z_img == dir_unit(secondary),
{
    match primary {
        Direction::Up => match secondary {
            Direction::Up => (rot_identity(), 2),
            Direction::Down => unreached(),
            Direction::East => (rot_y_90(), 3),
            Direction::West => (rot_y_270(), 3),
            Direction::South => (rot_identity(), 3),
            Direction::North => (rot_y_180(), 3),
        },
        Direction::Down => match secondary {
            Direction::Up => unreached(),
            Direction::Down => (rot_x_180(), 2),
            Direction::East => {
                let m = rot_mul(rot_y_270(), rot_x_180());
                proof {
                    assert(m == (Rot {
                        x_img: IVec3 { x: 0, y: 0, z: 1 },
                        y_img: IVec3 { x: 0, y: -1i32, z: 0 },
                        z_img: IVec3 { x: 1, y: 0, z: 0 },
                    }));
                }
                (m, 3)
            },
            Direction::West => {
                let m = rot_mul(rot_y_90(), rot_x_180());
                proof {
                    assert(m == (Rot {
                        x_img: IVec3 { x: 0, y: 0, z: -1i32 },
                        y_img: IVec3 { x: 0, y: -1i32, z: 0 },
                        z_img: IVec3 { x: -1i32, y: 0, z: 0 },
                    }));
                }
                (m, 3)
            },
            Direction::South => {
                let m = rot_mul(rot_y_180(), rot_x_180());
                proof {
                    assert(m == (Rot {
                        x_img: IVec3 { x: -1i32, y: 0, z: 0 },
                        y_img: IVec3 { x: 0, y: -1i32, z: 0 },
                        z_img: IVec3 { x: 0, y: 0, z: 1 },
                    }));
                }
                (m, 3)
            },
            Direction::North => (rot_x_180(), 3),
        },
        Direction::East => match secondary {
            Direction::Up => {
                let m = rot_mul(rot_x_270(), rot_z_270());
                proof {
                    assert(m.x_img.x == 0 && m.x_img.y == 0 && m.x_img.z == 1);
                    assert(m.y_img == (IVec3 { x: 1, y: 0, z: 0 }));
                    assert(m.z_img == (IVec3 { x: 0, y: 1, z: 0 }));
                }
                (m, 3)
            },
            Direction::Down => {
                let m = rot_mul(rot_x_90(), rot_z_270());
                proof {
                    assert(m == (Rot {
                        x_img: IVec3 { x: 0, y: 0, z: -1i32 },
                        y_img: IVec3 { x: 1, y: 0, z: 0 },
                        z_img: IVec3 { x: 0, y: -1i32, z: 0 },
                    }));
                }
                (m, 3)
            },
            Direction::East => (rot_z_270(), 2),
            Direction::West => unreached(),
            Direction::South => (rot_z_270(), 3),
            Direction::North => {
                let m = rot_mul(rot_x_180(), rot_z_270());
                proof {
                    assert(m == (Rot {
                        x_img: IVec3 { x: 0, y: 1, z: 0 },
                        y_img: IVec3 { x: 1, y: 0, z: 0 },
                        z_img: IVec3 { x: 0, y: 0, z: -1i32 },
                    }));
                }
                (m, 3)
            },
        },
        Direction::West => match secondary {
            Direction::Up => {
                let m = rot_mul(rot_x_270(), rot_z_90());
                proof {
                    assert(m == (Rot {
                        x_img: IVec3 { x: 0, y: 0, z: -1i32 },
                        y_img: IVec3 { x: -1i32, y: 0, z: 0 },
                        z_img: IVec3 { x: 0, y: 1, z: 0 },
                    }));
                }
                (m, 3)
            },
            Direction::Down => {
                let m = rot_mul(rot_x_90(), rot_z_90());
                proof {
                    assert(m == (Rot {
                        x_img: IVec3 { x: 0, y: 0, z: 1 },
                        y_img: IVec3 { x: -1i32, y: 0, z: 0 },
                        z_img: IVec3 { x: 0, y: -1i32, z: 0 },
                    }));
                }
                (m, 3)
            },
            Direction::East => unreached(),
            Direction::West => (rot_z_90(), 2),
            Direction::South => (rot_z_90(), 3),
            Direction::North => {
                let m = rot_mul(rot_x_180(), rot_z_90());
                proof {
                    assert(m == (Rot {
                        x_img: IVec3 { x: 0, y: -1i32, z: 0 },
                        y_img: IVec3 { x: -1i32, y: 0, z: 0 },
                        z_img: IVec3 { x: 0, y: 0, z: -1i32 },
                    }));
                }
                (m, 3)
            },
        },
        Direction::South => match secondary {
            Direction::Up => {
                let m = rot_mul(rot_z_180(), rot_x_90());
                proof {
                    assert(m.x_img == (IVec3 { x: -1i32, y: 0, z: 0 }));
                    assert(m.y_img == (IVec3 { x: 0, y: 0, z: 1 }));
                    assert(m.z_img.x == 0 && m.z_img.y == 1 && m.z_img.z == 0);
                }
                (m, 3)
            },
            Direction::Down => (rot_x_90(), 3),
            Direction::East => {
                let m = rot_mul(rot_z_90(), rot_x_90());
                proof {
                    assert(m == (Rot {
                        x_img: IVec3 { x: 0, y: 1, z: 0 },
                        y_img: IVec3 { x: 0, y: 0, z: 1 },
                        z_img: IVec3 { x: 1, y: 0, z: 0 },
                    }));
                }
                (m, 3)
            },
            Direction::West => {
                let m = rot_mul(rot_z_270(), rot_x_90());
                proof {
                    assert(m == (Rot {
                        x_img: IVec3 { x: 0, y: -1i32, z: 0 },
                        y_img: IVec3 { x: 0, y: 0, z: 1 },
                        z_img: IVec3 { x: -1i32, y: 0, z: 0 },
                    }));
                }
                (m, 3)
            },
            Direction::South => (rot_x_90(), 2),
            Direction::North => unreached(),
        },
        Direction::North => match secondary {
            Direction::Up => (rot_x_270(), 3),
            Direction::Down => {
                let m = rot_mul(rot_z_180(), rot_x_270());
                proof {
                    assert(m == (Rot {
                        x_img: IVec3 { x: -1i32, y: 0, z: 0 },
                        y_img: IVec3 { x: 0, y: 0, z: -1i32 },
                        z_img: IVec3 { x: 0, y: -1i32, z: 0 },
                    }));
                }
                (m, 3)
            },
            Direction::East => {
                let m = rot_mul(rot_z_270(), rot_x_270());
                proof {
                    assert(m == (Rot {
                        x_img: IVec3 { x: 0, y: -1i32, z: 0 },
                        y_img: IVec3 { x: 0, y: 0, z: -1i32 },
                        z_img: IVec3 { x: 1, y: 0, z: 0 },
                    }));
                }
                (m, 3)
            },
            Direction::West => {
                let m = rot_mul(rot_z_90(), rot_x_270());
                proof {
                    assert(m == (Rot {
                        x_img: IVec3 { x: 0, y: 1, z: 0 },
                        y_img: IVec3 { x: 0, y: 0, z: -1i32 },
                        z_img: IVec3 { x: -1i32, y: 0, z: 0 },
                    }));
                }
                (m, 3)
            },
            Direction::South => unreached(),
            Direction::North => (rot_x_270(), 2),
        },
    }
}

} // verus!
