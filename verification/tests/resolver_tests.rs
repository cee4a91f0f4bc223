use kpipes::direction::{all_directions, Direction};
use kpipes::resolver::{joint_transform, starting_transform};
use kpipes::rotation::{rotate, IVec3, Rot};

fn unit(d: Direction) -> IVec3 {
    match d {
        Direction::Up => IVec3 { x: 0, y: 1, z: 0 },
        Direction::Down => IVec3 { x: 0, y: -1, z: 0 },
        Direction::East => IVec3 { x: 1, y: 0, z: 0 },
        Direction::West => IVec3 { x: -1, y: 0, z: 0 },
        Direction::South => IVec3 { x: 0, y: 0, z: 1 },
        Direction::North => IVec3 { x: 0, y: 0, z: -1 },
    }
}

fn up() -> IVec3 {
    IVec3 { x: 0, y: 1, z: 0 }
}

fn south() -> IVec3 {
    IVec3 { x: 0, y: 0, z: 1 }
}

fn det(r: Rot) -> i32 {
    r.x_img.x * (r.y_img.y * r.z_img.z - r.y_img.z * r.z_img.y)
        - r.x_img.y * (r.y_img.x * r.z_img.z - r.y_img.z * r.z_img.x)
        + r.x_img.z * (r.y_img.x * r.z_img.y - r.y_img.y * r.z_img.x)
}

#[test]
fn starting_transform_points_the_cap_along_the_direction() {
    for d in all_directions() {
        let r = starting_transform(d);
        // The cap mesh is authored pointing Up.
        assert_eq!(rotate(r, up()), unit(d));
        assert_eq!(det(r), 1);
    }
    // Up is the canonical orientation: exactly the identity matrix.
    let id = starting_transform(Direction::Up);
    assert_eq!(id.x_img, IVec3 { x: 1, y: 0, z: 0 });
    assert_eq!(id.y_img, IVec3 { x: 0, y: 1, z: 0 });
    assert_eq!(id.z_img, IVec3 { x: 0, y: 0, z: 1 });
    // East is exactly the quarter turn that drops the Y axis onto X.
    let east = starting_transform(Direction::East);
    assert_eq!(east.x_img, IVec3 { x: 0, y: -1, z: 0 });
    assert_eq!(east.y_img, IVec3 { x: 1, y: 0, z: 0 });
    assert_eq!(east.z_img, IVec3 { x: 0, y: 0, z: 1 });
    assert_eq!(rotate(id, south()), south());
}

#[test]
fn joint_transform_picks_straight_or_bent() {
    for p in all_directions() {
        for s in all_directions() {
            if s == p.reverse() {
                continue;
            }
            let (r, group) = joint_transform(p, s);
            if p == s {
                assert_eq!(group, 2);
            } else {
                assert_eq!(group, 3);
            }
            // The joint meshes are authored for a pipe arriving along Up;
            // the bent mesh departs South.
            assert_eq!(rotate(r, up()), unit(p));
            if p != s {
                assert_eq!(rotate(r, south()), unit(s));
            }
            assert_eq!(det(r), 1);
        }
    }
}

#[test]
fn joint_transform_canonical_cases() {
    let (r, group) = joint_transform(Direction::Up, Direction::Up);
    assert_eq!(group, 2);
    assert_eq!(r.x_img, IVec3 { x: 1, y: 0, z: 0 });
    assert_eq!(r.y_img, IVec3 { x: 0, y: 1, z: 0 });
    assert_eq!(r.z_img, IVec3 { x: 0, y: 0, z: 1 });
    let (r2, group2) = joint_transform(Direction::Up, Direction::South);
    assert_eq!(group2, 3);
    assert_eq!(r2.x_img, IVec3 { x: 1, y: 0, z: 0 });
    assert_eq!(r2.y_img, IVec3 { x: 0, y: 1, z: 0 });
    assert_eq!(r2.z_img, IVec3 { x: 0, y: 0, z: 1 });
}
