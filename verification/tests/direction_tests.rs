use kpipes::direction::{all_directions, Cell, Direction, GridDims};

fn dims20() -> GridDims {
    GridDims { width: 20, height: 20, depth: 20 }
}

fn cell(x: usize, y: usize, z: usize) -> Cell {
    Cell { x, y, z }
}

#[test]
fn direction_legality_at_boundaries() {
    let g = dims20();
    for a in 0..20 {
        for b in 0..20 {
            // Up is illegal exactly on the top layer.
            assert!(!Direction::Up.is_offset_legal(cell(a, 19, b), g));
            // Down is illegal exactly on the bottom layer.
            assert!(!Direction::Down.is_offset_legal(cell(a, 0, b), g));
            // East is illegal exactly on the greatest X layer.
            assert!(!Direction::East.is_offset_legal(cell(19, a, b), g));
            // West is illegal exactly at X zero.
            assert!(!Direction::West.is_offset_legal(cell(0, a, b), g));
            // South is illegal exactly on the greatest Z layer.
            assert!(!Direction::South.is_offset_legal(cell(a, b, 19), g));
            // North is illegal exactly at Z zero.
            assert!(!Direction::North.is_offset_legal(cell(a, b, 0), g));
            for c in 0..19 {
                assert!(Direction::Up.is_offset_legal(cell(a, c, b), g));
                assert!(Direction::Down.is_offset_legal(cell(a, c + 1, b), g));
                assert!(Direction::East.is_offset_legal(cell(c, a, b), g));
                assert!(Direction::West.is_offset_legal(cell(c + 1, a, b), g));
                assert!(Direction::South.is_offset_legal(cell(a, b, c), g));
                assert!(Direction::North.is_offset_legal(cell(a, b, c + 1), g));
            }
        }
    }
}

#[test]
fn offset_moves_one_unit() {
    let c = cell(5, 6, 7);
    assert_eq!(Direction::Up.offset(c), cell(5, 7, 7));
    assert_eq!(Direction::Down.offset(c), cell(5, 5, 7));
    assert_eq!(Direction::East.offset(c), cell(6, 6, 7));
    assert_eq!(Direction::West.offset(c), cell(4, 6, 7));
    assert_eq!(Direction::South.offset(c), cell(5, 6, 8));
    assert_eq!(Direction::North.offset(c), cell(5, 6, 6));
}

#[test]
fn reverse_pairs_up_the_axes() {
    assert_eq!(Direction::Up.reverse(), Direction::Down);
    assert_eq!(Direction::Down.reverse(), Direction::Up);
    assert_eq!(Direction::East.reverse(), Direction::West);
    assert_eq!(Direction::West.reverse(), Direction::East);
    assert_eq!(Direction::South.reverse(), Direction::North);
    assert_eq!(Direction::North.reverse(), Direction::South);
    // Reversing twice is the identity, and a reverse move undoes the move.
    for d in all_directions() {
        assert_eq!(d.reverse().reverse(), d);
        let c = cell(9, 9, 9);
        assert_eq!(d.reverse().offset(d.offset(c)), c);
    }
}

#[test]
fn all_directions_in_fixed_order() {
    let v = all_directions();
    assert_eq!(
        v,
        vec![
            Direction::Up,
            Direction::Down,
            Direction::East,
            Direction::West,
            Direction::South,
            Direction::North,
        ]
    );
}
