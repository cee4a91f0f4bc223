use kpipes::direction::GridDims;
use kpipes::spaces::{Spaces, SpacesError};

fn dims(w: usize, h: usize, d: usize) -> GridDims {
    GridDims { width: w, height: h, depth: d }
}

#[test]
fn bitset_round_trip_all_cells() {
    let g = dims(5, 4, 3);
    let mut s = Spaces::new(g);
    for x in 0..5 {
        for y in 0..4 {
            for z in 0..3 {
                assert!(!s.get(x, y, z));
                s.set(x, y, z);
                assert!(s.get(x, y, z));
            }
        }
    }
    assert_eq!(s.occupied_count(), 5 * 4 * 3);
    s.clear();
    assert_eq!(s.occupied_count(), 0);
    for x in 0..5 {
        for y in 0..4 {
            for z in 0..3 {
                assert!(!s.get(x, y, z));
            }
        }
    }
}

#[test]
fn setting_one_cell_leaves_others_untouched() {
    let g = dims(20, 20, 20);
    let mut s = Spaces::new(g);
    s.set(7, 8, 9);
    assert!(s.get(7, 8, 9));
    assert!(!s.get(8, 7, 9));
    assert!(!s.get(9, 8, 7));
    assert!(!s.get(7, 8, 8));
    assert!(!s.get(6, 8, 9));
    assert_eq!(s.occupied_count(), 1);
    s.set(7, 8, 9);
    assert_eq!(s.occupied_count(), 1);
}

#[test]
fn bounds_rejection_on_every_axis() {
    let g = dims(20, 20, 20);
    let mut s = Spaces::new(g);
    assert_eq!(s.try_set(20, 0, 0), Err(SpacesError::OutOfBounds));
    assert_eq!(s.try_set(0, 20, 0), Err(SpacesError::OutOfBounds));
    assert_eq!(s.try_set(0, 0, 20), Err(SpacesError::OutOfBounds));
    assert_eq!(s.try_set(usize::MAX, 0, 0), Err(SpacesError::OutOfBounds));
    assert_eq!(s.try_get(20, 19, 19), Err(SpacesError::OutOfBounds));
    assert_eq!(s.try_get(19, 20, 19), Err(SpacesError::OutOfBounds));
    assert_eq!(s.try_get(19, 19, 20), Err(SpacesError::OutOfBounds));
    // Nothing was silently wrapped onto another cell.
    assert_eq!(s.occupied_count(), 0);
    assert_eq!(s.try_set(19, 19, 19), Ok(()));
    assert_eq!(s.try_get(19, 19, 19), Ok(true));
    assert_eq!(s.try_get(0, 0, 0), Ok(false));
    assert_eq!(s.occupied_count(), 1);
}
