use kpipes::direction::{Cell, Direction, GridDims};
use kpipes::groups::{GROUP_BENT, GROUP_END, GROUP_SINGLE, GROUP_START, GROUP_STRAIGHT};
use kpipes::machine::SimulationState;
use kpipes::messages::{FlowControl, KeyCode, KeyState, KeyboardEvent};

fn dims(w: usize, h: usize, d: usize) -> GridDims {
    GridDims { width: w, height: h, depth: d }
}

fn total_instances(sim: &SimulationState) -> usize {
    sim.groups.group_len(GROUP_SINGLE) + sim.groups.group_len(GROUP_START)
        + sim.groups.group_len(GROUP_STRAIGHT) + sim.groups.group_len(GROUP_BENT)
        + sim.groups.group_len(GROUP_END)
}

#[test]
fn dead_end_triggers_restart_not_reset() {
    let mut sim = SimulationState::new(dims(20, 20, 20));
    // Box in the centre cell by occupying all six of its neighbours.
    assert!(sim.start_pipe_at(9, 10, 10));
    assert!(sim.start_pipe_at(11, 10, 10));
    assert!(sim.start_pipe_at(10, 9, 10));
    assert!(sim.start_pipe_at(10, 11, 10));
    assert!(sim.start_pipe_at(10, 10, 9));
    assert!(sim.start_pipe_at(10, 10, 11));
    // Put the growth cursor on the boxed-in centre.
    assert!(sim.start_pipe_at(10, 10, 10));
    assert_eq!(sim.occupied_count(), 7);

    // The boxed-in pipe is abandoned and a new one starts elsewhere; the
    // grid is not cleared.
    sim.grow_existing();
    assert_eq!(sim.occupied_count(), 8);
    assert!(sim.spaces.get(10, 10, 10));
    assert!(sim.spaces.get(9, 10, 10));
    assert!(sim.spaces.get(11, 10, 10));
    assert!(sim.spaces.get(10, 9, 10));
    assert!(sim.spaces.get(10, 11, 10));
    assert!(sim.spaces.get(10, 10, 9));
    assert!(sim.spaces.get(10, 10, 11));
}

#[test]
fn retry_exhaustion_triggers_full_reset() {
    let mut sim = SimulationState::new(dims(2, 2, 2));
    for x in 0..2 {
        for y in 0..2 {
            for z in 0..2 {
                assert!(sim.start_pipe_at(x, y, z));
            }
        }
    }
    assert_eq!(sim.occupied_count(), 8);

    // Every random draw lands on an occupied cell, so the retry budget runs
    // out, the field is cleared, and exactly one fresh start is placed.
    sim.new_pipe();
    assert_eq!(sim.occupied_count(), 1);
    assert_eq!(sim.groups.group_len(GROUP_SINGLE), 1);
    assert_eq!(sim.groups.group_len(GROUP_START), 0);
    assert_eq!(sim.groups.group_len(GROUP_STRAIGHT), 0);
    assert_eq!(sim.groups.group_len(GROUP_BENT), 0);
    assert_eq!(sim.groups.group_len(GROUP_END), 0);
    let prev = sim.previous_segment.expect("a fresh pipe is growing");
    assert_eq!(prev.group, GROUP_SINGLE);
    assert_eq!(prev.direction, Direction::Up);
}

#[test]
fn start_cap_reorientation_on_first_growth() {
    let mut sim = SimulationState::new(dims(20, 20, 20));
    sim.new_pipe();
    assert_eq!(sim.groups.group_len(GROUP_SINGLE), 1);
    assert_eq!(sim.occupied_count(), 1);
    let start = sim.previous_segment.expect("pipe started").location;

    sim.grow_existing();
    // The unoriented start segment was replaced by a reoriented start cap,
    // and a new end cap sits on the freshly occupied cell.
    assert_eq!(sim.groups.group_len(GROUP_SINGLE), 0);
    assert_eq!(sim.groups.group_len(GROUP_START), 1);
    assert_eq!(sim.groups.group_len(GROUP_END), 1);
    assert_eq!(sim.groups.group_len(GROUP_STRAIGHT), 0);
    assert_eq!(sim.groups.group_len(GROUP_BENT), 0);
    assert_eq!(sim.occupied_count(), 2);

    let cap = sim.groups.instance_at(GROUP_START, 0);
    assert_eq!(cap.location, start);
    let prev = sim.previous_segment.expect("pipe still growing");
    assert_eq!(prev.group, GROUP_END);
    let tip = sim.groups.instance_at(GROUP_END, 0);
    assert_eq!(tip.location, prev.location);
    assert_ne!(prev.location, start);
}

#[test]
fn growth_never_overlaps_and_stays_in_lockstep() {
    let mut sim = SimulationState::new(dims(4, 4, 4));
    for _ in 0..500 {
        let before = sim.occupied_count();
        sim.grow();
        let after = sim.occupied_count();
        // Each tick occupies exactly one fresh cell, unless the field was
        // reset, which leaves exactly one occupied cell.
        assert!(after == before + 1 || after == 1);
        // The instance collections stay in lockstep with occupancy.
        assert_eq!(total_instances(&sim), after);
    }
}

#[test]
fn new_pipe_on_single_cell_grid_lands_on_origin() {
    let mut sim = SimulationState::new(dims(1, 1, 1));
    sim.new_pipe();
    let prev = sim.previous_segment.expect("pipe started");
    assert_eq!(prev.location, Cell { x: 0, y: 0, z: 0 });
    assert_eq!(sim.occupied_count(), 1);
    // The only cell is taken, so the next request must reset and place one.
    sim.new_pipe();
    assert_eq!(sim.occupied_count(), 1);
    assert_eq!(total_instances(&sim), 1);
}

#[test]
fn update_accumulates_time_and_grows_on_the_tick() {
    let mut sim = SimulationState::new(dims(8, 8, 8));
    assert_eq!(sim.update(30), FlowControl::Continue);
    assert_eq!(sim.occupied_count(), 0);
    assert_eq!(sim.time_since_growth_ms, 30);
    assert_eq!(sim.update(30), FlowControl::Continue);
    assert_eq!(sim.occupied_count(), 1);
    assert_eq!(sim.time_since_growth_ms, 10);
    // Exactly one tick duration accumulated performs exactly one step.
    assert_eq!(sim.update(40), FlowControl::Continue);
    assert_eq!(sim.occupied_count(), 2);
    assert_eq!(sim.time_since_growth_ms, 0);
    // A long frame catches up: two full ticks drain, the remainder stays.
    assert_eq!(sim.update(120), FlowControl::Continue);
    assert_eq!(sim.occupied_count(), 4);
    assert_eq!(sim.time_since_growth_ms, 20);
}

#[test]
fn escape_requests_exit_and_c_clears() {
    let mut sim = SimulationState::new(dims(8, 8, 8));
    sim.new_pipe();
    sim.grow();
    assert!(sim.occupied_count() >= 1);

    let escape = KeyboardEvent {
        state: KeyState::Pressed,
        virtual_keycode: Some(KeyCode::Escape),
    };
    assert_eq!(sim.keyboard_event(escape), FlowControl::Exit);
    assert!(sim.occupied_count() >= 1);

    let released_c = KeyboardEvent {
        state: KeyState::Released,
        virtual_keycode: Some(KeyCode::C),
    };
    assert_eq!(sim.keyboard_event(released_c), FlowControl::Continue);
    assert!(sim.occupied_count() >= 1);

    let other = KeyboardEvent { state: KeyState::Pressed, virtual_keycode: Some(KeyCode::Other) };
    assert_eq!(sim.keyboard_event(other), FlowControl::Continue);
    assert!(sim.occupied_count() >= 1);

    let press_c = KeyboardEvent { state: KeyState::Pressed, virtual_keycode: Some(KeyCode::C) };
    assert_eq!(sim.keyboard_event(press_c), FlowControl::Continue);
    assert_eq!(sim.occupied_count(), 0);
    assert_eq!(total_instances(&sim), 0);
    assert!(sim.previous_segment.is_none());
}

#[test]
fn start_pipe_at_rejects_occupied_and_out_of_bounds_cells() {
    let mut sim = SimulationState::new(dims(3, 3, 3));
    assert!(sim.start_pipe_at(1, 1, 1));
    assert!(!sim.start_pipe_at(1, 1, 1));
    assert!(!sim.start_pipe_at(3, 0, 0));
    assert_eq!(sim.occupied_count(), 1);
}
