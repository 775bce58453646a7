use billiards::control::{pause_button, step_button, AppState, PhysicsClock, Simulation, STEP_UNITS};
use billiards::movement::{movement, velocity_delta, Body, HeldDirections, Velocity, TIME_UNITS_PER_SECOND};
use billiards::rack::{rack_layout, BallRole, Point, RACK_SIZE, SUBUNITS_PER_UNIT};
use billiards::scene::{setup, TableDims};

fn held(up: bool, down: bool, left: bool, right: bool) -> HeldDirections {
    HeldDirections { up, down, left, right }
}

#[test]
fn rack_positions_never_overlap() {
    for radius in [1u32, 10, 37, 1000] {
        let rack = rack_layout(Point { x: -12345, y: 678 }, radius);
        assert_eq!(rack.len(), RACK_SIZE);
        let min = (2 * SUBUNITS_PER_UNIT as i128) * radius as i128;
        for i in 0..rack.len() {
            for j in 0..rack.len() {
                if i != j {
                    let dx = (rack[i].position.x - rack[j].position.x) as i128;
                    let dy = (rack[i].position.y - rack[j].position.y) as i128;
                    assert!(dx * dx + dy * dy >= min * min, "balls {i} and {j} overlap");
                }
            }
        }
    }
}

#[test]
fn rack_rows_hold_one_to_five_balls() {
    let rack = rack_layout(Point { x: 0, y: 0 }, 10);
    let mut counts = [0usize; 5];
    for ball in &rack {
        counts[ball.row] += 1;
    }
    assert_eq!(counts, [1, 2, 3, 4, 5]);
    assert_eq!(counts.iter().sum::<usize>(), 15);
}

#[test]
fn only_the_center_ball_is_the_eight() {
    for (origin, radius) in [(Point { x: 0, y: 0 }, 10u32), (Point { x: 500, y: -900 }, 3), (Point { x: 7, y: 7 }, 0)] {
        let rack = rack_layout(origin, radius);
        for (i, ball) in rack.iter().enumerate() {
            let expected = if i == 4 { BallRole::Eight } else { BallRole::Regular };
            assert_eq!(ball.role, expected);
        }
    }
}

#[test]
fn rack_positions_for_radius_ten() {
    let rack = rack_layout(Point { x: 40000, y: 0 }, 10);
    assert_eq!(rack[0].position, Point { x: 40000, y: 0 });
    assert_eq!(rack[1].position, Point { x: 44100, y: -2050 });
    assert_eq!(rack[2].position, Point { x: 44100, y: 2050 });
    assert_eq!(rack[4].position, Point { x: 48200, y: 0 });
    assert_eq!(rack[10].position, Point { x: 56400, y: -8200 });
    assert_eq!(rack[14].position, Point { x: 56400, y: 8200 });
    assert_eq!(rack[14].row, 4);
}

#[test]
fn standard_scene_layout() {
    let scene = setup(TableDims::standard());
    assert_eq!(scene.rails.len(), 4);
    assert_eq!(scene.rails[0].center, Point { x: 0, y: 40000 });
    assert_eq!(scene.rails[0].half_extents, Point { x: 82000, y: 2000 });
    assert_eq!(scene.rails[1].center, Point { x: 0, y: -40000 });
    assert_eq!(scene.rails[2].center, Point { x: -80000, y: 0 });
    assert_eq!(scene.rails[2].half_extents, Point { x: 2000, y: 42000 });
    assert_eq!(scene.rails[3].center, Point { x: 80000, y: 0 });
    assert_eq!(scene.cue_ball, Point { x: -40000, y: 0 });
    assert_eq!(scene.rack.len(), 15);
    assert_eq!(scene.rack[0].position, Point { x: 40000, y: 0 });
    assert_eq!(scene.rack[4].role, BallRole::Eight);
}

#[test]
fn pause_presses_follow_parity() {
    for n in 0..7u32 {
        let mut sim = Simulation::new();
        for _ in 0..n {
            sim.press_pause();
        }
        let expected = if n % 2 == 0 { AppState::Running } else { AppState::Paused };
        assert_eq!(sim.state, expected);
        assert_eq!(sim.clock.paused, n % 2 == 1);
    }
}

#[test]
fn steps_advance_only_while_paused() {
    let mut sim = Simulation::new();
    sim.press_pause();
    for _ in 0..5 {
        sim.press_step();
    }
    assert_eq!(sim.clock.elapsed, 5 * TIME_UNITS_PER_SECOND / 60);
    assert_eq!(sim.state, AppState::Paused);

    let mut running = Simulation::new();
    for _ in 0..5 {
        running.press_step();
    }
    assert_eq!(running.clock.elapsed, 0);
}

#[test]
fn up_and_left_combine() {
    let dt: u32 = 1000;
    let d = velocity_delta(held(true, false, true, false), dt);
    assert_eq!(d, Velocity { x: -500 * 1000, y: 2500 * 1000 });
    let none = velocity_delta(held(false, false, false, false), dt);
    assert_eq!(none, Velocity { x: 0, y: 0 });
    let all = velocity_delta(held(true, true, true, true), 60);
    assert_eq!(all, Velocity { x: 0, y: 2000 * 60 });
    let down_right = velocity_delta(held(false, true, false, true), 2);
    assert_eq!(down_right, Velocity { x: 1000, y: -1000 });
}

#[test]
fn pause_then_step_then_resume() {
    let mut sim = Simulation::new();
    assert_eq!(sim.state, AppState::Running);
    sim.advance_frame(500);
    assert_eq!(sim.clock.elapsed, 500);

    sim.press_pause();
    assert_eq!(sim.state, AppState::Paused);
    sim.advance_frame(700);
    assert_eq!(sim.clock.elapsed, 500);

    for _ in 0..3 {
        sim.press_step();
    }
    assert_eq!(sim.clock.elapsed, 500 + 3 * STEP_UNITS);
    assert_eq!(sim.state, AppState::Paused);

    sim.press_pause();
    assert_eq!(sim.state, AppState::Running);
    sim.advance_frame(250);
    assert_eq!(sim.clock.elapsed, 500 + 3 * STEP_UNITS + 250);
}

#[test]
fn movement_changes_only_cue_balls() {
    let mut bodies = vec![
        Body { role: BallRole::Cue, velocity: Velocity { x: 10, y: -20 } },
        Body { role: BallRole::Regular, velocity: Velocity { x: 1, y: 2 } },
        Body { role: BallRole::Eight, velocity: Velocity { x: 3, y: 4 } },
    ];
    movement(&mut bodies, held(true, false, false, true), 4);
    assert_eq!(bodies[0].velocity, Velocity { x: 10 + 2000, y: -20 + 10000 });
    assert_eq!(bodies[1].velocity, Velocity { x: 1, y: 2 });
    assert_eq!(bodies[2].velocity, Velocity { x: 3, y: 4 });
    assert_eq!(bodies[0].role, BallRole::Cue);
}

#[test]
fn either_key_holds_a_direction() {
    let h = HeldDirections::from_keys(false, true, true, false, false, false, false, false);
    assert_eq!(h, held(true, true, false, false));
    let h = HeldDirections::from_keys(false, false, false, false, true, true, false, true);
    assert_eq!(h, held(false, false, true, true));
}

#[test]
fn pause_button_requests_the_other_state() {
    assert_eq!(pause_button(AppState::Running, true), Some(AppState::Paused));
    assert_eq!(pause_button(AppState::Paused, true), Some(AppState::Running));
    assert_eq!(pause_button(AppState::Paused, false), None);
    assert_eq!(AppState::default(), AppState::Running);
}

#[test]
fn clock_ticks_only_while_running() {
    let mut clock = PhysicsClock::new();
    clock.tick(30);
    assert_eq!(clock.elapsed, 30);
    clock.pause();
    clock.tick(30);
    assert_eq!(clock.elapsed, 30);
    step_button(&mut clock, true);
    assert_eq!(clock.elapsed, 30 + STEP_UNITS);
    step_button(&mut clock, false);
    assert_eq!(clock.elapsed, 30 + STEP_UNITS);
    clock.unpause();
    clock.advance_by(5);
    clock.tick(5);
    assert_eq!(clock.elapsed, 40 + STEP_UNITS);
}
