use platformer_physics::body::Body;
use platformer_physics::go::Go;
use platformer_physics::jump::{self, Jump};
use platformer_physics::movement::{ControllerDirection, Direction, MovementController};
use platformer_physics::sim::{Actor, Env, Simulation};
use platformer_physics::tiles::{Behaviour, TileCollision, TileGrid, TilePos, XSide, YSide};
use platformer_physics::vec2::Vec2i;

fn v(x: i64, y: i64) -> Vec2i {
    Vec2i { x, y }
}

fn quiet_go() -> Go {
    Go { direction: 0, heading: 0, acceleration: 0, deceleration: 0, drag_factor: 0, distance: 0 }
}

fn quiet_jump() -> Jump {
    Jump {
        ready: 0,
        engage_time: 0,
        request_time: 0,
        duration: 0,
        grace_period: 0,
        speed_boost: 0,
        velocity: 0,
    }
}

fn idle_controller() -> MovementController {
    MovementController { moving: ControllerDirection::Idle, jumping: false, running: false }
}

fn overlaps(b: &Body, left: i64, bottom: i64, right: i64, top: i64) -> bool {
    b.pos.x + b.collider.size.x > left && b.pos.x < right && b.pos.y + b.collider.size.y > bottom
        && b.pos.y < top
}

/// A body placed exactly on one solid tile's top stays there, tick after
/// tick, with zero vertical velocity: no drift and no jitter.
#[test]
fn resting_body_neither_sinks_nor_jitters() {
    // Gravity digs the body one unit into the tile each tick; the resolver
    // snaps it back and zeroes the fall.
    let mut grid = TileGrid::new(16, 4, 16);
    grid.set(TilePos { x: 6, y: 0 }, Some(Behaviour::Ground));
    let mut sim = Simulation::new(Env { gravity: v(0, -10), tps: 1 }, grid);
    sim.add_body(Body::new(v(100, 16), v(16, 16)));
    for _ in 0..100 {
        sim.tick();
        assert_eq!(sim.bodies[0].pos.y, 16);
        assert_eq!(sim.bodies[0].vel.y, 0);
        assert_eq!(sim.bodies[0].pos.x, 100);
        assert_eq!(sim.bodies[0].vel.x, 0);
    }
    assert!(sim.obstructions[0].0);
}

/// The same stability at a 60 Hz tick rate, where the per-tick dig truncates
/// to nothing.
#[test]
fn resting_body_is_stable_at_sixty_hz() {
    let mut grid = TileGrid::new(16, 4, 16);
    grid.set(TilePos { x: 6, y: 0 }, Some(Behaviour::Ground));
    let mut sim = Simulation::new(Env { gravity: v(0, -100), tps: 60 }, grid);
    sim.add_body(Body::new(v(100, 16), v(16, 16)));
    for _ in 0..100 {
        sim.tick();
        assert_eq!(sim.bodies[0].pos.y, 16);
        assert_eq!(sim.bodies[0].vel.y, 0);
    }
}

/// Sweeping a body into a single-tile wall at every speed below one cell per
/// tick: the post-tick box never overlaps the wall, and the body ends flush
/// against the wall's left edge with its horizontal velocity zeroed.
#[test]
fn wall_blocks_every_speed_below_one_cell_per_tick() {
    for speed in 1..16i64 {
        let mut grid = TileGrid::new(16, 4, 16);
        grid.set(TilePos { x: 4, y: 1 }, Some(Behaviour::Ground));
        let mut sim = Simulation::new(Env { gravity: v(0, 0), tps: 1 }, grid);
        sim.add_body(Body::new_with_pos_and_vel(v(0, 16), v(speed, 0), v(16, 16), 1));
        for _ in 0..80 {
            sim.tick();
            // The wall occupies [64, 80] x [16, 32].
            assert!(!overlaps(&sim.bodies[0], 64, 16, 80, 32), "speed {}", speed);
        }
        assert_eq!(sim.bodies[0].pos.x, 48, "speed {}", speed);
        assert_eq!(sim.bodies[0].vel.x, 0, "speed {}", speed);
    }
}

/// The same sweep upward into a ceiling tile: the body is pushed back flush
/// under the tile.
#[test]
fn ceiling_blocks_a_rising_body() {
    let mut grid = TileGrid::new(16, 4, 16);
    grid.set(TilePos { x: 4, y: 2 }, Some(Behaviour::Ground));
    let mut sim = Simulation::new(Env { gravity: v(0, 0), tps: 1 }, grid);
    sim.add_body(Body::new_with_pos_and_vel(v(64, 10), v(0, 10), v(16, 16), 1));
    for _ in 0..10 {
        sim.tick();
        // The tile occupies [64, 80] x [32, 48].
        assert!(!overlaps(&sim.bodies[0], 64, 32, 80, 48));
    }
    assert_eq!(sim.bodies[0].pos.y, 16);
    assert_eq!(sim.bodies[0].vel.y, 0);
}

/// A falling body lands on the tile top: the resolver sets the position to
/// the tile's top edge, zeroes the vertical velocity, and the jump readiness
/// counter becomes positive in the same tick. World units are 64 subpixels
/// per pixel here, so the 16-pixel tile top sits at 1024.
#[test]
fn falling_body_lands_on_tile_top_and_becomes_jump_ready() {
    let mut grid = TileGrid::new(16, 4, 1024);
    grid.set(TilePos { x: 6, y: 0 }, Some(Behaviour::Ground));
    let mut sim = Simulation::new(Env { gravity: v(0, -6400), tps: 60 }, grid);
    let idx = sim.add_body(Body::new_with_pos_and_vel(v(6400, 2560), v(0, -3200), v(1024, 1024), 60));
    let mut actor = Actor { body: idx, go: quiet_go(), jump: quiet_jump(), controller: idle_controller() };
    let mut landed = false;
    for _ in 0..100 {
        sim.tick_with_actor(&mut actor);
        if !sim.tile_collisions.is_empty() {
            landed = true;
            break;
        }
        assert!(sim.bodies[0].pos.y > 1024);
    }
    assert!(landed);
    assert_eq!(sim.bodies[0].pos.y, 1024);
    assert_eq!(sim.bodies[0].vel.y, 0);
    assert!(actor.jump.ready > 0);
}

/// With zero intent and nonzero drag, a moving body slows monotonically and
/// settles at exactly zero velocity, without crossing zero.
#[test]
fn free_body_settles_to_exact_zero_without_oscillation() {
    let grid = TileGrid::new(4, 4, 16);
    let mut sim = Simulation::new(Env { gravity: v(0, 0), tps: 1 }, grid);
    let mut start = Body::new(v(0, 0), v(16, 16));
    start.vel = v(50, 0);
    start.drag = v(10, 0);
    let idx = sim.add_body(start);
    let mut actor = Actor {
        body: idx,
        go: Go {
            direction: 0,
            heading: 0,
            acceleration: 5,
            deceleration: 3,
            drag_factor: 1,
            distance: 0,
        },
        jump: quiet_jump(),
        controller: idle_controller(),
    };
    let mut prev = 50i64;
    for _ in 0..60 {
        sim.tick_with_actor(&mut actor);
        let now = sim.bodies[0].vel.x;
        assert!(now >= 0, "no sign flip, got {}", now);
        assert!(now <= prev, "monotone, {} then {}", prev, now);
        prev = now;
    }
    assert_eq!(sim.bodies[0].vel.x, 0);
}

/// Walking intent accelerates the body and tracks the distance covered.
#[test]
fn go_converts_intent_into_motion() {
    let grid = TileGrid::new(4, 4, 16);
    let mut sim = Simulation::new(Env { gravity: v(0, 0), tps: 1 }, grid);
    let idx = sim.add_body(Body::new(v(0, 0), v(16, 16)));
    let mut actor = Actor {
        body: idx,
        go: Go {
            direction: 0,
            heading: 0,
            acceleration: 7,
            deceleration: 3,
            drag_factor: 0,
            distance: 0,
        },
        jump: quiet_jump(),
        controller: MovementController {
            moving: ControllerDirection::Right,
            jumping: false,
            running: false,
        },
    };
    sim.tick_with_actor(&mut actor);
    assert_eq!(actor.go.direction, 1);
    assert_eq!(sim.bodies[0].vel.x, 7);
    sim.tick_with_actor(&mut actor);
    assert_eq!(sim.bodies[0].vel.x, 14);
    // Distance reports the speed entering the tick, times the tick duration.
    assert_eq!(actor.go.distance, 7);
}

/// A held jump request takes off from a ready (grounded) state and drives the
/// vertical velocity while engaged.
#[test]
fn jump_engages_from_ready_ground() {
    let mut j = Jump {
        ready: 1,
        engage_time: 0,
        request_time: 0,
        duration: 2048,
        grace_period: 1024,
        speed_boost: 0,
        velocity: 200,
    };
    assert!(!j.is_falling());
    j.start();
    assert_eq!(j.request_time, 1024);
    let mut b = Body::new(v(0, 0), v(16, 16));
    jump::update(&mut j, &mut b, 1);
    assert_eq!(b.vel.y, 200);
    assert_eq!(j.engage_time, 2048 - 1024);
    assert_eq!(j.ready, 0);
    j.cancel();
    assert_eq!(j.engage_time, 0);
    assert_eq!(j.request_time, 0);
}

/// The jump boost scales with horizontal speed.
#[test]
fn jump_velocity_gets_a_speed_boost() {
    let mut j = Jump {
        ready: 1,
        engage_time: 0,
        request_time: 512,
        duration: 2048,
        grace_period: 512,
        speed_boost: 512,
        velocity: 200,
    };
    let mut b = Body::new(v(0, 0), v(16, 16));
    b.vel = v(-100, 0);
    jump::update(&mut j, &mut b, 1);
    // 200 plus |−100| * 512 / 1024.
    assert_eq!(b.vel.y, 250);
}

/// Landing on a solid tile restores jump readiness; hitting a solid ceiling
/// cancels the jump.
#[test]
fn jump_reads_tile_collision_sides() {
    let mut grid = TileGrid::new(8, 4, 16);
    grid.set(TilePos { x: 2, y: 1 }, Some(Behaviour::Brick));
    let landing = vec![TileCollision {
        from: 0,
        to: TilePos { x: 2, y: 1 },
        x_side: None,
        y_side: Some(YSide::Top),
    }];
    let mut j = quiet_jump();
    j.ready = -5;
    jump::obstruct(&mut j, 0, &grid, &landing);
    assert_eq!(j.ready, 1);

    let bump = vec![TileCollision {
        from: 0,
        to: TilePos { x: 2, y: 1 },
        x_side: None,
        y_side: Some(YSide::Bottom),
    }];
    let mut j = quiet_jump();
    j.engage_time = 500;
    j.request_time = 300;
    jump::obstruct(&mut j, 0, &grid, &bump);
    assert_eq!(j.engage_time, 0);
    assert_eq!(j.request_time, 0);

    // Records for another body or a missing tile are ignored.
    let other = vec![TileCollision {
        from: 3,
        to: TilePos { x: 2, y: 1 },
        x_side: Some(XSide::Left),
        y_side: None,
    }];
    let mut j = quiet_jump();
    j.engage_time = 500;
    jump::obstruct(&mut j, 0, &grid, &other);
    assert_eq!(j.engage_time, 500);
}

#[test]
fn direction_classifies_octants() {
    assert_eq!(Direction::of_vec(v(3, 0)), Direction::Right);
    assert_eq!(Direction::of_vec(v(3, 2)), Direction::TopRight);
    assert_eq!(Direction::of_vec(v(0, 2)), Direction::Top);
    assert_eq!(Direction::of_vec(v(-1, 2)), Direction::TopLeft);
    assert_eq!(Direction::of_vec(v(-1, 0)), Direction::Left);
    assert_eq!(Direction::of_vec(v(-1, -4)), Direction::BottomLeft);
    assert_eq!(Direction::of_vec(v(0, -4)), Direction::Bottom);
    assert_eq!(Direction::of_vec(v(2, -4)), Direction::BottomRight);
    assert_eq!(Direction::of_vec(v(0, 0)), Direction::Neutral);
}

#[test]
fn controller_reports_movement() {
    let mut c = MovementController::new();
    assert!(!c.is_moving());
    c.moving = ControllerDirection::Left;
    assert!(c.is_moving());
    assert_eq!(c.moving.sign(), -1);
    c.moving = ControllerDirection::Right;
    assert_eq!(c.moving.sign(), 1);
}

/// A tick over one body produces no candidate pairs and no contacts.
#[test]
fn single_body_has_no_body_collisions() {
    let grid = TileGrid::new(4, 4, 16);
    let mut sim = Simulation::new(Env { gravity: v(0, -10), tps: 1 }, grid);
    sim.add_body(Body::new(v(0, 32), v(16, 16)));
    sim.tick();
    assert!(sim.pairs.is_empty());
    assert!(sim.contacts.is_empty());
}
