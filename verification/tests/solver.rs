use platformer_physics::aabb::Aabb;
use platformer_physics::body::Body;
use platformer_physics::num::COEF_ONE;
use platformer_physics::systems::{box_box, collect_collision_pairs, constrain_body_positions, integrate, solve_pos, solve_vel, update_aabb_box, update_vel};
use platformer_physics::vec2::Vec2i;

fn v(x: i64, y: i64) -> Vec2i {
    Vec2i { x, y }
}

#[test]
fn box_box_separated_is_none() {
    assert!(box_box(v(0, 0), v(16, 16), v(100, 0), v(16, 16)).is_none());
    assert!(box_box(v(0, 0), v(16, 16), v(0, 17), v(16, 16)).is_none());
}

#[test]
fn box_box_picks_smaller_overlap_axis() {
    // Centers 10 apart on x, aligned on y: x overlap 6, y overlap 16.
    let c = box_box(v(0, 0), v(16, 16), v(10, 0), v(16, 16)).unwrap();
    assert_eq!(c.penetration, 6);
    assert_eq!((c.normal.x, c.normal.y), (1, 0));

    // Deeper on x than on y: the y axis wins.
    let c = box_box(v(0, 0), v(16, 16), v(2, 12), v(16, 16)).unwrap();
    assert_eq!(c.penetration, 4);
    assert_eq!((c.normal.x, c.normal.y), (0, 1));
}

#[test]
fn box_box_tie_prefers_y_axis_and_signs_point_at_second_box() {
    let c = box_box(v(0, 0), v(16, 16), v(10, 10), v(16, 16)).unwrap();
    assert_eq!(c.penetration, 6);
    assert_eq!((c.normal.x, c.normal.y), (0, 1));

    let c = box_box(v(0, 0), v(16, 16), v(-10, -2), v(16, 16)).unwrap();
    assert_eq!((c.normal.x, c.normal.y), (-1, 0));
}

#[test]
fn box_box_coinciding_centers_has_unit_normal() {
    let c = box_box(v(0, 0), v(16, 16), v(0, 0), v(16, 16)).unwrap();
    assert_eq!(c.penetration, 16);
    assert_eq!((c.normal.x, c.normal.y), (0, 1));
}

#[test]
fn position_correction_splits_by_inverse_mass() {
    let mut pa = v(0, 0);
    let mut pb = v(10, 0);
    constrain_body_positions(&mut pa, &mut pb, 1, 1, v(1, 0), 6);
    // impulse = -6 / 2 = -3 along x.
    assert_eq!((pa.x, pa.y), (-3, 0));
    assert_eq!((pb.x, pb.y), (13, 0));
}

#[test]
fn position_correction_never_moves_infinite_mass() {
    let mut pa = v(0, 0);
    let mut pb = v(10, 0);
    constrain_body_positions(&mut pa, &mut pb, 0, 2, v(1, 0), 6);
    assert_eq!((pa.x, pa.y), (0, 0));
    assert_eq!((pb.x, pb.y), (16, 0));

    let mut pa = v(0, 0);
    let mut pb = v(10, 0);
    constrain_body_positions(&mut pa, &mut pb, 0, 0, v(1, 0), 6);
    assert_eq!((pa.x, pa.y), (0, 0));
    assert_eq!((pb.x, pb.y), (10, 0));
}

#[test]
fn weighted_displacement_is_conserved_on_a_sample() {
    let mut pa = v(0, 0);
    let mut pb = v(10, 0);
    let (wa, wb) = (1i64, 3i64);
    constrain_body_positions(&mut pa, &mut pb, wa, wb, v(1, 0), 8);
    let da = pa.x - 0;
    let db = pb.x - 10;
    assert_eq!(da * wb, -(db * wa));
}

#[test]
fn integrate_applies_gravity_drag_and_advances_position() {
    let mut bodies = vec![Body::new_with_pos_and_vel(v(0, 100), v(0, 0), v(16, 16), 1)];
    integrate(&mut bodies, v(0, -10), 1);
    let b = &bodies[0];
    assert_eq!((b.vel.x, b.vel.y), (0, -10));
    assert_eq!((b.pos.x, b.pos.y), (0, 90));
    assert_eq!((b.prev_pos.x, b.prev_pos.y), (0, 100));
    assert_eq!((b.pre_solve_vel.x, b.pre_solve_vel.y), (0, -10));
    assert_eq!((b.forces.x, b.forces.y), (0, 0));
}

#[test]
fn integrate_quadratic_drag_brakes() {
    let mut b = Body::new(v(0, 0), v(16, 16));
    b.vel = v(100, 0);
    b.drag = v(10, 0);
    let mut bodies = vec![b];
    // Drag of 10/1024: the loss is 100 * 100 * 10 / 1024 = 97 at v = 100.
    integrate(&mut bodies, v(0, 0), 1);
    assert_eq!(bodies[0].vel.x, 3);
}

#[test]
fn immovable_bodies_ignore_forces_and_gravity() {
    let mut b = Body::new(v(0, 0), v(16, 16));
    b.inv_mass = 0;
    b.apply_force(v(500, 500));
    let mut bodies = vec![b];
    integrate(&mut bodies, v(0, -10), 1);
    assert_eq!((bodies[0].vel.x, bodies[0].vel.y), (0, 0));
    assert_eq!((bodies[0].pos.x, bodies[0].pos.y), (0, 0));
}

#[test]
fn aabb_edges_and_intersection() {
    let a = Aabb::from_vec_size(v(0, 0), v(16, 16));
    assert_eq!(a.left(), 0);
    assert_eq!(a.right(), 16);
    assert_eq!(a.bottom(), 0);
    assert_eq!(a.top(), 16);
    let b = Aabb::from_vec_size(v(16, 0), v(16, 16));
    // Touching edges count as intersecting.
    assert!(a.intersects(&b));
    let c = Aabb::from_vec_size(v(17, 0), v(16, 16));
    assert!(!a.intersects(&c));
}

#[test]
fn broad_phase_emits_each_intersecting_pair_once() {
    let mut bodies = vec![
        Body::new(v(0, 0), v(16, 16)),
        Body::new(v(8, 0), v(16, 16)),
        Body::new(v(1000, 0), v(16, 16)),
    ];
    update_aabb_box(&mut bodies, 60);
    let mut pairs = Vec::new();
    collect_collision_pairs(&bodies, &mut pairs);
    assert_eq!(pairs, vec![(1, 0)]);
}

#[test]
fn solve_pos_separates_and_records_contact() {
    let mut bodies = vec![
        Body::new(v(0, 0), v(16, 16)),
        Body::new(v(10, 0), v(16, 16)),
    ];
    let pairs = vec![(1usize, 0usize)];
    let mut contacts = Vec::new();
    solve_pos(&mut bodies, &pairs, &mut contacts);
    // Normal points from body 1 toward body 0: (-1, 0); impulse -3.
    assert_eq!(contacts.len(), 1);
    assert_eq!(contacts[0].0, 1);
    assert_eq!(contacts[0].1, 0);
    assert_eq!((contacts[0].2.x, contacts[0].2.y), (-1, 0));
    assert_eq!(bodies[1].pos.x, 13);
    assert_eq!(bodies[0].pos.x, -3);
}

#[test]
fn update_vel_rederives_velocity_from_displacement() {
    let mut b = Body::new(v(0, 0), v(16, 16));
    b.prev_pos = v(-5, 2);
    let mut bodies = vec![b];
    update_vel(&mut bodies, 10);
    assert_eq!((bodies[0].vel.x, bodies[0].vel.y), (50, -20));
}

#[test]
fn solve_vel_applies_restitution_against_presolve_velocity() {
    // Two unit masses, head on along x, restitution 1.0 on both.
    let mut a = Body::new(v(0, 0), v(16, 16));
    a.vel = v(10, 0);
    a.pre_solve_vel = v(10, 0);
    a.restitution = COEF_ONE;
    let mut b = Body::new(v(10, 0), v(16, 16));
    b.vel = v(-10, 0);
    b.pre_solve_vel = v(-10, 0);
    b.restitution = COEF_ONE;
    let mut bodies = vec![a, b];
    let contacts = vec![(1usize, 0usize, Vec2i { x: -1, y: 0 })];
    solve_vel(&mut bodies, &contacts);
    // Fully elastic: the velocities swap.
    assert_eq!(bodies[0].vel.x, -10);
    assert_eq!(bodies[1].vel.x, 10);
}
