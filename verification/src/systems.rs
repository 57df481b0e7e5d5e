//! The body pipeline: bounding-volume update, broad-phase pair collection,
//! integration, narrow-phase position solving, velocity update and velocity
//! solving. Each stage has a spec-level model (`spec_*`) that the executable
//! stage provably implements body for body.

use vstd::prelude::*;
use crate::aabb::{aabb_intersects, Aabb};
use crate::body::{Body, Contact};
use crate::num::{
    abs_i, abs_i128, abs_i128_of, div_t, div_trunc, sat64, sat_i64, sat_mag, sat_to, sgn,
    sign_i128, COEF_ONE, TPS_MAX, VEL_SAT,
};
use crate::vec2::Vec2i;

verus! {

broadcast use vstd::seq_lib::lemma_seq_contains_after_push;

// ---------------------------------------------------------------------------
// Bounding-volume update
// ---------------------------------------------------------------------------

/// Velocity-proportional safety margin for the broad phase: two ticks' worth
/// of travel at the body's larger axis speed.
pub open spec fn spec_margin(vel: Vec2i, tps: int) -> int {
    let m = if abs_i(vel.x as int) >= abs_i(vel.y as int) {
        abs_i(vel.x as int)
    } else {
        abs_i(vel.y as int)
    };
    div_t(2 * m, tps)
}

/// The bounding box of one body: position plus/minus half the collider extent
/// padded by the margin.
pub open spec fn spec_update_aabb(b: Body, tps: int) -> Body {
    let hx = div_t(b.collider.size.x as int, 2) + spec_margin(b.vel, tps);
    let hy = div_t(b.collider.size.y as int, 2) + spec_margin(b.vel, tps);
    Body {
        aabb: Aabb {
            min: Vec2i { x: sat64(b.pos.x - hx) as i64, y: sat64(b.pos.y - hy) as i64 },
            max: Vec2i { x: sat64(b.pos.x + hx) as i64, y: sat64(b.pos.y + hy) as i64 },
        },
        ..b
    }
}

/// Recomputes every body's AABB from its position, collider size and a
/// velocity-proportional anti-tunneling margin.
pub fn update_aabb_box(bodies: &mut Vec<Body>, tps: i64)
    requires
        1 <= tps <= TPS_MAX,
        forall|i: int| 0 <= i < old(bodies)@.len() ==> #[trigger] old(bodies)@[i].valid(),
    ensures
        final(bodies)@.len() == old(bodies)@.len(),
        forall|i: int|
            0 <= i < old(bodies)@.len() ==> final(bodies)@[i] == spec_update_aabb(
                old(bodies)@[i],
                tps as int,
            ),
        forall|i: int| 0 <= i < final(bodies)@.len() ==> #[trigger] final(bodies)@[i].valid(),
{
    let n: usize = bodies.len();
    let mut i: usize = 0;
    while i < n
        invariant
            n == old(bodies)@.len(),
            bodies@.len() == n,
            0 <= i <= n,
            1 <= tps <= TPS_MAX,
            forall|k: int| 0 <= k < n ==> #[trigger] old(bodies)@[k].valid(),
            forall|k: int|
                0 <= k < i ==> bodies@[k] == spec_update_aabb(old(bodies)@[k], tps as int),
            forall|k: int| i <= k < n ==> bodies@[k] == old(bodies)@[k],
        decreases n - i,
    {
        let vx: i128 = abs_i128_of(bodies[i].vel.x);
        let vy: i128 = abs_i128_of(bodies[i].vel.y);
        let m: i128 = if vx >= vy {
            div_trunc(2 * vx, tps as i128)
        } else {
            div_trunc(2 * vy, tps as i128)
        };
        let hx: i128 = div_trunc(bodies[i].collider.size.x as i128, 2) + m;
        let hy: i128 = div_trunc(bodies[i].collider.size.y as i128, 2) + m;
        let px: i128 = bodies[i].pos.x as i128;
        let py: i128 = bodies[i].pos.y as i128;
        let aabb = Aabb {
            min: Vec2i { x: sat_i64(px - hx), y: sat_i64(py - hy) },
            max: Vec2i { x: sat_i64(px + hx), y: sat_i64(py + hy) },
        };
        bodies[i].aabb = aabb;
        i = i + 1;
    }
    assert forall|k: int| 0 <= k < bodies@.len() implies #[trigger] bodies@[k].valid() by {
        assert(bodies@[k] == spec_update_aabb(old(bodies)@[k], tps as int));
        assert(old(bodies)@[k].valid());
    }
}

// ---------------------------------------------------------------------------
// Broad phase
// ---------------------------------------------------------------------------

/// The broad phase's output, characterized completely: each pair holds the
/// larger index first, a pair is listed exactly when the two AABBs intersect,
/// and the list ascends lexicographically (so it has no duplicates).
pub open spec fn pairs_wf(pairs: Seq<(usize, usize)>, bodies: Seq<Body>) -> bool {
    &&& forall|k: int|
        0 <= k < pairs.len() ==> (#[trigger] pairs[k]).1 < pairs[k].0 && pairs[k].0 < bodies.len()
    &&& forall|a: int, b: int|
        0 <= b < a < bodies.len() ==> (pairs.contains((a as usize, b as usize))
            <==> aabb_intersects(bodies[a].aabb, bodies[b].aabb))
    &&& forall|k1: int, k2: int|
        0 <= k1 < k2 < pairs.len() ==> (pairs[k1].0 < pairs[k2].0 || (pairs[k1].0 == pairs[k2].0
            && pairs[k1].1 < pairs[k2].1))
}

/// Finds the candidate colliding pairs: each unordered pair of distinct
/// bodies is inspected once (only with the larger index first) and kept
/// exactly when the two AABBs intersect. The output is rebuilt from scratch.
pub fn collect_collision_pairs(bodies: &Vec<Body>, pairs: &mut Vec<(usize, usize)>)
    ensures
        pairs_wf(final(pairs)@, bodies@),
        forall|k1: int, k2: int|
            0 <= k1 < k2 < final(pairs)@.len() ==> final(pairs)@[k1] != final(pairs)@[k2],
{
    pairs.clear();
    let n: usize = bodies.len();
    let mut a: usize = 0;
    while a < n
        invariant
            bodies@.len() == n,
            0 <= a <= n,
            forall|k: int|
                0 <= k < pairs@.len() ==> (#[trigger] pairs@[k]).1 < pairs@[k].0
                    && pairs@[k].0 < a,
            forall|x: int, y: int|
                0 <= y < x < a ==> (pairs@.contains((x as usize, y as usize)) <==> aabb_intersects(
                    bodies@[x].aabb,
                    bodies@[y].aabb,
                )),
            forall|k1: int, k2: int|
                0 <= k1 < k2 < pairs@.len() ==> (pairs@[k1].0 < pairs@[k2].0 || (pairs@[k1].0
                    == pairs@[k2].0 && pairs@[k1].1 < pairs@[k2].1)),
        decreases n - a,
    {
        let mut b: usize = 0;
        while b < a
            invariant
                bodies@.len() == n,
                0 <= b <= a < n,
                forall|k: int|
                    0 <= k < pairs@.len() ==> ((#[trigger] pairs@[k]).1 < pairs@[k].0
                        && pairs@[k].0 < a) || (pairs@[k].0 == a && pairs@[k].1 < b),
                forall|x: int, y: int|
                    0 <= y < x < a ==> (pairs@.contains((x as usize, y as usize))
                        <==> aabb_intersects(bodies@[x].aabb, bodies@[y].aabb)),
                forall|y: int|
                    0 <= y < b ==> (pairs@.contains((a as usize, y as usize)) <==> aabb_intersects(
                        bodies@[a as int].aabb,
                        bodies@[y].aabb,
                    )),
                forall|k1: int, k2: int|
                    0 <= k1 < k2 < pairs@.len() ==> (pairs@[k1].0 < pairs@[k2].0 || (pairs@[k1].0
                        == pairs@[k2].0 && pairs@[k1].1 < pairs@[k2].1)),
            decreases a - b,
        {
            if bodies[a].aabb.intersects(&bodies[b].aabb) {
                pairs.push((a, b));
            }
            b = b + 1;
        }
        a = a + 1;
    }
}

// ---------------------------------------------------------------------------
// Narrow phase: box-box contact
// ---------------------------------------------------------------------------

/// Overlap of the two boxes along x: the sum of the half extents minus the
/// center distance. Negative means separated on that axis.
pub open spec fn spec_overlap_x(pos_a: Vec2i, size_a: Vec2i, pos_b: Vec2i, size_b: Vec2i) -> int {
    div_t(size_a.x as int, 2) + div_t(size_b.x as int, 2) - abs_i(pos_b.x - pos_a.x)
}

/// Overlap of the two boxes along y.
pub open spec fn spec_overlap_y(pos_a: Vec2i, size_a: Vec2i, pos_b: Vec2i, size_b: Vec2i) -> int {
    div_t(size_a.y as int, 2) + div_t(size_b.y as int, 2) - abs_i(pos_b.y - pos_a.y)
}

/// The contact of two boxes centered at `pos_a` and `pos_b`: no contact when
/// separated on either axis, otherwise the axis of smaller overlap carries
/// the unit normal (pointing from a toward b) and the penetration depth.
pub open spec fn spec_box_box(pos_a: Vec2i, size_a: Vec2i, pos_b: Vec2i, size_b: Vec2i) -> Option<
    Contact,
> {
    let ox = spec_overlap_x(pos_a, size_a, pos_b, size_b);
    let oy = spec_overlap_y(pos_a, size_a, pos_b, size_b);
    if ox < 0 || oy < 0 {
        None
    } else if ox < oy {
        Some(
            Contact {
                penetration: ox as i64,
                normal: Vec2i { x: sgn(pos_b.x - pos_a.x) as i64, y: 0 },
            },
        )
    } else {
        Some(
            Contact {
                penetration: oy as i64,
                normal: Vec2i { x: 0, y: sgn(pos_b.y - pos_a.y) as i64 },
            },
        )
    }
}

/// Exact box-box test between boxes centered at the given positions, with the
/// minimum-penetration axis choice.
pub fn box_box(pos_a: Vec2i, size_a: Vec2i, pos_b: Vec2i, size_b: Vec2i) -> (r: Option<Contact>)
    requires
        0 <= size_a.x,
        0 <= size_a.y,
        0 <= size_b.x,
        0 <= size_b.y,
    ensures
        r == spec_box_box(pos_a, size_a, pos_b, size_b),
{
    let dx: i128 = pos_b.x as i128 - pos_a.x as i128;
    let dy: i128 = pos_b.y as i128 - pos_a.y as i128;
    let ox: i128 = div_trunc(size_a.x as i128, 2) + div_trunc(size_b.x as i128, 2) - abs_i128(dx);
    let oy: i128 = div_trunc(size_a.y as i128, 2) + div_trunc(size_b.y as i128, 2) - abs_i128(dy);
    proof {
        vstd::arithmetic::div_mod::lemma_div_is_ordered(size_a.x as int, i64::MAX as int, 2);
        vstd::arithmetic::div_mod::lemma_div_is_ordered(size_b.x as int, i64::MAX as int, 2);
        vstd::arithmetic::div_mod::lemma_div_is_ordered(size_a.y as int, i64::MAX as int, 2);
        vstd::arithmetic::div_mod::lemma_div_is_ordered(size_b.y as int, i64::MAX as int, 2);
        vstd::arithmetic::div_mod::lemma_div_pos_is_pos(size_a.x as int, 2);
        vstd::arithmetic::div_mod::lemma_div_pos_is_pos(size_b.x as int, 2);
        vstd::arithmetic::div_mod::lemma_div_pos_is_pos(size_a.y as int, 2);
        vstd::arithmetic::div_mod::lemma_div_pos_is_pos(size_b.y as int, 2);
    }
    if ox < 0 || oy < 0 {
        None
    } else if ox < oy {
        Some(
            Contact {
                penetration: ox as i64,
                normal: Vec2i { x: sign_i128(dx), y: 0 },
            },
        )
    } else {
        Some(
            Contact {
                penetration: oy as i64,
                normal: Vec2i { x: 0, y: sign_i128(dy) },
            },
        )
    }
}

// ---------------------------------------------------------------------------
// Integration
// ---------------------------------------------------------------------------

/// Velocity after one integration step: the accumulated forces and gravity,
/// weighted by inverse mass, accelerate the body for one tick, then the
/// quadratic drag `v * |v| * drag` is subtracted component-wise. A body of
/// zero inverse mass is immovable and ignores forces and gravity.
pub open spec fn spec_integrate_vel(b: Body, gravity: Vec2i, tps: int) -> (int, int) {
    let dvx = if b.inv_mass == 0 {
        0int
    } else {
        div_t(gravity.x + b.forces.x * b.inv_mass, tps)
    };
    let dvy = if b.inv_mass == 0 {
        0int
    } else {
        div_t(gravity.y + b.forces.y * b.inv_mass, tps)
    };
    let v1x = sat_to(b.vel.x + dvx, VEL_SAT as int);
    let v1y = sat_to(b.vel.y + dvy, VEL_SAT as int);
    let v2x = sat64(v1x - div_t(v1x * abs_i(v1x) * b.drag.x, COEF_ONE as int));
    let v2y = sat64(v1y - div_t(v1y * abs_i(v1y) * b.drag.y, COEF_ONE as int));
    (v2x, v2y)
}

/// One semi-implicit Euler step of a body: snapshot the position, advance the
/// velocity (forces, gravity, drag), advance the position by one tick of the
/// new velocity, record the pre-solve velocity, clear the forces.
pub open spec fn spec_integrate(b: Body, gravity: Vec2i, tps: int) -> Body {
    let v2 = spec_integrate_vel(b, gravity, tps);
    Body {
        pos: Vec2i {
            x: sat64(b.pos.x + div_t(v2.0, tps)) as i64,
            y: sat64(b.pos.y + div_t(v2.1, tps)) as i64,
        },
        prev_pos: b.pos,
        vel: Vec2i { x: v2.0 as i64, y: v2.1 as i64 },
        pre_solve_vel: Vec2i { x: v2.0 as i64, y: v2.1 as i64 },
        forces: Vec2i { x: 0, y: 0 },
        ..b
    }
}

/// Advances every body by one tick: velocity from forces and gravity, then
/// drag, then position, caching the pre-solve velocity and clearing the
/// force accumulator.
pub fn integrate(bodies: &mut Vec<Body>, gravity: Vec2i, tps: i64)
    requires
        1 <= tps <= TPS_MAX,
        forall|i: int| 0 <= i < old(bodies)@.len() ==> #[trigger] old(bodies)@[i].valid(),
    ensures
        final(bodies)@.len() == old(bodies)@.len(),
        forall|i: int|
            0 <= i < old(bodies)@.len() ==> final(bodies)@[i] == spec_integrate(
                old(bodies)@[i],
                gravity,
                tps as int,
            ),
        forall|i: int| 0 <= i < final(bodies)@.len() ==> #[trigger] final(bodies)@[i].valid(),
{
    let n: usize = bodies.len();
    let mut i: usize = 0;
    while i < n
        invariant
            n == old(bodies)@.len(),
            bodies@.len() == n,
            0 <= i <= n,
            1 <= tps <= TPS_MAX,
            forall|k: int| 0 <= k < n ==> #[trigger] old(bodies)@[k].valid(),
            forall|k: int|
                0 <= k < i ==> bodies@[k] == spec_integrate(old(bodies)@[k], gravity, tps as int),
            forall|k: int| i <= k < n ==> bodies@[k] == old(bodies)@[k],
        decreases n - i,
    {
        let b = bodies[i];
        proof {
            assert(bodies@[i as int] == old(bodies)@[i as int]);
            assert(old(bodies)@[i as int].valid());
        }
        let v2x: i64 = integrate_vel_component(b.vel.x, b.forces.x, gravity.x, b.inv_mass, b.drag.x, tps);
        let v2y: i64 = integrate_vel_component(b.vel.y, b.forces.y, gravity.y, b.inv_mass, b.drag.y, tps);
        let px: i64 = sat_i64(b.pos.x as i128 + div_trunc(v2x as i128, tps as i128));
        let py: i64 = sat_i64(b.pos.y as i128 + div_trunc(v2y as i128, tps as i128));
        let nb = Body {
            pos: Vec2i { x: px, y: py },
            prev_pos: b.pos,
            vel: Vec2i { x: v2x, y: v2y },
            pre_solve_vel: Vec2i { x: v2x, y: v2y },
            forces: Vec2i { x: 0, y: 0 },
            ..b
        };
        bodies[i] = nb;
        i = i + 1;
    }
    assert forall|k: int| 0 <= k < bodies@.len() implies #[trigger] bodies@[k].valid() by {
        assert(bodies@[k] == spec_integrate(old(bodies)@[k], gravity, tps as int));
        assert(old(bodies)@[k].valid());
    }
}

/// One velocity component of the integration step.
fn integrate_vel_component(v: i64, f: i64, g: i64, inv_mass: i64, drag: i64, tps: i64) -> (r: i64)
    requires
        1 <= tps <= TPS_MAX,
        0 <= inv_mass <= crate::body::INV_MASS_MAX,
        0 <= drag <= COEF_ONE,
    ensures
        ({
            let dv = if inv_mass == 0 {
                0int
            } else {
                div_t(g + f * inv_mass, tps as int)
            };
            let v1 = sat_to(v + dv, VEL_SAT as int);
            r == sat64(v1 - div_t(v1 * abs_i(v1) * drag, COEF_ONE as int))
        }),
{
    proof {
        crate::num::lemma_mul_le(
            f as int,
            inv_mass as int,
            1 + i64::MAX as int,
            crate::body::INV_MASS_MAX as int,
        );
    }
    let dv: i128 = if inv_mass == 0 {
        0
    } else {
        div_trunc(g as i128 + f as i128 * inv_mass as i128, tps as i128)
    };
    let v1: i128 = sat_mag(v as i128 + dv, VEL_SAT as i128);
    proof {
        crate::num::lemma_mul_le(v1 as int, abs_i(v1 as int), VEL_SAT as int, VEL_SAT as int);
        crate::num::lemma_mul_le(
            v1 as int * abs_i(v1 as int),
            drag as int,
            VEL_SAT as int * VEL_SAT as int,
            COEF_ONE as int,
        );
    }
    let braking: i128 = div_trunc(v1 * abs_i128(v1) * drag as i128, COEF_ONE as i128);
    sat_i64(v1 - braking)
}

// ---------------------------------------------------------------------------
// Position correction
// ---------------------------------------------------------------------------

/// Mass-weighted position correction: the penetration is distributed between
/// the two bodies in proportion to their inverse masses, in opposite
/// directions along the contact normal. Two immovable bodies are left alone.
pub open spec fn spec_constrain(
    pa: Vec2i,
    pb: Vec2i,
    wa: int,
    wb: int,
    n: Vec2i,
    pen: int,
) -> (Vec2i, Vec2i) {
    if wa + wb <= 0 {
        (pa, pb)
    } else {
        let q = div_t(-pen, wa + wb);
        (
            Vec2i {
                x: sat64(pa.x + n.x * q * wa) as i64,
                y: sat64(pa.y + n.y * q * wa) as i64,
            },
            Vec2i {
                x: sat64(pb.x - n.x * q * wb) as i64,
                y: sat64(pb.y - n.y * q * wb) as i64,
            },
        )
    }
}

/// Applies the mass-weighted position correction for one contact to the two
/// body positions.
pub fn constrain_body_positions(
    pos_a: &mut Vec2i,
    pos_b: &mut Vec2i,
    inv_mass_a: i64,
    inv_mass_b: i64,
    n: Vec2i,
    penetration: i64,
)
    requires
        0 <= inv_mass_a <= crate::body::INV_MASS_MAX,
        0 <= inv_mass_b <= crate::body::INV_MASS_MAX,
        -1 <= n.x <= 1,
        -1 <= n.y <= 1,
    ensures
        (*final(pos_a), *final(pos_b)) == spec_constrain(
            *old(pos_a),
            *old(pos_b),
            inv_mass_a as int,
            inv_mass_b as int,
            n,
            penetration as int,
        ),
{
    let w_sum: i64 = inv_mass_a + inv_mass_b;
    if w_sum <= 0 {
        return ;
    }
    let q: i128 = div_trunc(-(penetration as i128), w_sum as i128);
    proof {
        crate::num::lemma_div_t_bound(-(penetration as int), w_sum as int);
        crate::num::lemma_mul_le(n.x as int, q as int, 1, 1 + i64::MAX as int);
        crate::num::lemma_mul_le(n.y as int, q as int, 1, 1 + i64::MAX as int);
        crate::num::lemma_mul_le(
            n.x as int * q as int,
            inv_mass_a as int,
            1 + i64::MAX as int,
            crate::body::INV_MASS_MAX as int,
        );
        crate::num::lemma_mul_le(
            n.y as int * q as int,
            inv_mass_a as int,
            1 + i64::MAX as int,
            crate::body::INV_MASS_MAX as int,
        );
        crate::num::lemma_mul_le(
            n.x as int * q as int,
            inv_mass_b as int,
            1 + i64::MAX as int,
            crate::body::INV_MASS_MAX as int,
        );
        crate::num::lemma_mul_le(
            n.y as int * q as int,
            inv_mass_b as int,
            1 + i64::MAX as int,
            crate::body::INV_MASS_MAX as int,
        );
    }
    let ax: i64 = sat_i64(pos_a.x as i128 + n.x as i128 * q * inv_mass_a as i128);
    let ay: i64 = sat_i64(pos_a.y as i128 + n.y as i128 * q * inv_mass_a as i128);
    let bx: i64 = sat_i64(pos_b.x as i128 - n.x as i128 * q * inv_mass_b as i128);
    let by: i64 = sat_i64(pos_b.y as i128 - n.y as i128 * q * inv_mass_b as i128);
    *pos_a = Vec2i { x: ax, y: ay };
    *pos_b = Vec2i { x: bx, y: by };
}

// ---------------------------------------------------------------------------
// Position solver
// ---------------------------------------------------------------------------

/// One narrow-phase step for one candidate pair: exact box-box test on the
/// current positions; on contact, mass-weighted position correction of both
/// bodies and a contact record carrying the normal.
pub open spec fn spec_solve_pos_step(
    bodies: Seq<Body>,
    contacts: Seq<(usize, usize, Vec2i)>,
    pair: (usize, usize),
) -> (Seq<Body>, Seq<(usize, usize, Vec2i)>) {
    let a = pair.0 as int;
    let b = pair.1 as int;
    let ba = bodies[a];
    let bb = bodies[b];
    match spec_box_box(ba.pos, ba.collider.size, bb.pos, bb.collider.size) {
        Option::None => (bodies, contacts),
        Option::Some(c) => {
            let ps = spec_constrain(
                ba.pos,
                bb.pos,
                ba.inv_mass as int,
                bb.inv_mass as int,
                c.normal,
                c.penetration as int,
            );
            (
                bodies.update(a, Body { pos: ps.0, ..ba }).update(b, Body { pos: ps.1, ..bb }),
                contacts.push((pair.0, pair.1, c.normal)),
            )
        },
    }
}

/// The position solver over a pair list: the steps are applied in order, each
/// seeing the corrections of the previous ones, and the contact list is
/// rebuilt from scratch.
pub open spec fn spec_solve_pos(bodies: Seq<Body>, pairs: Seq<(usize, usize)>) -> (
    Seq<Body>,
    Seq<(usize, usize, Vec2i)>,
)
    decreases pairs.len(),
{
    if pairs.len() == 0 {
        (bodies, Seq::empty())
    } else {
        let prev = spec_solve_pos(bodies, pairs.drop_last());
        spec_solve_pos_step(prev.0, prev.1, pairs.last())
    }
}

/// The position solver only moves bodies: every other field is untouched, so
/// well-formedness survives, and so do the contact records' index bounds.
pub proof fn lemma_solve_pos_frame(bodies: Seq<Body>, pairs: Seq<(usize, usize)>)
    requires
        forall|k: int|
            0 <= k < pairs.len() ==> (#[trigger] pairs[k]).1 < pairs[k].0 && pairs[k].0
                < bodies.len(),
    ensures
        spec_solve_pos(bodies, pairs).0.len() == bodies.len(),
        forall|i: int|
            0 <= i < bodies.len() ==> #[trigger] spec_solve_pos(bodies, pairs).0[i] == (Body {
                pos: spec_solve_pos(bodies, pairs).0[i].pos,
                ..bodies[i]
            }),
        forall|k: int|
            0 <= k < spec_solve_pos(bodies, pairs).1.len() ==> (#[trigger] spec_solve_pos(
                bodies,
                pairs,
            ).1[k]).1 < spec_solve_pos(bodies, pairs).1[k].0 && spec_solve_pos(
                bodies,
                pairs,
            ).1[k].0 < bodies.len(),
    decreases pairs.len(),
{
    if pairs.len() > 0 {
        assert(forall|k: int|
            0 <= k < pairs.drop_last().len() ==> (#[trigger] pairs.drop_last()[k]).1
                < pairs.drop_last()[k].0 && pairs.drop_last()[k].0 < bodies.len());
        lemma_solve_pos_frame(bodies, pairs.drop_last());
        assert(pairs[pairs.len() - 1] == pairs.last());
    }
}

/// Runs the narrow phase over the broad phase's candidate pairs: each pair is
/// tested exactly, penetrating pairs get a mass-weighted position correction,
/// and the surviving contacts are recorded for the velocity solver.
pub fn solve_pos(
    bodies: &mut Vec<Body>,
    pairs: &Vec<(usize, usize)>,
    contacts: &mut Vec<(usize, usize, Vec2i)>,
)
    requires
        forall|k: int|
            0 <= k < pairs@.len() ==> (#[trigger] pairs@[k]).1 < pairs@[k].0 && pairs@[k].0
                < old(bodies)@.len(),
        forall|i: int| 0 <= i < old(bodies)@.len() ==> #[trigger] old(bodies)@[i].valid(),
    ensures
        (final(bodies)@, final(contacts)@) == spec_solve_pos(old(bodies)@, pairs@),
        final(bodies)@.len() == old(bodies)@.len(),
        forall|i: int| 0 <= i < final(bodies)@.len() ==> #[trigger] final(bodies)@[i].valid(),
        forall|i: int|
            0 <= i < final(bodies)@.len() ==> #[trigger] final(bodies)@[i] == (Body {
                pos: final(bodies)@[i].pos,
                ..old(bodies)@[i]
            }),
        forall|k: int|
            0 <= k < final(contacts)@.len() ==> (#[trigger] final(contacts)@[k]).1
                < final(contacts)@[k].0 && final(contacts)@[k].0 < old(bodies)@.len(),
{
    contacts.clear();
    let n_pairs: usize = pairs.len();
    let mut k: usize = 0;
    while k < n_pairs
        invariant
            n_pairs == pairs@.len(),
            0 <= k <= n_pairs,
            forall|j: int|
                0 <= j < pairs@.len() ==> (#[trigger] pairs@[j]).1 < pairs@[j].0 && pairs@[j].0
                    < old(bodies)@.len(),
            forall|i: int| 0 <= i < old(bodies)@.len() ==> #[trigger] old(bodies)@[i].valid(),
            (bodies@, contacts@) == spec_solve_pos(old(bodies)@, pairs@.take(k as int)),
        decreases n_pairs - k,
    {
        proof {
            assert(forall|j: int|
                0 <= j < pairs@.take(k as int).len() ==> (#[trigger] pairs@.take(k as int)[j]).1
                    < pairs@.take(k as int)[j].0 && pairs@.take(k as int)[j].0
                    < old(bodies)@.len());
            lemma_solve_pos_frame(old(bodies)@, pairs@.take(k as int));
        }
        let pr: (usize, usize) = pairs[k];
        let a: usize = pr.0;
        let b: usize = pr.1;
        let ba = bodies[a];
        let bb = bodies[b];
        proof {
            assert(ba == (Body { pos: ba.pos, ..old(bodies)@[a as int] }));
            assert(bb == (Body { pos: bb.pos, ..old(bodies)@[b as int] }));
            assert(old(bodies)@[a as int].valid());
            assert(old(bodies)@[b as int].valid());
        }
        match box_box(ba.pos, ba.collider.size, bb.pos, bb.collider.size) {
            Option::None => {},
            Option::Some(c) => {
                let mut pa = ba.pos;
                let mut pb = bb.pos;
                constrain_body_positions(&mut pa, &mut pb, ba.inv_mass, bb.inv_mass, c.normal, c.penetration);
                bodies[a].pos = pa;
                bodies[b].pos = pb;
                contacts.push((a, b, c.normal));
            },
        }
        proof {
            assert(pairs@.take(k + 1 as int).drop_last() =~= pairs@.take(k as int));
            assert(pairs@.take(k + 1 as int).last() == pairs@[k as int]);
        }
        k = k + 1;
    }
    proof {
        assert(pairs@.take(n_pairs as int) =~= pairs@);
        lemma_solve_pos_frame(old(bodies)@, pairs@);
        assert(bodies@ == spec_solve_pos(old(bodies)@, pairs@).0);
        assert(contacts@ == spec_solve_pos(old(bodies)@, pairs@).1);
        assert forall|i: int| 0 <= i < bodies@.len() implies #[trigger] bodies@[i].valid() by {
            assert(bodies@[i] == spec_solve_pos(old(bodies)@, pairs@).0[i]);
            assert(bodies@[i] == (Body { pos: bodies@[i].pos, ..old(bodies)@[i] }));
            assert(old(bodies)@[i].valid());
        }
        assert forall|j: int|
            0 <= j < contacts@.len() implies (#[trigger] contacts@[j]).1 < contacts@[j].0
            && contacts@[j].0 < old(bodies)@.len() by {
            assert(contacts@[j] == spec_solve_pos(old(bodies)@, pairs@).1[j]);
        }
    }
}

// ---------------------------------------------------------------------------
// Velocity update
// ---------------------------------------------------------------------------

/// Velocity re-derived from the tick's actual displacement, so that position
/// corrections feed back into velocity.
pub open spec fn spec_update_vel(b: Body, tps: int) -> Body {
    Body {
        vel: Vec2i {
            x: sat64((b.pos.x - b.prev_pos.x) * tps) as i64,
            y: sat64((b.pos.y - b.prev_pos.y) * tps) as i64,
        },
        ..b
    }
}

/// Sets every body's velocity to the displacement it actually made this tick,
/// divided by the tick duration.
pub fn update_vel(bodies: &mut Vec<Body>, tps: i64)
    requires
        1 <= tps <= TPS_MAX,
        forall|i: int| 0 <= i < old(bodies)@.len() ==> #[trigger] old(bodies)@[i].valid(),
    ensures
        final(bodies)@.len() == old(bodies)@.len(),
        forall|i: int|
            0 <= i < old(bodies)@.len() ==> final(bodies)@[i] == spec_update_vel(
                old(bodies)@[i],
                tps as int,
            ),
        forall|i: int| 0 <= i < final(bodies)@.len() ==> #[trigger] final(bodies)@[i].valid(),
{
    let n: usize = bodies.len();
    let mut i: usize = 0;
    while i < n
        invariant
            n == old(bodies)@.len(),
            bodies@.len() == n,
            0 <= i <= n,
            1 <= tps <= TPS_MAX,
            forall|k: int| 0 <= k < n ==> #[trigger] old(bodies)@[k].valid(),
            forall|k: int|
                0 <= k < i ==> bodies@[k] == spec_update_vel(old(bodies)@[k], tps as int),
            forall|k: int| i <= k < n ==> bodies@[k] == old(bodies)@[k],
        decreases n - i,
    {
        let b = bodies[i];
        let vx: i64 = sat_i64(
            crate::num::mul_i128(b.pos.x as i128 - b.prev_pos.x as i128, tps as i128),
        );
        let vy: i64 = sat_i64(
            crate::num::mul_i128(b.pos.y as i128 - b.prev_pos.y as i128, tps as i128),
        );
        bodies[i].vel = Vec2i { x: vx, y: vy };
        i = i + 1;
    }
    assert forall|k: int| 0 <= k < bodies@.len() implies #[trigger] bodies@[k].valid() by {
        assert(bodies@[k] == spec_update_vel(old(bodies)@[k], tps as int));
        assert(old(bodies)@[k].valid());
    }
}

// ---------------------------------------------------------------------------
// Velocity solver
// ---------------------------------------------------------------------------

/// The contact normal used by the velocity solver: the separating axis of the
/// recorded contact, with the sign recomputed from the corrected positions so
/// it stays consistent after the position solve.
pub open spec fn spec_restitution_normal(ba: Body, bb: Body, cached: Vec2i) -> Vec2i {
    if cached.x != 0 {
        Vec2i { x: sgn(bb.pos.x - ba.pos.x) as i64, y: 0 }
    } else {
        Vec2i { x: 0, y: sgn(bb.pos.y - ba.pos.y) as i64 }
    }
}

/// One restitution step for one contact: the relative velocity along the
/// normal is cancelled and replaced by the pre-solve (ballistic) normal
/// velocity scaled by the pair's averaged restitution, distributed by inverse
/// mass. A pair of immovable bodies is left alone.
pub open spec fn spec_solve_vel_step(bodies: Seq<Body>, contact: (usize, usize, Vec2i)) -> Seq<
    Body,
> {
    let a = contact.0 as int;
    let b = contact.1 as int;
    let ba = bodies[a];
    let bb = bodies[b];
    let wsum = ba.inv_mass + bb.inv_mass;
    if wsum <= 0 {
        bodies
    } else {
        let n = spec_restitution_normal(ba, bb, contact.2);
        let pre_nv = (ba.pre_solve_vel.x - bb.pre_solve_vel.x) * n.x + (ba.pre_solve_vel.y
            - bb.pre_solve_vel.y) * n.y;
        let nv = (ba.vel.x - bb.vel.x) * n.x + (ba.vel.y - bb.vel.y) * n.y;
        let rest = div_t(ba.restitution + bb.restitution, 2);
        let t = -nv - div_t(pre_nv * rest, COEF_ONE as int);
        let da = div_t(t * ba.inv_mass, wsum as int);
        let db = div_t(t * bb.inv_mass, wsum as int);
        bodies.update(
            a,
            Body {
                vel: Vec2i {
                    x: sat64(ba.vel.x + da * n.x) as i64,
                    y: sat64(ba.vel.y + da * n.y) as i64,
                },
                ..ba
            },
        ).update(
            b,
            Body {
                vel: Vec2i {
                    x: sat64(bb.vel.x - db * n.x) as i64,
                    y: sat64(bb.vel.y - db * n.y) as i64,
                },
                ..bb
            },
        )
    }
}

/// The velocity solver over the tick's contact list, applied in order.
pub open spec fn spec_solve_vel(bodies: Seq<Body>, contacts: Seq<(usize, usize, Vec2i)>) -> Seq<
    Body,
>
    decreases contacts.len(),
{
    if contacts.len() == 0 {
        bodies
    } else {
        spec_solve_vel_step(spec_solve_vel(bodies, contacts.drop_last()), contacts.last())
    }
}

/// The velocity solver only changes velocities.
pub proof fn lemma_solve_vel_frame(bodies: Seq<Body>, contacts: Seq<(usize, usize, Vec2i)>)
    requires
        forall|k: int|
            0 <= k < contacts.len() ==> (#[trigger] contacts[k]).1 < contacts[k].0 && contacts[k].0
                < bodies.len(),
    ensures
        spec_solve_vel(bodies, contacts).len() == bodies.len(),
        forall|i: int|
            0 <= i < bodies.len() ==> #[trigger] spec_solve_vel(bodies, contacts)[i] == (Body {
                vel: spec_solve_vel(bodies, contacts)[i].vel,
                ..bodies[i]
            }),
    decreases contacts.len(),
{
    if contacts.len() > 0 {
        assert(forall|k: int|
            0 <= k < contacts.drop_last().len() ==> (#[trigger] contacts.drop_last()[k]).1
                < contacts.drop_last()[k].0 && contacts.drop_last()[k].0 < bodies.len());
        lemma_solve_vel_frame(bodies, contacts.drop_last());
        assert(contacts[contacts.len() - 1] == contacts.last());
    }
}

/// Resolves the relative velocity of every contact along its (recomputed)
/// normal, using the averaged restitution of the pair and the pre-solve
/// velocities as the rebound baseline.
pub fn solve_vel(bodies: &mut Vec<Body>, contacts: &Vec<(usize, usize, Vec2i)>)
    requires
        forall|k: int|
            0 <= k < contacts@.len() ==> (#[trigger] contacts@[k]).1 < contacts@[k].0
                && contacts@[k].0 < old(bodies)@.len(),
        forall|i: int| 0 <= i < old(bodies)@.len() ==> #[trigger] old(bodies)@[i].valid(),
    ensures
        final(bodies)@ == spec_solve_vel(old(bodies)@, contacts@),
        final(bodies)@.len() == old(bodies)@.len(),
        forall|i: int| 0 <= i < final(bodies)@.len() ==> #[trigger] final(bodies)@[i].valid(),
        forall|i: int|
            0 <= i < final(bodies)@.len() ==> #[trigger] final(bodies)@[i] == (Body {
                vel: final(bodies)@[i].vel,
                ..old(bodies)@[i]
            }),
{
    let n_contacts: usize = contacts.len();
    let mut k: usize = 0;
    while k < n_contacts
        invariant
            n_contacts == contacts@.len(),
            0 <= k <= n_contacts,
            forall|j: int|
                0 <= j < contacts@.len() ==> (#[trigger] contacts@[j]).1 < contacts@[j].0
                    && contacts@[j].0 < old(bodies)@.len(),
            forall|i: int| 0 <= i < old(bodies)@.len() ==> #[trigger] old(bodies)@[i].valid(),
            bodies@ == spec_solve_vel(old(bodies)@, contacts@.take(k as int)),
        decreases n_contacts - k,
    {
        proof {
            assert(forall|j: int|
                0 <= j < contacts@.take(k as int).len() ==> (#[trigger] contacts@.take(
                    k as int,
                )[j]).1 < contacts@.take(k as int)[j].0 && contacts@.take(k as int)[j].0 < old(
                    bodies,
                )@.len());
            lemma_solve_vel_frame(old(bodies)@, contacts@.take(k as int));
        }
        let ct: (usize, usize, Vec2i) = contacts[k];
        let a: usize = ct.0;
        let b: usize = ct.1;
        let ghost pre = bodies@;
        let ba = bodies[a];
        let bb = bodies[b];
        proof {
            assert(ba == (Body { vel: ba.vel, ..old(bodies)@[a as int] }));
            assert(bb == (Body { vel: bb.vel, ..old(bodies)@[b as int] }));
            assert(old(bodies)@[a as int].valid());
            assert(old(bodies)@[b as int].valid());
        }
        let w_sum: i64 = ba.inv_mass + bb.inv_mass;
        if w_sum > 0 {
            let n: Vec2i = if ct.2.x != 0 {
                Vec2i { x: sign_i128(bb.pos.x as i128 - ba.pos.x as i128), y: 0 }
            } else {
                Vec2i { x: 0, y: sign_i128(bb.pos.y as i128 - ba.pos.y as i128) }
            };
            proof {
                crate::num::lemma_mul_le(
                    ba.pre_solve_vel.x - bb.pre_solve_vel.x,
                    n.x as int,
                    0x20000000000000000,
                    1,
                );
                crate::num::lemma_mul_le(
                    ba.pre_solve_vel.y - bb.pre_solve_vel.y,
                    n.y as int,
                    0x20000000000000000,
                    1,
                );
                crate::num::lemma_mul_le(
                    ba.vel.x - bb.vel.x,
                    n.x as int,
                    0x20000000000000000,
                    1,
                );
                crate::num::lemma_mul_le(
                    ba.vel.y - bb.vel.y,
                    n.y as int,
                    0x20000000000000000,
                    1,
                );
            }
            let pre_nv: i128 = crate::num::mul_i128(
                ba.pre_solve_vel.x as i128 - bb.pre_solve_vel.x as i128,
                n.x as i128,
            ) + crate::num::mul_i128(
                ba.pre_solve_vel.y as i128 - bb.pre_solve_vel.y as i128,
                n.y as i128,
            );
            let nv: i128 = crate::num::mul_i128(ba.vel.x as i128 - bb.vel.x as i128, n.x as i128)
                + crate::num::mul_i128(ba.vel.y as i128 - bb.vel.y as i128, n.y as i128);
            let rest: i128 = div_trunc(ba.restitution as i128 + bb.restitution as i128, 2);
            proof {
                crate::num::lemma_div_t_bound(
                    ba.restitution as int + bb.restitution as int,
                    2,
                );
                crate::num::lemma_mul_le(pre_nv as int, rest as int, 0x80000000000000000, 2048);
            }
            let t: i128 = -nv - div_trunc(crate::num::mul_i128(pre_nv, rest), COEF_ONE as i128);
            proof {
                crate::num::lemma_div_t_bound(pre_nv as int * rest as int, COEF_ONE as int);
                crate::num::lemma_div_t_scaled_bound(t as int, ba.inv_mass as int, w_sum as int);
                crate::num::lemma_div_t_scaled_bound(t as int, bb.inv_mass as int, w_sum as int);
            }
            let da: i128 = div_trunc(crate::num::mul_i128(t, ba.inv_mass as i128), w_sum as i128);
            let db: i128 = div_trunc(crate::num::mul_i128(t, bb.inv_mass as i128), w_sum as i128);
            proof {
                crate::num::lemma_mul_le(da as int, n.x as int, 0x800000000000000000000, 1);
                crate::num::lemma_mul_le(da as int, n.y as int, 0x800000000000000000000, 1);
                crate::num::lemma_mul_le(db as int, n.x as int, 0x800000000000000000000, 1);
                crate::num::lemma_mul_le(db as int, n.y as int, 0x800000000000000000000, 1);
            }
            let va = Vec2i {
                x: sat_i64(ba.vel.x as i128 + crate::num::mul_i128(da, n.x as i128)),
                y: sat_i64(ba.vel.y as i128 + crate::num::mul_i128(da, n.y as i128)),
            };
            let vb = Vec2i {
                x: sat_i64(bb.vel.x as i128 - crate::num::mul_i128(db, n.x as i128)),
                y: sat_i64(bb.vel.y as i128 - crate::num::mul_i128(db, n.y as i128)),
            };
            bodies[a].vel = va;
            bodies[b].vel = vb;
            proof {
                assert(bodies@ == pre.update(a as int, Body { vel: va, ..ba }).update(
                    b as int,
                    Body { vel: vb, ..bb },
                ));
                let ct_g = contacts@[k as int];
                let n_s = spec_restitution_normal(ba, bb, ct_g.2);
                assert(n == n_s);
                let pre_nv_s = (ba.pre_solve_vel.x - bb.pre_solve_vel.x) * n_s.x + (
                ba.pre_solve_vel.y - bb.pre_solve_vel.y) * n_s.y;
                assert(pre_nv as int == pre_nv_s);
                let nv_s = (ba.vel.x - bb.vel.x) * n_s.x + (ba.vel.y - bb.vel.y) * n_s.y;
                assert(nv as int == nv_s);
                let rest_s = div_t(ba.restitution + bb.restitution, 2);
                assert(rest as int == rest_s);
                let t_s = -nv_s - div_t(pre_nv_s * rest_s, COEF_ONE as int);
                assert(t as int == t_s);
                let da_s = div_t(t_s * ba.inv_mass, (ba.inv_mass + bb.inv_mass) as int);
                assert(da as int == da_s);
                let db_s = div_t(t_s * bb.inv_mass, (ba.inv_mass + bb.inv_mass) as int);
                assert(db as int == db_s);
                assert(va.x as int == sat64(ba.vel.x + da_s * n_s.x));
                assert(va.y as int == sat64(ba.vel.y + da_s * n_s.y));
                assert(vb.x as int == sat64(bb.vel.x - db_s * n_s.x));
                assert(vb.y as int == sat64(bb.vel.y - db_s * n_s.y));
                assert(bodies@ == spec_solve_vel_step(pre, contacts@[k as int]));
            }
        }
        proof {
            assert(bodies@ == spec_solve_vel_step(pre, contacts@[k as int]));
            assert(contacts@.take(k + 1 as int).drop_last() =~= contacts@.take(k as int));
            assert(contacts@.take(k + 1 as int).last() == contacts@[k as int]);
        }
        k = k + 1;
    }
    proof {
        assert(contacts@.take(n_contacts as int) =~= contacts@);
        lemma_solve_vel_frame(old(bodies)@, contacts@);
        assert forall|i: int| 0 <= i < bodies@.len() implies #[trigger] bodies@[i].valid() by {
            assert(bodies@[i] == spec_solve_vel(old(bodies)@, contacts@)[i]);
            assert(bodies@[i] == (Body { vel: bodies@[i].vel, ..old(bodies)@[i] }));
            assert(old(bodies)@[i].valid());
        }
    }
}

} // verus!
