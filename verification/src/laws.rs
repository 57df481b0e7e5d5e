//! The library's laws: properties of the solvers that hold for all inputs in
//! the stated ranges, proved once here rather than checked on samples.

use vstd::prelude::*;
use crate::body::{Body, INV_MASS_MAX};
use crate::detect::{spec_body_tile_records, spec_detect, spec_tile_record_y};
use crate::num::{
    abs_i, div_t, lemma_div_t_le_factor, lemma_mul_le, lemma_unit_scale, sat64, sat_to, sgn,
    COEF_ONE, TPS_MAX, VEL_SAT,
};
use crate::obstruct::{spec_obstruct, Obstruct};
use crate::sim::{spec_pipeline, Env};
use crate::systems::{
    pairs_wf, spec_box_box, spec_constrain, spec_integrate, spec_overlap_x, spec_overlap_y,
    spec_solve_pos, spec_solve_vel, spec_update_aabb, spec_update_vel,
};
use crate::tiles::{spec_is_solid, spec_tile_aabb, TileCollision, TileGrid, TilePos, YSide};
use crate::vec2::Vec2i;

verus! {

/// A broad phase over a single body finds no pairs.
pub proof fn lemma_single_body_no_pairs(pairs: Seq<(usize, usize)>, bodies: Seq<Body>)
    requires
        bodies.len() == 1,
        pairs_wf(pairs, bodies),
    ensures
        pairs == Seq::<(usize, usize)>::empty(),
{
    if pairs.len() > 0 {
        assert(pairs[0].1 < pairs[0].0 && pairs[0].0 < 1);
    }
    assert(pairs =~= Seq::<(usize, usize)>::empty());
}

/// The single-body pipeline in closed form: no pairs, no contacts, so the
/// body only passes through the bounding-box update, the integrator and the
/// velocity update.
pub proof fn lemma_single_body_pipeline(b: Body, env: Env, pairs: Seq<(usize, usize)>)
    requires
        pairs_wf(pairs, seq![b].map_values(|bb: Body| spec_update_aabb(bb, env.tps as int))),
    ensures
        spec_pipeline(seq![b], env, pairs) == seq![
            spec_update_vel(
                spec_integrate(
                    spec_update_aabb(b, env.tps as int),
                    env.gravity,
                    env.tps as int,
                ),
                env.tps as int,
            ),
        ],
{
    let b1 = seq![b].map_values(|bb: Body| spec_update_aabb(bb, env.tps as int));
    assert(b1.len() == 1);
    lemma_single_body_no_pairs(pairs, b1);
    let b2 = b1.map_values(|bb: Body| spec_integrate(bb, env.gravity, env.tps as int));
    assert(spec_solve_pos(b2, pairs) == (b2, Seq::<(usize, usize, Vec2i)>::empty()));
    let b4 = b2.map_values(|bb: Body| spec_update_vel(bb, env.tps as int));
    assert(spec_solve_vel(b4, Seq::<(usize, usize, Vec2i)>::empty()) == b4);
    assert(b1[0] == spec_update_aabb(b, env.tps as int));
    assert(b2[0] == spec_integrate(b1[0], env.gravity, env.tps as int));
    assert(b4[0] == spec_update_vel(b2[0], env.tps as int));
    assert(spec_pipeline(seq![b], env, pairs) =~= seq![
        spec_update_vel(
            spec_integrate(spec_update_aabb(b, env.tps as int), env.gravity, env.tps as int),
            env.tps as int,
        ),
    ]);
}

/// For any two overlapping boxes the contact picks exactly one axis — the one
/// with the smaller overlap — and its normal is a unit axis-aligned vector
/// pointing from the first box toward the second, with the penetration equal
/// to that axis's overlap.
pub proof fn lemma_box_box_picks_one_axis(pos_a: Vec2i, size_a: Vec2i, pos_b: Vec2i, size_b: Vec2i)
    requires
        0 <= size_a.x,
        0 <= size_a.y,
        0 <= size_b.x,
        0 <= size_b.y,
        spec_overlap_x(pos_a, size_a, pos_b, size_b) >= 0,
        spec_overlap_y(pos_a, size_a, pos_b, size_b) >= 0,
    ensures
        spec_box_box(pos_a, size_a, pos_b, size_b) is Some,
        ({
            let c = spec_box_box(pos_a, size_a, pos_b, size_b)->Some_0;
            let ox = spec_overlap_x(pos_a, size_a, pos_b, size_b);
            let oy = spec_overlap_y(pos_a, size_a, pos_b, size_b);
            &&& abs_i(c.normal.x as int) + abs_i(c.normal.y as int) == 1
            &&& c.normal.x == 0 || c.normal.y == 0
            &&& c.penetration == if ox < oy {
                ox
            } else {
                oy
            }
            &&& (ox < oy ==> c.normal.y == 0 && c.normal.x == sgn(pos_b.x - pos_a.x))
            &&& (ox >= oy ==> c.normal.x == 0 && c.normal.y == sgn(pos_b.y - pos_a.y))
        }),
{
}

/// Separated boxes (a negative overlap on either axis) produce no contact.
pub proof fn lemma_box_box_separated(pos_a: Vec2i, size_a: Vec2i, pos_b: Vec2i, size_b: Vec2i)
    requires
        spec_overlap_x(pos_a, size_a, pos_b, size_b) < 0 || spec_overlap_y(
            pos_a,
            size_a,
            pos_b,
            size_b,
        ) < 0,
    ensures
        spec_box_box(pos_a, size_a, pos_b, size_b) is None,
{
}

/// The correction scaled through a unit factor and an inverse mass is bounded
/// by the penetration.
proof fn lemma_correction_bound(pen: int, nx: int, w: int, wsum: int)
    requires
        0 <= pen,
        -1 <= nx <= 1,
        0 <= w <= wsum,
        1 <= wsum,
    ensures
        abs_i((nx * div_t(-pen, wsum)) * w) <= pen,
{
    let f = pen / wsum;
    vstd::arithmetic::div_mod::lemma_div_pos_is_pos(pen, wsum);
    vstd::arithmetic::div_mod::lemma_fundamental_div_mod(pen, wsum);
    vstd::arithmetic::div_mod::lemma_mod_division_less_than_divisor(pen, wsum);
    assert(div_t(-pen, wsum) == -f);
    lemma_unit_scale(nx, -f);
    lemma_mul_le(nx * -f, w, f, wsum);
    assert(f * wsum <= pen) by (nonlinear_arith)
        requires
            pen == wsum * f + pen % wsum,
            0 <= pen % wsum,
    ;
}

/// Position correction conserves the inverse-mass-weighted displacement: the
/// two bodies move along the normal in opposite directions, in proportion to
/// their inverse masses (`da * wb == -(db * wa)` on each axis, the
/// denominator-free form of `da / wa == -(db / wb)`), and a body of zero
/// inverse mass never moves.
pub proof fn lemma_position_correction_conserves(
    pa: Vec2i,
    pb: Vec2i,
    wa: int,
    wb: int,
    n: Vec2i,
    pen: int,
)
    requires
        0 <= wa <= INV_MASS_MAX as int,
        0 <= wb <= INV_MASS_MAX as int,
        1 <= wa + wb,
        -1 <= n.x <= 1,
        -1 <= n.y <= 1,
        0 <= pen <= 0x400000000000000,
        -0x4000000000000000 <= pa.x <= 0x4000000000000000,
        -0x4000000000000000 <= pa.y <= 0x4000000000000000,
        -0x4000000000000000 <= pb.x <= 0x4000000000000000,
        -0x4000000000000000 <= pb.y <= 0x4000000000000000,
    ensures
        ({
            let r = spec_constrain(pa, pb, wa, wb, n, pen);
            &&& (r.0.x - pa.x) * wb == -((r.1.x - pb.x) * wa)
            &&& (r.0.y - pa.y) * wb == -((r.1.y - pb.y) * wa)
            &&& wa == 0 ==> r.0 == pa
            &&& wb == 0 ==> r.1 == pb
        }),
{
    let q = div_t(-pen, wa + wb);
    lemma_correction_bound(pen, n.x as int, wa, wa + wb);
    lemma_correction_bound(pen, n.y as int, wa, wa + wb);
    lemma_correction_bound(pen, n.x as int, wb, wa + wb);
    lemma_correction_bound(pen, n.y as int, wb, wa + wb);
    let r = spec_constrain(pa, pb, wa, wb, n, pen);
    assert(r.0.x == pa.x + (n.x * q) * wa && r.0.y == pa.y + (n.y * q) * wa && r.1.x == pb.x - (n.x
        * q) * wb && r.1.y == pb.y - (n.y * q) * wb);
    let mx = n.x as int * q;
    let my = n.y as int * q;
    assert((mx * wa) * wb == -((-(mx * wb)) * wa)) by (nonlinear_arith);
    assert((my * wa) * wb == -((-(my * wb)) * wa)) by (nonlinear_arith);
    if wa == 0 {
        assert(mx * wa == 0 && my * wa == 0) by (nonlinear_arith)
            requires
                wa == 0,
        ;
    }
    if wb == 0 {
        assert(mx * wb == 0 && my * wb == 0) by (nonlinear_arith)
            requires
                wb == 0,
        ;
    }
}

/// Resting stability: a body standing exactly on top of one solid tile, with
/// no velocity, no accumulated force, no horizontal gravity and no vertical
/// drag, is in exactly the same place with zero velocity after a full tick,
/// for any downward gravity up to one tile per tick squared. Gravity pulls it
/// into the tile, the swept detector reports the crossing of the tile's top
/// edge, and the resolver snaps it back and zeroes the fall — so the state
/// repeats tick after tick without drift or jitter.
pub proof fn lemma_resting_on_tile_stable(
    b: Body,
    env: Env,
    grid: TileGrid,
    flags: Seq<Obstruct>,
    pairs: Seq<(usize, usize)>,
    tx: u32,
    ty: u32,
)
    requires
        b.valid(),
        env.valid(),
        grid.valid(),
        flags.len() == 1,
        pairs_wf(pairs, seq![b].map_values(|bb: Body| spec_update_aabb(bb, env.tps as int))),
        tx < grid.width,
        ty < grid.height,
        ({
            &&& grid.spec_at(tx as int, ty as int) is Some
            &&& spec_is_solid(grid.spec_at(tx as int, ty as int)->Some_0)
        }),
        b.pos.y == (ty + 1) * grid.cell,
        b.vel == (Vec2i { x: 0, y: 0 }),
        b.forces == (Vec2i { x: 0, y: 0 }),
        b.drag.y == 0,
        1 <= b.inv_mass,
        1 <= b.collider.size.x,
        tx * grid.cell <= b.pos.x,
        b.pos.x + b.collider.size.x < (tx + 1) * grid.cell,
        env.gravity.x == 0,
        -(grid.cell * env.tps * env.tps) <= env.gravity.y <= 0,
    ensures
        ({
            let b5 = spec_pipeline(seq![b], env, pairs);
            let recs = spec_detect(grid, b5);
            let ob = spec_obstruct(b5, flags, grid, recs);
            &&& ob.0.len() == 1
            &&& ob.0[0].pos == b.pos
            &&& ob.0[0].vel == (Vec2i { x: 0, y: 0 })
            &&& ob.0[0].forces == (Vec2i { x: 0, y: 0 })
            &&& ob.0[0].inv_mass == b.inv_mass
            &&& ob.0[0].restitution == b.restitution
            &&& ob.0[0].drag == b.drag
            &&& ob.0[0].collider == b.collider
        }),
{
    let tps = env.tps as int;
    let c = grid.cell as int;
    let g = -(env.gravity.y as int);
    let px = b.pos.x as int;
    let t_top = (ty + 1) * c;
    lemma_mul_le(tx as int, c, 0x10000, 0x100000);
    lemma_mul_le(ty as int, c, 0x10000, 0x100000);
    lemma_mul_le(ty as int + 1, c, 0x10001, 0x100000);
    assert((ty + 1) * c == ty * c + c) by (nonlinear_arith);
    assert((tx + 1) * c == tx * c + c) by (nonlinear_arith);

    lemma_single_body_pipeline(b, env, pairs);
    let ba = spec_update_aabb(b, tps);
    let bi = spec_integrate(ba, env.gravity, tps);
    let bu = spec_update_vel(bi, tps);
    let b5 = spec_pipeline(seq![b], env, pairs);
    assert(b5 == seq![bu]);
    assert(b5.len() == 1 && b5[0] == bu);

    // The integration step: no horizontal change, a dig of dd into the tile.
    assert(0 * b.inv_mass == 0) by (nonlinear_arith);
    vstd::arithmetic::div_mod::lemma_div_of0(tps);
    assert(div_t(0, tps) == 0);
    let f = div_t(g, tps);
    assert(div_t(env.gravity.y + 0 * b.inv_mass, tps) == -f);
    // 0 <= f <= c * tps, so the velocity saturation is the identity.
    assert(g <= c * tps * tps);
    assert(c * tps * tps == (c * tps) * tps && c * tps * tps == tps * (c * tps))
        by (nonlinear_arith);
    vstd::arithmetic::div_mod::lemma_div_pos_is_pos(g, tps);
    vstd::arithmetic::div_mod::lemma_div_is_ordered(g, (c * tps) * tps, tps);
    vstd::arithmetic::div_mod::lemma_div_multiples_vanish(c * tps, tps);
    assert(0 <= f <= c * tps);
    assert(c * tps <= 0x40000000000) by (nonlinear_arith)
        requires
            1 <= c <= 0x100000,
            1 <= tps <= 0x400,
    ;
    let v1y = sat_to(b.vel.y + (-f), VEL_SAT as int);
    assert(v1y == -f);
    assert(v1y * abs_i(v1y) * 0 == 0) by (nonlinear_arith);
    vstd::arithmetic::div_mod::lemma_div_of0(COEF_ONE as int);
    assert(bi.vel.y as int == sat64(-f - div_t(v1y * abs_i(v1y) * b.drag.y, COEF_ONE as int)));
    assert(bi.vel.y == -f);
    // x component: everything is zero.
    let v1x = sat_to(0int + 0int, VEL_SAT as int);
    assert(v1x == 0);
    assert(0 * abs_i(0) * b.drag.x == 0) by (nonlinear_arith);
    assert(bi.vel.x == 0);
    assert(bi.pos.x as int == sat64(px + div_t(0, tps)));
    assert(bi.pos.x == b.pos.x);
    let dd = div_t(f, tps);
    vstd::arithmetic::div_mod::lemma_div_pos_is_pos(f, tps);
    vstd::arithmetic::div_mod::lemma_div_is_ordered(f, c * tps, tps);
    vstd::arithmetic::div_mod::lemma_div_multiples_vanish(c, tps);
    assert(c * tps == tps * c) by (nonlinear_arith);
    assert(0 <= dd <= c);
    assert(div_t(bi.vel.y as int, tps) == -dd);
    assert(bi.pos.y as int == sat64(t_top - dd));
    assert(bi.pos.y == t_top - dd);
    assert(bi.prev_pos == b.pos);
    assert(bi.forces == (Vec2i { x: 0, y: 0 }));

    // The velocity update re-derives the actual displacement.
    assert((bi.pos.x - bi.prev_pos.x) * tps == 0) by (nonlinear_arith)
        requires
            bi.pos.x == bi.prev_pos.x,
    ;
    assert(bu.vel.x == 0);
    assert((bi.pos.y - bi.prev_pos.y) * tps == -(dd * tps)) by (nonlinear_arith)
        requires
            bi.pos.y - bi.prev_pos.y == -dd,
    ;
    lemma_mul_le(dd, tps, 0x100000, 0x400);
    assert(bu.vel.y == -(dd * tps));
    assert(bu.pos == bi.pos && bu.prev_pos == b.pos);
    assert(bu.forces == (Vec2i { x: 0, y: 0 }));
    assert(bu.collider == b.collider && bu.inv_mass == b.inv_mass && bu.restitution
        == b.restitution && bu.drag == b.drag);

    // The detector: no horizontal motion, and the dig (if any) crosses the
    // tile's top edge right under both bottom corners.
    let recs = spec_detect(grid, b5);
    assert(recs =~= spec_detect(grid, b5.drop_last()) + spec_body_tile_records(grid, 0, bu));
    assert(b5.drop_last() =~= Seq::<Body>::empty());
    assert(recs =~= spec_body_tile_records(grid, 0, bu));
    let mixed_y = crate::detect::spec_mixed_y(bu);
    let mixed_x = crate::detect::spec_mixed_x(bu);
    assert(mixed_y == (Vec2i { x: b.pos.x, y: bu.pos.y }));
    assert(mixed_x == (Vec2i { x: b.pos.x, y: b.pos.y }));
    assert(crate::detect::spec_x_corner_pts(bu.prev_pos, mixed_x, bu.collider.size) is None);

    let tile = spec_tile_aabb(grid, TilePos { x: tx, y: ty });
    assert(tile.min.y == ty * c && tile.max.y == t_top && tile.min.x == tx * c && tile.max.x == tx
        * c + c);

    if dd == 0 {
        assert(bu.pos.y == t_top);
        assert(crate::detect::spec_y_corner_pts(bu.prev_pos, mixed_y, bu.collider.size) is None);
        assert(recs =~= Seq::<TileCollision>::empty());
        let ob = spec_obstruct(b5, flags, grid, recs);
        assert(ob.0 == b5);
        assert(dd * tps == 0) by (nonlinear_arith)
            requires
                dd == 0,
        ;
        assert(bu.vel == (Vec2i { x: 0, y: 0 }));
    } else {
        let corner0 = Vec2i { x: b.pos.x, y: (t_top - dd) as i64 };
        let corner1 = Vec2i { x: sat64(b.pos.x + b.collider.size.x) as i64, y: (t_top - dd) as i64 };
        assert(crate::detect::spec_y_corner_pts(bu.prev_pos, mixed_y, bu.collider.size) == Some(
            (corner0, corner1),
        ));
        // Both corners sit in the tile's cell.
        vstd::arithmetic::div_mod::lemma_fundamental_div_mod_converse_div(
            px,
            c,
            tx as int,
            px - tx * c,
        );
        assert(px + b.collider.size.x == tx * c + (px + b.collider.size.x - tx * c));
        vstd::arithmetic::div_mod::lemma_fundamental_div_mod_converse_div(
            px + b.collider.size.x,
            c,
            tx as int,
            px + b.collider.size.x - tx * c,
        );
        vstd::arithmetic::div_mod::lemma_fundamental_div_mod_converse_div(
            t_top - dd,
            c,
            ty as int,
            c - dd,
        );
        let tp = TilePos { x: tx, y: ty };
        assert(crate::tiles::spec_from_world_pos(corner0, grid) == Some(tp));
        assert(crate::tiles::spec_from_world_pos(corner1, grid) == Some(tp));
        let r0 = TileCollision { from: 0, to: tp, x_side: None, y_side: Some(YSide::Top) };
        assert(sat64(bu.prev_pos.y + bu.collider.size.y) >= t_top);
        assert(crate::detect::spec_y_side(bu.prev_pos, mixed_y, bu.collider.size, tile) == Some(
            YSide::Top,
        ));
        assert(spec_tile_record_y(grid, 0, bu.prev_pos, mixed_y, bu.collider.size, corner0)
            == Some(r0));
        assert(spec_tile_record_y(grid, 0, bu.prev_pos, mixed_y, bu.collider.size, corner1)
            == Some(r0));
        assert(recs =~= seq![r0, r0]);

        // The resolver snaps the body back to the tile top, twice.
        let ob1 = crate::obstruct::spec_obstruct_step(b5, flags, grid, r0);
        let ob = spec_obstruct(b5, flags, grid, recs);
        assert(recs.drop_last() =~= seq![r0]);
        assert(recs.last() == r0);
        assert(spec_obstruct(b5, flags, grid, Seq::<TileCollision>::empty()) == (b5, flags));
        assert(spec_obstruct(b5, flags, grid, seq![r0]) == ob1) by {
            assert(seq![r0].drop_last() =~= Seq::<TileCollision>::empty());
            assert(seq![r0].last() == r0);
        }
        assert(ob == crate::obstruct::spec_obstruct_step(ob1.0, ob1.1, grid, r0));
        assert(crate::obstruct::spec_tile_lookup(grid, tp) == grid.spec_at(tx as int, ty as int));
        let nb = crate::obstruct::spec_obstruct_body(bu, r0, tile);
        assert(nb.pos == (Vec2i { x: b.pos.x, y: t_top as i64 }) && nb.vel == (Vec2i {
            x: 0,
            y: 0,
        }));
        assert(ob1.0 == seq![bu].update(0, nb));
        assert(ob1.0[0] == nb && ob1.0.len() == 1 && ob1.1.len() == 1);
        let nb2 = crate::obstruct::spec_obstruct_body(nb, r0, tile);
        assert(nb2.pos == nb.pos && nb2.vel == nb.vel);
        assert(ob.0[0] == nb2 && ob.0.len() == 1);
    }
}

/// Strict interior overlap between a body's box (anchored at its position)
/// and a tile box: touching edges do not count.
pub open spec fn body_box_overlaps(b: Body, tile: crate::aabb::Aabb) -> bool {
    &&& b.pos.x + b.collider.size.x > tile.min.x
    &&& b.pos.x < tile.max.x
    &&& b.pos.y + b.collider.size.y > tile.min.y
    &&& b.pos.y < tile.max.y
}

/// One resolver step on a single body, in a grid whose only solid tile is at
/// `(tx, ty)`, for a record without a vertical side: the vertical state is
/// untouched, and the horizontal position either stays or snaps to the edge
/// of that one tile.
proof fn lemma_obstruct_step_x_cases(
    bodies: Seq<Body>,
    flags: Seq<Obstruct>,
    grid: TileGrid,
    rec: TileCollision,
    tx: u32,
    ty: u32,
)
    requires
        bodies.len() == 1,
        flags.len() == 1,
        grid.valid(),
        rec.from == 0,
        rec.y_side is None,
        forall|x: int, y: int|
            0 <= x < grid.width && 0 <= y < grid.height && #[trigger] grid.spec_at(x, y) is Some
                && spec_is_solid(grid.spec_at(x, y)->Some_0) ==> x == tx && y == ty,
    ensures
        ({
            let r = crate::obstruct::spec_obstruct_step(bodies, flags, grid, rec);
            let tile = spec_tile_aabb(grid, TilePos { x: tx, y: ty });
            let b = bodies[0];
            &&& r.0.len() == 1
            &&& r.1.len() == 1
            &&& r.0[0] == (Body { pos: r.0[0].pos, vel: r.0[0].vel, ..b })
            &&& r.0[0].pos.y == b.pos.y
            &&& r.0[0].vel.y == b.vel.y
            &&& (r.0[0].pos.x == b.pos.x && r.0[0].vel.x == b.vel.x) || ((rec.to == TilePos {
                x: tx,
                y: ty,
            }) && r.0[0].vel.x == 0 && ((rec.x_side == Some(crate::tiles::XSide::Left) && r.0[0].pos.x
                as int == sat64(tile.min.x - b.collider.size.x)) || (rec.x_side == Some(
                crate::tiles::XSide::Right,
            ) && r.0[0].pos.x == tile.max.x)))
        }),
{
    let r = crate::obstruct::spec_obstruct_step(bodies, flags, grid, rec);
    match crate::obstruct::spec_tile_lookup(grid, rec.to) {
        Option::None => {},
        Option::Some(be) => {
            if spec_is_solid(be) {
                assert(rec.to.x < grid.width && rec.to.y < grid.height);
                assert(rec.to.x == tx && rec.to.y == ty);
                match rec.x_side {
                    Option::None => {
                        assert(r.0[0] == (Body {
                            pos: r.0[0].pos,
                            vel: r.0[0].vel,
                            ..bodies[0]
                        }));
                    },
                    Option::Some(_) => {},
                }
            }
        },
    }
}

/// Folding two optional records is stepping through the present ones in
/// order.
proof fn lemma_obstruct_fold2(
    bodies: Seq<Body>,
    flags: Seq<Obstruct>,
    grid: TileGrid,
    r0: Option<TileCollision>,
    r1: Option<TileCollision>,
)
    ensures
        spec_obstruct(
            bodies,
            flags,
            grid,
            crate::detect::opt_seq(r0) + crate::detect::opt_seq(r1),
        ) == (match (r0, r1) {
            (Option::None, Option::None) => (bodies, flags),
            (Option::Some(a), Option::None) => crate::obstruct::spec_obstruct_step(
                bodies,
                flags,
                grid,
                a,
            ),
            (Option::None, Option::Some(d)) => crate::obstruct::spec_obstruct_step(
                bodies,
                flags,
                grid,
                d,
            ),
            (Option::Some(a), Option::Some(d)) => ({
                let s1 = crate::obstruct::spec_obstruct_step(bodies, flags, grid, a);
                crate::obstruct::spec_obstruct_step(s1.0, s1.1, grid, d)
            }),
        }),
{
    let recs = crate::detect::opt_seq(r0) + crate::detect::opt_seq(r1);
    assert(spec_obstruct(bodies, flags, grid, Seq::<TileCollision>::empty()) == (bodies, flags));
    match (r0, r1) {
        (Option::None, Option::None) => {
            assert(recs =~= Seq::<TileCollision>::empty());
        },
        (Option::Some(a), Option::None) => {
            assert(recs =~= seq![a]);
            assert(seq![a].drop_last() =~= Seq::<TileCollision>::empty());
            assert(seq![a].last() == a);
            assert(spec_obstruct(bodies, flags, grid, seq![a])
                == crate::obstruct::spec_obstruct_step(bodies, flags, grid, a));
        },
        (Option::None, Option::Some(d)) => {
            assert(recs =~= seq![d]);
            assert(seq![d].drop_last() =~= Seq::<TileCollision>::empty());
            assert(seq![d].last() == d);
            assert(spec_obstruct(bodies, flags, grid, seq![d])
                == crate::obstruct::spec_obstruct_step(bodies, flags, grid, d));
        },
        (Option::Some(a), Option::Some(d)) => {
            assert(recs =~= seq![a, d]);
            assert(seq![a, d].drop_last() =~= seq![a]);
            assert(seq![a, d].last() == d);
            assert(seq![a].drop_last() =~= Seq::<TileCollision>::empty());
            assert(seq![a].last() == a);
            let s1 = crate::obstruct::spec_obstruct_step(bodies, flags, grid, a);
            assert(spec_obstruct(bodies, flags, grid, seq![a]) == s1);
            assert(spec_obstruct(bodies, flags, grid, seq![a, d])
                == crate::obstruct::spec_obstruct_step(s1.0, s1.1, grid, d));
        },
    }
}

/// No tunneling, horizontal: a body that moves only along x, by less than one
/// tile cell, with a collider no larger than a cell, and that did not overlap
/// the grid's single solid tile before the move, does not overlap it after
/// tile collision detection and obstruction resolution either: either it
/// never reached the tile, or the resolver snapped it back to the crossed
/// edge. (At exactly one cell per tick the sampled corner leaves the tile and
/// the crossing can be missed, so the bound is strict.)
pub proof fn lemma_no_tunneling_x(
    b: Body,
    grid: TileGrid,
    flags: Seq<Obstruct>,
    tx: u32,
    ty: u32,
)
    requires
        b.valid(),
        grid.valid(),
        flags.len() == 1,
        tx < grid.width,
        ty < grid.height,
        grid.spec_at(tx as int, ty as int) is Some,
        spec_is_solid(grid.spec_at(tx as int, ty as int)->Some_0),
        forall|x: int, y: int|
            0 <= x < grid.width && 0 <= y < grid.height && #[trigger] grid.spec_at(x, y) is Some
                && spec_is_solid(grid.spec_at(x, y)->Some_0) ==> x == tx && y == ty,
        b.pos.y == b.prev_pos.y,
        abs_i(b.pos.x - b.prev_pos.x) < grid.cell,
        1 <= b.collider.size.x <= grid.cell,
        1 <= b.collider.size.y <= grid.cell,
        !body_box_overlaps(
            Body { pos: b.prev_pos, ..b },
            spec_tile_aabb(grid, TilePos { x: tx, y: ty }),
        ),
        -0x1000000000000000 <= b.prev_pos.x <= 0x1000000000000000,
        -0x1000000000000000 <= b.pos.x <= 0x1000000000000000,
        -0x1000000000000000 <= b.pos.y <= 0x1000000000000000,
    ensures
        ({
            let recs = spec_detect(grid, seq![b]);
            let ob = spec_obstruct(seq![b], flags, grid, recs);
            &&& ob.0.len() == 1
            &&& !body_box_overlaps(ob.0[0], spec_tile_aabb(grid, TilePos { x: tx, y: ty }))
        }),
{
    let c = grid.cell as int;
    let size = b.collider.size;
    let prev = b.prev_pos;
    let cur = b.pos;
    let tp = TilePos { x: tx, y: ty };
    let tile = spec_tile_aabb(grid, tp);
    lemma_mul_le(tx as int, c, 0x10000, 0x100000);
    lemma_mul_le(ty as int, c, 0x10000, 0x100000);
    assert((tx + 1) * c == tx * c + c && (ty + 1) * c == ty * c + c) by (nonlinear_arith);
    assert(tile.min.x == tx * c && tile.max.x == tx * c + c && tile.min.y == ty * c && tile.max.y
        == ty * c + c);

    let recs = spec_detect(grid, seq![b]);
    assert(recs =~= spec_detect(grid, seq![b].drop_last()) + spec_body_tile_records(grid, 0, b));
    assert(seq![b].drop_last() =~= Seq::<Body>::empty());
    assert(recs =~= spec_body_tile_records(grid, 0, b));
    let mixed_y = crate::detect::spec_mixed_y(b);
    let mixed_x = crate::detect::spec_mixed_x(b);
    assert(mixed_y.y == prev.y);
    assert(crate::detect::spec_y_corner_pts(prev, mixed_y, size) is None);

    let ob = spec_obstruct(seq![b], flags, grid, recs);
    if prev.x == cur.x {
        assert(crate::detect::spec_x_corner_pts(prev, mixed_x, size) is None);
        assert(recs =~= Seq::<TileCollision>::empty());
        assert(ob.0 == seq![b]);
        assert(!body_box_overlaps(b, tile));
    } else {
        let top = sat64(prev.y + size.y);
        assert(top == prev.y + size.y);
        let cs = crate::detect::spec_x_corner_pts(prev, mixed_x, size)->Some_0;
        let r0 = crate::detect::spec_tile_record_x(grid, 0, prev, mixed_x, size, cs.0);
        let r1 = crate::detect::spec_tile_record_x(grid, 0, prev, mixed_x, size, cs.1);
        assert(recs =~= crate::detect::opt_seq(r0) + crate::detect::opt_seq(r1));
        lemma_obstruct_fold2(seq![b], flags, grid, r0, r1);

        // Each emitted record keeps the vertical state and either keeps the
        // horizontal state or snaps to the single solid tile's edge.
        if r0 is Some {
            lemma_obstruct_step_x_cases(seq![b], flags, grid, r0->Some_0, tx, ty);
        }
        let s1 = if r0 is Some {
            crate::obstruct::spec_obstruct_step(seq![b], flags, grid, r0->Some_0)
        } else {
            (seq![b], flags)
        };
        if r1 is Some {
            lemma_obstruct_step_x_cases(s1.0, s1.1, grid, r1->Some_0, tx, ty);
        }
        assert(ob == if r1 is Some {
            crate::obstruct::spec_obstruct_step(s1.0, s1.1, grid, r1->Some_0)
        } else {
            s1
        });
        let fb = ob.0[0];
        assert(ob.0.len() == 1);
        assert(fb.pos.y == cur.y && fb.collider == b.collider);
        let snap_l = sat64(tile.min.x - size.x);
        assert(snap_l == tile.min.x - size.x);
        assert(fb.pos.x == cur.x || fb.pos.x == snap_l || fb.pos.x == tile.max.x);

        if fb.pos.x as int == snap_l || fb.pos.x == tile.max.x {
            assert(!body_box_overlaps(fb, tile));
        } else {
            // Untouched horizontally: if that position overlapped the tile,
            // the crossing would have been detected and snapped away.
            if body_box_overlaps(fb, tile) {
                assert(cur.y + size.y > tile.min.y && cur.y < tile.max.y);
                assert(cur.x + size.x > tile.min.x && cur.x < tile.max.x);
                // The previous box did not overlap, and the y span is the
                // same, so the body was separated on x before the move.
                assert(prev.y + size.y > tile.min.y && prev.y < tile.max.y);
                assert(prev.x + size.x <= tile.min.x || prev.x >= tile.max.x);
                // One sampled corner row is the tile's row.
                let row_low = prev.y as int / c;
                let row_high = (prev.y + size.y) / c;
                if prev.y >= tile.min.y {
                    vstd::arithmetic::div_mod::lemma_fundamental_div_mod_converse_div(
                        prev.y as int,
                        c,
                        ty as int,
                        prev.y - ty * c,
                    );
                    assert(row_low == ty);
                } else {
                    vstd::arithmetic::div_mod::lemma_fundamental_div_mod_converse_div(
                        prev.y + size.y,
                        c,
                        ty as int,
                        prev.y + size.y - ty * c,
                    );
                    assert(row_high == ty);
                }
                if cur.x > prev.x {
                    // Moving right: the body was left of the tile.
                    assert(prev.x + size.x <= tile.min.x);
                    let cur_right = sat64(mixed_x.x + size.x);
                    assert(cur_right == cur.x + size.x);
                    assert(cs.0 == (Vec2i { x: cur_right as i64, y: top as i64 }) && cs.1 == (Vec2i {
                        x: cur_right as i64,
                        y: prev.y,
                    }));
                    vstd::arithmetic::div_mod::lemma_fundamental_div_mod_converse_div(
                        cur_right,
                        c,
                        tx as int,
                        cur_right - tx * c,
                    );
                    let want = TileCollision {
                        from: 0,
                        to: tp,
                        x_side: Some(crate::tiles::XSide::Left),
                        y_side: None,
                    };
                    if prev.y >= tile.min.y {
                        assert(crate::tiles::spec_from_world_pos(cs.1, grid) == Some(tp));
                        assert(crate::detect::spec_x_side(prev, mixed_x, size, tile) == Some(
                            crate::tiles::XSide::Left,
                        ));
                        assert(r1 == Some(want));
                    } else {
                        assert(crate::tiles::spec_from_world_pos(cs.0, grid) == Some(tp));
                        assert(crate::detect::spec_x_side(prev, mixed_x, size, tile) == Some(
                            crate::tiles::XSide::Left,
                        ));
                        assert(r0 == Some(want));
                    }
                    assert(fb.pos.x as int == snap_l);
                    assert(false);
                } else {
                    // Moving left: the body was right of the tile.
                    assert(cur.x < prev.x);
                    assert(prev.x >= tile.max.x);
                    assert(cs.0 == (Vec2i { x: cur.x, y: top as i64 }) && cs.1 == (Vec2i {
                        x: cur.x,
                        y: prev.y,
                    }));
                    vstd::arithmetic::div_mod::lemma_fundamental_div_mod_converse_div(
                        cur.x as int,
                        c,
                        tx as int,
                        cur.x - tx * c,
                    );
                    let want = TileCollision {
                        from: 0,
                        to: tp,
                        x_side: Some(crate::tiles::XSide::Right),
                        y_side: None,
                    };
                    if prev.y >= tile.min.y {
                        assert(crate::tiles::spec_from_world_pos(cs.1, grid) == Some(tp));
                        assert(crate::detect::spec_x_side(prev, mixed_x, size, tile) == Some(
                            crate::tiles::XSide::Right,
                        ));
                        assert(r1 == Some(want));
                    } else {
                        assert(crate::tiles::spec_from_world_pos(cs.0, grid) == Some(tp));
                        assert(crate::detect::spec_x_side(prev, mixed_x, size, tile) == Some(
                            crate::tiles::XSide::Right,
                        ));
                        assert(r0 == Some(want));
                    }
                    assert(fb.pos.x == tile.max.x);
                    assert(false);
                }
            }
        }
    }
}

/// One resolver step on a single body, in a grid whose only solid tile is at
/// `(tx, ty)`, for a record without a horizontal side: the horizontal state
/// is untouched, and the vertical position either stays or snaps to the edge
/// of that one tile.
proof fn lemma_obstruct_step_y_cases(
    bodies: Seq<Body>,
    flags: Seq<Obstruct>,
    grid: TileGrid,
    rec: TileCollision,
    tx: u32,
    ty: u32,
)
    requires
        bodies.len() == 1,
        flags.len() == 1,
        grid.valid(),
        rec.from == 0,
        rec.x_side is None,
        forall|x: int, y: int|
            0 <= x < grid.width && 0 <= y < grid.height && #[trigger] grid.spec_at(x, y) is Some
                && spec_is_solid(grid.spec_at(x, y)->Some_0) ==> x == tx && y == ty,
    ensures
        ({
            let r = crate::obstruct::spec_obstruct_step(bodies, flags, grid, rec);
            let tile = spec_tile_aabb(grid, TilePos { x: tx, y: ty });
            let b = bodies[0];
            &&& r.0.len() == 1
            &&& r.1.len() == 1
            &&& r.0[0] == (Body { pos: r.0[0].pos, vel: r.0[0].vel, ..b })
            &&& r.0[0].pos.x == b.pos.x
            &&& r.0[0].vel.x == b.vel.x
            &&& (r.0[0].pos.y == b.pos.y && r.0[0].vel.y == b.vel.y) || ((rec.to == TilePos {
                x: tx,
                y: ty,
            }) && r.0[0].vel.y == 0 && ((rec.y_side == Some(YSide::Bottom) && r.0[0].pos.y
                as int == sat64(tile.min.y - b.collider.size.y)) || (rec.y_side == Some(
                YSide::Top,
            ) && r.0[0].pos.y == tile.max.y)))
        }),
{
    let r = crate::obstruct::spec_obstruct_step(bodies, flags, grid, rec);
    match crate::obstruct::spec_tile_lookup(grid, rec.to) {
        Option::None => {},
        Option::Some(be) => {
            if spec_is_solid(be) {
                assert(rec.to.x < grid.width && rec.to.y < grid.height);
                assert(rec.to.x == tx && rec.to.y == ty);
            }
        },
    }
}

/// No tunneling, vertical: a body that moves only along y, by less than one
/// tile cell, with a collider no larger than a cell, and that did not overlap
/// the grid's single solid tile before the move, does not overlap it after
/// tile collision detection and obstruction resolution either.
pub proof fn lemma_no_tunneling_y(
    b: Body,
    grid: TileGrid,
    flags: Seq<Obstruct>,
    tx: u32,
    ty: u32,
)
    requires
        b.valid(),
        grid.valid(),
        flags.len() == 1,
        tx < grid.width,
        ty < grid.height,
        grid.spec_at(tx as int, ty as int) is Some,
        spec_is_solid(grid.spec_at(tx as int, ty as int)->Some_0),
        forall|x: int, y: int|
            0 <= x < grid.width && 0 <= y < grid.height && #[trigger] grid.spec_at(x, y) is Some
                && spec_is_solid(grid.spec_at(x, y)->Some_0) ==> x == tx && y == ty,
        b.pos.x == b.prev_pos.x,
        abs_i(b.pos.y - b.prev_pos.y) < grid.cell,
        1 <= b.collider.size.x <= grid.cell,
        1 <= b.collider.size.y <= grid.cell,
        !body_box_overlaps(
            Body { pos: b.prev_pos, ..b },
            spec_tile_aabb(grid, TilePos { x: tx, y: ty }),
        ),
        -0x1000000000000000 <= b.prev_pos.y <= 0x1000000000000000,
        -0x1000000000000000 <= b.pos.y <= 0x1000000000000000,
        -0x1000000000000000 <= b.pos.x <= 0x1000000000000000,
    ensures
        ({
            let recs = spec_detect(grid, seq![b]);
            let ob = spec_obstruct(seq![b], flags, grid, recs);
            &&& ob.0.len() == 1
            &&& !body_box_overlaps(ob.0[0], spec_tile_aabb(grid, TilePos { x: tx, y: ty }))
        }),
{
    let c = grid.cell as int;
    let size = b.collider.size;
    let prev = b.prev_pos;
    let cur = b.pos;
    let tp = TilePos { x: tx, y: ty };
    let tile = spec_tile_aabb(grid, tp);
    lemma_mul_le(tx as int, c, 0x10000, 0x100000);
    lemma_mul_le(ty as int, c, 0x10000, 0x100000);
    assert((tx + 1) * c == tx * c + c && (ty + 1) * c == ty * c + c) by (nonlinear_arith);
    assert(tile.min.x == tx * c && tile.max.x == tx * c + c && tile.min.y == ty * c && tile.max.y
        == ty * c + c);

    let recs = spec_detect(grid, seq![b]);
    assert(recs =~= spec_detect(grid, seq![b].drop_last()) + spec_body_tile_records(grid, 0, b));
    assert(seq![b].drop_last() =~= Seq::<Body>::empty());
    assert(recs =~= spec_body_tile_records(grid, 0, b));
    let mixed_y = crate::detect::spec_mixed_y(b);
    let mixed_x = crate::detect::spec_mixed_x(b);
    assert(mixed_x.x == prev.x);
    assert(crate::detect::spec_x_corner_pts(prev, mixed_x, size) is None);

    let ob = spec_obstruct(seq![b], flags, grid, recs);
    if prev.y == cur.y {
        assert(crate::detect::spec_y_corner_pts(prev, mixed_y, size) is None);
        assert(recs =~= Seq::<TileCollision>::empty());
        assert(ob.0 == seq![b]);
        assert(!body_box_overlaps(b, tile));
    } else {
        let right = sat64(prev.x + size.x);
        assert(right == prev.x + size.x);
        let cs = crate::detect::spec_y_corner_pts(prev, mixed_y, size)->Some_0;
        let r0 = crate::detect::spec_tile_record_y(grid, 0, prev, mixed_y, size, cs.0);
        let r1 = crate::detect::spec_tile_record_y(grid, 0, prev, mixed_y, size, cs.1);
        assert(recs =~= crate::detect::opt_seq(r0) + crate::detect::opt_seq(r1));
        lemma_obstruct_fold2(seq![b], flags, grid, r0, r1);

        if r0 is Some {
            lemma_obstruct_step_y_cases(seq![b], flags, grid, r0->Some_0, tx, ty);
        }
        let s1 = if r0 is Some {
            crate::obstruct::spec_obstruct_step(seq![b], flags, grid, r0->Some_0)
        } else {
            (seq![b], flags)
        };
        if r1 is Some {
            lemma_obstruct_step_y_cases(s1.0, s1.1, grid, r1->Some_0, tx, ty);
        }
        assert(ob == if r1 is Some {
            crate::obstruct::spec_obstruct_step(s1.0, s1.1, grid, r1->Some_0)
        } else {
            s1
        });
        let fb = ob.0[0];
        assert(ob.0.len() == 1);
        assert(fb.pos.x == cur.x && fb.collider == b.collider);
        let snap_b = sat64(tile.min.y - size.y);
        assert(snap_b == tile.min.y - size.y);
        assert(fb.pos.y == cur.y || fb.pos.y == snap_b || fb.pos.y == tile.max.y);

        if fb.pos.y as int == snap_b || fb.pos.y == tile.max.y {
            assert(!body_box_overlaps(fb, tile));
        } else {
            if body_box_overlaps(fb, tile) {
                assert(cur.x + size.x > tile.min.x && cur.x < tile.max.x);
                assert(cur.y + size.y > tile.min.y && cur.y < tile.max.y);
                assert(prev.x + size.x > tile.min.x && prev.x < tile.max.x);
                assert(prev.y + size.y <= tile.min.y || prev.y >= tile.max.y);
                // One sampled corner column is the tile's column.
                let col_low = prev.x as int / c;
                let col_high = (prev.x + size.x) / c;
                if prev.x >= tile.min.x {
                    vstd::arithmetic::div_mod::lemma_fundamental_div_mod_converse_div(
                        prev.x as int,
                        c,
                        tx as int,
                        prev.x - tx * c,
                    );
                    assert(col_low == tx);
                } else {
                    vstd::arithmetic::div_mod::lemma_fundamental_div_mod_converse_div(
                        prev.x + size.x,
                        c,
                        tx as int,
                        prev.x + size.x - tx * c,
                    );
                    assert(col_high == tx);
                }
                if cur.y < prev.y {
                    // Moving down: the body was above the tile.
                    assert(prev.y >= tile.max.y);
                    assert(cs.0 == (Vec2i { x: prev.x, y: cur.y }) && cs.1 == (Vec2i {
                        x: right as i64,
                        y: cur.y,
                    }));
                    vstd::arithmetic::div_mod::lemma_fundamental_div_mod_converse_div(
                        cur.y as int,
                        c,
                        ty as int,
                        cur.y - ty * c,
                    );
                    let want = TileCollision {
                        from: 0,
                        to: tp,
                        x_side: None,
                        y_side: Some(YSide::Top),
                    };
                    assert(crate::detect::spec_y_side(prev, mixed_y, size, tile) == Some(
                        YSide::Top,
                    ));
                    if prev.x >= tile.min.x {
                        assert(crate::tiles::spec_from_world_pos(cs.0, grid) == Some(tp));
                        assert(r0 == Some(want));
                    } else {
                        assert(crate::tiles::spec_from_world_pos(cs.1, grid) == Some(tp));
                        assert(r1 == Some(want));
                    }
                    assert(fb.pos.y == tile.max.y);
                    assert(false);
                } else {
                    // Moving up: the body was below the tile.
                    assert(cur.y > prev.y);
                    assert(prev.y + size.y <= tile.min.y);
                    let cur_top = sat64(mixed_y.y + size.y);
                    assert(cur_top == cur.y + size.y);
                    assert(cs.0 == (Vec2i { x: prev.x, y: cur_top as i64 }) && cs.1 == (Vec2i {
                        x: right as i64,
                        y: cur_top as i64,
                    }));
                    vstd::arithmetic::div_mod::lemma_fundamental_div_mod_converse_div(
                        cur_top,
                        c,
                        ty as int,
                        cur_top - ty * c,
                    );
                    let want = TileCollision {
                        from: 0,
                        to: tp,
                        x_side: None,
                        y_side: Some(YSide::Bottom),
                    };
                    assert(crate::detect::spec_y_side(prev, mixed_y, size, tile) == Some(
                        YSide::Bottom,
                    ));
                    if prev.x >= tile.min.x {
                        assert(crate::tiles::spec_from_world_pos(cs.0, grid) == Some(tp));
                        assert(r0 == Some(want));
                    } else {
                        assert(crate::tiles::spec_from_world_pos(cs.1, grid) == Some(tp));
                        assert(r1 == Some(want));
                    }
                    assert(fb.pos.y as int == snap_b);
                    assert(false);
                }
            }
        }
    }
}

/// A body with no intent force decelerates monotonically under quadratic
/// drag and never flips the sign of its velocity, once its speed is below
/// the threshold `COEF_ONE / drag` (where the per-tick drag loss reaches the
/// speed itself).
pub proof fn lemma_drag_monotone(b: Body, gravity: Vec2i, tps: int)
    requires
        b.valid(),
        1 <= tps <= TPS_MAX,
        gravity.x == 0,
        b.forces.x == 0,
        abs_i(b.vel.x as int) * b.drag.x <= COEF_ONE as int,
    ensures
        ({
            let nb = spec_integrate(b, gravity, tps);
            &&& abs_i(nb.vel.x as int) <= abs_i(b.vel.x as int)
            &&& (b.vel.x >= 0 ==> 0 <= nb.vel.x <= b.vel.x)
            &&& (b.vel.x < 0 ==> b.vel.x <= nb.vel.x <= 0)
        }),
{
    let v = b.vel.x as int;
    let d = b.drag.x as int;
    assert(0 * b.inv_mass as int == 0) by (nonlinear_arith);
    vstd::arithmetic::div_mod::lemma_div_of0(tps);
    assert(div_t(0, tps) == 0);
    let v1 = sat_to(v, VEL_SAT as int);
    if d == 0 {
        assert(v1 * abs_i(v1) * 0 == 0) by (nonlinear_arith);
        vstd::arithmetic::div_mod::lemma_div_of0(COEF_ONE as int);
    } else {
        assert(abs_i(v) <= COEF_ONE as int) by {
            assert(abs_i(v) * 1 <= abs_i(v) * d) by (nonlinear_arith)
                requires
                    1 <= d,
                    0 <= abs_i(v),
            ;
        }
        assert(v1 == v);
        let av = abs_i(v);
        let x = v * av * d;
        if v >= 0 {
            assert(0 <= x && x <= av * (COEF_ONE as int)) by (nonlinear_arith)
                requires
                    x == v * av * d,
                    v == av,
                    0 <= av,
                    0 <= d,
                    av * d <= COEF_ONE as int,
            ;
        } else {
            assert(x <= 0 && -x <= av * (COEF_ONE as int)) by (nonlinear_arith)
                requires
                    x == v * av * d,
                    v == -av,
                    0 <= av,
                    0 <= d,
                    av * d <= COEF_ONE as int,
            ;
        }
        lemma_div_t_le_factor(x, av, COEF_ONE as int);
        let braking = div_t(x, COEF_ONE as int);
        crate::num::lemma_div_t_bound(x, COEF_ONE as int);
        if v >= 0 {
            assert(0 <= braking <= v);
            assert(sat64(v1 - braking) == v - braking);
        } else {
            assert(-av <= braking <= 0);
            assert(sat64(v1 - braking) == v - braking);
        }
    }
}

} // verus!
