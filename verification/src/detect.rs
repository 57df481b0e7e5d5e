//! Swept tile collision detection. After the pipeline has moved the bodies,
//! each body is tested axis by axis: a position mixing the previous
//! coordinate on one axis with the current coordinate on the other isolates
//! the axis that moved, the leading corners of the box at that position are
//! converted to tile coordinates, and a record is emitted for every tile
//! whose edge the body crossed during the move. Axis independence prevents
//! corner-cutting.

use vstd::prelude::*;
use crate::body::Body;
use crate::num::{sat64, sat_i64};
use crate::tiles::{
    spec_from_world_pos, spec_tile_aabb, from_world_pos, TileCollision, TileGrid, XSide, YSide,
};
use crate::vec2::Vec2i;

verus! {

/// A sequence holding an optional element.
pub open spec fn opt_seq<A>(o: Option<A>) -> Seq<A> {
    match o {
        Option::None => Seq::empty(),
        Option::Some(a) => seq![a],
    }
}

/// The position used for the y-axis test: the previous x, the current y.
pub open spec fn spec_mixed_y(b: Body) -> Vec2i {
    Vec2i { x: b.prev_pos.x, y: b.pos.y }
}

/// The position used for the x-axis test: the current x, the previous y.
pub open spec fn spec_mixed_x(b: Body) -> Vec2i {
    Vec2i { x: b.pos.x, y: b.prev_pos.y }
}

/// The two leading corners of the box for the y-axis test: the bottom corners
/// when moving down, the top corners when moving up, nothing when the y
/// coordinate did not change.
pub open spec fn spec_y_corner_pts(prev: Vec2i, mixed: Vec2i, size: Vec2i) -> Option<
    (Vec2i, Vec2i),
> {
    if prev.y > mixed.y {
        Some(
            (
                Vec2i { x: mixed.x, y: mixed.y },
                Vec2i { x: sat64(mixed.x + size.x) as i64, y: mixed.y },
            ),
        )
    } else if prev.y < mixed.y {
        Some(
            (
                Vec2i { x: mixed.x, y: sat64(mixed.y + size.y) as i64 },
                Vec2i { x: sat64(mixed.x + size.x) as i64, y: sat64(mixed.y + size.y) as i64 },
            ),
        )
    } else {
        None
    }
}

/// The two leading corners for the x-axis test: the left corners when moving
/// left, the right corners when moving right, nothing when x did not change.
pub open spec fn spec_x_corner_pts(prev: Vec2i, mixed: Vec2i, size: Vec2i) -> Option<
    (Vec2i, Vec2i),
> {
    if prev.x > mixed.x {
        Some(
            (
                Vec2i { x: mixed.x, y: sat64(mixed.y + size.y) as i64 },
                Vec2i { x: mixed.x, y: mixed.y },
            ),
        )
    } else if prev.x < mixed.x {
        Some(
            (
                Vec2i { x: sat64(mixed.x + size.x) as i64, y: sat64(mixed.y + size.y) as i64 },
                Vec2i { x: sat64(mixed.x + size.x) as i64, y: mixed.y },
            ),
        )
    } else {
        None
    }
}

/// Which horizontal tile edge the body crossed while moving on the y axis:
/// its top passed the tile's bottom edge going up, or its bottom passed the
/// tile's top edge going down.
pub open spec fn spec_y_side(prev: Vec2i, mixed: Vec2i, size: Vec2i, tile: crate::aabb::Aabb) -> Option<
    YSide,
> {
    let prev_top = sat64(prev.y + size.y);
    let cur_top = sat64(mixed.y + size.y);
    if prev_top <= tile.min.y && cur_top > tile.min.y {
        Some(YSide::Bottom)
    } else if prev.y >= tile.max.y && mixed.y < tile.max.y {
        Some(YSide::Top)
    } else {
        None
    }
}

/// Which vertical tile edge the body crossed while moving on the x axis.
pub open spec fn spec_x_side(prev: Vec2i, mixed: Vec2i, size: Vec2i, tile: crate::aabb::Aabb) -> Option<
    XSide,
> {
    let prev_right = sat64(prev.x + size.x);
    let cur_right = sat64(mixed.x + size.x);
    if prev_right <= tile.min.x && cur_right > tile.min.x {
        Some(XSide::Left)
    } else if prev.x >= tile.max.x && mixed.x < tile.max.x {
        Some(XSide::Right)
    } else {
        None
    }
}

/// The y-axis record for one sampled corner: the tile containing the corner,
/// if one is placed there and the body crossed one of its horizontal edges.
pub open spec fn spec_tile_record_y(
    grid: TileGrid,
    from: usize,
    prev: Vec2i,
    mixed: Vec2i,
    size: Vec2i,
    corner: Vec2i,
) -> Option<TileCollision> {
    match spec_from_world_pos(corner, grid) {
        Option::None => None,
        Option::Some(tp) => match grid.spec_at(tp.x as int, tp.y as int) {
            Option::None => None,
            Option::Some(_) => match spec_y_side(prev, mixed, size, spec_tile_aabb(grid, tp)) {
                Option::None => None,
                Option::Some(side) => Some(
                    TileCollision { from, to: tp, x_side: None, y_side: Some(side) },
                ),
            },
        },
    }
}

/// The x-axis record for one sampled corner.
pub open spec fn spec_tile_record_x(
    grid: TileGrid,
    from: usize,
    prev: Vec2i,
    mixed: Vec2i,
    size: Vec2i,
    corner: Vec2i,
) -> Option<TileCollision> {
    match spec_from_world_pos(corner, grid) {
        Option::None => None,
        Option::Some(tp) => match grid.spec_at(tp.x as int, tp.y as int) {
            Option::None => None,
            Option::Some(_) => match spec_x_side(prev, mixed, size, spec_tile_aabb(grid, tp)) {
                Option::None => None,
                Option::Some(side) => Some(
                    TileCollision { from, to: tp, x_side: Some(side), y_side: None },
                ),
            },
        },
    }
}

/// All tile collision records of one body for this tick: the y-axis records
/// of the two sampled corners, then the x-axis records.
pub open spec fn spec_body_tile_records(grid: TileGrid, from: usize, b: Body) -> Seq<
    TileCollision,
> {
    let prev = b.prev_pos;
    let size = b.collider.size;
    let my = spec_mixed_y(b);
    let mx = spec_mixed_x(b);
    let ys = match spec_y_corner_pts(prev, my, size) {
        Option::None => Seq::empty(),
        Option::Some(cs) => opt_seq(spec_tile_record_y(grid, from, prev, my, size, cs.0)) + opt_seq(
            spec_tile_record_y(grid, from, prev, my, size, cs.1),
        ),
    };
    let xs = match spec_x_corner_pts(prev, mx, size) {
        Option::None => Seq::empty(),
        Option::Some(cs) => opt_seq(spec_tile_record_x(grid, from, prev, mx, size, cs.0)) + opt_seq(
            spec_tile_record_x(grid, from, prev, mx, size, cs.1),
        ),
    };
    ys + xs
}

/// The tick's tile collision records: each body's records in body order.
pub open spec fn spec_detect(grid: TileGrid, bodies: Seq<Body>) -> Seq<TileCollision>
    decreases bodies.len(),
{
    if bodies.len() == 0 {
        Seq::empty()
    } else {
        spec_detect(grid, bodies.drop_last()) + spec_body_tile_records(
            grid,
            (bodies.len() - 1) as usize,
            bodies.last(),
        )
    }
}

/// The two sampled corner points for the y-axis test, or nothing when the
/// body did not move vertically.
pub fn get_tile_y_side_coords(prev_pos: Vec2i, current_pos: Vec2i, size: Vec2i) -> (r: Option<
    (Vec2i, Vec2i),
>)
    ensures
        r == spec_y_corner_pts(prev_pos, current_pos, size),
{
    if prev_pos.y > current_pos.y {
        let c0 = Vec2i { x: current_pos.x, y: current_pos.y };
        let c1 = Vec2i {
            x: sat_i64(current_pos.x as i128 + size.x as i128),
            y: current_pos.y,
        };
        Some((c0, c1))
    } else if prev_pos.y < current_pos.y {
        let top: i64 = sat_i64(current_pos.y as i128 + size.y as i128);
        let c0 = Vec2i { x: current_pos.x, y: top };
        let c1 = Vec2i { x: sat_i64(current_pos.x as i128 + size.x as i128), y: top };
        Some((c0, c1))
    } else {
        None
    }
}

/// The two sampled corner points for the x-axis test, or nothing when the
/// body did not move horizontally.
pub fn get_tile_x_side_coords(prev_pos: Vec2i, current_pos: Vec2i, size: Vec2i) -> (r: Option<
    (Vec2i, Vec2i),
>)
    ensures
        r == spec_x_corner_pts(prev_pos, current_pos, size),
{
    if prev_pos.x > current_pos.x {
        let c0 = Vec2i {
            x: current_pos.x,
            y: sat_i64(current_pos.y as i128 + size.y as i128),
        };
        let c1 = Vec2i { x: current_pos.x, y: current_pos.y };
        Some((c0, c1))
    } else if prev_pos.x < current_pos.x {
        let right: i64 = sat_i64(current_pos.x as i128 + size.x as i128);
        let c0 = Vec2i { x: right, y: sat_i64(current_pos.y as i128 + size.y as i128) };
        let c1 = Vec2i { x: right, y: current_pos.y };
        Some((c0, c1))
    } else {
        None
    }
}

/// Evaluates the y-axis crossing test for one sampled corner.
fn tile_record_y(
    grid: &TileGrid,
    from: usize,
    prev: Vec2i,
    mixed: Vec2i,
    size: Vec2i,
    corner: Vec2i,
) -> (r: Option<TileCollision>)
    requires
        grid.valid(),
    ensures
        r == spec_tile_record_y(*grid, from, prev, mixed, size, corner),
{
    match from_world_pos(corner, grid) {
        Option::None => None,
        Option::Some(tp) => {
            match grid.get(tp) {
                Option::None => None,
                Option::Some(_) => {
                    let tile = grid.tile_aabb(tp);
                    let prev_top: i64 = sat_i64(prev.y as i128 + size.y as i128);
                    let cur_top: i64 = sat_i64(mixed.y as i128 + size.y as i128);
                    if prev_top <= tile.min.y && cur_top > tile.min.y {
                        Some(
                            TileCollision {
                                from,
                                to: tp,
                                x_side: None,
                                y_side: Some(YSide::Bottom),
                            },
                        )
                    } else if prev.y >= tile.max.y && mixed.y < tile.max.y {
                        Some(
                            TileCollision { from, to: tp, x_side: None, y_side: Some(YSide::Top) },
                        )
                    } else {
                        None
                    }
                },
            }
        },
    }
}

/// Evaluates the x-axis crossing test for one sampled corner.
fn tile_record_x(
    grid: &TileGrid,
    from: usize,
    prev: Vec2i,
    mixed: Vec2i,
    size: Vec2i,
    corner: Vec2i,
) -> (r: Option<TileCollision>)
    requires
        grid.valid(),
    ensures
        r == spec_tile_record_x(*grid, from, prev, mixed, size, corner),
{
    match from_world_pos(corner, grid) {
        Option::None => None,
        Option::Some(tp) => {
            match grid.get(tp) {
                Option::None => None,
                Option::Some(_) => {
                    let tile = grid.tile_aabb(tp);
                    let prev_right: i64 = sat_i64(prev.x as i128 + size.x as i128);
                    let cur_right: i64 = sat_i64(mixed.x as i128 + size.x as i128);
                    if prev_right <= tile.min.x && cur_right > tile.min.x {
                        Some(
                            TileCollision {
                                from,
                                to: tp,
                                x_side: Some(XSide::Left),
                                y_side: None,
                            },
                        )
                    } else if prev.x >= tile.max.x && mixed.x < tile.max.x {
                        Some(
                            TileCollision {
                                from,
                                to: tp,
                                x_side: Some(XSide::Right),
                                y_side: None,
                            },
                        )
                    } else {
                        None
                    }
                },
            }
        },
    }
}

/// Pushes a record if one was produced.
fn push_opt(records: &mut Vec<TileCollision>, r: Option<TileCollision>)
    ensures
        final(records)@ == old(records)@ + opt_seq(r),
{
    match r {
        Option::None => {
            proof {
                assert(records@ + opt_seq(r) =~= records@);
            }
        },
        Option::Some(c) => {
            records.push(c);
            proof {
                assert(records@ =~= old(records)@ + opt_seq(r));
            }
        },
    }
}

/// Appends the y-axis records of one body.
fn emit_y_records(
    records: &mut Vec<TileCollision>,
    grid: &TileGrid,
    from: usize,
    prev: Vec2i,
    mixed: Vec2i,
    size: Vec2i,
)
    requires
        grid.valid(),
    ensures
        final(records)@ == old(records)@ + (match spec_y_corner_pts(prev, mixed, size) {
            Option::None => Seq::empty(),
            Option::Some(cs) => opt_seq(spec_tile_record_y(*grid, from, prev, mixed, size, cs.0))
                + opt_seq(spec_tile_record_y(*grid, from, prev, mixed, size, cs.1)),
        }),
{
    let ghost pre = records@;
    match get_tile_y_side_coords(prev, mixed, size) {
        Option::Some((c0, c1)) => {
            push_opt(records, tile_record_y(grid, from, prev, mixed, size, c0));
            push_opt(records, tile_record_y(grid, from, prev, mixed, size, c1));
            proof {
                assert(records@ =~= pre + (opt_seq(
                    spec_tile_record_y(*grid, from, prev, mixed, size, c0),
                ) + opt_seq(spec_tile_record_y(*grid, from, prev, mixed, size, c1))));
            }
        },
        Option::None => {
            proof {
                assert(records@ =~= pre + Seq::<TileCollision>::empty());
            }
        },
    }
}

/// Appends the x-axis records of one body.
fn emit_x_records(
    records: &mut Vec<TileCollision>,
    grid: &TileGrid,
    from: usize,
    prev: Vec2i,
    mixed: Vec2i,
    size: Vec2i,
)
    requires
        grid.valid(),
    ensures
        final(records)@ == old(records)@ + (match spec_x_corner_pts(prev, mixed, size) {
            Option::None => Seq::empty(),
            Option::Some(cs) => opt_seq(spec_tile_record_x(*grid, from, prev, mixed, size, cs.0))
                + opt_seq(spec_tile_record_x(*grid, from, prev, mixed, size, cs.1)),
        }),
{
    let ghost pre = records@;
    match get_tile_x_side_coords(prev, mixed, size) {
        Option::Some((c0, c1)) => {
            push_opt(records, tile_record_x(grid, from, prev, mixed, size, c0));
            push_opt(records, tile_record_x(grid, from, prev, mixed, size, c1));
            proof {
                assert(records@ =~= pre + (opt_seq(
                    spec_tile_record_x(*grid, from, prev, mixed, size, c0),
                ) + opt_seq(spec_tile_record_x(*grid, from, prev, mixed, size, c1))));
            }
        },
        Option::None => {
            proof {
                assert(records@ =~= pre + Seq::<TileCollision>::empty());
            }
        },
    }
}

/// Appends one body's records: the y-axis pair, then the x-axis pair.
fn emit_body_records(records: &mut Vec<TileCollision>, grid: &TileGrid, from: usize, b: Body)
    requires
        grid.valid(),
    ensures
        final(records)@ == old(records)@ + spec_body_tile_records(*grid, from, b),
{
    let ghost pre = records@;
    let prev = b.prev_pos;
    let size = b.collider.size;
    let mixed_y = Vec2i { x: prev.x, y: b.pos.y };
    emit_y_records(records, grid, from, prev, mixed_y, size);
    let mixed_x = Vec2i { x: b.pos.x, y: prev.y };
    emit_x_records(records, grid, from, prev, mixed_x, size);
    proof {
        assert(mixed_y == spec_mixed_y(b));
        assert(mixed_x == spec_mixed_x(b));
        assert(records@ =~= pre + spec_body_tile_records(*grid, from, b));
    }
}

/// Rebuilds the tick's tile collision records: for every body, the swept
/// crossing tests of both axes against the tiles under its leading corners.
pub fn update_tile_collisions(
    bodies: &Vec<Body>,
    grid: &TileGrid,
    records: &mut Vec<TileCollision>,
)
    requires
        grid.valid(),
    ensures
        final(records)@ == spec_detect(*grid, bodies@),
{
    records.clear();
    let n: usize = bodies.len();
    let mut i: usize = 0;
    while i < n
        invariant
            grid.valid(),
            n == bodies@.len(),
            0 <= i <= n,
            records@ == spec_detect(*grid, bodies@.take(i as int)),
        decreases n - i,
    {
        emit_body_records(records, grid, i, bodies[i]);
        proof {
            assert(bodies@.take(i + 1 as int).drop_last() =~= bodies@.take(i as int));
            assert(bodies@.take(i + 1 as int).last() == bodies@[i as int]);
            assert(records@ == spec_detect(*grid, bodies@.take(i + 1 as int)));
        }
        i = i + 1;
    }
    proof {
        assert(bodies@.take(n as int) =~= bodies@);
    }
}

} // verus!
