//! Tile obstruction resolution: solid tiles snap the body back to the crossed
//! edge and zero the blocked velocity component; non-solid tiles never block.

use vstd::prelude::*;
use crate::aabb::Aabb;
use crate::body::Body;
use crate::num::{sat64, sat_i64};
use crate::tiles::{
    spec_is_solid, spec_tile_aabb, Behaviour, TileCollision, TileGrid, TilePos, XSide, YSide,
};
use crate::vec2::Vec2i;

verus! {

/// Per-body flag: whether the last tick's tile resolution blocked the body.
#[derive(Clone, Copy, Debug, PartialEq, Eq, Structural)]
pub struct Obstruct(pub bool);

/// The cell under a record's tile coordinate, or nothing when the coordinate
/// lies outside the grid.
pub open spec fn spec_tile_lookup(grid: TileGrid, tp: TilePos) -> Option<Behaviour> {
    if tp.x < grid.width && tp.y < grid.height {
        grid.spec_at(tp.x as int, tp.y as int)
    } else {
        None
    }
}

/// One body after resolving one solid-tile record: the position snaps to the
/// crossed tile edge (so the body no longer overlaps the tile on that axis)
/// and the velocity component that drove it into the tile is zeroed.
pub open spec fn spec_obstruct_body(b: Body, rec: TileCollision, tile: Aabb) -> Body {
    let size = b.collider.size;
    let b1 = match rec.x_side {
        Option::None => b,
        Option::Some(XSide::Left) => Body {
            pos: Vec2i { x: sat64(tile.min.x - size.x) as i64, y: b.pos.y },
            vel: Vec2i { x: 0, y: b.vel.y },
            ..b
        },
        Option::Some(XSide::Right) => Body {
            pos: Vec2i { x: tile.max.x, y: b.pos.y },
            vel: Vec2i { x: 0, y: b.vel.y },
            ..b
        },
    };
    match rec.y_side {
        Option::None => b1,
        Option::Some(YSide::Top) => Body {
            pos: Vec2i { x: b1.pos.x, y: tile.max.y },
            vel: Vec2i { x: b1.vel.x, y: 0 },
            ..b1
        },
        Option::Some(YSide::Bottom) => Body {
            pos: Vec2i { x: b1.pos.x, y: sat64(tile.min.y - size.y) as i64 },
            vel: Vec2i { x: b1.vel.x, y: 0 },
            ..b1
        },
    }
}

/// One resolution step for one record. A record whose body index is out of
/// range or whose tile is gone from the grid is ignored; a known but
/// non-solid tile only clears the body's obstruction flag.
pub open spec fn spec_obstruct_step(
    bodies: Seq<Body>,
    flags: Seq<Obstruct>,
    grid: TileGrid,
    rec: TileCollision,
) -> (Seq<Body>, Seq<Obstruct>) {
    let i = rec.from as int;
    if !(i < bodies.len() && i < flags.len()) {
        (bodies, flags)
    } else {
        match spec_tile_lookup(grid, rec.to) {
            Option::None => (bodies, flags),
            Option::Some(be) => {
                if !spec_is_solid(be) {
                    (bodies, flags.update(i, Obstruct(false)))
                } else {
                    let nb = spec_obstruct_body(bodies[i], rec, spec_tile_aabb(grid, rec.to));
                    let blocked = rec.x_side is Some || rec.y_side is Some;
                    (bodies.update(i, nb), flags.update(i, Obstruct(blocked)))
                }
            },
        }
    }
}

/// The resolver over the tick's record list, applied in order.
pub open spec fn spec_obstruct(
    bodies: Seq<Body>,
    flags: Seq<Obstruct>,
    grid: TileGrid,
    records: Seq<TileCollision>,
) -> (Seq<Body>, Seq<Obstruct>)
    decreases records.len(),
{
    if records.len() == 0 {
        (bodies, flags)
    } else {
        let prev = spec_obstruct(bodies, flags, grid, records.drop_last());
        spec_obstruct_step(prev.0, prev.1, grid, records.last())
    }
}

/// The resolver only moves bodies and zeroes velocity components.
pub proof fn lemma_obstruct_frame(
    bodies: Seq<Body>,
    flags: Seq<Obstruct>,
    grid: TileGrid,
    records: Seq<TileCollision>,
)
    ensures
        spec_obstruct(bodies, flags, grid, records).0.len() == bodies.len(),
        spec_obstruct(bodies, flags, grid, records).1.len() == flags.len(),
        forall|i: int|
            0 <= i < bodies.len() ==> #[trigger] spec_obstruct(bodies, flags, grid, records).0[i]
                == (Body {
                pos: spec_obstruct(bodies, flags, grid, records).0[i].pos,
                vel: spec_obstruct(bodies, flags, grid, records).0[i].vel,
                ..bodies[i]
            }),
    decreases records.len(),
{
    if records.len() > 0 {
        lemma_obstruct_frame(bodies, flags, grid, records.drop_last());
    }
}

/// Resolves every record of the tick against the grid: solid tiles push the
/// body back to the edge it crossed and stop its motion on that axis, and the
/// body's obstruction flag reports whether it was blocked.
pub fn obstruct(
    bodies: &mut Vec<Body>,
    flags: &mut Vec<Obstruct>,
    grid: &TileGrid,
    records: &Vec<TileCollision>,
)
    requires
        grid.valid(),
        forall|i: int| 0 <= i < old(bodies)@.len() ==> #[trigger] old(bodies)@[i].valid(),
    ensures
        (final(bodies)@, final(flags)@) == spec_obstruct(old(bodies)@, old(flags)@, *grid, records@),
        final(bodies)@.len() == old(bodies)@.len(),
        final(flags)@.len() == old(flags)@.len(),
        forall|i: int| 0 <= i < final(bodies)@.len() ==> #[trigger] final(bodies)@[i].valid(),
        forall|i: int|
            0 <= i < final(bodies)@.len() ==> #[trigger] final(bodies)@[i] == (Body {
                pos: final(bodies)@[i].pos,
                vel: final(bodies)@[i].vel,
                ..old(bodies)@[i]
            }),
{
    let n: usize = records.len();
    let mut k: usize = 0;
    while k < n
        invariant
            grid.valid(),
            n == records@.len(),
            0 <= k <= n,
            forall|i: int| 0 <= i < old(bodies)@.len() ==> #[trigger] old(bodies)@[i].valid(),
            (bodies@, flags@) == spec_obstruct(old(bodies)@, old(flags)@, *grid, records@.take(k as int)),
        decreases n - k,
    {
        proof {
            lemma_obstruct_frame(old(bodies)@, old(flags)@, *grid, records@.take(k as int));
        }
        let ghost pre_b = bodies@;
        let ghost pre_f = flags@;
        let rec: TileCollision = records[k];
        if rec.from < bodies.len() && rec.from < flags.len() {
            if rec.to.x < grid.width && rec.to.y < grid.height {
                match grid.get(rec.to) {
                    Option::None => {},
                    Option::Some(be) => {
                        if !be.is_solid() {
                            flags[rec.from] = Obstruct(false);
                        } else {
                            let tile = grid.tile_aabb(rec.to);
                            let b = bodies[rec.from];
                            let size = b.collider.size;
                            let mut nb = b;
                            match rec.x_side {
                                Option::None => {},
                                Option::Some(XSide::Left) => {
                                    nb.pos = Vec2i {
                                        x: sat_i64(tile.min.x as i128 - size.x as i128),
                                        y: nb.pos.y,
                                    };
                                    nb.vel = Vec2i { x: 0, y: nb.vel.y };
                                },
                                Option::Some(XSide::Right) => {
                                    nb.pos = Vec2i { x: tile.max.x, y: nb.pos.y };
                                    nb.vel = Vec2i { x: 0, y: nb.vel.y };
                                },
                            }
                            match rec.y_side {
                                Option::None => {},
                                Option::Some(YSide::Top) => {
                                    nb.pos = Vec2i { x: nb.pos.x, y: tile.max.y };
                                    nb.vel = Vec2i { x: nb.vel.x, y: 0 };
                                },
                                Option::Some(YSide::Bottom) => {
                                    nb.pos = Vec2i {
                                        x: nb.pos.x,
                                        y: sat_i64(tile.min.y as i128 - size.y as i128),
                                    };
                                    nb.vel = Vec2i { x: nb.vel.x, y: 0 };
                                },
                            }
                            let blocked: bool = rec.x_side.is_some() || rec.y_side.is_some();
                            bodies[rec.from] = nb;
                            flags[rec.from] = Obstruct(blocked);
                            proof {
                                assert(nb == spec_obstruct_body(
                                    pre_b[rec.from as int],
                                    rec,
                                    spec_tile_aabb(*grid, rec.to),
                                ));
                            }
                        }
                    },
                }
            }
        }
        proof {
            assert((bodies@, flags@) == spec_obstruct_step(pre_b, pre_f, *grid, records@[k as int]));
            assert(records@.take(k + 1 as int).drop_last() =~= records@.take(k as int));
            assert(records@.take(k + 1 as int).last() == records@[k as int]);
        }
        k = k + 1;
    }
    proof {
        assert(records@.take(n as int) =~= records@);
        lemma_obstruct_frame(old(bodies)@, old(flags)@, *grid, records@);
        assert forall|i: int| 0 <= i < bodies@.len() implies #[trigger] bodies@[i].valid() by {
            assert(bodies@[i] == spec_obstruct(old(bodies)@, old(flags)@, *grid, records@).0[i]);
            assert(bodies@[i] == (Body { pos: bodies@[i].pos, vel: bodies@[i].vel, ..old(bodies)@[i] }));
            assert(old(bodies)@[i].valid());
        }
    }
}

} // verus!
