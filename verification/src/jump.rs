//! The Jump state: a grounded-readiness counter fed by landings, a request
//! grace window, and an engage timer that drives the upward velocity.

use vstd::prelude::*;
use crate::body::Body;
use crate::num::{abs_i, abs_i128_of, div_t, div_trunc, mul_i128, sat64, sat_i64, COEF_ONE, TPS_MAX};
use crate::obstruct::spec_tile_lookup;
use crate::tiles::{spec_is_solid, TileCollision, TileGrid, YSide};
use crate::vec2::Vec2i;

verus! {

/// Jump control state. Times are seconds in fixed point (`COEF_ONE` is one
/// second); `ready` counts down every tick without a floor and is reset to 1
/// by a landing, so `ready > 0` means the body touched ground just now.
#[derive(Clone, Copy, Debug, PartialEq, Eq, Structural)]
pub struct Jump {
    pub ready: i64,
    pub engage_time: i64,
    pub request_time: i64,
    pub duration: i64,
    pub grace_period: i64,
    pub speed_boost: i64,
    pub velocity: i64,
}

impl Jump {
    /// Coefficient range the update step relies on.
    pub open spec fn valid(self) -> bool {
        0 <= self.speed_boost <= COEF_ONE
    }

    /// True once the readiness window has lapsed: the body left the ground
    /// more than a tick ago and is falling.
    pub fn is_falling(&self) -> (r: bool)
        ensures
            r == (self.ready < 0),
    {
        self.ready < 0
    }

    /// Requests a jump: opens the grace window within which a grounded body
    /// will take off.
    pub fn start(&mut self)
        ensures
            *final(self) == (Jump { request_time: old(self).grace_period, ..*old(self) }),
    {
        self.request_time = self.grace_period;
    }

    /// Cancels the jump: clears the engage timer and the grace window.
    pub fn cancel(&mut self)
        ensures
            *final(self) == (Jump { engage_time: 0, request_time: 0, ..*old(self) }),
    {
        self.engage_time = 0;
        self.request_time = 0;
    }
}

/// The jump state after one tick: a pending request engages the jump while
/// the body is ready; an engaged jump keeps its timer burning down; the
/// readiness counter always decrements.
pub open spec fn spec_jump_after(j: Jump, tps: int) -> Jump {
    let dt_fp = div_t(COEF_ONE as int, tps);
    let j1 = if j.request_time > 0 {
        if j.ready > 0 {
            Jump {
                engage_time: j.duration,
                request_time: sat64(0 - dt_fp) as i64,
                ..j
            }
        } else {
            Jump { request_time: sat64(j.request_time - dt_fp) as i64, ..j }
        }
    } else {
        j
    };
    let j2 = if j1.engage_time > 0 {
        Jump { engage_time: sat64(j1.engage_time - dt_fp) as i64, ..j1 }
    } else {
        j1
    };
    Jump { ready: sat64(j2.ready - 1) as i64, ..j2 }
}

/// The body's velocity after one jump tick: while the jump is engaged the
/// vertical velocity is driven to the jump velocity plus a boost
/// proportional to the horizontal speed.
pub open spec fn spec_jump_vel(j: Jump, vel: Vec2i, tps: int) -> Vec2i {
    let dt_fp = div_t(COEF_ONE as int, tps);
    let engaged = if j.request_time > 0 && j.ready > 0 {
        j.duration as int
    } else {
        j.engage_time as int
    };
    if engaged > 0 {
        Vec2i {
            x: vel.x,
            y: sat64(j.velocity + div_t(abs_i(vel.x as int) * j.speed_boost, COEF_ONE as int)) as i64,
        }
    } else {
        vel
    }
}

/// Advances the jump state by one tick and applies the jump velocity to the
/// body while the jump is engaged.
pub fn update(jump: &mut Jump, body: &mut Body, tps: i64)
    requires
        old(jump).valid(),
        1 <= tps <= TPS_MAX,
    ensures
        *final(jump) == spec_jump_after(*old(jump), tps as int),
        *final(body) == (Body {
            vel: spec_jump_vel(*old(jump), old(body).vel, tps as int),
            ..*old(body)
        }),
{
    let dt_fp: i128 = div_trunc(COEF_ONE as i128, tps as i128);
    if jump.request_time > 0 {
        if jump.ready > 0 {
            jump.engage_time = jump.duration;
            jump.request_time = 0;
        }
        jump.request_time = sat_i64(jump.request_time as i128 - dt_fp);
    }
    if jump.engage_time > 0 {
        proof {
            crate::num::lemma_mul_le(
                abs_i(body.vel.x as int),
                jump.speed_boost as int,
                1 + i64::MAX as int,
                COEF_ONE as int,
            );
        }
        let boost: i128 = div_trunc(
            mul_i128(abs_i128_of(body.vel.x), jump.speed_boost as i128),
            COEF_ONE as i128,
        );
        body.vel = Vec2i { x: body.vel.x, y: sat_i64(jump.velocity as i128 + boost) };
        jump.engage_time = sat_i64(jump.engage_time as i128 - dt_fp);
    }
    jump.ready = sat_i64(jump.ready as i128 - 1);
}

/// The jump state after one tile record: a landing on a solid tile restores
/// readiness, a head bump against a solid tile cancels the jump.
pub open spec fn spec_jump_obstruct_step(
    j: Jump,
    body_index: usize,
    grid: TileGrid,
    rec: TileCollision,
) -> Jump {
    if rec.from != body_index {
        j
    } else {
        match spec_tile_lookup(grid, rec.to) {
            Option::None => j,
            Option::Some(be) => {
                if spec_is_solid(be) {
                    match rec.y_side {
                        Option::None => j,
                        Option::Some(YSide::Top) => Jump { ready: 1, ..j },
                        Option::Some(YSide::Bottom) => Jump {
                            engage_time: 0,
                            request_time: 0,
                            ..j
                        },
                    }
                } else {
                    j
                }
            },
        }
    }
}

/// The jump state after consuming the tick's records, in order.
pub open spec fn spec_jump_obstruct(
    j: Jump,
    body_index: usize,
    grid: TileGrid,
    records: Seq<TileCollision>,
) -> Jump
    decreases records.len(),
{
    if records.len() == 0 {
        j
    } else {
        spec_jump_obstruct_step(
            spec_jump_obstruct(j, body_index, grid, records.drop_last()),
            body_index,
            grid,
            records.last(),
        )
    }
}

/// Consuming records only touches the readiness counter and the two timers.
pub proof fn lemma_jump_obstruct_frame(
    j: Jump,
    body_index: usize,
    grid: TileGrid,
    records: Seq<TileCollision>,
)
    ensures
        ({
            let r = spec_jump_obstruct(j, body_index, grid, records);
            r == (Jump {
                ready: r.ready,
                engage_time: r.engage_time,
                request_time: r.request_time,
                ..j
            })
        }),
    decreases records.len(),
{
    if records.len() > 0 {
        lemma_jump_obstruct_frame(j, body_index, grid, records.drop_last());
    }
}

/// Interprets the tick's tile records for the jumping body: a solid landing
/// makes it ready to jump again, a solid ceiling hit cancels the jump.
pub fn obstruct(jump: &mut Jump, body_index: usize, grid: &TileGrid, records: &Vec<TileCollision>)
    requires
        grid.valid(),
    ensures
        *final(jump) == spec_jump_obstruct(*old(jump), body_index, *grid, records@),
{
    let n: usize = records.len();
    let mut k: usize = 0;
    while k < n
        invariant
            grid.valid(),
            n == records@.len(),
            0 <= k <= n,
            *jump == spec_jump_obstruct(*old(jump), body_index, *grid, records@.take(k as int)),
        decreases n - k,
    {
        let rec: TileCollision = records[k];
        if rec.from == body_index {
            if rec.to.x < grid.width && rec.to.y < grid.height {
                match grid.get(rec.to) {
                    Option::None => {},
                    Option::Some(be) => {
                        if be.is_solid() {
                            match rec.y_side {
                                Option::None => {},
                                Option::Some(YSide::Top) => {
                                    jump.ready = 1;
                                },
                                Option::Some(YSide::Bottom) => {
                                    jump.cancel();
                                },
                            }
                        }
                    },
                }
            }
        }
        proof {
            assert(records@.take(k + 1 as int).drop_last() =~= records@.take(k as int));
            assert(records@.take(k + 1 as int).last() == records@[k as int]);
        }
        k = k + 1;
    }
    proof {
        assert(records@.take(n as int) =~= records@);
    }
}

} // verus!
