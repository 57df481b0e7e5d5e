//! The Go state: turns a directional intent into an acceleration or
//! deceleration force plus a speed-proportional drag force, and tracks the
//! distance travelled in the tick.

use vstd::prelude::*;
use crate::body::Body;
use crate::movement::{spec_direction_sign, MovementController};
use crate::num::{
    abs_i, abs_i128, abs_i128_of, div_t, div_trunc, min_i128, mul_i128, sat64, sat_i64, sat_mag,
    sat_to, COEF_ONE, TPS_MAX,
};
use crate::vec2::Vec2i;

verus! {

/// Internal headroom for the speed entering the quadratic drag-force term.
pub const GO_SPEED_SAT: i64 = 9007199254740992;

/// Horizontal locomotion parameters and per-tick outputs: `direction` and
/// `distance` are recomputed every tick, `heading` remembers the last
/// non-idle direction a caller stored, and the rest are tuning constants.
#[derive(Clone, Copy, Debug, PartialEq, Eq, Structural)]
pub struct Go {
    pub direction: i64,
    pub heading: i64,
    pub acceleration: i64,
    pub deceleration: i64,
    pub drag_factor: i64,
    pub distance: i64,
}

impl Go {
    /// Coefficient ranges the update step relies on.
    pub open spec fn valid(self) -> bool {
        &&& 0 <= self.acceleration
        &&& 0 <= self.deceleration
        &&& 0 <= self.drag_factor <= COEF_ONE
    }
}

/// The intent force of the tick: the acceleration along the held direction,
/// or, with no direction held, a deceleration capped by the current speed so
/// braking alone never reverses the velocity.
pub open spec fn spec_go_intent_force(go: Go, vel_x: int, dir: int) -> int {
    if dir == 0 {
        if vel_x != 0 {
            let decel = if abs_i(vel_x) <= go.deceleration {
                abs_i(vel_x)
            } else {
                go.deceleration as int
            };
            if vel_x > 0 {
                -decel
            } else {
                decel
            }
        } else {
            0
        }
    } else {
        sat64(go.acceleration * dir)
    }
}

/// The drag force of the tick: quadratic in the speed the intent force would
/// produce, scaled by the drag factor, and opposing that speed.
pub open spec fn spec_go_drag_force(go: Go, vel_x: int, dir: int, tps: int) -> int {
    let nvx = spec_go_intent_force(go, vel_x, dir);
    let u = sat_to(vel_x + div_t(nvx, tps), GO_SPEED_SAT as int);
    sat64(div_t(go.drag_factor * tps * u * abs_i(u), COEF_ONE as int))
}

/// The Go record after one update: direction mirrors the intent, distance is
/// the ground covered this tick.
pub open spec fn spec_go_after(go: Go, vel_x: int, dir: int, tps: int) -> Go {
    Go { direction: dir as i64, distance: sat64(div_t(abs_i(vel_x), tps)) as i64, ..go }
}

/// The body's force accumulator after the update: the intent force and the
/// opposed drag force, added in that order.
pub open spec fn spec_go_forces(go: Go, vel_x: int, dir: int, tps: int, forces: Vec2i) -> Vec2i {
    let nvx = spec_go_intent_force(go, vel_x, dir);
    let dragf = spec_go_drag_force(go, vel_x, dir, tps);
    Vec2i { x: sat64(sat64(forces.x + nvx) + sat64(-dragf)) as i64, y: forces.y }
}

/// Turns the tick's movement intent into forces on the body: an acceleration
/// or deceleration force from the held direction, plus a quadratic,
/// speed-opposing drag force, and records the distance travelled.
pub fn update(go: &mut Go, controller: &MovementController, body: &mut Body, tps: i64)
    requires
        old(go).valid(),
        1 <= tps <= TPS_MAX,
    ensures
        ({
            let dir = spec_direction_sign(controller.moving);
            let vel_x = old(body).vel.x as int;
            &&& *final(go) == spec_go_after(*old(go), vel_x, dir, tps as int)
            &&& *final(body) == (Body {
                forces: spec_go_forces(*old(go), vel_x, dir, tps as int, old(body).forces),
                ..*old(body)
            })
        }),
{
    let dir: i64 = controller.moving.sign();
    go.direction = dir;
    let vel_x: i64 = body.vel.x;
    let abs_x: i128 = abs_i128_of(vel_x);

    let new_vel_x: i64 = if dir == 0 {
        if vel_x != 0 {
            let decel: i128 = min_i128(abs_x, go.deceleration as i128);
            if vel_x > 0 {
                sat_i64(-decel)
            } else {
                sat_i64(decel)
            }
        } else {
            0
        }
    } else {
        proof {
            crate::num::lemma_mul_le(go.acceleration as int, dir as int, i64::MAX as int, 1);
        }
        sat_i64(mul_i128(go.acceleration as i128, dir as i128))
    };
    proof {
        let dir_g = spec_direction_sign(controller.moving);
        if dir_g == 0 && vel_x != 0 {
            assert(new_vel_x as int == spec_go_intent_force(*old(go), vel_x as int, dir_g));
        }
        if dir_g != 0 {
            assert(sat64(old(go).acceleration * dir_g) == sat64(
                old(go).acceleration as int * dir_g,
            ));
        }
    }

    let u: i128 = sat_mag(vel_x as i128 + div_trunc(new_vel_x as i128, tps as i128), GO_SPEED_SAT as i128);
    proof {
        crate::num::lemma_mul_le(go.drag_factor as int, tps as int, COEF_ONE as int, TPS_MAX as int);
        crate::num::lemma_mul_le(
            go.drag_factor as int * tps as int,
            u as int,
            0x100000,
            GO_SPEED_SAT as int,
        );
        crate::num::lemma_mul_le(
            go.drag_factor as int * tps as int * u as int,
            abs_i(u as int),
            0x100000 * GO_SPEED_SAT as int,
            GO_SPEED_SAT as int,
        );
    }
    let dragf: i64 = sat_i64(
        div_trunc(go.drag_factor as i128 * tps as i128 * u * abs_i128(u), COEF_ONE as i128),
    );

    body.apply_force(Vec2i { x: new_vel_x, y: 0 });
    body.apply_force(Vec2i { x: sat_i64(-(dragf as i128)), y: 0 });
    go.distance = sat_i64(div_trunc(abs_x, tps as i128));
    proof {
        crate::num::lemma_div_t_bound(abs_i(vel_x as int), tps as int);
        let dir_g = spec_direction_sign(controller.moving);
        let nvx_g = spec_go_intent_force(*old(go), vel_x as int, dir_g);
        assert(new_vel_x as int == nvx_g);
        let dragf_g = spec_go_drag_force(*old(go), vel_x as int, dir_g, tps as int);
        assert(dragf as int == dragf_g);
        assert(body.forces.y == old(body).forces.y);
        assert(body.forces.x as int == sat64(sat64(old(body).forces.x + nvx_g) + sat64(-dragf_g)));
    }
}

} // verus!
