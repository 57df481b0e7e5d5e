//! The rigid body record and its per-tick collision artifacts.

use vstd::prelude::*;
use crate::aabb::Aabb;
use crate::num::{div_t, div_trunc, sat64, sat_i64, COEF_ONE};
use crate::vec2::Vec2i;

verus! {

/// Largest admissible inverse mass: masses below `1 / INV_MASS_MAX` are not
/// representable. Zero inverse mass means an immovable (infinite-mass) body.
pub const INV_MASS_MAX: i64 = 1048576;

/// Default restitution coefficient, 0.3 in fixed point.
pub const RESTITUTION_DEFAULT: i64 = 307;

/// Box collider: the full extent of the body's box.
#[derive(Clone, Copy, Debug, PartialEq, Eq, Structural)]
pub struct BoxCollider {
    pub size: Vec2i,
}

/// Ephemeral record of one resolved body-body collision: penetration depth
/// along the separating axis and the unit axis-aligned contact normal.
#[derive(Clone, Copy, Debug, PartialEq, Eq, Structural)]
pub struct Contact {
    pub penetration: i64,
    pub normal: Vec2i,
}

/// A simulated body. `pos` is the single source of truth for where the body
/// is; `prev_pos` is the pre-integration snapshot of the current tick, and
/// `pre_solve_vel` the post-integration velocity kept as the ballistic
/// baseline for restitution. `forces` accumulates the external forces of the
/// coming tick and is cleared by the integrator.
#[derive(Clone, Copy, Debug, PartialEq, Eq, Structural)]
pub struct Body {
    pub pos: Vec2i,
    pub prev_pos: Vec2i,
    pub vel: Vec2i,
    pub pre_solve_vel: Vec2i,
    pub inv_mass: i64,
    pub restitution: i64,
    pub forces: Vec2i,
    pub drag: Vec2i,
    pub collider: BoxCollider,
    pub aabb: Aabb,
}

impl Body {
    /// Structural well-formedness: coefficient ranges. Every constructor
    /// establishes it and every pipeline stage preserves it.
    pub open spec fn valid(self) -> bool {
        &&& 0 <= self.inv_mass <= INV_MASS_MAX
        &&& 0 <= self.restitution <= COEF_ONE
        &&& 0 <= self.drag.x <= COEF_ONE
        &&& 0 <= self.drag.y <= COEF_ONE
        &&& 0 <= self.collider.size.x
        &&& 0 <= self.collider.size.y
    }

    /// A body at rest at `pos` with collider extent `size`, unit mass, the
    /// default restitution and no drag.
    pub fn new(pos: Vec2i, size: Vec2i) -> (r: Body)
        requires
            0 <= size.x,
            0 <= size.y,
        ensures
            r == Body::spec_new(pos, size),
            r.valid(),
    {
        Body {
            pos,
            prev_pos: pos,
            vel: Vec2i { x: 0, y: 0 },
            pre_solve_vel: Vec2i { x: 0, y: 0 },
            inv_mass: 1,
            restitution: RESTITUTION_DEFAULT,
            forces: Vec2i { x: 0, y: 0 },
            drag: Vec2i { x: 0, y: 0 },
            collider: BoxCollider { size },
            aabb: Aabb { min: pos, max: pos },
        }
    }

    /// The value [`Body::new`] returns.
    pub open spec fn spec_new(pos: Vec2i, size: Vec2i) -> Body {
        Body {
            pos,
            prev_pos: pos,
            vel: Vec2i { x: 0, y: 0 },
            pre_solve_vel: Vec2i { x: 0, y: 0 },
            inv_mass: 1,
            restitution: RESTITUTION_DEFAULT,
            forces: Vec2i { x: 0, y: 0 },
            drag: Vec2i { x: 0, y: 0 },
            collider: BoxCollider { size },
            aabb: Aabb { min: pos, max: pos },
        }
    }

    /// A moving body whose previous position is back-dated one tick along its
    /// velocity, so the first tile sweep sees a consistent motion.
    pub fn new_with_pos_and_vel(pos: Vec2i, vel: Vec2i, size: Vec2i, tps: i64) -> (r: Body)
        requires
            0 <= size.x,
            0 <= size.y,
            1 <= tps,
        ensures
            r == (Body {
                prev_pos: Vec2i {
                    x: sat64(pos.x - div_t(vel.x as int, tps as int)) as i64,
                    y: sat64(pos.y - div_t(vel.y as int, tps as int)) as i64,
                },
                vel,
                pre_solve_vel: vel,
                ..Body::spec_new(pos, size)
            }),
            r.valid(),
    {
        let step_x: i128 = div_trunc(vel.x as i128, tps as i128);
        let step_y: i128 = div_trunc(vel.y as i128, tps as i128);
        let prev = Vec2i { x: sat_i64(pos.x as i128 - step_x), y: sat_i64(pos.y as i128 - step_y) };
        let mut b = Body::new(pos, size);
        b.prev_pos = prev;
        b.vel = vel;
        b.pre_solve_vel = vel;
        b
    }

    /// Accumulates an external force for the coming integration step.
    pub fn apply_force(&mut self, f: Vec2i)
        ensures
            *final(self) == (Body {
                forces: Vec2i {
                    x: sat64(old(self).forces.x + f.x) as i64,
                    y: sat64(old(self).forces.y + f.y) as i64,
                },
                ..*old(self)
            }),
    {
        self.forces = Vec2i {
            x: sat_i64(self.forces.x as i128 + f.x as i128),
            y: sat_i64(self.forces.y as i128 + f.y as i128),
        };
    }
}

} // verus!
