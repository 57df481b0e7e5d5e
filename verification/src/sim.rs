//! The per-tick simulation context: the environment, the tile grid, the
//! bodies, and the tick-scoped buffers (candidate pairs, contacts, tile
//! collision records), owned explicitly instead of living in ambient globals.

use vstd::prelude::*;
use crate::body::Body;
use crate::detect::{spec_detect, update_tile_collisions};
use crate::go::{self, Go};
use crate::jump::{self, Jump};
use crate::movement::MovementController;
use crate::num::TPS_MAX;
use crate::obstruct::{self, spec_obstruct, Obstruct};
use crate::systems::{
    collect_collision_pairs, integrate, pairs_wf, solve_pos, solve_vel, spec_integrate,
    spec_solve_pos, spec_solve_vel, spec_update_aabb, spec_update_vel, update_aabb_box, update_vel,
};
use crate::tiles::{TileCollision, TileGrid};
use crate::vec2::Vec2i;

verus! {

/// The environment configuration: the gravity vector and the fixed tick rate
/// (the tick duration is `1 / tps` seconds).
#[derive(Clone, Copy, Debug, PartialEq, Eq, Structural)]
pub struct Env {
    pub gravity: Vec2i,
    pub tps: i64,
}

impl Env {
    /// A positive, bounded tick rate.
    pub open spec fn valid(self) -> bool {
        1 <= self.tps <= TPS_MAX
    }
}

/// A player-like actor: the index of its body plus the movement and jump
/// state layered on top of the physics.
#[derive(Clone, Copy, Debug, PartialEq, Eq, Structural)]
pub struct Actor {
    pub body: usize,
    pub go: Go,
    pub jump: Jump,
    pub controller: MovementController,
}

impl Actor {
    /// Coefficient ranges of the movement and jump parameters.
    pub open spec fn valid(self) -> bool {
        self.go.valid() && self.jump.valid()
    }
}

/// The simulation: environment, grid, bodies, per-body obstruction flags, and
/// the tick-scoped buffers, all rebuilt every tick.
pub struct Simulation {
    pub env: Env,
    pub grid: TileGrid,
    pub bodies: Vec<Body>,
    pub obstructions: Vec<Obstruct>,
    pub pairs: Vec<(usize, usize)>,
    pub contacts: Vec<(usize, usize, Vec2i)>,
    pub tile_collisions: Vec<TileCollision>,
}

/// The bodies of the simulation after the body pipeline of one tick, given
/// the tick's broad-phase pairs and the contacts the position solver kept:
/// bounding boxes, integration, position solve, velocity update, velocity
/// solve.
pub open spec fn spec_pipeline(
    bodies: Seq<Body>,
    env: Env,
    pairs: Seq<(usize, usize)>,
) -> Seq<Body> {
    let b1 = bodies.map_values(|b: Body| spec_update_aabb(b, env.tps as int));
    let b2 = b1.map_values(|b: Body| spec_integrate(b, env.gravity, env.tps as int));
    let b3 = spec_solve_pos(b2, pairs).0;
    let b4 = b3.map_values(|b: Body| spec_update_vel(b, env.tps as int));
    spec_solve_vel(b4, spec_solve_pos(b2, pairs).1)
}

impl Simulation {
    /// Structural well-formedness: valid environment, grid and bodies, and
    /// one obstruction flag per body.
    pub open spec fn valid(self) -> bool {
        &&& self.env.valid()
        &&& self.grid.valid()
        &&& forall|i: int| 0 <= i < self.bodies@.len() ==> #[trigger] self.bodies@[i].valid()
        &&& self.obstructions@.len() == self.bodies@.len()
    }

    /// An empty simulation over a grid.
    pub fn new(env: Env, grid: TileGrid) -> (r: Simulation)
        requires
            1 <= env.tps <= TPS_MAX,
            grid.valid(),
        ensures
            r.valid(),
            r.env == env,
            r.grid == grid,
            r.bodies@ =~= Seq::<Body>::empty(),
            r.tile_collisions@ =~= Seq::<TileCollision>::empty(),
    {
        Simulation {
            env,
            grid,
            bodies: Vec::new(),
            obstructions: Vec::new(),
            pairs: Vec::new(),
            contacts: Vec::new(),
            tile_collisions: Vec::new(),
        }
    }

    /// Adds a body and returns its index.
    pub fn add_body(&mut self, b: Body) -> (idx: usize)
        requires
            old(self).valid(),
            b.valid(),
        ensures
            final(self).valid(),
            idx == old(self).bodies@.len(),
            final(self).bodies@ == old(self).bodies@.push(b),
            final(self).env == old(self).env,
            final(self).grid == old(self).grid,
    {
        let idx: usize = self.bodies.len();
        self.bodies.push(b);
        self.obstructions.push(Obstruct(false));
        idx
    }

    /// One fixed tick of the body pipeline and the tile resolution: bounding
    /// boxes, broad phase, integration, position solve, velocity update,
    /// velocity solve, tile collision detection, obstruction resolution.
    pub fn tick(&mut self)
        requires
            old(self).valid(),
        ensures
            final(self).valid(),
            final(self).env == old(self).env,
            final(self).grid == old(self).grid,
            final(self).bodies@.len() == old(self).bodies@.len(),
            pairs_wf(
                final(self).pairs@,
                old(self).bodies@.map_values(
                    |b: Body| spec_update_aabb(b, old(self).env.tps as int),
                ),
            ),
            ({
                let b1 = old(self).bodies@.map_values(
                    |b: Body| spec_update_aabb(b, old(self).env.tps as int),
                );
                let b2 = b1.map_values(
                    |b: Body| spec_integrate(b, old(self).env.gravity, old(self).env.tps as int),
                );
                let b5 = spec_pipeline(old(self).bodies@, old(self).env, final(self).pairs@);
                let ob = spec_obstruct(
                    b5,
                    old(self).obstructions@,
                    old(self).grid,
                    final(self).tile_collisions@,
                );
                &&& final(self).contacts@ == spec_solve_pos(b2, final(self).pairs@).1
                &&& final(self).tile_collisions@ == spec_detect(old(self).grid, b5)
                &&& final(self).bodies@ == ob.0
                &&& final(self).obstructions@ == ob.1
            }),
    {
        let tps: i64 = self.env.tps;
        let gravity: Vec2i = self.env.gravity;
        let ghost b0 = self.bodies@;

        update_aabb_box(&mut self.bodies, tps);
        proof {
            assert(self.bodies@ =~= b0.map_values(|b: Body| spec_update_aabb(b, tps as int)));
        }
        let ghost b1 = self.bodies@;

        collect_collision_pairs(&self.bodies, &mut self.pairs);

        integrate(&mut self.bodies, gravity, tps);
        proof {
            assert(self.bodies@ =~= b1.map_values(
                |b: Body| spec_integrate(b, gravity, tps as int),
            ));
        }
        let ghost b2 = self.bodies@;

        solve_pos(&mut self.bodies, &self.pairs, &mut self.contacts);
        let ghost b3 = self.bodies@;

        update_vel(&mut self.bodies, tps);
        proof {
            assert(self.bodies@ =~= b3.map_values(|b: Body| spec_update_vel(b, tps as int)));
        }

        solve_vel(&mut self.bodies, &self.contacts);
        proof {
            assert(self.bodies@ == spec_pipeline(b0, self.env, self.pairs@));
        }

        update_tile_collisions(&self.bodies, &self.grid, &mut self.tile_collisions);

        obstruct::obstruct(&mut self.bodies, &mut self.obstructions, &self.grid, &self.tile_collisions);
    }

    /// One tick with a player-like actor: the movement intent becomes forces
    /// (Go) and jump velocity (Jump) before the pipeline runs, and after the
    /// tile resolution the jump state reads the tick's records (landing
    /// restores readiness, a ceiling hit cancels the jump).
    pub fn tick_with_actor(&mut self, actor: &mut Actor)
        requires
            old(self).valid(),
            old(actor).valid(),
            old(actor).body < old(self).bodies@.len(),
        ensures
            final(self).valid(),
            final(actor).valid(),
            final(actor).body == old(actor).body,
            final(actor).controller == old(actor).controller,
            final(self).env == old(self).env,
            final(self).grid == old(self).grid,
            final(self).bodies@.len() == old(self).bodies@.len(),
            ({
                let i = old(actor).body as int;
                let b = old(self).bodies@[i];
                let dir = crate::movement::spec_direction_sign(old(actor).controller.moving);
                let tps = old(self).env.tps as int;
                let go1 = crate::go::spec_go_after(old(actor).go, b.vel.x as int, dir, tps);
                let bf = Body {
                    forces: crate::go::spec_go_forces(
                        old(actor).go,
                        b.vel.x as int,
                        dir,
                        tps,
                        b.forces,
                    ),
                    ..b
                };
                let j0 = if old(actor).controller.jumping && old(actor).jump.ready >= 0 {
                    Jump { request_time: old(actor).jump.grace_period, ..old(actor).jump }
                } else {
                    old(actor).jump
                };
                let jump1 = crate::jump::spec_jump_after(j0, tps);
                let bj = Body { vel: crate::jump::spec_jump_vel(j0, bf.vel, tps), ..bf };
                let staged = old(self).bodies@.update(i, bj);
                let b5 = spec_pipeline(staged, old(self).env, final(self).pairs@);
                let ob = spec_obstruct(
                    b5,
                    old(self).obstructions@,
                    old(self).grid,
                    final(self).tile_collisions@,
                );
                &&& pairs_wf(
                    final(self).pairs@,
                    staged.map_values(|bb: Body| spec_update_aabb(bb, tps)),
                )
                &&& final(self).tile_collisions@ == spec_detect(old(self).grid, b5)
                &&& final(self).bodies@ == ob.0
                &&& final(self).obstructions@ == ob.1
                &&& final(actor).go == go1
                &&& final(actor).jump == crate::jump::spec_jump_obstruct(
                    jump1,
                    old(actor).body,
                    old(self).grid,
                    final(self).tile_collisions@,
                )
            }),
    {
        let i: usize = actor.body;
        let tps: i64 = self.env.tps;
        let mut b: Body = self.bodies[i];
        go::update(&mut actor.go, &actor.controller, &mut b, tps);
        if actor.controller.jumping && !actor.jump.is_falling() {
            actor.jump.start();
        }
        jump::update(&mut actor.jump, &mut b, tps);
        self.bodies[i] = b;
        proof {
            assert(old(self).bodies@[i as int].valid());
            assert(b.valid());
            assert forall|k: int|
                0 <= k < self.bodies@.len() implies #[trigger] self.bodies@[k].valid() by {
                if k != i as int {
                    assert(self.bodies@[k] == old(self).bodies@[k]);
                }
            }
        }
        self.tick();
        jump::obstruct(&mut actor.jump, i, &self.grid, &self.tile_collisions);
        proof {
            crate::jump::lemma_jump_obstruct_frame(
                crate::jump::spec_jump_after(
                    if old(actor).controller.jumping && old(actor).jump.ready >= 0 {
                        Jump { request_time: old(actor).jump.grace_period, ..old(actor).jump }
                    } else {
                        old(actor).jump
                    },
                    tps as int,
                ),
                old(actor).body,
                self.grid,
                self.tile_collisions@,
            );
        }
    }
}

} // verus!
