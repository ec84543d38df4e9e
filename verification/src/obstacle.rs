//! Obstacles: statues, chests and balloons that scroll toward the
//! player, carry a latched `collided` flag, and obey the same kinematic
//! contract as every body.

use vstd::prelude::*;

use crate::body::Body;
use crate::body::BodyState;
use crate::body::Entity;
use crate::body::FORCE_LIMIT;
use crate::body::MASS_LIMIT;
use crate::body::POS_LIMIT;
use crate::body::accel_of;
use crate::body::aligned_hb;
use crate::body::body_wf;
use crate::body::cl;
use crate::body::clamp_i64;
use crate::fixed::FP_ONE;
use crate::fixed::norm_angle;
use crate::fixed::norm_angle_fp;
use crate::fixed::tdiv_i64;
use crate::geom::PhysRect;
use crate::geom::Point;
use crate::geom::rect_contains;
use crate::geom::rect_of_shape;
use crate::geom::rect_wf;
use crate::types::ObstacleType;

verus! {

/// Magnitude bound of an obstacle's speed after integration.
pub const OBSTACLE_SPEED: i64 = 20000;

/// The kinematic state an obstacle value denotes.
pub open spec fn obstacle_state(o: Obstacle) -> BodyState {
    BodyState {
        px: o.pos.0 as int,
        py: o.pos.1 as int,
        vx: o.velocity.0 as int,
        vy: o.velocity.1 as int,
        fx: o.force.0 as int,
        fy: o.force.1 as int,
        mass: o.mass as int,
        theta: o.theta as int,
        omega: o.omega as int,
        hb: o.hitbox@,
    }
}

/// An obstacle in the world.  The fields are public so that
/// specifications can speak of whole values; the operations require and
/// preserve the body invariant.
#[derive(Clone, Copy, Debug)]
pub struct Obstacle {
    /// Fixed-point position, the source of truth the hitbox follows.
    pub pos: (i64, i64),
    /// Fixed-point velocity.
    pub velocity: (i64, i64),
    /// Force accumulated since the last reset.
    pub force: (i64, i64),
    /// The oriented hitbox.
    pub hitbox: PhysRect,
    /// Fixed-point mass, strictly positive.
    pub mass: i64,
    /// Which kind of obstacle this is.
    pub obstacle_type: ObstacleType,
    /// Rotation angle, normalized to `[0, TWO_PI_FP)`.
    pub theta: i64,
    /// Angular speed per tick.
    pub omega: i64,
    /// Latched after the first meaningful collision, never reset.
    pub collided: bool,
    /// Whether the obstacle has entered the world.
    pub spawned: bool,
    /// Whether the cleanup pass should remove it.
    pub delete_me: bool,
}

impl Obstacle {
    /// A new obstacle resting at its hitbox's position, with no motion,
    /// no accumulated force, level, and no collision recorded.
    pub fn new(hitbox: PhysRect, mass: i64, obstacle_type: ObstacleType) -> (r: Obstacle)
        requires
            rect_wf(hitbox@),
            1 <= mass <= MASS_LIMIT,
        ensures
            r.b_wf(),
            r.pos.0 == hitbox@.x * FP_ONE && r.pos.1 == hitbox@.y * FP_ONE,
            r.velocity == (0i64, 0i64),
            r.force == (0i64, 0i64),
            r.hitbox == hitbox,
            r.mass == mass,
            r.obstacle_type == obstacle_type,
            r.theta == 0,
            r.omega == 0,
            r.collided == false,
            r.spawned == false,
            r.delete_me == false,
    {
        let x = hitbox.x();
        let y = hitbox.y();
        Obstacle {
            pos: (x as i64 * FP_ONE, y as i64 * FP_ONE),
            velocity: (0, 0),
            force: (0, 0),
            hitbox,
            mass,
            obstacle_type,
            theta: 0,
            omega: 0,
            collided: false,
            spawned: false,
            delete_me: false,
        }
    }

    /// Which kind of obstacle this is.
    pub fn obstacle_type(&self) -> (r: ObstacleType)
        ensures
            r == self.obstacle_type,
    {
        self.obstacle_type
    }

    /// Whether a collision has already been resolved against this
    /// obstacle.
    pub fn collided(&self) -> (r: bool)
        ensures
            r == self.collided,
    {
        self.collided
    }

    /// Shifts the obstacle left with the terrain by a whole-pixel
    /// distance; the hitbox follows at the next alignment.
    pub fn travel_update(&mut self, travel_adj: i32)
        requires
            old(self).b_wf(),
        ensures
            *final(self) == (Obstacle {
                pos: (
                    cl(
                        old(self).pos.0 - travel_adj * FP_ONE,
                        -POS_LIMIT as int,
                        POS_LIMIT as int,
                    ) as i64,
                    old(self).pos.1,
                ),
                ..*old(self)
            }),
            final(self).b_wf(),
    {
        let np0 = clamp_i64(self.pos.0 - travel_adj as i64 * FP_ONE, -POS_LIMIT, POS_LIMIT);
        self.pos = (np0, self.pos.1);
    }
}

impl Entity for Obstacle {
    open spec fn e_hitbox(&self) -> crate::geom::RectShape {
        self.hitbox@
    }

    open spec fn e_wf(&self) -> bool {
        body_wf(obstacle_state(*self))
    }

    open spec fn spec_aligned(&self) -> Obstacle {
        Obstacle {
            hitbox: rect_of_shape(aligned_hb(self.hitbox@, self.pos.0 as int, self.pos.1 as int)),
            ..*self
        }
    }

    open spec fn spec_camera_adj(&self, x_adj: int, y_adj: int) -> Obstacle {
        let np = (
            cl(self.pos.0 + x_adj * FP_ONE, -POS_LIMIT as int, POS_LIMIT as int) as i64,
            cl(self.pos.1 + y_adj * FP_ONE, -POS_LIMIT as int, POS_LIMIT as int) as i64,
        );
        Obstacle {
            pos: np,
            hitbox: rect_of_shape(aligned_hb(self.hitbox@, np.0 as int, np.1 as int)),
            ..*self
        }
    }

    fn hitbox(&self) -> (r: PhysRect) {
        self.hitbox
    }

    fn x(&self) -> (r: i32) {
        self.hitbox.x()
    }

    fn y(&self) -> (r: i32) {
        self.hitbox.y()
    }

    fn center(&self) -> (r: Point) {
        self.hitbox.center()
    }

    fn align_hitbox_to_pos(&mut self) {
        proof {
            crate::fixed::lemma_tdiv_shrink(self.pos.0 as int, FP_ONE as int, 1099511628);
            crate::fixed::lemma_tdiv_shrink(self.pos.1 as int, FP_ONE as int, 1099511628);
        }
        let px = tdiv_i64(self.pos.0, FP_ONE);
        let py = tdiv_i64(self.pos.1, FP_ONE);
        self.hitbox.set_x(px as i32);
        self.hitbox.set_y(py as i32);
        proof {
            crate::geom::lemma_rect_view_injective(
                self.hitbox,
                rect_of_shape(
                    aligned_hb(old(self).hitbox@, old(self).pos.0 as int, old(self).pos.1 as int),
                ),
            );
        }
    }

    fn camera_adj(&mut self, x_adj: i32, y_adj: i32) {
        let np0 = clamp_i64(self.pos.0 + x_adj as i64 * FP_ONE, -POS_LIMIT, POS_LIMIT);
        let np1 = clamp_i64(self.pos.1 + y_adj as i64 * FP_ONE, -POS_LIMIT, POS_LIMIT);
        self.pos = (np0, np1);
        self.align_hitbox_to_pos();
    }
}

impl Body for Obstacle {
    open spec fn b(&self) -> BodyState {
        obstacle_state(*self)
    }

    open spec fn b_wf(&self) -> bool {
        body_wf(obstacle_state(*self))
    }

    open spec fn spec_hard_set_pos(&self, px: int, py: int) -> Obstacle {
        Obstacle {
            pos: (
                cl(px, -POS_LIMIT as int, POS_LIMIT as int) as i64,
                cl(py, -POS_LIMIT as int, POS_LIMIT as int) as i64,
            ),
            ..*self
        }
    }

    open spec fn spec_hard_set_vel(&self, vx: int, vy: int) -> Obstacle {
        Obstacle { velocity: (vx as i64, vy as i64), ..*self }
    }

    open spec fn spec_apply_force(&self, fx: int, fy: int) -> Obstacle {
        Obstacle {
            force: (
                cl(self.force.0 + fx, -FORCE_LIMIT as int, FORCE_LIMIT as int) as i64,
                cl(self.force.1 + fy, -FORCE_LIMIT as int, FORCE_LIMIT as int) as i64,
            ),
            ..*self
        }
    }

    open spec fn spec_reset_accel(&self) -> Obstacle {
        Obstacle { force: (0i64, 0i64), ..*self }
    }

    open spec fn spec_update_vel(&self, game_over: bool) -> Obstacle {
        let a = accel_of(obstacle_state(*self));
        Obstacle {
            velocity: (
                cl(self.velocity.0 + a.0, -OBSTACLE_SPEED as int, OBSTACLE_SPEED as int) as i64,
                cl(self.velocity.1 + a.1, -OBSTACLE_SPEED as int, OBSTACLE_SPEED as int) as i64,
            ),
            ..*self
        }
    }

    open spec fn spec_update_pos(&self, ground: (int, int), angle: int, game_over: bool) -> Obstacle {
        let grounded = rect_contains(self.hitbox@, ground.0, ground.1);
        let nx = cl(self.pos.0 + self.velocity.0, -POS_LIMIT as int, POS_LIMIT as int) as i64;
        let ny = cl(self.pos.1 - self.velocity.1, -POS_LIMIT as int, POS_LIMIT as int) as i64;
        Obstacle {
            pos: (nx, ny),
            theta: if grounded && !game_over {
                norm_angle(angle) as i64
            } else {
                self.theta
            },
            hitbox: rect_of_shape(aligned_hb(self.hitbox@, nx as int, ny as int)),
            ..*self
        }
    }

    open spec fn spec_rotate_step(&self) -> Obstacle {
        Obstacle { theta: norm_angle(self.theta - self.omega) as i64, ..*self }
    }

    proof fn lemma_body_entity(&self) {
    }

    fn mass(&self) -> (r: i64) {
        self.mass
    }

    fn vel_x(&self) -> (r: i64) {
        self.velocity.0
    }

    fn vel_y(&self) -> (r: i64) {
        self.velocity.1
    }

    fn accel_x(&self) -> (r: i64) {
        tdiv_i64(self.force.0 * FP_ONE, self.mass)
    }

    fn accel_y(&self) -> (r: i64) {
        tdiv_i64(self.force.1 * FP_ONE, self.mass)
    }

    fn theta(&self) -> (r: i64) {
        self.theta
    }

    fn omega(&self) -> (r: i64) {
        self.omega
    }

    fn apply_force(&mut self, fx: i64, fy: i64) {
        self.force = (
            clamp_i64(self.force.0 + fx, -FORCE_LIMIT, FORCE_LIMIT),
            clamp_i64(self.force.1 + fy, -FORCE_LIMIT, FORCE_LIMIT),
        );
    }

    fn reset_accel(&mut self) {
        self.force = (0, 0);
    }

    fn hard_set_pos(&mut self, px: i64, py: i64) {
        self.pos = (clamp_i64(px, -POS_LIMIT, POS_LIMIT), clamp_i64(py, -POS_LIMIT, POS_LIMIT));
    }

    fn hard_set_vel(&mut self, vx: i64, vy: i64) {
        self.velocity = (vx, vy);
    }

    fn update_vel(&mut self, game_over: bool) {
        let ax = tdiv_i64(self.force.0 * FP_ONE, self.mass);
        let ay = tdiv_i64(self.force.1 * FP_ONE, self.mass);
        self.velocity = (
            clamp_i64(self.velocity.0 + ax, -OBSTACLE_SPEED, OBSTACLE_SPEED),
            clamp_i64(self.velocity.1 + ay, -OBSTACLE_SPEED, OBSTACLE_SPEED),
        );
    }

    fn update_pos(&mut self, ground: Point, angle: i64, game_over: bool) {
        let grounded = self.hitbox.contains_point(ground);
        if grounded && !game_over {
            self.theta = norm_angle_fp(angle);
        }
        let nx = clamp_i64(self.pos.0 + self.velocity.0, -POS_LIMIT, POS_LIMIT);
        let ny = clamp_i64(self.pos.1 - self.velocity.1, -POS_LIMIT, POS_LIMIT);
        self.pos = (nx, ny);
        self.align_hitbox_to_pos();
    }

    fn rotate(&mut self) {
        self.theta = norm_angle_fp(self.theta - self.omega);
    }

    fn rotational_inertia(&self) -> (r: i64) {
        let halfw = tdiv_i64(self.hitbox.w as i64, 2);
        proof {
            crate::geom::lemma_half_bound(self.hitbox.w as int, 0x8000 as int);
            crate::geom::lemma_small_product(self.mass as int, halfw as int, 0x4000_0000 as int, 0x8000 as int);
            crate::geom::lemma_small_product(
                self.mass as int * halfw as int,
                halfw as int,
                (0x4000_0000 as int) * (0x8000 as int),
                0x8000 as int,
            );
        }
        self.mass * halfw * halfw
    }
}

} // verus!
