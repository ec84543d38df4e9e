//! The capability set of physical entities.
//!
//! Every body owns a fixed-point position, velocity, accumulated force,
//! mass, rotation angle and angular speed, together with an oriented
//! hitbox.  Forces accumulate over a tick and are turned into an
//! acceleration (`force / mass`) only when velocity is integrated, so
//! force composition is exactly linear.  The position is the source of
//! truth; the hitbox is re-derived from it by an explicit alignment step.

use vstd::prelude::*;

use crate::fixed::FP_ONE;
use crate::fixed::TWO_PI_FP;
use crate::fixed::tdiv;
use crate::geom::PhysRect;
use crate::geom::Point;
use crate::geom::RectShape;
use crate::geom::rect_wf;

verus! {

/// Largest magnitude of a fixed-point position component.
pub const POS_LIMIT: i64 = 0x100_0000_0000;

/// Largest magnitude of a fixed-point velocity component.
pub const VEL_LIMIT: i64 = 0x10_0000;

/// Largest magnitude of an accumulated force component; accumulation
/// saturates here.
pub const FORCE_LIMIT: i64 = 0x100_0000_0000;

/// Largest fixed-point mass.
pub const MASS_LIMIT: i64 = 0x4000_0000;

/// A value clamped into `[lo, hi]`.
pub open spec fn cl(v: int, lo: int, hi: int) -> int {
    if v < lo {
        lo
    } else if v > hi {
        hi
    } else {
        v
    }
}

/// Clamps a value into `[lo, hi]`.
pub fn clamp_i64(v: i64, lo: i64, hi: i64) -> (r: i64)
    requires
        lo <= hi,
    ensures
        r == cl(v as int, lo as int, hi as int),
{
    if v < lo {
        lo
    } else if v > hi {
        hi
    } else {
        v
    }
}

/// The kinematic state every body exposes: fixed-point position,
/// velocity, accumulated force, mass, rotation angle, angular speed,
/// and the shape of the hitbox.
#[verifier::ext_equal]
pub ghost struct BodyState {
    pub px: int,
    pub py: int,
    pub vx: int,
    pub vy: int,
    pub fx: int,
    pub fy: int,
    pub mass: int,
    pub theta: int,
    pub omega: int,
    pub hb: RectShape,
}

/// Well-formedness of a kinematic state: everything within the machine
/// limits, a strictly positive mass, a normalized angle, and a
/// well-formed hitbox.
pub open spec fn body_wf(s: BodyState) -> bool {
    &&& -POS_LIMIT <= s.px <= POS_LIMIT
    &&& -POS_LIMIT <= s.py <= POS_LIMIT
    &&& -VEL_LIMIT <= s.vx <= VEL_LIMIT
    &&& -VEL_LIMIT <= s.vy <= VEL_LIMIT
    &&& -FORCE_LIMIT <= s.fx <= FORCE_LIMIT
    &&& -FORCE_LIMIT <= s.fy <= FORCE_LIMIT
    &&& 1 <= s.mass <= MASS_LIMIT
    &&& 0 <= s.theta < TWO_PI_FP
    &&& -TWO_PI_FP <= s.omega <= TWO_PI_FP
    &&& rect_wf(s.hb)
}

/// A force accumulated onto a state: both components saturate at
/// `FORCE_LIMIT`; nothing else changes.
pub open spec fn force_add(s: BodyState, fx: int, fy: int) -> BodyState {
    BodyState {
        fx: cl(s.fx + fx, -FORCE_LIMIT as int, FORCE_LIMIT as int),
        fy: cl(s.fy + fy, -FORCE_LIMIT as int, FORCE_LIMIT as int),
        ..s
    }
}

/// The acceleration a state's accumulated force produces: `force / mass`
/// in fixed point, truncated toward zero.
pub open spec fn accel_of(s: BodyState) -> (int, int) {
    (tdiv(s.fx * FP_ONE, s.mass), tdiv(s.fy * FP_ONE, s.mass))
}

/// The whole-pixel position a fixed-point position denotes (truncation
/// toward zero, as when a sub-pixel position is cast to a pixel one).
pub open spec fn px_of(v: int) -> int {
    tdiv(v, FP_ONE as int)
}

/// The hitbox shape after aligning it to a fixed-point position: the
/// reference corner moves to the whole-pixel position, dragging all
/// corners along.
pub open spec fn aligned_hb(hb: RectShape, px: int, py: int) -> RectShape {
    crate::geom::shape_set_y(crate::geom::shape_set_x(hb, px_of(px)), px_of(py))
}

/// An entity that occupies space: it has an oriented hitbox, derived
/// from a position that the entity itself owns.
pub trait Entity: Sized {
    /// The shape of the entity's hitbox.
    spec fn e_hitbox(&self) -> RectShape;

    /// The entity's representation invariant.
    spec fn e_wf(&self) -> bool;

    /// The entity after re-aligning its hitbox to its position.
    spec fn spec_aligned(&self) -> Self;

    /// The entity after a camera adjustment of its position by whole
    /// pixels, hitbox re-aligned.
    spec fn spec_camera_adj(&self, x_adj: int, y_adj: int) -> Self;

    /// The entity's hitbox.
    fn hitbox(&self) -> (r: PhysRect)
        requires
            self.e_wf(),
        ensures
            r@ == self.e_hitbox(),
            rect_wf(r@),
    ;

    /// The horizontal pixel position of the hitbox's reference corner.
    fn x(&self) -> (r: i32)
        requires
            self.e_wf(),
        ensures
            r == self.e_hitbox().x,
    ;

    /// The vertical pixel position of the hitbox's reference corner.
    fn y(&self) -> (r: i32)
        requires
            self.e_wf(),
        ensures
            r == self.e_hitbox().y,
    ;

    /// The center of the hitbox.
    fn center(&self) -> (r: Point)
        requires
            self.e_wf(),
        ensures
            r.x == tdiv(self.e_hitbox().c0.0 + self.e_hitbox().c2.0, 2),
            r.y == tdiv(self.e_hitbox().c0.1 + self.e_hitbox().c2.1, 2),
    ;

    /// Re-aligns the hitbox to the entity's current position.
    fn align_hitbox_to_pos(&mut self)
        requires
            old(self).e_wf(),
        ensures
            *final(self) == old(self).spec_aligned(),
            final(self).e_wf(),
    ;

    /// Adjusts the entity's position by a whole-pixel camera movement
    /// and re-aligns the hitbox.
    fn camera_adj(&mut self, x_adj: i32, y_adj: i32)
        requires
            old(self).e_wf(),
        ensures
            *final(self) == old(self).spec_camera_adj(x_adj as int, y_adj as int),
            final(self).e_wf(),
    ;
}

/// A body with mass that forces can act on.
pub trait Body: Entity {
    /// The body's kinematic state.
    spec fn b(&self) -> BodyState;

    /// The body's full invariant.
    spec fn b_wf(&self) -> bool;

    /// The body after a hard position set.
    spec fn spec_hard_set_pos(&self, px: int, py: int) -> Self;

    /// The body after a hard velocity set.
    spec fn spec_hard_set_vel(&self, vx: int, vy: int) -> Self;

    /// The body after accumulating a force.
    spec fn spec_apply_force(&self, fx: int, fy: int) -> Self;

    /// The body after clearing its accumulated force.
    spec fn spec_reset_accel(&self) -> Self;

    /// The body after one velocity integration step.
    spec fn spec_update_vel(&self, game_over: bool) -> Self;

    /// The body after one position integration step.
    spec fn spec_update_pos(&self, ground: (int, int), angle: int, game_over: bool) -> Self;

    /// The body after one rotation step.
    spec fn spec_rotate_step(&self) -> Self;

    /// The kinematic state is what the entity view shows, and the two
    /// invariants agree.
    proof fn lemma_body_entity(&self)
        ensures
            self.e_hitbox() == self.b().hb,
            self.e_wf() == self.b_wf(),
            self.b_wf() ==> body_wf(self.b()),
    ;

    /// The body's mass.
    fn mass(&self) -> (r: i64)
        requires
            self.b_wf(),
        ensures
            r == self.b().mass,
    ;

    /// The horizontal velocity.
    fn vel_x(&self) -> (r: i64)
        requires
            self.b_wf(),
        ensures
            r == self.b().vx,
    ;

    /// The vertical velocity.
    fn vel_y(&self) -> (r: i64)
        requires
            self.b_wf(),
        ensures
            r == self.b().vy,
    ;

    /// The horizontal acceleration the accumulated force produces.
    fn accel_x(&self) -> (r: i64)
        requires
            self.b_wf(),
        ensures
            r == accel_of(self.b()).0,
    ;

    /// The vertical acceleration the accumulated force produces.
    fn accel_y(&self) -> (r: i64)
        requires
            self.b_wf(),
        ensures
            r == accel_of(self.b()).1,
    ;

    /// The rotation angle.
    fn theta(&self) -> (r: i64)
        requires
            self.b_wf(),
        ensures
            r == self.b().theta,
    ;

    /// The angular speed.
    fn omega(&self) -> (r: i64)
        requires
            self.b_wf(),
        ensures
            r == self.b().omega,
    ;

    /// Accumulates a force; only the force accumulator changes, and it
    /// saturates at the force limit.
    fn apply_force(&mut self, fx: i64, fy: i64)
        requires
            old(self).b_wf(),
            -FORCE_LIMIT <= fx <= FORCE_LIMIT,
            -FORCE_LIMIT <= fy <= FORCE_LIMIT,
        ensures
            *final(self) == old(self).spec_apply_force(fx as int, fy as int),
            final(self).b() == force_add(old(self).b(), fx as int, fy as int),
            final(self).b_wf(),
    ;

    /// Clears the accumulated force, whatever it was.
    fn reset_accel(&mut self)
        requires
            old(self).b_wf(),
        ensures
            *final(self) == old(self).spec_reset_accel(),
            final(self).b() == (BodyState { fx: 0, fy: 0, ..old(self).b() }),
            final(self).b_wf(),
    ;

    /// Hard-sets the position (clamped to the position limit); the
    /// hitbox is not realigned until the alignment step.
    fn hard_set_pos(&mut self, px: i64, py: i64)
        requires
            old(self).b_wf(),
        ensures
            *final(self) == old(self).spec_hard_set_pos(px as int, py as int),
            final(self).b() == (BodyState {
                px: cl(px as int, -POS_LIMIT as int, POS_LIMIT as int),
                py: cl(py as int, -POS_LIMIT as int, POS_LIMIT as int),
                ..old(self).b()
            }),
            final(self).b_wf(),
    ;

    /// Hard-sets the velocity.
    fn hard_set_vel(&mut self, vx: i64, vy: i64)
        requires
            old(self).b_wf(),
            -VEL_LIMIT <= vx <= VEL_LIMIT,
            -VEL_LIMIT <= vy <= VEL_LIMIT,
        ensures
            *final(self) == old(self).spec_hard_set_vel(vx as int, vy as int),
            final(self).b() == (BodyState { vx: vx as int, vy: vy as int, ..old(self).b() }),
            final(self).b_wf(),
    ;

    /// Integrates velocity: adds the accumulated acceleration and clamps
    /// to the body's own speed bounds.
    fn update_vel(&mut self, game_over: bool)
        requires
            old(self).b_wf(),
        ensures
            *final(self) == old(self).spec_update_vel(game_over),
            final(self).b_wf(),
    ;

    /// Integrates position by the body's velocity and re-aligns the
    /// hitbox; how rotation follows the terrain is the body's own rule.
    fn update_pos(&mut self, ground: Point, angle: i64, game_over: bool)
        requires
            old(self).b_wf(),
            -TWO_PI_FP <= angle <= TWO_PI_FP,
        ensures
            *final(self) == old(self).spec_update_pos(
                (ground.x as int, ground.y as int),
                angle as int,
                game_over,
            ),
            final(self).b_wf(),
    ;

    /// One rotation step: the angle retreats by the angular speed,
    /// modulo a full turn.
    fn rotate(&mut self)
        requires
            old(self).b_wf(),
        ensures
            *final(self) == old(self).spec_rotate_step(),
            final(self).b() == (BodyState {
                theta: crate::fixed::norm_angle(old(self).b().theta - old(self).b().omega),
                ..old(self).b()
            }),
            final(self).b_wf(),
    ;

    /// The body's rotational inertia about its center, from its mass and
    /// the half-width of its hitbox.
    fn rotational_inertia(&self) -> (r: i64)
        requires
            self.b_wf(),
            self.b().hb.w <= 0x1_0000,
        ensures
            r == self.b().mass * tdiv(self.b().hb.w, 2) * tdiv(self.b().hb.w, 2),
    ;
}

/// An entity that the player can pick up at most once.
pub trait Collectible: Entity {
    /// The collectible's whole-pixel position.
    spec fn c_pos(&self) -> (int, int);

    /// Whether it has been collected.
    spec fn c_collected(&self) -> bool;

    /// The collectible after being moved to a new position.
    spec fn spec_update_pos(&self, x: int, y: int) -> Self;

    /// Moves the collectible; its collected flag is untouched.
    fn update_pos(&mut self, x: i32, y: i32)
        requires
            old(self).e_wf(),
        ensures
            *final(self) == old(self).spec_update_pos(x as int, y as int),
            final(self).c_pos() == (x as int, y as int),
            final(self).c_collected() == old(self).c_collected(),
            final(self).e_wf(),
    ;

    /// Marks the collectible as collected, never to be reset.
    fn collect(&mut self)
        requires
            old(self).e_wf(),
        ensures
            final(self).c_collected(),
            final(self).c_pos() == old(self).c_pos(),
            final(self).e_hitbox() == old(self).e_hitbox(),
            final(self).e_wf(),
    ;

    /// Whether the collectible has been collected.
    fn collected(&self) -> (r: bool)
        requires
            self.e_wf(),
        ensures
            r == self.c_collected(),
    ;
}

} // verus!
