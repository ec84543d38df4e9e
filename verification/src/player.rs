//! The player body: kinematics, jumping and flipping state, the active
//! power-up, and the collision responses against obstacles, terrain and
//! collectibles.

use vstd::prelude::*;

use crate::body::Body;
use crate::body::BodyState;
use crate::body::Entity;
use crate::body::FORCE_LIMIT;
use crate::body::MASS_LIMIT;
use crate::body::POS_LIMIT;
use crate::body::VEL_LIMIT;
use crate::body::accel_of;
use crate::body::aligned_hb;
use crate::body::body_wf;
use crate::body::cl;
use crate::body::clamp_i64;
use crate::fixed::FP_ONE;
use crate::fixed::OMEGA_FP;
use crate::fixed::TWO_PI_FP;
use crate::fixed::norm_angle;
use crate::fixed::norm_angle_fp;
use crate::fixed::tdiv;
use crate::fixed::tdiv_i64;
use crate::collect::Coin;
use crate::collect::Power;
use crate::obstacle::Obstacle;
use crate::types::ObstacleType;
use crate::geom::PhysRect;
use crate::geom::Point;
use crate::geom::rect_contains;
use crate::geom::rect_of_shape;
use crate::geom::rect_wf;
use crate::types::PowerType;

verus! {

/// The kinematic state a player value denotes.
pub open spec fn player_state(p: Player) -> BodyState {
    BodyState {
        px: p.pos.0 as int,
        py: p.pos.1 as int,
        vx: p.velocity.0 as int,
        vy: p.velocity.1 as int,
        fx: p.force.0 as int,
        fy: p.force.1 as int,
        mass: p.mass as int,
        theta: p.theta as int,
        omega: p.omega as int,
        hb: p.hitbox@,
    }
}

/// Lower bound of the player's horizontal speed once the run has ended.
pub const LOWER_SPEED: i64 = -5000;

/// Upper bound of the player's horizontal speed.
pub const UPPER_SPEED: i64 = 8000;

/// The player-controlled body.  The fields are public so that
/// specifications can speak of whole values; the operations require and
/// preserve the body invariant.
#[derive(Clone, Copy, Debug)]
pub struct Player {
    /// Fixed-point position, the source of truth the hitbox follows.
    pub pos: (i64, i64),
    /// Fixed-point velocity.
    pub velocity: (i64, i64),
    /// Force accumulated since the last reset.
    pub force: (i64, i64),
    /// The oriented hitbox.
    pub hitbox: PhysRect,
    /// Rotation angle, normalized to `[0, TWO_PI_FP)`.
    pub theta: i64,
    /// Angular speed per tick.
    pub omega: i64,
    /// Fixed-point mass, strictly positive.
    pub mass: i64,
    /// The active power-up, newest wins, at most one.
    pub power_up: Option<PowerType>,
    /// The moment the current jump charge began, in milliseconds.
    pub jump_time: u64,
    /// Whether the jump moment is locked against updates.
    pub lock_jump_time: bool,
    /// Whether the player is airborne from a jump.
    pub jumping: bool,
    /// Whether the player is rotating.
    pub flipping: bool,
}

impl Player {
    /// A new player resting at its hitbox's position: no velocity, no
    /// accumulated force, level, not rotating, no power-up, and counted
    /// as airborne until the first landing.
    pub fn new(hitbox: PhysRect, mass: i64) -> (r: Player)
        requires
            rect_wf(hitbox@),
            1 <= mass <= MASS_LIMIT,
        ensures
            r.b_wf(),
            r.pos.0 == hitbox@.x * FP_ONE && r.pos.1 == hitbox@.y * FP_ONE,
            r.velocity == (0i64, 0i64),
            r.force == (0i64, 0i64),
            r.hitbox == hitbox,
            r.theta == 0,
            r.omega == 0,
            r.mass == mass,
            r.power_up is None,
            r.lock_jump_time == false,
            r.jumping == true,
            r.flipping == false,
    {
        let x = hitbox.x();
        let y = hitbox.y();
        Player {
            pos: (x as i64 * FP_ONE, y as i64 * FP_ONE),
            velocity: (0, 0),
            force: (0, 0),
            hitbox,
            theta: 0,
            omega: 0,
            mass,
            power_up: None,
            jump_time: 0,
            lock_jump_time: false,
            jumping: true,
            flipping: false,
        }
    }

    /// Whether the player is airborne from a jump.
    pub fn is_jumping(&self) -> (r: bool)
        ensures
            r == self.jumping,
    {
        self.jumping
    }

    /// Whether the jump moment is locked.
    pub fn jumpmoment_lock(&self) -> (r: bool)
        ensures
            r == self.lock_jump_time,
    {
        self.lock_jump_time
    }

    /// Whether the player is rotating.
    pub fn is_flipping(&self) -> (r: bool)
        ensures
            r == self.flipping,
    {
        self.flipping
    }

    /// The active power-up, if any.
    pub fn power_up(&self) -> (r: Option<PowerType>)
        ensures
            r == self.power_up,
    {
        self.power_up
    }

    /// Replaces the active power-up; the newest always wins.
    pub fn set_power_up(&mut self, power_up: Option<PowerType>)
        ensures
            *final(self) == (Player { power_up, ..*old(self) }),
    {
        self.power_up = power_up;
    }

    /// Brings the player's rotation to a stop.
    pub fn stop_flipping(&mut self)
        ensures
            *final(self) == (Player { flipping: false, omega: 0, ..*old(self) }),
    {
        self.flipping = false;
        self.omega = 0;
    }

    /// Starts the player rotating at the fixed angular rate.
    pub fn resume_flipping(&mut self)
        ensures
            *final(self) == (Player { flipping: true, omega: OMEGA_FP, ..*old(self) }),
    {
        self.flipping = true;
        self.omega = OMEGA_FP;
    }

    /// Records the moment a jump charge began and locks it.
    pub fn set_jumpmoment(&mut self, time_ms: u64)
        ensures
            *final(self) == (Player { jump_time: time_ms, lock_jump_time: true, ..*old(self) }),
    {
        self.jump_time = time_ms;
        self.lock_jump_time = true;
    }

    /// The recorded moment the current jump charge began.
    pub fn jump_moment(&self) -> (r: u64)
        ensures
            r == self.jump_time,
    {
        self.jump_time
    }
}

/// The jump force granted for a charge held the given number of
/// milliseconds: three tiers.
pub open spec fn jump_force(duration_ms: int) -> int {
    if duration_ms <= 100 {
        60000
    } else if duration_ms <= 200 {
        80000
    } else {
        100000
    }
}

/// The first body's velocity after a one-dimensional elastic collision
/// against a second body at rest: `(m1 - m2) / (m1 + m2)` of it.
pub open spec fn elastic_v1(m1: int, m2: int, v: int) -> int {
    tdiv((m1 - m2) * v, m1 + m2)
}

/// The resting body's velocity after the collision: `2 m1 / (m1 + m2)`
/// of the incoming velocity.
pub open spec fn elastic_v2(m1: int, m2: int, v: int) -> int {
    tdiv(2 * m1 * v, m1 + m2)
}

/// The post-collision velocities of a moving body of mass `m1` striking
/// a resting body of mass `m2` at velocity `v`, by the one-dimensional
/// elastic-collision formula.
pub fn elastic_velocities(m1: i64, m2: i64, v: i64) -> (r: (i64, i64))
    requires
        1 <= m1 <= MASS_LIMIT,
        1 <= m2 <= MASS_LIMIT,
        -VEL_LIMIT <= v <= VEL_LIMIT,
    ensures
        r.0 == elastic_v1(m1 as int, m2 as int, v as int),
        r.1 == elastic_v2(m1 as int, m2 as int, v as int),
        crate::fixed::iabs(r.0 as int) <= crate::fixed::iabs(v as int),
        crate::fixed::iabs(r.1 as int) <= 2 * crate::fixed::iabs(v as int),
{
    proof {
        crate::geom::lemma_small_product(
            m1 as int - m2 as int,
            v as int,
            0x4000_0000 as int,
            VEL_LIMIT as int,
        );
        crate::geom::lemma_small_product(
            2 * m1 as int,
            v as int,
            0x8000_0000 as int,
            VEL_LIMIT as int,
        );
        assert(crate::fixed::iabs((m1 as int - m2 as int) * v as int) <= crate::fixed::iabs(v as int)
            * (m1 as int + m2 as int)) by (nonlinear_arith)
            requires
                1 <= m1 as int && 1 <= m2 as int,
        ;
        assert(crate::fixed::iabs(2 * m1 as int * v as int) <= (2 * crate::fixed::iabs(v as int)) * (
        m1 as int + m2 as int)) by (nonlinear_arith)
            requires
                1 <= m1 as int && 1 <= m2 as int,
        ;
        crate::fixed::lemma_tdiv_shrink(
            (m1 as int - m2 as int) * v as int,
            m1 as int + m2 as int,
            crate::fixed::iabs(v as int),
        );
        crate::fixed::lemma_tdiv_shrink(
            2 * m1 as int * v as int,
            m1 as int + m2 as int,
            2 * crate::fixed::iabs(v as int),
        );
    }
    let v1 = tdiv_i64((m1 - m2) * v, m1 + m2);
    let v2 = tdiv_i64(2 * m1 * v, m1 + m2);
    (v1, v2)
}

/// The player state after snapping to rest on a surface at the given
/// pixel height: position set just above it and the hitbox realigned,
/// vertical velocity zeroed, jump state cleared, a compensating upward
/// force equal to the player's mass applied, and rotation stopped.
pub open spec fn spec_land(p: Player, surface_y: int) -> Player {
    let ny = cl(surface_y * FP_ONE - crate::physics::REST_OFFSET, -POS_LIMIT as int, POS_LIMIT as int);
    let moved = Player { pos: (p.pos.0, ny as i64), ..p };
    let aligned = moved.spec_aligned();
    Player {
        velocity: (p.velocity.0, 0i64),
        jumping: false,
        lock_jump_time: false,
        force: (
            p.force.0,
            cl(p.force.1 + p.mass, -FORCE_LIMIT as int, FORCE_LIMIT as int) as i64,
        ),
        omega: 0,
        ..aligned
    }
}

/// Whether a rotation angle lies within the upright tolerance band
/// around a (normalized) reference angle.
pub open spec fn within_landing_band(theta: int, reference: int) -> bool {
    let d = norm_angle(theta - reference);
    d < OMEGA_FP * 10 || d > TWO_PI_FP - OMEGA_FP * 10
}

impl Player {
    /// Starts a jump if the player stands on the ground contact point:
    /// snaps them one tile above it, applies an upward force graded by
    /// how long the jump was charged, and marks them airborne.  Returns
    /// whether a jump was initiated.
    pub fn jump(&mut self, ground: Point, duration_ms: u64) -> (r: bool)
        requires
            old(self).b_wf(),
            -crate::geom::COORD_LIMIT <= ground.y <= crate::geom::COORD_LIMIT,
        ensures
            r == rect_contains(old(self).hitbox@, ground.x as int, ground.y as int),
            final(self).b_wf(),
            !r ==> *final(self) == *old(self),
            r ==> *final(self) == (Player {
                jumping: true,
                force: (
                    old(self).force.0,
                    cl(
                        old(self).force.1 + jump_force(duration_ms as int),
                        -FORCE_LIMIT as int,
                        FORCE_LIMIT as int,
                    ) as i64,
                ),
                ..(Player {
                    pos: (
                        old(self).pos.0,
                        cl(
                            ground.y * FP_ONE - 100000,
                            -POS_LIMIT as int,
                            POS_LIMIT as int,
                        ) as i64,
                    ),
                    ..*old(self)
                }).spec_aligned()
            }),
    {
        if self.hitbox.contains_point(ground) {
            let ny = clamp_i64(ground.y * FP_ONE - 100000, -POS_LIMIT, POS_LIMIT);
            self.pos = (self.pos.0, ny);
            self.align_hitbox_to_pos();
            let f: i64 = if duration_ms <= 100 {
                60000
            } else if duration_ms <= 200 {
                80000
            } else {
                100000
            };
            self.apply_force(0, f);
            self.jumping = true;
            true
        } else {
            false
        }
    }

    /// One tick of flipping: rotates by the angular speed while the flip
    /// is active, and does nothing otherwise.
    pub fn flip(&mut self)
        requires
            old(self).b_wf(),
        ensures
            final(self).b_wf(),
            *final(self) == (if old(self).flipping {
                old(self).spec_rotate_step()
            } else {
                *old(self)
            }),
    {
        if self.is_flipping() {
            self.rotate();
        }
    }

    /// Collects a coin, at most once: returns whether this call
    /// collected it, and the coin stays collected forever after.
    pub fn collide_coin(&mut self, coin: &mut Coin) -> (r: bool)
        ensures
            r == !old(coin).collected,
            *final(self) == *old(self),
            *final(coin) == (Coin { collected: true, ..*old(coin) }),
    {
        if !coin.collected {
            coin.collected = true;
            true
        } else {
            false
        }
    }

    /// Receives a power-up, at most once: if the power-up is not yet
    /// collected, it becomes the active one (overriding any previous)
    /// and is marked collected.
    pub fn collide_power(&mut self, power: &mut Power) -> (r: bool)
        ensures
            r == !old(power).collected,
            *final(power) == (Power { collected: true, ..*old(power) }),
            r ==> *final(self) == (Player {
                power_up: Some(old(power).power_type),
                ..*old(self)
            }),
            !r ==> *final(self) == *old(self),
    {
        if !power.collected {
            self.power_up = Some(power.power_type);
            power.collected = true;
            true
        } else {
            false
        }
    }

    /// Resolves this tick's contact with an obstacle and reports whether
    /// it ends the run; see `spec_collide_obstacle` for the full rules.
    pub fn collide_obstacle(&mut self, obstacle: &mut Obstacle) -> (r: bool)
        requires
            old(self).b_wf(),
            old(obstacle).b_wf(),
        ensures
            final(self).b_wf(),
            final(obstacle).b_wf(),
            *final(self) == spec_collide_obstacle(*old(self), *old(obstacle)).0,
            *final(obstacle) == spec_collide_obstacle(*old(self), *old(obstacle)).1,
            r == spec_collide_obstacle(*old(self), *old(obstacle)).2,
    {
        let shielded = matches!(self.power_up, Some(PowerType::Shield));
        let side = self.hitbox.nearest_side(obstacle.hitbox);
        if side == 1 || side == 3 {
            match obstacle.obstacle_type {
                ObstacleType::Statue | ObstacleType::Chest => {
                    if shielded || obstacle.collided {
                        false
                    } else {
                        let (pvx, ovx_raw) = elastic_velocities(
                            self.mass,
                            obstacle.mass,
                            self.velocity.0,
                        );
                        let vyin: i64 = if self.jumping {
                            self.velocity.1
                        } else {
                            0
                        };
                        let (pvy, ovy_raw) = elastic_velocities(self.mass, obstacle.mass, vyin);
                        obstacle.collided = true;
                        let ovx = clamp_i64(ovx_raw, -VEL_LIMIT, VEL_LIMIT);
                        let ovy = clamp_i64(ovy_raw, -VEL_LIMIT, VEL_LIMIT);
                        obstacle.hard_set_vel(ovx, ovy);
                        self.hard_set_vel(pvx, pvy);
                        let ox = obstacle.hitbox.x();
                        let sy = self.hitbox.y();
                        self.hard_set_pos(ox as i64 * FP_ONE - 105000, sy as i64 * FP_ONE);
                        self.align_hitbox_to_pos();
                        true
                    }
                },
                ObstacleType::Balloon => false,
            }
        } else if self.velocity.1 < 0 {
            match obstacle.obstacle_type {
                ObstacleType::Chest => {
                    let oy = obstacle.hitbox.y();
                    let ny = clamp_i64(
                        oy as i64 * FP_ONE - crate::physics::REST_OFFSET,
                        -POS_LIMIT,
                        POS_LIMIT,
                    );
                    self.pos = (self.pos.0, ny);
                    self.align_hitbox_to_pos();
                    self.velocity = (self.velocity.0, 0);
                    self.jumping = false;
                    self.lock_jump_time = false;
                    self.apply_force(0, self.mass);
                    self.omega = 0;
                    obstacle.collided = true;
                    if self.theta < OMEGA_FP * 6 || self.theta > TWO_PI_FP - OMEGA_FP * 6 {
                        self.theta = 0;
                        false
                    } else {
                        true
                    }
                },
                ObstacleType::Statue => {
                    crate::physics::Physics::apply_bounce(self, obstacle);
                    true
                },
                ObstacleType::Balloon => {
                    crate::physics::Physics::apply_bounce(self, obstacle);
                    false
                },
            }
        } else {
            false
        }
    }

    /// Resolves this tick's contact with the terrain.  A descending
    /// player standing on the contact point snaps to the surface, stops
    /// falling and stops rotating; the landing survives (true) when the
    /// rotation lies within the tolerance band of the terrain angle, in
    /// which case the rotation snaps to the angle, and crashes (false)
    /// otherwise.  A player not touching the ground is left alone
    /// (true).
    pub fn collide_terrain(&mut self, ground: Point, angle: i64) -> (r: bool)
        requires
            old(self).b_wf(),
            -TWO_PI_FP <= angle <= TWO_PI_FP,
            -crate::geom::COORD_LIMIT <= ground.y <= crate::geom::COORD_LIMIT,
        ensures
            final(self).b_wf(),
            ({
                let landing = old(self).velocity.1 <= 0 && rect_contains(
                    old(self).hitbox@,
                    ground.x as int,
                    ground.y as int,
                );
                &&& !landing ==> r == true && *final(self) == *old(self)
                &&& (landing && within_landing_band(
                    old(self).theta as int,
                    norm_angle(angle as int),
                )) ==> r == true && *final(self) == (Player {
                    theta: norm_angle(angle as int) as i64,
                    ..spec_land(*old(self), ground.y as int)
                })
                &&& (landing && !within_landing_band(
                    old(self).theta as int,
                    norm_angle(angle as int),
                )) ==> r == false && *final(self) == spec_land(*old(self), ground.y as int)
            }),
    {
        if self.velocity.1 <= 0 && self.hitbox.contains_point(ground) {
            let ny = clamp_i64(ground.y * FP_ONE - crate::physics::REST_OFFSET, -POS_LIMIT, POS_LIMIT);
            self.pos = (self.pos.0, ny);
            self.align_hitbox_to_pos();
            self.velocity = (self.velocity.0, 0);
            self.jumping = false;
            self.lock_jump_time = false;
            self.apply_force(0, self.mass);
            self.omega = 0;
            let na = norm_angle_fp(angle);
            let d = norm_angle_fp(self.theta - na);
            if d < OMEGA_FP * 10 || d > TWO_PI_FP - OMEGA_FP * 10 {
                self.theta = na;
                true
            } else {
                false
            }
        } else {
            true
        }
    }
}

/// The outcome of a player-obstacle contact this tick: the player and
/// obstacle afterwards, and whether the contact ends the run.
///
/// Side contact (the nearest-side heuristic names a left/right corner):
/// a balloon is harmless; a statue or chest bounces the player off by
/// the elastic-collision formula and ends the run, unless the player is
/// shielded or the obstacle was already resolved, which makes the
/// contact a no-op.  Top contact while descending: a chest acts as
/// ground (fatal only when landing far from upright), a statue bounces
/// and is fatal, a balloon bounces harmlessly.  Anything else is a
/// no-op.
pub open spec fn spec_collide_obstacle(p: Player, o: Obstacle) -> (Player, Obstacle, bool) {
    let shielded = p.power_up == Some(PowerType::Shield);
    let side = crate::geom::spec_nearest_side(p.hitbox@, o.hitbox@);
    if side == 1 || side == 3 {
        if o.obstacle_type == ObstacleType::Balloon {
            (p, o, false)
        } else if shielded || o.collided {
            (p, o, false)
        } else {
            let vyin: i64 = if p.jumping {
                p.velocity.1
            } else {
                0
            };
            let p2 = Player {
                velocity: (
                    elastic_v1(p.mass as int, o.mass as int, p.velocity.0 as int) as i64,
                    elastic_v1(p.mass as int, o.mass as int, vyin as int) as i64,
                ),
                pos: (
                    cl(
                        o.hitbox@.x * FP_ONE - 105000,
                        -POS_LIMIT as int,
                        POS_LIMIT as int,
                    ) as i64,
                    cl(p.hitbox@.y * FP_ONE, -POS_LIMIT as int, POS_LIMIT as int) as i64,
                ),
                ..p
            };
            let o2 = Obstacle {
                collided: true,
                velocity: (
                    cl(
                        elastic_v2(p.mass as int, o.mass as int, p.velocity.0 as int),
                        -VEL_LIMIT as int,
                        VEL_LIMIT as int,
                    ) as i64,
                    cl(
                        elastic_v2(p.mass as int, o.mass as int, vyin as int),
                        -VEL_LIMIT as int,
                        VEL_LIMIT as int,
                    ) as i64,
                ),
                ..o
            };
            (p2.spec_aligned(), o2, true)
        }
    } else if p.velocity.1 < 0 {
        if o.obstacle_type == ObstacleType::Chest {
            let landed = spec_land(p, o.hitbox@.y);
            let o2 = Obstacle { collided: true, ..o };
            if p.theta < OMEGA_FP * 6 || p.theta > TWO_PI_FP - OMEGA_FP * 6 {
                (Player { theta: 0, ..landed }, o2, false)
            } else {
                (landed, o2, true)
            }
        } else {
            let bounced = if crate::geom::rect_intersects(p.hitbox@, o.hitbox@) {
                p.spec_apply_force(0, crate::physics::bounce_force(p, o.hitbox@))
            } else {
                p
            };
            (bounced, o, o.obstacle_type == ObstacleType::Statue)
        }
    } else {
        (p, o, false)
    }
}

/// Law: force composition is linear — applying two forces one after the
/// other leaves the same state as applying their sum once, as long as
/// neither path reaches the saturation limit, so the velocity that a
/// later integration step produces is the same either way.
pub proof fn lemma_force_accumulation(p: Player, f1: (int, int), f2: (int, int))
    requires
        p.b_wf(),
        -FORCE_LIMIT <= p.force.0 + f1.0 <= FORCE_LIMIT,
        -FORCE_LIMIT <= p.force.1 + f1.1 <= FORCE_LIMIT,
        -FORCE_LIMIT <= p.force.0 + f1.0 + f2.0 <= FORCE_LIMIT,
        -FORCE_LIMIT <= p.force.1 + f1.1 + f2.1 <= FORCE_LIMIT,
    ensures
        p.spec_apply_force(f1.0, f1.1).spec_apply_force(f2.0, f2.1) == p.spec_apply_force(
            f1.0 + f2.0,
            f1.1 + f2.1,
        ),
{
}

/// Law: clearing the accumulated force erases all history — whatever
/// was applied before, the state after a reset is the same, and the
/// acceleration it produces is zero.
pub proof fn lemma_reset_accel_erases(p: Player, fx: int, fy: int)
    requires
        p.b_wf(),
        -FORCE_LIMIT <= fx <= FORCE_LIMIT,
        -FORCE_LIMIT <= fy <= FORCE_LIMIT,
    ensures
        p.spec_apply_force(fx, fy).spec_reset_accel() == p.spec_reset_accel(),
        accel_of(p.spec_reset_accel().b()) == (0int, 0int),
{
    assert(tdiv(0 * FP_ONE, p.mass as int) == 0);
}

/// Law: the elastic-collision outcome conserves momentum exactly when
/// the common denominator `m1 + m2` is cleared: the incoming momentum
/// equals the sum of the outgoing ones.
pub proof fn lemma_elastic_momentum(m1: int, m2: int, v: int)
    requires
        m1 >= 1,
        m2 >= 1,
    ensures
        m1 * ((m1 - m2) * v) + m2 * (2 * m1 * v) == (m1 + m2) * (m1 * v),
{
    assert(m1 * ((m1 - m2) * v) + m2 * (2 * m1 * v) == (m1 + m2) * (m1 * v)) by (nonlinear_arith);
}

/// Law: equal masses exchange velocities completely — the striking body
/// stops dead and the struck body leaves with the full incoming
/// velocity, exactly, with no division loss.
pub proof fn lemma_elastic_equal_mass(m: int, v: int)
    requires
        m >= 1,
    ensures
        elastic_v1(m, m, v) == 0,
        elastic_v2(m, m, v) == v,
{
    assert((m - m) * v == 0) by (nonlinear_arith);
    assert(tdiv(0, 2 * m) == 0);
    let num = 2 * m * v;
    if v >= 0 {
        assert(num == (2 * m) * v && num >= 0) by (nonlinear_arith)
            requires
                m >= 1 && v >= 0 && num == 2 * m * v,
        ;
        assert(((2 * m) * v) / (2 * m) == v) by (nonlinear_arith)
            requires
                m >= 1 && v >= 0,
        ;
    } else {
        assert(-num == (2 * m) * (-v) && num < 0) by (nonlinear_arith)
            requires
                m >= 1 && v < 0 && num == 2 * m * v,
        ;
        assert(((2 * m) * (-v)) / (2 * m) == -v) by (nonlinear_arith)
            requires
                m >= 1 && v < 0,
        ;
    }
}

/// Law: the struck body always leaves in the direction of the incoming
/// velocity (or stays at rest), never backwards.
pub proof fn lemma_elastic_direction(m1: int, m2: int, v: int)
    requires
        m1 >= 1,
        m2 >= 1,
    ensures
        v >= 0 ==> elastic_v2(m1, m2, v) >= 0,
        v <= 0 ==> elastic_v2(m1, m2, v) <= 0,
{
    if v >= 0 {
        assert(2 * m1 * v >= 0) by (nonlinear_arith)
            requires
                m1 >= 1 && v >= 0,
        ;
    } else {
        assert(2 * m1 * v <= 0) by (nonlinear_arith)
            requires
                m1 >= 1 && v <= 0,
        ;
    }
}

impl Entity for Player {
    open spec fn e_hitbox(&self) -> crate::geom::RectShape {
        self.hitbox@
    }

    open spec fn e_wf(&self) -> bool {
        body_wf(player_state(*self))
    }

    open spec fn spec_aligned(&self) -> Player {
        Player { hitbox: rect_of_shape(aligned_hb(self.hitbox@, self.pos.0 as int, self.pos.1 as int)), ..*self }
    }

    open spec fn spec_camera_adj(&self, x_adj: int, y_adj: int) -> Player {
        let np = (
            cl(self.pos.0 + x_adj * FP_ONE, -POS_LIMIT as int, POS_LIMIT as int) as i64,
            cl(self.pos.1 + y_adj * FP_ONE, -POS_LIMIT as int, POS_LIMIT as int) as i64,
        );
        Player {
            pos: np,
            hitbox: rect_of_shape(aligned_hb(self.hitbox@, np.0 as int, np.1 as int)),
            ..*self
        }
    }

    fn hitbox(&self) -> (r: PhysRect) {
        self.hitbox
    }

    fn x(&self) -> (r: i32) {
        self.hitbox.x()
    }

    fn y(&self) -> (r: i32) {
        self.hitbox.y()
    }

    fn center(&self) -> (r: Point) {
        self.hitbox.center()
    }

    fn align_hitbox_to_pos(&mut self) {
        proof {
            crate::fixed::lemma_tdiv_shrink(self.pos.0 as int, FP_ONE as int, 1099511628);
            crate::fixed::lemma_tdiv_shrink(self.pos.1 as int, FP_ONE as int, 1099511628);
        }
        let px = tdiv_i64(self.pos.0, FP_ONE);
        let py = tdiv_i64(self.pos.1, FP_ONE);
        self.hitbox.set_x(px as i32);
        self.hitbox.set_y(py as i32);
        proof {
            crate::geom::lemma_rect_view_injective(
                self.hitbox,
                rect_of_shape(aligned_hb(old(self).hitbox@, old(self).pos.0 as int, old(self).pos.1 as int)),
            );
        }
    }

    fn camera_adj(&mut self, x_adj: i32, y_adj: i32) {
        let np0 = clamp_i64(self.pos.0 + x_adj as i64 * FP_ONE, -POS_LIMIT, POS_LIMIT);
        let np1 = clamp_i64(self.pos.1 + y_adj as i64 * FP_ONE, -POS_LIMIT, POS_LIMIT);
        self.pos = (np0, np1);
        self.align_hitbox_to_pos();
    }
}

impl Body for Player {
    open spec fn b(&self) -> BodyState {
        player_state(*self)
    }

    open spec fn b_wf(&self) -> bool {
        body_wf(player_state(*self))
    }

    open spec fn spec_hard_set_pos(&self, px: int, py: int) -> Player {
        Player {
            pos: (
                cl(px, -POS_LIMIT as int, POS_LIMIT as int) as i64,
                cl(py, -POS_LIMIT as int, POS_LIMIT as int) as i64,
            ),
            ..*self
        }
    }

    open spec fn spec_hard_set_vel(&self, vx: int, vy: int) -> Player {
        Player { velocity: (vx as i64, vy as i64), ..*self }
    }

    open spec fn spec_apply_force(&self, fx: int, fy: int) -> Player {
        Player {
            force: (
                cl(self.force.0 + fx, -FORCE_LIMIT as int, FORCE_LIMIT as int) as i64,
                cl(self.force.1 + fy, -FORCE_LIMIT as int, FORCE_LIMIT as int) as i64,
            ),
            ..*self
        }
    }

    open spec fn spec_reset_accel(&self) -> Player {
        Player { force: (0i64, 0i64), ..*self }
    }

    open spec fn spec_update_vel(&self, game_over: bool) -> Player {
        let a = accel_of(self.b());
        let lo_x: int = if game_over {
            LOWER_SPEED as int
        } else {
            0
        };
        Player {
            velocity: (
                cl(self.velocity.0 + a.0, lo_x, UPPER_SPEED as int) as i64,
                cl(self.velocity.1 + a.1, 3 * LOWER_SPEED as int, 5 * UPPER_SPEED as int) as i64,
            ),
            ..*self
        }
    }

    open spec fn spec_update_pos(&self, ground: (int, int), angle: int, game_over: bool) -> Player {
        let grounded = rect_contains(self.hitbox@, ground.0, ground.1);
        let ny = cl(self.pos.1 - self.velocity.1, -POS_LIMIT as int, POS_LIMIT as int) as i64;
        Player {
            pos: (self.pos.0, ny),
            theta: if grounded {
                norm_angle(angle) as i64
            } else {
                self.theta
            },
            jumping: if grounded && !game_over {
                false
            } else {
                self.jumping
            },
            lock_jump_time: if grounded && !game_over {
                false
            } else {
                self.lock_jump_time
            },
            hitbox: rect_of_shape(aligned_hb(self.hitbox@, self.pos.0 as int, ny as int)),
            ..*self
        }
    }

    open spec fn spec_rotate_step(&self) -> Player {
        Player { theta: norm_angle(self.theta - self.omega) as i64, ..*self }
    }

    proof fn lemma_body_entity(&self) {
    }

    fn mass(&self) -> (r: i64) {
        self.mass
    }

    fn vel_x(&self) -> (r: i64) {
        self.velocity.0
    }

    fn vel_y(&self) -> (r: i64) {
        self.velocity.1
    }

    fn accel_x(&self) -> (r: i64) {
        tdiv_i64(self.force.0 * FP_ONE, self.mass)
    }

    fn accel_y(&self) -> (r: i64) {
        tdiv_i64(self.force.1 * FP_ONE, self.mass)
    }

    fn theta(&self) -> (r: i64) {
        self.theta
    }

    fn omega(&self) -> (r: i64) {
        self.omega
    }

    fn apply_force(&mut self, fx: i64, fy: i64) {
        self.force = (
            clamp_i64(self.force.0 + fx, -FORCE_LIMIT, FORCE_LIMIT),
            clamp_i64(self.force.1 + fy, -FORCE_LIMIT, FORCE_LIMIT),
        );
    }

    fn reset_accel(&mut self) {
        self.force = (0, 0);
    }

    fn hard_set_pos(&mut self, px: i64, py: i64) {
        self.pos = (clamp_i64(px, -POS_LIMIT, POS_LIMIT), clamp_i64(py, -POS_LIMIT, POS_LIMIT));
    }

    fn hard_set_vel(&mut self, vx: i64, vy: i64) {
        self.velocity = (vx, vy);
    }

    fn update_vel(&mut self, game_over: bool) {
        let ax = tdiv_i64(self.force.0 * FP_ONE, self.mass);
        let ay = tdiv_i64(self.force.1 * FP_ONE, self.mass);
        // during play the horizontal clamp is tighter: never backwards,
        // so a resting player stays at rest; after the run has ended the
        // full range applies
        let lo_x = if game_over {
            LOWER_SPEED
        } else {
            0
        };
        self.velocity = (
            clamp_i64(self.velocity.0 + ax, lo_x, UPPER_SPEED),
            clamp_i64(self.velocity.1 + ay, 3 * LOWER_SPEED, 5 * UPPER_SPEED),
        );
    }

    fn update_pos(&mut self, ground: Point, angle: i64, game_over: bool) {
        let grounded = self.hitbox.contains_point(ground);
        if grounded {
            self.theta = norm_angle_fp(angle);
        }
        let ny = clamp_i64(self.pos.1 - self.velocity.1, -POS_LIMIT, POS_LIMIT);
        self.pos = (self.pos.0, ny);
        if grounded && !game_over {
            self.jumping = false;
            self.lock_jump_time = false;
        }
        self.align_hitbox_to_pos();
    }

    fn rotate(&mut self) {
        self.theta = norm_angle_fp(self.theta - self.omega);
    }

    fn rotational_inertia(&self) -> (r: i64) {
        let halfw = tdiv_i64(self.hitbox.w as i64, 2);
        proof {
            crate::geom::lemma_half_bound(self.hitbox.w as int, 0x8000 as int);
            crate::geom::lemma_small_product(self.mass as int, halfw as int, 0x4000_0000 as int, 0x8000 as int);
            crate::geom::lemma_small_product(
                self.mass as int * halfw as int,
                halfw as int,
                (0x4000_0000 as int) * (0x8000 as int),
                0x8000 as int,
            );
        }
        self.mass * halfw * halfw
    }
}

} // verus!
