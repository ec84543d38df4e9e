//! The force model and the collision queries.
//!
//! Stateless operations over any body: gravity, normal force and kinetic
//! friction from the terrain, the skate propulsion force, the spring
//! bounce, buoyancy, and the intersection queries the collision engine
//! is driven by.

use vstd::prelude::*;

use crate::body::Body;
use crate::body::Collectible;
use crate::body::Entity;
use crate::body::FORCE_LIMIT;
use crate::body::cl;
use crate::body::clamp_i64;
use crate::fixed::FP_ONE;
use crate::fixed::OMEGA_FP;
use crate::fixed::TWO_PI_FP;
use crate::fixed::cos_fp;
use crate::fixed::cos_fp_of;
use crate::fixed::sin_fp;
use crate::fixed::sin_fp_of;
use crate::fixed::tdiv;
use crate::fixed::tdiv_i64;
use crate::geom::COORD_LIMIT;
use crate::geom::Point;
use crate::geom::lemma_small_product;
use crate::geom::pick_bottom;
use crate::geom::rect_contains;
use crate::geom::rect_intersects;
use crate::player::Player;
use crate::types::PowerType;
use crate::types::TerrainType;

verus! {

/// The side length of one terrain tile, in pixels.
pub const TILE_SIZE: u32 = 100;

/// A body at rest on the ground sits with its reference corner this far
/// (fixed-point) above the contact point: 0.95 of a tile.
pub const REST_OFFSET: i64 = 95000;

/// A body deeper than 0.9 of a tile past the contact point counts as
/// penetrating the ground, in pixels.
pub const PENETRATION: i64 = 90;

/// The kinetic friction coefficient of a terrain, fixed-point.
pub open spec fn terrain_friction(t: TerrainType) -> int {
    match t {
        TerrainType::Asphalt => 50,
        TerrainType::Grass => 75,
        TerrainType::Sand => 60,
        TerrainType::Water => 200,
    }
}

/// The gravity of a terrain, fixed-point: sand is heavier, and an
/// active low-gravity power scales it by two thirds.
pub open spec fn terrain_gravity(t: TerrainType, power_up: Option<PowerType>) -> int {
    let g: int = match t {
        TerrainType::Sand => 2000,
        _ => 1500,
    };
    if power_up == Some(PowerType::LowerGravity) {
        tdiv(g * 2, 3)
    } else {
        g
    }
}

/// The body after the terrain's forces for one tick: gravity always;
/// and, when the body stands on the contact point, the ground snap for
/// a descending or penetrating body, the normal force decomposed along
/// the incline, and kinetic friction opposing the current motion while
/// there is any.
pub open spec fn spec_terrain_forces<B: Body>(
    body: B,
    angle: int,
    ground: (int, int),
    t: TerrainType,
    power_up: Option<PowerType>,
) -> B {
    let g = terrain_gravity(t, power_up);
    let fric = terrain_friction(t);
    let mg = tdiv(body.b().mass * g, FP_ONE as int);
    let s1 = body.spec_apply_force(0, -mg);
    if rect_contains(body.b().hb, ground.0, ground.1) {
        let snap = body.b().vy < 0 || body.b().hb.y + PENETRATION > ground.1;
        let s2 = if snap {
            s1.spec_hard_set_pos(body.b().hb.x * FP_ONE, ground.1 * FP_ONE - REST_OFFSET)
                .spec_hard_set_vel(body.b().vx, 0)
                .spec_aligned()
        } else {
            s1
        };
        let s3 = s2.spec_apply_force(
            tdiv(mg * sin_fp_of(angle), FP_ONE as int),
            tdiv(mg * cos_fp_of(angle), FP_ONE as int),
        );
        if s3.b().vx != 0 || s3.b().vy != 0 {
            let dir: int = if s3.b().vx >= 0 {
                1
            } else {
                -1
            };
            let fmg = tdiv(fric * mg, FP_ONE as int);
            s3.spec_apply_force(
                -(tdiv(fmg * cos_fp_of(angle), FP_ONE as int) * dir),
                tdiv(fmg * sin_fp_of(angle), FP_ONE as int) * dir,
            )
        } else {
            s3
        }
    } else {
        s1
    }
}

/// Stateless physics over bodies and entities.
pub struct Physics;

impl Physics {
    /// Whether two entities' hitboxes intersect.
    pub fn check_collision<A: Entity, B: Entity>(entity_a: &A, entity_b: &B) -> (r: bool)
        requires
            entity_a.e_wf(),
            entity_b.e_wf(),
        ensures
            r == rect_intersects(entity_a.e_hitbox(), entity_b.e_hitbox()),
    {
        entity_a.hitbox().has_intersection(entity_b.hitbox())
    }

    /// Whether the player's hitbox touches a collectible's: an
    /// intersection test only, nothing is mutated.
    pub fn check_collection<C: Collectible>(player: &Player, collectible: &C) -> (r: bool)
        requires
            player.b_wf(),
            collectible.e_wf(),
        ensures
            r == rect_intersects(player.hitbox@, collectible.e_hitbox()),
    {
        player.hitbox.has_intersection(collectible.hitbox())
    }

    /// Whether the player has not landed on their head: either they are
    /// not touching the ground point at all, or their rotation lies in
    /// the upright band around the terrain angle.
    pub fn check_player_upright(player: &Player, angle: i64, ground: Point) -> (r: bool)
        requires
            player.b_wf(),
            -TWO_PI_FP <= angle <= TWO_PI_FP,
        ensures
            r == (!rect_contains(player.hitbox@, ground.x as int, ground.y as int) || (
            player.theta < OMEGA_FP * 6 + angle || player.theta > TWO_PI_FP - OMEGA_FP * 6
                + angle)),
    {
        !player.hitbox.contains_point(ground) || (player.theta < OMEGA_FP * 6 + angle
            || player.theta > TWO_PI_FP - OMEGA_FP * 6 + angle)
    }

    /// Applies the terrain's forces for one tick: gravity from the
    /// terrain's gravity value; and if the body stands on the ground
    /// contact point, a snap to the surface when descending or
    /// penetrating, the normal force along the incline, and kinetic
    /// friction against the current motion while there is any.
    pub fn apply_terrain_forces<B: Body>(
        body: &mut B,
        angle: i64,
        ground: Point,
        terrain_type: &TerrainType,
        power_up: Option<PowerType>,
    )
        requires
            old(body).b_wf(),
            -TWO_PI_FP <= angle <= TWO_PI_FP,
            -COORD_LIMIT <= ground.x <= COORD_LIMIT,
            -COORD_LIMIT <= ground.y <= COORD_LIMIT,
        ensures
            *final(body) == spec_terrain_forces(
                *old(body),
                angle as int,
                (ground.x as int, ground.y as int),
                *terrain_type,
                power_up,
            ),
            final(body).b_wf(),
    {
        proof {
            old(body).lemma_body_entity();
        }
        let fric: i64 = match terrain_type {
            TerrainType::Asphalt => 50,
            TerrainType::Grass => 75,
            TerrainType::Sand => 60,
            TerrainType::Water => 200,
        };
        let mut g: i64 = match terrain_type {
            TerrainType::Sand => 2000,
            _ => 1500,
        };
        if let Some(PowerType::LowerGravity) = power_up {
            g = tdiv_i64(g * 2, 3);
        }
        let m = body.mass();
        proof {
            lemma_small_product(m as int, g as int, 0x4000_0000 as int, 4000 as int);
            crate::fixed::lemma_tdiv_shrink(m as int * g as int, FP_ONE as int, 0x1_0000_0000 as int);
        }
        let mg = tdiv_i64(m * g, FP_ONE);
        let grounded = body.hitbox().contains_point(ground);
        body.apply_force(0, -mg);
        proof {
            body.lemma_body_entity();
        }
        if grounded {
            let by = body.y();
            let descending = body.vel_y() < 0;
            if descending || by as i64 + PENETRATION > ground.y {
                let bx = body.x();
                let vx = body.vel_x();
                body.hard_set_pos(bx as i64 * FP_ONE, ground.y * FP_ONE - REST_OFFSET);
                body.hard_set_vel(vx, 0);
                proof {
                    body.lemma_body_entity();
                }
                body.align_hitbox_to_pos();
                proof {
                    body.lemma_body_entity();
                }
            }
            let s = sin_fp(angle);
            let c = cos_fp(angle);
            proof {
                lemma_small_product(mg as int, s as int, 0x1_0000_0000 as int, 1000 as int);
                lemma_small_product(mg as int, c as int, 0x1_0000_0000 as int, 1000 as int);
                crate::fixed::lemma_tdiv_shrink(mg as int * s as int, FP_ONE as int, 0x1_0000_0000 as int);
                crate::fixed::lemma_tdiv_shrink(mg as int * c as int, FP_ONE as int, 0x1_0000_0000 as int);
            }
            body.apply_force(tdiv_i64(mg * s, FP_ONE), tdiv_i64(mg * c, FP_ONE));
            proof {
                body.lemma_body_entity();
            }
            let vx = body.vel_x();
            let vy = body.vel_y();
            if vx != 0 || vy != 0 {
                let dir: i64 = if vx >= 0 {
                    1
                } else {
                    -1
                };
                proof {
                    lemma_small_product(fric as int, mg as int, 200 as int, 0x1_0000_0000 as int);
                    crate::fixed::lemma_tdiv_shrink(
                        fric as int * mg as int,
                        FP_ONE as int,
                        0x1_0000_0000 as int,
                    );
                }
                let fmg = tdiv_i64(fric * mg, FP_ONE);
                proof {
                    lemma_small_product(fmg as int, c as int, 0x1_0000_0000 as int, 1000 as int);
                    lemma_small_product(fmg as int, s as int, 0x1_0000_0000 as int, 1000 as int);
                    crate::fixed::lemma_tdiv_shrink(
                        fmg as int * c as int,
                        FP_ONE as int,
                        0x1_0000_0000 as int,
                    );
                    crate::fixed::lemma_tdiv_shrink(
                        fmg as int * s as int,
                        FP_ONE as int,
                        0x1_0000_0000 as int,
                    );
                }
                let fcx = tdiv_i64(fmg * c, FP_ONE);
                let fsy = tdiv_i64(fmg * s, FP_ONE);
                proof {
                    lemma_small_product(fcx as int, dir as int, 0x1_0000_0000 as int, 1);
                    lemma_small_product(fsy as int, dir as int, 0x1_0000_0000 as int, 1);
                }
                body.apply_force(-(fcx * dir), fsy * dir);
            }
        }
    }

    /// Applies the player's forward propulsion along the incline while
    /// they stand on the ground: an eighth of their mass, doubled under
    /// a speed boost.
    pub fn apply_skate_force(player: &mut Player, angle: i64, ground: Point)
        requires
            old(player).b_wf(),
            -TWO_PI_FP <= angle <= TWO_PI_FP,
        ensures
            *final(player) == (if rect_contains(
                old(player).hitbox@,
                ground.x as int,
                ground.y as int,
            ) {
                old(player).spec_apply_force(
                    tdiv(skate_force(*old(player)) * cos_fp_of(angle as int), FP_ONE as int),
                    -tdiv(skate_force(*old(player)) * sin_fp_of(angle as int), FP_ONE as int),
                )
            } else {
                *old(player)
            }),
            final(player).b_wf(),
    {
        let mut skate = tdiv_i64(player.mass, 8);
        if let Some(PowerType::SpeedBoost) = player.power_up {
            skate = skate * 2;
        }
        if player.hitbox.contains_point(ground) {
            let s = sin_fp(angle);
            let c = cos_fp(angle);
            proof {
                lemma_small_product(skate as int, s as int, 0x1_0000_0000 as int, 1000 as int);
                lemma_small_product(skate as int, c as int, 0x1_0000_0000 as int, 1000 as int);
                crate::fixed::lemma_tdiv_shrink(
                    skate as int * s as int,
                    FP_ONE as int,
                    0x1_0000_0000 as int,
                );
                crate::fixed::lemma_tdiv_shrink(
                    skate as int * c as int,
                    FP_ONE as int,
                    0x1_0000_0000 as int,
                );
            }
            player.apply_force(tdiv_i64(skate * c, FP_ONE), -tdiv_i64(skate * s, FP_ONE));
        }
    }

    /// Applies the spring force while the player's hitbox intersects the
    /// given body's: an upward pull proportional to how far the player's
    /// lowest corner sits below the body's, saturated at the force
    /// limit.
    pub fn apply_bounce<B: Body>(player: &mut Player, body: &B)
        requires
            old(player).b_wf(),
            body.b_wf(),
        ensures
            *final(player) == (if rect_intersects(old(player).hitbox@, body.e_hitbox()) {
                old(player).spec_apply_force(0, bounce_force(*old(player), body.e_hitbox()))
            } else {
                *old(player)
            }),
            final(player).b_wf(),
    {
        proof {
            body.lemma_body_entity();
        }
        if player.hitbox.has_intersection(body.hitbox()) {
            let d = player.hitbox.bottom().y() - body.hitbox().bottom().y();
            proof {
                lemma_small_product(200, d as int, 200, 0x100_0000_0000 as int);
            }
            let f = clamp_i64(200 * d, -FORCE_LIMIT, FORCE_LIMIT);
            player.apply_force(0, f);
        }
    }

    /// Applies buoyancy while the player extends below the surface: an
    /// upward force from the submerged cross-section, the player's
    /// density and gravity, saturated at the force limit.
    pub fn apply_buoyancy(player: &mut Player, surface: Point)
        requires
            old(player).b_wf(),
            -COORD_LIMIT <= surface.y <= COORD_LIMIT,
        ensures
            *final(player) == (if submerged_area(old(player).hitbox@, surface.y as int) > 0 {
                old(player).spec_apply_force(
                    0,
                    buoyancy_force(*old(player), surface.y as int),
                )
            } else {
                *old(player)
            }),
            final(player).b_wf(),
    {
        let p = tdiv_i64(player.mass, 4);
        let g: i64 = if let Some(PowerType::LowerGravity) = player.power_up {
            tdiv_i64(2000, 3)
        } else {
            1000
        };
        let depth = player.hitbox.y() as i64 + player.hitbox.height() as i64 - surface.y;
        proof {
            lemma_small_product(
                player.hitbox@.w,
                depth as int,
                0x4000_0000 as int,
                0x10_0000_0000 as int,
            );
            crate::fixed::lemma_tdiv_shrink(player.mass as int, 4, 0x1000_0000 as int);
            lemma_small_product(p as int, g as int, 0x1000_0000 as int, 2000 as int);
        }
        let area: i128 = player.hitbox.width() as i128 * depth as i128;
        if area > 0 {
            proof {
                crate::fixed::lemma_tdiv_shrink(p as int * g as int, FP_ONE as int, 0x2000_0000 as int);
            }
            let pg = tdiv_i64(p * g, FP_ONE);
            proof {
                lemma_small_product(
                    pg as int,
                    area as int,
                    0x2000_0000 as int,
                    0x40_0000_0000_0000_0000 as int,
                );
            }
            let raw: i128 = pg as i128 * area;
            let f: i64 = if raw > FORCE_LIMIT as i128 {
                FORCE_LIMIT
            } else if raw < -FORCE_LIMIT as i128 {
                -FORCE_LIMIT
            } else {
                raw as i64
            };
            player.apply_force(0, f);
        }
    }
}

/// The player's propulsion force: an eighth of their mass, doubled
/// under a speed boost.
pub open spec fn skate_force(p: Player) -> int {
    let base = tdiv(p.mass as int, 8);
    if p.power_up == Some(PowerType::SpeedBoost) {
        base * 2
    } else {
        base
    }
}

/// The spring force a bounce applies: 0.2 per pixel of overlap between
/// the player's lowest corner and the body's, saturated at the force
/// limit.
pub open spec fn bounce_force(p: Player, body_hb: crate::geom::RectShape) -> int {
    let d = pick_bottom(p.hitbox@).1 - pick_bottom(body_hb).1;
    cl(200 * d, -FORCE_LIMIT as int, FORCE_LIMIT as int)
}

/// The player's submerged cross-section below a surface height, in
/// square pixels.
pub open spec fn submerged_area(hb: crate::geom::RectShape, surface_y: int) -> int {
    hb.w * (hb.y + hb.h - surface_y)
}

/// The buoyant force: density (a quarter of the mass) times gravity
/// times the submerged area, saturated at the force limit.
pub open spec fn buoyancy_force(p: Player, surface_y: int) -> int {
    let g: int = if p.power_up == Some(PowerType::LowerGravity) {
        tdiv(2000, 3)
    } else {
        1000
    };
    let pg = tdiv(tdiv(p.mass as int, 4) * g, FP_ONE as int);
    cl(pg * submerged_area(p.hitbox@, surface_y), -FORCE_LIMIT as int, FORCE_LIMIT as int)
}

} // verus!
