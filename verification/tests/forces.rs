use inf_runner::body::Body;
use inf_runner::geom::{PhysRect, Point};
use inf_runner::physics::Physics;
use inf_runner::player::{elastic_velocities, Player};
use inf_runner::types::{PowerType, TerrainType};

fn grounded_player() -> (Player, Point) {
    // the hitbox contains the contact point and rests 95 pixels above it
    let p = Player::new(PhysRect::new(0, 405, 100, 100), 3000);
    let ground = Point::new(50, 500);
    (p, ground)
}

#[test]
fn resting_tick_leaves_velocity_alone() {
    // mass 3.0, velocity zero, at rest on flat asphalt with no power-up:
    // gravity and the normal force cancel exactly and the friction
    // branch is skipped, so integration leaves both components at zero
    let (mut p, ground) = grounded_player();
    Physics::apply_terrain_forces(&mut p, 0, ground, &TerrainType::Asphalt, None);
    assert_eq!(p.accel_x(), 0);
    assert_eq!(p.accel_y(), 0);
    p.update_vel(false);
    assert_eq!(p.vel_x(), 0);
    assert_eq!(p.vel_y(), 0);
    p.update_pos(ground, 0, false);
    assert_eq!(p.pos, (0, 405000));
    assert_eq!(p.theta, 0);
    assert!(!p.jumping);
}

#[test]
fn horizontal_clamp_is_tighter_during_play() {
    // during play the player never moves backwards; once the run has
    // ended the full backward range applies
    let (mut p, _) = grounded_player();
    p.hard_set_vel(-3000, 0);
    p.update_vel(false);
    assert_eq!(p.vel_x(), 0);

    let (mut q, _) = grounded_player();
    q.hard_set_vel(-3000, 0);
    q.update_vel(true);
    assert_eq!(q.vel_x(), -3000);
}

#[test]
fn gravity_pulls_an_airborne_body() {
    let mut p = Player::new(PhysRect::new(0, 0, 100, 100), 3000);
    let ground = Point::new(5000, 5000);
    Physics::apply_terrain_forces(&mut p, 0, ground, &TerrainType::Asphalt, None);
    // force -m*g = -4500, acceleration -1500
    assert_eq!(p.accel_y(), -1500);
    p.update_vel(true);
    assert_eq!(p.vel_y(), -1500);
}

#[test]
fn sand_and_low_gravity_scale_the_pull() {
    let mut p = Player::new(PhysRect::new(0, 0, 100, 100), 3000);
    let ground = Point::new(5000, 5000);
    Physics::apply_terrain_forces(
        &mut p,
        0,
        ground,
        &TerrainType::Sand,
        Some(PowerType::LowerGravity),
    );
    // sand gravity 2.0 scaled by two thirds: 1.333, so force -3999
    assert_eq!(p.accel_y(), -1333);
}

#[test]
fn friction_opposes_motion_on_the_ground() {
    let (mut p, ground) = grounded_player();
    p.hard_set_vel(500, 0);
    Physics::apply_terrain_forces(&mut p, 0, ground, &TerrainType::Asphalt, None);
    // normal cancels gravity; kinetic friction 0.05 * m * g acts backwards
    assert_eq!(p.force, (-225, 0));
    assert_eq!(p.accel_x(), -75);
}

#[test]
fn terrain_forces_apply_to_any_body() {
    let mut o = inf_runner::obstacle::Obstacle::new(
        PhysRect::new(0, 0, 100, 100),
        1000,
        inf_runner::types::ObstacleType::Chest,
    );
    let ground = Point::new(5000, 5000);
    Physics::apply_terrain_forces(&mut o, 0, ground, &TerrainType::Grass, None);
    assert_eq!(o.force, (0, -1500));
    o.update_vel(false);
    assert_eq!(o.vel_y(), -1500);
}

#[test]
fn descending_grounded_body_snaps_to_the_surface() {
    let (mut p, ground) = grounded_player();
    p.hard_set_vel(0, -400);
    Physics::apply_terrain_forces(&mut p, 0, ground, &TerrainType::Asphalt, None);
    // the snap rests the player 95 pixels above the contact point and
    // zeroes the fall
    assert_eq!(p.pos.1, (500 - 95) * 1000);
    assert_eq!(p.vel_y(), 0);
}

#[test]
fn skate_force_propels_forward() {
    let (mut p, ground) = grounded_player();
    Physics::apply_skate_force(&mut p, 0, ground);
    // an eighth of the mass: 375, over mass 3000 gives 125
    assert_eq!(p.accel_x(), 125);
    assert_eq!(p.accel_y(), 0);

    let (mut q, ground2) = grounded_player();
    q.set_power_up(Some(PowerType::SpeedBoost));
    Physics::apply_skate_force(&mut q, 0, ground2);
    assert_eq!(q.accel_x(), 250);
}

#[test]
fn bounce_force_grows_with_overlap() {
    let mut p = Player::new(PhysRect::new(0, 100, 100, 100), 3000);
    let spring = inf_runner::obstacle::Obstacle::new(
        PhysRect::new(0, 50, 100, 100),
        1000,
        inf_runner::types::ObstacleType::Balloon,
    );
    Physics::apply_bounce(&mut p, &spring);
    // player bottom 200, spring bottom 150: 50 pixels at 0.2 each
    assert_eq!(p.force, (0, 10000));
}

#[test]
fn buoyancy_lifts_a_submerged_player() {
    let mut p = Player::new(PhysRect::new(0, 0, 100, 100), 3000);
    Physics::apply_buoyancy(&mut p, Point::new(0, 50));
    // density 750, gravity 1.0, submerged area 100 x 50
    assert_eq!(p.force, (0, 3_750_000));
}

#[test]
fn forces_compose_linearly() {
    let (mut p, _) = grounded_player();
    let (mut q, _) = grounded_player();
    p.apply_force(100, 200);
    p.apply_force(300, -500);
    q.apply_force(400, -300);
    assert_eq!(p.force, q.force);
    p.update_vel(true);
    q.update_vel(true);
    assert_eq!(p.velocity, q.velocity);
}

#[test]
fn reset_accel_clears_any_history() {
    let (mut p, _) = grounded_player();
    p.apply_force(12345, -67890);
    p.reset_accel();
    assert_eq!(p.force, (0, 0));
    assert_eq!(p.accel_x(), 0);
    assert_eq!(p.accel_y(), 0);
}

#[test]
fn elastic_collision_exchanges_velocity_for_equal_masses() {
    let (v1, v2) = elastic_velocities(3000, 3000, 500);
    assert_eq!(v1, 0);
    assert_eq!(v2, 500);
}

#[test]
fn elastic_collision_conserves_momentum() {
    let m1: i64 = 2000;
    let m2: i64 = 1000;
    let v: i64 = 600;
    let (v1, v2) = elastic_velocities(m1, m2, v);
    assert_eq!(v1, 200);
    assert_eq!(v2, 800);
    assert_eq!(m1 * v1 + m2 * v2, m1 * v);
    // direction consistency: the struck body moves the way it was hit
    let (_, v2n) = elastic_velocities(m1, m2, -600);
    assert!(v2n <= 0);
}

#[test]
fn upright_check_follows_the_band() {
    let (mut p, ground) = grounded_player();
    assert!(Physics::check_player_upright(&p, 0, ground));
    p.theta = 3000;
    assert!(!Physics::check_player_upright(&p, 0, ground));
    // not touching the ground at all counts as upright
    assert!(Physics::check_player_upright(&p, 0, Point::new(9000, 9000)));
}

#[test]
fn rotational_inertia_from_mass_and_half_width() {
    let p = Player::new(PhysRect::new(0, 0, 100, 100), 3000);
    assert_eq!(p.rotational_inertia(), 3000 * 50 * 50);
}
