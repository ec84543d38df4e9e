use inf_runner::body::{Body, Collectible, Entity};
use inf_runner::collect::{Coin, Power};
use inf_runner::geom::{PhysRect, Point};
use inf_runner::obstacle::Obstacle;
use inf_runner::physics::Physics;
use inf_runner::player::Player;
use inf_runner::power::PowerState;
use inf_runner::types::{ObstacleType, PowerType};

#[test]
fn coin_is_collected_at_most_once() {
    let mut p = Player::new(PhysRect::new(0, 0, 100, 100), 3000);
    let mut coin = Coin::new(PhysRect::new(10, 10, 20, 20), 1000);
    assert!(p.collide_coin(&mut coin));
    assert!(coin.collected());
    assert!(!p.collide_coin(&mut coin));
    assert!(coin.collected());
    assert!(!p.collide_coin(&mut coin));
    assert!(coin.collected());
}

#[test]
fn power_is_collected_at_most_once_and_activates() {
    let mut p = Player::new(PhysRect::new(0, 0, 100, 100), 3000);
    let mut power = Power::new(PhysRect::new(10, 10, 20, 20), PowerType::Shield);
    assert!(p.collide_power(&mut power));
    assert_eq!(p.power_up(), Some(PowerType::Shield));
    assert!(!p.collide_power(&mut power));
    assert!(power.collected());
}

#[test]
fn newest_power_overrides_the_previous_one() {
    let mut s = PowerState::new();
    s.activate(PowerType::SpeedBoost);
    s.tick();
    assert_eq!(s.speed_adjust, 5000);
    // collect a second power-up long before the first expires
    s.activate(PowerType::BouncyShoes);
    s.tick();
    assert_eq!(s.jump_change, 300);
    assert_eq!(s.speed_adjust, 0);
    assert_eq!(s.accel_rate, -10000);
    assert!(!s.shielded);
    assert_eq!(s.active, Some(PowerType::BouncyShoes));
}

#[test]
fn power_expires_back_to_defaults() {
    let mut s = PowerState::new();
    s.activate(PowerType::LowerGravity);
    for _ in 0..361 {
        s.tick();
    }
    assert_eq!(s.active, None);
    assert_eq!(s.accel_rate, -10000);
    assert_eq!(s.jump_change, 0);
    assert_eq!(s.speed_adjust, 0);
    assert!(!s.shielded);
}

#[test]
fn score_doubles_under_multiplier() {
    let mut s = PowerState::new();
    assert_eq!(s.score_step(100), 100);
    s.activate(PowerType::ScoreMultiplier);
    assert_eq!(s.score_step(100), 200);
}

#[test]
fn landing_in_band_survives_and_snaps_rotation() {
    let mut p = Player::new(PhysRect::new(0, 405, 100, 100), 3000);
    p.hard_set_vel(0, -100);
    let ground = Point::new(50, 500);
    assert!(p.collide_terrain(ground, 0));
    assert_eq!(p.theta, 0);
    assert_eq!(p.vel_y(), 0);
    assert!(!p.is_jumping());
    assert_eq!(p.omega, 0);
}

#[test]
fn landing_out_of_band_crashes() {
    let mut p = Player::new(PhysRect::new(0, 405, 100, 100), 3000);
    p.hard_set_vel(0, -100);
    p.theta = 3000;
    let ground = Point::new(50, 500);
    assert!(!p.collide_terrain(ground, 0));
    assert_eq!(p.theta, 3000);
    assert_eq!(p.vel_y(), 0);
}

#[test]
fn airborne_terrain_check_is_a_no_op() {
    let mut p = Player::new(PhysRect::new(0, 0, 100, 100), 3000);
    p.hard_set_vel(0, -100);
    assert!(p.collide_terrain(Point::new(5000, 5000), 0));
    assert_eq!(p.vel_y(), -100);
}

#[test]
fn jump_tiers_scale_with_charge() {
    let ground = Point::new(50, 500);
    let mut a = Player::new(PhysRect::new(0, 405, 100, 100), 3000);
    assert!(a.jump(ground, 50));
    assert_eq!(a.force, (0, 60000));
    assert!(a.is_jumping());

    let mut b = Player::new(PhysRect::new(0, 405, 100, 100), 3000);
    assert!(b.jump(ground, 150));
    assert_eq!(b.force, (0, 80000));

    let mut c = Player::new(PhysRect::new(0, 405, 100, 100), 3000);
    assert!(c.jump(ground, 2500));
    assert_eq!(c.force, (0, 100000));

    // airborne: no jump
    let mut d = Player::new(PhysRect::new(0, 0, 100, 100), 3000);
    assert!(!d.jump(Point::new(5000, 5000), 50));
    assert_eq!(d.force, (0, 0));
}

#[test]
fn side_collision_is_elastic_and_resolves_once() {
    let mut p = Player::new(PhysRect::new(0, 100, 100, 100), 3000);
    p.hard_set_vel(500, -200);
    let mut o = Obstacle::new(PhysRect::new(0, 0, 100, 100), 3000, ObstacleType::Statue);
    assert!(p.collide_obstacle(&mut o));
    assert!(o.collided());
    // equal masses: full velocity exchange; a fresh player counts as
    // airborne, so the vertical component participates too
    assert_eq!(o.velocity, (500, -200));
    assert_eq!(p.velocity, (0, 0));
    // the player is snapped just in front of the obstacle
    assert_eq!(p.pos.0, -105000);

    // a second contact with the same obstacle is ignored
    let mut q = Player::new(PhysRect::new(0, 100, 100, 100), 3000);
    q.hard_set_vel(500, 0);
    assert!(!q.collide_obstacle(&mut o));
    assert_eq!(q.velocity, (500, 0));
}

#[test]
fn shield_makes_side_collisions_harmless() {
    let mut p = Player::new(PhysRect::new(0, 100, 100, 100), 3000);
    p.hard_set_vel(500, 0);
    p.set_power_up(Some(PowerType::Shield));
    let mut o = Obstacle::new(PhysRect::new(0, 0, 100, 100), 3000, ObstacleType::Chest);
    assert!(!p.collide_obstacle(&mut o));
    assert!(!o.collided());
    assert_eq!(p.velocity, (500, 0));
}

#[test]
fn balloon_side_contact_is_harmless() {
    let mut p = Player::new(PhysRect::new(0, 100, 100, 100), 3000);
    p.hard_set_vel(500, 0);
    let mut o = Obstacle::new(PhysRect::new(0, 0, 100, 100), 3000, ObstacleType::Balloon);
    assert!(!p.collide_obstacle(&mut o));
    assert!(!o.collided());
}

#[test]
fn check_collision_and_collection_are_intersection_tests() {
    let p = Player::new(PhysRect::new(0, 0, 100, 100), 3000);
    let o = Obstacle::new(PhysRect::new(50, 50, 100, 100), 1000, ObstacleType::Chest);
    assert!(Physics::check_collision(&p, &o));
    let far = Obstacle::new(PhysRect::new(900, 900, 10, 10), 1000, ObstacleType::Chest);
    assert!(!Physics::check_collision(&p, &far));

    let coin = Coin::new(PhysRect::new(50, 50, 20, 20), 1000);
    assert!(Physics::check_collection(&p, &coin));
    let away = Coin::new(PhysRect::new(900, 900, 20, 20), 1000);
    assert!(!Physics::check_collection(&p, &away));
}

#[test]
fn update_pos_moves_by_velocity() {
    let mut p = Player::new(PhysRect::new(0, 0, 100, 100), 3000);
    p.hard_set_vel(0, 2500);
    p.update_pos(Point::new(5000, 5000), 0, false);
    // positive vertical velocity carries the player up the screen
    assert_eq!(p.pos, (0, -2500));
    assert_eq!(p.hitbox.y, -2);

    let mut o = Obstacle::new(PhysRect::new(0, 0, 100, 100), 1000, ObstacleType::Chest);
    o.hard_set_vel(1500, -500);
    o.update_pos(Point::new(5000, 5000), 0, false);
    assert_eq!(o.pos, (1500, 500));
}

#[test]
fn flipping_rotates_until_stopped() {
    let mut p = Player::new(PhysRect::new(0, 0, 100, 100), 3000);
    p.flip();
    assert_eq!(p.theta, 0);
    p.resume_flipping();
    assert!(p.is_flipping());
    p.flip();
    // a full turn is 6284; one step retreats by 174
    assert_eq!(p.theta, 6110);
    p.stop_flipping();
    assert_eq!(p.omega, 0);
    p.flip();
    assert_eq!(p.theta, 6110);
}

#[test]
fn jump_moment_locks_and_reads_back() {
    let mut p = Player::new(PhysRect::new(0, 0, 100, 100), 3000);
    assert!(!p.jumpmoment_lock());
    p.set_jumpmoment(12345);
    assert!(p.jumpmoment_lock());
    assert_eq!(p.jump_moment(), 12345);
}

#[test]
fn travel_update_scrolls_left() {
    let mut o = Obstacle::new(PhysRect::new(1000, 0, 100, 100), 1000, ObstacleType::Statue);
    o.travel_update(30);
    assert_eq!(o.pos.0, 970000);

    let mut c = Coin::new(PhysRect::new(1000, 0, 20, 20), 1000);
    c.travel_update(30);
    assert_eq!(c.pos.0, 970);

    let mut w = Power::new(PhysRect::new(1000, 0, 20, 20), PowerType::SpeedBoost);
    w.travel_update(30);
    assert_eq!(w.pos.0, 970);
}

#[test]
fn collectible_update_pos_and_alignment() {
    let mut c = Coin::new(PhysRect::new(0, 0, 20, 20), 500);
    c.update_pos(300, 400);
    assert_eq!(c.pos, (300, 400));
    c.align_hitbox_to_pos();
    assert_eq!((c.hitbox.x, c.hitbox.y), (300, 400));
    assert_eq!(c.value(), 500);
}

#[test]
fn camera_adjustment_shifts_entity_and_hitbox() {
    let mut p = Player::new(PhysRect::new(100, 100, 100, 100), 3000);
    p.camera_adj(-10, 20);
    assert_eq!(p.pos, (90000, 120000));
    assert_eq!((p.hitbox.x, p.hitbox.y), (90, 120));
}
