use rusteroids::actor::view_test;
use rusteroids::actor::Actor;
use rusteroids::actor::CollisionType;
use rusteroids::actor_manager::ActorManager;
use rusteroids::asteroid::Asteroid;
use rusteroids::bullet::Bullet;
use rusteroids::explosion::Explosion;
use rusteroids::kamikaze::Kamikaze;
use rusteroids::messages::GameInstructions;
use rusteroids::messages::PlayerInstructions;
use rusteroids::spaceship::Spaceship;
use rusteroids::token::Token;

#[test]
fn actor_manager_get() {
    let mut actors = ActorManager::new();

    let p = Spaceship::new(1, 0, 0, 0);
    actors.add_spaceship(p);

    assert!(actors.get() == actors.get());
}

#[test]
fn actor_get_view() {
    let p = Spaceship::new(1, 0, 0, 0);
    view_test(p);
}

#[test]
fn views_are_pure_for_every_variant() {
    let s = Spaceship::new(7, 2_000, -3_000, 45_000);
    assert_eq!(s.get_view(), s.get_view());
    let b = Bullet::new(8, 7, 0, 0, 90_000);
    assert_eq!(b.get_view(), b.get_view());
    let a = Asteroid::new(9, 10_000, 10_000);
    assert_eq!(a.get_view(), a.get_view());
    let k = Kamikaze::new(10, 0, 0, (0, 1_000_000));
    assert_eq!(k.get_view(), k.get_view());
    let t = Token::new(11, 5_000, 5_000);
    assert_eq!(t.get_view(), t.get_view());
    let e = Explosion::new(0, 0, 100_000, 0);
    assert_eq!(e.get_view(), e.get_view());
}

#[test]
fn kill_is_terminal() {
    let mut s = Spaceship::new(4, 0, 0, 0);
    assert!(s.is_alive());
    s.kill();
    assert!(!s.is_alive());
    let view_before = s.get_view();
    let mut out = Vec::new();
    s.update(&mut out);
    assert!(!s.is_alive());
    assert_eq!(view_before.id, s.get_view().id);
}

#[test]
fn fire_with_zero_cooldown_emits_once_and_reloads() {
    let mut s = Spaceship::new(2, 0, 0, 0);
    let mut out = Vec::new();
    s.execute(&PlayerInstructions::Fire, &mut out);
    assert_eq!(out.len(), 1);
    assert_eq!(out[0].0, GameInstructions::Fire);
    assert_eq!(out[0].1.id, 2);
    assert_eq!(s.fire_countdown, 20);

    s.execute(&PlayerInstructions::Fire, &mut out);
    assert_eq!(out.len(), 1);
    assert_eq!(s.fire_countdown, 20);
}

#[test]
fn cooldown_counts_down_and_reenables_fire() {
    let mut s = Spaceship::new(2, 0, 0, 0);
    let mut out = Vec::new();
    s.execute(&PlayerInstructions::Fire, &mut out);
    assert_eq!(out.len(), 1);
    for _ in 0..20 {
        s.update(&mut out);
    }
    assert_eq!(s.fire_countdown, 0);
    s.execute(&PlayerInstructions::Fire, &mut out);
    assert_eq!(out.len(), 2);
}

#[test]
fn shield_suppresses_throttle_and_runs_out() {
    let mut s = Spaceship::new(3, 0, 0, 0);
    let mut out = Vec::new();
    s.execute(&PlayerInstructions::ShieldUp, &mut out);
    s.execute(&PlayerInstructions::BeginIncreaseThrottle, &mut out);
    assert!(!s.is_accelerating);
    for _ in 0..180 {
        s.update(&mut out);
    }
    assert!(s.shield);
    assert_eq!(s.shield_timer, 0);
    s.update(&mut out);
    assert!(!s.shield);
    assert_eq!(out.len(), 0);
}

#[test]
fn shield_blocks_fire_and_collision_death() {
    let mut s = Spaceship::new(3, 0, 0, 0);
    let mut out = Vec::new();
    s.execute(&PlayerInstructions::ShieldUp, &mut out);
    assert!(s.shield);
    s.execute(&PlayerInstructions::Fire, &mut out);
    assert_eq!(out.len(), 0);
    s.execute(&PlayerInstructions::Collide, &mut out);
    assert_eq!(out.len(), 0);
    assert!(s.is_alive());
    s.execute(&PlayerInstructions::ShieldDown, &mut out);
    assert!(!s.shield);
    s.execute(&PlayerInstructions::Collide, &mut out);
    assert_eq!(out.len(), 1);
    assert_eq!(out[0].0, GameInstructions::Explode);
    assert!(!s.is_alive());
}

#[test]
fn large_asteroid_splits_small_one_only_explodes() {
    let mut big = Asteroid::new_with_d(5, 0, 0, 150_000, 0);
    let mut out = Vec::new();
    big.execute(&PlayerInstructions::Collide, &mut out);
    assert!(!big.is_alive());
    assert_eq!(out.len(), 2);
    assert_eq!(out[0].0, GameInstructions::NewAsteroid);
    assert_eq!(out[1].0, GameInstructions::Explode);

    let mut small = Asteroid::new_with_d(6, 0, 0, 80_000, 0);
    let mut out2 = Vec::new();
    small.execute(&PlayerInstructions::Collide, &mut out2);
    assert!(!small.is_alive());
    assert_eq!(out2.len(), 1);
    assert_eq!(out2[0].0, GameInstructions::Explode);
}

#[test]
fn asteroid_ignores_ship_controls() {
    let mut a = Asteroid::new_with_d(5, 0, 0, 90_000, 0);
    let mut out = Vec::new();
    a.execute(&PlayerInstructions::ShieldUp, &mut out);
    a.execute(&PlayerInstructions::BeginIncreaseThrottle, &mut out);
    assert_eq!(out.len(), 0);
    assert!(a.is_alive());
}

#[test]
fn explosion_dies_past_final_age() {
    let mut e = Explosion::new(0, 0, 100_000, 0);
    let mut out = Vec::new();
    for _ in 0..27 {
        e.update(&mut out);
    }
    assert!(e.is_alive());
    e.update(&mut out);
    assert!(!e.is_alive());
    assert_eq!(out.len(), 0);
    assert_eq!(e.get_view().collision_type, CollisionType::Ignore);
    assert_eq!(e.get_view().id, 0);
}

#[test]
fn bullet_flies_straight_from_spawn_heading() {
    let mut b = Bullet::new(12, 1, 0, 0, 0);
    assert_eq!(b.vx, 0);
    assert_eq!(b.vy, 100_000);
    let mut out = Vec::new();
    b.update(&mut out);
    let v = b.get_view();
    assert_eq!(v.x, 0);
    assert_eq!(v.y, 100_000);
    assert_eq!(v.parent, 1);
    b.execute(&PlayerInstructions::Collide, &mut out);
    assert!(!b.is_alive());
    assert_eq!(out.len(), 0);
}

#[test]
fn kamikaze_aims_once_and_accelerates() {
    let mut k = Kamikaze::new(13, 0, 0, (0, 2_000_000));
    assert_eq!(k.rotation, 0);
    let mut out = Vec::new();
    k.update(&mut out);
    assert_eq!(k.vy, 1010);
    assert_eq!(k.get_view().y, 1010);
    k.update(&mut out);
    assert_eq!(k.vy, 2020);
    assert_eq!(k.get_view().y, 3030);
}

#[test]
fn token_is_collectible_and_inert() {
    let t = Token::new(14, 1_000, 2_000);
    let v = t.get_view();
    assert_eq!(v.collision_type, CollisionType::Collect);
    assert_eq!(v.x, 1_000);
    assert_eq!(v.y, 2_000);
    let mut t2 = t.clone();
    let mut out = Vec::new();
    t2.execute(&PlayerInstructions::Collide, &mut out);
    assert_eq!(out.len(), 0);
    assert!(t2.is_alive());
}
