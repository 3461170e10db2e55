use shipwave::behaviors::{
    advance, handle_chase_ai, handle_homing, handle_kraken_ai, handle_movement,
    handle_ranged_ai, handle_surround_ai, LinearProjectile, Shot, SurroundStep, KRAKEN_WAVES,
    SHOT_LIFETIME,
};
use shipwave::enemies::EnemyAmmo;
use shipwave::geometry::Vec2;
use shipwave::lifecycle::{handle_distance_despawn, Movement, TimedDespawn};
use shipwave::targeting::{EntityId, Target};
use shipwave::timer::RepeatingTimer;

fn v(x: i64, y: i64) -> Vec2 {
    Vec2 { x, y }
}

fn target(n: u64, x: i64, y: i64) -> Target {
    Target { id: EntityId { index: n, generation: 0 }, pos: v(x, y) }
}

#[test]
fn homing_without_targets_keeps_its_course() {
    let r = handle_homing(v(10, 10), v(5, 7), 6_000_000, 16_000, &vec![], &vec![]);
    assert_eq!(r, (v(5, 7), None));
}

#[test]
fn homing_ignores_targets_it_already_struck() {
    let t = vec![target(1, 1000, 0)];
    let r = handle_homing(v(0, 0), v(5, 7), 6_000_000, 16_000, &t, &vec![t[0].id]);
    assert_eq!(r, (v(5, 7), None));
}

#[test]
fn homing_steers_toward_the_nearest_unstruck_target() {
    let t = vec![target(1, 1000, 0), target(2, 0, 500), target(3, 0, -2000)];
    let r = handle_homing(v(0, 0), v(5, 7), 1_000_000, 1000, &t, &vec![t[1].id]);
    assert_eq!(r, (v(1005, 7), Some(v(1000, 0))));
}

#[test]
fn chase_accelerates_toward_the_player() {
    let r = handle_chase_ai(v(1000, 0), v(0, 0), v(0, 0), 75_000, 1_000_000);
    assert_eq!(r, (v(-75_000, 0), true));
    let r = handle_chase_ai(v(0, 0), v(1, 1), v(0, 3000), 75_000, 1_000_000);
    assert_eq!(r, (v(1, 75_001), false));
}

#[test]
fn chase_on_top_of_the_player_adds_nothing() {
    let r = handle_chase_ai(v(5, 5), v(9, 9), v(5, 5), 75_000, 1_000_000);
    assert_eq!(r, (v(9, 9), false));
}

#[test]
fn surround_closes_in_then_starts_circling() {
    let r = handle_surround_ai(v(1_000_000, 0), v(0, 0), 150_000, 250_000, 1_000_000);
    assert_eq!(r, SurroundStep::Approach { pos: v(850_000, 0), flip: true });
    let r = handle_surround_ai(v(0, 250_000), v(0, 0), 150_000, 250_000, 1_000_000);
    assert_eq!(r, SurroundStep::BeginOrbit);
}

#[test]
fn ranged_enemies_fire_only_while_circling() {
    let mut timer = RepeatingTimer { period: 3_000_000, elapsed: 2_900_000 };
    assert_eq!(handle_ranged_ai(&mut timer, false, v(0, 0), v(1000, 0), EnemyAmmo::Siren, 200_000), None);
    assert_eq!(timer.elapsed, 2_900_000);
    let shot = handle_ranged_ai(&mut timer, true, v(0, 0), v(1000, 0), EnemyAmmo::Siren, 200_000);
    assert_eq!(
        shot,
        Some(Shot { from: v(0, 0), velocity: v(80_000, 0), knockback: 120_000, lifetime: SHOT_LIFETIME })
    );
    assert_eq!(timer.elapsed, 100_000);
    let none = handle_ranged_ai(&mut timer, true, v(0, 0), v(1000, 0), EnemyAmmo::Wyvern, 200_000);
    assert_eq!(none, None);
}

#[test]
fn kraken_sends_a_full_ring() {
    let mut timer = RepeatingTimer::new(5_000_000);
    assert!(handle_kraken_ai(&mut timer, v(0, 0), 1_000_000).is_empty());
    timer.elapsed = 4_500_000;
    let ring = handle_kraken_ai(&mut timer, v(3, 4), 600_000);
    assert_eq!(ring.len(), KRAKEN_WAVES);
    assert_eq!(ring[0].velocity, v(100_000, 0));
    assert_eq!(ring[1].velocity, v(70_700, 70_700));
    assert_eq!(ring[4].velocity, v(-100_000, 0));
    assert_eq!(ring[6].velocity, v(0, -100_000));
    assert!(ring.iter().all(|s| s.from == v(3, 4) && s.knockback == 600_000));
}

#[test]
fn linear_projectiles_move_at_constant_velocity() {
    let mut p = LinearProjectile { pos: v(0, 0), velocity: v(100_000, -50_000) };
    p.update(500_000);
    assert_eq!(p.pos, v(50_000, -25_000));
    p.update(500_000);
    assert_eq!(p.pos, v(100_000, -50_000));
    assert_eq!(advance(v(0, 0), v(-3, 0), 100_000), v(0, 0));
}

#[test]
fn friction_slows_and_the_limit_caps() {
    let mut m = Movement { velocity: v(100_000, 0), friction: 1000, max_speed: 200_000 };
    let pos = m.update(v(0, 0), 100_000);
    assert_eq!(m.velocity, v(90_000, 0));
    assert_eq!(pos, v(9_000, 0));
    let mut m = Movement { velocity: v(300_000, 400_000), friction: 0, max_speed: 250_000 };
    let pos = m.update(v(0, 0), 1_000_000);
    assert_eq!(m.velocity, v(150_000, 200_000));
    assert_eq!(pos, v(150_000, 200_000));
}

#[test]
fn far_entities_despawn() {
    assert!(!handle_distance_despawn(v(1_024_000, 0), v(0, 0)));
    assert!(handle_distance_despawn(v(1_024_001, 0), v(0, 0)));
}

#[test]
fn timed_despawn_goes_below_zero() {
    let mut t = TimedDespawn { delay: 1_000_000 };
    assert!(!t.tick(1_000_000));
    assert!(t.tick(1));
}

#[test]
fn repeating_timer_wraps() {
    let mut t = RepeatingTimer::new(500_000);
    assert!(!t.tick(499_999));
    assert!(t.tick(1));
    assert_eq!(t.elapsed, 0);
    assert!(t.tick(1_000_000));
    assert_eq!(t.elapsed, 0);
}

#[test]
fn steering_input_accelerates_and_turns_the_ship() {
    let r = handle_movement(v(0, 0), v(-1, 0), 1_000_000);
    assert_eq!(r, (v(-300_000, 0), Some(true)));
    let r = handle_movement(v(0, 0), v(1, 1), 1_000_000);
    assert_eq!(r, (v(212_164, 212_164), Some(false)));
    let r = handle_movement(v(7, 7), v(0, 0), 1_000_000);
    assert_eq!(r, (v(7, 7), None));
}
