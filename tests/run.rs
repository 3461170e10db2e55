use shipwave::combat::{ContactOutcome, PlayerBody};
use shipwave::geometry::Vec2;
use shipwave::items::Item;
use shipwave::run::{GameState, Run};

fn played_run() -> Run {
    let mut run = Run::new();
    assert!(run.handle_start());
    run.update_ingame_time(2_500_000);
    run.handle_item_pickup(Item::Bow);
    run.record_kills(4);
    run.cooldowns.last_fired[0] = Some(2_000_000);
    run.handle_xp(60);
    run.scheduler.next_spawn = 2_800_000;
    run
}

fn assert_fresh(run: &Run) {
    assert_eq!(run.clock, 0);
    assert_eq!(run.state, GameState::Game);
    assert!(!run.paused);
    assert_eq!(run.stats.enemies_killed, 0);
    assert_eq!(run.stats.items_collected, 0);
    assert_eq!(run.inventory.items, vec![Item::Spear]);
    assert_eq!(run.cooldowns.last_fired, vec![None; 5]);
    assert_eq!((run.leveling.level, run.leveling.xp), (1, 0));
    assert_eq!(run.scheduler.next_spawn, 0);
}

#[test]
fn reset_restores_a_fresh_run() {
    let mut run = played_run();
    assert_eq!(run.stats.items_collected, 1);
    assert_eq!(run.leveling.level, 2);
    run.reset();
    assert_fresh(&run);
}

#[test]
fn reset_twice_is_reset_once() {
    let mut run = played_run();
    run.reset();
    run.reset();
    assert_fresh(&run);
}

#[test]
fn start_does_nothing_during_a_run() {
    let mut run = played_run();
    assert!(!run.handle_start());
    assert_eq!(run.clock, 2_500_000);
}

#[test]
fn pause_stops_the_clock() {
    let mut run = Run::new();
    run.update_ingame_time(1000);
    assert_eq!(run.clock, 0);
    run.handle_start();
    run.update_ingame_time(1000);
    run.handle_pause();
    run.update_ingame_time(1000);
    assert_eq!(run.clock, 1000);
    run.handle_pause();
    run.update_ingame_time(1000);
    assert_eq!(run.clock, 2000);
}

#[test]
fn a_hit_on_an_empty_inventory_ends_the_run() {
    let mut run = Run::new();
    run.handle_start();
    let mut body = PlayerBody { pos: Vec2 { x: 0, y: 0 }, velocity: Vec2 { x: 0, y: 0 }, invulnerable_for: 0 };
    let src = Vec2 { x: 10, y: 0 };
    assert_eq!(run.handle_player_collision(&mut body, src, None), ContactOutcome::ItemLost(Item::Spear));
    assert_eq!(run.state, GameState::Game);
    body.invulnerable_for = 0;
    assert_eq!(run.handle_player_collision(&mut body, src, None), ContactOutcome::GameOver);
    assert_eq!(run.state, GameState::GameOver);
    assert!(run.handle_start());
    assert_fresh(&run);
}
