use shipwave::enemies::EnemyKind;
use shipwave::scheduler::SpawnScheduler;
use shipwave::spawn_table::enemy_spawn_tables;

#[test]
fn tick_spawns_every_slot_before_the_clock() {
    let index = enemy_spawn_tables();
    let mut s = SpawnScheduler::new();
    let kinds = s.tick(1_000_000, 0, 2500, &index);
    assert_eq!(kinds.len(), 3);
    assert_eq!(s.next_spawn, 1_200_000);
    for k in kinds {
        assert!(k == EnemyKind::Serpent || k == EnemyKind::Siren);
    }
}

#[test]
fn tick_with_clock_behind_next_slot_spawns_nothing() {
    let index = enemy_spawn_tables();
    let mut s = SpawnScheduler { next_spawn: 1_200_000 };
    assert!(s.tick(1_200_000, 0, 2500, &index).is_empty());
    assert_eq!(s.next_spawn, 1_200_000);
}

#[test]
fn spawns_stop_at_the_cap_but_slots_still_pass() {
    let index = enemy_spawn_tables();
    let mut s = SpawnScheduler::new();
    let kinds = s.tick(10_000_000, 2499, 2500, &index);
    assert_eq!(kinds.len(), 1);
    assert_eq!(s.next_spawn, 10_000_000);
}

#[test]
fn no_spawns_at_or_over_the_cap() {
    let index = enemy_spawn_tables();
    let mut s = SpawnScheduler::new();
    assert!(s.tick(5_000_000, 2500, 2500, &index).is_empty());
    assert_eq!(s.next_spawn, 5_200_000);
    assert!(s.tick(6_000_000, 3000, 2500, &index).is_empty());
    assert_eq!(s.next_spawn, 6_000_000);
}

#[test]
fn live_count_never_exceeds_cap_over_many_ticks() {
    let index = enemy_spawn_tables();
    let mut s = SpawnScheduler::new();
    let cap = 40;
    let mut live = 0usize;
    let mut clock = 0u64;
    for step in 0..400u64 {
        clock += 250_000;
        let spawned = s.tick(clock, live, cap, &index);
        live += spawned.len();
        assert!(live <= cap);
        if step % 7 == 0 && live > 0 {
            live -= 1;
        }
    }
}

#[test]
fn the_rate_of_the_slot_time_decides_the_gap() {
    let index = enemy_spawn_tables();
    let mut s = SpawnScheduler { next_spawn: 59_900_000 };
    let kinds = s.tick(60_000_000, 0, 2500, &index);
    assert_eq!(kinds.len(), 1);
    assert_eq!(s.next_spawn, 60_300_000);
    let kinds = s.tick(60_400_000, 0, 2500, &index);
    assert_eq!(kinds.len(), 1);
    assert_eq!(s.next_spawn, 60_300_000 + 333_333);
}

#[test]
fn reset_returns_to_the_first_slot() {
    let mut s = SpawnScheduler { next_spawn: 77 };
    s.reset();
    assert_eq!(s.next_spawn, 0);
}
