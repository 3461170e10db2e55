use shipwave::enemies::EnemyKind;
use shipwave::items::Item;
use shipwave::spawn_table::{
    enemy_spawn_tables, even_starts, item_spawn_tables, ConfigError, SpawnTable, SpawnTableIndex,
};

const SEC: u64 = 1_000_000;

#[test]
fn every_clock_reading_finds_its_enemy_table() {
    let index = enemy_spawn_tables();
    let expected: [(u64, u32); 9] = [
        (0, 250),
        (59 * SEC + 999_999, 250),
        (60 * SEC, 300),
        (119 * SEC, 300),
        (660 * SEC, 9000),
        (899 * SEC, 2500),
        (900 * SEC, 5000),
        (1_000_000 * SEC, 5000),
        (u64::MAX, 5000),
    ];
    for (t, rate) in expected {
        assert_eq!(index.lookup(t).global_rate, rate, "at {}", t);
    }
}

#[test]
fn lookup_index_walks_every_range_in_order() {
    let index = enemy_spawn_tables();
    for i in 0..16u64 {
        assert_eq!(index.lookup_index(i * 60 * SEC), i as usize);
        assert_eq!(index.lookup_index(i * 60 * SEC + 59 * SEC), i as usize);
    }
}

#[test]
fn first_enemy_table_is_serpents_and_sirens() {
    let index = enemy_spawn_tables();
    let t = index.lookup(0);
    assert_eq!(t.kinds, vec![EnemyKind::Serpent, EnemyKind::Siren]);
    assert_eq!(t.weights, vec![2, 1]);
    let last = index.lookup(u64::MAX);
    assert_eq!(
        last.kinds,
        vec![EnemyKind::EliteSerpent, EnemyKind::Hydra, EnemyKind::Wyvern, EnemyKind::Kraken]
    );
    assert_eq!(last.weights, vec![4, 3, 2, 1]);
}

#[test]
fn item_tables_change_each_minute_then_hold() {
    let index = item_spawn_tables();
    assert_eq!(index.lookup(0).weights, vec![5, 5, 1]);
    assert_eq!(index.lookup(0).kinds, vec![Item::Spear, Item::Bow, Item::GreekFire]);
    assert_eq!(index.lookup(61 * SEC).weights, vec![10, 10, 5, 1, 1]);
    assert_eq!(index.lookup(300 * SEC).weights, vec![1, 1, 5, 5, 5]);
    assert_eq!(index.lookup(u64::MAX).weights, vec![1, 1, 5, 5, 5]);
}

#[test]
fn even_starts_are_spaced() {
    assert_eq!(even_starts(4, 60), vec![0, 60, 120, 180]);
    assert_eq!(even_starts(1, 7), vec![0]);
}

fn table(global_rate: u32, kinds: Vec<u8>, weights: Vec<u32>) -> SpawnTable<u8> {
    SpawnTable { global_rate, kinds, weights }
}

fn two_tables() -> Vec<SpawnTable<u8>> {
    vec![table(1, vec![1u8], vec![1]), table(2, vec![2u8, 3], vec![4, 0])]
}

#[test]
fn custom_index_switches_at_its_start() {
    let index = SpawnTableIndex::new(vec![0, 10], two_tables()).ok().unwrap();
    assert_eq!(index.lookup(9_999_999).global_rate, 1);
    assert_eq!(index.lookup(10 * SEC).global_rate, 2);
    assert_eq!(index.lookup(u64::MAX).global_rate, 2);
}

#[test]
fn empty_configuration_is_refused() {
    let r = SpawnTableIndex::<u8>::new(vec![], vec![]);
    assert_eq!(r.err(), Some(ConfigError::Ranges));
}

#[test]
fn configuration_not_starting_at_zero_is_refused() {
    let r = SpawnTableIndex::new(vec![5, 10], two_tables());
    assert_eq!(r.err(), Some(ConfigError::Ranges));
}

#[test]
fn configuration_with_repeated_start_is_refused() {
    let mut tables = two_tables();
    tables.push(table(3, vec![9u8], vec![1]));
    let r = SpawnTableIndex::new(vec![0, 10, 10], tables);
    assert_eq!(r.err(), Some(ConfigError::Ranges));
}

#[test]
fn configuration_with_start_at_the_end_is_refused() {
    let r = SpawnTableIndex::new(vec![0, i32::MAX], two_tables());
    assert_eq!(r.err(), Some(ConfigError::Ranges));
}

#[test]
fn configuration_with_count_mismatch_is_refused() {
    let r = SpawnTableIndex::new(vec![0], two_tables());
    assert_eq!(r.err(), Some(ConfigError::Ranges));
}

#[test]
fn all_zero_weights_are_refused() {
    let tables = vec![SpawnTable { global_rate: 1, kinds: vec![1u8, 2], weights: vec![0, 0] }];
    let r = SpawnTableIndex::new(vec![0], tables);
    assert_eq!(r.err(), Some(ConfigError::Weights));
}

#[test]
fn kinds_without_weights_are_refused() {
    let tables = vec![SpawnTable { global_rate: 1, kinds: vec![1u8, 2], weights: vec![3] }];
    let r = SpawnTableIndex::new(vec![0], tables);
    assert_eq!(r.err(), Some(ConfigError::Weights));
}

#[test]
fn empty_weight_list_is_refused() {
    let tables: Vec<SpawnTable<u8>> = vec![SpawnTable { global_rate: 1, kinds: vec![], weights: vec![] }];
    let r = SpawnTableIndex::new(vec![0], tables);
    assert_eq!(r.err(), Some(ConfigError::Weights));
}
