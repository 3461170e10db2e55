use shipwave::combat::{
    damage_enemies, handle_player_collision, orb_split, update_xp_orb, BombBehavior,
    ContactOutcome, ContactWeapon, DamageEvent, FireHazard, FireSpawn, OrbStep, PlayerBody,
    StrikeOutcome, XpOrb, INVULNERABILITY,
};
use shipwave::enemies::{spawn_hydra, spawn_serpent};
use shipwave::geometry::Vec2;
use shipwave::items::{Inventory, Item};
use shipwave::registry::Registry;
use shipwave::targeting::EntityId;

fn id(n: u64) -> EntityId {
    EntityId { index: n, generation: 0 }
}

fn v(x: i64, y: i64) -> Vec2 {
    Vec2 { x, y }
}

#[test]
fn xp_twenty_three_drops_two_big_and_three_small() {
    assert_eq!(orb_split(23), (2, 3));
}

#[test]
fn orb_split_edges() {
    assert_eq!(orb_split(0), (0, 0));
    assert_eq!(orb_split(9), (0, 9));
    assert_eq!(orb_split(10), (1, 0));
    assert_eq!(orb_split(100), (10, 0));
}

#[test]
fn pierce_two_weapon_is_spent_on_the_third_target() {
    let mut w = ContactWeapon::new(2, 2500, None);
    let outcomes: Vec<StrikeOutcome> =
        (1..=3).map(|n| w.strike(id(n), v(0, 0))).collect();
    let destroyed: Vec<bool> = outcomes
        .iter()
        .map(|o| match o {
            StrikeOutcome::Hit { destroyed, .. } => *destroyed,
            StrikeOutcome::Repeat => panic!("distinct targets"),
        })
        .collect();
    assert_eq!(destroyed, vec![false, false, true]);
    assert_eq!(w.pierce, -1);
}

#[test]
fn striking_the_same_target_twice_counts_once() {
    let mut w = ContactWeapon::new(2, 2500, None);
    let first = w.strike(id(7), v(0, 0));
    assert_eq!(
        first,
        StrikeOutcome::Hit {
            damage: DamageEvent { target: id(7), amount: 2500 },
            destroyed: false,
            fire: None
        }
    );
    assert_eq!(w.strike(id(7), v(0, 0)), StrikeOutcome::Repeat);
    assert_eq!(w.pierce, 1);
    assert_eq!(w.struck, vec![id(7)]);
}

#[test]
fn negative_pierce_never_runs_out() {
    let mut w = ContactWeapon::new(-1, 2000, None);
    for n in 0..10 {
        match w.strike(id(n), v(0, 0)) {
            StrikeOutcome::Hit { destroyed, .. } => assert!(!destroyed),
            StrikeOutcome::Repeat => panic!("distinct targets"),
        }
    }
}

#[test]
fn bomb_leaves_fire_where_it_strikes() {
    let mut w = ContactWeapon::new(0, 1500, Some(BombBehavior { damage: 500, scale_percent: 125 }));
    let out = w.strike(id(1), v(40, -8));
    assert_eq!(
        out,
        StrikeOutcome::Hit {
            damage: DamageEvent { target: id(1), amount: 1500 },
            destroyed: true,
            fire: Some(FireSpawn { pos: v(40, -8), damage: 500, scale_percent: 125 })
        }
    );
}

fn body() -> PlayerBody {
    PlayerBody { pos: v(0, 0), velocity: v(0, 0), invulnerable_for: 0 }
}

#[test]
fn last_item_is_lost_then_next_hit_ends_the_run() {
    let mut b = body();
    let mut inv = Inventory::default();
    assert_eq!(inv.items.len(), 1);
    let r = handle_player_collision(&mut b, &mut inv, v(1000, 0), None);
    assert_eq!(r, ContactOutcome::ItemLost(Item::Spear));
    assert_eq!(inv.items.len(), 0);
    assert_eq!(b.invulnerable_for, INVULNERABILITY);
    b.tick_invulnerability(INVULNERABILITY);
    assert_eq!(b.invulnerable_for, 0);
    let r = handle_player_collision(&mut b, &mut inv, v(1000, 0), None);
    assert_eq!(r, ContactOutcome::GameOver);
}

#[test]
fn invulnerable_player_ignores_contact() {
    let mut b = PlayerBody { invulnerable_for: 1, ..body() };
    let mut inv = Inventory::default();
    let r = handle_player_collision(&mut b, &mut inv, v(1000, 0), Some(320_000));
    assert_eq!(r, ContactOutcome::Ignored);
    assert_eq!(inv.items, vec![Item::Spear]);
    assert_eq!(b.velocity, v(0, 0));
}

#[test]
fn knockback_pushes_away_from_the_contact() {
    let mut b = body();
    let mut inv = Inventory { items: vec![Item::Bow, Item::Spear] };
    let r = handle_player_collision(&mut b, &mut inv, v(-1000, 0), Some(120_000));
    assert_eq!(r, ContactOutcome::ItemLost(Item::Bow));
    assert_eq!(inv.items, vec![Item::Spear]);
    assert_eq!(b.velocity, v(120_000, 0));
}

#[test]
fn damage_reduces_health_and_stops_motion() {
    let mut reg = Registry::new();
    let mut e = spawn_serpent(v(5, 5));
    e.velocity = v(300, 0);
    let a = reg.insert(e);
    let deaths = damage_enemies(&mut reg, &vec![DamageEvent { target: a, amount: 1000 }]);
    assert!(deaths.is_empty());
    let after = reg.get(a).unwrap();
    assert_eq!(after.health, 3000);
    assert_eq!(after.velocity, v(0, 0));
}

#[test]
fn health_exactly_zero_is_still_alive() {
    let mut reg = Registry::new();
    let a = reg.insert(spawn_serpent(v(0, 0)));
    let deaths = damage_enemies(&mut reg, &vec![DamageEvent { target: a, amount: 4000 }]);
    assert!(deaths.is_empty());
    assert_eq!(reg.get(a).unwrap().health, 0);
}

#[test]
fn death_drops_orbs_once_and_later_events_miss() {
    let mut reg = Registry::new();
    let a = reg.insert(spawn_serpent(v(7, 9)));
    let b = reg.insert(spawn_hydra(v(1, 1)));
    let events = vec![
        DamageEvent { target: a, amount: 4001 },
        DamageEvent { target: a, amount: 10 },
        DamageEvent { target: b, amount: 10 },
    ];
    let deaths = damage_enemies(&mut reg, &events);
    assert_eq!(deaths.len(), 1);
    assert_eq!(deaths[0].id, a);
    assert_eq!(deaths[0].pos, v(7, 9));
    assert_eq!((deaths[0].big_orbs, deaths[0].small_orbs), (0, 5));
    assert!(reg.get(a).is_none());
    assert_eq!(reg.get(b).unwrap().health, 25000 - 10);
    assert_eq!(reg.len(), 1);
}

#[test]
fn hydra_death_drops_three_big_five_small() {
    let mut reg = Registry::new();
    let a = reg.insert(spawn_hydra(v(0, 0)));
    let deaths = damage_enemies(&mut reg, &vec![DamageEvent { target: a, amount: 30000 }]);
    assert_eq!((deaths[0].big_orbs, deaths[0].small_orbs), (3, 5));
}

#[test]
fn fire_burns_whoever_stands_in_it_until_it_goes_out() {
    let mut f = FireHazard::new(500);
    f.contact_started(id(1));
    f.contact_started(id(2));
    f.contact_started(id(1));
    assert_eq!(f.contacts, vec![id(1), id(2)]);
    let t = f.tick(400_000);
    assert!(t.damage.is_empty());
    let t = f.tick(100_000);
    assert_eq!(
        t.damage,
        vec![DamageEvent { target: id(1), amount: 500 }, DamageEvent { target: id(2), amount: 500 }]
    );
    assert!(!t.expired);
    f.contact_stopped(id(1));
    assert_eq!(f.contacts, vec![id(2)]);
    let t = f.tick(1_000_000);
    assert_eq!(t.damage, vec![DamageEvent { target: id(2), amount: 500 }]);
    let t = f.tick(1_000_000);
    assert!(!t.expired);
    let t = f.tick(600_000);
    assert!(t.expired);
    assert!(!f.burning);
    let t = f.tick(1_000_000);
    assert!(t.damage.is_empty() && !t.expired);
    f.contact_started(id(3));
    assert_eq!(f.contacts, vec![id(2)]);
}

#[test]
fn far_orbs_are_left_alone() {
    let orb = XpOrb { pos: v(400_000, 0), velocity: v(3, 4), value: 10 };
    assert_eq!(update_xp_orb(&orb, v(0, 0), 16_000), OrbStep::Idle);
}

#[test]
fn orbs_in_range_are_pulled_toward_the_player() {
    let orb = XpOrb { pos: v(100_000, 0), velocity: v(0, 0), value: 1 };
    assert_eq!(update_xp_orb(&orb, v(0, 0), 100_000), OrbStep::Pulled(v(-100_000, 0)));
}

#[test]
fn close_orbs_are_collected() {
    let orb = XpOrb { pos: v(0, 30_000), velocity: v(0, 0), value: 10 };
    assert_eq!(update_xp_orb(&orb, v(0, 0), 100_000), OrbStep::Collected(10));
}
