use shipwave::combat::DamageEvent;
use shipwave::geometry::Vec2;
use shipwave::items::{
    get_item_sprite, item_cooldown, slot_of, trigger_weapons, Inventory, Item, ItemCooldowns,
    WeaponFire,
};
use shipwave::progression::Leveling;
use shipwave::targeting::{EntityId, Target};

fn target(n: u64, x: i64, y: i64) -> Target {
    Target { id: EntityId { index: n, generation: 0 }, pos: Vec2 { x, y } }
}

const ORIGIN: Vec2 = Vec2 { x: 0, y: 0 };

#[test]
fn inventory_starts_with_a_spear() {
    assert_eq!(Inventory::default().items, vec![Item::Spear]);
}

#[test]
fn a_fourth_pickup_drops_the_oldest() {
    let mut inv = Inventory::default();
    inv.pickup(Item::Bow);
    inv.pickup(Item::GreekFire);
    assert_eq!(inv.items, vec![Item::Spear, Item::Bow, Item::GreekFire]);
    inv.pickup(Item::Bow);
    assert_eq!(inv.items, vec![Item::Bow, Item::GreekFire, Item::Bow]);
    assert_eq!(inv.count(Item::Bow), 2);
    assert_eq!(inv.count(Item::Spear), 0);
}

#[test]
fn losing_takes_the_oldest() {
    let mut inv = Inventory { items: vec![Item::Bow, Item::Spear] };
    assert_eq!(inv.lose_oldest(), Some(Item::Bow));
    assert_eq!(inv.lose_oldest(), Some(Item::Spear));
    assert_eq!(inv.lose_oldest(), None);
}

#[test]
fn cooldown_divides_by_copies_and_rate() {
    assert_eq!(item_cooldown(Item::Spear, 1, 100), 1_000_000);
    assert_eq!(item_cooldown(Item::Spear, 2, 100), 500_000);
    assert_eq!(item_cooldown(Item::GreekFire, 3, 150), 333_333);
    assert_eq!(item_cooldown(Item::Bow, 1, 110), 136_363);
}

#[test]
fn a_ready_spear_fires_at_the_nearest_enemy() {
    let inv = Inventory::default();
    let mut cds = ItemCooldowns::new();
    let lev = Leveling::default();
    let targets = vec![target(1, 300_000, 0), target(2, 100_000, 0)];
    let out = trigger_weapons(&inv, &mut cds, 1_000_000, ORIGIN, &lev, &targets);
    assert_eq!(
        out.fires,
        vec![WeaponFire::Spear {
            from: ORIGIN,
            aim: Vec2 { x: 100_000, y: 0 },
            pierce: 2,
            damage: 2500
        }]
    );
    assert!(out.damage.is_empty());
    assert_eq!(cds.last_fired[slot_of(Item::Spear)], Some(1_000_000));
    let again = trigger_weapons(&inv, &mut cds, 1_500_000, ORIGIN, &lev, &targets);
    assert!(again.fires.is_empty());
    let later = trigger_weapons(&inv, &mut cds, 2_000_000, ORIGIN, &lev, &targets);
    assert_eq!(later.fires.len(), 1);
}

#[test]
fn nothing_fires_before_the_first_cooldown() {
    let inv = Inventory::default();
    let mut cds = ItemCooldowns::new();
    let lev = Leveling::default();
    let out = trigger_weapons(&inv, &mut cds, 999_999, ORIGIN, &lev, &vec![target(1, 10, 0)]);
    assert!(out.fires.is_empty());
    assert_eq!(cds.last_fired, vec![None; 5]);
}

#[test]
fn nothing_fires_without_a_target_in_range() {
    let inv = Inventory::default();
    let mut cds = ItemCooldowns::new();
    let lev = Leveling::default();
    let out = trigger_weapons(&inv, &mut cds, 5_000_000, ORIGIN, &lev, &vec![]);
    assert!(out.fires.is_empty());
    let out = trigger_weapons(&inv, &mut cds, 5_000_000, ORIGIN, &lev, &vec![target(1, 400_001, 0)]);
    assert!(out.fires.is_empty());
    let out = trigger_weapons(&inv, &mut cds, 5_000_000, ORIGIN, &lev, &vec![target(1, 400_000, 0)]);
    assert_eq!(out.fires.len(), 1);
}

#[test]
fn thunderbolts_strike_the_nearest_in_range() {
    let inv = Inventory { items: vec![Item::ZeusThunderbolt, Item::ZeusThunderbolt] };
    let mut cds = ItemCooldowns::new();
    let lev = Leveling::default();
    let targets = vec![target(1, 500_000, 0), target(2, 0, 100_000), target(3, 50_000, 0), target(4, 0, -60_000)];
    let out = trigger_weapons(&inv, &mut cds, 375_000, ORIGIN, &lev, &targets);
    assert_eq!(
        out.damage,
        vec![
            DamageEvent { target: targets[2].id, amount: 10_000 },
            DamageEvent { target: targets[3].id, amount: 10_000 }
        ]
    );
    assert_eq!(out.fires.len(), 2);
    assert_eq!(out.fires[0], WeaponFire::Bolt { target: targets[2].id, pos: targets[2].pos, damage: 10_000 });
}

#[test]
fn thunderbolts_skip_targets_out_of_range() {
    let inv = Inventory { items: vec![Item::ZeusThunderbolt, Item::ZeusThunderbolt, Item::ZeusThunderbolt] };
    let mut cds = ItemCooldowns::new();
    let lev = Leveling::default();
    let targets = vec![target(1, 500_000, 0), target(2, 50_000, 0)];
    let out = trigger_weapons(&inv, &mut cds, 1_000_000, ORIGIN, &lev, &targets);
    assert_eq!(out.damage, vec![DamageEvent { target: targets[1].id, amount: 10_000 }]);
}

#[test]
fn kinds_fire_in_order_with_their_bonuses() {
    let inv = Inventory { items: vec![Item::GreekFire, Item::Bow, Item::PoseidonTrident] };
    let mut cds = ItemCooldowns::new();
    let lev = Leveling { level: 11, xp: 0, pierce: 1, rate_bonuses: 2, damage_bonuses: 7 };
    let t = vec![target(1, 0, 20_000)];
    let out = trigger_weapons(&inv, &mut cds, 10_000_000, ORIGIN, &lev, &t);
    let aim = Vec2 { x: 0, y: 20_000 };
    assert_eq!(
        out.fires,
        vec![
            WeaponFire::Arrows { from: ORIGIN, aim, count: 2, damage: 5 * 170 },
            WeaponFire::Bomb { from: ORIGIN, aim, damage: 15 * 170, fire_damage: 5 * 170, scale_percent: 125 },
            WeaponFire::Trident { from: ORIGIN, aim, pierce: 6, damage: 25 * 170 },
        ]
    );
}

#[test]
fn cooldowns_reset_to_never() {
    let mut cds = ItemCooldowns { last_fired: vec![Some(5), None, Some(9), None, Some(1)] };
    cds.reset();
    assert_eq!(cds.last_fired, vec![None; 5]);
    assert_eq!(cds.last_fired(Item::Spear), 0);
}

#[test]
fn item_sprites() {
    assert_eq!(get_item_sprite(&Item::Spear), "sprites/items/spear.png");
    assert_eq!(get_item_sprite(&Item::ZeusThunderbolt), "sprites/items/zeus_thunderbolt.png");
}
