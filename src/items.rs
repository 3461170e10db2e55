//! Items, the inventory, cooldowns, and weapon triggering.
//!
//! Each tick, every kind of item the player owns fires at most once, in the
//! fixed kind order. A kind fires when a target exists, the nearest target
//! lies within attack range, and its cooldown has run out since it last
//! fired. The cooldown is the kind's base cooldown divided by the copies
//! owned and by the player's rate multiplier.

use vstd::prelude::*;
use crate::combat::DamageEvent;
use crate::geometry::{dist_sq, dist_sq_spec, in_world, Vec2};
use crate::progression::Leveling;
use crate::targeting::{
    has_nearest, is_nearest, nearest, nearest_spec, targets_in_world, EntityId, Target,
};

verus! {

/// The kinds of item; each grants its own weapon.
#[derive(Clone, Copy, Debug, PartialEq, Eq, Structural, Hash)]
pub enum Item {
    Spear,
    Bow,
    GreekFire,
    PoseidonTrident,
    ZeusThunderbolt,
}

/// The image of an item's pickup and inventory icon.
pub open spec fn sprite_path(item: Item) -> Seq<char> {
    match item {
        Item::Spear => "sprites/items/spear.png"@,
        Item::Bow => "sprites/items/bow.png"@,
        Item::GreekFire => "sprites/items/greek_fire.png"@,
        Item::PoseidonTrident => "sprites/items/poseidon_trident.png"@,
        Item::ZeusThunderbolt => "sprites/items/zeus_thunderbolt.png"@,
    }
}

/// The image of an item's pickup and inventory icon.
pub fn get_item_sprite(item: &Item) -> (r: &'static str)
    ensures
        r@ == sprite_path(*item),
{
    match item {
        Item::Spear => "sprites/items/spear.png",
        Item::Bow => "sprites/items/bow.png",
        Item::GreekFire => "sprites/items/greek_fire.png",
        Item::PoseidonTrident => "sprites/items/poseidon_trident.png",
        Item::ZeusThunderbolt => "sprites/items/zeus_thunderbolt.png",
    }
}

/// How many items the inventory holds at most.
pub const INVENTORY_SIZE: usize = 3;

/// How many kinds of item there are.
pub const ITEM_KINDS: usize = 5;

/// Targets farther than this from the player are out of reach.
pub const ATTACK_RANGE: i64 = 400_000;

/// The highest level for which weapon damage is computed.
pub const MAX_LEVEL: u64 = 0x1_0000_0000;

/// The highest rate multiplier, in percent, that a cooldown accepts.
pub const MAX_RATE_PERCENT: u64 = 0x100_0000_0000;

/// The position of a kind in the fixed kind order.
pub open spec fn item_slot(item: Item) -> int {
    match item {
        Item::Spear => 0,
        Item::Bow => 1,
        Item::GreekFire => 2,
        Item::PoseidonTrident => 3,
        Item::ZeusThunderbolt => 4,
    }
}

/// The kind at a position of the fixed kind order.
pub open spec fn item_at(slot: int) -> Item {
    if slot == 0 {
        Item::Spear
    } else if slot == 1 {
        Item::Bow
    } else if slot == 2 {
        Item::GreekFire
    } else if slot == 3 {
        Item::PoseidonTrident
    } else {
        Item::ZeusThunderbolt
    }
}

/// How many copies of `item` a sequence holds.
pub open spec fn count_of(s: Seq<Item>, item: Item) -> nat
    decreases s.len(),
{
    if s.len() == 0 {
        0
    } else {
        count_of(s.drop_last(), item) + if s.last() == item {
            1nat
        } else {
            0
        }
    }
}

/// The position of `item` in the fixed kind order.
pub fn slot_of(item: Item) -> (r: usize)
    ensures
        r == item_slot(item),
        r < ITEM_KINDS,
{
    match item {
        Item::Spear => 0,
        Item::Bow => 1,
        Item::GreekFire => 2,
        Item::PoseidonTrident => 3,
        Item::ZeusThunderbolt => 4,
    }
}

fn item_of_slot(slot: usize) -> (r: Item)
    requires
        slot < ITEM_KINDS,
    ensures
        r == item_at(slot as int),
        item_slot(r) == slot,
{
    if slot == 0 {
        Item::Spear
    } else if slot == 1 {
        Item::Bow
    } else if slot == 2 {
        Item::GreekFire
    } else if slot == 3 {
        Item::PoseidonTrident
    } else {
        Item::ZeusThunderbolt
    }
}

/// The owned items, oldest first.
pub struct Inventory {
    pub items: Vec<Item>,
}

impl Inventory {
    /// No more than `INVENTORY_SIZE` items.
    pub open spec fn wf(&self) -> bool {
        self.items.len() <= INVENTORY_SIZE
    }

    /// The inventory a run starts with: one spear.
    pub fn default() -> (r: Self)
        ensures
            r.wf(),
            r.items@ == seq![Item::Spear],
    {
        Inventory { items: vec![Item::Spear] }
    }

    /// Adds a picked-up item at the back; when that overfills the
    /// inventory, the oldest item is dropped.
    pub fn pickup(&mut self, item: Item)
        requires
            old(self).wf(),
        ensures
            final(self).wf(),
            final(self).items@ == if old(self).items.len() < INVENTORY_SIZE {
                old(self).items@.push(item)
            } else {
                old(self).items@.push(item).subrange(1, old(self).items.len() + 1)
            },
    {
        self.items.push(item);
        if self.items.len() > INVENTORY_SIZE {
            self.items.remove(0);
        }
    }

    /// Removes and returns the oldest item, if any.
    pub fn lose_oldest(&mut self) -> (r: Option<Item>)
        requires
            old(self).wf(),
        ensures
            final(self).wf(),
            old(self).items.len() == 0 ==> r == None::<Item> && final(self).items@ == old(
                self,
            ).items@,
            old(self).items.len() > 0 ==> r == Some(old(self).items@[0]) && final(self).items@
                == old(self).items@.subrange(1, old(self).items.len() as int),
    {
        if self.items.len() == 0 {
            None
        } else {
            Some(self.items.remove(0))
        }
    }

    /// How many copies of `item` are owned.
    pub fn count(&self, item: Item) -> (r: u64)
        requires
            self.wf(),
        ensures
            r == count_of(self.items@, item),
            r <= INVENTORY_SIZE,
    {
        let mut n: u64 = 0;
        let mut i: usize = 0;
        while i < self.items.len()
            invariant
                i <= self.items.len() <= INVENTORY_SIZE,
                n == count_of(self.items@.subrange(0, i as int), item),
                n <= i,
            decreases self.items.len() - i,
        {
            assert(self.items@.subrange(0, i + 1).drop_last() == self.items@.subrange(0, i as int));
            if self.items[i] == item {
                n = n + 1;
            }
            i = i + 1;
        }
        assert(self.items@.subrange(0, self.items.len() as int) == self.items@);
        n
    }
}

/// When each kind of item last fired, in the fixed kind order; a kind that
/// has not fired counts as having fired at time zero.
pub struct ItemCooldowns {
    pub last_fired: Vec<Option<u64>>,
}

/// The reading at which `item` last fired, with zero for never.
pub open spec fn last_fired_at(cds: Seq<Option<u64>>, item: Item) -> int {
    match cds[item_slot(item)] {
        Some(t) => t as int,
        None => 0,
    }
}

impl ItemCooldowns {
    /// One entry per kind.
    pub open spec fn wf(&self) -> bool {
        self.last_fired.len() == ITEM_KINDS
    }

    /// No kind has fired.
    pub fn new() -> (r: Self)
        ensures
            r.wf(),
            forall|i: int| 0 <= i < ITEM_KINDS ==> #[trigger] r.last_fired@[i] == None::<u64>,
    {
        ItemCooldowns { last_fired: vec![None, None, None, None, None] }
    }

    /// Forgets every firing.
    pub fn reset(&mut self)
        ensures
            final(self).wf(),
            forall|i: int|
                0 <= i < ITEM_KINDS ==> #[trigger] final(self).last_fired@[i] == None::<u64>,
    {
        *self = ItemCooldowns::new();
    }

    /// When `item` last fired, zero for never.
    pub fn last_fired(&self, item: Item) -> (r: u64)
        requires
            self.wf(),
        ensures
            r == last_fired_at(self.last_fired@, item),
    {
        match self.last_fired[slot_of(item)] {
            Some(t) => t,
            None => 0,
        }
    }
}

/// The base cooldown of a kind, in microseconds.
pub open spec fn base_cooldown(item: Item) -> int {
    match item {
        Item::Spear => 1_000_000,
        Item::Bow => 150_000,
        Item::GreekFire => 1_500_000,
        Item::PoseidonTrident => 1_250_000,
        Item::ZeusThunderbolt => 750_000,
    }
}

/// The cooldown of a kind with `count` copies owned and a rate multiplier
/// of `rate_percent` percent.
pub open spec fn cooldown_spec(item: Item, count: int, rate_percent: int) -> int {
    base_cooldown(item) * 100 / (count * rate_percent)
}

/// The cooldown of a kind with `count` copies owned and a rate multiplier
/// of `rate_percent` percent, in microseconds.
pub fn item_cooldown(item: Item, count: u64, rate_percent: u64) -> (r: u64)
    requires
        1 <= count <= INVENTORY_SIZE,
        100 <= rate_percent <= MAX_RATE_PERCENT,
    ensures
        r == cooldown_spec(item, count as int, rate_percent as int),
{
    let base: u64 = match item {
        Item::Spear => 1_000_000,
        Item::Bow => 150_000,
        Item::GreekFire => 1_500_000,
        Item::PoseidonTrident => 1_250_000,
        Item::ZeusThunderbolt => 750_000,
    };
    assert(count * rate_percent <= 3 * MAX_RATE_PERCENT && count * rate_percent >= 1) by (nonlinear_arith)
        requires
            1 <= count <= 3,
            100 <= rate_percent <= MAX_RATE_PERCENT,
    ;
    base * 100 / (count * rate_percent)
}

/// One weapon discharge for the outside world to carry out. Damage is in
/// hundredths of a hit point.
#[derive(Clone, Copy, Debug, PartialEq, Eq, Structural)]
pub enum WeaponFire {
    /// A piercing spear thrown from `from` toward `aim`.
    Spear { from: Vec2, aim: Vec2, pierce: u64, damage: i64 },
    /// A spray of `count` arrows from `from` around the direction of `aim`.
    Arrows { from: Vec2, aim: Vec2, count: u64, damage: i64 },
    /// A fire bomb lobbed toward `aim`, leaving a fire of `fire_damage` per
    /// burn, scaled to `scale_percent` percent.
    Bomb { from: Vec2, aim: Vec2, damage: i64, fire_damage: i64, scale_percent: u64 },
    /// A homing trident launched toward `aim`.
    Trident { from: Vec2, aim: Vec2, pierce: u64, damage: i64 },
    /// A thunderbolt striking `target` where it stands.
    Bolt { target: EntityId, pos: Vec2, damage: i64 },
}

/// What the weapons did in one tick.
pub struct TriggerOutput {
    pub fires: Vec<WeaponFire>,
    pub damage: Vec<DamageEvent>,
}

/// `p` is within attack range of the player at `player`.
pub open spec fn in_range(p: Vec2, player: Vec2) -> bool {
    dist_sq_spec(p, player) <= ATTACK_RANGE as int * ATTACK_RANGE as int
}

/// The targets a thunderbolt strikes with `k` strikes: each time the
/// nearest target not yet struck, while it lies within range.
pub open spec fn bolt_picks(targets: Seq<Target>, player: Vec2, k: nat) -> Seq<int>
    decreases k,
{
    if k == 0 {
        Seq::empty()
    } else {
        let prev = bolt_picks(targets, player, (k - 1) as nat);
        let struck = prev.map_values(|i: int| targets[i].id);
        if has_nearest(targets, struck, player) && in_range(
            targets[nearest_spec(targets, struck, player)].pos,
            player,
        ) {
            prev.push(nearest_spec(targets, struck, player))
        } else {
            prev
        }
    }
}

/// Whether a kind fires this tick.
pub open spec fn kind_fires(
    inv: Seq<Item>,
    cds: Seq<Option<u64>>,
    elapsed: int,
    player: Vec2,
    lev: Leveling,
    targets: Seq<Target>,
    item: Item,
) -> bool {
    let count = count_of(inv, item);
    &&& count > 0
    &&& has_nearest(targets, Seq::empty(), player)
    &&& in_range(targets[nearest_spec(targets, Seq::empty(), player)].pos, player)
    &&& elapsed >= last_fired_at(cds, item) + cooldown_spec(
        item,
        count as int,
        lev.rate_percent_spec(),
    )
}

/// How many strikes a thunderbolt, or arrows a bow, gets.
pub open spec fn volley(count: int, lev: Leveling) -> int {
    count * (lev.pierce + 1)
}

/// The discharges of a kind that fires.
pub open spec fn fire_of(
    inv: Seq<Item>,
    player: Vec2,
    lev: Leveling,
    targets: Seq<Target>,
    item: Item,
) -> Seq<WeaponFire> {
    let aim = targets[nearest_spec(targets, Seq::empty(), player)].pos;
    let dmg = lev.damage_percent_spec();
    let count = count_of(inv, item) as int;
    match item {
        Item::Spear => seq![
            WeaponFire::Spear {
                from: player,
                aim,
                pierce: (2 + lev.pierce) as u64,
                damage: (25 * dmg) as i64,
            },
        ],
        Item::Bow => seq![
            WeaponFire::Arrows {
                from: player,
                aim,
                count: volley(count, lev) as u64,
                damage: (5 * dmg) as i64,
            },
        ],
        Item::GreekFire => seq![
            WeaponFire::Bomb {
                from: player,
                aim,
                damage: (15 * dmg) as i64,
                fire_damage: (5 * dmg) as i64,
                scale_percent: (100 + 25 * lev.pierce) as u64,
            },
        ],
        Item::PoseidonTrident => seq![
            WeaponFire::Trident {
                from: player,
                aim,
                pierce: (5 + lev.pierce) as u64,
                damage: (25 * dmg) as i64,
            },
        ],
        Item::ZeusThunderbolt => bolt_picks(targets, player, volley(count, lev) as nat).map_values(
            |i: int|
                WeaponFire::Bolt {
                    target: targets[i].id,
                    pos: targets[i].pos,
                    damage: (100 * dmg) as i64,
                },
        ),
    }
}

/// The damage events of a kind that fires.
pub open spec fn damage_of(
    inv: Seq<Item>,
    player: Vec2,
    lev: Leveling,
    targets: Seq<Target>,
    item: Item,
) -> Seq<DamageEvent> {
    let dmg = lev.damage_percent_spec();
    let count = count_of(inv, item) as int;
    match item {
        Item::ZeusThunderbolt => bolt_picks(targets, player, volley(count, lev) as nat).map_values(
            |i: int| DamageEvent { target: targets[i].id, amount: (100 * dmg) as i64 },
        ),
        _ => Seq::empty(),
    }
}

/// The discharges of the first `k` kinds in kind order.
pub open spec fn fires_upto(
    inv: Seq<Item>,
    cds: Seq<Option<u64>>,
    elapsed: int,
    player: Vec2,
    lev: Leveling,
    targets: Seq<Target>,
    k: nat,
) -> Seq<WeaponFire>
    decreases k,
{
    if k == 0 {
        Seq::empty()
    } else {
        let prev = fires_upto(inv, cds, elapsed, player, lev, targets, (k - 1) as nat);
        if kind_fires(inv, cds, elapsed, player, lev, targets, item_at(k - 1)) {
            prev + fire_of(inv, player, lev, targets, item_at(k - 1))
        } else {
            prev
        }
    }
}

/// The damage events of the first `k` kinds in kind order.
pub open spec fn damage_upto(
    inv: Seq<Item>,
    cds: Seq<Option<u64>>,
    elapsed: int,
    player: Vec2,
    lev: Leveling,
    targets: Seq<Target>,
    k: nat,
) -> Seq<DamageEvent>
    decreases k,
{
    if k == 0 {
        Seq::empty()
    } else {
        let prev = damage_upto(inv, cds, elapsed, player, lev, targets, (k - 1) as nat);
        if kind_fires(inv, cds, elapsed, player, lev, targets, item_at(k - 1)) {
            prev + damage_of(inv, player, lev, targets, item_at(k - 1))
        } else {
            prev
        }
    }
}

proof fn lemma_bolt_picks_stay(targets: Seq<Target>, player: Vec2, j: nat, m: nat)
    requires
        j <= m,
        !(has_nearest(
            targets,
            bolt_picks(targets, player, j).map_values(|i: int| targets[i].id),
            player,
        ) && in_range(
            targets[nearest_spec(
                targets,
                bolt_picks(targets, player, j).map_values(|i: int| targets[i].id),
                player,
            )].pos,
            player,
        )),
    ensures
        bolt_picks(targets, player, m) == bolt_picks(targets, player, j),
    decreases m - j,
{
    if j < m {
        lemma_bolt_picks_stay(targets, player, j, (m - 1) as nat);
    }
}

/// Strikes up to `k` of the nearest targets within range, nearest first.
fn bolt_volley(
    targets: &Vec<Target>,
    player: Vec2,
    k: u64,
    damage: i64,
    fires: &mut Vec<WeaponFire>,
    events: &mut Vec<DamageEvent>,
)
    requires
        in_world(player),
        targets_in_world(targets@),
    ensures
        final(fires)@ == old(fires)@ + bolt_picks(targets@, player, k as nat).map_values(
            |i: int| WeaponFire::Bolt { target: targets@[i].id, pos: targets@[i].pos, damage },
        ),
        final(events)@ == old(events)@ + bolt_picks(targets@, player, k as nat).map_values(
            |i: int| DamageEvent { target: targets@[i].id, amount: damage },
        ),
{
    let ghost f0 = fires@;
    let ghost e0 = events@;
    let mut struck: Vec<EntityId> = Vec::new();
    let mut j: u64 = 0;
    while j < k
        invariant
            j <= k,
            in_world(player),
            targets_in_world(targets@),
            struck@ == bolt_picks(targets@, player, j as nat).map_values(|i: int| targets@[i].id),
            fires@ == f0 + bolt_picks(targets@, player, j as nat).map_values(
                |i: int| WeaponFire::Bolt { target: targets@[i].id, pos: targets@[i].pos, damage },
            ),
            events@ == e0 + bolt_picks(targets@, player, j as nat).map_values(
                |i: int| DamageEvent { target: targets@[i].id, amount: damage },
            ),
        decreases k - j,
    {
        let ghost picks = bolt_picks(targets@, player, j as nat);
        match nearest(targets, &struck, player) {
            None => {
                proof {
                    if has_nearest(targets@, struck@, player) {
                        let w = choose|i: int| is_nearest(targets@, struck@, player, i);
                        assert(crate::targeting::eligible(targets@, struck@, w));
                    }
                    assert(!has_nearest(targets@, struck@, player));
                    assert(struck@ == picks.map_values(|i: int| targets@[i].id));
                    lemma_bolt_picks_stay(targets@, player, j as nat, k as nat);
                    assert(bolt_picks(targets@, player, k as nat) == picks);
                }
                j = k;
            },
            Some(n) => {
                proof {
                    crate::targeting::lemma_nearest_unique(
                        targets@,
                        struck@,
                        player,
                        n as int,
                        nearest_spec(targets@, struck@, player),
                    );
                }
                let t = targets[n];
                if dist_sq(t.pos, player) > (ATTACK_RANGE as u128) * (ATTACK_RANGE as u128) {
                    proof {
                        lemma_bolt_picks_stay(targets@, player, j as nat, k as nat);
                    }
                    j = k;
                } else {
                    struck.push(t.id);
                    fires.push(WeaponFire::Bolt { target: t.id, pos: t.pos, damage });
                    events.push(DamageEvent { target: t.id, amount: damage });
                    proof {
                        let next = bolt_picks(targets@, player, (j + 1) as nat);
                        assert(next == picks.push(n as int));
                        assert(struck@ =~= next.map_values(|i: int| targets@[i].id));
                        assert(fires@ =~= f0 + next.map_values(
                            |i: int| WeaponFire::Bolt { target: targets@[i].id, pos: targets@[i].pos, damage },
                        ));
                        assert(events@ =~= e0 + next.map_values(
                            |i: int| DamageEvent { target: targets@[i].id, amount: damage },
                        ));
                    }
                    j = j + 1;
                }
            },
        }
    }
}

/// Fires every owned kind of item that is ready, in kind order, and
/// records the firings. `elapsed` is the clock reading in microseconds.
pub fn trigger_weapons(
    inventory: &Inventory,
    cooldowns: &mut ItemCooldowns,
    elapsed: u64,
    player: Vec2,
    leveling: &Leveling,
    targets: &Vec<Target>,
) -> (r: TriggerOutput)
    requires
        inventory.wf(),
        old(cooldowns).wf(),
        leveling.wf(),
        leveling.level <= MAX_LEVEL,
        in_world(player),
        targets_in_world(targets@),
    ensures
        final(cooldowns).wf(),
        forall|item: Item|
            #[trigger] final(cooldowns).last_fired@[item_slot(item)] == if kind_fires(
                inventory.items@,
                old(cooldowns).last_fired@,
                elapsed as int,
                player,
                *leveling,
                targets@,
                item,
            ) {
                Some(elapsed)
            } else {
                old(cooldowns).last_fired@[item_slot(item)]
            },
        r.fires@ == fires_upto(
            inventory.items@,
            old(cooldowns).last_fired@,
            elapsed as int,
            player,
            *leveling,
            targets@,
            ITEM_KINDS as nat,
        ),
        r.damage@ == damage_upto(
            inventory.items@,
            old(cooldowns).last_fired@,
            elapsed as int,
            player,
            *leveling,
            targets@,
            ITEM_KINDS as nat,
        ),
{
    let ghost inv = inventory.items@;
    let ghost cds = cooldowns.last_fired@;
    let ghost lev = *leveling;
    let no_one: Vec<EntityId> = Vec::new();
    assert(no_one@ =~= Seq::<EntityId>::empty());
    let near = nearest(targets, &no_one, player);
    proof {
        if let Some(n) = near {
            crate::targeting::lemma_nearest_unique(
                targets@,
                Seq::empty(),
                player,
                n as int,
                nearest_spec(targets@, Seq::empty(), player),
            );
        }
    }
    let rate = leveling.rate_percent();
    let dmg = leveling.damage_percent();
    let buff = leveling.pierce;
    let mut fires: Vec<WeaponFire> = Vec::new();
    let mut events: Vec<DamageEvent> = Vec::new();
    let mut k: usize = 0;
    while k < ITEM_KINDS
        invariant
            k <= ITEM_KINDS,
            inventory.wf(),
            leveling.wf(),
            leveling.level <= MAX_LEVEL,
            *leveling == lev,
            inventory.items@ == inv,
            in_world(player),
            targets_in_world(targets@),
            cooldowns.wf(),
            rate == lev.rate_percent_spec(),
            dmg == lev.damage_percent_spec(),
            buff == lev.pierce,
            match near {
                Some(n) => has_nearest(targets@, Seq::empty(), player) && n == nearest_spec(
                    targets@,
                    Seq::empty(),
                    player,
                ) && n < targets.len(),
                None => !has_nearest(targets@, Seq::empty(), player),
            },
            forall|s: int|
                0 <= s < ITEM_KINDS ==> #[trigger] cooldowns.last_fired@[s] == if s < k
                    && kind_fires(inv, cds, elapsed as int, player, lev, targets@, item_at(s)) {
                    Some(elapsed)
                } else {
                    cds[s]
                },
            fires@ == fires_upto(inv, cds, elapsed as int, player, lev, targets@, k as nat),
            events@ == damage_upto(inv, cds, elapsed as int, player, lev, targets@, k as nat),
        decreases ITEM_KINDS - k,
    {
        let item = item_of_slot(k);
        let count = inventory.count(item);
        let ghost fires_now = kind_fires(inv, cds, elapsed as int, player, lev, targets@, item);
        let mut fired = false;
        if count > 0 {
            if let Some(n) = near {
                let aim = targets[n].pos;
                if dist_sq(aim, player) <= (ATTACK_RANGE as u128) * (ATTACK_RANGE as u128) {
                    let last = cooldowns.last_fired(item);
                    assert(100 <= rate <= MAX_RATE_PERCENT) by (nonlinear_arith)
                        requires
                            rate == 100 + 10 * lev.rate_bonuses,
                            lev.rate_bonuses <= lev.level - 1,
                            lev.level <= MAX_LEVEL,
                    ;
                    let cd = item_cooldown(item, count, rate);
                    if (elapsed as u128) >= (last as u128) + (cd as u128) {
                        fired = true;
                        cooldowns.last_fired.set(k, Some(elapsed));
                        assert(25 * dmg <= i64::MAX && buff <= MAX_LEVEL && count * (buff + 1) <= 3 * (MAX_LEVEL + 1)) by (nonlinear_arith)
                            requires
                                count <= 3,
                                dmg == 100 + 10 * lev.damage_bonuses,
                                lev.damage_bonuses <= lev.level - 1,
                                buff <= lev.level - 1,
                                lev.level <= MAX_LEVEL,
                        ;
                        match item {
                            Item::Spear => {
                                fires.push(
                                    WeaponFire::Spear {
                                        from: player,
                                        aim,
                                        pierce: 2 + buff,
                                        damage: (25 * dmg) as i64,
                                    },
                                );
                            },
                            Item::Bow => {
                                fires.push(
                                    WeaponFire::Arrows {
                                        from: player,
                                        aim,
                                        count: count * (buff + 1),
                                        damage: (5 * dmg) as i64,
                                    },
                                );
                            },
                            Item::GreekFire => {
                                fires.push(
                                    WeaponFire::Bomb {
                                        from: player,
                                        aim,
                                        damage: (15 * dmg) as i64,
                                        fire_damage: (5 * dmg) as i64,
                                        scale_percent: 100 + 25 * buff,
                                    },
                                );
                            },
                            Item::PoseidonTrident => {
                                fires.push(
                                    WeaponFire::Trident {
                                        from: player,
                                        aim,
                                        pierce: 5 + buff,
                                        damage: (25 * dmg) as i64,
                                    },
                                );
                            },
                            Item::ZeusThunderbolt => {
                                assert(100 * dmg <= i64::MAX) by (nonlinear_arith)
                                    requires
                                        dmg == 100 + 10 * lev.damage_bonuses,
                                        lev.damage_bonuses <= lev.level - 1,
                                        lev.level <= MAX_LEVEL,
                                ;
                                bolt_volley(
                                    targets,
                                    player,
                                    count * (buff + 1),
                                    (100 * dmg) as i64,
                                    &mut fires,
                                    &mut events,
                                );
                            },
                        }
                    }
                }
            }
        }
        proof {
            assert(fired == fires_now);
            if fired {
                assert(fires@ =~= fires_upto(inv, cds, elapsed as int, player, lev, targets@, k as nat) + fire_of(inv, player, lev, targets@, item));
                assert(events@ =~= damage_upto(inv, cds, elapsed as int, player, lev, targets@, k as nat) + damage_of(inv, player, lev, targets@, item));
            } else {
                assert(fires@ =~= fires_upto(inv, cds, elapsed as int, player, lev, targets@, (k + 1) as nat));
            }
        }
        k = k + 1;
    }
    proof {
        assert forall|item: Item| #[trigger] cooldowns.last_fired@[item_slot(item)] == if kind_fires(inv, cds, elapsed as int, player, lev, targets@, item) {
            Some(elapsed)
        } else {
            cds[item_slot(item)]
        } by {
            assert(item_at(item_slot(item)) == item);
        }
    }
    TriggerOutput { fires, damage: events }
}

} // verus!
