//! Damage, deaths, experience orbs, and contact with the player.
//!
//! Health and damage are in hundredths of a hit point.

use vstd::prelude::*;
use crate::enemies::Enemy;
use crate::geometry::{add_clamped, clamp_coord, in_world, toward, toward_spec, Vec2, MAX_MAGNITUDE};
use crate::items::{Inventory, Item};
use crate::registry::Registry;
use crate::targeting::EntityId;
use crate::timer::{RepeatingTimer, MAX_TICK};

verus! {

/// Damage to apply to one entity in the resolution pass of a tick.
#[derive(Clone, Copy, Debug, PartialEq, Eq, Structural)]
pub struct DamageEvent {
    pub target: EntityId,
    pub amount: i64,
}

/// The value of a big experience orb.
pub const BIG_ORB: u64 = 10;

/// The value of a small experience orb.
pub const SMALL_ORB: u64 = 1;

/// Splits experience into big and small orbs: as many big ones as fit, and
/// small ones for the rest.
pub fn orb_split(xp: u64) -> (r: (u64, u64))
    ensures
        r.0 == xp / BIG_ORB,
        r.1 == xp / SMALL_ORB - r.0 * BIG_ORB,
        r.0 * BIG_ORB + r.1 * SMALL_ORB == xp,
{
    let big = xp / BIG_ORB;
    let small = xp / SMALL_ORB - big * BIG_ORB;
    (big, small)
}

/// An enemy that died in the resolution pass, with what it drops.
#[derive(Clone, Copy, Debug, PartialEq, Eq, Structural)]
pub struct Death {
    pub id: EntityId,
    pub pos: Vec2,
    pub big_orbs: u64,
    pub small_orbs: u64,
}

/// The largest damage one event may carry.
pub const MAX_DAMAGE: i64 = 0x1_0000_0000_0000;

/// Every live enemy has non-negative health.
pub open spec fn enemies_healthy(m: Map<EntityId, Enemy>) -> bool {
    forall|id: EntityId| #[trigger] m.contains_key(id) ==> m[id].health >= 0
}

/// Every event carries a damage in `0..=MAX_DAMAGE`.
pub open spec fn damage_in_bounds(events: Seq<DamageEvent>) -> bool {
    forall|i: int| 0 <= i < events.len() ==> 0 <= #[trigger] events[i].amount <= MAX_DAMAGE
}

/// One damage event: a missing target is skipped; otherwise the damage is
/// taken, motion stops, and health below zero is death.
pub open spec fn damage_step(m: Map<EntityId, Enemy>, e: DamageEvent) -> (Map<EntityId, Enemy>, Option<Death>) {
    if !m.contains_key(e.target) {
        (m, None)
    } else {
        let en = m[e.target];
        let h = en.health - e.amount;
        if h < 0 {
            (
                m.remove(e.target),
                Some(
                    Death {
                        id: e.target,
                        pos: en.pos,
                        big_orbs: (en.xp / BIG_ORB) as u64,
                        small_orbs: (en.xp / SMALL_ORB - (en.xp / BIG_ORB) * BIG_ORB) as u64,
                    },
                ),
            )
        } else {
            (m.insert(e.target, Enemy { health: h as i64, velocity: Vec2 { x: 0, y: 0 }, ..en }), None)
        }
    }
}

/// The enemies and deaths after a sequence of damage events, in order.
pub open spec fn resolve_spec(m: Map<EntityId, Enemy>, events: Seq<DamageEvent>) -> (Map<EntityId, Enemy>, Seq<Death>)
    decreases events.len(),
{
    if events.len() == 0 {
        (m, Seq::empty())
    } else {
        let prev = resolve_spec(m, events.drop_last());
        let step = damage_step(prev.0, events.last());
        (
            step.0,
            match step.1 {
                Some(d) => prev.1.push(d),
                None => prev.1,
            },
        )
    }
}

proof fn lemma_resolve_healthy(m: Map<EntityId, Enemy>, events: Seq<DamageEvent>)
    requires
        enemies_healthy(m),
        damage_in_bounds(events),
    ensures
        enemies_healthy(resolve_spec(m, events).0),
    decreases events.len(),
{
    if events.len() > 0 {
        lemma_resolve_healthy(m, events.drop_last());
        assert(0 <= events[events.len() - 1].amount);
        let prev = resolve_spec(m, events.drop_last()).0;
        let next = damage_step(prev, events.last()).0;
        assert forall|id: EntityId| #[trigger] next.contains_key(id) implies next[id].health >= 0 by {
            assert(prev.contains_key(id));
        }
    }
}

/// Applies a tick's damage events in order. Returns the deaths in the order
/// they happened; the dead leave the registry.
pub fn damage_enemies(enemies: &mut Registry<Enemy>, events: &Vec<DamageEvent>) -> (r: Vec<Death>)
    requires
        enemies_healthy(old(enemies).entities()),
        damage_in_bounds(events@),
    ensures
        final(enemies).entities() == resolve_spec(old(enemies).entities(), events@).0,
        r@ == resolve_spec(old(enemies).entities(), events@).1,
        enemies_healthy(final(enemies).entities()),
{
    let ghost m0 = enemies.entities();
    let mut deaths: Vec<Death> = Vec::new();
    let mut i: usize = 0;
    while i < events.len()
        invariant
            i <= events.len(),
            damage_in_bounds(events@),
            enemies_healthy(m0),
            enemies.entities() == resolve_spec(m0, events@.subrange(0, i as int)).0,
            deaths@ == resolve_spec(m0, events@.subrange(0, i as int)).1,
        decreases events.len() - i,
    {
        proof {
            lemma_resolve_healthy(m0, events@.subrange(0, i as int));
            assert(enemies_healthy(enemies.entities()));
            assert(events@.subrange(0, i + 1).drop_last() =~= events@.subrange(0, i as int));
        }
        let e = events[i];
        match enemies.get(e.target) {
            None => {},
            Some(en) => {
                let h = en.health - e.amount;
                if h < 0 {
                    enemies.remove(e.target);
                    let (big, small) = orb_split(en.xp);
                    deaths.push(Death { id: e.target, pos: en.pos, big_orbs: big, small_orbs: small });
                } else {
                    enemies.set(e.target, Enemy { health: h, velocity: Vec2 { x: 0, y: 0 }, ..en });
                }
            },
        }
        i = i + 1;
    }
    proof {
        assert(events@.subrange(0, events.len() as int) =~= events@);
        lemma_resolve_healthy(m0, events@);
    }
    deaths
}

/// How long the player stays invulnerable after losing an item, in
/// microseconds.
pub const INVULNERABILITY: u64 = 1_000_000;

/// The player's body: where it is, how it moves, and how much longer it
/// shrugs off contact.
#[derive(Clone, Copy, Debug, PartialEq, Eq, Structural)]
pub struct PlayerBody {
    pub pos: Vec2,
    pub velocity: Vec2,
    pub invulnerable_for: u64,
}

/// What a contact did to the player.
#[derive(Clone, Copy, Debug, PartialEq, Eq, Structural)]
pub enum ContactOutcome {
    /// The player was invulnerable; nothing happened.
    Ignored,
    /// The player lost its oldest item.
    ItemLost(Item),
    /// The hit landed on an empty inventory: the run is over.
    GameOver,
}

/// The velocity after a knockback of `impulse` away from `source`.
pub open spec fn knocked(body: PlayerBody, source: Vec2, impulse: int) -> Vec2 {
    let push = toward_spec(source, body.pos, impulse);
    Vec2 {
        x: clamp_coord(body.velocity.x + push.x) as i64,
        y: clamp_coord(body.velocity.y + push.y) as i64,
    }
}

impl PlayerBody {
    /// Counts the invulnerability down by `dt`.
    pub fn tick_invulnerability(&mut self, dt: u64)
        ensures
            final(self).invulnerable_for == if old(self).invulnerable_for > dt {
                old(self).invulnerable_for - dt
            } else {
                0
            },
            final(self).pos == old(self).pos,
            final(self).velocity == old(self).velocity,
    {
        self.invulnerable_for = if self.invulnerable_for > dt {
            self.invulnerable_for - dt
        } else {
            0
        };
    }
}

/// A contact between the player and something that hurts on touch,
/// standing at `source` and pushing with `knockback`, if it pushes.
pub fn handle_player_collision(
    body: &mut PlayerBody,
    inventory: &mut Inventory,
    source: Vec2,
    knockback: Option<i64>,
) -> (r: ContactOutcome)
    requires
        in_world(old(body).pos),
        in_world(source),
        in_world(old(body).velocity),
        old(inventory).wf(),
        match knockback {
            Some(k) => 0 <= k <= MAX_MAGNITUDE,
            None => true,
        },
    ensures
        final(inventory).wf(),
        final(body).pos == old(body).pos,
        in_world(final(body).velocity),
        old(body).invulnerable_for > 0 ==> r == ContactOutcome::Ignored && *final(body) == *old(body) && final(inventory).items@ == old(inventory).items@,
        old(body).invulnerable_for == 0 ==> final(body).velocity == match knockback {
            Some(k) => knocked(*old(body), source, k as int),
            None => old(body).velocity,
        },
        old(body).invulnerable_for == 0 && old(inventory).items.len() == 0 ==> r
            == ContactOutcome::GameOver && final(body).invulnerable_for == 0 && final(inventory).items@ == old(inventory).items@,
        old(body).invulnerable_for == 0 && old(inventory).items.len() > 0 ==> r
            == ContactOutcome::ItemLost(old(inventory).items@[0]) && final(body).invulnerable_for
            == INVULNERABILITY && final(inventory).items@ == old(inventory).items@.subrange(
            1,
            old(inventory).items.len() as int,
        ),
{
    if body.invulnerable_for > 0 {
        return ContactOutcome::Ignored;
    }
    if let Some(k) = knockback {
        let push = toward(source, body.pos, k);
        body.velocity = add_clamped(body.velocity, push);
    }
    match inventory.lose_oldest() {
        None => ContactOutcome::GameOver,
        Some(item) => {
            body.invulnerable_for = INVULNERABILITY;
            ContactOutcome::ItemLost(item)
        },
    }
}

/// The fire a bomb leaves where it strikes.
#[derive(Clone, Copy, Debug, PartialEq, Eq, Structural)]
pub struct BombBehavior {
    pub damage: i64,
    pub scale_percent: u64,
}

/// A weapon that hurts what it touches. It may pass through `pierce` more
/// targets; it is spent when the count drops from zero to minus one, and a
/// negative count from the start never runs out.
pub struct ContactWeapon {
    pub pierce: i64,
    pub damage: i64,
    pub struck: Vec<EntityId>,
    pub bomb: Option<BombBehavior>,
}

/// A fire to start at `pos`.
#[derive(Clone, Copy, Debug, PartialEq, Eq, Structural)]
pub struct FireSpawn {
    pub pos: Vec2,
    pub damage: i64,
    pub scale_percent: u64,
}

/// What a weapon did on touching an enemy.
#[derive(Clone, Copy, Debug, PartialEq, Eq, Structural)]
pub enum StrikeOutcome {
    /// The enemy was already struck by this weapon; nothing happened.
    Repeat,
    /// The enemy takes `damage`; the weapon is spent if `destroyed`; a bomb
    /// leaves `fire`.
    Hit { damage: DamageEvent, destroyed: bool, fire: Option<FireSpawn> },
}

impl ContactWeapon {
    /// A weapon that has struck nothing yet.
    pub fn new(pierce: i64, damage: i64, bomb: Option<BombBehavior>) -> (r: Self)
        ensures
            r.pierce == pierce,
            r.damage == damage,
            r.struck@ == Seq::<EntityId>::empty(),
            r.bomb == bomb,
    {
        ContactWeapon { pierce, damage, struck: Vec::new(), bomb }
    }

    /// The weapon touches enemy `target` standing at `pos`. Each enemy
    /// counts once against the pierce, however often it is touched.
    pub fn strike(&mut self, target: EntityId, pos: Vec2) -> (r: StrikeOutcome)
        requires
            old(self).pierce > i64::MIN,
        ensures
            old(self).struck@.contains(target) ==> r == StrikeOutcome::Repeat && final(self).pierce
                == old(self).pierce && final(self).struck@ == old(self).struck@,
            !old(self).struck@.contains(target) ==> r == (StrikeOutcome::Hit {
                damage: DamageEvent { target, amount: old(self).damage },
                destroyed: final(self).pierce == -1,
                fire: match old(self).bomb {
                    Some(b) => Some(
                        FireSpawn { pos, damage: b.damage, scale_percent: b.scale_percent },
                    ),
                    None => None,
                },
            }) && final(self).pierce == old(self).pierce - 1 && final(self).struck@ == old(self).struck@.push(target),
            final(self).damage == old(self).damage,
            final(self).bomb == old(self).bomb,
    {
        let mut i: usize = 0;
        while i < self.struck.len()
            invariant
                i <= self.struck.len(),
                forall|j: int| 0 <= j < i ==> self.struck@[j] != target,
            decreases self.struck.len() - i,
        {
            if self.struck[i] == target {
                return StrikeOutcome::Repeat;
            }
            i = i + 1;
        }
        self.pierce = self.pierce - 1;
        self.struck.push(target);
        let fire = match self.bomb {
            Some(b) => Some(FireSpawn { pos, damage: b.damage, scale_percent: b.scale_percent }),
            None => None,
        };
        StrikeOutcome::Hit {
            damage: DamageEvent { target, amount: self.damage },
            destroyed: self.pierce == -1,
            fire,
        }
    }
}

/// Holds of every handle but `id`.
pub open spec fn other_than(id: EntityId) -> spec_fn(EntityId) -> bool {
    |x: EntityId| x != id
}

/// How long a fire burns, in microseconds.
pub const FIRE_LIFETIME: i64 = 3_000_000;

/// How often a fire burns what stands in it, in microseconds.
pub const FIRE_PERIOD: u64 = 500_000;

/// A patch of fire that burns every enemy in it on each period, until its
/// lifetime runs out.
pub struct FireHazard {
    pub damage: i64,
    pub remaining: i64,
    pub contacts: Vec<EntityId>,
    pub timer: RepeatingTimer,
    pub burning: bool,
}

/// What a fire did in one tick.
pub struct FireTick {
    pub damage: Vec<DamageEvent>,
    pub expired: bool,
}

impl FireHazard {
    /// A burning fire with a running timer and a lifetime not yet run out.
    pub open spec fn wf(&self) -> bool {
        &&& self.timer.wf()
        &&& self.burning ==> self.remaining >= 0
        &&& self.remaining <= FIRE_LIFETIME
        &&& self.remaining >= -(MAX_TICK as int)
    }

    /// A new fire dealing `damage` per burn.
    pub fn new(damage: i64) -> (r: Self)
        ensures
            r.wf(),
            r.damage == damage,
            r.remaining == FIRE_LIFETIME,
            r.contacts@ == Seq::<EntityId>::empty(),
            r.burning,
            r.timer.period == FIRE_PERIOD,
            r.timer.elapsed == 0,
    {
        FireHazard {
            damage,
            remaining: FIRE_LIFETIME,
            contacts: Vec::new(),
            timer: RepeatingTimer::new(FIRE_PERIOD),
            burning: true,
        }
    }

    /// An enemy entered the fire; a fire that burnt out takes no one.
    pub fn contact_started(&mut self, id: EntityId)
        ensures
            final(self).contacts@ == if old(self).burning && !old(self).contacts@.contains(id) {
                old(self).contacts@.push(id)
            } else {
                old(self).contacts@
            },
            final(self).damage == old(self).damage,
            final(self).remaining == old(self).remaining,
            final(self).timer == old(self).timer,
            final(self).burning == old(self).burning,
    {
        if !self.burning {
            return;
        }
        let mut i: usize = 0;
        while i < self.contacts.len()
            invariant
                i <= self.contacts.len(),
                forall|j: int| 0 <= j < i ==> self.contacts@[j] != id,
            decreases self.contacts.len() - i,
        {
            if self.contacts[i] == id {
                return;
            }
            i = i + 1;
        }
        self.contacts.push(id);
    }

    /// An enemy left the fire.
    pub fn contact_stopped(&mut self, id: EntityId)
        ensures
            final(self).contacts@ == old(self).contacts@.filter(other_than(id)),
            final(self).damage == old(self).damage,
            final(self).remaining == old(self).remaining,
            final(self).timer == old(self).timer,
            final(self).burning == old(self).burning,
    {
        let mut kept: Vec<EntityId> = Vec::new();
        let mut i: usize = 0;
        while i < self.contacts.len()
            invariant
                i <= self.contacts.len(),
                kept@ == self.contacts@.subrange(0, i as int).filter(other_than(id)),
            decreases self.contacts.len() - i,
        {
            let ghost prefix = self.contacts@.subrange(0, i as int);
            let ghost s = self.contacts@.subrange(0, i + 1);
            assert(s.drop_last() =~= prefix);
            assert(s.last() == self.contacts@[i as int]);
            if self.contacts[i] != id {
                kept.push(self.contacts[i]);
            }
            assert(s =~= prefix.push(self.contacts@[i as int]));
            proof {
                prefix.lemma_filter_push(self.contacts@[i as int], other_than(id));
            }
            assert(kept@ =~= s.filter(other_than(id)));
            i = i + 1;
        }
        assert(self.contacts@.subrange(0, self.contacts.len() as int) =~= self.contacts@);
        self.contacts = kept;
    }

    /// Advances the fire by `dt`: on each period it burns every enemy in it,
    /// and once its lifetime is below zero it goes out.
    pub fn tick(&mut self, dt: u64) -> (r: FireTick)
        requires
            old(self).wf(),
            dt <= MAX_TICK,
        ensures
            final(self).wf(),
            !old(self).burning ==> r.damage@ == Seq::<DamageEvent>::empty() && !r.expired
                && final(self).remaining == old(self).remaining && final(self).timer == old(self).timer
                && !final(self).burning,
            old(self).burning ==> final(self).remaining == old(self).remaining - dt,
            old(self).burning ==> (r.damage@ == if old(self).timer.elapsed + dt >= old(self).timer.period {
                old(self).contacts@.map_values(
                    |id: EntityId| DamageEvent { target: id, amount: old(self).damage },
                )
            } else {
                Seq::<DamageEvent>::empty()
            }),
            old(self).burning ==> r.expired == (final(self).remaining < 0) && final(self).burning
                == !r.expired,
            final(self).contacts@ == old(self).contacts@,
            final(self).damage == old(self).damage,
    {
        let mut damage: Vec<DamageEvent> = Vec::new();
        if !self.burning {
            return FireTick { damage, expired: false };
        }
        self.remaining = self.remaining - dt as i64;
        let fired = self.timer.tick(dt);
        if fired {
            let mut i: usize = 0;
            while i < self.contacts.len()
                invariant
                    i <= self.contacts.len(),
                    damage@ == self.contacts@.subrange(0, i as int).map_values(
                        |id: EntityId| DamageEvent { target: id, amount: self.damage },
                    ),
                decreases self.contacts.len() - i,
            {
                damage.push(DamageEvent { target: self.contacts[i], amount: self.damage });
                proof {
                    assert(self.contacts@.subrange(0, i + 1) =~= self.contacts@.subrange(0, i as int).push(self.contacts@[i as int]));
                    assert(damage@ =~= self.contacts@.subrange(0, i + 1).map_values(
                        |id: EntityId| DamageEvent { target: id, amount: self.damage },
                    ));
                }
                i = i + 1;
            }
            assert(self.contacts@.subrange(0, self.contacts.len() as int) =~= self.contacts@);
        }
        let expired = self.remaining < 0;
        if expired {
            self.burning = false;
        }
        FireTick { damage, expired }
    }
}

/// An experience orb.
#[derive(Clone, Copy, Debug, PartialEq, Eq, Structural)]
pub struct XpOrb {
    pub pos: Vec2,
    pub velocity: Vec2,
    pub value: u64,
}

/// Orbs within this distance of the player are pulled toward it.
pub const XP_ATTRACT_RANGE: i64 = 300_000;

/// Orbs within this distance of the player are collected.
pub const XP_COLLECT_RANGE: i64 = 50_000;

/// How hard the player pulls orbs in range, per second squared.
pub const XP_PULL: i64 = 1_000_000;

/// What one pass did to an orb.
#[derive(Clone, Copy, Debug, PartialEq, Eq, Structural)]
pub enum OrbStep {
    /// Out of range: untouched.
    Idle,
    /// Pulled toward the player: its new velocity.
    Pulled(Vec2),
    /// Collected: the experience it grants.
    Collected(u64),
}

/// The pull of the player on an orb over `dt` microseconds.
pub open spec fn pull_spec(dt: int) -> int {
    XP_PULL * dt / 1_000_000
}

/// One pass over an orb: out of attraction range it is left alone; in range
/// it accelerates toward the player, and within collection range, measured
/// at the start of the pass, it is collected.
pub fn update_xp_orb(orb: &XpOrb, player: Vec2, dt: u64) -> (r: OrbStep)
    requires
        in_world(orb.pos),
        in_world(orb.velocity),
        in_world(player),
        dt <= MAX_TICK,
    ensures
        crate::geometry::dist_sq_spec(player, orb.pos) > XP_ATTRACT_RANGE * XP_ATTRACT_RANGE
            ==> r == OrbStep::Idle,
        crate::geometry::dist_sq_spec(player, orb.pos) <= XP_ATTRACT_RANGE * XP_ATTRACT_RANGE
            && crate::geometry::dist_sq_spec(player, orb.pos) >= XP_COLLECT_RANGE * XP_COLLECT_RANGE
            ==> r == OrbStep::Pulled(
            Vec2 {
                x: clamp_coord(
                    orb.velocity.x + toward_spec(orb.pos, player, pull_spec(dt as int)).x,
                ) as i64,
                y: clamp_coord(
                    orb.velocity.y + toward_spec(orb.pos, player, pull_spec(dt as int)).y,
                ) as i64,
            },
        ),
        crate::geometry::dist_sq_spec(player, orb.pos) < XP_COLLECT_RANGE * XP_COLLECT_RANGE
            ==> r == OrbStep::Collected(orb.value),
{
    let d = crate::geometry::dist_sq(player, orb.pos);
    if d > (XP_ATTRACT_RANGE as u128) * (XP_ATTRACT_RANGE as u128) {
        return OrbStep::Idle;
    }
    if d < (XP_COLLECT_RANGE as u128) * (XP_COLLECT_RANGE as u128) {
        return OrbStep::Collected(orb.value);
    }
    assert(XP_PULL * dt <= 1_000_000 * MAX_TICK) by (nonlinear_arith)
        requires
            XP_PULL == 1_000_000,
            dt <= MAX_TICK,
    ;
    let pull = XP_PULL * (dt as i64) / 1_000_000;
    let v = add_clamped(orb.velocity, toward(orb.pos, player, pull));
    OrbStep::Pulled(v)
}

} // verus!
