//! Motion integration and despawn rules.

use vstd::prelude::*;
use crate::behaviors::{advance, moved};
use crate::geometry::{
    clamp_coord, dist_sq, dist_sq_spec, in_world, scaled, toward, toward_spec, Vec2,
    MAX_MAGNITUDE,
};
use crate::enemies::Enemy;
use crate::registry::Registry;
use crate::targeting::EntityId;
use crate::timer::MAX_TICK;

verus! {

/// Entities farther than this from the player are removed.
pub const DESPAWN_DISTANCE: i64 = 1_024_000;

/// The largest friction, in thousandths per second, that motion accepts.
pub const MAX_FRICTION: i64 = 100_000;

/// Velocity, friction in thousandths per second, and a speed limit.
#[derive(Clone, Copy, Debug, PartialEq, Eq, Structural)]
pub struct Movement {
    pub velocity: Vec2,
    pub friction: i64,
    pub max_speed: i64,
}

/// A velocity coordinate after friction over a tick: it loses
/// `friction * dt` billionths of itself, rounded toward zero.
pub open spec fn damped(c: int, friction: int, dt: int) -> int {
    clamp_coord(c - scaled(c, friction * dt, 1_000_000_000))
}

/// The velocity after friction and the speed limit.
pub open spec fn braked(m: Movement, dt: int) -> Vec2 {
    let v = Vec2 {
        x: damped(m.velocity.x as int, m.friction as int, dt) as i64,
        y: damped(m.velocity.y as int, m.friction as int, dt) as i64,
    };
    if dist_sq_spec(v, Vec2 { x: 0, y: 0 }) > m.max_speed * m.max_speed {
        toward_spec(Vec2 { x: 0, y: 0 }, v, m.max_speed as int)
    } else {
        v
    }
}

fn damp(c: i64, friction: i64, dt: u64) -> (r: i64)
    requires
        -MAX_MAGNITUDE <= c <= MAX_MAGNITUDE,
        0 <= friction <= MAX_FRICTION,
        dt <= MAX_TICK,
    ensures
        r == damped(c as int, friction as int, dt as int),
{
    assert(0 <= friction * dt <= MAX_FRICTION * MAX_TICK) by (nonlinear_arith)
        requires
            0 <= friction <= MAX_FRICTION,
            0 <= dt <= MAX_TICK,
    ;
    let f: i128 = friction as i128 * dt as i128;
    let a: i128 = if c < 0 {
        -(c as i128)
    } else {
        c as i128
    };
    assert(0 <= a * f <= MAX_MAGNITUDE * (MAX_FRICTION * MAX_TICK)) by (nonlinear_arith)
        requires
            0 <= a <= MAX_MAGNITUDE,
            0 <= f <= MAX_FRICTION * MAX_TICK,
    ;
    let q: i128 = a * f / 1_000_000_000;
    assert(0 <= q <= MAX_MAGNITUDE * 100) by (nonlinear_arith)
        requires
            q == a * f / 1_000_000_000,
            0 <= a * f <= MAX_MAGNITUDE * (MAX_FRICTION * MAX_TICK),
    ;
    let s: i128 = if c < 0 {
        -q
    } else {
        q
    };
    let v: i128 = c as i128 - s;
    let lim = crate::geometry::COORD_LIMIT as i128;
    if v < -lim {
        -crate::geometry::COORD_LIMIT
    } else if v > lim {
        crate::geometry::COORD_LIMIT
    } else {
        v as i64
    }
}

impl Movement {
    /// One tick of motion: friction slows the velocity, the speed limit
    /// caps it, and the position moves along the result.
    pub fn update(&mut self, pos: Vec2, dt: u64) -> (r: Vec2)
        requires
            in_world(pos),
            in_world(old(self).velocity),
            0 <= old(self).friction <= MAX_FRICTION,
            0 <= old(self).max_speed <= MAX_MAGNITUDE,
            dt <= MAX_TICK,
        ensures
            final(self).velocity == braked(*old(self), dt as int),
            final(self).friction == old(self).friction,
            final(self).max_speed == old(self).max_speed,
            r == moved(pos, final(self).velocity, dt as int),
            in_world(final(self).velocity),
            in_world(r),
    {
        let v = Vec2 {
            x: damp(self.velocity.x, self.friction, dt),
            y: damp(self.velocity.y, self.friction, dt),
        };
        let zero = Vec2 { x: 0, y: 0 };
        assert(self.max_speed * self.max_speed <= MAX_MAGNITUDE * MAX_MAGNITUDE) by (nonlinear_arith)
            requires
                0 <= self.max_speed <= MAX_MAGNITUDE,
        ;
        let capped = if dist_sq(v, zero) > (self.max_speed as u128) * (self.max_speed as u128) {
            toward(zero, v, self.max_speed)
        } else {
            v
        };
        self.velocity = capped;
        advance(pos, capped, dt)
    }
}

/// The entity at `pos` is too far from the player and goes.
pub fn handle_distance_despawn(pos: Vec2, player: Vec2) -> (r: bool)
    requires
        in_world(pos),
        in_world(player),
    ensures
        r == (dist_sq_spec(pos, player) > DESPAWN_DISTANCE * DESPAWN_DISTANCE),
{
    dist_sq(pos, player) > (DESPAWN_DISTANCE as u128) * (DESPAWN_DISTANCE as u128)
}

/// A countdown after which an entity goes, in microseconds.
#[derive(Clone, Copy, Debug, PartialEq, Eq, Structural)]
pub struct TimedDespawn {
    pub delay: i64,
}

impl TimedDespawn {
    /// Counts down by `dt`; the entity goes once the delay is below zero.
    pub fn tick(&mut self, dt: u64) -> (r: bool)
        requires
            old(self).delay >= i64::MIN + MAX_TICK,
            dt <= MAX_TICK,
        ensures
            final(self).delay == old(self).delay - dt,
            r == (final(self).delay < 0),
    {
        self.delay = self.delay - dt as i64;
        self.delay < 0
    }
}

/// `p` is beyond the despawn distance from the player.
pub open spec fn too_far(p: Vec2, player: Vec2) -> bool {
    dist_sq_spec(p, player) > DESPAWN_DISTANCE * DESPAWN_DISTANCE
}

/// Every enemy stands in the world.
pub open spec fn enemies_in_world(m: Map<EntityId, Enemy>) -> bool {
    forall|id: EntityId| #[trigger] m.contains_key(id) ==> in_world(m[id].pos)
}

/// The enemies of `m` within the despawn distance of the player.
pub open spec fn near_enemies(m: Map<EntityId, Enemy>, player: Vec2) -> Map<EntityId, Enemy> {
    Map::new(|id: EntityId| m.contains_key(id) && !too_far(m[id].pos, player), |id: EntityId| m[id])
}

/// Removes every enemy beyond the despawn distance and returns their
/// handles, in slot order.
pub fn sweep_distant_enemies(enemies: &mut Registry<Enemy>, player: Vec2) -> (r: Vec<EntityId>)
    requires
        enemies_in_world(old(enemies).entities()),
        in_world(player),
    ensures
        final(enemies).entities() == near_enemies(old(enemies).entities(), player),
        forall|i: int|
            0 <= i < r.len() ==> old(enemies).entities().contains_key(#[trigger] r@[i])
                && too_far(old(enemies).entities()[r@[i]].pos, player),
        forall|id: EntityId|
            old(enemies).entities().contains_key(id) && too_far(
                old(enemies).entities()[id].pos,
                player,
            ) ==> r@.contains(id),
{
    let ghost m0 = enemies.entities();
    let ids = enemies.ids();
    let mut gone: Vec<EntityId> = Vec::new();
    let mut i: usize = 0;
    while i < ids.len()
        invariant
            i <= ids.len(),
            in_world(player),
            enemies_in_world(m0),
            forall|k: int| 0 <= k < ids.len() ==> m0.contains_key(#[trigger] ids@[k]),
            forall|id: EntityId| m0.contains_key(id) ==> ids@.contains(id),
            forall|a: int, b: int| 0 <= a < b < ids.len() ==> ids@[a].index < ids@[b].index,
            enemies.entities() == Map::new(
                |id: EntityId|
                    m0.contains_key(id) && !(too_far(m0[id].pos, player) && ids@.subrange(
                        0,
                        i as int,
                    ).contains(id)),
                |id: EntityId| m0[id],
            ),
            forall|k: int|
                0 <= k < gone.len() ==> m0.contains_key(#[trigger] gone@[k]) && too_far(
                    m0[gone@[k]].pos,
                    player,
                ),
            forall|id: EntityId|
                m0.contains_key(id) && too_far(m0[id].pos, player) && ids@.subrange(
                    0,
                    i as int,
                ).contains(id) ==> gone@.contains(id),
        decreases ids.len() - i,
    {
        let id = ids[i];
        let ghost done = ids@.subrange(0, i as int);
        let ghost next = ids@.subrange(0, i + 1);
        assert(next =~= done.push(id));
        assert forall|x: EntityId| next.contains(x) <==> (done.contains(x) || x == id) by {
            if next.contains(x) {
                let k = choose|k: int| 0 <= k < next.len() && next[k] == x;
                if k < done.len() {
                    assert(done[k] == x);
                }
            }
            if done.contains(x) {
                let k = choose|k: int| 0 <= k < done.len() && done[k] == x;
                assert(next[k] == x);
            }
            if x == id {
                assert(next[i as int] == x);
            }
        }
        assert(!done.contains(id)) by {
            if done.contains(id) {
                let k = choose|k: int| 0 <= k < done.len() && done[k] == id;
                assert(ids@[k].index < ids@[i as int].index);
            }
        }
        assert(enemies.entities().contains_key(id));
        let e = enemies.get(id);
        if let Some(en) = e {
            if handle_distance_despawn(en.pos, player) {
                enemies.remove(id);
                let ghost prev = gone@;
                gone.push(id);
                assert forall|x: EntityId|
                    m0.contains_key(x) && too_far(m0[x].pos, player) && next.contains(x) implies gone@.contains(x) by {
                    if x == id {
                        assert(gone@[gone.len() - 1] == x);
                    } else {
                        assert(done.contains(x));
                        assert(prev.contains(x));
                        let k = choose|k: int| 0 <= k < prev.len() && prev[k] == x;
                        assert(gone@[k] == x);
                    }
                }
            } else {
                assert forall|x: EntityId|
                    m0.contains_key(x) && too_far(m0[x].pos, player) && next.contains(x) implies gone@.contains(x) by {
                    assert(x != id);
                    assert(done.contains(x));
                }
            }
        }
        assert(enemies.entities() =~= Map::new(
            |x: EntityId| m0.contains_key(x) && !(too_far(m0[x].pos, player) && next.contains(x)),
            |x: EntityId| m0[x],
        ));
        i = i + 1;
    }
    assert(ids@.subrange(0, ids.len() as int) =~= ids@);
    assert(enemies.entities() =~= near_enemies(m0, player));
    gone
}

} // verus!
