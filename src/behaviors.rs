//! Per-tick enemy and projectile behaviors.
//!
//! Speeds are in thousandths of a pixel per second, accelerations in
//! thousandths of a pixel per second squared, ticks in microseconds. A
//! change over a tick is the rate times the tick, rounded toward zero.

use vstd::prelude::*;
use crate::enemies::EnemyAmmo;
use crate::geometry::{
    add_clamped, clamp_coord, dist_sq, dist_sq_spec, in_world, toward, toward_spec, Vec2,
    MAX_MAGNITUDE,
};
use crate::targeting::{
    has_nearest, is_nearest, nearest, nearest_spec, targets_in_world, EntityId, Target,
};
use crate::timer::{RepeatingTimer, MAX_TICK};

verus! {

/// The largest speed or acceleration, per second, a behavior accepts.
pub const MAX_PER_SECOND: i64 = 0x10_0000_0000;

/// What a rate per second amounts to over a tick of `dt` microseconds.
pub open spec fn over_tick(rate: int, dt: int) -> int {
    rate * dt / 1_000_000
}

fn per_tick(rate: i64, dt: u64) -> (r: i64)
    requires
        0 <= rate <= MAX_PER_SECOND,
        dt <= MAX_TICK,
    ensures
        r == over_tick(rate as int, dt as int),
        0 <= r <= MAX_MAGNITUDE,
{
    assert(0 <= rate * dt <= MAX_PER_SECOND * MAX_TICK) by (nonlinear_arith)
        requires
            0 <= rate <= MAX_PER_SECOND,
            0 <= dt <= MAX_TICK,
    ;
    assert(rate * dt / 1_000_000 <= MAX_MAGNITUDE) by (nonlinear_arith)
        requires
            0 <= rate * dt <= MAX_PER_SECOND * MAX_TICK,
    ;
    rate * (dt as i64) / 1_000_000
}

/// `v` moved by `d`, each axis clamped into the world square.
pub open spec fn nudged(v: Vec2, d: Vec2) -> Vec2 {
    Vec2 { x: clamp_coord(v.x + d.x) as i64, y: clamp_coord(v.y + d.y) as i64 }
}

/// A chasing enemy's velocity after a tick, and whether it faces left.
pub fn handle_chase_ai(
    pos: Vec2,
    velocity: Vec2,
    player: Vec2,
    acceleration: i64,
    dt: u64,
) -> (r: (Vec2, bool))
    requires
        in_world(pos),
        in_world(velocity),
        in_world(player),
        0 <= acceleration <= MAX_PER_SECOND,
        dt <= MAX_TICK,
    ensures
        r.0 == nudged(velocity, toward_spec(pos, player, over_tick(acceleration as int, dt as int))),
        r.1 == (player.x < pos.x),
        in_world(r.0),
{
    let step = toward(pos, player, per_tick(acceleration, dt));
    (add_clamped(velocity, step), player.x < pos.x)
}

/// How hard the player's ship accelerates under input.
pub const PLAYER_ACCELERATION: i64 = 300_000;

/// The player's velocity after a tick of steering input `input` (each axis
/// -1, 0 or 1; the direction is taken in thousandths so that diagonals come
/// out at their proper length), and which way it faces afterwards: left when steering left,
/// right when steering right, unchanged otherwise.
pub fn handle_movement(velocity: Vec2, input: Vec2, dt: u64) -> (r: (Vec2, Option<bool>))
    requires
        in_world(velocity),
        -1 <= input.x <= 1,
        -1 <= input.y <= 1,
        dt <= MAX_TICK,
    ensures
        r.0 == nudged(
            velocity,
            toward_spec(
                Vec2 { x: 0, y: 0 },
                Vec2 { x: (input.x * 1000) as i64, y: (input.y * 1000) as i64 },
                over_tick(PLAYER_ACCELERATION as int, dt as int),
            ),
        ),
        r.1 == if input.x < 0 {
            Some(true)
        } else if input.x > 0 {
            Some(false)
        } else {
            None::<bool>
        },
{
    let aim = Vec2 { x: input.x * 1000, y: input.y * 1000 };
    let step = toward(Vec2 { x: 0, y: 0 }, aim, per_tick(PLAYER_ACCELERATION, dt));
    let flip = if input.x < 0 {
        Some(true)
    } else if input.x > 0 {
        Some(false)
    } else {
        None
    };
    (add_clamped(velocity, step), flip)
}

/// What a surrounding enemy does while it has not yet started circling.
#[derive(Clone, Copy, Debug, PartialEq, Eq, Structural)]
pub enum SurroundStep {
    /// Still too far: it moves to `pos`, facing left if `flip`.
    Approach { pos: Vec2, flip: bool },
    /// Close enough: from now on it circles the player.
    BeginOrbit,
}

/// One tick of a surrounding enemy that is not circling yet: farther than
/// `radius` it moves straight at the player at `chase_speed`; otherwise it
/// starts circling, for good.
pub fn handle_surround_ai(
    pos: Vec2,
    player: Vec2,
    chase_speed: i64,
    radius: i64,
    dt: u64,
) -> (r: SurroundStep)
    requires
        in_world(pos),
        in_world(player),
        0 <= chase_speed <= MAX_PER_SECOND,
        0 <= radius <= MAX_MAGNITUDE,
        dt <= MAX_TICK,
    ensures
        dist_sq_spec(player, pos) > radius * radius ==> r == (SurroundStep::Approach {
            pos: nudged(pos, toward_spec(pos, player, over_tick(chase_speed as int, dt as int))),
            flip: player.x < pos.x,
        }),
        dist_sq_spec(player, pos) <= radius * radius ==> r == SurroundStep::BeginOrbit,
{
    let d = dist_sq(player, pos);
    assert(radius * radius <= MAX_MAGNITUDE * MAX_MAGNITUDE) by (nonlinear_arith)
        requires
            0 <= radius <= MAX_MAGNITUDE,
    ;
    if d > (radius as u128) * (radius as u128) {
        let step = toward(pos, player, per_tick(chase_speed, dt));
        SurroundStep::Approach { pos: add_clamped(pos, step), flip: player.x < pos.x }
    } else {
        SurroundStep::BeginOrbit
    }
}

/// A homing projectile's velocity after a tick, and the direction it faces:
/// it steers toward the nearest target it has not struck; with no such
/// target its velocity is left as it was and its facing is unchanged.
pub fn handle_homing(
    pos: Vec2,
    velocity: Vec2,
    acceleration: i64,
    dt: u64,
    targets: &Vec<Target>,
    struck: &Vec<EntityId>,
) -> (r: (Vec2, Option<Vec2>))
    requires
        in_world(pos),
        in_world(velocity),
        0 <= acceleration <= MAX_PER_SECOND,
        dt <= MAX_TICK,
        targets_in_world(targets@),
    ensures
        !has_nearest(targets@, struck@, pos) ==> r == (velocity, None::<Vec2>),
        has_nearest(targets@, struck@, pos) ==> r == ({
            let aim = targets@[nearest_spec(targets@, struck@, pos)].pos;
            (
                nudged(velocity, toward_spec(pos, aim, over_tick(acceleration as int, dt as int))),
                Some(toward_spec(pos, aim, over_tick(acceleration as int, dt as int))),
            )
        }),
        in_world(r.0),
{
    match nearest(targets, struck, pos) {
        None => {
            proof {
                if has_nearest(targets@, struck@, pos) {
                    let w = choose|i: int| is_nearest(targets@, struck@, pos, i);
                    assert(crate::targeting::eligible(targets@, struck@, w));
                }
            }
            (velocity, None)
        },
        Some(n) => {
            proof {
                crate::targeting::lemma_nearest_unique(
                    targets@,
                    struck@,
                    pos,
                    n as int,
                    nearest_spec(targets@, struck@, pos),
                );
            }
            let aim = targets[n].pos;
            let step = toward(pos, aim, per_tick(acceleration, dt));
            (add_clamped(velocity, step), Some(step))
        },
    }
}

/// A projectile flying at a fixed velocity.
#[derive(Clone, Copy, Debug, PartialEq, Eq, Structural)]
pub struct LinearProjectile {
    pub pos: Vec2,
    pub velocity: Vec2,
}

/// A coordinate's travel over a tick at `speed` per second.
pub open spec fn travel(speed: int, dt: int) -> int {
    if speed < 0 {
        -((-speed) * dt / 1_000_000)
    } else {
        speed * dt / 1_000_000
    }
}

fn travel_exec(speed: i64, dt: u64) -> (r: i64)
    requires
        -MAX_MAGNITUDE <= speed <= MAX_MAGNITUDE,
        dt <= MAX_TICK,
    ensures
        r == travel(speed as int, dt as int),
        -MAX_MAGNITUDE <= r <= MAX_MAGNITUDE,
{
    let a: i128 = if speed < 0 {
        -(speed as i128)
    } else {
        speed as i128
    };
    assert(0 <= a * dt <= MAX_MAGNITUDE * MAX_TICK) by (nonlinear_arith)
        requires
            0 <= a <= MAX_MAGNITUDE,
            0 <= dt <= MAX_TICK,
    ;
    assert(a * dt / 1_000_000 <= MAX_MAGNITUDE) by (nonlinear_arith)
        requires
            0 <= a * dt <= MAX_MAGNITUDE * MAX_TICK,
    ;
    let q = a * (dt as i128) / 1_000_000;
    if speed < 0 {
        -(q as i64)
    } else {
        q as i64
    }
}

/// A point after moving at `velocity` for a tick, clamped into the world.
pub open spec fn moved(pos: Vec2, velocity: Vec2, dt: int) -> Vec2 {
    Vec2 {
        x: clamp_coord(pos.x + travel(velocity.x as int, dt)) as i64,
        y: clamp_coord(pos.y + travel(velocity.y as int, dt)) as i64,
    }
}

/// Moves a point at `velocity` for a tick, clamped into the world.
pub fn advance(pos: Vec2, velocity: Vec2, dt: u64) -> (r: Vec2)
    requires
        in_world(pos),
        in_world(velocity),
        dt <= MAX_TICK,
    ensures
        r == moved(pos, velocity, dt as int),
        in_world(r),
{
    let d = Vec2 { x: travel_exec(velocity.x, dt), y: travel_exec(velocity.y, dt) };
    add_clamped(pos, d)
}

impl LinearProjectile {
    /// Moves the projectile along its velocity for a tick.
    pub fn update(&mut self, dt: u64)
        requires
            in_world(old(self).pos),
            in_world(old(self).velocity),
            dt <= MAX_TICK,
        ensures
            final(self).pos == moved(old(self).pos, old(self).velocity, dt as int),
            final(self).velocity == old(self).velocity,
    {
        self.pos = advance(self.pos, self.velocity, dt);
    }
}

/// A projectile for the outside world to spawn: where it starts, its
/// velocity, how hard it pushes the player, and how long it lives.
#[derive(Clone, Copy, Debug, PartialEq, Eq, Structural)]
pub struct Shot {
    pub from: Vec2,
    pub velocity: Vec2,
    pub knockback: i64,
    pub lifetime: u64,
}

/// How long enemy projectiles live, in microseconds.
pub const SHOT_LIFETIME: u64 = 10_000_000;

/// Speed and knockback of each kind of ammunition.
pub open spec fn ammo_spec(ammo: EnemyAmmo) -> (i64, i64) {
    match ammo {
        EnemyAmmo::Siren => (80_000, 120_000),
        EnemyAmmo::Wyvern => (100_000, 300_000),
    }
}

/// Speed and knockback of each kind of ammunition.
pub fn ammo_stats(ammo: EnemyAmmo) -> (r: (i64, i64))
    ensures
        r == ammo_spec(ammo),
{
    match ammo {
        EnemyAmmo::Siren => (80_000, 120_000),
        EnemyAmmo::Wyvern => (100_000, 300_000),
    }
}

/// One tick of a ranged enemy: only one that circles the player fires, and
/// only when its timer runs out; the shot flies straight at the player.
pub fn handle_ranged_ai(
    timer: &mut RepeatingTimer,
    circling: bool,
    pos: Vec2,
    player: Vec2,
    ammo: EnemyAmmo,
    dt: u64,
) -> (r: Option<Shot>)
    requires
        old(timer).wf(),
        in_world(pos),
        in_world(player),
        dt <= MAX_TICK,
    ensures
        final(timer).wf(),
        !circling ==> r == None::<Shot> && *final(timer) == *old(timer),
        circling ==> final(timer).elapsed == (old(timer).elapsed + dt) % (old(timer).period as int)
            && final(timer).period == old(timer).period,
        circling ==> r == if old(timer).elapsed + dt >= old(timer).period {
            Some(
                Shot {
                    from: pos,
                    velocity: toward_spec(pos, player, ammo_spec(ammo).0 as int),
                    knockback: ammo_spec(ammo).1,
                    lifetime: SHOT_LIFETIME,
                },
            )
        } else {
            None::<Shot>
        },
{
    if !circling {
        return None;
    }
    if !timer.tick(dt) {
        return None;
    }
    let (speed, knockback) = ammo_stats(ammo);
    Some(Shot { from: pos, velocity: toward(pos, player, speed), knockback, lifetime: SHOT_LIFETIME })
}

/// How many waves a kraken sends at once.
pub const KRAKEN_WAVES: usize = 8;

/// How fast kraken waves travel.
pub const WAVE_SPEED: i64 = 100_000;

/// How hard kraken waves push the player.
pub const WAVE_KNOCKBACK: i64 = 600_000;

/// The eight evenly spaced unit directions of a ring, in thousandths,
/// counterclockwise from east.
pub open spec fn ring_direction(i: int) -> Vec2 {
    if i == 0 {
        Vec2 { x: 1000, y: 0 }
    } else if i == 1 {
        Vec2 { x: 707, y: 707 }
    } else if i == 2 {
        Vec2 { x: 0, y: 1000 }
    } else if i == 3 {
        Vec2 { x: -707i64, y: 707 }
    } else if i == 4 {
        Vec2 { x: -1000i64, y: 0 }
    } else if i == 5 {
        Vec2 { x: -707i64, y: -707i64 }
    } else if i == 6 {
        Vec2 { x: 0, y: -1000i64 }
    } else {
        Vec2 { x: 707, y: -707i64 }
    }
}

fn ring_direction_exec(i: usize) -> (r: Vec2)
    ensures
        r == ring_direction(i as int),
{
    if i == 0 {
        Vec2 { x: 1000, y: 0 }
    } else if i == 1 {
        Vec2 { x: 707, y: 707 }
    } else if i == 2 {
        Vec2 { x: 0, y: 1000 }
    } else if i == 3 {
        Vec2 { x: -707, y: 707 }
    } else if i == 4 {
        Vec2 { x: -1000, y: 0 }
    } else if i == 5 {
        Vec2 { x: -707, y: -707 }
    } else if i == 6 {
        Vec2 { x: 0, y: -1000 }
    } else {
        Vec2 { x: 707, y: -707 }
    }
}

/// The wave sent along ring direction `i` from `pos`.
pub open spec fn wave(pos: Vec2, i: int) -> Shot {
    Shot {
        from: pos,
        velocity: Vec2 {
            x: (ring_direction(i).x * WAVE_SPEED / 1000) as i64,
            y: (ring_direction(i).y * WAVE_SPEED / 1000) as i64,
        },
        knockback: WAVE_KNOCKBACK,
        lifetime: SHOT_LIFETIME,
    }
}

/// One tick of a kraken: when its timer runs out it sends a full ring of
/// waves, one along each ring direction.
pub fn handle_kraken_ai(timer: &mut RepeatingTimer, pos: Vec2, dt: u64) -> (r: Vec<Shot>)
    requires
        old(timer).wf(),
        dt <= MAX_TICK,
    ensures
        final(timer).wf(),
        final(timer).period == old(timer).period,
        final(timer).elapsed == (old(timer).elapsed + dt) % (old(timer).period as int),
        old(timer).elapsed + dt >= old(timer).period ==> r.len() == KRAKEN_WAVES && forall|i: int|
            0 <= i < KRAKEN_WAVES ==> #[trigger] r@[i] == wave(pos, i),
        old(timer).elapsed + dt < old(timer).period ==> r.len() == 0,
{
    let mut out: Vec<Shot> = Vec::new();
    if !timer.tick(dt) {
        return out;
    }
    let mut i: usize = 0;
    while i < KRAKEN_WAVES
        invariant
            i <= KRAKEN_WAVES,
            out.len() == i,
            forall|j: int| 0 <= j < i ==> #[trigger] out@[j] == wave(pos, j),
        decreases KRAKEN_WAVES - i,
    {
        let d = ring_direction_exec(i);
        out.push(
            Shot {
                from: pos,
                velocity: Vec2 { x: d.x * WAVE_SPEED / 1000, y: d.y * WAVE_SPEED / 1000 },
                knockback: WAVE_KNOCKBACK,
                lifetime: SHOT_LIFETIME,
            },
        );
        i = i + 1;
    }
    out
}

} // verus!
