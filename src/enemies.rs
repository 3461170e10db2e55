//! Enemy kinds, their stats, and the enemy record.
//!
//! Health is in hundredths of a hit point, speeds in thousandths of a pixel
//! per second, accelerations in thousandths of a pixel per second squared,
//! periods in microseconds.

use vstd::prelude::*;
use crate::geometry::{in_world, Vec2};

verus! {

/// The kinds of enemy that the spawn tables can produce.
#[derive(Clone, Copy, Debug, PartialEq, Eq, Structural)]
pub enum EnemyKind {
    Ferris,
    Serpent,
    Siren,
    EliteSerpent,
    Hydra,
    Wyvern,
    Kraken,
}

/// What a ranged enemy shoots.
#[derive(Clone, Copy, Debug, PartialEq, Eq, Structural)]
pub enum EnemyAmmo {
    Siren,
    Wyvern,
}

/// How an enemy moves.
#[derive(Clone, Copy, Debug, PartialEq, Eq, Structural)]
pub enum Motion {
    /// Accelerates straight at the player.
    Chase { acceleration: i64 },
    /// Closes in at `chase_speed`, then circles the player at `radius`,
    /// covering `orbit_speed` thousandths of a radius-length arc per second.
    Surround { chase_speed: i64, orbit_speed: i64, radius: i64 },
}

/// How an enemy attacks from afar, besides touching the player.
#[derive(Clone, Copy, Debug, PartialEq, Eq, Structural)]
pub enum Attack {
    /// Only hurts by touch.
    Contact,
    /// Shoots at the player every `period` once circling.
    Ranged { period: u64, ammo: EnemyAmmo },
    /// Sends a ring of waves every `period`.
    Waves { period: u64 },
}

/// The fixed stats of a kind.
#[derive(Clone, Copy, Debug, PartialEq, Eq, Structural)]
pub struct EnemyProfile {
    pub health: i64,
    pub xp: u64,
    pub max_speed: i64,
    pub knockback: i64,
    pub motion: Motion,
    pub attack: Attack,
}

/// A live enemy.
#[derive(Clone, Copy, Debug, PartialEq, Eq, Structural)]
pub struct Enemy {
    pub kind: EnemyKind,
    pub health: i64,
    pub max_health: i64,
    pub xp: u64,
    pub pos: Vec2,
    pub velocity: Vec2,
}

/// The stats of each kind.
pub open spec fn profile_spec(kind: EnemyKind) -> EnemyProfile {
    match kind {
        EnemyKind::Ferris => EnemyProfile {
            health: 2500,
            xp: 1,
            max_speed: 125_000,
            knockback: 320_000,
            motion: Motion::Chase { acceleration: 75_000 },
            attack: Attack::Contact,
        },
        EnemyKind::Serpent => EnemyProfile {
            health: 4000,
            xp: 5,
            max_speed: 200_000,
            knockback: 320_000,
            motion: Motion::Chase { acceleration: 75_000 },
            attack: Attack::Contact,
        },
        EnemyKind::Siren => EnemyProfile {
            health: 1500,
            xp: 10,
            max_speed: 125_000,
            knockback: 320_000,
            motion: Motion::Surround { chase_speed: 150_000, orbit_speed: 2_500, radius: 250_000 },
            attack: Attack::Ranged { period: 3_000_000, ammo: EnemyAmmo::Siren },
        },
        EnemyKind::EliteSerpent => EnemyProfile {
            health: 10000,
            xp: 20,
            max_speed: 200_000,
            knockback: 320_000,
            motion: Motion::Chase { acceleration: 75_000 },
            attack: Attack::Contact,
        },
        EnemyKind::Hydra => EnemyProfile {
            health: 25000,
            xp: 35,
            max_speed: 200_000,
            knockback: 500_000,
            motion: Motion::Chase { acceleration: 75_000 },
            attack: Attack::Contact,
        },
        EnemyKind::Wyvern => EnemyProfile {
            health: 15000,
            xp: 50,
            max_speed: 125_000,
            knockback: 320_000,
            motion: Motion::Surround { chase_speed: 150_000, orbit_speed: 10_000, radius: 300_000 },
            attack: Attack::Ranged { period: 3_000_000, ammo: EnemyAmmo::Wyvern },
        },
        EnemyKind::Kraken => EnemyProfile {
            health: 250000,
            xp: 100,
            max_speed: 150_000,
            knockback: 320_000,
            motion: Motion::Chase { acceleration: 75_000 },
            attack: Attack::Waves { period: 5_000_000 },
        },
    }
}

/// The stats of a kind.
pub fn enemy_profile(kind: EnemyKind) -> (r: EnemyProfile)
    ensures
        r == profile_spec(kind),
{
    match kind {
        EnemyKind::Ferris => EnemyProfile {
            health: 2500,
            xp: 1,
            max_speed: 125_000,
            knockback: 320_000,
            motion: Motion::Chase { acceleration: 75_000 },
            attack: Attack::Contact,
        },
        EnemyKind::Serpent => EnemyProfile {
            health: 4000,
            xp: 5,
            max_speed: 200_000,
            knockback: 320_000,
            motion: Motion::Chase { acceleration: 75_000 },
            attack: Attack::Contact,
        },
        EnemyKind::Siren => EnemyProfile {
            health: 1500,
            xp: 10,
            max_speed: 125_000,
            knockback: 320_000,
            motion: Motion::Surround { chase_speed: 150_000, orbit_speed: 2_500, radius: 250_000 },
            attack: Attack::Ranged { period: 3_000_000, ammo: EnemyAmmo::Siren },
        },
        EnemyKind::EliteSerpent => EnemyProfile {
            health: 10000,
            xp: 20,
            max_speed: 200_000,
            knockback: 320_000,
            motion: Motion::Chase { acceleration: 75_000 },
            attack: Attack::Contact,
        },
        EnemyKind::Hydra => EnemyProfile {
            health: 25000,
            xp: 35,
            max_speed: 200_000,
            knockback: 500_000,
            motion: Motion::Chase { acceleration: 75_000 },
            attack: Attack::Contact,
        },
        EnemyKind::Wyvern => EnemyProfile {
            health: 15000,
            xp: 50,
            max_speed: 125_000,
            knockback: 320_000,
            motion: Motion::Surround { chase_speed: 150_000, orbit_speed: 10_000, radius: 300_000 },
            attack: Attack::Ranged { period: 3_000_000, ammo: EnemyAmmo::Wyvern },
        },
        EnemyKind::Kraken => EnemyProfile {
            health: 250000,
            xp: 100,
            max_speed: 150_000,
            knockback: 320_000,
            motion: Motion::Chase { acceleration: 75_000 },
            attack: Attack::Waves { period: 5_000_000 },
        },
    }
}

/// A fresh enemy of `kind` standing still at `pos`, at full health.
pub fn spawn_enemy(kind: EnemyKind, pos: Vec2) -> (r: Enemy)
    requires
        in_world(pos),
    ensures
        r == (Enemy {
            kind,
            health: profile_spec(kind).health,
            max_health: profile_spec(kind).health,
            xp: profile_spec(kind).xp,
            pos,
            velocity: Vec2 { x: 0, y: 0 },
        }),
        r.health > 0,
{
    let p = enemy_profile(kind);
    Enemy { kind, health: p.health, max_health: p.health, xp: p.xp, pos, velocity: Vec2 { x: 0, y: 0 } }
}

/// A ferris at `pos`.
pub fn spawn_ferris(pos: Vec2) -> (r: Enemy)
    requires
        in_world(pos),
    ensures
        r == spawn_spec(EnemyKind::Ferris, pos),
{
    spawn_enemy(EnemyKind::Ferris, pos)
}

/// A serpent at `pos`.
pub fn spawn_serpent(pos: Vec2) -> (r: Enemy)
    requires
        in_world(pos),
    ensures
        r == spawn_spec(EnemyKind::Serpent, pos),
{
    spawn_enemy(EnemyKind::Serpent, pos)
}

/// A siren at `pos`.
pub fn spawn_siren(pos: Vec2) -> (r: Enemy)
    requires
        in_world(pos),
    ensures
        r == spawn_spec(EnemyKind::Siren, pos),
{
    spawn_enemy(EnemyKind::Siren, pos)
}

/// An elite serpent at `pos`.
pub fn spawn_elite_serpent(pos: Vec2) -> (r: Enemy)
    requires
        in_world(pos),
    ensures
        r == spawn_spec(EnemyKind::EliteSerpent, pos),
{
    spawn_enemy(EnemyKind::EliteSerpent, pos)
}

/// A hydra at `pos`.
pub fn spawn_hydra(pos: Vec2) -> (r: Enemy)
    requires
        in_world(pos),
    ensures
        r == spawn_spec(EnemyKind::Hydra, pos),
{
    spawn_enemy(EnemyKind::Hydra, pos)
}

/// A wyvern at `pos`.
pub fn spawn_wyvern(pos: Vec2) -> (r: Enemy)
    requires
        in_world(pos),
    ensures
        r == spawn_spec(EnemyKind::Wyvern, pos),
{
    spawn_enemy(EnemyKind::Wyvern, pos)
}

/// A kraken at `pos`.
pub fn spawn_kraken(pos: Vec2) -> (r: Enemy)
    requires
        in_world(pos),
    ensures
        r == spawn_spec(EnemyKind::Kraken, pos),
{
    spawn_enemy(EnemyKind::Kraken, pos)
}

/// A fresh enemy of `kind` standing still at `pos`, at full health.
pub open spec fn spawn_spec(kind: EnemyKind, pos: Vec2) -> Enemy {
    Enemy {
        kind,
        health: profile_spec(kind).health,
        max_health: profile_spec(kind).health,
        xp: profile_spec(kind).xp,
        pos,
        velocity: Vec2 { x: 0, y: 0 },
    }
}

} // verus!
