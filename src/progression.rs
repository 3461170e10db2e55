//! Experience and levels.
//!
//! Experience accumulates; while it exceeds the requirement of the current
//! level, the level rises by one and the requirement is paid out of it. Each
//! new level grants one stat bonus, chosen by the first rule that matches:
//! pierce on multiples of `PIERCE_LEVELS`, fire rate on multiples of
//! `RATE_LEVELS`, damage otherwise.

use vstd::prelude::*;

verus! {

/// Experience needed per level number.
pub const XP_SCALING: u64 = 25;

/// Levels that are multiples of this grant pierce.
pub const PIERCE_LEVELS: u64 = 10;

/// Levels that are multiples of this (and not of `PIERCE_LEVELS`) grant rate.
pub const RATE_LEVELS: u64 = 5;

/// The percentage points that one rate or damage bonus adds.
pub const BONUS_PERCENT: u64 = 10;

/// Experience required to leave `level`.
pub open spec fn required_xp(level: int) -> int {
    XP_SCALING as int * level
}

/// The experience that levelling from `from` up to `to` costs.
pub open spec fn xp_between(from: int, to: int) -> int
    decreases to - from,
{
    if to <= from {
        0
    } else {
        xp_between(from, to - 1) + required_xp(to - 1)
    }
}

/// One of three stat bonuses.
#[derive(Clone, Copy, Debug, PartialEq, Eq, Structural)]
pub enum StatIncrease {
    Pierce,
    Rate,
    Damage,
}

/// The bonus that reaching `level` grants.
pub open spec fn stat_for(level: int) -> StatIncrease {
    if level % PIERCE_LEVELS as int == 0 {
        StatIncrease::Pierce
    } else if level % RATE_LEVELS as int == 0 {
        StatIncrease::Rate
    } else {
        StatIncrease::Damage
    }
}

/// How many levels in `(from, to]` grant `stat`.
pub open spec fn bonus_count(stat: StatIncrease, from: int, to: int) -> int
    decreases to - from,
{
    if to <= from {
        0
    } else {
        bonus_count(stat, from, to - 1) + if stat_for(to) == stat {
            1int
        } else {
            0
        }
    }
}

/// A level reached, with the bonus it granted.
#[derive(Clone, Copy, Debug, PartialEq, Eq, Structural)]
pub struct LevelUp {
    pub level: u64,
    pub stat: StatIncrease,
}

/// The player's level, experience toward the next level, and bonuses.
pub struct Leveling {
    pub level: u64,
    pub xp: u64,
    pub pierce: u64,
    pub rate_bonuses: u64,
    pub damage_bonuses: u64,
}

/// Experience required to leave `level`.
pub fn level_required_xp(level: u64) -> (r: u128)
    ensures
        r == required_xp(level as int),
{
    assert(XP_SCALING as int * level as int <= u128::MAX) by (nonlinear_arith)
        requires
            XP_SCALING == 25,
            level <= u64::MAX,
    ;
    XP_SCALING as u128 * level as u128
}

/// Which bonus reaching `level` grants.
pub fn stat_for_level(level: u64) -> (r: StatIncrease)
    ensures
        r == stat_for(level as int),
{
    if level % PIERCE_LEVELS == 0 {
        StatIncrease::Pierce
    } else if level % RATE_LEVELS == 0 {
        StatIncrease::Rate
    } else {
        StatIncrease::Damage
    }
}

impl Leveling {
    /// Level one or above, and one bonus for each level past the first.
    pub open spec fn wf(&self) -> bool {
        &&& self.level >= 1
        &&& self.pierce + self.rate_bonuses + self.damage_bonuses == self.level - 1
        &&& self.level <= u64::MAX / 20
    }

    /// The fire-rate multiplier, in percent.
    pub open spec fn rate_percent_spec(&self) -> int {
        100 + BONUS_PERCENT as int * self.rate_bonuses as int
    }

    /// The damage multiplier, in percent.
    pub open spec fn damage_percent_spec(&self) -> int {
        100 + BONUS_PERCENT as int * self.damage_bonuses as int
    }

    /// Level one, no experience, no bonuses.
    pub fn default() -> (r: Self)
        ensures
            r.wf(),
            r.level == 1,
            r.xp == 0,
            r.pierce == 0,
            r.rate_bonuses == 0,
            r.damage_bonuses == 0,
    {
        Leveling { level: 1, xp: 0, pierce: 0, rate_bonuses: 0, damage_bonuses: 0 }
    }

    /// The fire-rate multiplier, in percent.
    pub fn rate_percent(&self) -> (r: u64)
        requires
            self.wf(),
        ensures
            r == self.rate_percent_spec(),
    {
        100 + BONUS_PERCENT * self.rate_bonuses
    }

    /// The damage multiplier, in percent.
    pub fn damage_percent(&self) -> (r: u64)
        requires
            self.wf(),
        ensures
            r == self.damage_percent_spec(),
    {
        100 + BONUS_PERCENT * self.damage_bonuses
    }

    /// Takes one level, paying its requirement out of the experience.
    pub fn level_up(&mut self) -> (r: LevelUp)
        requires
            old(self).wf(),
            old(self).xp > required_xp(old(self).level as int),
        ensures
            final(self).wf(),
            final(self).level == old(self).level + 1,
            final(self).xp == old(self).xp - required_xp(old(self).level as int),
            r == (LevelUp { level: final(self).level, stat: stat_for(final(self).level as int) }),
            final(self).pierce == old(self).pierce + if r.stat == StatIncrease::Pierce {
                1int
            } else {
                0
            },
            final(self).rate_bonuses == old(self).rate_bonuses + if r.stat == StatIncrease::Rate {
                1int
            } else {
                0
            },
            final(self).damage_bonuses == old(self).damage_bonuses + if r.stat
                == StatIncrease::Damage {
                1int
            } else {
                0
            },
    {
        let required = level_required_xp(self.level);
        assert(required_xp(self.level as int) == 25 * self.level);
        self.xp = self.xp - required as u64;
        self.level = self.level + 1;
        let stat = stat_for_level(self.level);
        match stat {
            StatIncrease::Pierce => self.pierce = self.pierce + 1,
            StatIncrease::Rate => self.rate_bonuses = self.rate_bonuses + 1,
            StatIncrease::Damage => self.damage_bonuses = self.damage_bonuses + 1,
        }
        LevelUp { level: self.level, stat }
    }

    /// Adds experience and takes every level it pays for, returning one
    /// event per level reached, in order.
    pub fn gain_xp(&mut self, amount: u64) -> (r: Vec<LevelUp>)
        requires
            old(self).wf(),
            old(self).xp + amount <= u64::MAX,
        ensures
            final(self).wf(),
            final(self).level == old(self).level + r.len(),
            final(self).xp + xp_between(old(self).level as int, final(self).level as int) == old(
                self,
            ).xp + amount,
            final(self).xp <= required_xp(final(self).level as int),
            forall|l: int|
                old(self).level <= l < final(self).level ==> old(self).xp + amount
                    - #[trigger] xp_between(old(self).level as int, l) > required_xp(l),
            forall|i: int|
                0 <= i < r.len() ==> (#[trigger] r@[i]).level == old(self).level + i + 1
                    && r@[i].stat == stat_for(old(self).level + i + 1),
            final(self).pierce == old(self).pierce + bonus_count(
                StatIncrease::Pierce,
                old(self).level as int,
                final(self).level as int,
            ),
            final(self).rate_bonuses == old(self).rate_bonuses + bonus_count(
                StatIncrease::Rate,
                old(self).level as int,
                final(self).level as int,
            ),
            final(self).damage_bonuses == old(self).damage_bonuses + bonus_count(
                StatIncrease::Damage,
                old(self).level as int,
                final(self).level as int,
            ),
    {
        let ghost l0 = self.level as int;
        let ghost x0 = self.xp + amount;
        let ghost p0 = self.pierce as int;
        let ghost r0 = self.rate_bonuses as int;
        let ghost d0 = self.damage_bonuses as int;
        self.xp = self.xp + amount;
        let mut events: Vec<LevelUp> = Vec::new();
        while self.xp as u128 > level_required_xp(self.level)
            invariant
                self.wf(),
                self.level == l0 + events.len(),
                self.xp + xp_between(l0, self.level as int) == x0,
                x0 <= u64::MAX,
                forall|l: int| l0 <= l < self.level ==> x0 - #[trigger] xp_between(l0, l) > required_xp(l),
                forall|i: int|
                    0 <= i < events.len() ==> (#[trigger] events@[i]).level == l0 + i + 1
                        && events@[i].stat == stat_for(l0 + i + 1),
                self.pierce == p0 + bonus_count(StatIncrease::Pierce, l0, self.level as int),
                self.rate_bonuses == r0 + bonus_count(StatIncrease::Rate, l0, self.level as int),
                self.damage_bonuses == d0 + bonus_count(StatIncrease::Damage, l0, self.level as int),
            decreases self.xp,
        {
            let ghost before = self.level as int;
            let ghost xp_before = self.xp as int;
            assert(x0 - xp_between(l0, before) > required_xp(before));
            let event = self.level_up();
            events.push(event);
            assert(xp_between(l0, before + 1) == xp_between(l0, before) + required_xp(before));
            assert(bonus_count(StatIncrease::Pierce, l0, before + 1) == bonus_count(StatIncrease::Pierce, l0, before) + if stat_for(before + 1) == StatIncrease::Pierce { 1int } else { 0 });
            assert(bonus_count(StatIncrease::Rate, l0, before + 1) == bonus_count(StatIncrease::Rate, l0, before) + if stat_for(before + 1) == StatIncrease::Rate { 1int } else { 0 });
            assert(bonus_count(StatIncrease::Damage, l0, before + 1) == bonus_count(StatIncrease::Damage, l0, before) + if stat_for(before + 1) == StatIncrease::Damage { 1int } else { 0 });
        }
        events
    }
}

} // verus!
