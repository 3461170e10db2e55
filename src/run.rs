//! The state of one run and the transitions between runs.
//!
//! A run holds the survival clock, the aggregate statistics, the inventory,
//! the cooldowns, the player's leveling and the spawn scheduler. Starting a
//! run resets all of them; the clock only advances while the run is on and
//! not paused.

use vstd::prelude::*;
use crate::combat::{handle_player_collision, ContactOutcome, PlayerBody};
use crate::geometry::{in_world, Vec2, MAX_MAGNITUDE};
use crate::items::{Inventory, Item, ItemCooldowns, ITEM_KINDS};
use crate::progression::{required_xp, stat_for, xp_between, LevelUp, Leveling};
use crate::scheduler::{SpawnScheduler, MAX_CLOCK};

verus! {

/// Aggregate statistics of a run.
#[derive(Clone, Copy, Debug, PartialEq, Eq, Structural)]
pub struct GameStats {
    pub enemies_killed: u64,
    pub items_collected: u64,
}

impl GameStats {
    /// Nothing killed, nothing collected.
    pub fn default() -> (r: Self)
        ensures
            r.enemies_killed == 0,
            r.items_collected == 0,
    {
        GameStats { enemies_killed: 0, items_collected: 0 }
    }
}

/// Where the game stands.
#[derive(Clone, Copy, Debug, PartialEq, Eq, Structural)]
pub enum GameState {
    StartMenu,
    Game,
    GameOver,
}

/// The simulation state of a run.
pub struct Run {
    pub clock: u64,
    pub paused: bool,
    pub state: GameState,
    pub stats: GameStats,
    pub inventory: Inventory,
    pub cooldowns: ItemCooldowns,
    pub leveling: Leveling,
    pub scheduler: SpawnScheduler,
}

impl Run {
    /// The parts of the state keep their invariants.
    pub open spec fn wf(&self) -> bool {
        &&& self.inventory.wf()
        &&& self.cooldowns.wf()
        &&& self.leveling.wf()
        &&& self.clock <= MAX_CLOCK
    }

    /// The state right after a run starts: the clock and statistics at
    /// zero, one spear, no cooldowns, level one, the first spawn slot at
    /// zero, running and not paused.
    pub open spec fn is_fresh(&self) -> bool {
        &&& self.wf()
        &&& self.clock == 0
        &&& !self.paused
        &&& self.state == GameState::Game
        &&& self.stats == GameStats { enemies_killed: 0, items_collected: 0 }
        &&& self.inventory.items@ == seq![Item::Spear]
        &&& forall|i: int| 0 <= i < ITEM_KINDS ==> #[trigger] self.cooldowns.last_fired@[i] == None::<u64>
        &&& self.leveling == Leveling {
            level: 1,
            xp: 0,
            pierce: 0,
            rate_bonuses: 0,
            damage_bonuses: 0,
        }
        &&& self.scheduler.next_spawn == 0
    }

    /// Everything that a reader of the run can observe agrees.
    pub open spec fn same_as(&self, other: &Run) -> bool {
        &&& self.clock == other.clock
        &&& self.paused == other.paused
        &&& self.state == other.state
        &&& self.stats == other.stats
        &&& self.inventory.items@ == other.inventory.items@
        &&& self.cooldowns.last_fired@ == other.cooldowns.last_fired@
        &&& self.leveling == other.leveling
        &&& self.scheduler.next_spawn == other.scheduler.next_spawn
    }

    /// The game as it is before the first run: at the start menu.
    pub fn new() -> (r: Self)
        ensures
            r.wf(),
            r.state == GameState::StartMenu,
            r.clock == 0,
            !r.paused,
            r.stats == (GameStats { enemies_killed: 0, items_collected: 0 }),
            r.inventory.items@ == seq![Item::Spear],
    {
        Run {
            clock: 0,
            paused: false,
            state: GameState::StartMenu,
            stats: GameStats::default(),
            inventory: Inventory::default(),
            cooldowns: ItemCooldowns::new(),
            leveling: Leveling::default(),
            scheduler: SpawnScheduler::new(),
        }
    }

    /// Starts a new run from whatever state the game is in.
    pub fn reset(&mut self)
        ensures
            final(self).is_fresh(),
    {
        self.clock = 0;
        self.paused = false;
        self.state = GameState::Game;
        self.stats = GameStats::default();
        self.inventory = Inventory::default();
        self.cooldowns.reset();
        self.leveling = Leveling::default();
        self.scheduler.reset();
    }

    /// Starts a run when the game is at the start menu or over; does
    /// nothing during a run.
    pub fn handle_start(&mut self) -> (started: bool)
        requires
            old(self).wf(),
        ensures
            final(self).wf(),
            started == (old(self).state != GameState::Game),
            started ==> final(self).is_fresh(),
            !started ==> final(self).same_as(old(self)),
    {
        if self.state == GameState::Game {
            return false;
        }
        self.reset();
        true
    }

    /// Toggles the pause during a run; does nothing otherwise.
    pub fn handle_pause(&mut self)
        ensures
            final(self).paused == if old(self).state == GameState::Game {
                !old(self).paused
            } else {
                old(self).paused
            },
            final(self).clock == old(self).clock,
            final(self).state == old(self).state,
    {
        if self.state == GameState::Game {
            self.paused = !self.paused;
        }
    }

    /// Advances the survival clock by `dt` microseconds while a run is on
    /// and not paused; the clock stops at `MAX_CLOCK`.
    pub fn update_ingame_time(&mut self, dt: u64)
        requires
            old(self).wf(),
        ensures
            final(self).wf(),
            final(self).clock == if old(self).state == GameState::Game && !old(self).paused {
                if old(self).clock + dt <= MAX_CLOCK {
                    old(self).clock + dt
                } else {
                    MAX_CLOCK as int
                }
            } else {
                old(self).clock as int
            },
    {
        if self.state == GameState::Game && !self.paused {
            self.clock = if dt <= MAX_CLOCK - self.clock {
                self.clock + dt
            } else {
                MAX_CLOCK
            };
        }
    }

    /// The player picked up an item.
    pub fn handle_item_pickup(&mut self, item: Item)
        requires
            old(self).wf(),
            old(self).stats.items_collected < u64::MAX,
        ensures
            final(self).wf(),
            final(self).stats.items_collected == old(self).stats.items_collected + 1,
            final(self).stats.enemies_killed == old(self).stats.enemies_killed,
            final(self).inventory.items@ == if old(self).inventory.items.len()
                < crate::items::INVENTORY_SIZE {
                old(self).inventory.items@.push(item)
            } else {
                old(self).inventory.items@.push(item).subrange(
                    1,
                    old(self).inventory.items.len() + 1,
                )
            },
    {
        self.inventory.pickup(item);
        self.stats.items_collected = self.stats.items_collected + 1;
    }

    /// Counts enemies that died.
    pub fn record_kills(&mut self, n: u64)
        requires
            old(self).stats.enemies_killed + n <= u64::MAX,
        ensures
            final(self).stats.enemies_killed == old(self).stats.enemies_killed + n,
            final(self).stats.items_collected == old(self).stats.items_collected,
    {
        self.stats.enemies_killed = self.stats.enemies_killed + n;
    }

    /// Credits experience to the player: every level it pays for is taken,
    /// one event per level, in order.
    pub fn handle_xp(&mut self, amount: u64) -> (r: Vec<LevelUp>)
        requires
            old(self).wf(),
            old(self).leveling.xp + amount <= u64::MAX,
        ensures
            final(self).wf(),
            final(self).leveling.level == old(self).leveling.level + r.len(),
            final(self).leveling.xp + xp_between(
                old(self).leveling.level as int,
                final(self).leveling.level as int,
            ) == old(self).leveling.xp + amount,
            final(self).leveling.xp <= required_xp(final(self).leveling.level as int),
            forall|l: int|
                old(self).leveling.level <= l < final(self).leveling.level ==> old(self).leveling.xp + amount - #[trigger] xp_between(old(self).leveling.level as int, l)
                    > required_xp(l),
            forall|i: int|
                0 <= i < r.len() ==> (#[trigger] r@[i]).level == old(self).leveling.level + i + 1
                    && r@[i].stat == stat_for(old(self).leveling.level + i + 1),
            final(self).clock == old(self).clock,
            final(self).stats == old(self).stats,
            final(self).inventory.items@ == old(self).inventory.items@,
    {
        self.leveling.gain_xp(amount)
    }

    /// A contact with the player; a hit on an empty inventory ends the run.
    pub fn handle_player_collision(
        &mut self,
        body: &mut PlayerBody,
        source: Vec2,
        knockback: Option<i64>,
    ) -> (r: ContactOutcome)
        requires
            old(self).wf(),
            in_world(old(body).pos),
            in_world(source),
            in_world(old(body).velocity),
            match knockback {
                Some(k) => 0 <= k <= MAX_MAGNITUDE,
                None => true,
            },
        ensures
            final(self).wf(),
            final(self).state == if r == ContactOutcome::GameOver {
                GameState::GameOver
            } else {
                old(self).state
            },
            old(body).invulnerable_for == 0 && old(self).inventory.items.len() == 0 ==> r
                == ContactOutcome::GameOver,
            old(body).invulnerable_for == 0 && old(self).inventory.items.len() > 0 ==> r
                == ContactOutcome::ItemLost(old(self).inventory.items@[0])
                && final(self).inventory.items@ == old(self).inventory.items@.subrange(
                1,
                old(self).inventory.items.len() as int,
            ),
            old(body).invulnerable_for > 0 ==> r == ContactOutcome::Ignored
                && final(self).inventory.items@ == old(self).inventory.items@,
    {
        let r = handle_player_collision(body, &mut self.inventory, source, knockback);
        if r == ContactOutcome::GameOver {
            self.state = GameState::GameOver;
        }
        r
    }
}

/// Resetting is idempotent: any two freshly reset runs agree on everything
/// observable, so a second reset changes nothing the first did not.
pub proof fn lemma_reset_idempotent(a: &Run, b: &Run)
    requires
        a.is_fresh(),
        b.is_fresh(),
    ensures
        a.same_as(b),
{
    assert(a.cooldowns.last_fired@ =~= b.cooldowns.last_fired@);
}

} // verus!
