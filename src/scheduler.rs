//! Timed enemy spawning under an entity cap.
//!
//! The scheduler keeps the clock reading of its next spawn slot. On a tick it
//! walks every slot before the current reading; each slot advances the next
//! one by the period of the table then in force, and spawns one sampled kind
//! unless the live enemies have reached the cap. Dropped slots are not
//! deferred.

use vstd::prelude::*;
use crate::enemies::EnemyKind;
use crate::sampler::sample;
use crate::spawn_table::{
    range_at, rates_schedulable, time_key, SpawnTable, SpawnTableIndex, MAX_RATE,
};

verus! {

/// Microseconds per hundred seconds: a table of rate `r` spawns every
/// `SPAWN_PERIOD / r` microseconds.
pub const SPAWN_PERIOD: u64 = 100_000_000;

/// The largest clock reading, in microseconds, a tick accepts.
pub const MAX_CLOCK: u64 = 0x4000_0000_0000_0000;

/// The table in force at clock reading `t`.
pub open spec fn table_at(index: SpawnTableIndex<EnemyKind>, t: int) -> SpawnTable<EnemyKind> {
    index.tables()[range_at(index.starts(), time_key(t))]
}

/// The gap after a slot at clock reading `t`.
pub open spec fn step_at(index: SpawnTableIndex<EnemyKind>, t: int) -> int {
    let rate = table_at(index, t).global_rate;
    if rate == 0 {
        0
    } else {
        SPAWN_PERIOD as int / rate as int
    }
}

/// The reading of the `j`-th slot after a slot at `start`.
pub open spec fn slot_time(index: SpawnTableIndex<EnemyKind>, start: int, j: nat) -> int
    decreases j,
{
    if j == 0 {
        start
    } else {
        let p = slot_time(index, start, (j - 1) as nat);
        p + step_at(index, p)
    }
}

/// How many slots, from one at `next`, fall before `elapsed`.
pub open spec fn slot_count(index: SpawnTableIndex<EnemyKind>, next: int, elapsed: int) -> nat
    decreases (if next < elapsed {
        elapsed - next
    } else {
        0
    }),
{
    if next >= elapsed || step_at(index, next) <= 0 {
        0
    } else {
        1 + slot_count(index, next + step_at(index, next), elapsed)
    }
}

/// How many spawns the cap leaves room for.
pub open spec fn spawn_room(live: int, cap: int) -> int {
    if live < cap {
        cap - live
    } else {
        0
    }
}

/// `kind` has a positive weight in `table`.
pub open spec fn spawnable(table: SpawnTable<EnemyKind>, kind: EnemyKind) -> bool {
    exists|i: int|
        0 <= i < table.kinds.len() && table.kinds@[i] == kind && table.weights@[i] > 0
}

/// An index fit for timed spawning.
pub open spec fn schedulable(index: SpawnTableIndex<EnemyKind>) -> bool {
    index.wf() && rates_schedulable(index.tables())
}

proof fn lemma_step_positive(index: SpawnTableIndex<EnemyKind>, t: int)
    requires
        schedulable(index),
        t >= 0,
    ensures
        1 <= step_at(index, t) <= SPAWN_PERIOD,
{
    crate::spawn_table::lemma_lookup_unique(&index, t as nat);
    let rate = table_at(index, t).global_rate;
    assert(0 < rate <= MAX_RATE);
    assert(1 <= SPAWN_PERIOD as int / rate as int <= SPAWN_PERIOD) by (nonlinear_arith)
        requires
            0 < rate <= SPAWN_PERIOD,
    ;
}

/// The clock reading of the next spawn slot.
pub struct SpawnScheduler {
    pub next_spawn: u64,
}

impl SpawnScheduler {
    /// A scheduler for a new run: the first slot is at time zero.
    pub fn new() -> (r: Self)
        ensures
            r.next_spawn == 0,
    {
        SpawnScheduler { next_spawn: 0 }
    }

    /// Starts over for a new run.
    pub fn reset(&mut self)
        ensures
            final(self).next_spawn == 0,
    {
        self.next_spawn = 0;
    }

    /// Walks the slots before `elapsed` and returns the kinds to spawn, in
    /// slot order. `live` enemies exist before the tick and at most `cap` may.
    pub fn tick(
        &mut self,
        elapsed: u64,
        live: usize,
        cap: usize,
        index: &SpawnTableIndex<EnemyKind>,
    ) -> (r: Vec<EnemyKind>)
        requires
            schedulable(*index),
            elapsed <= MAX_CLOCK,
            old(self).next_spawn <= MAX_CLOCK + SPAWN_PERIOD,
        ensures
            final(self).next_spawn == slot_time(
                *index,
                old(self).next_spawn as int,
                slot_count(*index, old(self).next_spawn as int, elapsed as int),
            ),
            final(self).next_spawn <= MAX_CLOCK + SPAWN_PERIOD,
            r.len() == if slot_count(*index, old(self).next_spawn as int, elapsed as int)
                < spawn_room(live as int, cap as int) {
                slot_count(*index, old(self).next_spawn as int, elapsed as int) as int
            } else {
                spawn_room(live as int, cap as int)
            },
            forall|i: int|
                0 <= i < r.len() ==> spawnable(
                    table_at(*index, slot_time(*index, old(self).next_spawn as int, i as nat)),
                    #[trigger] r@[i],
                ),
    {
        let ghost start = self.next_spawn as int;
        let ghost total = slot_count(*index, start, elapsed as int);
        let ghost mut j: nat = 0;
        let mut out: Vec<EnemyKind> = Vec::new();
        while self.next_spawn < elapsed
            invariant
                schedulable(*index),
                elapsed <= MAX_CLOCK,
                self.next_spawn <= MAX_CLOCK + SPAWN_PERIOD,
                self.next_spawn == slot_time(*index, start, j),
                total == j + slot_count(*index, self.next_spawn as int, elapsed as int),
                out.len() == if j < spawn_room(live as int, cap as int) {
                    j as int
                } else {
                    spawn_room(live as int, cap as int)
                },
                forall|i: int|
                    0 <= i < out.len() ==> spawnable(
                        table_at(*index, slot_time(*index, start, i as nat)),
                        #[trigger] out@[i],
                    ),
            decreases (if self.next_spawn < elapsed {
                elapsed - self.next_spawn
            } else {
                0
            }),
        {
            let t = self.next_spawn;
            let table = index.lookup(t);
            proof {
                lemma_step_positive(*index, t as int);
                crate::spawn_table::lemma_lookup_unique(index, t as nat);
            }
            let step = SPAWN_PERIOD / table.global_rate as u64;
            self.next_spawn = t + step;
            if live < cap && out.len() < cap - live {
                let k = sample(&table.weights);
                let kind = table.kinds[k];
                out.push(kind);
                assert(spawnable(table_at(*index, slot_time(*index, start, j)), kind));
            }
            proof {
                j = j + 1;
            }
        }
        out
    }
}

/// Over any run of ticks the live enemy count stays within the cap: if each
/// tick spawns no more than the room the cap leaves, and anything else only
/// removes enemies, then a count that starts within the cap stays within it.
pub proof fn lemma_cap_never_exceeded(
    counts: Seq<int>,
    spawned: Seq<int>,
    removed: Seq<int>,
    cap: int,
)
    requires
        counts.len() == spawned.len() + 1,
        removed.len() == spawned.len(),
        0 <= counts[0] <= cap,
        forall|i: int|
            0 <= i < spawned.len() ==> 0 <= #[trigger] spawned[i] <= spawn_room(counts[i], cap),
        forall|i: int| 0 <= i < removed.len() ==> 0 <= #[trigger] removed[i],
        forall|i: int|
            0 <= i < spawned.len() ==> #[trigger] counts[i + 1] == counts[i] + spawned[i]
                - removed[i],
    ensures
        forall|i: int| 0 <= i < counts.len() ==> #[trigger] counts[i] <= cap,
    decreases spawned.len(),
{
    if spawned.len() > 0 {
        let n = spawned.len() - 1;
        lemma_cap_never_exceeded(
            counts.drop_last(),
            spawned.drop_last(),
            removed.drop_last(),
            cap,
        );
        assert forall|i: int| 0 <= i <= n implies #[trigger] counts[i] <= cap by {
            assert(counts.drop_last()[i] <= cap);
        }
        assert(counts[n + 1] == counts[n] + spawned[n] - removed[n]);
    }
}

} // verus!
