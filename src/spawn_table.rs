//! Spawn tables keyed by elapsed survival time.
//!
//! An index holds a list of range starts, in whole seconds, and one table per
//! range. Range `i` runs from `starts[i]` up to the next start; the last one
//! runs to the end of time. A lookup turns a clock reading in microseconds
//! into whole seconds and returns the table of the range that holds it.

use vstd::prelude::*;
use rangemap::RangeMap;
use crate::bindings::{range_map_get, range_map_insert, range_map_new, range_points};
use crate::enemies::EnemyKind;
use crate::enemies::EnemyKind::{EliteSerpent, Hydra, Kraken, Serpent, Siren, Wyvern};
use crate::items::Item;
use crate::items::Item::{Bow, GreekFire, PoseidonTrident, Spear, ZeusThunderbolt};
use crate::sampler::{valid_weights, MAX_WEIGHTS};

verus! {

/// Microseconds in one second of survival time.
pub const MICROS_PER_SECOND: u64 = 1_000_000;

/// A weighted list of spawnable kinds, with a global spawn rate.
///
/// The rate counts spawns per hundred seconds; tables that are not used for
/// timed spawning leave it at zero.
pub struct SpawnTable<K> {
    pub global_rate: u32,
    pub kinds: Vec<K>,
    pub weights: Vec<u32>,
}

impl<K> SpawnTable<K> {
    /// One weight per kind, and the weights can be sampled.
    pub open spec fn wf(&self) -> bool {
        &&& self.kinds.len() == self.weights.len()
        &&& valid_weights(self.weights@)
    }
}

/// Where range `i` ends: at the next start, or at `i32::MAX` for the last.
pub open spec fn range_end(starts: Seq<i32>, i: int) -> int {
    if i + 1 < starts.len() {
        starts[i + 1] as int
    } else {
        i32::MAX as int
    }
}

/// Range `i` holds second `k`.
pub open spec fn covers(starts: Seq<i32>, i: int, k: int) -> bool {
    0 <= i < starts.len() && starts[i] <= k < range_end(starts, i)
}

/// Starts that begin at zero and strictly increase, each range non-empty.
pub open spec fn valid_starts(starts: Seq<i32>) -> bool {
    &&& starts.len() > 0
    &&& starts[0] == 0
    &&& forall|i: int| 0 <= i < starts.len() ==> starts[i] < #[trigger] range_end(starts, i)
}

/// The largest spawn rate a timed table may have: one spawn per microsecond.
pub const MAX_RATE: u32 = 100_000_000;

/// Every table has a rate that timed spawning can use.
pub open spec fn rates_schedulable<K>(tables: Seq<SpawnTable<K>>) -> bool {
    forall|i: int| 0 <= i < tables.len() ==> 0 < (#[trigger] tables[i]).global_rate <= MAX_RATE
}

/// Every table of the list is well formed.
pub open spec fn valid_tables<K>(tables: Seq<SpawnTable<K>>) -> bool {
    forall|i: int| 0 <= i < tables.len() ==> (#[trigger] tables[i]).wf()
}

/// The whole second that a clock reading in microseconds falls in; readings
/// past the last representable key stay in the last range.
pub open spec fn time_key(t: int) -> int {
    let s = t / (MICROS_PER_SECOND as int);
    if s < i32::MAX - 1 {
        s
    } else {
        i32::MAX - 1
    }
}

/// The range that holds second `k`.
pub open spec fn range_at(starts: Seq<i32>, k: int) -> int {
    choose|i: int| covers(starts, i, k)
}

proof fn lemma_starts_increase(starts: Seq<i32>, i: int, j: int)
    requires
        valid_starts(starts),
        0 <= i < j < starts.len(),
    ensures
        range_end(starts, i) <= starts[j],
    decreases j - i,
{
    if i + 1 < j {
        lemma_starts_increase(starts, i + 1, j);
        assert(starts[i + 1] < range_end(starts, i + 1));
    } else {
        assert(range_end(starts, i) == starts[j]);
    }
}

/// The ranges partition `[0, i32::MAX)`: each second in it lies in exactly
/// one range, and no range reaches below zero.
pub proof fn lemma_ranges_partition(starts: Seq<i32>, k: int)
    requires
        valid_starts(starts),
    ensures
        0 <= k < i32::MAX <==> exists|i: int| covers(starts, i, k),
        forall|i: int, j: int| covers(starts, i, k) && covers(starts, j, k) ==> i == j,
{
    assert forall|i: int, j: int| covers(starts, i, k) && covers(starts, j, k) implies i == j by {
        if i < j {
            lemma_starts_increase(starts, i, j);
        } else if j < i {
            lemma_starts_increase(starts, j, i);
        }
    }
    if exists|i: int| covers(starts, i, k) {
        let i = choose|i: int| covers(starts, i, k);
        if i > 0 {
            lemma_starts_increase(starts, 0, i);
        }
        assert(starts[i] < range_end(starts, i));
    }
    if 0 <= k < i32::MAX {
        lemma_cover_exists(starts, k, starts.len() as int);
    }
}

proof fn lemma_cover_exists(starts: Seq<i32>, k: int, n: int)
    requires
        valid_starts(starts),
        1 <= n <= starts.len(),
        0 <= k,
        k < (if n < starts.len() { starts[n] as int } else { i32::MAX as int }),
    ensures
        exists|i: int| covers(starts, i, k),
    decreases n,
{
    if k >= starts[n - 1] {
        assert(covers(starts, n - 1, k));
    } else {
        lemma_cover_exists(starts, k, n - 1);
    }
}

/// Why a spawn configuration was refused.
#[derive(Clone, Copy, Debug, PartialEq, Eq, Structural)]
pub enum ConfigError {
    /// The starts do not begin at zero and strictly increase, or their count
    /// differs from the count of tables.
    Ranges,
    /// A table has no usable weights, or not one weight per kind.
    Weights,
}

/// Time-ranged spawn tables, with a range map from seconds to tables.
pub struct SpawnTableIndex<K> {
    starts: Vec<i32>,
    tables: Vec<SpawnTable<K>>,
    ranges: RangeMap<i32, usize>,
}

impl<K> SpawnTableIndex<K> {
    /// The range starts, in seconds.
    pub closed spec fn starts(&self) -> Seq<i32> {
        self.starts@
    }

    /// The tables, one per range.
    pub closed spec fn tables(&self) -> Seq<SpawnTable<K>> {
        self.tables@
    }

    /// The configuration is valid and the range map sends each second of
    /// `[0, i32::MAX)` to the range that holds it.
    pub closed spec fn wf(&self) -> bool {
        &&& valid_starts(self.starts@)
        &&& self.starts.len() == self.tables.len()
        &&& valid_tables(self.tables@)
        &&& forall|k: i32| #[trigger]
            range_points(self.ranges).contains_key(k) <==> 0 <= k < i32::MAX
        &&& forall|k: i32|
            0 <= k < i32::MAX ==> covers(
                self.starts@,
                #[trigger] range_points(self.ranges)[k] as int,
                k as int,
            )
    }

    /// Checks a configuration and builds its index.
    pub fn new(starts: Vec<i32>, tables: Vec<SpawnTable<K>>) -> (r: Result<Self, ConfigError>)
        ensures
            !(valid_starts(starts@) && starts.len() == tables.len()) ==> r == Err::<
                Self,
                ConfigError,
            >(ConfigError::Ranges),
            valid_starts(starts@) && starts.len() == tables.len() && !valid_tables(tables@) ==> r
                == Err::<Self, ConfigError>(ConfigError::Weights),
            valid_starts(starts@) && starts.len() == tables.len() && valid_tables(tables@) ==> (
            match r {
                Ok(index) => index.wf() && index.starts() == starts@ && index.tables()
                    == tables@,
                Err(_) => false,
            }),
    {
        if !check_starts(&starts) || starts.len() != tables.len() {
            return Err(ConfigError::Ranges);
        }
        if !check_tables(&tables) {
            return Err(ConfigError::Weights);
        }
        Ok(Self::build(starts, tables))
    }

    /// Builds the index of a configuration already known to be valid.
    pub fn build(starts: Vec<i32>, tables: Vec<SpawnTable<K>>) -> (r: Self)
        requires
            valid_starts(starts@),
            starts.len() == tables.len(),
            valid_tables(tables@),
        ensures
            r.wf(),
            r.starts() == starts@,
            r.tables() == tables@,
    {
        let mut ranges = range_map_new();
        let n = starts.len();
        let mut i: usize = 0;
        while i < n
            invariant
                n == starts.len(),
                valid_starts(starts@),
                i <= n,
                forall|k: i32| #[trigger]
                    range_points(ranges).contains_key(k) <==> 0 <= k < (if i < n {
                        starts@[i as int] as int
                    } else {
                        i32::MAX as int
                    }),
                forall|k: i32|
                    range_points(ranges).contains_key(k) ==> covers(
                        starts@,
                        #[trigger] range_points(ranges)[k] as int,
                        k as int,
                    ),
            decreases n - i,
        {
            let start = starts[i];
            let end = if i + 1 < n {
                starts[i + 1]
            } else {
                i32::MAX
            };
            assert(starts@[i as int] < range_end(starts@, i as int));
            proof {
                if i > 0 {
                    lemma_starts_increase(starts@, 0, i as int);
                }
            }
            range_map_insert(&mut ranges, start, end, i);
            i = i + 1;
        }
        SpawnTableIndex { starts, tables, ranges }
    }

    /// The position of the range that holds clock reading `t` (microseconds).
    pub fn lookup_index(&self, t: u64) -> (r: usize)
        requires
            self.wf(),
        ensures
            covers(self.starts(), r as int, time_key(t as int)),
            r < self.tables().len(),
    {
        let secs = t / MICROS_PER_SECOND;
        let key: i32 = if secs < (i32::MAX - 1) as u64 {
            secs as i32
        } else {
            i32::MAX - 1
        };
        match range_map_get(&self.ranges, key) {
            Some(i) => i,
            None => {
                proof {
                    assert(range_points(self.ranges).contains_key(key));
                }
                0
            },
        }
    }

    /// The table in force at clock reading `t` (microseconds).
    pub fn lookup(&self, t: u64) -> (r: &SpawnTable<K>)
        requires
            self.wf(),
        ensures
            *r == self.tables()[range_at(self.starts(), time_key(t as int))],
            r.wf(),
    {
        let i = self.lookup_index(t);
        proof {
            lemma_ranges_partition(self.starts(), time_key(t as int));
        }
        &self.tables[i]
    }
}

/// The whole lookup law: every clock reading has a range, that range is the
/// only one holding it, and the table returned is that range's table.
pub proof fn lemma_lookup_unique<K>(index: &SpawnTableIndex<K>, t: nat)
    requires
        index.wf(),
    ensures
        covers(index.starts(), range_at(index.starts(), time_key(t as int)), time_key(t as int)),
        forall|j: int|
            covers(index.starts(), j, time_key(t as int)) ==> j == range_at(
                index.starts(),
                time_key(t as int),
            ),
        0 <= range_at(index.starts(), time_key(t as int)) < index.tables().len(),
{
    lemma_ranges_partition(index.starts(), time_key(t as int));
}

/// A table from its rate, kinds and a weight list whose first weight is
/// positive.
fn table<K>(global_rate: u32, kinds: Vec<K>, weights: Vec<u32>) -> (r: SpawnTable<K>)
    requires
        kinds.len() == weights.len(),
        0 < weights.len() <= MAX_WEIGHTS,
        weights@[0] > 0,
    ensures
        r.wf(),
        r.global_rate == global_rate,
        r.kinds@ == kinds@,
        r.weights@ == weights@,
{
    assert(weights@[0] > 0);
    SpawnTable { global_rate, kinds, weights }
}

fn push_table<K>(tables: &mut Vec<SpawnTable<K>>, t: SpawnTable<K>)
    requires
        valid_tables(old(tables)@),
        t.wf(),
    ensures
        valid_tables(final(tables)@),
        final(tables)@ == old(tables)@.push(t),
        rates_schedulable(old(tables)@) && 0 < t.global_rate <= MAX_RATE ==> rates_schedulable(
            final(tables)@,
        ),
{
    tables.push(t);
}

/// Starts every `width` seconds: `0, width, 2 * width, ...`, `count` of them.
pub fn even_starts(count: usize, width: i32) -> (r: Vec<i32>)
    requires
        0 < count,
        0 < width,
        count * width < i32::MAX,
    ensures
        r.len() == count,
        forall|i: int| 0 <= i < count ==> #[trigger] r@[i] == i * width,
        valid_starts(r@),
{
    let mut r: Vec<i32> = Vec::new();
    let mut i: usize = 0;
    while i < count
        invariant
            i <= count,
            0 < width,
            count * width < i32::MAX,
            r.len() == i,
            forall|j: int| 0 <= j < i ==> #[trigger] r@[j] == j * width,
        decreases count - i,
    {
        assert(i * width < count * width && i <= i * width) by (nonlinear_arith)
            requires
                i < count,
                0 < width,
        ;
        let v: i32 = (i as i32) * width;
        r.push(v);
        assert(r@[i as int] == i * width);
        i = i + 1;
    }
    assert forall|j: int| 0 <= j < r.len() implies r@[j] < #[trigger] range_end(r@, j) by {
        if j + 1 < r.len() {
            assert(r@[j + 1] == (j + 1) * width);
            assert((j + 1) * width == j * width + width) by (nonlinear_arith);
        } else {
            assert(j * width < count * width) by (nonlinear_arith)
                requires
                    j < count,
                    0 < width,
            ;
        }
    }
    r
}

/// Seconds between two ranges of the built-in tables.
pub const RANGE_SECONDS: i32 = 60;

/// The built-in enemy tables: a new table each minute for fifteen minutes,
/// the last one in force from then on.
pub fn enemy_spawn_tables() -> (r: SpawnTableIndex<EnemyKind>)
    ensures
        r.wf(),
        r.starts().len() == 16,
        forall|i: int| 0 <= i < 16 ==> #[trigger] r.starts()[i] == i * RANGE_SECONDS,
        rates_schedulable(r.tables()),
{
    let starts = even_starts(16, RANGE_SECONDS);
    let mut t: Vec<SpawnTable<EnemyKind>> = Vec::new();
    push_table(&mut t, table(250, vec![Serpent, Siren], vec![2, 1]));
    push_table(&mut t, table(300, vec![Serpent, Siren], vec![2, 1]));
    push_table(&mut t, table(400, vec![Serpent, Siren, EliteSerpent], vec![2, 2, 1]));
    push_table(&mut t, table(500, vec![EliteSerpent, Hydra, Siren], vec![4, 1, 1]));
    push_table(&mut t, table(600, vec![EliteSerpent, Hydra, Wyvern], vec![4, 1, 1]));
    push_table(&mut t, table(300, vec![EliteSerpent, Hydra, Wyvern, Kraken], vec![4, 2, 2, 1]));
    push_table(&mut t, table(400, vec![EliteSerpent, Hydra, Wyvern, Kraken], vec![4, 2, 2, 1]));
    push_table(&mut t, table(500, vec![EliteSerpent, Hydra, Wyvern, Kraken], vec![4, 3, 2, 1]));
    push_table(&mut t, table(600, vec![EliteSerpent, Hydra, Wyvern, Kraken], vec![4, 3, 2, 1]));
    push_table(&mut t, table(700, vec![EliteSerpent, Hydra, Wyvern, Kraken], vec![4, 3, 2, 1]));
    push_table(&mut t, table(800, vec![EliteSerpent, Hydra, Wyvern, Kraken], vec![4, 3, 2, 1]));
    push_table(&mut t, table(9000, vec![EliteSerpent, Hydra, Wyvern, Kraken], vec![4, 3, 2, 1]));
    push_table(&mut t, table(1000, vec![EliteSerpent, Hydra, Wyvern, Kraken], vec![4, 3, 2, 1]));
    push_table(&mut t, table(1500, vec![EliteSerpent, Hydra, Wyvern, Kraken], vec![4, 3, 2, 1]));
    push_table(&mut t, table(2500, vec![EliteSerpent, Hydra, Wyvern, Kraken], vec![4, 3, 2, 1]));
    push_table(&mut t, table(5000, vec![EliteSerpent, Hydra, Wyvern, Kraken], vec![4, 3, 2, 1]));
    SpawnTableIndex::build(starts, t)
}

/// The built-in item tables: a new table each minute for five minutes, the
/// last one in force from then on. Item tables have no timed rate.
pub fn item_spawn_tables() -> (r: SpawnTableIndex<Item>)
    ensures
        r.wf(),
        r.starts().len() == 6,
        forall|i: int| 0 <= i < 6 ==> #[trigger] r.starts()[i] == i * RANGE_SECONDS,
{
    let starts = even_starts(6, RANGE_SECONDS);
    let mut t: Vec<SpawnTable<Item>> = Vec::new();
    push_table(&mut t, table(0, vec![Spear, Bow, GreekFire], vec![5, 5, 1]));
    push_table(&mut t, table(0, vec![Spear, Bow, GreekFire, PoseidonTrident, ZeusThunderbolt], vec![10, 10, 5, 1, 1]));
    push_table(&mut t, table(0, vec![Spear, Bow, GreekFire, PoseidonTrident, ZeusThunderbolt], vec![5, 5, 5, 1, 1]));
    push_table(&mut t, table(0, vec![Spear, Bow, GreekFire, PoseidonTrident, ZeusThunderbolt], vec![2, 2, 2, 1, 1]));
    push_table(&mut t, table(0, vec![Spear, Bow, GreekFire, PoseidonTrident, ZeusThunderbolt], vec![1, 1, 2, 2, 2]));
    push_table(&mut t, table(0, vec![Spear, Bow, GreekFire, PoseidonTrident, ZeusThunderbolt], vec![1, 1, 5, 5, 5]));
    SpawnTableIndex::build(starts, t)
}

fn check_starts(starts: &Vec<i32>) -> (r: bool)
    ensures
        r == valid_starts(starts@),
{
    if starts.len() == 0 || starts[0] != 0 {
        return false;
    }
    let n = starts.len();
    let mut i: usize = 0;
    while i < n
        invariant
            n == starts.len(),
            i <= n,
            forall|j: int| 0 <= j < i ==> starts@[j] < #[trigger] range_end(starts@, j),
        decreases n - i,
    {
        let end: i32 = if i + 1 < n {
            starts[i + 1]
        } else {
            i32::MAX
        };
        if starts[i] >= end {
            assert(!(starts@[i as int] < range_end(starts@, i as int)));
            return false;
        }
        i = i + 1;
    }
    true
}

fn check_weights(weights: &Vec<u32>) -> (r: bool)
    ensures
        r == valid_weights(weights@),
{
    if weights.len() == 0 || weights.len() > MAX_WEIGHTS {
        return false;
    }
    let mut i: usize = 0;
    while i < weights.len()
        invariant
            i <= weights.len(),
            0 < weights.len() <= MAX_WEIGHTS,
            forall|j: int| 0 <= j < i ==> #[trigger] weights@[j] == 0,
        decreases weights.len() - i,
    {
        if weights[i] > 0 {
            assert(weights@[i as int] > 0);
            return true;
        }
        i = i + 1;
    }
    false
}

fn check_tables<K>(tables: &Vec<SpawnTable<K>>) -> (r: bool)
    ensures
        r == valid_tables(tables@),
{
    let mut i: usize = 0;
    while i < tables.len()
        invariant
            i <= tables.len(),
            forall|j: int| 0 <= j < i ==> (#[trigger] tables@[j]).wf(),
        decreases tables.len() - i,
    {
        let t = &tables[i];
        if t.kinds.len() != t.weights.len() || !check_weights(&t.weights) {
            return false;
        }
        i = i + 1;
    }
    true
}

} // verus!
