//! World chunks and what spawns in them.
//!
//! The world is cut into square chunks. Around the player a block of chunks
//! is kept; a chunk entering the block may get an item pickup and a rock,
//! each at a random spot of the chunk that is far enough from the player.

use vstd::prelude::*;
use crate::bindings::random_below;
use crate::geometry::{dist_sq, dist_sq_spec, in_world, Vec2, COORD_LIMIT};
use crate::items::Item;
use crate::sampler::sample;
use crate::spawn_table::SpawnTable;

verus! {

/// The side of a chunk, in thousandths of a pixel.
pub const CHUNK_SIZE: i64 = 320_000;

/// Chunks kept on each side of the player's chunk, along x and along y.
pub const RENDER_DISTANCE_X: u16 = 4;
pub const RENDER_DISTANCE_Y: u16 = 4;

/// Pickups and rocks never appear closer than this to the player.
pub const MIN_SPAWN_DISTANCE: i64 = 500_000;

/// The chance, in tenths, that a new chunk gets an item, and a rock.
pub const ITEM_TENTHS: u64 = 5;
pub const ROCK_TENTHS: u64 = 8;

/// The largest chunk coordinate.
pub const CHUNK_LIMIT: i32 = 0x4000_0000;

/// A chunk's grid coordinates.
#[derive(Clone, Copy, Debug, PartialEq, Eq, Structural)]
pub struct ChunkPos {
    pub x: i32,
    pub y: i32,
}

/// A world coordinate divided by the chunk size, rounded toward zero.
pub open spec fn chunk_coord(c: int) -> int {
    if c < 0 {
        -((-c) / CHUNK_SIZE as int)
    } else {
        c / CHUNK_SIZE as int
    }
}

fn chunk_coord_exec(c: i64) -> (r: i32)
    requires
        -COORD_LIMIT <= c <= COORD_LIMIT,
    ensures
        r == chunk_coord(c as int),
{
    if c < 0 {
        -(((-c) / CHUNK_SIZE) as i32)
    } else {
        (c / CHUNK_SIZE) as i32
    }
}

/// The chunk that holds a world point.
pub fn chunk_of(pos: Vec2) -> (r: ChunkPos)
    requires
        in_world(pos),
    ensures
        r.x == chunk_coord(pos.x as int),
        r.y == chunk_coord(pos.y as int),
{
    ChunkPos { x: chunk_coord_exec(pos.x), y: chunk_coord_exec(pos.y) }
}

/// The block of chunks around `center`, column by column: `2 * rx + 1`
/// columns of `2 * ry + 1` chunks each.
pub fn get_chunks_needed(center: ChunkPos, rx: u16, ry: u16) -> (r: Vec<ChunkPos>)
    requires
        -CHUNK_LIMIT <= center.x <= CHUNK_LIMIT,
        -CHUNK_LIMIT <= center.y <= CHUNK_LIMIT,
    ensures
        r.len() == (2 * rx + 1) * (2 * ry + 1),
        forall|i: int, j: int|
            0 <= i <= 2 * rx && 0 <= j <= 2 * ry ==> #[trigger] r@[i * (2 * ry + 1) + j] == (
            ChunkPos { x: (center.x - rx + i) as i32, y: (center.y - ry + j) as i32 }),
{
    let h: usize = 2 * ry as usize + 1;
    let w: usize = 2 * rx as usize + 1;
    let mut r: Vec<ChunkPos> = Vec::new();
    let mut i: usize = 0;
    while i < w
        invariant
            w == 2 * rx + 1,
            h == 2 * ry + 1,
            i <= w,
            -CHUNK_LIMIT <= center.x <= CHUNK_LIMIT,
            -CHUNK_LIMIT <= center.y <= CHUNK_LIMIT,
            r.len() == i * h,
            forall|a: int, b: int|
                0 <= a < i && 0 <= b < h ==> #[trigger] r@[a * h + b] == (ChunkPos {
                    x: (center.x - rx + a) as i32,
                    y: (center.y - ry + b) as i32,
                }),
        decreases w - i,
    {
        let x = center.x - rx as i32 + i as i32;
        let mut j: usize = 0;
        while j < h
            invariant
                w == 2 * rx + 1,
                h == 2 * ry + 1,
                i < w,
                j <= h,
                x == center.x - rx + i,
                -CHUNK_LIMIT <= center.x <= CHUNK_LIMIT,
                -CHUNK_LIMIT <= center.y <= CHUNK_LIMIT,
                r.len() == i * h + j,
                forall|a: int, b: int|
                    0 <= a < i && 0 <= b < h ==> #[trigger] r@[a * h + b] == (ChunkPos {
                        x: (center.x - rx + a) as i32,
                        y: (center.y - ry + b) as i32,
                    }),
                forall|b: int|
                    0 <= b < j ==> #[trigger] r@[i * h + b] == (ChunkPos {
                        x: (center.x - rx + i) as i32,
                        y: (center.y - ry + b) as i32,
                    }),
            decreases h - j,
        {
            let y = center.y - ry as i32 + j as i32;
            let ghost before = r@;
            r.push(ChunkPos { x, y });
            proof {
                assert forall|a: int, b: int| 0 <= a < i && 0 <= b < h implies #[trigger] r@[a * h + b] == (ChunkPos {
                    x: (center.x - rx + a) as i32,
                    y: (center.y - ry + b) as i32,
                }) by {
                    assert(a * h + b < i * h) by (nonlinear_arith)
                        requires
                            0 <= a < i,
                            0 <= b < h,
                    ;
                    assert(before[a * h + b] == r@[a * h + b]);
                }
            }
            j = j + 1;
        }
        proof {
            assert forall|a: int, b: int| 0 <= a < i + 1 && 0 <= b < h implies #[trigger] r@[a * h + b] == (ChunkPos {
                x: (center.x - rx + a) as i32,
                y: (center.y - ry + b) as i32,
            }) by {
                if a == i {
                    assert(r@[i * h + b] == r@[a * h + b]);
                }
            }
            assert((i + 1) * h == i * h + h) by (nonlinear_arith);
        }
        i = i + 1;
    }
    r
}

/// `c` is not among `s`.
pub open spec fn absent_from(s: Seq<ChunkPos>) -> spec_fn(ChunkPos) -> bool {
    |c: ChunkPos| !s.contains(c)
}

fn contains_chunk(s: &Vec<ChunkPos>, c: ChunkPos) -> (r: bool)
    ensures
        r == s@.contains(c),
{
    let mut i: usize = 0;
    while i < s.len()
        invariant
            i <= s.len(),
            forall|j: int| 0 <= j < i ==> s@[j] != c,
        decreases s.len() - i,
    {
        if s[i] == c {
            return true;
        }
        i = i + 1;
    }
    false
}

/// The chunks of `from` that `other` lacks, in order: with `needed` and the
/// current chunks, the chunks to create; the other way round, those to drop.
pub fn chunks_missing(from: &Vec<ChunkPos>, other: &Vec<ChunkPos>) -> (r: Vec<ChunkPos>)
    ensures
        r@ == from@.filter(absent_from(other@)),
{
    let mut r: Vec<ChunkPos> = Vec::new();
    let mut i: usize = 0;
    while i < from.len()
        invariant
            i <= from.len(),
            r@ == from@.subrange(0, i as int).filter(absent_from(other@)),
        decreases from.len() - i,
    {
        let ghost prefix = from@.subrange(0, i as int);
        assert(from@.subrange(0, i + 1) =~= prefix.push(from@[i as int]));
        proof {
            prefix.lemma_filter_push(from@[i as int], absent_from(other@));
        }
        if !contains_chunk(other, from[i]) {
            r.push(from[i]);
        }
        i = i + 1;
    }
    assert(from@.subrange(0, from.len() as int) =~= from@);
    r
}

/// The random choices a new chunk consumes: two rolls in `0..10`, two
/// spots with coordinates in `0..CHUNK_SIZE` from the chunk's corner, and
/// the position of the item kind picked from the item table.
#[derive(Clone, Copy, Debug, PartialEq, Eq, Structural)]
pub struct ChunkDraws {
    pub item_roll: u64,
    pub item_spot: Vec2,
    pub item_pick: usize,
    pub rock_roll: u64,
    pub rock_spot: Vec2,
}

/// An item pickup lying at `pos`.
#[derive(Clone, Copy, Debug, PartialEq, Eq, Structural)]
pub struct ItemDrop {
    pub item: Item,
    pub pos: Vec2,
}

/// What appears in a new chunk.
#[derive(Clone, Copy, Debug, PartialEq, Eq, Structural)]
pub struct ChunkSpawns {
    pub item: Option<ItemDrop>,
    pub rock: Option<Vec2>,
}

/// The corner of a chunk plus an offset.
pub open spec fn spot_in(chunk: ChunkPos, off: Vec2) -> Vec2 {
    Vec2 {
        x: (chunk.x * CHUNK_SIZE + off.x) as i64,
        y: (chunk.y * CHUNK_SIZE + off.y) as i64,
    }
}

/// A chunk whose whole area lies in the world.
pub open spec fn chunk_in_world(chunk: ChunkPos) -> bool {
    &&& -COORD_LIMIT <= chunk.x * CHUNK_SIZE
    &&& (chunk.x + 1) * CHUNK_SIZE <= COORD_LIMIT
    &&& -COORD_LIMIT <= chunk.y * CHUNK_SIZE
    &&& (chunk.y + 1) * CHUNK_SIZE <= COORD_LIMIT
}

/// Draws that fit the chunk and the table.
pub open spec fn draws_fit(d: ChunkDraws, table: SpawnTable<Item>) -> bool {
    &&& d.item_roll < 10 && d.rock_roll < 10
    &&& 0 <= d.item_spot.x < CHUNK_SIZE && 0 <= d.item_spot.y < CHUNK_SIZE
    &&& 0 <= d.rock_spot.x < CHUNK_SIZE && 0 <= d.rock_spot.y < CHUNK_SIZE
    &&& d.item_pick < table.kinds.len()
}

/// A spot far enough from the player to spawn on.
pub open spec fn far_enough(p: Vec2, player: Vec2) -> bool {
    dist_sq_spec(p, player) > MIN_SPAWN_DISTANCE * MIN_SPAWN_DISTANCE
}

fn spot(chunk: ChunkPos, off: Vec2) -> (r: Vec2)
    requires
        chunk_in_world(chunk),
        0 <= off.x < CHUNK_SIZE,
        0 <= off.y < CHUNK_SIZE,
    ensures
        r == spot_in(chunk, off),
        in_world(r),
{
    Vec2 { x: chunk.x as i64 * CHUNK_SIZE + off.x, y: chunk.y as i64 * CHUNK_SIZE + off.y }
}

/// What a new chunk gets, given its draws: an item on a roll below
/// `ITEM_TENTHS`, a rock on a roll below `ROCK_TENTHS`, each only if its
/// spot is far enough from the player.
pub fn chunk_spawns(
    chunk: ChunkPos,
    player: Vec2,
    table: &SpawnTable<Item>,
    draws: ChunkDraws,
) -> (r: ChunkSpawns)
    requires
        chunk_in_world(chunk),
        in_world(player),
        table.wf(),
        draws_fit(draws, *table),
    ensures
        r.item == (if draws.item_roll < ITEM_TENTHS && far_enough(
            spot_in(chunk, draws.item_spot),
            player,
        ) {
            Some(
                ItemDrop { item: table.kinds@[draws.item_pick as int], pos: spot_in(chunk, draws.item_spot) },
            )
        } else {
            None
        }),
        r.rock == (if draws.rock_roll < ROCK_TENTHS && far_enough(
            spot_in(chunk, draws.rock_spot),
            player,
        ) {
            Some(spot_in(chunk, draws.rock_spot))
        } else {
            None
        }),
{
    let limit: u128 = (MIN_SPAWN_DISTANCE as u128) * (MIN_SPAWN_DISTANCE as u128);
    let mut item: Option<ItemDrop> = None;
    if draws.item_roll < ITEM_TENTHS {
        let at = spot(chunk, draws.item_spot);
        if dist_sq(at, player) > limit {
            item = Some(ItemDrop { item: table.kinds[draws.item_pick], pos: at });
        }
    }
    let mut rock: Option<Vec2> = None;
    if draws.rock_roll < ROCK_TENTHS {
        let at = spot(chunk, draws.rock_spot);
        if dist_sq(at, player) > limit {
            rock = Some(at);
        }
    }
    ChunkSpawns { item, rock }
}

/// Draws the random numbers of a new chunk and returns what it gets.
/// Whatever the draws, an item comes from the table's kinds of positive
/// weight and lands in the chunk far enough from the player, as does a rock.
pub fn roll_chunk_spawns(chunk: ChunkPos, player: Vec2, table: &SpawnTable<Item>) -> (r:
    ChunkSpawns)
    requires
        chunk_in_world(chunk),
        in_world(player),
        table.wf(),
    ensures
        match r.item {
            Some(d) => far_enough(d.pos, player) && exists|i: int|
                0 <= i < table.kinds.len() && table.kinds@[i] == d.item && table.weights@[i] > 0,
            None => true,
        },
        match r.rock {
            Some(at) => far_enough(at, player),
            None => true,
        },
{
    let draws = ChunkDraws {
        item_roll: random_below(10),
        item_spot: Vec2 {
            x: random_below(CHUNK_SIZE as u64) as i64,
            y: random_below(CHUNK_SIZE as u64) as i64,
        },
        item_pick: sample(&table.weights),
        rock_roll: random_below(10),
        rock_spot: Vec2 {
            x: random_below(CHUNK_SIZE as u64) as i64,
            y: random_below(CHUNK_SIZE as u64) as i64,
        },
    };
    chunk_spawns(chunk, player, table, draws)
}

/// The chance per second, in parts per `SHARK_ODDS`, that the shark shows up.
pub const SHARK_ODDS: u64 = 200_000_000;

/// Whether the rare homing shark appears this tick, given a draw below
/// `SHARK_ODDS`: never while one is out, else when the draw falls below
/// the tick's length in microseconds.
pub fn shark_appears(present: bool, dt: u64, draw: u64) -> (r: bool)
    ensures
        r == (!present && draw < dt),
{
    !present && draw < dt
}

/// Rolls for the rare homing shark; it never appears while one is out.
pub fn spawn_blahaj(present: bool, dt: u64) -> (r: bool)
    ensures
        present ==> !r,
{
    if present {
        return false;
    }
    shark_appears(present, dt, random_below(SHARK_ODDS))
}

} // verus!
