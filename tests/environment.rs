use shipwave::environment::{
    chunk_of, chunk_spawns, chunks_missing, get_chunks_needed, roll_chunk_spawns,
    shark_appears, spawn_blahaj, ChunkDraws, ChunkPos, ItemDrop, RENDER_DISTANCE_X,
    RENDER_DISTANCE_Y,
};
use shipwave::geometry::Vec2;
use shipwave::items::Item;
use shipwave::spawn_table::item_spawn_tables;

fn c(x: i32, y: i32) -> ChunkPos {
    ChunkPos { x, y }
}

#[test]
fn block_of_chunks_around_the_player() {
    let r = get_chunks_needed(c(0, 0), RENDER_DISTANCE_X, RENDER_DISTANCE_Y);
    assert_eq!(r.len(), 81);
    assert_eq!(r[0], c(-4, -4));
    assert_eq!(r[1], c(-4, -3));
    assert_eq!(r[9], c(-3, -4));
    assert_eq!(r[80], c(4, 4));
    assert_eq!(get_chunks_needed(c(5, -2), 0, 0), vec![c(5, -2)]);
}

#[test]
fn chunk_of_rounds_toward_zero() {
    assert_eq!(chunk_of(Vec2 { x: -1, y: 0 }), c(0, 0));
    assert_eq!(chunk_of(Vec2 { x: -320_000, y: 640_000 }), c(-1, 2));
    assert_eq!(chunk_of(Vec2 { x: 319_999, y: -639_999 }), c(0, -1));
}

#[test]
fn missing_chunks_keep_their_order() {
    let needed = vec![c(0, 0), c(0, 1), c(1, 0), c(1, 1)];
    let current = vec![c(1, 0), c(9, 9)];
    assert_eq!(chunks_missing(&needed, &current), vec![c(0, 0), c(0, 1), c(1, 1)]);
    assert_eq!(chunks_missing(&current, &needed), vec![c(9, 9)]);
}

fn draws(item_roll: u64, item_pick: usize, rock_roll: u64) -> ChunkDraws {
    ChunkDraws {
        item_roll,
        item_spot: Vec2 { x: 0, y: 0 },
        item_pick,
        rock_roll,
        rock_spot: Vec2 { x: 1000, y: 2000 },
    }
}

#[test]
fn far_chunk_gets_the_drawn_item_and_a_rock() {
    let tables = item_spawn_tables();
    let t = tables.lookup(0);
    let r = chunk_spawns(c(10, 0), Vec2 { x: 0, y: 0 }, t, draws(0, 2, 7));
    assert_eq!(r.item, Some(ItemDrop { item: Item::GreekFire, pos: Vec2 { x: 3_200_000, y: 0 } }));
    assert_eq!(r.rock, Some(Vec2 { x: 3_201_000, y: 2000 }));
    let r = chunk_spawns(c(10, 0), Vec2 { x: 0, y: 0 }, t, draws(4, 1, 8));
    assert_eq!(r.item.map(|d| d.item), Some(Item::Bow));
    assert_eq!(r.rock, None);
    let r = chunk_spawns(c(10, 0), Vec2 { x: 0, y: 0 }, t, draws(5, 0, 9));
    assert_eq!(r.item, None);
}

#[test]
fn nothing_spawns_next_to_the_player() {
    let tables = item_spawn_tables();
    let r = chunk_spawns(c(0, 0), Vec2 { x: 0, y: 0 }, tables.lookup(0), draws(0, 0, 0));
    assert_eq!(r.item, None);
    assert_eq!(r.rock, None);
}

#[test]
fn rolled_chunks_only_spawn_far_away() {
    let tables = item_spawn_tables();
    for _ in 0..200 {
        let r = roll_chunk_spawns(c(0, 1), Vec2 { x: 0, y: 0 }, tables.lookup(0));
        if let Some(d) = r.item {
            assert!(d.pos.y >= 320_000);
        }
    }
}

#[test]
fn the_shark_needs_an_empty_sea_and_a_low_draw() {
    assert!(shark_appears(false, 16_000, 15_999));
    assert!(!shark_appears(false, 16_000, 16_000));
    assert!(!shark_appears(true, 16_000, 0));
    assert!(!spawn_blahaj(true, 1_000_000));
}
