use shipwave::enemies::{spawn_enemy, spawn_ferris, spawn_kraken, EnemyKind};
use shipwave::geometry::Vec2;
use shipwave::lifecycle::sweep_distant_enemies;
use shipwave::registry::Registry;

const O: Vec2 = Vec2 { x: 0, y: 0 };

#[test]
fn removed_handles_stay_dead_when_the_slot_is_reused() {
    let mut reg = Registry::new();
    let a = reg.insert(spawn_ferris(O));
    let b = reg.insert(spawn_kraken(O));
    assert_eq!(reg.len(), 2);
    assert_eq!(reg.remove(a).map(|e| e.kind), Some(EnemyKind::Ferris));
    assert_eq!(reg.remove(a), None);
    let c = reg.insert(spawn_enemy(EnemyKind::Siren, O));
    assert_eq!(c.index, a.index);
    assert_ne!(c.generation, a.generation);
    assert!(reg.get(a).is_none());
    assert_eq!(reg.get(c).unwrap().kind, EnemyKind::Siren);
    assert_eq!(reg.get(b).unwrap().health, 250_000);
    assert_eq!(reg.ids(), vec![c, b]);
    assert_eq!(reg.len(), 2);
}

#[test]
fn set_replaces_a_live_entity() {
    let mut reg = Registry::new();
    let a = reg.insert(spawn_ferris(O));
    let mut e = reg.get(a).unwrap();
    e.health = 1;
    reg.set(a, e);
    assert_eq!(reg.get(a).unwrap().health, 1);
    assert_eq!(reg.len(), 1);
}

#[test]
fn spawned_enemies_carry_their_stats() {
    let f = spawn_ferris(Vec2 { x: 3, y: 4 });
    assert_eq!((f.health, f.max_health, f.xp), (2500, 2500, 1));
    assert_eq!(f.pos, Vec2 { x: 3, y: 4 });
    let k = spawn_kraken(O);
    assert_eq!(k.xp, 100);
}

#[test]
fn sweep_removes_only_distant_enemies() {
    let mut reg = Registry::new();
    let near = reg.insert(spawn_ferris(Vec2 { x: 1_024_000, y: 0 }));
    let far = reg.insert(spawn_ferris(Vec2 { x: 0, y: -1_024_001 }));
    let gone = sweep_distant_enemies(&mut reg, O);
    assert_eq!(gone, vec![far]);
    assert!(reg.get(far).is_none());
    assert!(reg.get(near).is_some());
    assert_eq!(reg.len(), 1);
}
