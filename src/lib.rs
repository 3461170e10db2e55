//! Gameplay rules of a top-down survival shooter: time-keyed spawn tables,
//! weighted sampling, spawn scheduling under an entity cap, combat and
//! pickup resolution, weapon triggering and leveling, over integer state.

mod bindings;

pub mod behaviors;
pub mod combat;
pub mod enemies;
pub mod environment;
pub mod geometry;
pub mod items;
pub mod lifecycle;
pub mod progression;
pub mod registry;
pub mod run;
pub mod sampler;
pub mod scheduler;
pub mod spawn_table;
pub mod targeting;
pub mod timer;
