//! Game logic of a small first-person maze shooter: the tile map and the
//! walls it is built from, collision and sight queries against the map,
//! the round and level bookkeeping, projectile and enemy decisions, and
//! the minimap's bookkeeping.  Rendering, input and timing are left to the
//! program that embeds the library.

pub mod grid;
pub mod walls;
pub mod text;
pub mod game;
pub mod combat;
pub mod controls;
pub mod minimap;
pub mod texture;
