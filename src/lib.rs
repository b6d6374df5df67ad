//! A small dungeon crawler: a generated tile map, tokens that walk on it, and the
//! composition of each frame that shows them.
pub mod dungeon;
pub mod frame;
pub mod game;
pub mod object;
pub mod tile;
