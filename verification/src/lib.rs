//! Directory listing engine: turns file metadata into typed, renderable
//! items and lays them out as a grid or as an aligned table.

pub mod collect;
pub mod colour;
pub mod columns;
pub mod extract;
pub mod grid;
pub mod identity;
pub mod item;
pub mod layout;
pub mod permissions;
pub mod render;
pub mod table;
pub mod terminal;
pub mod text;
pub mod timestamp;
pub mod units;
