//! Game logic of an ant-colony simulation: grid coordinates, chunked voxel
//! worlds, tiles, minerals, buildings, units and their decisions.

pub mod coords;
pub mod chunk;
pub mod ant;
mod random;
pub mod game;
mod text;
mod terminal;
pub mod renderer;
pub mod inputs;
pub mod interface;
pub mod team;
pub mod time;
