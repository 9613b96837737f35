//! Board, tile and deck rules of a road-laying tile puzzle.

pub mod deck;
pub mod levels;
pub mod objective;
pub mod state;
pub mod tile;
pub mod tile_server;
pub mod world;
