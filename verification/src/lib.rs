use vstd::prelude::*;

pub mod alu;
pub mod cpu;
pub mod error;
pub mod ines;
pub mod instr;
pub mod laws;
pub mod layout;
pub mod mem;
pub mod memory;
pub mod modes;
pub mod ops;
pub mod palette;
pub mod ppu;
pub mod state;
pub mod status;
pub mod tiles;

verus! {

/// The side, in screen pixels, of the square that shows one pixel of a tile.
pub const PX_SCALE: usize = 3;

/// The side of a tile in pixels.
pub const TILE_SIZE_PX: usize = 8;

/// A tile: eight rows, each with four bits for every one of its eight
/// pixels.
pub type Tile = [u32; 8];

/// The tiles of one pattern table.
pub const PATTAB_TILES: usize = 512;

} // verus!
