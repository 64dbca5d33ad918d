//! Tile classification and point values.

use vstd::prelude::*;

verus! {

/// Grade of an ore deposit; each grade has its own point value.
#[derive(Clone, Copy, Debug, PartialEq, Eq, Structural)]
pub enum OreGrade {
    Copper,
    Iron,
    Gold,
    Titanium,
}

/// Every kind of tile that can exist in the world. `Air` is empty space and
/// is what mining leaves behind; every other kind carries the point value
/// given by [`tile_value`].
#[derive(Clone, Copy, Debug, PartialEq, Eq, Structural)]
pub enum TileType {
    Air,
    Regolith,
    Boulder,
    Treasure,
    Ore(OreGrade),
}

/// Point value awarded for mining a tile of the given kind.
pub open spec fn tile_value(t: TileType) -> u64 {
    match t {
        TileType::Air => 0,
        TileType::Regolith => 10,
        TileType::Boulder => 0,
        TileType::Treasure => 500,
        TileType::Ore(OreGrade::Copper) => 15,
        TileType::Ore(OreGrade::Iron) => 25,
        TileType::Ore(OreGrade::Gold) => 50,
        TileType::Ore(OreGrade::Titanium) => 100,
    }
}

/// Executable form of the point table.
pub fn tile_points(t: TileType) -> (v: u64)
    ensures
        v == tile_value(t),
{
    match t {
        TileType::Air => 0,
        TileType::Regolith => 10,
        TileType::Boulder => 0,
        TileType::Treasure => 500,
        TileType::Ore(OreGrade::Copper) => 15,
        TileType::Ore(OreGrade::Iron) => 25,
        TileType::Ore(OreGrade::Gold) => 50,
        TileType::Ore(OreGrade::Titanium) => 100,
    }
}

/// ASCII symbol that stands for a tile in the textual world dump.
pub open spec fn tile_symbol(t: TileType) -> u8 {
    match t {
        TileType::Air => 46u8,  // '.'
        TileType::Regolith => 35u8,  // '#'
        TileType::Boulder => 66u8,  // 'B'
        TileType::Treasure => 84u8,  // 'T'
        TileType::Ore(_) => 79u8,  // 'O'
    }
}

/// Executable form of the symbol table.
pub fn tile_symbol_byte(t: TileType) -> (b: u8)
    ensures
        b == tile_symbol(t),
{
    match t {
        TileType::Air => 46u8,  // '.'
        TileType::Regolith => 35u8,  // '#'
        TileType::Boulder => 66u8,  // 'B'
        TileType::Treasure => 84u8,  // 'T'
        TileType::Ore(_) => 79u8,  // 'O'
    }
}

} // verus!
