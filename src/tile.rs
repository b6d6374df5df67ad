use vstd::prelude::*;

verus! {

/// One cell of the dungeon grid: whether it stops movement and whether it stops sight.
#[derive(Clone, Copy, Debug, PartialEq, Eq, Structural)]
pub struct Tile {
    pub blocked: bool,
    pub block_sight: bool,
}

/// The open floor tile.
pub open spec fn empty_tile() -> Tile {
    Tile { blocked: false, block_sight: false }
}

/// The solid wall tile.
pub open spec fn wall_tile() -> Tile {
    Tile { blocked: true, block_sight: true }
}

impl Tile {
    /// An open floor cell.
    pub fn empty() -> (t: Tile)
        ensures
            !t.blocked,
            !t.block_sight,
            t == empty_tile(),
    {
        Tile { blocked: false, block_sight: false }
    }

    /// A solid wall cell.
    pub fn wall() -> (t: Tile)
        ensures
            t.blocked,
            t.block_sight,
            t == wall_tile(),
    {
        Tile { blocked: true, block_sight: true }
    }
}

} // verus!
