use vstd::prelude::*;
use crate::tiles::TilePos;

verus! {

/// Where the hover ghost (the see-through preview of what the player is
/// placing) moves: to the tile under the cursor, when there is exactly one
/// ghost, it has a position, and the cursor is over the map.
pub fn hover_ghost_tracking(ghosts: usize, has_transform: bool, tile_pos: Option<TilePos>) -> (to: Option<TilePos>)
    ensures
        to == if ghosts == 1 && has_transform { tile_pos } else { None::<TilePos> },
{
    if ghosts != 1 || !has_transform {
        return None;
    }
    tile_pos
}

/// Where the assembly ghost moves: to the tile under the cursor, when a
/// ghost with a position exists and the cursor is over the map.  There is
/// at most one assembly ghost.
pub fn assembly_ghost_tracking(ghosts: usize, has_transform: bool, tile_pos: Option<TilePos>) -> (to: Option<TilePos>)
    requires
        ghosts <= 1,
    ensures
        to == if ghosts == 1 && has_transform { tile_pos } else { None::<TilePos> },
{
    if ghosts == 0 || !has_transform {
        return None;
    }
    tile_pos
}

/// Whether a request to hide the hover ghost removes it: only when exactly
/// one exists.
pub fn hide_hover_ghost(ghosts: usize) -> (despawn: bool)
    ensures
        despawn == (ghosts == 1),
{
    ghosts == 1
}

} // verus!
