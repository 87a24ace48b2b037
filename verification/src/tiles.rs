use vstd::prelude::*;

verus! {

/// A position on the square tile grid of the factory floor.
#[derive(Clone, Copy, PartialEq, Eq, Structural, Debug, Hash)]
pub struct TilePos {
    pub x: u32,
    pub y: u32,
}

/// The number of columns (`x`) and rows (`y`) of the tile grid.
#[derive(Clone, Copy, PartialEq, Eq, Structural, Debug, Hash)]
pub struct TilemapSize {
    pub x: u32,
    pub y: u32,
}

/// How many tiles an entity covers horizontally (`x`) and vertically (`y`).
#[derive(Clone, Copy, PartialEq, Eq, Structural, Debug, Hash)]
pub struct EntityTileSize {
    pub x: i32,
    pub y: i32,
}

pub open spec fn within_map(p: TilePos, size: TilemapSize) -> bool {
    p.x < size.x && p.y < size.y
}

pub open spec fn abs_diff(a: int, b: int) -> int {
    if a >= b { a - b } else { b - a }
}

/// `q` is one of the (up to eight) neighbours of `p` on the square grid,
/// diagonals included: it differs from `p`, lies at most one step away on
/// each axis, and lies inside the map.
pub open spec fn is_square_neighbor(p: TilePos, q: TilePos, size: TilemapSize) -> bool {
    &&& q != p
    &&& abs_diff(p.x as int, q.x as int) <= 1
    &&& abs_diff(p.y as int, q.y as int) <= 1
    &&& within_map(q, size)
}

/// A tile counts as near another when it is the same tile or one of its
/// square neighbours.
pub open spec fn spec_is_near_tile(point: TilePos, target: TilePos, size: TilemapSize) -> bool {
    point == target || is_square_neighbor(point, target, size)
}

/// The eight neighbour offsets in the order east, north-east, north,
/// north-west, west, south-west, south, south-east.
pub open spec fn neighbor_offset(k: int) -> (int, int) {
    if k == 0 { (1, 0) }
    else if k == 1 { (1, 1) }
    else if k == 2 { (0, 1) }
    else if k == 3 { (-1, 1) }
    else if k == 4 { (-1, 0) }
    else if k == 5 { (-1, -1) }
    else if k == 6 { (0, -1) }
    else { (1, -1) }
}

/// Whether `point` is the same tile as `target` or one of its neighbours
/// within the map.
pub fn is_near_tile(point: TilePos, target: TilePos, map_size: &TilemapSize) -> (near: bool)
    ensures
        near == spec_is_near_tile(point, target, *map_size),
{
    if point.x == target.x && point.y == target.y {
        return true;
    }
    let dx_ok = if point.x >= target.x { point.x - target.x <= 1 } else { target.x - point.x <= 1 };
    let dy_ok = if point.y >= target.y { point.y - target.y <= 1 } else { target.y - point.y <= 1 };
    dx_ok && dy_ok && target.x < map_size.x && target.y < map_size.y
}

/// Column `x` of the footprint starting at `point`: its tile on the first
/// row or its tile just past the last row is near `target`.
pub open spec fn row_border_near(
    point: TilePos,
    target: TilePos,
    size: EntityTileSize,
    map_size: TilemapSize,
    x: int,
) -> bool {
    spec_is_near_tile(TilePos { x: (point.x + x) as u32, y: point.y }, target, map_size)
        || spec_is_near_tile(
        TilePos { x: (point.x + x) as u32, y: (point.y + (size.y as u32)) as u32 },
        target,
        map_size,
    )
}

/// Row `y` of the footprint starting at `point`: its tile on the first
/// column or its tile just past the last column is near `target`.
pub open spec fn column_border_near(
    point: TilePos,
    target: TilePos,
    size: EntityTileSize,
    map_size: TilemapSize,
    y: int,
) -> bool {
    spec_is_near_tile(TilePos { x: point.x, y: (point.y + y) as u32 }, target, map_size)
        || spec_is_near_tile(
        TilePos { x: (point.x + (size.x as u32)) as u32, y: (point.y + y) as u32 },
        target,
        map_size,
    )
}

/// The tiles that `is_near_tile_group` tests against `target`: the first
/// row and the row past the last one, and the first column and the column
/// past the last one, of the footprint that starts at `point`.
pub open spec fn group_border_near(
    point: TilePos,
    target: TilePos,
    size: EntityTileSize,
    map_size: TilemapSize,
) -> bool {
    ||| exists|x: int| 0 <= x < size.x && #[trigger] row_border_near(point, target, size, map_size, x)
    ||| exists|y: int| 0 <= y < size.y && #[trigger] column_border_near(point, target, size, map_size, y)
}

/// Whether `target` is near the border of the footprint of size
/// `target_size` whose first tile is `point`.
///
/// The positions on the border are computed in unsigned arithmetic; the
/// requirements keep every sum that the walk may compute inside `u32`.
pub fn is_near_tile_group(
    point: TilePos,
    target: TilePos,
    target_size: EntityTileSize,
    map_size: &TilemapSize,
) -> (near: bool)
    requires
        target_size.x > 0 ==> point.x + (target_size.x - 1) <= u32::MAX && point.y
            + (target_size.y as u32) <= u32::MAX,
        target_size.y > 0 ==> point.y + (target_size.y - 1) <= u32::MAX && point.x
            + (target_size.x as u32) <= u32::MAX,
    ensures
        near == group_border_near(point, target, target_size, *map_size),
{
    let mut x: i32 = 0;
    while x < target_size.x
        invariant
            0 <= x,
            x <= target_size.x || target_size.x <= 0,
            target_size.x > 0 ==> point.x + (target_size.x - 1) <= u32::MAX && point.y
                + (target_size.y as u32) <= u32::MAX,
            forall|i: int| 0 <= i < x ==> !#[trigger] row_border_near(point, target, target_size, *map_size, i),
        decreases target_size.x - x,
    {
        let a = TilePos { x: point.x + x as u32, y: point.y };
        if is_near_tile(a, target, map_size) {
            assert(row_border_near(point, target, target_size, *map_size, x as int));
            return true;
        }
        let b = TilePos { x: point.x + x as u32, y: point.y + target_size.y as u32 };
        if is_near_tile(b, target, map_size) {
            assert(row_border_near(point, target, target_size, *map_size, x as int));
            return true;
        }
        x = x + 1;
    }
    let mut y: i32 = 0;
    while y < target_size.y
        invariant
            0 <= y,
            y <= target_size.y || target_size.y <= 0,
            target_size.y > 0 ==> point.y + (target_size.y - 1) <= u32::MAX && point.x
                + (target_size.x as u32) <= u32::MAX,
            forall|i: int| 0 <= i < target_size.x ==> !#[trigger] row_border_near(point, target, target_size, *map_size, i),
            forall|j: int| 0 <= j < y ==> !#[trigger] column_border_near(point, target, target_size, *map_size, j),
        decreases target_size.y - y,
    {
        let a = TilePos { x: point.x, y: point.y + y as u32 };
        if is_near_tile(a, target, map_size) {
            assert(column_border_near(point, target, target_size, *map_size, y as int));
            return true;
        }
        let b = TilePos { x: point.x + target_size.x as u32, y: point.y + y as u32 };
        if is_near_tile(b, target, map_size) {
            assert(column_border_near(point, target, target_size, *map_size, y as int));
            return true;
        }
        y = y + 1;
    }
    false
}

/// The tiles of the footprint of `size` whose first tile is `corner`
/// that lie on the map, column by column.
pub open spec fn footprint_upto(corner: TilePos, size: EntityTileSize, map_size: TilemapSize, columns: int) -> Seq<TilePos>
    decreases columns,
{
    if columns <= 0 {
        Seq::empty()
    } else {
        footprint_upto(corner, size, map_size, columns - 1) + column_tiles(corner, columns - 1, map_size, size.y as int)
    }
}

/// The tiles of column `x` of a footprint, its first `rows` rows, that lie
/// on the map.
pub open spec fn column_tiles(corner: TilePos, x: int, map_size: TilemapSize, rows: int) -> Seq<TilePos>
    decreases rows,
{
    if rows <= 0 {
        Seq::empty()
    } else {
        let t = TilePos { x: (corner.x + x) as u32, y: (corner.y + rows - 1) as u32 };
        let rest = column_tiles(corner, x, map_size, rows - 1);
        if within_map(t, map_size) { rest.push(t) } else { rest }
    }
}

/// The tiles that a solid entity covers and that therefore block walking:
/// its footprint of `size` from its first tile `corner`, without the
/// tiles that fall off the map.
pub fn set_tilemap_collisions(corner: TilePos, size: EntityTileSize, map_size: &TilemapSize) -> (tiles: Vec<TilePos>)
    requires
        size.x > 0 ==> corner.x + size.x - 1 <= u32::MAX,
        size.y > 0 ==> corner.y + size.y - 1 <= u32::MAX,
    ensures
        tiles@ == footprint_upto(corner, size, *map_size, if size.x > 0 { size.x as int } else { 0 }),
{
    let mut tiles: Vec<TilePos> = Vec::new();
    let mut x: i32 = 0;
    while x < size.x
        invariant
            0 <= x,
            x <= size.x || x == 0,
            size.x > 0 ==> corner.x + size.x - 1 <= u32::MAX,
            size.y > 0 ==> corner.y + size.y - 1 <= u32::MAX,
            tiles@ == footprint_upto(corner, size, *map_size, x as int),
        decreases size.x - x,
    {
        let ghost before = tiles@;
        assert(before + column_tiles(corner, x as int, *map_size, 0) =~= before);
        let mut y: i32 = 0;
        while y < size.y
            invariant
                0 <= x < size.x,
                0 <= y,
                y <= size.y || y == 0,
                size.x > 0 ==> corner.x + size.x - 1 <= u32::MAX,
                size.y > 0 ==> corner.y + size.y - 1 <= u32::MAX,
                tiles@ == before + column_tiles(corner, x as int, *map_size, y as int),
            decreases size.y - y,
        {
            let t = TilePos { x: corner.x + x as u32, y: corner.y + y as u32 };
            if t.x < map_size.x && t.y < map_size.y {
                tiles.push(t);
                assert(tiles@ =~= before + column_tiles(corner, x as int, *map_size, y + 1));
            } else {
                assert(tiles@ =~= before + column_tiles(corner, x as int, *map_size, y + 1));
            }
            y = y + 1;
        }
        assert(column_tiles(corner, x as int, *map_size, y as int) == column_tiles(corner, x as int, *map_size, size.y as int)) by {
            if size.y <= 0 {
                assert(y == 0);
            }
        }
        x = x + 1;
    }
    tiles
}

proof fn lemma_column_tiles_in_footprint(corner: TilePos, x: int, map_size: TilemapSize, rows: int)
    requires
        0 <= x,
        corner.x + x <= u32::MAX,
        rows <= 0 || corner.y + rows - 1 <= u32::MAX,
    ensures
        forall|i: int| 0 <= i < column_tiles(corner, x, map_size, rows).len() ==> {
            let t = #[trigger] column_tiles(corner, x, map_size, rows)[i];
            &&& within_map(t, map_size)
            &&& t.x == corner.x + x
            &&& corner.y <= t.y < corner.y + rows
        },
    decreases rows,
{
    if rows > 0 {
        lemma_column_tiles_in_footprint(corner, x, map_size, rows - 1);
        let rest = column_tiles(corner, x, map_size, rows - 1);
        let all = column_tiles(corner, x, map_size, rows);
        assert forall|i: int| 0 <= i < all.len() implies {
            let t = #[trigger] all[i];
            &&& within_map(t, map_size)
            &&& t.x == corner.x + x
            &&& corner.y <= t.y < corner.y + rows
        } by {
            if i < rest.len() {
                assert(all[i] == rest[i]);
            }
        }
    }
}

/// Every tile that a solid entity blocks lies on the map and inside the
/// entity's footprint.
pub proof fn lemma_collision_tiles_in_footprint(corner: TilePos, size: EntityTileSize, map_size: TilemapSize, columns: int)
    requires
        0 <= columns <= size.x,
        size.x > 0 ==> corner.x + size.x - 1 <= u32::MAX,
        size.y > 0 ==> corner.y + size.y - 1 <= u32::MAX,
    ensures
        forall|i: int| 0 <= i < footprint_upto(corner, size, map_size, columns).len() ==> {
            let t = #[trigger] footprint_upto(corner, size, map_size, columns)[i];
            &&& within_map(t, map_size)
            &&& corner.x <= t.x < corner.x + columns
            &&& corner.y <= t.y < corner.y + size.y
        },
    decreases columns,
{
    if columns > 0 {
        lemma_collision_tiles_in_footprint(corner, size, map_size, columns - 1);
        lemma_column_tiles_in_footprint(corner, columns - 1, map_size, size.y as int);
        let prev = footprint_upto(corner, size, map_size, columns - 1);
        let col = column_tiles(corner, columns - 1, map_size, size.y as int);
        let all = footprint_upto(corner, size, map_size, columns);
        assert(all == prev + col);
        assert forall|i: int| 0 <= i < all.len() implies {
            let t = #[trigger] all[i];
            &&& within_map(t, map_size)
            &&& corner.x <= t.x < corner.x + columns
            &&& corner.y <= t.y < corner.y + size.y
        } by {
            if i < prev.len() {
                assert(all[i] == prev[i]);
            } else {
                assert(all[i] == col[i - prev.len()]);
            }
        }
    }
}

} // verus!
