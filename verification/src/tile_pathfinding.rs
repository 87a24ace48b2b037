use vstd::prelude::*;
use crate::tiles::{TilePos, TilemapSize, is_square_neighbor, neighbor_offset};

verus! {

/// Where a unit following a path is heading: the target tile, the path that
/// leads there (once one has been computed) and the index of the path tile
/// it is walking to.
pub struct MoveToTile {
    pub target: Option<TilePos>,
    pub path: Option<Vec<TilePos>>,
    pub path_i: usize,
}

/// The tile one step from `p` in direction `k` (see `neighbor_offset`), if
/// that tile lies inside the map.
pub open spec fn offset_tile(p: TilePos, k: int, size: TilemapSize) -> Option<TilePos> {
    let x = p.x + neighbor_offset(k).0;
    let y = p.y + neighbor_offset(k).1;
    if 0 <= x < size.x && 0 <= y < size.y {
        Some(TilePos { x: x as u32, y: y as u32 })
    } else {
        None
    }
}

/// The walkable moves out of `p` among the first `k` directions, each with
/// cost one: in-map neighbours that are not blocked.
pub open spec fn successors_upto(p: TilePos, size: TilemapSize, blocked: Seq<TilePos>, k: int) -> Seq<(TilePos, u64)>
    decreases k,
{
    if k <= 0 {
        Seq::empty()
    } else {
        let rest = successors_upto(p, size, blocked, k - 1);
        match offset_tile(p, k - 1, size) {
            Some(q) => if blocked.contains(q) { rest } else { rest.push((q, 1u64)) },
            None => rest,
        }
    }
}

/// The walkable moves out of `p`.
pub open spec fn spec_successors(p: TilePos, size: TilemapSize, blocked: Seq<TilePos>) -> Seq<(TilePos, u64)> {
    successors_upto(p, size, blocked, 8)
}

/// Every move in the successor list leads to an unblocked square neighbour.
pub proof fn lemma_successors_are_walkable(p: TilePos, size: TilemapSize, blocked: Seq<TilePos>, k: int, q: TilePos)
    requires
        0 <= k <= 8,
        successors_upto(p, size, blocked, k).contains((q, 1u64)),
    ensures
        is_square_neighbor(p, q, size),
        !blocked.contains(q),
    decreases k,
{
    if k > 0 {
        let rest = successors_upto(p, size, blocked, k - 1);
        match offset_tile(p, k - 1, size) {
            Some(r) => {
                if !blocked.contains(r) && q == r {
                } else if rest.contains((q, 1u64)) {
                    lemma_successors_are_walkable(p, size, blocked, k - 1, q);
                } else {
                    let s = successors_upto(p, size, blocked, k);
                    let i = choose|i: int| 0 <= i < s.len() && s[i] == (q, 1u64);
                    if !blocked.contains(r) {
                        if i < rest.len() {
                            assert(rest[i] == (q, 1u64));
                        }
                    }
                }
            }
            None => {
                lemma_successors_are_walkable(p, size, blocked, k - 1, q);
            }
        }
    }
}

/// Whether `tiles` holds `t`.
pub fn contains_tile(tiles: &Vec<TilePos>, t: &TilePos) -> (found: bool)
    ensures
        found == tiles@.contains(*t),
{
    let mut i: usize = 0;
    while i < tiles.len()
        invariant
            i <= tiles@.len(),
            forall|j: int| 0 <= j < i ==> tiles@[j] != *t,
        decreases tiles@.len() - i,
    {
        if tiles[i].x == t.x && tiles[i].y == t.y {
            return true;
        }
        i += 1;
    }
    false
}

/// The walkable moves out of `p`: every in-map neighbour (diagonals
/// included) that is not one of the `blocked` tiles, each costing one step.
pub fn tile_successors(p: &TilePos, map_size: &TilemapSize, blocked: &Vec<TilePos>) -> (moves: Vec<(TilePos, u64)>)
    ensures
        moves@ == spec_successors(*p, *map_size, blocked@),
{
    let mut moves: Vec<(TilePos, u64)> = Vec::new();
    let mut k: usize = 0;
    while k < 8
        invariant
            k <= 8,
            moves@ == successors_upto(*p, *map_size, blocked@, k as int),
        decreases 8 - k,
    {
        let (dx, dy): (i64, i64) = if k == 0 { (1, 0) }
            else if k == 1 { (1, 1) }
            else if k == 2 { (0, 1) }
            else if k == 3 { (-1, 1) }
            else if k == 4 { (-1, 0) }
            else if k == 5 { (-1, -1) }
            else if k == 6 { (0, -1) }
            else { (1, -1) };
        let x: i64 = p.x as i64 + dx;
        let y: i64 = p.y as i64 + dy;
        if 0 <= x && x < map_size.x as i64 && 0 <= y && y < map_size.y as i64 {
            let q = TilePos { x: x as u32, y: y as u32 };
            if !contains_tile(blocked, &q) {
                moves.push((q, 1));
            }
        }
        k += 1;
    }
    moves
}

/// The squared straight-line distance between two tiles.
pub open spec fn squared_distance(a: TilePos, b: TilePos) -> int {
    (a.x - b.x) * (a.x - b.x) + (a.y - b.y) * (a.y - b.y)
}

/// The straight-line distance between two tiles in whole tiles, rounded
/// down and held to at most `u32::MAX`: the search heuristic.  (The game
/// measures it in 32-bit floats, which can round differently for tiles
/// thousands of tiles apart or with coordinates beyond 2^24; that float
/// rounding is not reproduced here.)
pub fn tile_distance(a: &TilePos, b: &TilePos) -> (d: u64)
    ensures
        d <= u32::MAX,
        d < u32::MAX ==> (d as int) * (d as int) <= squared_distance(*a, *b)
            && squared_distance(*a, *b) < (d as int + 1) * (d as int + 1),
        d == u32::MAX ==> (u32::MAX as int) * (u32::MAX as int) <= squared_distance(*a, *b),
{
    let dx: u128 = if a.x >= b.x { (a.x - b.x) as u128 } else { (b.x - a.x) as u128 };
    let dy: u128 = if a.y >= b.y { (a.y - b.y) as u128 } else { (b.y - a.y) as u128 };
    assert(dx * dx < 0x1_0000_0000_0000_0000) by (nonlinear_arith)
        requires
            dx < 0x1_0000_0000,
    ;
    assert(dy * dy < 0x1_0000_0000_0000_0000) by (nonlinear_arith)
        requires
            dy < 0x1_0000_0000,
    ;
    let n: u128 = dx * dx + dy * dy;
    assert(n == (a.x - b.x) * (a.x - b.x) + (a.y - b.y) * (a.y - b.y)) by (nonlinear_arith)
        requires
            dx == abs_int(a.x - b.x),
            dy == abs_int(a.y - b.y),
            n == dx * dx + dy * dy,
    ;
    let mut lo: u64 = 0;
    let mut hi: u64 = 0x2_0000_0000;
    assert((hi as int) * (hi as int) == 0x4_0000_0000_0000_0000) by (nonlinear_arith)
        requires
            hi == 0x2_0000_0000,
    ;
    while hi - lo > 1
        invariant
            lo < hi <= 0x2_0000_0000,
            (lo as int) * (lo as int) <= n,
            n < (hi as int) * (hi as int),
        decreases hi - lo,
    {
        let mid: u64 = lo + (hi - lo) / 2;
        assert((mid as int) * (mid as int) <= 0x4_0000_0000_0000_0000) by (nonlinear_arith)
            requires
                mid <= 0x2_0000_0000,
        ;
        let sq: u128 = (mid as u128) * (mid as u128);
        if sq <= n {
            lo = mid;
        } else {
            hi = mid;
        }
    }
    if lo > 0xffff_ffff {
        assert((u32::MAX as int) * (u32::MAX as int) <= (lo as int) * (lo as int)) by (nonlinear_arith)
            requires
                lo > 0xffff_ffff,
        ;
        0xffff_ffff
    } else {
        lo
    }
}

pub open spec fn abs_int(v: int) -> int {
    if v >= 0 { v } else { -v }
}

/// Whether `p` is the tile `target`.
pub fn same_tile(p: &TilePos, target: &TilePos) -> (same: bool)
    ensures
        same == (*p == *target),
{
    p.x == target.x && p.y == target.y
}


/// The search result that `pathfinding`'s A* returns when it looks for
/// `target` from `start` on a map of `map_size`, moving by
/// `spec_successors` around the `blocked` tiles with `tile_distance` as the
/// heuristic: the path found and its cost, or `None`.
pub uninterp spec fn astar_tile_search(
    start: TilePos,
    target: TilePos,
    map_size: TilemapSize,
    blocked: Seq<TilePos>,
) -> Option<(Seq<TilePos>, u64)>;

/// A path that starts at `start`, ends at `target` and moves each step to
/// a walkable move of the tile before.
pub open spec fn successor_path(p: Seq<TilePos>, start: TilePos, target: TilePos, size: TilemapSize, blocked: Seq<TilePos>) -> bool {
    &&& p.len() >= 1
    &&& p[0] == start
    &&& p.last() == target
    &&& forall|i: int| 0 <= i < p.len() - 1 ==> #[trigger] spec_successors(p[i], size, blocked).contains((p[i + 1], 1u64))
}

/// A path that starts at `start`, ends at `target` and steps each time to
/// an in-map neighbour (diagonals included) that is not blocked.
pub open spec fn walkable_path(p: Seq<TilePos>, start: TilePos, target: TilePos, size: TilemapSize, blocked: Seq<TilePos>) -> bool {
    &&& p.len() >= 1
    &&& p[0] == start
    &&& p.last() == target
    &&& forall|i: int| 0 <= i < p.len() - 1 ==> #[trigger] is_square_neighbor(p[i], p[i + 1], size) && !blocked.contains(p[i + 1])
}

/// Calls `pathfinding::directed::astar::astar` from `start` with
/// `tile_successors` as the moves, `tile_distance` to `target` as the
/// heuristic and reaching `target` as success.  The contract names the
/// result (`astar_tile_search`) and states what the crate's source shows of
/// every path it returns: it starts at `start`, ends at a node that passed
/// the success test, and each node after the first was handed out by the
/// successor function for the node before it.  It returns `None` only
/// after every node reachable from `start` through the successor function
/// has been tested, so `None` means that no such path reaches `target`.
/// Whether a path returned is a shortest one is not stated (the heuristic
/// can overestimate diagonals).
#[verifier::external_body]
fn astar_tile_path(start: &TilePos, target: &TilePos, map_size: &TilemapSize, blocked: &Vec<TilePos>) -> (r: Option<(Vec<TilePos>, u64)>)
    ensures
        match r {
            Some(found) => astar_tile_search(*start, *target, *map_size, blocked@) == Some((found.0@, found.1)),
            None => astar_tile_search(*start, *target, *map_size, blocked@) is None,
        },
        r matches Some(found) ==> successor_path(found.0@, *start, *target, *map_size, blocked@),
        r is None ==> forall|p: Seq<TilePos>| !successor_path(p, *start, *target, *map_size, blocked@),
{
    pathfinding::prelude::astar(
        start,
        |p: &TilePos| tile_successors(p, map_size, blocked),
        |p: &TilePos| tile_distance(p, target),
        |p: &TilePos| same_tile(p, target),
    )
}

/// A path whose steps are walkable moves is walkable.
pub proof fn lemma_successor_path_is_walkable(p: Seq<TilePos>, start: TilePos, target: TilePos, size: TilemapSize, blocked: Seq<TilePos>)
    requires
        successor_path(p, start, target, size, blocked),
    ensures
        walkable_path(p, start, target, size, blocked),
{
    assert forall|i: int| 0 <= i < p.len() - 1 implies #[trigger] is_square_neighbor(p[i], p[i + 1], size) && !blocked.contains(p[i + 1]) by {
        assert(spec_successors(p[i], size, blocked).contains((p[i + 1], 1u64)));
        lemma_successors_are_walkable(p[i], size, blocked, 8, p[i + 1]);
    }
}

proof fn lemma_offset_in_successors(p: TilePos, size: TilemapSize, blocked: Seq<TilePos>, k: int, m: int, q: TilePos)
    requires
        0 <= k < m <= 8,
        offset_tile(p, k, size) == Some(q),
        !blocked.contains(q),
    ensures
        successors_upto(p, size, blocked, m).contains((q, 1u64)),
    decreases m,
{
    let rest = successors_upto(p, size, blocked, m - 1);
    if k == m - 1 {
        assert(successors_upto(p, size, blocked, m) == rest.push((q, 1u64)));
        assert(rest.push((q, 1u64))[rest.len() as int] == (q, 1u64));
    } else {
        lemma_offset_in_successors(p, size, blocked, k, m - 1, q);
        let w = choose|w: int| 0 <= w < rest.len() && rest[w] == (q, 1u64);
        match offset_tile(p, m - 1, size) {
            Some(r) => {
                if !blocked.contains(r) {
                    assert(rest.push((r, 1u64))[w] == (q, 1u64));
                }
            },
            None => {},
        }
    }
}

/// Every unblocked square neighbour is one of the walkable moves.
pub proof fn lemma_walkable_step_is_successor(p: TilePos, q: TilePos, size: TilemapSize, blocked: Seq<TilePos>)
    requires
        is_square_neighbor(p, q, size),
        !blocked.contains(q),
    ensures
        spec_successors(p, size, blocked).contains((q, 1u64)),
{
    let dx = q.x - p.x;
    let dy = q.y - p.y;
    let k: int = if dx == 1 && dy == 0 { 0 }
        else if dx == 1 && dy == 1 { 1 }
        else if dx == 0 && dy == 1 { 2 }
        else if dx == -1 && dy == 1 { 3 }
        else if dx == -1 && dy == 0 { 4 }
        else if dx == -1 && dy == -1 { 5 }
        else if dx == 0 && dy == -1 { 6 }
        else { 7 };
    assert(neighbor_offset(k) == (dx, dy));
    assert(offset_tile(p, k, size) == Some(q));
    lemma_offset_in_successors(p, size, blocked, k, 8, q);
}

/// A walkable path is one that moves by the walkable moves.
pub proof fn lemma_walkable_path_is_successor_path(p: Seq<TilePos>, start: TilePos, target: TilePos, size: TilemapSize, blocked: Seq<TilePos>)
    requires
        walkable_path(p, start, target, size, blocked),
    ensures
        successor_path(p, start, target, size, blocked),
{
    assert(forall|i: int| 0 <= i < p.len() - 1 ==> #[trigger] is_square_neighbor(p[i], p[i + 1], size) && !blocked.contains(p[i + 1]));
    assert forall|i: int| 0 <= i < p.len() - 1 implies #[trigger] spec_successors(p[i], size, blocked).contains((p[i + 1], 1u64)) by {
        assert(is_square_neighbor(p[i], p[i + 1], size));
        lemma_walkable_step_is_successor(p[i], p[i + 1], size, blocked);
    }
}

pub open spec fn path_view(path: Option<Vec<TilePos>>) -> Option<Seq<TilePos>> {
    match path {
        Some(p) => Some(p@),
        None => None,
    }
}

/// The path that `set_path_to_tile` installs when it searches from `tile`:
/// the search's path, or an empty path when the search finds none.
pub open spec fn searched_path(tile: TilePos, target: TilePos, size: TilemapSize, blocked: Seq<TilePos>) -> Seq<TilePos> {
    match astar_tile_search(tile, target, size, blocked) {
        Some(found) => found.0,
        None => Seq::empty(),
    }
}

/// Whether `set_path_to_tile` searches: the unit stands on a known tile
/// other than its target and has no path with steps left.
pub open spec fn needs_path(m: MoveToTile, tile_pos: Option<TilePos>) -> bool {
    match (tile_pos, m.target) {
        (Some(t), Some(tg)) => t != tg && match m.path {
            Some(p) => p@.len() == 0,
            None => true,
        },
        _ => false,
    }
}

/// Gives a unit that stands on `tile_pos`, away from its target and without
/// a path, the path that the search finds around the `collision_tiles`
/// (or an empty one when there is none).  Otherwise nothing changes.
pub fn set_path_to_tile(
    move_to_tile: &mut MoveToTile,
    tile_pos: Option<TilePos>,
    map_size: &TilemapSize,
    collision_tiles: &Vec<TilePos>,
)
    ensures
        final(move_to_tile).target == old(move_to_tile).target,
        final(move_to_tile).path_i == old(move_to_tile).path_i,
        needs_path(*old(move_to_tile), tile_pos) ==> path_view(final(move_to_tile).path) == Some(
            searched_path(tile_pos.unwrap(), old(move_to_tile).target.unwrap(), *map_size, collision_tiles@),
        ),
        !needs_path(*old(move_to_tile), tile_pos) ==> path_view(final(move_to_tile).path) == path_view(old(move_to_tile).path),
        needs_path(*old(move_to_tile), tile_pos) ==> match final(move_to_tile).path {
            Some(p) => p@.len() == 0 || walkable_path(p@, tile_pos.unwrap(), old(move_to_tile).target.unwrap(), *map_size, collision_tiles@),
            None => false,
        },
        // a route is found whenever one exists
        needs_path(*old(move_to_tile), tile_pos) && (exists|r: Seq<TilePos>| walkable_path(r, tile_pos.unwrap(),
            old(move_to_tile).target.unwrap(), *map_size, collision_tiles@)) ==> match final(move_to_tile).path {
            Some(p) => walkable_path(p@, tile_pos.unwrap(), old(move_to_tile).target.unwrap(), *map_size, collision_tiles@),
            None => false,
        },
{
    let (tile, target) = match (tile_pos, move_to_tile.target) {
        (Some(t), Some(tg)) => (t, tg),
        _ => { return; },
    };
    if tile.x == target.x && tile.y == target.y {
        return;
    }
    let has_steps = match &move_to_tile.path {
        Some(p) => p.len() > 0,
        None => false,
    };
    if has_steps {
        return;
    }
    let found = astar_tile_path(&tile, &target, map_size, collision_tiles);
    proof {
        if found is Some {
            let f = found->0;
            lemma_successor_path_is_walkable(f.0@, tile, target, *map_size, collision_tiles@);
        } else if exists|r: Seq<TilePos>| walkable_path(r, tile, target, *map_size, collision_tiles@) {
            let r = choose|r: Seq<TilePos>| walkable_path(r, tile, target, *map_size, collision_tiles@);
            lemma_walkable_path_is_successor_path(r, tile, target, *map_size, collision_tiles@);
        }
    }
    apply_path_search(move_to_tile, found);
}

/// Installs the result of a path search: the path found (its cost is not
/// kept), or an empty path when there is none.  Target and path index stay.
pub fn apply_path_search(move_to_tile: &mut MoveToTile, found: Option<(Vec<TilePos>, u64)>)
    ensures
        final(move_to_tile).target == old(move_to_tile).target,
        final(move_to_tile).path_i == old(move_to_tile).path_i,
        path_view(final(move_to_tile).path) == Some(match found {
            Some(f) => f.0@,
            None => Seq::<TilePos>::empty(),
        }),
{
    match found {
        Some(f) => {
            move_to_tile.path = Some(f.0);
        },
        None => {
            move_to_tile.path = Some(Vec::new());
        },
    }
}

/// Advances the path index when the unit stands on the path tile it was
/// walking to and more tiles follow; clears the path once the unit stands
/// on its target.  Nothing changes while the unit's tile, target or path is
/// unknown.
pub fn iterate_path(move_to_tile: &mut MoveToTile, tile_pos: Option<TilePos>)
    ensures
        final(move_to_tile).target == old(move_to_tile).target,
        match (tile_pos, old(move_to_tile).target, old(move_to_tile).path) {
            (Some(t), Some(tg), Some(p)) => {
                if old(move_to_tile).path_i < p@.len() && p@[old(move_to_tile).path_i as int] == t
                    && p@.len() > old(move_to_tile).path_i + 1 {
                    &&& final(move_to_tile).path_i == old(move_to_tile).path_i + 1
                    &&& path_view(final(move_to_tile).path) == Some(p@)
                } else if t == tg {
                    &&& final(move_to_tile).path is None
                    &&& final(move_to_tile).path_i == 0
                } else {
                    &&& final(move_to_tile).path_i == old(move_to_tile).path_i
                    &&& path_view(final(move_to_tile).path) == Some(p@)
                }
            },
            _ => final(move_to_tile).path_i == old(move_to_tile).path_i
                && path_view(final(move_to_tile).path) == path_view(old(move_to_tile).path),
        },
        // the unit never walks past the end of its path
        (old(move_to_tile).path matches Some(p) && old(move_to_tile).path_i < p@.len()) ==> (
            final(move_to_tile).path matches Some(q) ==> final(move_to_tile).path_i < q@.len()),
{
    let (tile, target) = match (tile_pos, move_to_tile.target) {
        (Some(t), Some(tg)) => (t, tg),
        _ => { return; },
    };
    let advance = match &move_to_tile.path {
        Some(path) => {
            let i = move_to_tile.path_i;
            i < path.len() && path[i].x == tile.x && path[i].y == tile.y && path.len() > i + 1
        },
        None => { return; },
    };
    if advance {
        move_to_tile.path_i = move_to_tile.path_i + 1;
    } else if tile.x == target.x && tile.y == target.y {
        move_to_tile.path = None;
        move_to_tile.path_i = 0;
    }
}

/// The path tile the unit should walk towards: the one at the path index,
/// or none once the index has passed the end or while there is no target
/// or path.  The application turns it into a movement direction.
pub fn move_towards_path(move_to_tile: &MoveToTile) -> (next: Option<TilePos>)
    ensures
        match (move_to_tile.path, move_to_tile.target) {
            (Some(p), Some(_)) => if move_to_tile.path_i >= p@.len() {
                next is None
            } else {
                next == Some(p@[move_to_tile.path_i as int])
            },
            _ => next is None,
        },
{
    match (&move_to_tile.path, &move_to_tile.target) {
        (Some(path), Some(_)) => {
            if move_to_tile.path_i >= path.len() {
                None
            } else {
                Some(path[move_to_tile.path_i])
            }
        },
        _ => None,
    }
}
} // verus!
