use vstd::prelude::*;

use crate::tile::{empty_tile, wall_tile, Tile};

verus! {

/// Number of columns of the generated dungeon.
pub const MAP_WIDTH: i32 = 80;

/// Number of rows of the generated dungeon.
pub const MAP_HEIGHT: i32 = 45;

/// The dungeon grid, indexed as `map[x][y]`: one inner vector per column.
pub type DungeonMap = Vec<Vec<Tile>>;

/// Whether `(x, y)` names a cell of the map.
pub open spec fn in_grid(map: &DungeonMap, x: int, y: int) -> bool {
    0 <= x < map@.len() && 0 <= y < map@[x]@.len()
}

/// The tile at `(x, y)`; meaningful when `in_grid(map, x, y)`.
pub open spec fn tile_at(map: &DungeonMap, x: int, y: int) -> Tile {
    map@[x]@[y]
}

/// Two maps have the same columns with the same number of cells each.
pub open spec fn same_shape(a: &DungeonMap, b: &DungeonMap) -> bool {
    &&& a@.len() == b@.len()
    &&& forall|x: int| 0 <= x < a@.len() ==> #[trigger] a@[x]@.len() == b@[x]@.len()
}

/// Replaces the tile at `(x, y)`.
fn set_tile(map: &mut DungeonMap, x: usize, y: usize, t: Tile)
    requires
        in_grid(old(map), x as int, y as int),
    ensures
        same_shape(final(map), old(map)),
        forall|i: int, j: int|
            #![trigger tile_at(final(map), i, j)]
            in_grid(old(map), i, j) ==> tile_at(final(map), i, j) == (if i == x && j == y {
                t
            } else {
                tile_at(old(map), i, j)
            }),
{
    map[x][y] = t;
}

} // verus!

verus! {

/// An axis-aligned room: the corners `(x1, y1)` and `(x2, y2)` lie on its walls.
#[derive(Clone, Copy, Debug, PartialEq, Eq, Structural)]
pub struct Rect {
    pub x1: i32,
    pub x2: i32,
    pub y1: i32,
    pub y2: i32,
}

impl Rect {
    /// Whether `(x, y)` lies strictly inside the room, that is on its floor.
    pub open spec fn interior(self, x: int, y: int) -> bool {
        self.x1 < x < self.x2 && self.y1 < y < self.y2
    }

    /// The room whose top-left corner is `(x1, y1)`, `w` columns wide and `h` rows high.
    pub fn new(x1: i32, y1: i32, w: i32, h: i32) -> (r: Rect)
        requires
            i32::MIN <= x1 + w <= i32::MAX,
            i32::MIN <= y1 + h <= i32::MAX,
        ensures
            r.x1 == x1,
            r.y1 == y1,
            r.x2 == x1 + w,
            r.y2 == y1 + h,
    {
        Rect { x1, x2: x1 + w, y1, y2: y1 + h }
    }
}

/// Whether the signed coordinate `a` is less than the unsigned index `b`.
fn lt_signed(a: i32, b: usize) -> (r: bool)
    ensures
        r == (a < b),
{
    a < 0 || (a as usize) < b
}

/// Whether the unsigned index `b` is less than the signed coordinate `a`.
fn gt_signed(a: i32, b: usize) -> (r: bool)
    ensures
        r == (b < a),
{
    a > 0 && b < (a as usize)
}

/// Whether `(x, y)` lies on the horizontal tunnel between columns `x1` and `x2` (both
/// included, in either order) on row `ty`.
pub open spec fn h_tunnel(x1: int, x2: int, ty: int, x: int, y: int) -> bool {
    y == ty && (if x1 <= x2 { x1 <= x <= x2 } else { x2 <= x <= x1 })
}

/// Whether `(x, y)` lies on the vertical tunnel between rows `y1` and `y2` (both included,
/// in either order) in column `tx`.
pub open spec fn v_tunnel(y1: int, y2: int, tx: int, x: int, y: int) -> bool {
    x == tx && (if y1 <= y2 { y1 <= y <= y2 } else { y2 <= y <= y1 })
}

/// Carves the floor of `room` out of the map: every cell strictly inside it becomes empty.
/// Cells of the room that fall outside the map are skipped.
pub fn add_room(room: Rect, map: &mut DungeonMap)
    ensures
        same_shape(final(map), old(map)),
        forall|x: int, y: int|
            #![trigger tile_at(final(map), x, y)]
            in_grid(old(map), x, y) ==> tile_at(final(map), x, y) == (if room.interior(x, y) {
                empty_tile()
            } else {
                tile_at(old(map), x, y)
            }),
{
    let ghost orig: DungeonMap = *map;
    let mut x: usize = 0;
    while x < map.len()
        invariant
            same_shape(map, &orig),
            forall|i: int, j: int|
                #![trigger tile_at(map, i, j)]
                in_grid(&orig, i, j) ==> tile_at(map, i, j) == (if i < x && room.interior(i, j) {
                    empty_tile()
                } else {
                    tile_at(&orig, i, j)
                }),
        decreases map.len() - x,
    {
        let inside_x = lt_signed(room.x1, x) && gt_signed(room.x2, x);
        let n = map[x].len();
        let mut y: usize = 0;
        while y < n
            invariant
                x < map@.len(),
                n == map@[x as int]@.len(),
                same_shape(map, &orig),
                inside_x == (room.x1 < x < room.x2),
                forall|i: int, j: int|
                    #![trigger tile_at(map, i, j)]
                    in_grid(&orig, i, j) ==> tile_at(map, i, j) == (if (i < x || (i == x && j
                        < y)) && room.interior(i, j) {
                        empty_tile()
                    } else {
                        tile_at(&orig, i, j)
                    }),
            decreases n - y,
        {
            if inside_x && lt_signed(room.y1, y) && gt_signed(room.y2, y) {
                set_tile(map, x, y, Tile::empty());
            }
            y += 1;
        }
        x += 1;
    }
}

} // verus!

verus! {

/// Carves a horizontal tunnel on row `y` from column `x1` to column `x2`, both included,
/// in either order. Cells of the tunnel that fall outside the map are skipped.
pub fn add_h_tunnel(x1: i32, x2: i32, y: i32, map: &mut DungeonMap)
    ensures
        same_shape(final(map), old(map)),
        forall|cx: int, cy: int|
            #![trigger tile_at(final(map), cx, cy)]
            in_grid(old(map), cx, cy) ==> tile_at(final(map), cx, cy) == (if h_tunnel(
                x1 as int,
                x2 as int,
                y as int,
                cx,
                cy,
            ) {
                empty_tile()
            } else {
                tile_at(old(map), cx, cy)
            }),
{
    let ghost orig: DungeonMap = *map;
    let lo = if x1 <= x2 { x1 } else { x2 };
    let hi = if x1 <= x2 { x2 } else { x1 };
    let mut x: usize = 0;
    while x < map.len()
        invariant
            same_shape(map, &orig),
            lo as int == if x1 <= x2 { x1 as int } else { x2 as int },
            hi as int == if x1 <= x2 { x2 as int } else { x1 as int },
            forall|i: int, j: int|
                #![trigger tile_at(map, i, j)]
                in_grid(&orig, i, j) ==> tile_at(map, i, j) == (if i < x && h_tunnel(
                    x1 as int,
                    x2 as int,
                    y as int,
                    i,
                    j,
                ) {
                    empty_tile()
                } else {
                    tile_at(&orig, i, j)
                }),
        decreases map.len() - x,
    {
        if y >= 0 && (y as usize) < map[x].len() && !gt_signed(lo, x) && !lt_signed(hi, x) {
            set_tile(map, x, y as usize, Tile::empty());
        }
        x += 1;
    }
}

/// Carves a vertical tunnel in column `x` from row `y1` to row `y2`, both included, in
/// either order. Cells of the tunnel that fall outside the map are skipped.
pub fn add_v_tunnel(y1: i32, y2: i32, x: i32, map: &mut DungeonMap)
    ensures
        same_shape(final(map), old(map)),
        forall|cx: int, cy: int|
            #![trigger tile_at(final(map), cx, cy)]
            in_grid(old(map), cx, cy) ==> tile_at(final(map), cx, cy) == (if v_tunnel(
                y1 as int,
                y2 as int,
                x as int,
                cx,
                cy,
            ) {
                empty_tile()
            } else {
                tile_at(old(map), cx, cy)
            }),
{
    if x < 0 || (x as usize) >= map.len() {
        return;
    }
    let col = x as usize;
    let ghost orig: DungeonMap = *map;
    let lo = if y1 <= y2 { y1 } else { y2 };
    let hi = if y1 <= y2 { y2 } else { y1 };
    let n = map[col].len();
    let mut y: usize = 0;
    while y < n
        invariant
            col == x,
            col < map@.len(),
            n == map@[col as int]@.len(),
            same_shape(map, &orig),
            lo as int == if y1 <= y2 { y1 as int } else { y2 as int },
            hi as int == if y1 <= y2 { y2 as int } else { y1 as int },
            forall|i: int, j: int|
                #![trigger tile_at(map, i, j)]
                in_grid(&orig, i, j) ==> tile_at(map, i, j) == (if j < y && v_tunnel(
                    y1 as int,
                    y2 as int,
                    x as int,
                    i,
                    j,
                ) {
                    empty_tile()
                } else {
                    tile_at(&orig, i, j)
                }),
        decreases n - y,
    {
        if !gt_signed(lo, y) && !lt_signed(hi, y) {
            set_tile(map, col, y, Tile::empty());
        }
        y += 1;
    }
}

} // verus!

verus! {

/// The first room of the generated dungeon.
pub open spec fn first_room() -> Rect {
    Rect { x1: 20, x2: 30, y1: 15, y2: 30 }
}

/// The second room of the generated dungeon.
pub open spec fn second_room() -> Rect {
    Rect { x1: 50, x2: 60, y1: 15, y2: 30 }
}

/// Whether the generator opens the cell `(x, y)`: it lies on the floor of one of the two
/// rooms or on the tunnel that joins them.
pub open spec fn carved(x: int, y: int) -> bool {
    first_room().interior(x, y) || second_room().interior(x, y) || h_tunnel(25, 55, 23, x, y)
}

/// A map of `MAP_WIDTH` columns of `MAP_HEIGHT` wall tiles each.
fn solid_map() -> (map: DungeonMap)
    ensures
        map@.len() == MAP_WIDTH,
        forall|x: int| 0 <= x < MAP_WIDTH ==> #[trigger] map@[x]@.len() == MAP_HEIGHT,
        forall|x: int, y: int| #![trigger tile_at(&map, x, y)]
            in_grid(&map, x, y) ==> tile_at(&map, x, y) == wall_tile(),
{
    let mut map: DungeonMap = Vec::new();
    let mut x: usize = 0;
    while x < MAP_WIDTH as usize
        invariant
            map@.len() == x,
            x <= MAP_WIDTH,
            forall|i: int| 0 <= i < x ==> #[trigger] map@[i]@.len() == MAP_HEIGHT,
            forall|i: int, j: int| #![trigger tile_at(&map, i, j)]
                in_grid(&map, i, j) ==> tile_at(&map, i, j) == wall_tile(),
        decreases MAP_WIDTH - x,
    {
        let mut col: Vec<Tile> = Vec::new();
        let mut y: usize = 0;
        while y < MAP_HEIGHT as usize
            invariant
                col@.len() == y,
                y <= MAP_HEIGHT,
                forall|j: int| 0 <= j < y ==> #[trigger] col@[j] == wall_tile(),
            decreases MAP_HEIGHT - y,
        {
            col.push(Tile::wall());
            y += 1;
        }
        let ghost prev = map;
        map.push(col);
        proof {
            assert forall|i: int, j: int| #![trigger tile_at(&map, i, j)]
                in_grid(&map, i, j) implies tile_at(&map, i, j) == wall_tile() by {
                if i < x {
                    assert(map@[i] == prev@[i]);
                    assert(tile_at(&prev, i, j) == wall_tile());
                }
            }
        }
        x += 1;
    }
    map
}

/// Builds the dungeon: walls everywhere but on the floors of two rooms and on the tunnel
/// that joins them.
pub fn make_map() -> (map: DungeonMap)
    ensures
        map@.len() == MAP_WIDTH,
        forall|x: int| 0 <= x < MAP_WIDTH ==> #[trigger] map@[x]@.len() == MAP_HEIGHT,
        forall|x: int, y: int| #![trigger tile_at(&map, x, y)]
            in_grid(&map, x, y) ==> tile_at(&map, x, y) == (if carved(x, y) {
                empty_tile()
            } else {
                wall_tile()
            }),
{
    let mut map = solid_map();
    let room1 = Rect::new(20, 15, 10, 15);
    let room2 = Rect::new(50, 15, 10, 15);
    add_room(room1, &mut map);
    add_room(room2, &mut map);
    add_h_tunnel(25, 55, 23, &mut map);
    map
}

/// The layout of the generated dungeon in numbers: the cells of the first room's floor
/// (columns 21 to 29, rows 16 to 29), of the second room's floor (columns 51 to 59, rows 16
/// to 29) and of row 23 from column 25 to 55 are open, and every other cell is wall.
pub proof fn lemma_generated_layout(x: int, y: int)
    ensures
        carved(x, y) <==> ((21 <= x <= 29 && 16 <= y <= 29) || (51 <= x <= 59 && 16 <= y <= 29)
            || (y == 23 && 25 <= x <= 55)),
{
}

} // verus!
