use vstd::prelude::*;

use crate::dungeon::{in_grid, tile_at, DungeonMap};
use crate::frame::{Cell, Color, Frame};

verus! {

/// A drawable token on the map: the player or another creature.
#[derive(Clone, Copy, Debug, PartialEq, Eq, Structural)]
pub struct Object {
    pub x: i32,
    pub y: i32,
    pub char: char,
    pub color: Color,
}

/// Whether an object may stand on `(x, y)`: the cell exists, is not blocked, and both
/// coordinates fit an `i32`.
pub open spec fn can_enter(map: &DungeonMap, x: int, y: int) -> bool {
    &&& in_grid(map, x, y)
    &&& x <= i32::MAX
    &&& y <= i32::MAX
    &&& !tile_at(map, x, y).blocked
}

/// Where `o` ends up when asked to step by `(dx, dy)`: on the new cell if it can enter it,
/// else where it was.
pub open spec fn moved(o: Object, dx: int, dy: int, map: &DungeonMap) -> Object {
    if can_enter(map, o.x + dx, o.y + dy) {
        Object { x: (o.x + dx) as i32, y: (o.y + dy) as i32, ..o }
    } else {
        o
    }
}

impl Object {
    /// An object at `(x, y)` drawn as `char` in `color`.
    pub fn new(x: i32, y: i32, char: char, color: Color) -> (o: Object)
        ensures
            o == (Object { x, y, char, color }),
    {
        Object { x, y, char, color }
    }

    /// Steps by `(dx, dy)` if the target cell is on the map and not blocked; otherwise
    /// stays put.
    pub fn move_by(&mut self, dx: i32, dy: i32, map: &DungeonMap)
        ensures
            *final(self) == moved(*old(self), dx as int, dy as int, map),
            can_enter(map, old(self).x + dx, old(self).y + dy) ==> final(self).x == old(self).x
                + dx && final(self).y == old(self).y + dy,
            !can_enter(map, old(self).x + dx, old(self).y + dy) ==> *final(self) == *old(self),
    {
        let x = match self.x.checked_add(dx) {
            Some(v) => v,
            None => return ,
        };
        let y = match self.y.checked_add(dy) {
            Some(v) => v,
            None => return ,
        };
        if x >= 0 && (x as usize) < map.len() && y >= 0 && (y as usize) < map[x as usize].len()
            && !map[x as usize][y as usize].blocked {
            self.x = x;
            self.y = y;
        }
    }

    /// Draws the object's character in its colour at its position; the colour becomes the
    /// frame's default foreground.
    pub fn draw(&self, con: &mut Frame)
        ensures
            final(con).default_fg == self.color,
            final(con).same_shape(old(con)),
            forall|i: int, j: int| #![trigger final(con).cell_at(i, j)]
                old(con).in_frame(i, j) ==> final(con).cell_at(i, j) == (if i == self.x && j
                    == self.y {
                    Cell { glyph: self.char, fg: self.color, bg: old(con).cell_at(i, j).bg }
                } else {
                    old(con).cell_at(i, j)
                }),
    {
        con.set_default_foreground(self.color);
        con.put_char(self.x, self.y, self.char);
    }
}

} // verus!
