use vstd::prelude::*;

use crate::dungeon::{in_grid, tile_at, DungeonMap};
use crate::frame::{dark_ground, dark_wall, Color, Frame};
use crate::object::{moved, Object};

verus! {

/// The dungeon and the objects on it; by convention the first object is the player.
pub struct Game {
    pub map: DungeonMap,
    pub objects: Vec<Object>,
}

/// Whether `o` stands on `(x, y)`.
pub open spec fn stands_at(o: Object, x: int, y: int) -> bool {
    o.x == x && o.y == y
}

/// Whether `objs[j]` is the last of the first `n` objects that stands on `(x, y)`.
pub open spec fn topmost(objs: Seq<Object>, n: int, j: int, x: int, y: int) -> bool {
    &&& 0 <= j < n
    &&& stands_at(objs[j], x, y)
    &&& forall|k: int| j < k < n ==> !stands_at(#[trigger] objs[k], x, y)
}

/// Whether none of the first `n` objects stands on `(x, y)`.
pub open spec fn unoccupied(objs: Seq<Object>, n: int, x: int, y: int) -> bool {
    forall|k: int| 0 <= k < n ==> !stands_at(#[trigger] objs[k], x, y)
}

/// The background that the map gives to the cell `(x, y)`.
pub open spec fn background_of(map: &DungeonMap, x: int, y: int) -> Color {
    if tile_at(map, x, y).block_sight {
        dark_wall()
    } else {
        dark_ground()
    }
}

/// Draws every object in order, so that a later object covers an earlier one on the same
/// cell, then paints the background of every cell of the map: dark wall where the tile
/// blocks sight, dark ground elsewhere. Characters and their colours stay as the objects
/// left them.
pub fn render_all(con: &mut Frame, game: &Game)
    ensures
        final(con).same_shape(old(con)),
        forall|x: int, y: int, j: int|
            #![trigger final(con).cell_at(x, y), game.objects@[j]]
            old(con).in_frame(x, y) && topmost(game.objects@, game.objects@.len() as int, j, x, y)
                ==> final(con).cell_at(x, y).glyph == game.objects@[j].char
                && final(con).cell_at(x, y).fg == game.objects@[j].color,
        forall|x: int, y: int|
            #![trigger final(con).cell_at(x, y)]
            old(con).in_frame(x, y) && unoccupied(game.objects@, game.objects@.len() as int, x, y)
                ==> final(con).cell_at(x, y).glyph == old(con).cell_at(x, y).glyph
                && final(con).cell_at(x, y).fg == old(con).cell_at(x, y).fg,
        forall|x: int, y: int|
            #![trigger final(con).cell_at(x, y)]
            old(con).in_frame(x, y) ==> final(con).cell_at(x, y).bg == (if in_grid(&game.map, x, y) {
                background_of(&game.map, x, y)
            } else {
                old(con).cell_at(x, y).bg
            }),
        game.objects@.len() > 0 ==> final(con).default_fg == game.objects@.last().color,
        game.objects@.len() == 0 ==> final(con).default_fg == old(con).default_fg,
{
    let ghost start: Frame = *con;
    let objs = &game.objects;
    let mut i: usize = 0;
    while i < objs.len()
        invariant
            con.same_shape(&start),
            objs == &game.objects,
            i <= objs@.len(),
            forall|x: int, y: int, j: int|
                #![trigger con.cell_at(x, y), objs@[j]]
                start.in_frame(x, y) && topmost(objs@, i as int, j, x, y) ==> con.cell_at(x, y).glyph
                    == objs@[j].char && con.cell_at(x, y).fg == objs@[j].color,
            forall|x: int, y: int|
                #![trigger con.cell_at(x, y)]
                start.in_frame(x, y) && unoccupied(objs@, i as int, x, y) ==> con.cell_at(x, y).glyph
                    == start.cell_at(x, y).glyph && con.cell_at(x, y).fg == start.cell_at(x, y).fg,
            forall|x: int, y: int|
                #![trigger con.cell_at(x, y)]
                start.in_frame(x, y) ==> con.cell_at(x, y).bg == start.cell_at(x, y).bg,
            i > 0 ==> con.default_fg == objs@[i - 1].color,
            i == 0 ==> con.default_fg == start.default_fg,
        decreases objs@.len() - i,
    {
        let ghost before: Frame = *con;
        let o = &objs[i];
        o.draw(con);
        proof {
            let n = i + 1;
            assert forall|x: int, y: int, j: int|
                #![trigger con.cell_at(x, y), objs@[j]]
                start.in_frame(x, y) && topmost(objs@, n as int, j, x, y) implies con.cell_at(
                x,
                y,
            ).glyph == objs@[j].char && con.cell_at(x, y).fg == objs@[j].color by {
                if j < i {
                    assert(!stands_at(objs@[i as int], x, y));
                    assert(topmost(objs@, i as int, j, x, y));
                    assert(before.cell_at(x, y) == con.cell_at(x, y));
                }
            }
            assert forall|x: int, y: int|
                #![trigger con.cell_at(x, y)]
                start.in_frame(x, y) && unoccupied(objs@, n as int, x, y) implies con.cell_at(
                x,
                y,
            ).glyph == start.cell_at(x, y).glyph && con.cell_at(x, y).fg == start.cell_at(
                x,
                y,
            ).fg by {
                assert(!stands_at(objs@[i as int], x, y));
                assert(unoccupied(objs@, i as int, x, y));
                assert(before.cell_at(x, y) == con.cell_at(x, y));
            }
        }
        i += 1;
    }
    let ghost mid: Frame = *con;
    let map = &game.map;
    let mut x: usize = 0;
    while x < map.len()
        invariant
            con.same_shape(&start),
            map == &game.map,
            con.default_fg == mid.default_fg,
            forall|i: int, j: int|
                #![trigger con.cell_at(i, j)]
                start.in_frame(i, j) ==> con.cell_at(i, j).glyph == mid.cell_at(i, j).glyph
                    && con.cell_at(i, j).fg == mid.cell_at(i, j).fg,
            forall|i: int, j: int|
                #![trigger con.cell_at(i, j)]
                start.in_frame(i, j) ==> con.cell_at(i, j).bg == (if i < x && in_grid(map, i, j) {
                    background_of(map, i, j)
                } else {
                    mid.cell_at(i, j).bg
                }),
        decreases map@.len() - x,
    {
        let n = map[x].len();
        let mut y: usize = 0;
        while y < n
            invariant
                x < map@.len(),
                n == map@[x as int]@.len(),
                con.same_shape(&start),
                map == &game.map,
                con.default_fg == mid.default_fg,
                forall|i: int, j: int|
                    #![trigger con.cell_at(i, j)]
                    start.in_frame(i, j) ==> con.cell_at(i, j).glyph == mid.cell_at(i, j).glyph
                        && con.cell_at(i, j).fg == mid.cell_at(i, j).fg,
                forall|i: int, j: int|
                    #![trigger con.cell_at(i, j)]
                    start.in_frame(i, j) ==> con.cell_at(i, j).bg == (if (i < x || (i == x && j
                        < y)) && in_grid(map, i, j) {
                        background_of(map, i, j)
                    } else {
                        mid.cell_at(i, j).bg
                    }),
            decreases n - y,
        {
            if map[x][y].block_sight {
                con.set_char_background(x, y, Color::dark_wall());
            } else {
                con.set_char_background(x, y, Color::dark_ground());
            }
            y += 1;
        }
        x += 1;
    }
}

} // verus!

verus! {

/// A key press, reduced to what the game reacts to.
#[derive(Clone, Copy, Debug, PartialEq, Eq, Structural)]
pub enum KeyPress {
    Up,
    Down,
    Left,
    Right,
    Escape,
    /// Any other key; it is ignored.
    Other,
}

/// Whether the game loop goes on or has ended.
#[derive(Clone, Copy, Debug, PartialEq, Eq, Structural)]
pub enum LoopState {
    Running,
    Terminated,
}

/// The step that an arrow key asks for, as `(dx, dy)`; `None` for any other key.
pub open spec fn key_step(key: KeyPress) -> Option<(int, int)> {
    match key {
        KeyPress::Up => Some((0, -1)),
        KeyPress::Down => Some((0, 1)),
        KeyPress::Left => Some((-1, 0)),
        KeyPress::Right => Some((1, 0)),
        _ => None,
    }
}

/// The player after `key`: an arrow key moves it one cell that way if it can enter that
/// cell; any other key leaves it where it is.
pub open spec fn after_key(player: Object, key: KeyPress, map: &DungeonMap) -> Object {
    match key_step(key) {
        Some((dx, dy)) => moved(player, dx, dy, map),
        None => player,
    }
}

/// Reacts to one key press: an arrow key moves the player one cell that way, Escape asks
/// to quit and every other key is ignored. Returns whether to quit.
pub fn handle_keys(key: KeyPress, player: &mut Object, map: &DungeonMap) -> (exit: bool)
    ensures
        exit == (key == KeyPress::Escape),
        *final(player) == after_key(*old(player), key, map),
{
    match key {
        KeyPress::Up => player.move_by(0, -1, map),
        KeyPress::Down => player.move_by(0, 1, map),
        KeyPress::Left => player.move_by(-1, 0, map),
        KeyPress::Right => player.move_by(1, 0, map),
        KeyPress::Escape => return true,
        KeyPress::Other => {},
    }
    false
}

/// One turn of the game loop after the frame has been shown: the key acts on the player,
/// the first object. Escape ends the loop and changes nothing; every other key keeps it
/// running.
pub fn game_step(game: &mut Game, key: KeyPress) -> (state: LoopState)
    requires
        old(game).objects@.len() > 0,
    ensures
        state == (if key == KeyPress::Escape {
            LoopState::Terminated
        } else {
            LoopState::Running
        }),
        final(game).map == old(game).map,
        final(game).objects@ == old(game).objects@.update(
            0,
            after_key(old(game).objects@[0], key, &old(game).map),
        ),
        key == KeyPress::Escape ==> final(game).objects@ == old(game).objects@,
{
    if handle_keys(key, &mut game.objects[0], &game.map) {
        LoopState::Terminated
    } else {
        LoopState::Running
    }
}

} // verus!
