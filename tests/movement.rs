use roguelike::dungeon::make_map;
use roguelike::frame::Color;
use roguelike::game::{game_step, handle_keys, Game, KeyPress, LoopState};
use roguelike::object::Object;

const WHITE: Color = Color { r: 255, g: 255, b: 255 };
const YELLOW: Color = Color { r: 255, g: 255, b: 0 };

fn start() -> Game {
    let player = Object::new(25, 23, '@', WHITE);
    let npc = Object::new(25, 25, '@', YELLOW);
    Game { map: make_map(), objects: vec![player, npc] }
}

#[test]
fn move_into_wall_is_noop() {
    let map = make_map();
    // (21, 16) is the top-left floor cell of the first room: walls lie above and left.
    let mut o = Object::new(21, 16, '@', WHITE);
    o.move_by(0, -1, &map);
    assert_eq!((o.x, o.y), (21, 16));
    o.move_by(-1, 0, &map);
    assert_eq!((o.x, o.y), (21, 16));
    o.move_by(1, 0, &map);
    assert_eq!((o.x, o.y), (22, 16));
    o.move_by(0, 1, &map);
    assert_eq!((o.x, o.y), (22, 17));
}

#[test]
fn move_keeps_glyph_and_color() {
    let map = make_map();
    let mut o = Object::new(25, 23, 'g', YELLOW);
    o.move_by(1, 0, &map);
    assert_eq!(o, Object::new(26, 23, 'g', YELLOW));
}

#[test]
fn move_off_the_map_is_noop() {
    let map = make_map();
    let mut o = Object::new(0, 0, '@', WHITE);
    o.move_by(-1, 0, &map);
    assert_eq!((o.x, o.y), (0, 0));
    let mut p = Object::new(i32::MAX, 3, '@', WHITE);
    p.move_by(1, 0, &map);
    assert_eq!((p.x, p.y), (i32::MAX, 3));
}

#[test]
fn four_rights_along_the_tunnel() {
    let mut game = start();
    for _ in 0..4 {
        assert_eq!(game_step(&mut game, KeyPress::Right), LoopState::Running);
    }
    assert_eq!((game.objects[0].x, game.objects[0].y), (29, 23));
    assert_eq!((game.objects[1].x, game.objects[1].y), (25, 25));
    let before = game.objects.clone();
    assert_eq!(game_step(&mut game, KeyPress::Escape), LoopState::Terminated);
    assert_eq!(game.objects, before);
}

#[test]
fn up_from_room_corner_stays() {
    let map = make_map();
    let mut player = Object::new(20, 15, '@', WHITE);
    assert!(!handle_keys(KeyPress::Up, &mut player, &map));
    assert_eq!((player.x, player.y), (20, 15));
}

#[test]
fn arrow_keys_and_other_keys() {
    let map = make_map();
    let mut p = Object::new(25, 20, '@', WHITE);
    assert!(!handle_keys(KeyPress::Up, &mut p, &map));
    assert_eq!((p.x, p.y), (25, 19));
    assert!(!handle_keys(KeyPress::Down, &mut p, &map));
    assert_eq!((p.x, p.y), (25, 20));
    assert!(!handle_keys(KeyPress::Left, &mut p, &map));
    assert_eq!((p.x, p.y), (24, 20));
    assert!(!handle_keys(KeyPress::Right, &mut p, &map));
    assert_eq!((p.x, p.y), (25, 20));
    assert!(!handle_keys(KeyPress::Other, &mut p, &map));
    assert_eq!((p.x, p.y), (25, 20));
    assert!(handle_keys(KeyPress::Escape, &mut p, &map));
    assert_eq!((p.x, p.y), (25, 20));
}

#[test]
fn escape_first_changes_nothing() {
    let mut game = start();
    assert_eq!(game_step(&mut game, KeyPress::Escape), LoopState::Terminated);
    assert_eq!((game.objects[0].x, game.objects[0].y), (25, 23));
}
