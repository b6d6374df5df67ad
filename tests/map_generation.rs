use roguelike::dungeon::{add_h_tunnel, add_room, add_v_tunnel, make_map, DungeonMap, Rect, MAP_HEIGHT, MAP_WIDTH};
use roguelike::tile::Tile;

fn solid(w: usize, h: usize) -> DungeonMap {
    vec![vec![Tile::wall(); h]; w]
}

#[test]
fn empty_and_wall_tiles() {
    let e = Tile::empty();
    assert!(!e.blocked);
    assert!(!e.block_sight);
    let w = Tile::wall();
    assert!(w.blocked);
    assert!(w.block_sight);
}

#[test]
fn rect_new_derives_far_corner() {
    let r = Rect::new(20, 15, 10, 15);
    assert_eq!((r.x1, r.y1, r.x2, r.y2), (20, 15, 30, 30));
}

#[test]
fn generated_map_layout() {
    let map = make_map();
    assert_eq!(map.len(), MAP_WIDTH as usize);
    for x in 0..MAP_WIDTH {
        assert_eq!(map[x as usize].len(), MAP_HEIGHT as usize);
        for y in 0..MAP_HEIGHT {
            let open = (21..=29).contains(&x) && (16..=29).contains(&y)
                || (51..=59).contains(&x) && (16..=29).contains(&y)
                || y == 23 && (25..=55).contains(&x);
            let t = map[x as usize][y as usize];
            assert_eq!(t.blocked, !open, "cell ({}, {})", x, y);
            assert_eq!(t.block_sight, !open, "cell ({}, {})", x, y);
        }
    }
}

#[test]
fn generated_room_corners_stay_wall() {
    let map = make_map();
    assert!(map[20][15].blocked);
    assert!(map[30][30].blocked);
    assert!(!map[21][16].blocked);
    assert!(!map[29][29].blocked);
    assert!(map[30][22].blocked);
    assert!(!map[30][23].blocked);
    assert!(!map[40][23].blocked);
    assert!(map[50][22].blocked);
    assert!(map[60][16].blocked);
}

#[test]
fn room_carves_only_its_floor() {
    let mut map = solid(6, 6);
    add_room(Rect::new(1, 1, 3, 3), &mut map);
    for x in 0..6 {
        for y in 0..6 {
            let open = (2..=3).contains(&x) && (2..=3).contains(&y);
            assert_eq!(map[x][y].blocked, !open, "cell ({}, {})", x, y);
        }
    }
}

#[test]
fn room_partly_outside_map_is_clipped() {
    let mut map = solid(4, 4);
    add_room(Rect::new(-3, 2, 10, 10), &mut map);
    for x in 0..4 {
        for y in 0..4 {
            assert_eq!(map[x][y].blocked, y < 3, "cell ({}, {})", x, y);
        }
    }
}

#[test]
fn h_tunnel_in_either_order() {
    let mut a = solid(8, 3);
    let mut b = solid(8, 3);
    add_h_tunnel(2, 5, 1, &mut a);
    add_h_tunnel(5, 2, 1, &mut b);
    for x in 0..8 {
        for y in 0..3 {
            let open = y == 1 && (2..=5).contains(&x);
            assert_eq!(a[x][y].blocked, !open);
            assert_eq!(b[x][y].blocked, !open);
        }
    }
}

#[test]
fn v_tunnel_in_either_order() {
    let mut a = solid(3, 8);
    let mut b = solid(3, 8);
    add_v_tunnel(6, 1, 2, &mut a);
    add_v_tunnel(1, 6, 2, &mut b);
    for x in 0..3 {
        for y in 0..8 {
            let open = x == 2 && (1..=6).contains(&y);
            assert_eq!(a[x][y].blocked, !open);
            assert_eq!(b[x][y].blocked, !open);
        }
    }
}

#[test]
fn tunnel_off_the_map_changes_nothing() {
    let mut map = solid(4, 4);
    add_h_tunnel(0, 3, 9, &mut map);
    add_v_tunnel(0, 3, -1, &mut map);
    assert!(map.iter().all(|col| col.iter().all(|t| t.blocked && t.block_sight)));
}
