use rust_pack::collision::{SUBPIXELS, TILE_UNITS};
use rust_pack::game::{Game, SPAWN_X, SPAWN_Y};
use rust_pack::movement::fits_movement_limits;
use rust_pack::{is_rect_walkable, is_tile_walkable, pixel_to_tile, Direction, Player, Rect};

/// Ticks of this many microseconds move the player one pixel.
const ONE_PIXEL_TICK: u32 = 25_000;

fn boxed_room() -> Vec<Vec<u8>> {
    vec![
        vec![1, 1, 1, 1, 1],
        vec![1, 0, 0, 0, 1],
        vec![1, 0, 0, 0, 1],
        vec![1, 0, 0, 0, 1],
        vec![1, 1, 1, 1, 1],
    ]
}

/// A corridor along row 2 with one opening to the north at column 3.
fn corridor_with_opening() -> Vec<Vec<u8>> {
    vec![
        vec![1, 1, 1, 1, 1, 1, 1],
        vec![1, 1, 1, 0, 1, 1, 1],
        vec![1, 0, 0, 0, 0, 0, 1],
        vec![1, 1, 1, 1, 1, 1, 1],
    ]
}

#[test]
fn pixel_to_tile_floors_and_removes_maze_offset() {
    assert_eq!(pixel_to_tile(0, 40_000), (0, 0));
    assert_eq!(pixel_to_tile(7_999, 47_999), (0, 0));
    assert_eq!(pixel_to_tile(8_000, 48_000), (1, 1));
    assert_eq!(pixel_to_tile(-1, 39_999), (-1, -1));
    assert_eq!(pixel_to_tile(-8_000, 32_000), (-1, -1));
    assert_eq!(pixel_to_tile(-8_001, 0), (-2, -5));
    assert_eq!(pixel_to_tile(i64::MIN, i64::MAX), (i64::MIN / 8_000 - 1, i64::MAX / 8_000 - 5));
}

#[test]
fn tile_walkability_reads_the_tile_under_a_point() {
    let map = boxed_room();
    assert!(is_tile_walkable(12_000, 52_000, &map));
    assert!(!is_tile_walkable(4_000, 52_000, &map));
    assert!(!is_tile_walkable(12_000, 39_000, &map));
}

#[test]
fn rect_walkable_needs_all_four_inset_corners() {
    let map = boxed_room();
    // Exactly tile (1, 1): the right and bottom edges lie on the next tile's boundary.
    assert!(is_rect_walkable(Rect::new(8_000, 48_000, 8_000, 8_000), &map));
    // The whole interior, three tiles wide.
    assert!(is_rect_walkable(Rect::new(8_000, 48_000, 24_000, 24_000), &map));
    // One unit further left puts the left corners on the west wall.
    assert!(!is_rect_walkable(Rect::new(7_999, 48_000, 8_000, 8_000), &map));
    // One unit up puts the top corners on the north wall.
    assert!(!is_rect_walkable(Rect::new(8_000, 47_999, 8_000, 8_000), &map));
    // Growing one pixel past the interior puts the right corners on the east wall.
    assert!(!is_rect_walkable(Rect::new(8_000, 48_000, 24_000 + SUBPIXELS, 8_000), &map));
    // Growing less than a pixel past it does not.
    assert!(is_rect_walkable(Rect::new(8_000, 48_000, 24_000 + SUBPIXELS - 1, 8_000), &map));
}

#[test]
fn rect_walkable_fails_on_bottom_right_corner_alone() {
    let map = vec![vec![0, 0], vec![0, 1]];
    assert!(is_rect_walkable(Rect::new(0, 40_000, 8_000, 16_000), &map));
    assert!(is_rect_walkable(Rect::new(0, 40_000, 16_000, 8_000), &map));
    assert!(!is_rect_walkable(Rect::new(0, 40_000, 16_000, 16_000), &map));
}

#[test]
fn player_starts_at_rest() {
    let p = Player::new(20_000, 60_000);
    assert_eq!(p.direction, Direction::Stopped);
    assert_eq!(p.desired_direction, Direction::Stopped);
    assert_eq!(p.bounding_box(), Rect::new(16_000, 56_000, TILE_UNITS, TILE_UNITS));
}

#[test]
fn moving_north_halts_at_the_border_row() {
    let map = boxed_room();
    let mut p = Player::new(20_000, 60_000);
    p.desired_direction = Direction::North;
    for tick in 1..=8 {
        p.step(&map, ONE_PIXEL_TICK);
        assert_eq!(p.y, 60_000 - 1_000 * tick);
        assert_eq!(p.direction, Direction::North);
    }
    // The box top now lies on the first interior row's upper edge.
    assert_eq!(p.bounding_box().y, 48_000);
    p.step(&map, ONE_PIXEL_TICK);
    assert_eq!((p.x, p.y), (20_000, 52_000));
    assert_eq!(p.direction, Direction::Stopped);
    assert_eq!(p.desired_direction, Direction::North);
}

#[test]
fn blocked_move_stops_without_clamping() {
    let map = boxed_room();
    let mut p = Player::new(20_000, 53_500);
    p.desired_direction = Direction::North;
    // Two pixels would cross into the wall, although one and a half would fit.
    p.step(&map, 2 * ONE_PIXEL_TICK);
    assert_eq!((p.x, p.y), (20_000, 53_500));
    assert_eq!(p.direction, Direction::Stopped);
}

#[test]
fn committed_positions_always_have_walkable_boxes() {
    let map = corridor_with_opening();
    let mut p = Player::new(12_000, 60_000);
    let plan = [Direction::East, Direction::North, Direction::West, Direction::South, Direction::East];
    for (i, d) in plan.iter().cycle().take(40).enumerate() {
        if i % 3 == 0 {
            p.desired_direction = *d;
        }
        let before = (p.x, p.y);
        p.step(&map, 3 * ONE_PIXEL_TICK);
        if (p.x, p.y) != before {
            assert!(is_rect_walkable(p.bounding_box(), &map));
        }
    }
}

#[test]
fn queued_turn_takes_effect_on_first_free_tick() {
    let map = corridor_with_opening();
    let mut p = Player::new(12_000, 60_000);
    p.desired_direction = Direction::East;
    p.step(&map, ONE_PIXEL_TICK);
    assert_eq!((p.x, p.direction), (13_000, Direction::East));
    p.desired_direction = Direction::North;
    for _ in 0..15 {
        p.step(&map, ONE_PIXEL_TICK);
        assert_eq!(p.direction, Direction::East);
        assert_eq!(p.y, 60_000);
    }
    assert_eq!(p.x, 28_000);
    p.step(&map, ONE_PIXEL_TICK);
    assert_eq!(p.direction, Direction::North);
    assert_eq!((p.x, p.y), (28_000, 59_000));
}

#[test]
fn stopped_desire_keeps_current_direction() {
    let map = corridor_with_opening();
    let mut p = Player::new(12_000, 60_000);
    p.direction = Direction::East;
    p.step(&map, ONE_PIXEL_TICK);
    assert_eq!((p.x, p.direction), (13_000, Direction::East));
}

#[test]
fn step_distance_rounds_down() {
    let map = corridor_with_opening();
    let mut p = Player::new(12_000, 60_000);
    p.desired_direction = Direction::East;
    // 40 pixels per second for 16 667 microseconds is 666.68 units.
    p.step(&map, 16_667);
    assert_eq!(p.x, 12_666);
    p.step(&map, 0);
    assert_eq!(p.x, 12_666);
    assert_eq!(p.direction, Direction::East);
}

#[test]
fn sprite_frames_follow_direction() {
    assert_eq!(Direction::North.sprite_frame(), 0);
    assert_eq!(Direction::East.sprite_frame(), 1);
    assert_eq!(Direction::South.sprite_frame(), 2);
    assert_eq!(Direction::West.sprite_frame(), 3);
    assert_eq!(Direction::Stopped.sprite_frame(), 2);
}

#[test]
fn classic_game_spawns_at_rest_on_an_open_tile() {
    let mut game = Game::classic();
    assert_eq!(game.level_map.len(), 25);
    assert!(game.level_map.iter().all(|r| r.len() == 28 && r.iter().all(|&c| c <= 3)));
    assert_eq!(game.level_map[23][13], 2);
    assert_eq!((game.player.x, game.player.y), (SPAWN_X, SPAWN_Y));
    assert!(is_rect_walkable(game.player.bounding_box(), &game.level_map));
    assert_eq!(game.display_map[0][0], 115);
    game.set_desired_direction(Direction::West);
    game.update(ONE_PIXEL_TICK);
    assert_eq!((game.player.x, game.player.direction), (SPAWN_X - 1_000, Direction::West));
    let tiles = game.tiles();
    assert_eq!(tiles.len(), 25);
}

#[test]
fn movement_limits_bound_map_size() {
    assert!(fits_movement_limits(&boxed_room()));
    assert!(fits_movement_limits(&Vec::new()));
    assert!(!fits_movement_limits(&vec![vec![0u8; 16_777_217]]));
}
