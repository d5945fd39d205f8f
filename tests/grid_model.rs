use rust_pack::display::{classify_display_code, classify_display_map, DisplayTile};
use rust_pack::grid::{create_default_map, set_tile, wall_at_cell};
use rust_pack::{encode_display_map, is_wall_at, WALL_CODE_OFFSET};

fn three_by_three() -> Vec<Vec<u8>> {
    vec![vec![0, 1, 2], vec![3, 0, 0], vec![0, 0, 1]]
}

#[test]
fn cells_outside_the_map_are_walls() {
    let map = three_by_three();
    assert!(is_wall_at(-1, 0, &map));
    assert!(is_wall_at(0, -1, &map));
    assert!(is_wall_at(3, 0, &map));
    assert!(is_wall_at(0, 3, &map));
    assert!(is_wall_at(isize::MAX, isize::MIN, &map));
    assert!(is_wall_at(0, 0, &Vec::new()));
}

#[test]
fn stored_cells_are_walls_only_with_wall_code() {
    let map = three_by_three();
    assert!(!is_wall_at(0, 0, &map));
    assert!(is_wall_at(1, 0, &map));
    assert!(!is_wall_at(2, 0, &map));
    assert!(!is_wall_at(0, 1, &map));
    assert!(is_wall_at(2, 2, &map));
}

#[test]
fn ragged_rows_bound_each_row_by_its_own_length() {
    let map = vec![vec![0, 0, 0], vec![0]];
    assert!(!is_wall_at(2, 0, &map));
    assert!(is_wall_at(2, 1, &map));
}

#[test]
fn wall_at_cell_takes_wide_coordinates() {
    let map = three_by_three();
    assert!(wall_at_cell(i64::MIN, 0, &map));
    assert!(wall_at_cell(1, 0, &map));
    assert!(!wall_at_cell(0, 0, &map));
}

#[test]
fn wall_with_north_and_east_neighbours_encodes_nine() {
    let map = vec![vec![2, 1, 2], vec![2, 1, 1], vec![2, 2, 2]];
    let display = encode_display_map(&map);
    assert_eq!(display[1][1], WALL_CODE_OFFSET + 9);
    assert_eq!(display[1][1], 109);
}

#[test]
fn lone_wall_counts_map_edges_as_walls() {
    assert_eq!(encode_display_map(&vec![vec![1]]), vec![vec![115]]);
}

#[test]
fn wall_mask_bits_follow_neighbours() {
    // Row 1: a wall at column 1 with walls north and south, empty west and east.
    let map = vec![vec![0, 1, 0], vec![0, 1, 0], vec![0, 1, 0]];
    let display = encode_display_map(&map);
    assert_eq!(display[1][1], 100 + 1 + 2);
    // Top wall: north is off the map (a wall), south is a wall.
    assert_eq!(display[0][1], 100 + 1 + 2);
    // Every wall code stays within the sixteen sprites.
    for row in &display {
        for &code in row {
            assert!(code < 4 || (100..=115).contains(&code));
        }
    }
    for (y, row) in display.iter().enumerate() {
        for (x, &code) in row.iter().enumerate() {
            if map[y][x] == 1 {
                let m = code - WALL_CODE_OFFSET;
                let (xi, yi) = (x as isize, y as isize);
                assert_eq!(m & 1 != 0, is_wall_at(xi, yi - 1, &map));
                assert_eq!(m & 2 != 0, is_wall_at(xi, yi + 1, &map));
                assert_eq!(m & 4 != 0, is_wall_at(xi - 1, yi, &map));
                assert_eq!(m & 8 != 0, is_wall_at(xi + 1, yi, &map));
            }
        }
    }
}

#[test]
fn non_wall_cells_pass_through_encoding() {
    let map = vec![vec![0, 2, 3, 7]];
    assert_eq!(encode_display_map(&map), vec![vec![0, 2, 3, 7]]);
}

#[test]
fn display_codes_classify_for_drawing() {
    assert_eq!(classify_display_code(100), DisplayTile::Wall(0));
    assert_eq!(classify_display_code(115), DisplayTile::Wall(15));
    assert_eq!(classify_display_code(116), DisplayTile::Empty);
    assert_eq!(classify_display_code(99), DisplayTile::Empty);
    assert_eq!(classify_display_code(2), DisplayTile::SmallPellet);
    assert_eq!(classify_display_code(3), DisplayTile::BigPellet);
    assert_eq!(classify_display_code(0), DisplayTile::Empty);
    assert_eq!(classify_display_code(1), DisplayTile::Empty);
    let tiles = classify_display_map(&vec![vec![109, 2], vec![3, 0]]);
    assert_eq!(
        tiles,
        vec![
            vec![DisplayTile::Wall(9), DisplayTile::SmallPellet],
            vec![DisplayTile::BigPellet, DisplayTile::Empty]
        ]
    );
}

#[test]
fn set_tile_writes_only_inside_the_map() {
    let mut map = three_by_three();
    set_tile(&mut map, 2, 1, 1);
    assert_eq!(map, vec![vec![0, 1, 2], vec![3, 0, 1], vec![0, 0, 1]]);
    set_tile(&mut map, 3, 1, 1);
    set_tile(&mut map, 0, 9, 1);
    assert_eq!(map, vec![vec![0, 1, 2], vec![3, 0, 1], vec![0, 0, 1]]);
}

#[test]
fn default_map_is_blank_thirty_one_by_twenty_eight() {
    let map = create_default_map();
    assert_eq!(map.len(), 31);
    assert!(map.iter().all(|row| row.len() == 28 && row.iter().all(|&c| c == 0)));
}
