use vstd::prelude::*;

verus! {

/// Tile code of an empty, walkable cell.
pub const EMPTY: u8 = 0;

/// Tile code of a wall.
pub const WALL: u8 = 1;

/// Tile code of a small pellet.
pub const SMALL_PELLET: u8 = 2;

/// Tile code of a big pellet.
pub const BIG_PELLET: u8 = 3;

/// True when `(x, y)` names a stored cell of `map` (row `y`, column `x`).
pub open spec fn in_bounds(map: Seq<Seq<u8>>, x: int, y: int) -> bool {
    0 <= y < map.len() && 0 <= x < map[y].len()
}

/// A cell is a wall when it lies outside the map or holds the wall code.
pub open spec fn wall_at(map: Seq<Seq<u8>>, x: int, y: int) -> bool {
    !in_bounds(map, x, y) || map[y][x] == WALL
}

/// The nested vectors of a map, as nested sequences.
pub open spec fn rows_of(map: &Vec<Vec<u8>>) -> Seq<Seq<u8>> {
    map@.map_values(|r: Vec<u8>| r@)
}

/// Whether the cell at column `x`, row `y` is a wall; coordinates off the map count as walls.
pub fn is_wall_at(x: isize, y: isize, map: &Vec<Vec<u8>>) -> (r: bool)
    ensures
        r == wall_at(rows_of(map), x as int, y as int),
        !in_bounds(rows_of(map), x as int, y as int) ==> r,
{
    wall_at_cell(x as i64, y as i64, map)
}

/// `is_wall_at` on 64-bit coordinates, which need not fit an `isize`.
pub fn wall_at_cell(x: i64, y: i64, map: &Vec<Vec<u8>>) -> (r: bool)
    ensures
        r == wall_at(rows_of(map), x as int, y as int),
{
    if y < 0 || (y as u64) >= (map.len() as u64) {
        return true;
    }
    let row = &map[y as usize];
    if x < 0 || (x as u64) >= (row.len() as u64) {
        return true;
    }
    row[x as usize] == WALL
}

/// Number of rows of the blank map that the editor starts from.
pub const DEFAULT_ROWS: usize = 31;

/// Number of columns of the blank map that the editor starts from.
pub const DEFAULT_COLUMNS: usize = 28;

/// Every row of the map has the same length.
pub open spec fn is_rectangular(map: Seq<Seq<u8>>) -> bool {
    forall|i: int| 0 <= i < map.len() ==> #[trigger] map[i].len() == map[0].len()
}

/// The map after writing `code` at column `x`, row `y`; a write off the map changes nothing.
pub open spec fn with_tile(map: Seq<Seq<u8>>, x: int, y: int, code: u8) -> Seq<Seq<u8>> {
    if in_bounds(map, x, y) {
        map.update(y, map[y].update(x, code))
    } else {
        map
    }
}

/// Writes `code` at column `x`, row `y`; a write off the map is ignored.
pub fn set_tile(map: &mut Vec<Vec<u8>>, x: usize, y: usize, code: u8)
    ensures
        rows_of(final(map)) == with_tile(rows_of(old(map)), x as int, y as int, code),
{
    if y < map.len() && x < map[y].len() {
        let ghost before = rows_of(map);
        map[y][x] = code;
        assert(rows_of(map) =~= before.update(y as int, before[y as int].update(x as int, code)));
    }
}

/// `DEFAULT_ROWS` rows of `DEFAULT_COLUMNS` empty cells.
pub open spec fn blank_map() -> Seq<Seq<u8>> {
    Seq::new(DEFAULT_ROWS as nat, |y: int| Seq::new(DEFAULT_COLUMNS as nat, |x: int| EMPTY))
}

/// A blank map of `DEFAULT_ROWS` rows of `DEFAULT_COLUMNS` empty cells.
pub fn create_default_map() -> (r: Vec<Vec<u8>>)
    ensures
        rows_of(&r) == blank_map(),
{
    let mut map: Vec<Vec<u8>> = Vec::new();
    let mut y: usize = 0;
    while y < DEFAULT_ROWS
        invariant
            y <= DEFAULT_ROWS,
            map@.len() == y,
            forall|i: int| 0 <= i < y ==> #[trigger] map@[i]@ == Seq::new(DEFAULT_COLUMNS as nat, |x: int| EMPTY),
        decreases DEFAULT_ROWS - y,
    {
        let mut row: Vec<u8> = Vec::new();
        let mut x: usize = 0;
        while x < DEFAULT_COLUMNS
            invariant
                x <= DEFAULT_COLUMNS,
                row@ == Seq::new(x as nat, |i: int| EMPTY),
            decreases DEFAULT_COLUMNS - x,
        {
            row.push(EMPTY);
            x = x + 1;
            assert(row@ =~= Seq::new(x as nat, |i: int| EMPTY));
        }
        map.push(row);
        y = y + 1;
    }
    assert(rows_of(&map) =~= blank_map());
    map
}

} // verus!
