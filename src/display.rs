use vstd::prelude::*;

use crate::grid::{in_bounds, rows_of, wall_at, BIG_PELLET, SMALL_PELLET, WALL};

verus! {

/// Added to a wall's neighbour mask to form its display code, so that the sixteen wall
/// codes `100..=115` never meet the tile codes.
pub const WALL_CODE_OFFSET: u8 = 100;

/// Largest display code of a wall.
pub const LAST_WALL_CODE: u8 = 115;

/// The neighbour mask of cell `(x, y)`: 1 for a wall to the north, 2 to the south,
/// 4 to the west and 8 to the east. Cells off the map count as walls.
pub open spec fn wall_mask(map: Seq<Seq<u8>>, x: int, y: int) -> int {
    (if wall_at(map, x, y - 1) { 1int } else { 0int })
    + (if wall_at(map, x, y + 1) { 2int } else { 0int })
    + (if wall_at(map, x - 1, y) { 4int } else { 0int })
    + (if wall_at(map, x + 1, y) { 8int } else { 0int })
}

/// The display code of a stored cell: a wall becomes `WALL_CODE_OFFSET` plus its mask,
/// any other cell keeps its code.
pub open spec fn display_code(map: Seq<Seq<u8>>, x: int, y: int) -> u8 {
    if map[y][x] == WALL {
        (WALL_CODE_OFFSET + wall_mask(map, x, y)) as u8
    } else {
        map[y][x]
    }
}

/// The display grid derived from `map`: same shape, each cell replaced by its display code.
pub open spec fn display_of(map: Seq<Seq<u8>>) -> Seq<Seq<u8>> {
    Seq::new(map.len(), |y: int| Seq::new(map[y].len(), |x: int| display_code(map, x, y)))
}

/// `wall_at` for coordinates that are known not to be negative.
fn wall_at_index(x: usize, y: usize, map: &Vec<Vec<u8>>) -> (r: bool)
    ensures
        r == wall_at(rows_of(map), x as int, y as int),
{
    if y >= map.len() {
        return true;
    }
    let row = &map[y];
    if x >= row.len() {
        return true;
    }
    row[x] == WALL
}

/// The neighbour mask of the stored cell `(x, y)`.
fn neighbour_mask(x: usize, y: usize, map: &Vec<Vec<u8>>) -> (m: u8)
    requires
        in_bounds(rows_of(map), x as int, y as int),
    ensures
        m as int == wall_mask(rows_of(map), x as int, y as int),
{
    let ghost g = rows_of(map);
    assert(g.len() == map@.len());
    let rows = map.len();
    assert(y < rows);
    assert(g[y as int] == map@[y as int]@);
    let row_len = map[y].len();
    let mut m: u8 = 0;
    if y == 0 || wall_at_index(x, y - 1, map) {
        m = m + 1;
    }
    if y + 1 == rows || wall_at_index(x, y + 1, map) {
        m = m + 2;
    }
    if x == 0 || wall_at_index(x - 1, y, map) {
        m = m + 4;
    }
    if x + 1 == row_len || wall_at_index(x + 1, y, map) {
        m = m + 8;
    }
    m
}

/// Derives the display grid from a tile map. Each wall cell becomes
/// `WALL_CODE_OFFSET + mask`, where the mask has bit 0 for a wall to the north, bit 1 to
/// the south, bit 2 to the west and bit 3 to the east, cells off the map counting as
/// walls; every other cell is copied.
pub fn encode_display_map(map: &Vec<Vec<u8>>) -> (r: Vec<Vec<u8>>)
    ensures
        rows_of(&r) == display_of(rows_of(map)),
{
    let ghost g = rows_of(map);
    let mut out: Vec<Vec<u8>> = Vec::new();
    let mut y: usize = 0;
    while y < map.len()
        invariant
            g == rows_of(map),
            y <= map@.len(),
            out@.len() == y,
            forall|i: int| 0 <= i < y ==> #[trigger] out@[i]@ == display_of(g)[i],
        decreases map@.len() - y,
    {
        let row = &map[y];
        let mut line: Vec<u8> = Vec::new();
        let mut x: usize = 0;
        while x < row.len()
            invariant
                g == rows_of(map),
                y < map@.len(),
                row@ == g[y as int],
                x <= row@.len(),
                line@ == display_of(g)[y as int].subrange(0, x as int),
            decreases row@.len() - x,
        {
            let code = row[x];
            if code == WALL {
                let m = neighbour_mask(x, y, map);
                line.push(WALL_CODE_OFFSET + m);
            } else {
                line.push(code);
            }
            x = x + 1;
            assert(line@ =~= display_of(g)[y as int].subrange(0, x as int));
        }
        assert(line@ =~= display_of(g)[y as int]);
        out.push(line);
        y = y + 1;
    }
    assert(rows_of(&out) =~= display_of(g));
    out
}

/// The display code of every wall cell lies in `WALL_CODE_OFFSET ..= WALL_CODE_OFFSET + 15`,
/// and bit `i` of the mask it carries is set exactly when the neighbour to the north,
/// south, west or east (for `i` = 0, 1, 2, 3) is a wall, cells off the map included.
pub proof fn lemma_wall_code_bits(map: Seq<Seq<u8>>, x: int, y: int)
    requires
        in_bounds(map, x, y),
        map[y][x] == WALL,
    ensures
        WALL_CODE_OFFSET <= display_code(map, x, y) <= LAST_WALL_CODE,
        ({
            let m = display_code(map, x, y) - WALL_CODE_OFFSET;
            &&& (m % 2 == 1) == wall_at(map, x, y - 1)
            &&& ((m / 2) % 2 == 1) == wall_at(map, x, y + 1)
            &&& ((m / 4) % 2 == 1) == wall_at(map, x - 1, y)
            &&& ((m / 8) % 2 == 1) == wall_at(map, x + 1, y)
        }),
{
}

/// What the renderer draws for one cell of the display grid.
#[derive(PartialEq, Eq, Structural, Clone, Copy, Debug)]
pub enum DisplayTile {
    Empty,
    /// A wall, with the index `0..=15` of its junction sprite.
    Wall(u8),
    SmallPellet,
    BigPellet,
}

/// The drawing of one display code: the wall codes select a wall sprite, pellets are
/// drawn as such and anything else is left blank.
pub open spec fn tile_of_code(code: u8) -> DisplayTile {
    if WALL_CODE_OFFSET <= code <= LAST_WALL_CODE {
        DisplayTile::Wall((code - WALL_CODE_OFFSET) as u8)
    } else if code == SMALL_PELLET {
        DisplayTile::SmallPellet
    } else if code == BIG_PELLET {
        DisplayTile::BigPellet
    } else {
        DisplayTile::Empty
    }
}

/// Classifies one display code for drawing.
pub fn classify_display_code(code: u8) -> (t: DisplayTile)
    ensures
        t == tile_of_code(code),
{
    if WALL_CODE_OFFSET <= code && code <= LAST_WALL_CODE {
        DisplayTile::Wall(code - WALL_CODE_OFFSET)
    } else if code == SMALL_PELLET {
        DisplayTile::SmallPellet
    } else if code == BIG_PELLET {
        DisplayTile::BigPellet
    } else {
        DisplayTile::Empty
    }
}

/// Classifies every cell of a display grid for drawing; the result has the grid's shape.
pub fn classify_display_map(display: &Vec<Vec<u8>>) -> (r: Vec<Vec<DisplayTile>>)
    ensures
        r@.len() == display@.len(),
        forall|y: int| 0 <= y < r@.len() ==> #[trigger] r@[y]@ == display@[y]@.map_values(|c: u8| tile_of_code(c)),
{
    let mut out: Vec<Vec<DisplayTile>> = Vec::new();
    let mut y: usize = 0;
    while y < display.len()
        invariant
            y <= display@.len(),
            out@.len() == y,
            forall|i: int| 0 <= i < y ==> #[trigger] out@[i]@ == display@[i]@.map_values(|c: u8| tile_of_code(c)),
        decreases display@.len() - y,
    {
        let row = &display[y];
        let mut line: Vec<DisplayTile> = Vec::new();
        let mut x: usize = 0;
        while x < row.len()
            invariant
                y < display@.len(),
                row@ == display@[y as int]@,
                x <= row@.len(),
                line@ == row@.subrange(0, x as int).map_values(|c: u8| tile_of_code(c)),
            decreases row@.len() - x,
        {
            line.push(classify_display_code(row[x]));
            x = x + 1;
            assert(line@ =~= row@.subrange(0, x as int).map_values(|c: u8| tile_of_code(c)));
        }
        assert(row@.subrange(0, row@.len() as int) =~= row@);
        out.push(line);
        y = y + 1;
    }
    out
}

} // verus!
