use vstd::prelude::*;

use vstd::arithmetic::div_mod::lemma_fundamental_div_mod_converse_div;

use crate::display::{classify_display_map, display_of, encode_display_map, tile_of_code, DisplayTile};
use crate::grid::rows_of;
use crate::maze::{classic_maze, classic_rows};
use crate::collision::{point_walkable, MAZE_OFFSET_Y, SUBPIXELS, TILE_UNITS};
use crate::grid::SMALL_PELLET;
use crate::movement::{box_walkable, grid_within_limits, HALF_TILE_UNITS, next_player, step_distance, Direction, Player, POSITION_LIMIT};

verus! {

/// Horizontal spawn position of the player, in units: the middle of column 13.
pub const SPAWN_X: i64 = 108_000;

/// Vertical spawn position of the player, in units: the middle of maze row 23, below the
/// offset reserved above the maze.
pub const SPAWN_Y: i64 = 228_000;

/// One running game: the tile map, the display grid derived from it, and the player.
#[derive(Debug)]
pub struct Game {
    pub level_map: Vec<Vec<u8>>,
    pub display_map: Vec<Vec<u8>>,
    pub player: Player,
}

impl Game {
    /// The display grid matches the map, and the map and player stay within the limits of
    /// movement.
    pub open spec fn wf(&self) -> bool {
        &&& rows_of(&self.display_map) == display_of(rows_of(&self.level_map))
        &&& grid_within_limits(rows_of(&self.level_map))
        &&& self.player.within_limits()
    }

    /// A game on `level_map` with the player at rest at the spawn position.
    pub fn new(level_map: Vec<Vec<u8>>) -> (g: Game)
        requires
            grid_within_limits(rows_of(&level_map)),
        ensures
            g.wf(),
            g.level_map@ == level_map@,
            g.player == (Player { x: SPAWN_X, y: SPAWN_Y, direction: Direction::Stopped, desired_direction: Direction::Stopped }),
    {
        Self::with_spawn(level_map, SPAWN_X, SPAWN_Y)
    }

    /// A game on the built-in maze with the player at rest at the spawn position.
    pub fn classic() -> (g: Game)
        ensures
            g.wf(),
            rows_of(&g.level_map) == classic_rows(),
            box_walkable(rows_of(&g.level_map), SPAWN_X as int, SPAWN_Y as int),
            g.player == (Player { x: SPAWN_X, y: SPAWN_Y, direction: Direction::Stopped, desired_direction: Direction::Stopped }),
    {
        let g = Self::new(classic_maze());
        proof {
            let m = classic_rows();
            let left = SPAWN_X - HALF_TILE_UNITS;
            let top = SPAWN_Y - HALF_TILE_UNITS;
            let right = left + TILE_UNITS - SUBPIXELS;
            let bottom = top + TILE_UNITS - SUBPIXELS;
            lemma_tile_of(left as int, 13);
            lemma_tile_of(right as int, 13);
            lemma_tile_of(top - MAZE_OFFSET_Y * SUBPIXELS, 23);
            lemma_tile_of(bottom - MAZE_OFFSET_Y * SUBPIXELS, 23);
            assert(m[23][13] == SMALL_PELLET);
            assert(point_walkable(m, left as int, top as int));
            assert(point_walkable(m, right as int, top as int));
            assert(point_walkable(m, left as int, bottom as int));
            assert(point_walkable(m, right as int, bottom as int));
        }
        g
    }

    /// A game on `level_map` with the player at rest at `(x, y)`, in units.
    pub fn with_spawn(level_map: Vec<Vec<u8>>, x: i64, y: i64) -> (g: Game)
        requires
            grid_within_limits(rows_of(&level_map)),
            -POSITION_LIMIT <= x <= POSITION_LIMIT,
            -POSITION_LIMIT <= y <= POSITION_LIMIT,
        ensures
            g.wf(),
            g.level_map@ == level_map@,
            g.player == (Player { x, y, direction: Direction::Stopped, desired_direction: Direction::Stopped }),
    {
        let display_map = encode_display_map(&level_map);
        Game { level_map, display_map, player: Player::new(x, y) }
    }

    /// Records the direction asked for; it is taken on the first tick where it is free.
    pub fn set_desired_direction(&mut self, d: Direction)
        ensures
            final(self).level_map@ == old(self).level_map@,
            final(self).display_map@ == old(self).display_map@,
            final(self).player == (Player { desired_direction: d, ..old(self).player }),
    {
        self.player.desired_direction = d;
    }

    /// Runs one tick of `dt_us` microseconds.
    pub fn update(&mut self, dt_us: u32)
        requires
            old(self).wf(),
        ensures
            final(self).wf(),
            final(self).level_map@ == old(self).level_map@,
            final(self).display_map@ == old(self).display_map@,
            final(self).player == next_player(old(self).player, rows_of(&old(self).level_map), step_distance(dt_us)),
    {
        self.player.step(&self.level_map, dt_us);
    }

    /// What to draw in each cell of the maze, in the shape of the map.
    pub fn tiles(&self) -> (r: Vec<Vec<DisplayTile>>)
        ensures
            r@.len() == self.display_map@.len(),
            forall|y: int| 0 <= y < r@.len() ==> #[trigger] r@[y]@ == self.display_map@[y]@.map_values(|c: u8| tile_of_code(c)),
    {
        classify_display_map(&self.display_map)
    }
}

/// `a` lies in tile `q`: `floor(a / TILE_UNITS) == q`.
proof fn lemma_tile_of(a: int, q: int)
    requires
        q * TILE_UNITS <= a < (q + 1) * TILE_UNITS,
    ensures
        a / (TILE_UNITS as int) == q,
{
    let d = TILE_UNITS as int;
    assert(d == 8000);
    assert(a == q * d + (a - q * d));
    lemma_fundamental_div_mod_converse_div(a, d, q, a - q * d);
}

} // verus!
