//! The maze model of a tile-based arcade game and its level editor: the tile map, the
//! wall-junction codes that select wall sprites, the corner test that decides where a
//! one-tile box may stand, the level text format, and the player's movement rules.
//!
//! Positions are fixed-point integers: `collision::SUBPIXELS` units make one pixel.

pub mod collision;
pub mod display;
pub mod editor;
pub mod game;
pub mod grid;
pub mod level;
pub mod maze;
pub mod movement;

pub use collision::{is_rect_walkable, is_tile_walkable, pixel_to_tile, Rect};
pub use display::{encode_display_map, DisplayTile, WALL_CODE_OFFSET};
pub use grid::is_wall_at;
pub use level::{load_level_from_string, save_level_to_string};
pub use movement::{Direction, Player};
