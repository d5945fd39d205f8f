use vstd::prelude::*;

use vstd::arithmetic::div_mod::lemma_fundamental_div_mod;

use crate::collision::{pixel_to_tile, tile_col, tile_row, TILE_SIZE, TILE_UNITS};
use crate::display::{display_of, encode_display_map};
use crate::grid::{blank_map, create_default_map, in_bounds, rows_of, set_tile, with_tile, BIG_PELLET, EMPTY, SMALL_PELLET, WALL};

verus! {

/// Columns of tiles between the left edge of the editor screen and the map.
pub const EDITOR_MAP_OFFSET_COLUMNS: i64 = 14;

/// Horizontal offset of the map on the editor screen, in pixels.
pub const EDITOR_MAP_OFFSET_X: i64 = TILE_SIZE * EDITOR_MAP_OFFSET_COLUMNS;

/// Which screen the editor shows.
#[derive(PartialEq, Eq, Structural, Clone, Copy, Debug)]
pub enum EditorMode {
    Menu,
    Editing,
}

/// The keys that the editor reacts to.
#[derive(PartialEq, Eq, Structural, Clone, Copy, Debug)]
pub enum EditorKey {
    WallTool,
    DotTool,
    BigDotTool,
    EraseTool,
    Save,
    Clear,
    Escape,
}

/// Work that the editor leaves to its host.
#[derive(PartialEq, Eq, Structural, Clone, Copy, Debug)]
pub enum EditorEffect {
    Nothing,
    /// Read the level file and hand its text to `Editor::load_text`.
    LoadLevel,
    /// Write `save_level_to_string` of the map to the level file.
    SaveLevel,
}

/// Menu entry that starts a new, blank level.
pub const MENU_NEW_LEVEL: usize = 0;

/// Menu entry that loads the level file.
pub const MENU_LOAD_LEVEL: usize = 1;

/// Menu entry that saves the level file.
pub const MENU_SAVE_LEVEL: usize = 2;

/// Menu entry that goes back to editing.
pub const MENU_RESUME: usize = 3;

/// The level editor: the map being edited, its display grid, the tile code that painting
/// writes, and the screen shown.
#[derive(Debug)]
pub struct Editor {
    pub level_map: Vec<Vec<u8>>,
    pub display_map: Vec<Vec<u8>>,
    pub current_tool: u8,
    pub mode: EditorMode,
}

/// The column of the editor's map under horizontal screen position `x`, in units.
pub open spec fn editor_col(x: int) -> int {
    tile_col(x) - EDITOR_MAP_OFFSET_COLUMNS
}

impl Editor {
    /// The display grid matches the map.
    pub open spec fn wf(&self) -> bool {
        rows_of(&self.display_map) == display_of(rows_of(&self.level_map))
    }

    /// An editor on `level_map`, showing the menu, with the wall as its tool.
    pub fn new(level_map: Vec<Vec<u8>>) -> (e: Editor)
        ensures
            e.wf(),
            e.level_map@ == level_map@,
            e.current_tool == WALL,
            e.mode == EditorMode::Menu,
    {
        let display_map = encode_display_map(&level_map);
        Editor { level_map, display_map, current_tool: WALL, mode: EditorMode::Menu }
    }

    /// Replaces the map being edited and derives its display grid anew.
    pub fn replace_level(&mut self, level_map: Vec<Vec<u8>>)
        ensures
            final(self).wf(),
            final(self).level_map@ == level_map@,
            final(self).current_tool == old(self).current_tool,
            final(self).mode == old(self).mode,
    {
        self.display_map = encode_display_map(&level_map);
        self.level_map = level_map;
    }

    /// Paints the current tool at column `col`, row `row`; a cell off the map is ignored.
    pub fn paint(&mut self, col: i64, row: i64)
        requires
            old(self).wf(),
        ensures
            final(self).wf(),
            rows_of(&final(self).level_map) == with_tile(
                rows_of(&old(self).level_map),
                col as int,
                row as int,
                old(self).current_tool,
            ),
            final(self).current_tool == old(self).current_tool,
            final(self).mode == old(self).mode,
    {
        let ghost g = rows_of(&self.level_map);
        if col < 0 || row < 0 || (row as u64) >= (self.level_map.len() as u64) {
            return;
        }
        let r = row as usize;
        if (col as u64) >= (self.level_map[r].len() as u64) {
            return;
        }
        let c = col as usize;
        assert(in_bounds(g, col as int, row as int));
        if self.level_map[r][c] != self.current_tool {
            set_tile(&mut self.level_map, c, r, self.current_tool);
            self.display_map = encode_display_map(&self.level_map);
        } else {
            assert(g[row as int] == self.level_map@[row as int]@);
            assert(g[row as int].update(col as int, self.current_tool) =~= g[row as int]);
            assert(g.update(row as int, g[row as int].update(col as int, self.current_tool)) =~= g);
        }
    }

    /// Paints the current tool at the editor screen position `(x, y)`, in units.
    pub fn paint_at_point(&mut self, x: i64, y: i64)
        requires
            old(self).wf(),
        ensures
            final(self).wf(),
            rows_of(&final(self).level_map) == with_tile(
                rows_of(&old(self).level_map),
                editor_col(x as int),
                tile_row(y as int),
                old(self).current_tool,
            ),
            final(self).current_tool == old(self).current_tool,
            final(self).mode == old(self).mode,
    {
        let (col, row) = pixel_to_tile(x, y);
        proof {
            lemma_fundamental_div_mod(x as int, TILE_UNITS as int);
        }
        self.paint(col - EDITOR_MAP_OFFSET_COLUMNS, row);
    }

    /// Reads `content` as a level and edits it from now on.
    pub fn load_text(&mut self, content: &str)
        ensures
            final(self).wf(),
            rows_of(&final(self).level_map) == crate::level::parse_level(content@),
            final(self).current_tool == old(self).current_tool,
            final(self).mode == old(self).mode,
    {
        let level_map = crate::level::load_level_from_string(content);
        self.replace_level(level_map);
    }

    /// Acts on the menu entry at `index`: a new level is blank; loading, and resuming, go
    /// back to editing; saving stays on the menu. Other indices do nothing.
    pub fn choose_menu_option(&mut self, index: usize) -> (effect: EditorEffect)
        requires
            old(self).wf(),
        ensures
            final(self).wf(),
            final(self).current_tool == old(self).current_tool,
            index == MENU_NEW_LEVEL ==> {
                &&& rows_of(&final(self).level_map) == blank_map()
                &&& final(self).mode == EditorMode::Editing
                &&& effect == EditorEffect::Nothing
            },
            index != MENU_NEW_LEVEL ==> final(self).level_map@ == old(self).level_map@,
            index == MENU_LOAD_LEVEL ==> final(self).mode == EditorMode::Editing && effect == EditorEffect::LoadLevel,
            index == MENU_SAVE_LEVEL ==> final(self).mode == old(self).mode && effect == EditorEffect::SaveLevel,
            index == MENU_RESUME ==> final(self).mode == EditorMode::Editing && effect == EditorEffect::Nothing,
            index > MENU_RESUME ==> final(self).mode == old(self).mode && effect == EditorEffect::Nothing,
    {
        if index == MENU_NEW_LEVEL {
            self.replace_level(create_default_map());
            self.mode = EditorMode::Editing;
            EditorEffect::Nothing
        } else if index == MENU_LOAD_LEVEL {
            self.mode = EditorMode::Editing;
            EditorEffect::LoadLevel
        } else if index == MENU_SAVE_LEVEL {
            EditorEffect::SaveLevel
        } else if index == MENU_RESUME {
            self.mode = EditorMode::Editing;
            EditorEffect::Nothing
        } else {
            EditorEffect::Nothing
        }
    }

    /// Acts on a key. On the menu only `Escape` does something: it goes back to editing.
    /// While editing, the tool keys pick the tile code that painting writes, `Clear` blanks
    /// the map, `Save` asks the host to save, and `Escape` opens the menu.
    pub fn handle_key(&mut self, key: EditorKey) -> (effect: EditorEffect)
        requires
            old(self).wf(),
        ensures
            final(self).wf(),
            effect == (if old(self).mode == EditorMode::Editing && key == EditorKey::Save {
                EditorEffect::SaveLevel
            } else {
                EditorEffect::Nothing
            }),
            old(self).mode == EditorMode::Menu ==> {
                &&& final(self).level_map@ == old(self).level_map@
                &&& final(self).current_tool == old(self).current_tool
                &&& final(self).mode == (if key == EditorKey::Escape {
                    EditorMode::Editing
                } else {
                    EditorMode::Menu
                })
            },
            old(self).mode == EditorMode::Editing ==> {
                &&& final(self).current_tool == match key {
                    EditorKey::WallTool => WALL,
                    EditorKey::DotTool => SMALL_PELLET,
                    EditorKey::BigDotTool => BIG_PELLET,
                    EditorKey::EraseTool => EMPTY,
                    _ => old(self).current_tool,
                }
                &&& if key == EditorKey::Clear {
                    rows_of(&final(self).level_map) == blank_map()
                } else {
                    final(self).level_map@ == old(self).level_map@
                }
                &&& final(self).mode == (if key == EditorKey::Escape {
                    EditorMode::Menu
                } else {
                    EditorMode::Editing
                })
            },
    {
        match self.mode {
            EditorMode::Menu => {
                if key == EditorKey::Escape {
                    self.mode = EditorMode::Editing;
                }
                EditorEffect::Nothing
            },
            EditorMode::Editing => {
                match key {
                    EditorKey::WallTool => self.current_tool = WALL,
                    EditorKey::DotTool => self.current_tool = SMALL_PELLET,
                    EditorKey::BigDotTool => self.current_tool = BIG_PELLET,
                    EditorKey::EraseTool => self.current_tool = EMPTY,
                    EditorKey::Save => {
                        return EditorEffect::SaveLevel;
                    },
                    EditorKey::Clear => self.replace_level(create_default_map()),
                    EditorKey::Escape => self.mode = EditorMode::Menu,
                }
                EditorEffect::Nothing
            },
        }
    }
}

} // verus!
