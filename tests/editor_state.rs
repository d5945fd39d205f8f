use rust_pack::editor::{Editor, EditorEffect, EditorKey, EditorMode};
use rust_pack::encode_display_map;

fn small_map() -> Vec<Vec<u8>> {
    vec![vec![0, 0, 0], vec![0, 1, 0]]
}

#[test]
fn editor_starts_on_menu_with_wall_tool() {
    let e = Editor::new(small_map());
    assert_eq!(e.mode, EditorMode::Menu);
    assert_eq!(e.current_tool, 1);
    assert_eq!(e.display_map, encode_display_map(&small_map()));
}

#[test]
fn escape_on_menu_resumes_editing() {
    let mut e = Editor::new(small_map());
    assert_eq!(e.handle_key(EditorKey::WallTool), EditorEffect::Nothing);
    assert_eq!(e.mode, EditorMode::Menu);
    assert_eq!(e.handle_key(EditorKey::Save), EditorEffect::Nothing);
    assert_eq!(e.handle_key(EditorKey::Escape), EditorEffect::Nothing);
    assert_eq!(e.mode, EditorMode::Editing);
}

#[test]
fn editing_keys_pick_tools_and_actions() {
    let mut e = Editor::new(small_map());
    e.handle_key(EditorKey::Escape);
    e.handle_key(EditorKey::DotTool);
    assert_eq!(e.current_tool, 2);
    e.handle_key(EditorKey::BigDotTool);
    assert_eq!(e.current_tool, 3);
    e.handle_key(EditorKey::EraseTool);
    assert_eq!(e.current_tool, 0);
    e.handle_key(EditorKey::WallTool);
    assert_eq!(e.current_tool, 1);
    assert_eq!(e.handle_key(EditorKey::Save), EditorEffect::SaveLevel);
    assert_eq!(e.mode, EditorMode::Editing);
    e.handle_key(EditorKey::Clear);
    assert_eq!(e.level_map, vec![vec![0u8; 28]; 31]);
    assert_eq!(e.display_map, e.level_map);
    e.handle_key(EditorKey::Escape);
    assert_eq!(e.mode, EditorMode::Menu);
}

#[test]
fn painting_writes_tool_and_refreshes_display() {
    let mut e = Editor::new(small_map());
    e.paint(0, 1);
    assert_eq!(e.level_map, vec![vec![0, 0, 0], vec![1, 1, 0]]);
    assert_eq!(e.display_map, encode_display_map(&e.level_map));
    assert_eq!(e.display_map[1][0], 100 + 2 + 4 + 8);
    e.paint(-1, 0);
    e.paint(3, 0);
    e.paint(0, 2);
    assert_eq!(e.level_map, vec![vec![0, 0, 0], vec![1, 1, 0]]);
}

#[test]
fn painting_at_a_screen_point_offsets_the_map() {
    let mut e = Editor::new(small_map());
    e.handle_key(EditorKey::Escape);
    e.handle_key(EditorKey::BigDotTool);
    // Map column 2 starts at 112 + 16 pixels; row 1 at 40 + 8 pixels.
    e.paint_at_point(128_500, 48_500);
    assert_eq!(e.level_map, vec![vec![0, 0, 0], vec![0, 1, 3]]);
    // Just left of the map: column -1, ignored.
    e.paint_at_point(111_999, 40_000);
    assert_eq!(e.level_map, vec![vec![0, 0, 0], vec![0, 1, 3]]);
}

#[test]
fn menu_entries_act_on_editor() {
    let mut e = Editor::new(small_map());
    assert_eq!(e.choose_menu_option(2), EditorEffect::SaveLevel);
    assert_eq!(e.mode, EditorMode::Menu);
    assert_eq!(e.choose_menu_option(7), EditorEffect::Nothing);
    assert_eq!(e.mode, EditorMode::Menu);
    assert_eq!(e.choose_menu_option(1), EditorEffect::LoadLevel);
    assert_eq!(e.mode, EditorMode::Editing);
    e.load_text("#.\no#");
    assert_eq!(e.level_map, vec![vec![1, 2], vec![3, 1]]);
    assert_eq!(e.display_map, encode_display_map(&e.level_map));
    e.mode = EditorMode::Menu;
    assert_eq!(e.choose_menu_option(3), EditorEffect::Nothing);
    assert_eq!(e.mode, EditorMode::Editing);
    e.mode = EditorMode::Menu;
    assert_eq!(e.choose_menu_option(0), EditorEffect::Nothing);
    assert_eq!(e.mode, EditorMode::Editing);
    assert_eq!(e.level_map, vec![vec![0u8; 28]; 31]);
}
