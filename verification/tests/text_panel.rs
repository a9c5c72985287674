use mapviewer::camera::Camera;
use mapviewer::position::Position;
use mapviewer::project_state::{get_filename, get_filetype, FileType, MapId, MarkerId};
use mapviewer::rational::Rational;
use mapviewer::text::{EditKey, TextManager};

fn rat(n: i64, d: i64) -> Rational {
    Rational::new(n, d).unwrap()
}

fn pos(xn: i64, xd: i64, yn: i64, yd: i64) -> Position {
    Position::new(rat(xn, xd), rat(yn, yd))
}

fn chars(s: &str) -> Vec<char> {
    s.chars().collect()
}

#[test]
fn editor_insert_and_backspace() {
    let mut tm = TextManager::new();
    tm.handle_char('h');
    tm.handle_char('i');
    assert_eq!(tm.text_editor.text, chars("hi"));
    assert_eq!(tm.text_editor.indicator, 2);
    let changed = tm.handle_key(EditKey::Backspace);
    assert!(changed);
    assert_eq!(tm.text_editor.text, chars("h"));
    assert_eq!(tm.text_editor.indicator, 1);
}

#[test]
fn editor_backspace_at_start_is_noop() {
    let mut tm = TextManager::new();
    tm.set_text(&chars("abc"));
    tm.handle_key(EditKey::Home);
    let changed = tm.handle_key(EditKey::Backspace);
    assert!(!changed);
    assert_eq!(tm.text_editor.text, chars("abc"));
    assert_eq!(tm.text_editor.indicator, 0);
}

#[test]
fn editor_cursor_moves_stop_at_ends() {
    let mut tm = TextManager::new();
    tm.set_text(&chars("ab"));
    tm.handle_key(EditKey::End);
    assert_eq!(tm.text_editor.indicator, 2);
    tm.handle_key(EditKey::Right);
    assert_eq!(tm.text_editor.indicator, 2);
    tm.handle_key(EditKey::Left);
    tm.handle_key(EditKey::Left);
    tm.handle_key(EditKey::Left);
    assert_eq!(tm.text_editor.indicator, 0);
    tm.handle_key(EditKey::Right);
    assert_eq!(tm.text_editor.indicator, 1);
}

#[test]
fn editor_inserts_mid_text() {
    let mut tm = TextManager::new();
    tm.set_text(&chars("ac"));
    tm.handle_key(EditKey::End);
    tm.handle_key(EditKey::Left);
    tm.handle_char('b');
    assert_eq!(tm.text_editor.text, chars("abc"));
    assert_eq!(tm.text_editor.indicator, 2);
}

#[test]
fn display_text_follows_editor_on_demand() {
    let mut tm = TextManager::new();
    tm.set_text(&chars("abc"));
    assert_eq!(tm.display_text, chars("abc"));
    tm.handle_char('!');
    // the shown text lags behind the buffer until it is refreshed
    assert_eq!(tm.display_text, chars("abc"));
    tm.set_text_from_editor();
    assert_eq!(tm.display_text, chars("!abc"));
}

#[test]
fn set_text_clamps_cursor() {
    let mut tm = TextManager::new();
    tm.set_text(&chars("abcdef"));
    tm.handle_key(EditKey::End);
    assert_eq!(tm.text_editor.indicator, 6);
    tm.set_text(&chars("xy"));
    assert_eq!(tm.text_editor.indicator, 2);
    assert_eq!(tm.text_editor.text, chars("xy"));
}

#[test]
fn compute_text_size_adds_fill_and_falls_back() {
    let mut tm = TextManager::new();
    tm.compute_text_size(Some(&pos(200, 1, 120, 1)), &rat(50, 1)).unwrap();
    assert!(tm.text_size.x.eq_value(&rat(200, 1)));
    assert!(tm.text_size.y.eq_value(&rat(170, 1)));
    // a failed measurement leaves the size untouched
    tm.compute_text_size(None, &rat(50, 1)).unwrap();
    assert!(tm.text_size.x.eq_value(&rat(200, 1)));
    assert!(tm.text_size.y.eq_value(&rat(170, 1)));
}

#[test]
fn set_bounds_uses_panel_share_of_window() {
    let mut tm = TextManager::new();
    tm.set_bounds(&pos(1000, 1, 800, 1)).unwrap();
    // width: 0.3 * 1000 * 0.9 = 270
    assert!(tm.bounds.x.eq_value(&rat(270, 1)));
    // height: 0.3 * 10^7 * 800
    assert!(tm.bounds.y.eq_value(&rat(2400000000, 1)));
}

#[test]
fn arrange_camera_fits_panel_and_cursor() {
    let mut tm = TextManager::new();
    // window 1000x800; panel box is (300, 560); minimum box is (260, 560)
    tm.set_text(&chars("hello"));
    tm.handle_key(EditKey::End);
    tm.compute_text_size(Some(&pos(600, 1, 950, 1)), &rat(50, 1)).unwrap();
    // glyph rows at y = 0, 35, 70, 105, 140
    let glyphs = vec![rat(0, 1), rat(35, 1), rat(70, 1), rat(105, 1), rat(140, 1)];
    let mut cam = Camera::new();
    tm.arrange_camera(&glyphs, &pos(1000, 1, 800, 1), &mut cam).unwrap();
    // content is (max(600,260), max(1000,560)) = (600, 1000);
    // scale locks to 300/600 = 1/2
    assert!(cam.scale.eq_value(&rat(1, 2)));
    // the cursor clamps to the last glyph: offset.y = -1.1 * 140 = -154,
    // within the floor min(560 - 1000, 0) = -440
    assert!(cam.offset.y.eq_value(&rat(-154, 1)));
    assert!(cam.offset_min.y.eq_value(&rat(-440, 1)));
    // the panel sits at (700, 240)
    assert!(cam.viewport_position.x.eq_value(&rat(700, 1)));
    assert!(cam.viewport_position.y.eq_value(&rat(240, 1)));
}

#[test]
fn arrange_camera_empty_text_pans_to_top() {
    let tm = TextManager::new();
    let glyphs: Vec<Rational> = Vec::new();
    let mut cam = Camera::new();
    tm.arrange_camera(&glyphs, &pos(1000, 1, 800, 1), &mut cam).unwrap();
    assert!(cam.offset.y.eq_value(&rat(0, 1)));
    // with the unit default text size the minimum box takes over:
    // scale = 300 / 260 = 15/13
    assert!(cam.scale.eq_value(&rat(15, 13)));
}

#[test]
fn background_sizes_pad_and_trim_text_size() {
    let mut tm = TextManager::new();
    tm.compute_text_size(Some(&pos(200, 1, 120, 1)), &rat(50, 1)).unwrap();
    // text size is (200, 170)
    let (outer, inner) = tm.background_sizes().unwrap();
    assert!(outer.x.eq_value(&rat(220, 1)));
    assert!(outer.y.eq_value(&rat(180, 1)));
    assert!(inner.x.eq_value(&rat(195, 1)));
    assert!(inner.y.eq_value(&rat(140, 1)));
}

#[test]
fn filetype_parses_map_and_marker_names() {
    assert_eq!(get_filetype("map-3"), FileType::MapFile(MapId::new(3)));
    assert_eq!(get_filetype("marker-12"), FileType::MarkerFile(MarkerId::new(12)));
    // only the text up to the second dash counts
    assert_eq!(get_filetype("map-3-x"), FileType::MapFile(MapId::new(3)));
    assert_eq!(get_filetype("map-007"), FileType::MapFile(MapId::new(7)));
}

#[test]
fn filetype_rejects_everything_else() {
    assert_eq!(get_filetype("map-3.json"), FileType::Unrecognized);
    assert_eq!(get_filetype("map-"), FileType::Unrecognized);
    assert_eq!(get_filetype("map"), FileType::Unrecognized);
    assert_eq!(get_filetype("atlas-3"), FileType::Unrecognized);
    assert_eq!(get_filetype(""), FileType::Unrecognized);
    assert_eq!(get_filetype("-3"), FileType::Unrecognized);
    // one digit past u64::MAX
    assert_eq!(get_filetype("map-18446744073709551616"), FileType::Unrecognized);
    assert_eq!(
        get_filetype("map-18446744073709551615"),
        FileType::MapFile(MapId::new(u64::MAX))
    );
}

#[test]
fn filename_renders_ids() {
    assert_eq!(get_filename(FileType::MapFile(MapId::new(7))).as_str(), "map-7.json");
    assert_eq!(
        get_filename(FileType::MarkerFile(MarkerId::new(123))).as_str(),
        "marker-123.json"
    );
    assert_eq!(get_filename(FileType::MapFile(MapId::new(0))).as_str(), "map-0.json");
    assert_eq!(
        get_filename(FileType::MapFile(MapId::new(u64::MAX))).as_str(),
        "map-18446744073709551615.json"
    );
}
