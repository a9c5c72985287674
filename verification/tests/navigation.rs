use mapviewer::camera::{CameraError, CameraId, CameraManager};
use mapviewer::nav::{
    apply_map_switch, dist_sq, handle_click, handle_scroll, marker_hit, refresh_cameras,
};
use mapviewer::position::Position;
use mapviewer::project_state::{MapData, MapId, MapInfo, Marker, ProjectError, ProjectState};
use mapviewer::rational::Rational;

fn rat(n: i64, d: i64) -> Rational {
    Rational::new(n, d).unwrap()
}

fn pos(xn: i64, xd: i64, yn: i64, yd: i64) -> Position {
    Position::new(rat(xn, xd), rat(yn, yd))
}

fn marker(x: Rational, y: Rational, target: u64) -> Marker {
    Marker {
        map_id: MapId::new(target),
        position: Position::new(x, y),
        image: String::from("marker.png"),
    }
}

fn map_with_markers(markers: Vec<Marker>, parent: Option<u64>) -> MapData {
    MapData {
        markers,
        map_info: MapInfo { content: String::from("notes") },
        image: String::from("map.png"),
        parent_id: parent.map(MapId::new),
    }
}

// Scenario: a marker at world position (875.2, 860.0) and a pointer
// inverse-transformed to (880.0, 855.0) are about 7.4 apart, inside the
// hit radius of 20; the jump is recorded on the history stack.
#[test]
fn marker_hit_scenario() {
    let m = marker(rat(8752, 10), rat(860, 1), 2);
    let world = pos(880, 1, 855, 1);
    // squared distance is 4.8^2 + 5^2 = 48.04 < 400
    let d = dist_sq(&m.position, &world).unwrap();
    assert!(d.eq_value(&rat(4804, 100)));
    let markers = vec![m];
    let hit = marker_hit(&markers, &world).unwrap();
    assert_eq!(hit, Some(0));

    let mut state = ProjectState::new();
    state.add_map(MapId::new(1), map_with_markers(markers, None));
    state.add_map(MapId::new(2), map_with_markers(Vec::new(), Some(1)));
    state.set_current(MapId::new(1));
    let mut cm = CameraManager::new();
    apply_map_switch(
        &mut state,
        &mut cm,
        MapId::new(2),
        &pos(800, 1, 600, 1),
        &pos(1600, 1, 600, 1),
        None,
    )
    .unwrap();
    assert_eq!(state.current_map, MapId::new(2));
    assert_eq!(state.map_history_stack, vec![MapId::new(1)]);
}

#[test]
fn marker_hit_misses_outside_radius() {
    let markers = vec![marker(rat(0, 1), rat(0, 1), 2)];
    // exactly on the radius: 20^2 == 400 is not a hit (strict)
    assert_eq!(marker_hit(&markers, &pos(20, 1, 0, 1)).unwrap(), None);
    assert_eq!(marker_hit(&markers, &pos(100, 1, 100, 1)).unwrap(), None);
    assert_eq!(marker_hit(&markers, &pos(19, 1, 0, 1)).unwrap(), Some(0));
}

#[test]
fn marker_hit_prefers_nearest_then_earliest() {
    let markers = vec![
        marker(rat(10, 1), rat(0, 1), 2),
        marker(rat(5, 1), rat(0, 1), 3),
        marker(rat(-5, 1), rat(0, 1), 4),
    ];
    // pointer at origin: distances 10, 5, 5; nearest is index 1, and on
    // the exact tie with index 2 the earlier one wins
    assert_eq!(marker_hit(&markers, &pos(0, 1, 0, 1)).unwrap(), Some(1));
}

// Scenario: back-navigation on an empty history stack is a no-op.
#[test]
fn back_on_empty_history_is_noop() {
    let mut state = ProjectState::new();
    state.add_map(MapId::new(1), map_with_markers(Vec::new(), None));
    state.set_current(MapId::new(1));
    let r = state.back().unwrap();
    assert_eq!(r, None);
    assert_eq!(state.current_map, MapId::new(1));
    assert!(state.map_history_stack.is_empty());
}

#[test]
fn back_pops_history() {
    let mut state = ProjectState::new();
    state.add_map(MapId::new(1), map_with_markers(Vec::new(), None));
    state.add_map(MapId::new(2), map_with_markers(Vec::new(), None));
    state.set_current(MapId::new(1));
    state.switch_to_map(MapId::new(2)).unwrap();
    assert_eq!(state.current_map, MapId::new(2));
    let r = state.back().unwrap();
    assert_eq!(r, Some(MapId::new(1)));
    assert_eq!(state.current_map, MapId::new(1));
    // only jumps push: the history is empty again
    assert!(state.map_history_stack.is_empty());
}

#[test]
fn repeated_back_walks_the_whole_stack() {
    let mut state = ProjectState::new();
    for id in 1..=3u64 {
        state.add_map(MapId::new(id), map_with_markers(Vec::new(), None));
    }
    state.set_current(MapId::new(1));
    state.switch_to_map(MapId::new(2)).unwrap();
    state.switch_to_map(MapId::new(3)).unwrap();
    assert_eq!(state.map_history_stack, vec![MapId::new(1), MapId::new(2)]);
    assert_eq!(state.back().unwrap(), Some(MapId::new(2)));
    assert_eq!(state.back().unwrap(), Some(MapId::new(1)));
    assert_eq!(state.current_map, MapId::new(1));
    assert!(state.map_history_stack.is_empty());
    // and once the stack is exhausted, back is a no-op
    assert_eq!(state.back().unwrap(), None);
    assert_eq!(state.current_map, MapId::new(1));
}

#[test]
fn switch_to_missing_map_is_refused() {
    let mut state = ProjectState::new();
    state.add_map(MapId::new(1), map_with_markers(Vec::new(), None));
    state.set_current(MapId::new(1));
    let r = state.switch_to_map(MapId::new(99));
    assert_eq!(r, Err(ProjectError::MissingAsset));
    assert_eq!(state.current_map, MapId::new(1));
    assert!(state.map_history_stack.is_empty());
}

#[test]
fn apply_map_switch_refuses_missing_target() {
    let mut state = ProjectState::new();
    state.add_map(MapId::new(1), map_with_markers(Vec::new(), None));
    state.set_current(MapId::new(1));
    let mut cm = CameraManager::new();
    let r = apply_map_switch(
        &mut state,
        &mut cm,
        MapId::new(42),
        &pos(800, 1, 600, 1),
        &pos(1600, 1, 600, 1),
        None,
    );
    assert_eq!(r, Err(mapviewer::nav::NavError::MissingAsset));
    assert_eq!(state.current_map, MapId::new(1));
    assert!(state.map_history_stack.is_empty());
}

#[test]
fn back_to_unloaded_map_is_refused() {
    let mut state = ProjectState::new();
    state.add_map(MapId::new(1), map_with_markers(Vec::new(), None));
    state.add_map(MapId::new(2), map_with_markers(Vec::new(), None));
    state.set_current(MapId::new(1));
    state.switch_to_map(MapId::new(2)).unwrap();
    // the record behind the history entry disappears
    state.maps.remove(&1);
    let r = state.back();
    assert_eq!(r, Err(ProjectError::MissingAsset));
    assert_eq!(state.current_map, MapId::new(2));
    assert_eq!(state.map_history_stack, vec![MapId::new(1)]);
}

#[test]
fn click_finds_marker_through_camera() {
    // camera at scale 1, panned by (-50, 0): screen (830, 855) is world
    // (880, 855), near the marker at (875.2, 860)
    let mut state = ProjectState::new();
    state.add_map(
        MapId::new(1),
        map_with_markers(vec![marker(rat(8752, 10), rat(860, 1), 2)], None),
    );
    state.set_current(MapId::new(1));
    let mut cm = CameraManager::new();
    refresh_cameras(&mut cm, &pos(800, 1, 600, 1), &pos(1600, 1, 600, 1), None).unwrap();
    cm.get_camera(CameraId::MainMap).pan(&pos(-50, 1, 0, 1)).unwrap();
    let r = handle_click(&state, &cm, &pos(830, 1, 855, 1)).unwrap();
    assert_eq!(r, Some(MapId::new(2)));
    // far away, no marker and no parent: nothing happens
    let r2 = handle_click(&state, &cm, &pos(0, 1, 0, 1)).unwrap();
    assert_eq!(r2, None);
}

#[test]
fn click_in_parent_inset_goes_to_parent() {
    let mut state = ProjectState::new();
    state.add_map(MapId::new(1), map_with_markers(Vec::new(), None));
    state.add_map(MapId::new(2), map_with_markers(Vec::new(), Some(1)));
    state.set_current(MapId::new(2));
    let mut cm = CameraManager::new();
    // parent inset viewport: (240, 240 * 600/1600) = (240, 90) at origin
    refresh_cameras(
        &mut cm,
        &pos(800, 1, 600, 1),
        &pos(1600, 1, 600, 1),
        Some(&pos(1600, 1, 600, 1)),
    )
    .unwrap();
    let r = handle_click(&state, &cm, &pos(100, 1, 50, 1)).unwrap();
    assert_eq!(r, Some(MapId::new(1)));
    // outside the inset: nothing
    let r2 = handle_click(&state, &cm, &pos(500, 1, 500, 1)).unwrap();
    assert_eq!(r2, None);
}

#[test]
fn refresh_cameras_rejects_degenerate_content() {
    let mut cm = CameraManager::new();
    let r = refresh_cameras(&mut cm, &pos(800, 1, 600, 1), &pos(0, 1, 600, 1), None);
    assert_eq!(r, Err(CameraError::InvalidDimension));
}

#[test]
fn scroll_outside_text_window_zooms_main_map() {
    let mut cm = CameraManager::new();
    refresh_cameras(&mut cm, &pos(800, 1, 600, 1), &pos(1600, 1, 600, 1), None).unwrap();
    // wheel notch +1 at the viewport centre: scale 1 -> 1.1
    handle_scroll(&mut cm, &pos(400, 1, 300, 1), &rat(1, 1)).unwrap();
    let dp = cm.get_draw_param(&CameraId::MainMap, &Position::origin()).unwrap();
    assert!(dp.scale.eq_value(&rat(11, 10)));
}

#[test]
fn scroll_inside_text_window_pans_text() {
    let mut cm = CameraManager::new();
    // a text-window camera with room to scroll: content taller than box
    cm.get_camera(CameraId::TextWindow)
        .scale_to_fit_horizontal(
            &pos(240, 1, 420, 1),
            &pos(240, 1, 1000, 1),
            &pos(560, 1, 180, 1),
            &rat(-100, 1),
        )
        .unwrap();
    // pointer inside the panel's viewport rectangle
    let pointer = pos(600, 1, 300, 1);
    assert!(cm.is_within(&CameraId::TextWindow, &pointer).unwrap());
    // a wheel notch of -1 scrolls by 75 * -1, from -100 to -175
    handle_scroll(&mut cm, &pointer, &rat(-1, 1)).unwrap();
    let inv = cm.inv_transform_position(&CameraId::TextWindow, &Position::origin()).unwrap();
    // offset is now -175: world y of screen 0 is (0 - -175) / 1 = 175
    assert!(inv.y.eq_value(&rat(175, 1)));
}
