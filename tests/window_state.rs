use chitchats::window_state::{
    flag_maximized, restore_window_state, save_window_state, RestoreAction, SaveAction,
    WindowQuery, WindowState,
};

fn query(x: i32, y: i32, width: u32, height: u32, maximized: bool) -> WindowQuery {
    WindowQuery {
        minimized: Some(false),
        visible: Some(true),
        position: Some((x, y)),
        size: Some((width, height)),
        maximized: Some(maximized),
    }
}

fn record(x: i32, y: i32, width: u32, height: u32, maximized: bool) -> WindowState {
    WindowState { x, y, width, height, maximized }
}

#[test]
fn save_then_restore_round_trip() {
    let saved = save_window_state(&query(10, 20, 800, 600, false));
    assert_eq!(saved, SaveAction::Replace(record(10, 20, 800, 600, false)));
    let stored = match saved {
        SaveAction::Replace(s) => s,
        _ => panic!("expected a record to write"),
    };
    assert_eq!(
        restore_window_state(Some(stored)),
        RestoreAction::Place { x: 10, y: 20, width: 800, height: 600 }
    );
}

#[test]
fn save_while_minimized_keeps_record() {
    let mut q = query(10, 20, 800, 600, false);
    q.minimized = Some(true);
    assert_eq!(save_window_state(&q), SaveAction::Keep);
}

#[test]
fn save_while_hidden_keeps_record() {
    let mut q = query(10, 20, 800, 600, false);
    q.visible = Some(false);
    assert_eq!(save_window_state(&q), SaveAction::Keep);
}

#[test]
fn failed_state_queries_count_as_shown() {
    let mut q = query(-5, 7, 1024, 768, false);
    q.minimized = None;
    q.visible = None;
    assert_eq!(save_window_state(&q), SaveAction::Replace(record(-5, 7, 1024, 768, false)));
}

#[test]
fn failed_geometry_query_abandons_save() {
    let mut q = query(10, 20, 800, 600, false);
    q.position = None;
    assert_eq!(save_window_state(&q), SaveAction::Keep);
    let mut q = query(10, 20, 800, 600, false);
    q.size = None;
    assert_eq!(save_window_state(&q), SaveAction::Keep);
    let mut q = query(10, 20, 800, 600, false);
    q.maximized = None;
    assert_eq!(save_window_state(&q), SaveAction::Keep);
}

#[test]
fn save_while_maximized_keeps_geometry() {
    assert_eq!(save_window_state(&query(0, 0, 1920, 1080, true)), SaveAction::FlagMaximized);
    let flagged = flag_maximized(Some(record(10, 20, 800, 600, false)));
    assert_eq!(flagged, Some(record(10, 20, 800, 600, true)));
    assert_eq!(restore_window_state(flagged), RestoreAction::Maximize);
    assert_eq!(flagged, Some(record(10, 20, 800, 600, true)));
}

#[test]
fn save_while_maximized_without_record_writes_nothing() {
    assert_eq!(flag_maximized(None), None);
}

#[test]
fn undersized_record_is_ignored() {
    assert_eq!(restore_window_state(Some(record(10, 20, 100, 600, false))), RestoreAction::Untouched);
    assert_eq!(restore_window_state(Some(record(10, 20, 800, 299, true))), RestoreAction::Untouched);
}

#[test]
fn minimum_size_record_is_applied() {
    assert_eq!(
        restore_window_state(Some(record(1, 2, 400, 300, false))),
        RestoreAction::Place { x: 1, y: 2, width: 400, height: 300 }
    );
    assert!(record(1, 2, 400, 300, false).is_valid());
    assert!(!record(1, 2, 399, 300, false).is_valid());
}

#[test]
fn missing_record_is_ignored() {
    assert_eq!(restore_window_state(None), RestoreAction::Untouched);
}
