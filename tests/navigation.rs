use std::path::PathBuf;

use open_mode::open::{new, OpenMode};

fn mode_over_crate() -> OpenMode {
    new(PathBuf::from(".")).unwrap()
}

fn mode_with_results(n: usize) -> OpenMode {
    let mut mode = mode_over_crate();
    mode.results = (0..n).map(|i| format!("file_{}.rs", i)).collect();
    mode
}

#[test]
fn selected_path_returns_none_when_results_are_empty() {
    let mode = mode_over_crate();
    assert_eq!(mode.selected_path(), None);
}

#[test]
fn selected_path_is_none_for_empty_results_at_any_cursor() {
    let mut mode = mode_over_crate();
    for _ in 0..3 {
        mode.select_next_path();
        assert_eq!(mode.selected_index(), 0);
        assert_eq!(mode.selected_path(), None);
    }
    mode.select_previous_path();
    assert_eq!(mode.selected_path(), None);
}

#[test]
fn select_next_path_stops_at_the_length_of_the_results() {
    let mut mode = mode_with_results(5);
    assert_eq!(mode.selected_index(), 0);
    for _ in 0..10 {
        mode.select_next_path()
    }
    assert_eq!(mode.selected_index(), 5);
    assert_eq!(mode.selected_path(), None);
}

#[test]
fn select_previous_path_stops_at_zero() {
    let mut mode = mode_with_results(5);
    for _ in 0..5 {
        mode.select_next_path()
    }
    assert_eq!(mode.selected_index(), 5);
    for _ in 0..10 {
        mode.select_previous_path()
    }
    assert_eq!(mode.selected_index(), 0);
}

#[test]
fn selected_path_follows_the_cursor() {
    let mut mode = mode_with_results(3);
    assert_eq!(mode.selected_path(), Some("file_0.rs".to_string()));
    mode.select_next_path();
    mode.select_next_path();
    assert_eq!(mode.selected_path(), Some("file_2.rs".to_string()));
    mode.select_next_path();
    assert_eq!(mode.selected_index(), 3);
    assert_eq!(mode.selected_path(), None);
    mode.select_previous_path();
    assert_eq!(mode.selected_path(), Some("file_2.rs".to_string()));
}

#[test]
fn moves_at_the_bounds_leave_the_cursor() {
    let mut mode = mode_with_results(2);
    mode.select_previous_path();
    assert_eq!(mode.selected_index(), 0);
    mode.select_next_path();
    mode.select_next_path();
    assert_eq!(mode.selected_index(), 2);
    mode.select_next_path();
    assert_eq!(mode.selected_index(), 2);
}
