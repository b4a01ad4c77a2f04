use desktop_switcher::screen_edge::{is_at_left_edge, Point, Rect};

const MONITOR: Rect = Rect {
    left: 100,
    top: 50,
    right: 500,
    bottom: 350,
};

#[test]
fn left_edge_contains_points_inside_configured_width() {
    assert!(MONITOR.contains_left_edge(Point { x: 100, y: 50 }, 4));
    assert!(MONITOR.contains_left_edge(Point { x: 103, y: 349 }, 4));
}

#[test]
fn left_edge_rejects_points_outside_width_or_vertical_bounds() {
    assert!(!MONITOR.contains_left_edge(Point { x: 104, y: 100 }, 4));
    assert!(!MONITOR.contains_left_edge(Point { x: 99, y: 100 }, 4));
    assert!(!MONITOR.contains_left_edge(Point { x: 100, y: 350 }, 4));
    assert!(!MONITOR.contains_left_edge(Point { x: 100, y: 49 }, 4));
}

#[test]
fn left_edge_rejects_non_positive_width() {
    assert!(!MONITOR.contains_left_edge(Point { x: 100, y: 100 }, 0));
    assert!(!MONITOR.contains_left_edge(Point { x: 100, y: 100 }, -1));
}

#[test]
fn left_edge_width_saturates_at_the_largest_coordinate() {
    let far = Rect { left: i32::MAX - 1, top: 0, right: i32::MAX, bottom: 10 };
    assert!(far.contains_left_edge(Point { x: i32::MAX - 1, y: 0 }, 100));
    assert!(!far.contains_left_edge(Point { x: i32::MAX, y: 0 }, 100));
}

#[test]
fn no_monitor_means_no_edge() {
    assert!(!is_at_left_edge(None, Point { x: 100, y: 50 }, 4));
    assert!(is_at_left_edge(Some(MONITOR), Point { x: 100, y: 50 }, 4));
}
