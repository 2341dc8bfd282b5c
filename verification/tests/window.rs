use termpop::window::{pick_window, WindowEntry};

fn entry(owner_pid: Option<i32>, layer: Option<i32>, has_bounds: bool) -> WindowEntry {
    WindowEntry { owner_pid, layer, has_bounds }
}

#[test]
fn picks_first_ordinary_window_of_the_process() {
    let windows = vec![
        entry(Some(7), Some(0), true),
        entry(Some(42), Some(25), true),
        entry(Some(42), Some(0), false),
        entry(None, None, true),
        entry(Some(42), Some(0), true),
        entry(Some(42), None, true),
    ];
    assert_eq!(pick_window(&windows, 42), Some(4));
    assert_eq!(pick_window(&windows, 7), Some(0));
}

#[test]
fn window_without_layer_counts_as_ordinary() {
    let windows = vec![entry(Some(42), Some(-1), true), entry(Some(42), None, true)];
    assert_eq!(pick_window(&windows, 42), Some(1));
}

#[test]
fn no_window_of_the_process() {
    assert_eq!(pick_window(&vec![], 1), None);
    assert_eq!(pick_window(&vec![entry(Some(2), Some(0), true)], 1), None);
}
