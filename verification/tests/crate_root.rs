//! What the crate root offers.

use mochi::{
    Changes, Direction, Layout, Monitor, Rect, State, Window, WindowId, MAX_WORKSPACES,
};

#[test]
fn the_crate_root_reexports_what_the_daemon_needs() {
    let mut state = State::new();
    let screen = Rect::new(0, 0, 1920, 1080);
    state.add_monitor(Monitor::new(1, screen, screen));
    state.default_workspace_padding = 0;
    state.default_container_padding = 0;

    state.add_window(Window::new(1)).unwrap();
    state.add_window(Window::new(2)).unwrap();

    assert_eq!(state.workspace(0, 0).unwrap().layout, Layout::Bsp);
    assert_eq!(
        state.rect_for_window(WindowId(2)),
        Some(Rect::new(960, 0, 1920, 1080))
    );

    let changes: Changes = state.focus_direction(Direction::Left).unwrap();
    assert_eq!(changes.focus, Some(WindowId(1)));
}

#[test]
fn max_workspaces_covers_every_hotkey_in_the_whkdrc() {
    // alt + 1 .. alt + 9 map to indices 0 .. 8.
    assert!(State::check_workspace_idx(8).is_ok());
    assert_eq!(MAX_WORKSPACES, 9);
}
