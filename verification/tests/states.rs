//! The root of the tree.

use mochi::error::Error;
use mochi::geometry::{Direction, Offset, Rect};
use mochi::model::{
    HidingBehaviour, Monitor, MoveBehaviour, OperationBehaviour, State, Window,
    WindowContainerBehaviour, WindowId,
};
use mochi::MAX_WORKSPACES;

fn two_monitors() -> State {
    let mut state = State::new();
    // The 4K main display on the left, the portrait one to its right.
    let mut main = Monitor::new(1, Rect::new(0, 0, 3840, 2160), Rect::new(0, 0, 3840, 2120))
        .with_name("DISPLAY1");
    main.ensure_workspaces(9);
    let mut side = Monitor::new(
        2,
        Rect::new(3840, 0, 4920, 1920),
        Rect::new(3840, 0, 4920, 1880),
    )
    .with_name("DISPLAY2");
    side.ensure_workspaces(9);
    state.add_monitor(main);
    state.add_monitor(side);
    state
}

#[test]
fn an_empty_state_has_no_focus() {
    let state = State::new();
    assert!(state.monitors().is_empty());
    assert_eq!(
        state.focused_monitor().unwrap_err(),
        Error::NoFocusedMonitor
    );
    assert_eq!(
        State::new().focused_workspace().unwrap_err(),
        Error::NoFocusedMonitor
    );
    assert_eq!(state.focused_window_id(), None);
    assert!(state.visible_window_ids().is_empty());
}

#[test]
fn defaults_match_the_documented_behaviour() {
    let state = State::new();
    assert_eq!(state.window_hiding_behaviour, HidingBehaviour::Cloak);
    assert_eq!(state.cross_monitor_move_behaviour, MoveBehaviour::Swap);
    assert_eq!(
        state.unmanaged_window_operation_behaviour,
        OperationBehaviour::Op
    );
    assert_eq!(
        state.window_container_behaviour,
        WindowContainerBehaviour::Create
    );
    assert!(!state.is_paused);
    assert!(state.mouse_follows_focus);
    assert_eq!(state.focus_follows_mouse, None);
    assert_eq!(state.resize_delta, 50);
}

#[test]
fn monitors_are_found_by_handle_and_by_point() {
    let state = two_monitors();
    assert_eq!(state.monitor_idx_for_id(2), Some(1));
    assert_eq!(state.monitor_idx_for_id(9), None);
    assert_eq!(state.monitor_idx_at(100, 100), Some(0));
    assert_eq!(state.monitor_idx_at(4000, 100), Some(1));
    assert_eq!(state.monitor_idx_at(-1, -1), None);
}

#[test]
fn the_monitor_to_the_right_is_the_portrait_one() {
    let mut state = two_monitors();
    assert_eq!(state.monitor_idx_in_direction(Direction::Right), Some(1));
    assert_eq!(state.monitor_idx_in_direction(Direction::Left), None);
    assert_eq!(state.monitor_idx_in_direction(Direction::Up), None);

    assert!(state.monitors_mut().focus(1));
    assert_eq!(state.monitor_idx_in_direction(Direction::Left), Some(0));
    assert_eq!(state.monitor_idx_in_direction(Direction::Right), None);
    assert!(!state.monitors_mut().focus(9));
}

#[test]
fn windows_are_located_across_monitors() {
    let mut state = two_monitors();
    state
        .workspace_mut(1, 3)
        .unwrap()
        .add_window(Window::new(7).with_exe("a.exe"));
    assert_eq!(state.locate_window(WindowId(7)), Some((1, 3)));
    assert!(state.is_managed(WindowId(7)));
    assert!(!state.is_managed(WindowId(8)));
    assert_eq!(
        state.window(WindowId(7)).map(|w| w.exe.as_str()),
        Some("a.exe")
    );
    assert!(state.window(WindowId(8)).is_none());
    assert_eq!(
        state.all_window_ids(),
        vec![WindowId(7)]
    );
}

#[test]
fn only_the_focused_workspace_of_each_monitor_is_visible() {
    let mut state = two_monitors();
    state
        .workspace_mut(0, 0)
        .unwrap()
        .add_window(Window::new(1));
    state
        .workspace_mut(0, 1)
        .unwrap()
        .add_window(Window::new(2));
    state
        .workspace_mut(1, 0)
        .unwrap()
        .add_window(Window::new(3));
    assert_eq!(
        state.visible_window_ids(),
        vec![WindowId(1), WindowId(3)],
        "the window on workspace 2 of the main monitor stays hidden"
    );
}

#[test]
fn workspace_accessors_report_bad_indices() {
    let mut state = two_monitors();
    assert!(state.workspace(0, 0).is_ok());
    assert_eq!(
        state.workspace(9, 0).unwrap_err(),
        Error::MonitorNotFound(9)
    );
    assert_eq!(
        state.workspace(0, 99).unwrap_err(),
        Error::WorkspaceNotFound {
            monitor: 0,
            workspace: 99
        }
    );
    assert!(state.workspace_mut(9, 0).is_err());
    assert!(state.workspace_mut(0, 99).is_err());
}

#[test]
fn workspace_indices_are_capped() {
    assert!(State::check_workspace_idx(0).is_ok());
    assert!(State::check_workspace_idx(MAX_WORKSPACES - 1).is_ok());
    assert_eq!(
        State::check_workspace_idx(MAX_WORKSPACES).unwrap_err(),
        Error::WorkspaceIndexOutOfRange(MAX_WORKSPACES)
    );
}

#[test]
fn the_work_area_comes_from_the_monitor_and_the_global_offset() {
    let mut state = two_monitors();
    assert_eq!(state.work_area_for(0, 0), Some(Rect::new(0, 0, 3840, 2120)));
    state.work_area_offset = Some(Offset::new(0, 40, 0, 0));
    assert_eq!(
        state.work_area_for(0, 0),
        Some(Rect::new(0, 40, 3840, 2120))
    );
    assert_eq!(state.work_area_for(9, 0), None);
}

#[test]
fn rect_for_window_reads_the_latest_layout() {
    let mut state = two_monitors();
    let work_area = state.work_area_for(0, 0).unwrap();
    let workspace = state.workspace_mut(0, 0).unwrap();
    workspace.add_window(Window::new(1));
    workspace.add_window(Window::new(2));
    workspace.update_layout(work_area, 0, 0);

    assert_eq!(
        state.rect_for_window(WindowId(1)),
        Some(Rect::new(0, 0, 1920, 2120))
    );
    assert_eq!(state.rect_for_window(WindowId(9)), None);
}

#[test]
fn focused_indices_track_the_rings() {
    let mut state = two_monitors();
    assert_eq!(state.focused_indices().unwrap(), (0, 0));
    assert!(state.monitors_mut().focus(1));
    state.focused_monitor_mut().unwrap().focus_workspace(4);
    assert_eq!(state.focused_indices().unwrap(), (1, 4));
    assert!(State::new().focused_indices().is_err());
}

#[test]
fn removing_a_monitor_keeps_the_ring_sane() {
    let mut state = two_monitors();
    assert!(state.remove_monitor(0).is_some());
    assert_eq!(state.monitors().len(), 1);
    assert_eq!(state.focused_monitor_idx(), 0);
    assert!(state.remove_monitor(9).is_none());
}

#[test]
fn a_monitor_without_workspaces_reports_it() {
    let mut state = State::new();
    let mut monitor = Monitor::new(1, Rect::default(), Rect::default());
    monitor.workspaces_mut().clear();
    state.add_monitor(monitor);
    assert_eq!(
        state.focused_workspace().unwrap_err(),
        Error::NoFocusedWorkspace(0)
    );
    assert!(state.focused_workspace_mut().is_err());
}

