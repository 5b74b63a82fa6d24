//! One display and its workspaces.

use mochi::geometry::{Offset, Rect};
use mochi::model::{Monitor, Scale, Window, WindowId, DEFAULT_DPI};

/// The scale as a factor, one for a display at the default resolution.
fn factor(scale: Scale) -> f32 {
    scale.dpi as f32 / DEFAULT_DPI as f32
}

const SIZE: Rect = Rect { left: 0, top: 0, right: 3840, bottom: 2160 };
const WORK_AREA: Rect = Rect { left: 0, top: 0, right: 3840, bottom: 2120 };

fn monitor() -> Monitor {
    let mut m = Monitor::new(1, SIZE, WORK_AREA)
        .with_name("DISPLAY1")
        .with_device(r"\\.\DISPLAY1", "G8-12345")
        .with_dpi(144);
    m.ensure_workspaces(9);
    m
}

#[test]
fn a_new_monitor_has_one_workspace() {
    let m = Monitor::new(1, SIZE, WORK_AREA);
    assert_eq!(m.workspaces().len(), 1);
    assert_eq!(m.focused_workspace_idx(), 0);
    assert!(m.focused_workspace().is_some());
    assert_eq!(m.dpi, DEFAULT_DPI);
    assert_eq!(m.last_focused_workspace, None);
}

#[test]
fn builders_fill_the_identity() {
    let m = monitor();
    assert_eq!(m.name, "DISPLAY1");
    assert_eq!(m.device, r"\\.\DISPLAY1");
    assert_eq!(m.device_id, "G8-12345");
    assert_eq!(m.dpi, 144);
}

#[test]
fn scale_factor_follows_the_dpi() {
    assert!((factor(Monitor::default().scale_factor()) - 1.0).abs() < f32::EPSILON);
    assert!((factor(monitor().scale_factor()) - 1.5).abs() < f32::EPSILON);
    let broken = Monitor {
        dpi: 0,
        ..Monitor::default()
    };
    assert!((factor(broken.scale_factor()) - 1.0).abs() < f32::EPSILON);
}

#[test]
fn portrait_displays_are_recognised() {
    assert!(!monitor().is_portrait());
    let portrait = Monitor::new(2, Rect::new(0, 0, 1080, 1920), Rect::new(0, 0, 1080, 1920));
    assert!(portrait.is_portrait());
}

#[test]
fn ensure_workspaces_only_ever_adds() {
    let mut m = Monitor::new(1, SIZE, WORK_AREA);
    assert_eq!(m.ensure_workspaces(9), 8);
    assert_eq!(m.workspaces().len(), 9);
    assert_eq!(m.ensure_workspaces(4), 0, "never removes");
    assert_eq!(m.workspaces().len(), 9);
}

#[test]
fn focusing_a_workspace_remembers_the_previous_one() {
    let mut m = monitor();
    assert!(m.focus_workspace(3));
    assert_eq!(m.focused_workspace_idx(), 3);
    assert_eq!(m.last_focused_workspace, Some(0));

    assert!(m.focus_workspace(5));
    assert_eq!(m.last_focused_workspace, Some(3));

    assert!(m.focus_workspace(5));
    assert_eq!(m.last_focused_workspace, Some(3), "no self reference");

    assert!(!m.focus_workspace(99));
    assert_eq!(m.focused_workspace_idx(), 5);
}

#[test]
fn workspace_names_fall_back_to_the_index() {
    let mut m = monitor();
    m.workspaces_mut().get_mut(0).unwrap().name = Some("code".into());
    assert_eq!(m.workspace_name(0), "code");
    assert_eq!(m.workspace_name(4), "5");
    assert_eq!(m.workspace_name(99), "100");
}

#[test]
fn work_area_offsets_stack_up() {
    let mut m = monitor();
    assert_eq!(m.work_area_for(0, None), WORK_AREA);

    assert_eq!(
        m.work_area_for(0, Some(Offset::new(0, 40, 0, 0))),
        Rect::new(0, 40, 3840, 2120),
        "the global offset applies when the monitor has none"
    );

    m.work_area_offset = Some(Offset::new(10, 10, 10, 10));
    assert_eq!(
        m.work_area_for(0, Some(Offset::new(0, 400, 0, 0))),
        Rect::new(10, 10, 3830, 2110),
        "the monitor offset overrides the global one"
    );
}

#[test]
fn the_window_based_offset_needs_the_opt_in_and_the_limit() {
    let mut m = monitor();
    m.window_based_work_area_offset = Some(Offset::new(100, 0, 100, 0));
    assert_eq!(m.work_area_for(0, None), WORK_AREA, "not opted in");

    m.workspaces_mut()
        .get_mut(0)
        .unwrap()
        .apply_window_based_work_area_offset = true;
    assert_eq!(m.work_area_for(0, None), Rect::new(100, 0, 3740, 2120));

    let ws = m.workspaces_mut().get_mut(0).unwrap();
    ws.add_window(Window::new(1));
    ws.add_window(Window::new(2));
    assert_eq!(
        m.work_area_for(0, None),
        WORK_AREA,
        "over the container limit"
    );
}

#[test]
fn windows_are_found_by_workspace() {
    let mut m = monitor();
    m.workspaces_mut()
        .get_mut(2)
        .unwrap()
        .add_window(Window::new(7));
    assert_eq!(m.workspace_idx_for_window(WindowId(7)), Some(2));
    assert!(m.contains_window(WindowId(7)));
    assert!(!m.contains_window(WindowId(8)));
    assert_eq!(m.all_window_ids(), vec![WindowId(7)]);
}

