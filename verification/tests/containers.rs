//! Stacks of windows.

use mochi::model::{Container, CycleDirection, Window, WindowId};

fn stack() -> Container {
    let mut c = Container::from_window(Window::new(1));
    c.add_window(Window::new(2));
    c.add_window(Window::new(3));
    c
}

#[test]
fn a_new_container_is_empty() {
    let c = Container::new();
    assert!(c.is_empty());
    assert!(!c.is_stack());
    assert_eq!(c.focused_window_id(), None);
    assert_eq!(c.len(), 0);
}

#[test]
fn one_window_is_not_a_stack() {
    let c = Container::from(Window::new(1));
    assert!(!c.is_stack());
    assert_eq!(c.focused_window_id(), Some(WindowId(1)));
    assert_eq!(c.hidden_window_ids().len(), 0);
}

#[test]
fn adding_focuses_the_new_window() {
    let c = stack();
    assert!(c.is_stack());
    assert_eq!(c.len(), 3);
    assert_eq!(c.focused_window_id(), Some(WindowId(3)));
    assert_eq!(
        c.hidden_window_ids(),
        vec![WindowId(1), WindowId(2)]
    );
    assert_eq!(
        c.window_ids(),
        vec![WindowId(1), WindowId(2), WindowId(3)]
    );
}

#[test]
fn container_adding_a_window_twice_only_focuses_it() {
    let mut c = stack();
    assert_eq!(c.add_window(Window::new(1)), 0);
    assert_eq!(c.len(), 3);
    assert_eq!(c.focused_window_id(), Some(WindowId(1)));
    assert_eq!(c.insert_window(0, Window::new(2)), 1);
    assert_eq!(c.len(), 3);
}

#[test]
fn inserting_puts_the_window_where_asked() {
    let mut c = stack();
    assert_eq!(c.insert_window(0, Window::new(9)), 0);
    assert_eq!(
        c.window_ids(),
        vec![WindowId(9), WindowId(1), WindowId(2), WindowId(3)]
    );
    assert_eq!(c.focused_window_id(), Some(WindowId(9)));
}

#[test]
fn removing_by_handle_works_and_reports_misses() {
    let mut c = stack();
    assert_eq!(
        c.remove_window(WindowId(2)).map(|w| w.id),
        Some(WindowId(2))
    );
    assert_eq!(c.len(), 2);
    assert!(c.remove_window(WindowId(2)).is_none());
    assert!(!c.contains(WindowId(2)));
    assert!(c.contains(WindowId(3)));
}

#[test]
fn removing_the_focused_window_keeps_one_visible() {
    let mut c = stack();
    assert_eq!(c.remove_focused_window().map(|w| w.id), Some(WindowId(3)));
    assert_eq!(c.focused_window_id(), Some(WindowId(2)));
}

#[test]
fn focusing_and_cycling() {
    let mut c = stack();
    assert!(c.focus_window(WindowId(1)));
    assert_eq!(c.focused_window_id(), Some(WindowId(1)));
    assert!(!c.focus_window(WindowId(99)));
    assert_eq!(c.cycle_focus(CycleDirection::Next), Some(WindowId(2)));
    assert_eq!(c.cycle_focus(CycleDirection::Previous), Some(WindowId(1)));
    assert_eq!(
        c.cycle_focus(CycleDirection::Previous),
        Some(WindowId(3)),
        "cycling wraps"
    );
    assert_eq!(Container::new().cycle_focus(CycleDirection::Next), None);
}

#[test]
fn metadata_is_reachable_by_handle() {
    let mut c = Container::from_window(Window::new(1).with_exe("a.exe"));
    assert_eq!(c.window(WindowId(1)).map(|w| w.exe.as_str()), Some("a.exe"));
    if let Some(w) = c.window_mut(WindowId(1)) {
        w.title = "hello".into();
    }
    assert_eq!(c.focused_window().map(|w| w.title.as_str()), Some("hello"));
    assert!(c.window(WindowId(2)).is_none());
    assert!(c.window_mut(WindowId(2)).is_none());
}

#[test]
fn draining_empties_the_container() {
    let mut c = stack();
    let windows = c.drain();
    assert_eq!(windows.len(), 3);
    assert!(c.is_empty());
}

