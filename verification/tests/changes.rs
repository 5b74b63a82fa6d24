//! What an operation reports back.

use mochi::geometry::Rect;
use mochi::model::{Changes, WindowId, WorkspaceRef};

#[test]
fn an_empty_change_set_is_empty() {
    assert!(Changes::none().is_empty());
    assert!(!Changes::none().retile(0, 1).is_empty());
    assert!(!Changes::none().focus(Some(WindowId(1))).is_empty());
    assert!(!Changes::none().showing(vec![WindowId(1)]).is_empty());
    assert!(!Changes::none().hiding(vec![WindowId(1)]).is_empty());
}

#[test]
fn retiling_the_same_workspace_twice_only_lists_it_once() {
    let changes = Changes::none().retile(0, 1).retile(0, 1).retile(1, 0);
    assert_eq!(
        changes.retiled,
        vec![WorkspaceRef::new(0, 1), WorkspaceRef::new(1, 0)]
    );
}

#[test]
fn merging_keeps_the_newer_scalar_and_appends_the_lists() {
    let mut a = Changes::none()
        .retile(0, 0)
        .focus(Some(WindowId(1)))
        .showing(vec![WindowId(1)]);
    let b = Changes::none()
        .retile(0, 0)
        .retile(1, 1)
        .focus(Some(WindowId(2)))
        .hiding(vec![WindowId(3)]);
    a.merge(b);

    assert_eq!(a.retiled.len(), 2);
    assert_eq!(a.focus, Some(WindowId(2)), "the later focus wins");
    assert_eq!(a.show, vec![WindowId(1)]);
    assert_eq!(a.hide, vec![WindowId(3)]);
}

#[test]
fn merging_keeps_the_older_scalar_when_the_newer_has_none() {
    let mut a = Changes::none().focus(Some(WindowId(1)));
    a.merge(Changes::none().retile(0, 0));
    assert_eq!(a.focus, Some(WindowId(1)));
}

#[test]
fn merging_carries_every_field() {
    let mut a = Changes::none();
    let b = Changes {
        minimize: vec![WindowId(1)],
        restore: vec![WindowId(2)],
        maximize: Some(WindowId(3)),
        close: Some(WindowId(4)),
        warp_mouse_to: Some(Rect::new(0, 0, 1, 1)),
        focused_monitor_changed: true,
        ..Changes::none()
    };
    a.merge(b);
    assert_eq!(a.minimize, vec![WindowId(1)]);
    assert_eq!(a.restore, vec![WindowId(2)]);
    assert_eq!(a.maximize, Some(WindowId(3)));
    assert_eq!(a.close, Some(WindowId(4)));
    assert!(a.warp_mouse_to.is_some());
    assert!(a.focused_monitor_changed);
}

#[test]
fn settling_never_hides_a_window_it_also_shows() {
    let mut changes = Changes::none()
        .showing(vec![WindowId(1), WindowId(2)])
        .hiding(vec![WindowId(2), WindowId(3)]);
    changes.settle();
    assert_eq!(changes.show, vec![WindowId(1), WindowId(2)]);
    assert_eq!(changes.hide, vec![WindowId(3)]);
}

#[test]
fn settling_drops_duplicates_without_reordering() {
    let mut changes = Changes::none()
        .showing(vec![WindowId(3), WindowId(1), WindowId(3)])
        .hiding(vec![WindowId(2), WindowId(2)]);
    changes.settle();
    assert_eq!(changes.show, vec![WindowId(3), WindowId(1)]);
    assert_eq!(changes.hide, vec![WindowId(2)]);
}

#[test]
fn focus_accepts_a_bare_handle_or_an_option() {
    assert_eq!(Changes::none().focus(Some(WindowId(1))).focus, Some(WindowId(1)));
    assert_eq!(Changes::none().focus(None).focus, None);
}

