//! Containers, floating windows, monocle and maximize.

use mochi::geometry::{Direction, Rect};
use mochi::layout::Layout;
use mochi::model::{Container, CycleDirection, Window, WindowId, Workspace};

#[test]
fn promoting_a_container_leaves_the_resize_deltas_where_they_are() {
    let mut ws = Workspace::new();
    for id in 1..=4 {
        ws.add_window(Window::new(id));
    }
    let delta = Rect::new(0, 0, 40, 0);
    ws.set_resize_dimension(2, Some(delta));
    ws.set_resize_dimension(0, Some(Rect::new(0, 0, 10, 0)));

    ws.containers_mut().focus(2);
    assert!(ws.promote_focused_container());

    // Deltas belong to positions, which is the rule `swap_focused_container`
    // documents. Removing one and inserting a blank threw away the resize
    // of the very container being promoted and slid every other one along.
    assert_eq!(ws.resize_dimension(0), Some(Rect::new(0, 0, 10, 0)));
    assert_eq!(ws.resize_dimension(2), Some(delta));
    assert_eq!(ws.containers().len(), 4);
}

const WORK_AREA: Rect = Rect { left: 0, top: 0, right: 1920, bottom: 1080 };

fn workspace_with(count: usize) -> Workspace {
    let mut ws = Workspace::new();
    for id in 1..=count {
        ws.add_window(Window::new(id as isize));
    }
    ws.update_layout(WORK_AREA, 0, 0);
    ws
}

#[test]
fn a_new_workspace_is_empty_and_tiles() {
    let ws = Workspace::new();
    assert!(ws.is_empty());
    assert!(ws.tile);
    assert_eq!(ws.layout, Layout::Bsp);
    assert_eq!(ws.focused_window_id(), None);
    assert!(ws.latest_layout().is_empty());
    assert_eq!(Workspace::named("code").name.as_deref(), Some("code"));
}

#[test]
fn adding_windows_makes_one_container_each() {
    let ws = workspace_with(3);
    assert_eq!(ws.containers().len(), 3);
    assert_eq!(ws.focused_window_id(), Some(WindowId(3)));
    assert_eq!(ws.latest_layout().len(), 3);
    assert_eq!(ws.resize_dimensions.len(), 3);
    assert!(ws.contains_window(WindowId(2)));
    assert!(!ws.contains_window(WindowId(9)));
    assert_eq!(ws.window(WindowId(1)).map(|w| w.id), Some(WindowId(1)));
}

#[test]
fn adding_the_same_window_twice_only_focuses_it() {
    let mut ws = workspace_with(3);
    assert_eq!(ws.add_window(Window::new(1)), 0);
    assert_eq!(ws.containers().len(), 3);
    assert_eq!(ws.focused_window_id(), Some(WindowId(1)));
    assert_eq!(ws.insert_window(0, Window::new(2)), 1);
    assert_eq!(ws.containers().len(), 3);
}

#[test]
fn inserting_puts_the_container_where_asked() {
    let mut ws = workspace_with(3);
    assert_eq!(ws.insert_window(0, Window::new(9)), 0);
    assert_eq!(ws.containers().len(), 4);
    assert_eq!(ws.focused_container_idx(), 0);
    assert_eq!(ws.resize_dimensions.len(), 4);
}

#[test]
fn removing_a_window_drops_its_empty_container() {
    let mut ws = workspace_with(3);
    assert_eq!(
        ws.remove_window(WindowId(2)).map(|w| w.id),
        Some(WindowId(2))
    );
    assert_eq!(ws.containers().len(), 2);
    ws.update_layout(WORK_AREA, 0, 0);
    assert_eq!(ws.resize_dimensions.len(), 2);
    assert!(ws.remove_window(WindowId(2)).is_none());
}

#[test]
fn layout_rules_pick_a_layout_by_container_count() {
    let mut ws = Workspace::new();
    ws.layout = Layout::Bsp;
    ws.layout_rules.insert(1, Layout::VerticalStack);
    ws.layout_rules.insert(4, Layout::Columns);

    assert_eq!(
        ws.resolve_layout(0),
        Layout::Bsp,
        "no rule below the first key"
    );
    assert_eq!(ws.resolve_layout(1), Layout::VerticalStack);
    assert_eq!(ws.resolve_layout(3), Layout::VerticalStack);
    assert_eq!(ws.resolve_layout(4), Layout::Columns);
    assert_eq!(ws.resolve_layout(9), Layout::Columns);

    for _ in 0..4 {
        ws.add_window(Window::new(1));
    }
    assert_eq!(
        ws.effective_layout(),
        Layout::VerticalStack,
        "one container"
    );
}

#[test]
fn update_layout_honours_padding() {
    let mut ws = Workspace::new();
    ws.add_window(Window::new(1));
    ws.workspace_padding = Some(14);
    ws.container_padding = Some(10);
    let rects = ws.update_layout(WORK_AREA, 0, 0).to_vec();
    assert_eq!(rects, vec![Rect::new(24, 24, 1896, 1056)]);
    assert_eq!(ws.tiling_area(WORK_AREA, 0), Rect::new(14, 14, 1906, 1066));
    assert_eq!(ws.full_rect(WORK_AREA, 0, 0), Rect::new(24, 24, 1896, 1056));
}

#[test]
fn padding_falls_back_to_the_defaults() {
    let mut ws = Workspace::new();
    ws.add_window(Window::new(1));
    let rects = ws.update_layout(WORK_AREA, 14, 10).to_vec();
    assert_eq!(rects, vec![Rect::new(24, 24, 1896, 1056)]);
}

#[test]
fn turning_tiling_off_produces_no_rects() {
    let mut ws = workspace_with(3);
    ws.tile = false;
    assert!(ws.update_layout(WORK_AREA, 0, 0).is_empty());
    assert!(ws.latest_layout().is_empty());
}

#[test]
fn directional_lookup_uses_the_latest_layout() {
    let mut ws = workspace_with(3);
    // BSP: 1 on the left, 2 top right, 3 bottom right.
    ws.focus_container(0);
    assert_eq!(ws.container_idx_in_direction(Direction::Right), Some(1));
    assert_eq!(ws.container_idx_in_direction(Direction::Left), None);
    ws.focus_container(1);
    assert_eq!(ws.container_idx_in_direction(Direction::Down), Some(2));
    assert_eq!(ws.container_idx_in_direction(Direction::Left), Some(0));
}

#[test]
fn focus_window_points_every_index_at_it() {
    let mut ws = workspace_with(3);
    assert!(ws.focus_window(WindowId(1)));
    assert_eq!(ws.focused_container_idx(), 0);
    assert_eq!(ws.focused_window_id(), Some(WindowId(1)));
    assert!(!ws.focus_window(WindowId(99)));
}

#[test]
fn visible_and_hidden_windows_in_a_plain_workspace() {
    let ws = workspace_with(3);
    assert_eq!(
        ws.visible_window_ids(),
        vec![WindowId(1), WindowId(2), WindowId(3)]
    );
    assert!(ws.hidden_window_ids().is_empty());
}

#[test]
fn stacked_windows_are_hidden() {
    let mut ws = workspace_with(2);
    assert!(ws.focus_container(0));
    ws.containers_mut()
        .focused_mut()
        .unwrap()
        .add_window(Window::new(9));
    assert_eq!(ws.visible_window_ids(), vec![WindowId(9), WindowId(2)]);
    assert_eq!(ws.hidden_window_ids(), vec![WindowId(1)]);
}

#[test]
fn toggling_float_moves_a_window_out_and_back() {
    let mut ws = workspace_with(3);
    assert!(ws.focus_window(WindowId(2)));
    assert!(ws.toggle_float());
    assert_eq!(ws.containers().len(), 2);
    assert_eq!(ws.floating_windows().len(), 1);
    assert!(ws.focus_is_floating());
    assert_eq!(ws.focused_window_id(), Some(WindowId(2)));
    assert!(ws.visible_window_ids().contains(&WindowId(2)));

    assert!(!ws.toggle_float());
    assert_eq!(ws.containers().len(), 3);
    assert!(ws.floating_windows().is_empty());
    assert!(!ws.focus_is_floating());
    assert_eq!(ws.focused_window_id(), Some(WindowId(2)));
}

#[test]
fn floating_a_window_by_handle() {
    let mut ws = workspace_with(3);
    assert!(ws.float_window(WindowId(1)));
    assert_eq!(ws.floating_windows().len(), 1);
    assert!(!ws.float_window(WindowId(1)), "already floating");
    assert!(!ws.float_window(WindowId(99)));
}

#[test]
fn floating_the_only_window_leaves_no_containers() {
    let mut ws = workspace_with(1);
    assert!(ws.toggle_float());
    assert!(ws.containers().is_empty());
    assert!(!ws.is_empty());
    assert!(!ws.toggle_float());
    assert_eq!(ws.containers().len(), 1);
}

#[test]
fn monocle_lifts_the_container_out_and_puts_it_back() {
    let mut ws = workspace_with(3);
    assert!(ws.focus_container(1));
    assert!(ws.toggle_monocle());
    assert!(ws.is_monocle());
    assert_eq!(ws.containers().len(), 2);
    assert_eq!(ws.focused_window_id(), Some(WindowId(2)));
    assert_eq!(ws.visible_window_ids(), vec![WindowId(2)]);
    assert_eq!(ws.hidden_window_ids(), vec![WindowId(1), WindowId(3)]);

    assert!(!ws.toggle_monocle());
    assert!(!ws.is_monocle());
    assert_eq!(ws.containers().len(), 3);
    assert_eq!(ws.focused_container_idx(), 1);
    assert_eq!(ws.focused_window_id(), Some(WindowId(2)));
}

#[test]
fn monocle_on_an_empty_workspace_does_nothing() {
    let mut ws = Workspace::new();
    assert!(!ws.toggle_monocle());
    assert!(!ws.is_monocle());
}

#[test]
fn removing_the_monocle_window_leaves_monocle_mode() {
    let mut ws = workspace_with(2);
    ws.toggle_monocle();
    let id = ws.focused_window_id().unwrap();
    assert!(ws.remove_window(id).is_some());
    assert!(!ws.is_monocle());
}

#[test]
fn maximize_pulls_a_lone_window_out_and_puts_it_back_in_place() {
    let mut ws = workspace_with(3);
    assert!(ws.focus_window(WindowId(2)));
    assert!(ws.toggle_maximize());
    assert!(ws.is_maximized());
    assert_eq!(ws.containers().len(), 2);
    assert_eq!(ws.maximized_window().map(|w| w.id), Some(WindowId(2)));
    assert_eq!(ws.visible_window_ids(), vec![WindowId(2)]);

    assert!(!ws.toggle_maximize());
    assert_eq!(ws.containers().len(), 3);
    assert_eq!(ws.focused_container_idx(), 1);
    assert_eq!(ws.focused_window_id(), Some(WindowId(2)));
}

#[test]
fn maximize_keeps_a_stacked_window_in_its_stack() {
    let mut ws = workspace_with(2);
    assert!(ws.focus_container(0));
    ws.containers_mut()
        .focused_mut()
        .unwrap()
        .add_window(Window::new(9));
    assert!(ws.toggle_maximize());
    assert_eq!(ws.containers().len(), 2, "the stack survives");
    assert!(!ws.toggle_maximize());
    assert_eq!(ws.containers().get(0).unwrap().len(), 2);
    assert_eq!(ws.focused_window_id(), Some(WindowId(9)));
}

#[test]
fn removing_the_maximized_window_leaves_maximized_mode() {
    let mut ws = workspace_with(2);
    ws.toggle_maximize();
    assert!(ws.remove_window(WindowId(2)).is_some());
    assert!(!ws.is_maximized());
}

#[test]
fn a_floating_window_maximizes_and_goes_back_to_floating() {
    let mut ws = workspace_with(2);
    assert!(ws.toggle_float());
    assert!(ws.toggle_maximize());
    assert!(ws.is_maximized());
    assert!(
        ws.floating_windows().is_empty(),
        "it is lifted out while maximized"
    );
    assert_eq!(ws.focused_window_id(), Some(WindowId(2)));
    assert_eq!(ws.containers().len(), 1, "it never joins the tiled ring");

    assert!(!ws.toggle_maximize());
    assert!(!ws.is_maximized());
    assert_eq!(ws.floating_windows().len(), 1);
    assert!(ws.focus_is_floating());
    assert_eq!(ws.containers().len(), 1);
}

#[test]
fn promote_moves_the_focused_container_to_the_front() {
    let mut ws = workspace_with(3);
    assert!(ws.focus_container(2));
    assert!(ws.promote_focused_container());
    assert_eq!(ws.focused_container_idx(), 0);
    assert_eq!(ws.focused_window_id(), Some(WindowId(3)));
    assert!(!ws.promote_focused_container(), "already at the front");
    assert!(!workspace_with(1).promote_focused_container());
}

#[test]
fn swapping_containers_follows_the_focus() {
    let mut ws = workspace_with(3);
    assert!(ws.focus_container(0));
    assert!(ws.swap_focused_container(2));
    assert_eq!(ws.focused_container_idx(), 2);
    assert_eq!(ws.focused_window_id(), Some(WindowId(1)));
    assert!(!ws.swap_focused_container(2), "same index");
    assert!(!ws.swap_focused_container(9));
}

#[test]
fn stacking_and_unstacking() {
    let mut ws = workspace_with(3);
    assert!(ws.focus_container(0));
    assert!(ws.stack_focused_window_into(1));
    assert_eq!(ws.containers().len(), 2);
    assert_eq!(ws.focused_container_idx(), 0, "indices shifted down");
    assert_eq!(ws.focused_window_id(), Some(WindowId(1)));
    assert!(ws.containers().get(0).unwrap().is_stack());

    assert!(ws.unstack_focused_window());
    assert_eq!(ws.containers().len(), 3);
    assert_eq!(ws.focused_window_id(), Some(WindowId(1)));
    assert!(!ws.unstack_focused_window(), "not a stack any more");
}

#[test]
fn stacking_into_a_missing_container_is_a_no_op() {
    let mut ws = workspace_with(2);
    assert!(!ws.stack_focused_window_into(9));
    assert!(!ws.stack_focused_window_into(ws.focused_container_idx()));
    assert_eq!(ws.containers().len(), 2);
}

#[test]
fn cycling_containers_moves_focus_and_order() {
    let mut ws = workspace_with(3);
    assert!(ws.focus_container(0));
    assert_eq!(ws.cycle_container_focus(CycleDirection::Next), Some(1));
    assert_eq!(ws.cycle_container_focus(CycleDirection::Previous), Some(0));
    assert_eq!(ws.cycle_container_move(CycleDirection::Next), Some(1));
    assert_eq!(ws.focused_window_id(), Some(WindowId(1)));
    assert_eq!(
        ws.containers()
            .get(0)
            .and_then(Container::focused_window_id),
        Some(WindowId(2))
    );
}

#[test]
fn resize_dimensions_are_kept_in_step_with_the_containers() {
    let mut ws = workspace_with(3);
    ws.set_resize_dimension(0, Some(Rect::new(0, 0, 100, 0)));
    assert_eq!(ws.resize_dimension(0), Some(Rect::new(0, 0, 100, 0)));
    assert_eq!(ws.resize_dimension(1), None);
    assert_eq!(ws.resize_dimension(99), None);

    ws.update_layout(WORK_AREA, 0, 0);
    assert_eq!(ws.latest_layout()[0].width(), 1060, "960 plus 100");

    ws.clear_resize_dimensions();
    ws.update_layout(WORK_AREA, 0, 0);
    assert_eq!(ws.latest_layout()[0].width(), 960);
}

#[test]
fn removing_a_container_removes_its_resize_delta() {
    let mut ws = workspace_with(3);
    ws.set_resize_dimension(2, Some(Rect::new(0, 0, 100, 0)));
    ws.remove_window(WindowId(1));
    assert_eq!(ws.resize_dimensions.len(), 2);
    assert_eq!(ws.resize_dimension(1), Some(Rect::new(0, 0, 100, 0)));
}

#[test]
fn set_latest_layout_overrides_the_cache() {
    let mut ws = Workspace::new();
    ws.set_latest_layout(vec![Rect::new(0, 0, 10, 10)]);
    assert_eq!(ws.latest_layout().len(), 1);
}

// -- regressions --------------------------------------------------------

fn container_ids(ws: &Workspace) -> Vec<Vec<WindowId>> {
    ws.containers()
        .iter()
        .map(|c| c.window_ids())
        .collect()
}

#[test]
fn maximizing_while_monocle_is_on_is_refused() {
    let mut ws = workspace_with(2);
    assert!(ws.toggle_monocle());

    assert!(
        !ws.toggle_maximize(),
        "monocle already fills the workspace, the two modes are exclusive"
    );
    assert!(!ws.is_maximized());
    assert!(ws.is_monocle());
    assert_eq!(ws.focused_window_id(), Some(WindowId(2)));
    assert_eq!(ws.visible_window_ids(), vec![WindowId(2)]);
}

#[test]
fn un_maximizing_puts_the_window_back_in_its_own_stack_after_a_container_closed() {
    let mut ws = workspace_with(4);
    assert!(ws.focus_window(WindowId(3)));
    assert!(ws.stack_focused_window_into(1));
    assert!(ws.toggle_maximize());
    assert!(ws.remove_window(WindowId(1)).is_some());

    assert!(!ws.toggle_maximize());

    assert_eq!(
        container_ids(&ws),
        vec![vec![WindowId(2), WindowId(3)], vec![WindowId(4)]],
        "window 3 belongs in the stack it came from, not in window 4's"
    );
    assert_eq!(ws.focused_window_id(), Some(WindowId(3)));
}

#[test]
fn un_maximizing_lands_behind_its_old_neighbour_after_a_container_was_inserted() {
    let mut ws = workspace_with(3);
    assert!(ws.toggle_maximize());
    ws.insert_window(0, Window::new(9));

    assert!(!ws.toggle_maximize());

    assert_eq!(
        container_ids(&ws),
        vec![
            vec![WindowId(9)],
            vec![WindowId(1)],
            vec![WindowId(2)],
            vec![WindowId(3)]
        ],
        "the container that was inserted to the left shifted the restore spot"
    );
}

#[test]
fn leaving_monocle_lands_behind_its_old_neighbour_after_a_container_was_inserted() {
    let mut ws = workspace_with(3);
    assert!(ws.toggle_monocle());
    ws.insert_window(0, Window::new(9));

    assert!(!ws.toggle_monocle());

    assert_eq!(
        container_ids(&ws),
        vec![
            vec![WindowId(9)],
            vec![WindowId(1)],
            vec![WindowId(2)],
            vec![WindowId(3)]
        ],
        "the container that was inserted to the left shifted the restore spot"
    );
}
