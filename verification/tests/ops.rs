//! Every command on the state.

use mochi::error::Error;
use mochi::geometry::{Axis, Direction, Rect};
use mochi::layout::{Flip, Layout, Sizing};
use mochi::model::{
    Container, CycleDirection, HidingBehaviour, Monitor, MoveBehaviour, Scale, State, Window,
    WindowContainerBehaviour, WindowId, DEFAULT_DPI,
};
use mochi::rules::{ApplicationIdentifier, MatchingRule, MatchingStrategy};

/// The scale as a factor, one for a display at the default resolution.
fn factor(scale: Scale) -> f32 {
    scale.dpi as f32 / DEFAULT_DPI as f32
}

const MAIN: Rect = Rect { left: 0, top: 0, right: 1920, bottom: 1080 };
const SIDE: Rect = Rect { left: 1920, top: 0, right: 3000, bottom: 1920 };

fn state() -> State {
    let mut state = State::new();
    state.default_workspace_padding = 0;
    state.default_container_padding = 0;
    let mut main = Monitor::new(1, MAIN, MAIN).with_name("DISPLAY1");
    main.ensure_workspaces(9);
    let mut side = Monitor::new(2, SIDE, SIDE).with_name("DISPLAY2");
    side.ensure_workspaces(9);
    state.add_monitor(main);
    state.add_monitor(side);
    state
}

fn with_windows(count: usize) -> State {
    let mut state = state();
    for id in 1..=count {
        state.add_window(Window::new(id as isize)).unwrap();
    }
    state
}

fn focused(state: &State) -> Option<WindowId> {
    state.focused_window_id()
}

// -- adding and removing ------------------------------------------------

#[test]
fn adding_windows_tiles_them_and_focuses_the_newest() {
    let state = with_windows(3);
    let workspace = state.workspace(0, 0).unwrap();
    assert_eq!(workspace.containers().len(), 3);
    assert_eq!(focused(&state), Some(WindowId(3)));
    assert_eq!(workspace.latest_layout().len(), 3);
    assert_eq!(workspace.latest_layout()[0], Rect::new(0, 0, 960, 1080));
}

#[test]
fn a_new_window_lands_next_to_the_focused_one() {
    let mut state = with_windows(3);
    state.focus_window(WindowId(1)).unwrap();
    state.add_window(Window::new(9)).unwrap();
    let ids: Vec<_> = state
        .workspace(0, 0)
        .unwrap()
        .containers()
        .iter()
        .filter_map(mochi::model::Container::focused_window_id)
        .collect();
    assert_eq!(
        ids,
        vec![WindowId(1), WindowId(9), WindowId(2), WindowId(3)]
    );
}

#[test]
fn an_ignored_window_is_never_added() {
    let mut state = state();
    state.rules.ignore_rules.push(MatchingRule::simple(
        ApplicationIdentifier::Exe,
        "zebar.exe",
        MatchingStrategy::Equals,
    ));
    let changes = state
        .add_window(Window::new(1).with_exe("zebar.exe"))
        .unwrap();
    assert!(changes.is_empty());
    assert!(!state.is_managed(WindowId(1)));
}

#[test]
fn a_floating_rule_puts_the_window_in_the_floating_list() {
    let mut state = state();
    state.rules.floating_applications.push(MatchingRule::simple(
        ApplicationIdentifier::Exe,
        "Calculator.exe",
        MatchingStrategy::Equals,
    ));
    state
        .add_window(Window::new(1).with_exe("Calculator.exe"))
        .unwrap();
    let workspace = state.workspace(0, 0).unwrap();
    assert!(workspace.containers().is_empty());
    assert_eq!(workspace.floating_windows().len(), 1);
    assert_eq!(focused(&state), Some(WindowId(1)));
}

#[test]
fn float_override_floats_everything() {
    let mut state = state();
    state.float_override = true;
    state.add_window(Window::new(1)).unwrap();
    assert_eq!(state.workspace(0, 0).unwrap().floating_windows().len(), 1);
}

#[test]
fn append_behaviour_stacks_new_windows() {
    let mut state = state();
    state.window_container_behaviour = WindowContainerBehaviour::Append;
    state.add_window(Window::new(1)).unwrap();
    state.add_window(Window::new(2)).unwrap();
    let workspace = state.workspace(0, 0).unwrap();
    assert_eq!(workspace.containers().len(), 1);
    assert_eq!(workspace.containers().get(0).unwrap().len(), 2);
    assert_eq!(focused(&state), Some(WindowId(2)));
}

#[test]
fn ops_adding_a_window_twice_only_focuses_it() {
    let mut state = with_windows(3);
    state.add_window(Window::new(1)).unwrap();
    assert_eq!(state.workspace(0, 0).unwrap().containers().len(), 3);
    assert_eq!(focused(&state), Some(WindowId(1)));
}

#[test]
fn removing_a_window_retiles_and_moves_the_focus() {
    let mut state = with_windows(3);
    let changes = state.remove_window(WindowId(3)).unwrap();
    assert_eq!(state.workspace(0, 0).unwrap().containers().len(), 2);
    assert!(
        changes
            .retiled
            .contains(&mochi::model::WorkspaceRef::new(0, 0))
    );
    assert_eq!(changes.focus, focused(&state));
    assert_eq!(
        state.remove_window(WindowId(99)).unwrap_err(),
        Error::WindowNotFound(WindowId(99))
    );
}

#[test]
fn a_window_can_be_added_to_another_workspace() {
    let mut state = state();
    let changes = state.add_window_to(1, 4, Window::new(7)).unwrap();
    assert_eq!(state.locate_window(WindowId(7)), Some((1, 4)));
    assert!(
        changes.hide.contains(&WindowId(7)) || !changes.show.contains(&WindowId(7)),
        "a window added to an unfocused workspace is not shown"
    );
    assert!(state.add_window_to(0, 99, Window::new(8)).is_err());
}

// -- focus --------------------------------------------------------------

#[test]
fn directional_focus_walks_the_bsp_tree() {
    let mut state = with_windows(3);
    state.focus_window(WindowId(1)).unwrap();

    state.focus_direction(Direction::Right).unwrap();
    assert_eq!(focused(&state), Some(WindowId(2)));

    state.focus_direction(Direction::Down).unwrap();
    assert_eq!(focused(&state), Some(WindowId(3)));

    state.focus_direction(Direction::Left).unwrap();
    assert_eq!(focused(&state), Some(WindowId(1)));
}

#[test]
fn directional_focus_crosses_to_the_next_monitor_at_the_edge() {
    let mut state = with_windows(1);
    state.add_window_to(1, 0, Window::new(50)).unwrap();
    state.focus_window(WindowId(1)).unwrap();

    let changes = state.focus_direction(Direction::Right).unwrap();
    assert_eq!(state.focused_monitor_idx(), 1);
    assert_eq!(focused(&state), Some(WindowId(50)));
    assert!(changes.focused_monitor_changed);

    state.focus_direction(Direction::Left).unwrap();
    assert_eq!(state.focused_monitor_idx(), 0);
}

#[test]
fn directional_focus_at_the_outer_edge_does_nothing() {
    let mut state = with_windows(1);
    assert!(state.focus_direction(Direction::Left).unwrap().is_empty());
    assert!(state.focus_direction(Direction::Up).unwrap().is_empty());
    assert_eq!(focused(&state), Some(WindowId(1)));
}

#[test]
fn cycling_focus_wraps_through_the_containers() {
    let mut state = with_windows(3);
    state.focus_window(WindowId(1)).unwrap();
    state.cycle_focus(CycleDirection::Next).unwrap();
    assert_eq!(focused(&state), Some(WindowId(2)));
    state.cycle_focus(CycleDirection::Previous).unwrap();
    state.cycle_focus(CycleDirection::Previous).unwrap();
    assert_eq!(focused(&state), Some(WindowId(3)), "wrapped round");
}

#[test]
fn cycling_a_stack_swaps_which_window_is_visible() {
    let mut state = with_windows(2);
    state.window_container_behaviour = WindowContainerBehaviour::Append;
    state.add_window(Window::new(3)).unwrap();

    let changes = state.cycle_stack(CycleDirection::Next).unwrap();
    assert_eq!(focused(&state), Some(WindowId(2)));
    assert!(changes.show.contains(&WindowId(2)));
    assert!(changes.hide.contains(&WindowId(3)));
    assert!(
        changes
            .retiled
            .iter()
            .any(|target| target.monitor == 0 && target.workspace == 0),
        "the window coming forward is still on the tile it had before the stack"
    );
}

#[test]
fn focusing_a_window_follows_it_to_its_monitor_and_workspace() {
    let mut state = with_windows(1);
    state.add_window_to(1, 5, Window::new(60)).unwrap();
    let changes = state.focus_window(WindowId(60)).unwrap();
    assert_eq!(state.focused_indices().unwrap(), (1, 5));
    assert_eq!(changes.focus, Some(WindowId(60)));
    assert!(changes.show.contains(&WindowId(60)));
    assert!(state.focus_window(WindowId(99)).is_err());
}

#[test]
fn mouse_follows_focus_reports_where_to_warp() {
    let mut state = with_windows(2);
    state.mouse_follows_focus = true;
    let changes = state.focus_direction(Direction::Left).unwrap();
    assert_eq!(changes.focus, Some(WindowId(1)));
    assert_eq!(changes.warp_mouse_to, Some(Rect::new(0, 0, 960, 1080)));
}

// -- moving -------------------------------------------------------------

#[test]
fn moving_a_window_swaps_it_with_its_neighbour() {
    let mut state = with_windows(2);
    state.focus_window(WindowId(1)).unwrap();
    state.move_direction(Direction::Right).unwrap();

    let ids: Vec<_> = state
        .workspace(0, 0)
        .unwrap()
        .containers()
        .iter()
        .filter_map(mochi::model::Container::focused_window_id)
        .collect();
    assert_eq!(ids, vec![WindowId(2), WindowId(1)]);
    assert_eq!(focused(&state), Some(WindowId(1)), "the focus follows");
}

#[test]
fn moving_past_the_edge_inserts_on_the_next_monitor() {
    let mut state = with_windows(1);
    state.cross_monitor_move_behaviour = MoveBehaviour::Insert;
    state.add_window_to(1, 0, Window::new(50)).unwrap();
    state.focus_window(WindowId(1)).unwrap();

    state.move_direction(Direction::Right).unwrap();
    assert_eq!(state.locate_window(WindowId(1)), Some((1, 0)));
    assert_eq!(state.workspace(0, 0).unwrap().containers().len(), 0);
    assert_eq!(state.workspace(1, 0).unwrap().containers().len(), 2);
    assert_eq!(state.focused_monitor_idx(), 1, "the focus follows");
    assert_eq!(focused(&state), Some(WindowId(1)));
}

#[test]
fn moving_past_the_edge_can_swap_instead() {
    let mut state = with_windows(1);
    state.cross_monitor_move_behaviour = MoveBehaviour::Swap;
    state.add_window_to(1, 0, Window::new(50)).unwrap();
    state.focus_window(WindowId(1)).unwrap();

    state.move_direction(Direction::Right).unwrap();
    assert_eq!(state.locate_window(WindowId(1)), Some((1, 0)));
    assert_eq!(
        state.locate_window(WindowId(50)),
        Some((0, 0)),
        "the other window came back the other way"
    );
}

#[test]
fn a_no_op_cross_monitor_behaviour_keeps_the_window_put() {
    let mut state = with_windows(1);
    state.cross_monitor_move_behaviour = MoveBehaviour::NoOp;
    state.add_window_to(1, 0, Window::new(50)).unwrap();
    state.focus_window(WindowId(1)).unwrap();
    assert!(state.move_direction(Direction::Right).unwrap().is_empty());
    assert_eq!(state.locate_window(WindowId(1)), Some((0, 0)));
}

#[test]
fn cycle_move_reorders_the_ring() {
    let mut state = with_windows(3);
    state.focus_window(WindowId(1)).unwrap();
    state.cycle_move(CycleDirection::Next).unwrap();
    let ids: Vec<_> = state
        .workspace(0, 0)
        .unwrap()
        .containers()
        .iter()
        .filter_map(mochi::model::Container::focused_window_id)
        .collect();
    assert_eq!(ids, vec![WindowId(2), WindowId(1), WindowId(3)]);
    assert_eq!(focused(&state), Some(WindowId(1)));
}

#[test]
fn promote_moves_the_window_to_the_biggest_tile() {
    let mut state = with_windows(3);
    state.focus_window(WindowId(3)).unwrap();
    state.promote().unwrap();
    assert_eq!(
        state.rect_for_window(WindowId(3)),
        Some(Rect::new(0, 0, 960, 1080))
    );
    assert_eq!(focused(&state), Some(WindowId(3)));
    assert!(state.promote().unwrap().is_empty(), "already promoted");
}

#[test]
fn promote_focus_jumps_to_the_first_container() {
    let mut state = with_windows(3);
    state.focus_window(WindowId(3)).unwrap();
    state.promote_focus().unwrap();
    assert_eq!(focused(&state), Some(WindowId(1)));
    assert!(State::new().promote_focus().is_err());
}

// -- stacking -----------------------------------------------------------

#[test]
fn stacking_and_unstacking_in_a_direction() {
    let mut state = with_windows(2);
    state.focus_window(WindowId(1)).unwrap();

    let changes = state.stack(Direction::Right).unwrap();
    assert_eq!(state.workspace(0, 0).unwrap().containers().len(), 1);
    assert_eq!(focused(&state), Some(WindowId(1)));
    assert!(changes.hide.contains(&WindowId(2)));

    let changes = state.unstack().unwrap();
    assert_eq!(state.workspace(0, 0).unwrap().containers().len(), 2);
    assert!(changes.show.contains(&WindowId(2)));
}

#[test]
fn stacking_the_whole_workspace_keeps_the_window_you_were_looking_at() {
    let mut state = with_windows(4);
    state.focus_window(WindowId(2)).unwrap();

    let changes = state.stack_all().unwrap();
    let workspace = state.workspace(0, 0).unwrap();
    assert_eq!(workspace.containers().len(), 1);
    assert_eq!(workspace.containers().get(0).unwrap().len(), 4);
    // The point of the command: one window on screen, and it is the one
    // that was focused rather than whichever happened to be first.
    assert_eq!(focused(&state), Some(WindowId(2)));
    for id in [1, 3, 4] {
        assert!(changes.hide.contains(&WindowId(id)), "{id} stayed visible");
    }

    // And back, with the same window still in hand.
    let changes = state.unstack_all().unwrap();
    assert_eq!(state.workspace(0, 0).unwrap().containers().len(), 4);
    assert_eq!(focused(&state), Some(WindowId(2)));
    for id in [1, 3, 4] {
        assert!(changes.show.contains(&WindowId(id)), "{id} stayed hidden");
    }
}

#[test]
fn unstacking_everything_keeps_the_order_the_windows_were_stacked_in() {
    let mut state = with_windows(3);
    state.stack_all().unwrap();
    state.unstack_all().unwrap();

    let order: Vec<_> = state
        .workspace(0, 0)
        .unwrap()
        .containers()
        .iter()
        .map(|c| c.focused_window_id().unwrap())
        .collect();
    assert_eq!(order, vec![WindowId(1), WindowId(2), WindowId(3)]);
}

#[test]
fn stacking_a_workspace_that_is_already_one_container_changes_nothing() {
    let mut state = with_windows(1);
    assert!(state.stack_all().unwrap().is_empty());
    // Nothing is stacked, so there is nothing to take apart either.
    assert!(state.unstack_all().unwrap().is_empty());
}

// -- named workspaces ---------------------------------------------------

#[test]
fn a_workspace_is_found_by_its_name_whatever_the_case() {
    let mut state = state();
    state
        .monitors_mut()
        .get_mut(0)
        .unwrap()
        .workspaces_mut()
        .get_mut(3)
        .unwrap()
        .name = Some("Code".to_string());

    assert_eq!(state.named_workspace("code"), Some((0, 3)));
    assert_eq!(state.named_workspace("CODE"), Some((0, 3)));
    assert_eq!(state.named_workspace("codex"), None);

    state.focus_named_workspace("code").unwrap();
    assert_eq!(state.focused_indices().unwrap(), (0, 3));
}

#[test]
fn a_name_used_on_both_screens_resolves_to_the_one_in_front_of_you() {
    let mut state = state();
    for monitor in 0..2 {
        state
            .monitors_mut()
            .get_mut(monitor)
            .unwrap()
            .workspaces_mut()
            .get_mut(2)
            .unwrap()
            .name = Some("mail".to_string());
    }

    state.focus_monitor(1).unwrap();
    // Not monitor 0, which is what a plain search from the front would
    // have found: the workspace you meant is the one on the screen you are
    // looking at.
    assert_eq!(state.named_workspace("mail"), Some((1, 2)));
}

#[test]
fn a_name_nothing_carries_is_an_error_rather_than_a_silent_no_op() {
    let mut state = with_windows(2);
    assert!(matches!(
        state.focus_named_workspace("nowhere"),
        Err(Error::WorkspaceNameNotFound(name)) if name == "nowhere"
    ));
    assert!(state.move_to_named_workspace("nowhere", true).is_err());
}

#[test]
fn a_window_can_be_sent_to_a_named_workspace_without_following_it() {
    let mut state = with_windows(2);
    state
        .monitors_mut()
        .get_mut(1)
        .unwrap()
        .workspaces_mut()
        .get_mut(4)
        .unwrap()
        .name = Some("media".to_string());

    state.move_to_named_workspace("media", false).unwrap();
    assert_eq!(state.focused_indices().unwrap(), (0, 0));
    assert_eq!(state.workspace(1, 4).unwrap().containers().len(), 1);
}

#[test]
fn stacking_with_nothing_in_that_direction_is_a_no_op() {
    let mut state = with_windows(1);
    assert!(state.stack(Direction::Right).unwrap().is_empty());
    assert!(state.unstack().unwrap().is_empty());
}

// -- window states ------------------------------------------------------

#[test]
fn toggling_float_moves_the_window_out_of_the_layout_and_back() {
    let mut state = with_windows(2);
    state.toggle_float().unwrap();
    assert_eq!(state.workspace(0, 0).unwrap().containers().len(), 1);
    assert_eq!(state.workspace(0, 0).unwrap().floating_windows().len(), 1);
    assert_eq!(focused(&state), Some(WindowId(2)));

    state.toggle_float().unwrap();
    assert_eq!(state.workspace(0, 0).unwrap().containers().len(), 2);
    assert!(state.workspace(0, 0).unwrap().floating_windows().is_empty());
}

#[test]
fn float_window_by_handle() {
    let mut state = with_windows(2);
    state.float_window(WindowId(1)).unwrap();
    assert_eq!(state.workspace(0, 0).unwrap().floating_windows().len(), 1);
    assert!(state.float_window(WindowId(1)).unwrap().is_empty());
    assert!(state.float_window(WindowId(99)).is_err());
}

#[test]
fn monocle_hides_everything_else_and_gives_it_back() {
    let mut state = with_windows(3);
    let changes = state.toggle_monocle().unwrap();
    assert!(state.workspace(0, 0).unwrap().is_monocle());
    assert!(changes.hide.contains(&WindowId(1)));
    assert!(changes.hide.contains(&WindowId(2)));
    assert_eq!(changes.focus, Some(WindowId(3)));

    let changes = state.toggle_monocle().unwrap();
    assert!(!state.workspace(0, 0).unwrap().is_monocle());
    assert!(changes.show.contains(&WindowId(1)));
    assert_eq!(focused(&state), Some(WindowId(3)));
}

#[test]
fn maximize_reports_the_window_to_maximize_and_to_restore() {
    let mut state = with_windows(2);
    let changes = state.toggle_maximize().unwrap();
    assert_eq!(changes.maximize, Some(WindowId(2)));
    assert!(changes.restore.is_empty());
    assert!(state.workspace(0, 0).unwrap().is_maximized());

    let changes = state.toggle_maximize().unwrap();
    assert_eq!(changes.maximize, None);
    assert_eq!(changes.restore, vec![WindowId(2)]);
    assert!(!state.workspace(0, 0).unwrap().is_maximized());
}

#[test]
fn minimize_drops_the_window_and_retiles() {
    let mut state = with_windows(2);
    let changes = state.minimize_focused_window().unwrap();
    assert_eq!(changes.minimize, vec![WindowId(2)]);
    assert!(!state.is_managed(WindowId(2)));
    assert_eq!(focused(&state), Some(WindowId(1)));
    assert_eq!(
        state.rect_for_window(WindowId(1)),
        Some(MAIN),
        "the survivor takes the whole workspace"
    );
}

#[test]
fn close_only_reports_the_window_and_leaves_the_model_alone() {
    let mut state = with_windows(2);
    let changes = state.close_focused_window().unwrap();
    assert_eq!(changes.close, Some(WindowId(2)));
    assert!(state.is_managed(WindowId(2)), "the destroy event does that");
}

#[test]
fn minimize_and_close_on_an_empty_workspace_do_nothing() {
    let mut state = state();
    assert!(state.minimize_focused_window().unwrap().is_empty());
    assert!(state.close_focused_window().unwrap().is_empty());
}

// -- layouts ------------------------------------------------------------

#[test]
fn changing_the_layout_retiles() {
    let mut state = with_windows(3);
    state.change_layout(Layout::Columns).unwrap();
    assert_eq!(state.workspace(0, 0).unwrap().layout, Layout::Columns);
    assert_eq!(
        state.rect_for_window(WindowId(1)),
        Some(Rect::new(0, 0, 640, 1080))
    );
}

#[test]
fn cycling_the_layout_walks_the_list() {
    let mut state = with_windows(2);
    state.cycle_layout(CycleDirection::Next).unwrap();
    assert_eq!(state.workspace(0, 0).unwrap().layout, Layout::Columns);
    state.cycle_layout(CycleDirection::Previous).unwrap();
    assert_eq!(state.workspace(0, 0).unwrap().layout, Layout::Bsp);
}

#[test]
fn changing_the_layout_drops_the_layout_rules() {
    let mut state = with_windows(2);
    state
        .workspace_mut(0, 0)
        .unwrap()
        .layout_rules
        .insert(1, Layout::Grid);
    state.change_layout(Layout::Rows).unwrap();
    assert!(state.workspace(0, 0).unwrap().layout_rules.is_empty());
    assert_eq!(
        state.workspace(0, 0).unwrap().effective_layout(),
        Layout::Rows
    );
}

#[test]
fn flipping_mirrors_the_layout_and_toggles_back() {
    let mut state = with_windows(2);
    state.flip_layout(Axis::Horizontal).unwrap();
    assert_eq!(
        state.workspace(0, 0).unwrap().layout_flip,
        Flip::horizontal()
    );
    assert_eq!(
        state.rect_for_window(WindowId(1)),
        Some(Rect::new(960, 0, 1920, 1080))
    );

    state.flip_layout(Axis::Vertical).unwrap();
    assert_eq!(state.workspace(0, 0).unwrap().layout_flip, Flip::both());
    state.flip_layout(Axis::Horizontal).unwrap();
    assert_eq!(state.workspace(0, 0).unwrap().layout_flip, Flip::vertical());
}

// -- resizing -----------------------------------------------------------

#[test]
fn resizing_horizontally_moves_the_first_bsp_cut() {
    let mut state = with_windows(2);
    state.focus_window(WindowId(1)).unwrap();
    state
        .resize_axis(Axis::Horizontal, Sizing::Increase)
        .unwrap();
    assert_eq!(
        state.rect_for_window(WindowId(1)),
        Some(Rect::new(0, 0, 1010, 1080)),
        "960 plus the 50 pixel step"
    );

    state
        .resize_axis(Axis::Horizontal, Sizing::Decrease)
        .unwrap();
    assert_eq!(
        state.rect_for_window(WindowId(1)),
        Some(Rect::new(0, 0, 960, 1080))
    );
}

#[test]
fn resizing_works_from_the_other_side_of_the_cut_too() {
    let mut state = with_windows(2);
    state.focus_window(WindowId(2)).unwrap();
    state
        .resize_axis(Axis::Horizontal, Sizing::Increase)
        .unwrap();
    assert_eq!(
        state.rect_for_window(WindowId(2)),
        Some(Rect::new(910, 0, 1920, 1080)),
        "the near edge moved because the far edge is the screen edge"
    );
}

#[test]
fn resizing_one_edge_moves_that_edge_and_no_other() {
    let mut state = with_windows(2);
    state.focus_window(WindowId(2)).unwrap();
    state
        .resize_edge(Direction::Left, Sizing::Increase)
        .unwrap();
    assert_eq!(
        state.rect_for_window(WindowId(2)),
        Some(Rect::new(910, 0, 1920, 1080)),
        "the left edge moved out by one step"
    );

    state
        .resize_edge(Direction::Left, Sizing::Decrease)
        .unwrap();
    assert_eq!(
        state.rect_for_window(WindowId(2)),
        Some(Rect::new(960, 0, 1920, 1080))
    );
}

#[test]
fn resizing_an_edge_that_is_the_screen_edge_does_nothing() {
    // The whole point of naming the edge: `resize_axis` would quietly
    // move the other one instead, which on a per edge binding is the key
    // doing something the user did not press.
    let mut state = with_windows(2);
    state.focus_window(WindowId(2)).unwrap();
    let before = state.rect_for_window(WindowId(2));
    let changes = state
        .resize_edge(Direction::Right, Sizing::Increase)
        .unwrap();
    assert!(changes.is_empty());
    assert_eq!(state.rect_for_window(WindowId(2)), before);
    assert_eq!(state.workspace(0, 0).unwrap().resize_dimension(1), None);
}

#[test]
fn resizing_along_an_axis_with_no_cut_does_nothing() {
    let mut state = with_windows(2);
    state.focus_window(WindowId(1)).unwrap();
    let before = state.rect_for_window(WindowId(1));
    let changes = state.resize_axis(Axis::Vertical, Sizing::Increase).unwrap();
    assert!(changes.is_empty());
    assert_eq!(state.rect_for_window(WindowId(1)), before);
    assert_eq!(state.workspace(0, 0).unwrap().resize_dimension(0), None);
}

#[test]
fn resizing_the_vertical_cut_of_a_three_window_bsp() {
    let mut state = with_windows(3);
    state.focus_window(WindowId(2)).unwrap();
    state.resize_axis(Axis::Vertical, Sizing::Increase).unwrap();
    assert_eq!(
        state.rect_for_window(WindowId(2)),
        Some(Rect::new(960, 0, 1920, 590))
    );
    assert_eq!(
        state.rect_for_window(WindowId(3)),
        Some(Rect::new(960, 590, 1920, 1080))
    );
}

#[test]
fn resizing_is_clamped_and_repeated_steps_keep_the_layout_valid() {
    let mut state = with_windows(2);
    state.focus_window(WindowId(1)).unwrap();
    for _ in 0..100 {
        state
            .resize_axis(Axis::Horizontal, Sizing::Increase)
            .unwrap();
    }
    let first = state.rect_for_window(WindowId(1)).unwrap();
    let second = state.rect_for_window(WindowId(2)).unwrap();
    assert!(second.width() > 0, "the other window never disappears");
    assert_eq!(first.right, second.left, "the tiling still holds");
}

#[test]
fn a_saturated_resize_steps_back_by_at_most_one_delta_and_then_by_a_full_one() {
    // Twenty presses run into the clamp long before the twentieth. The
    // press that reached the clamp only got part of a step, so the first
    // press back hands that part back: less than a full delta, but never
    // nothing. Every press after that is a full step.
    //
    // This used to be a full step straight away, because the press that
    // reached the clamp stored what the boundary really moved instead of
    // the step it asked for. That is what made the same number of presses
    // each way drift; see `resizing_is_reversible_and_bounded`.
    for axis in [Axis::Horizontal, Axis::Vertical] {
        for sizing in [Sizing::Increase, Sizing::Decrease] {
            let mut state = with_windows(3);
            state.focus_window(WindowId(2)).unwrap();
            for _ in 0..20 {
                state.resize_axis(axis, sizing).unwrap();
            }
            let saturated = state.rect_for_window(WindowId(2)).unwrap();

            state.resize_axis(axis, sizing.opposite()).unwrap();
            let first = state.rect_for_window(WindowId(2)).unwrap();
            let back = (saturated.extent(axis) - first.extent(axis)).abs();
            assert!(
                back > 0 && back <= state.resize_delta,
                "{axis:?} {sizing:?} stepped back by {back}, not by at most one delta"
            );

            state.resize_axis(axis, sizing.opposite()).unwrap();
            let second = state.rect_for_window(WindowId(2)).unwrap();
            assert_eq!(
                (first.extent(axis) - second.extent(axis)).abs(),
                state.resize_delta,
                "{axis:?} {sizing:?} did not give a full second step back"
            );
        }
    }
}

#[test]
fn a_clamped_resize_stores_the_step_it_asked_for() {
    let mut state = with_windows(2);
    state.focus_window(WindowId(1)).unwrap();
    for _ in 0..40 {
        state
            .resize_axis(Axis::Horizontal, Sizing::Increase)
            .unwrap();
    }
    let stored = state.workspace(0, 0).unwrap().resize_dimension(0).unwrap();
    let achieved = state.rect_for_window(WindowId(1)).unwrap().width() - 960;
    assert!(
        stored.right >= achieved,
        "the stored delta is the step that was asked for, not the part of it \
         the clamp granted: {} against {achieved}",
        stored.right
    );
    // The presses after the clamp move nothing at all and are not stored
    // at all, so the delta stays within one step of what the layout can do
    // with it and one press back is always visible.
    assert!(stored.right < achieved + state.resize_delta);
    assert!(stored.right < 40 * state.resize_delta);
}

#[test]
fn no_tile_is_ever_resized_below_the_minimum_tile_size() {
    let mut state = with_windows(4);
    for idx in 1..=4 {
        state.focus_window(WindowId(idx)).unwrap();
        for axis in [Axis::Horizontal, Axis::Vertical] {
            for _ in 0..50 {
                state.resize_axis(axis, Sizing::Decrease).unwrap();
                state.resize_axis(axis, Sizing::Increase).unwrap();
            }
        }
    }
    for rect in state.workspace(0, 0).unwrap().latest_layout() {
        assert!(
            rect.width() >= mochi::layout::MIN_TILE_SIZE
                && rect.height() >= mochi::layout::MIN_TILE_SIZE,
            "{rect:?} is smaller than the minimum tile"
        );
    }
}

#[test]
fn resizing_without_a_container_is_an_error() {
    let mut state = state();
    assert_eq!(
        state
            .resize_axis(Axis::Horizontal, Sizing::Increase)
            .unwrap_err(),
        Error::NoFocusedContainer
    );
}

// -- workspaces ---------------------------------------------------------

#[test]
fn switching_workspaces_hides_one_set_and_shows_the_other() {
    let mut state = with_windows(2);
    let changes = state.focus_workspace(1).unwrap();
    assert_eq!(state.focused_indices().unwrap(), (0, 1));
    assert!(changes.hide.contains(&WindowId(1)));
    assert!(changes.hide.contains(&WindowId(2)));
    assert!(changes.show.is_empty());

    state.add_window(Window::new(3)).unwrap();
    let changes = state.focus_workspace(0).unwrap();
    assert!(changes.show.contains(&WindowId(1)));
    assert!(changes.hide.contains(&WindowId(3)));
    assert_eq!(changes.focus, Some(WindowId(2)));
}

#[test]
fn workspaces_are_created_on_demand_up_to_the_limit() {
    let mut state = state();
    state
        .monitors_mut()
        .get_mut(0)
        .unwrap()
        .workspaces_mut()
        .clear();
    state
        .monitors_mut()
        .get_mut(0)
        .unwrap()
        .ensure_workspaces(1);
    assert_eq!(state.monitors().get(0).unwrap().workspaces().len(), 1);

    state.focus_workspace(8).unwrap();
    assert_eq!(state.monitors().get(0).unwrap().workspaces().len(), 9);
    assert_eq!(
        state.focus_workspace(mochi::MAX_WORKSPACES).unwrap_err(),
        Error::WorkspaceIndexOutOfRange(mochi::MAX_WORKSPACES)
    );
}

#[test]
fn focus_last_workspace_goes_back_and_forth() {
    let mut state = with_windows(1);
    assert!(
        state.focus_last_workspace().unwrap().is_empty(),
        "nothing to go back to yet"
    );
    state.focus_workspace(4).unwrap();
    state.focus_last_workspace().unwrap();
    assert_eq!(state.focused_indices().unwrap(), (0, 0));
    state.focus_last_workspace().unwrap();
    assert_eq!(state.focused_indices().unwrap(), (0, 4));
}

#[test]
fn cycling_workspaces_wraps_round() {
    let mut state = state();
    state.cycle_workspace(CycleDirection::Next).unwrap();
    assert_eq!(state.focused_indices().unwrap(), (0, 1));
    state.cycle_workspace(CycleDirection::Previous).unwrap();
    state.cycle_workspace(CycleDirection::Previous).unwrap();
    assert_eq!(state.focused_indices().unwrap(), (0, 8), "wrapped round");
}

#[test]
fn moving_to_a_workspace_takes_the_window_along() {
    let mut state = with_windows(2);
    let changes = state.move_to_workspace(3, true).unwrap();
    assert_eq!(state.locate_window(WindowId(2)), Some((0, 3)));
    assert_eq!(state.focused_indices().unwrap(), (0, 3));
    assert_eq!(focused(&state), Some(WindowId(2)));
    assert!(changes.hide.contains(&WindowId(1)));
}

#[test]
fn sending_to_a_workspace_stays_put() {
    let mut state = with_windows(2);
    let changes = state.move_to_workspace(3, false).unwrap();
    assert_eq!(state.locate_window(WindowId(2)), Some((0, 3)));
    assert_eq!(state.focused_indices().unwrap(), (0, 0));
    assert_eq!(focused(&state), Some(WindowId(1)));
    assert!(changes.hide.contains(&WindowId(2)));
}

#[test]
fn moving_to_the_workspace_you_are_on_is_a_no_op() {
    let mut state = with_windows(2);
    assert!(state.move_to_workspace(0, true).unwrap().is_empty());
    assert_eq!(state.workspace(0, 0).unwrap().containers().len(), 2);
}

// -- monitors -----------------------------------------------------------

#[test]
fn focusing_and_cycling_monitors() {
    let mut state = with_windows(1);
    state.add_window_to(1, 0, Window::new(50)).unwrap();

    let changes = state.focus_monitor(1).unwrap();
    assert_eq!(state.focused_monitor_idx(), 1);
    assert!(changes.focused_monitor_changed);
    assert_eq!(changes.focus, Some(WindowId(50)));

    state.cycle_monitor(CycleDirection::Next).unwrap();
    assert_eq!(state.focused_monitor_idx(), 0, "wrapped round");
    assert_eq!(
        state.focus_monitor(9).unwrap_err(),
        Error::MonitorNotFound(9)
    );
}

#[test]
fn moving_to_another_monitor_by_index() {
    let mut state = with_windows(2);
    state.move_to_monitor(1, true).unwrap();
    assert_eq!(state.locate_window(WindowId(2)), Some((1, 0)));
    assert_eq!(state.focused_monitor_idx(), 1);
    assert!(state.move_to_monitor(9, true).is_err());
}

#[test]
fn a_window_moved_to_a_hidden_workspace_is_hidden() {
    let mut state = with_windows(2);
    state.monitors_mut().get_mut(1).unwrap().focus_workspace(2);
    let changes = state.move_focused_container(1, 5, false).unwrap();
    assert_eq!(state.locate_window(WindowId(2)), Some((1, 5)));
    assert!(changes.hide.contains(&WindowId(2)));
}

// -- retile, pause and tiling -------------------------------------------

#[test]
fn retile_touches_every_visible_workspace() {
    let mut state = with_windows(2);
    state.add_window_to(1, 0, Window::new(50)).unwrap();
    let changes = state.retile().unwrap();
    assert_eq!(changes.retiled.len(), 2);
    assert!(changes.show.contains(&WindowId(50)));
}

#[test]
fn pausing_stops_every_command() {
    let mut state = with_windows(2);
    assert!(state.toggle_pause().unwrap().is_empty());
    assert!(state.is_paused);

    assert!(state.focus_direction(Direction::Left).unwrap().is_empty());
    assert!(state.move_direction(Direction::Left).unwrap().is_empty());
    assert!(state.cycle_focus(CycleDirection::Next).unwrap().is_empty());
    assert!(state.cycle_move(CycleDirection::Next).unwrap().is_empty());
    assert!(state.cycle_stack(CycleDirection::Next).unwrap().is_empty());
    assert!(state.toggle_float().unwrap().is_empty());
    assert!(state.toggle_monocle().unwrap().is_empty());
    assert!(state.toggle_maximize().unwrap().is_empty());
    assert!(state.toggle_tiling().unwrap().is_empty());
    assert!(state.promote().unwrap().is_empty());
    assert!(state.promote_focus().unwrap().is_empty());
    assert!(state.stack(Direction::Left).unwrap().is_empty());
    assert!(state.unstack().unwrap().is_empty());
    assert!(state.change_layout(Layout::Grid).unwrap().is_empty());
    assert!(state.cycle_layout(CycleDirection::Next).unwrap().is_empty());
    assert!(state.flip_layout(Axis::Horizontal).unwrap().is_empty());
    assert!(
        state
            .resize_axis(Axis::Horizontal, Sizing::Increase)
            .unwrap()
            .is_empty()
    );
    assert!(state.focus_workspace(4).unwrap().is_empty());
    assert!(state.focus_last_workspace().unwrap().is_empty());
    assert!(
        state
            .cycle_workspace(CycleDirection::Next)
            .unwrap()
            .is_empty()
    );
    assert!(state.move_to_workspace(4, true).unwrap().is_empty());
    assert!(state.focus_monitor(1).unwrap().is_empty());
    assert!(
        state
            .cycle_monitor(CycleDirection::Next)
            .unwrap()
            .is_empty()
    );
    assert!(state.move_to_monitor(1, true).unwrap().is_empty());
    assert!(state.add_window(Window::new(9)).unwrap().is_empty());
    assert!(state.float_window(WindowId(1)).unwrap().is_empty());
    assert!(state.minimize_focused_window().unwrap().is_empty());
    assert!(state.close_focused_window().unwrap().is_empty());
    assert!(state.retile().unwrap().is_empty());

    assert_eq!(state.workspace(0, 0).unwrap().layout, Layout::Bsp);
    assert_eq!(state.focused_indices().unwrap(), (0, 0));
    assert!(!state.is_managed(WindowId(9)));
}

#[test]
fn a_configured_workspace_past_the_creation_cap_still_works() {
    let mut state = with_windows(1);
    state
        .monitors_mut()
        .get_mut(0)
        .unwrap()
        .ensure_workspaces(12);

    state.focus_workspace(11).unwrap();
    assert_eq!(state.focused_indices().unwrap(), (0, 11));

    state.focus_workspace(0).unwrap();
    state.move_to_workspace(11, true).unwrap();
    assert_eq!(state.locate_window(WindowId(1)), Some((0, 11)));

    // Twelve workspaces exist, a thirteenth is still out of range, and the
    // monitor that was left at nine workspaces keeps the old cap.
    assert_eq!(
        state.focus_workspace(12).unwrap_err(),
        Error::WorkspaceIndexOutOfRange(12)
    );
    assert!(state.check_workspace_idx_on(0, 11).is_ok());
    assert!(state.check_workspace_idx_on(1, 11).is_err());
    assert!(State::check_workspace_idx(11).is_err());
}

#[test]
fn a_window_that_appears_while_paused_waits_instead_of_being_dropped() {
    let mut state = with_windows(1);
    state.toggle_pause().unwrap();

    let changes = state.add_window(Window::new(2)).unwrap();
    assert!(
        changes.is_empty(),
        "nothing moves while the manager is paused"
    );
    assert!(!state.is_managed(WindowId(2)));
    assert_eq!(state.pending_windows.len(), 1);

    // A second event for the same window does not queue it twice.
    state.add_window(Window::new(2)).unwrap();
    assert_eq!(state.pending_windows.len(), 1);

    state.toggle_pause().unwrap();
    assert!(state.pending_windows.is_empty());
    assert!(state.is_managed(WindowId(2)));
    assert_eq!(
        state.rect_for_window(WindowId(2)),
        Some(Rect::new(960, 0, 1920, 1080))
    );
}

#[test]
fn retile_picks_up_the_windows_that_waited() {
    let mut state = with_windows(1);
    state.toggle_pause().unwrap();
    state.add_window(Window::new(2)).unwrap();
    state.add_window(Window::new(3)).unwrap();
    assert!(state.retile().unwrap().is_empty(), "still paused");

    state.is_paused = false;
    let changes = state.retile().unwrap();
    assert!(state.is_managed(WindowId(2)) && state.is_managed(WindowId(3)));
    assert!(changes.show.contains(&WindowId(3)));
    assert_eq!(state.workspace(0, 0).unwrap().containers().len(), 3);
}

#[test]
fn a_window_that_closes_again_while_paused_is_forgotten() {
    let mut state = with_windows(1);
    state.toggle_pause().unwrap();
    state.add_window(Window::new(2)).unwrap();
    assert!(state.remove_window(WindowId(2)).unwrap().is_empty());
    assert!(state.pending_windows.is_empty());

    state.toggle_pause().unwrap();
    assert!(!state.is_managed(WindowId(2)));
}

#[test]
fn an_ignored_window_is_not_queued_while_paused() {
    let mut state = with_windows(1);
    state.rules.ignore_rules.push(MatchingRule::simple(
        ApplicationIdentifier::Exe,
        "ignored.exe",
        MatchingStrategy::Equals,
    ));
    state.toggle_pause().unwrap();
    state
        .add_window(Window::new(2).with_exe("ignored.exe"))
        .unwrap();
    assert!(state.pending_windows.is_empty());
}

#[test]
fn the_paddings_scale_with_the_monitor_dpi() {
    // The real pair: the 4K panel at 150 percent and the portrait one at
    // 100 percent. Fourteen logical pixels are 21 physical on the 4K.
    let mut state = State::new();
    let main_area = Rect::new(0, 0, 3840, 2160);
    let side_area = Rect::new(3840, 0, 4920, 1920);
    state.add_monitor(Monitor::new(1, main_area, main_area).with_dpi(144));
    state.add_monitor(Monitor::new(2, side_area, side_area).with_dpi(96));
    state.default_workspace_padding = 14;
    state.default_container_padding = 0;

    assert!((factor(state.padding_scale(0)) - 1.5).abs() < f32::EPSILON);
    assert!((factor(state.padding_scale(1)) - 1.0).abs() < f32::EPSILON);

    state.add_window(Window::new(1)).unwrap();
    assert_eq!(
        state.rect_for_window(WindowId(1)),
        Some(Rect::new(21, 21, 3819, 2139)),
        "14 logical pixels are 21 physical ones at 150 percent"
    );

    state.focus_monitor(1).unwrap();
    state.add_window(Window::new(2)).unwrap();
    assert_eq!(
        state.rect_for_window(WindowId(2)),
        Some(Rect::new(3854, 14, 4906, 1906)),
        "the portrait panel is at 100 percent, so the padding is literal"
    );

    state.scale_padding_with_dpi = false;
    state.retile().unwrap();
    assert_eq!(
        state.rect_for_window(WindowId(1)),
        Some(Rect::new(14, 14, 3826, 2146))
    );
}

#[test]
fn a_destroyed_window_still_leaves_the_model_while_paused() {
    let mut state = with_windows(2);
    state.toggle_pause().unwrap();
    assert!(state.remove_window(WindowId(2)).unwrap().is_empty());
    assert!(!state.is_managed(WindowId(2)));
}

#[test]
fn unpausing_retiles_everything() {
    let mut state = with_windows(2);
    state.toggle_pause().unwrap();
    let changes = state.toggle_pause().unwrap();
    assert!(!state.is_paused);
    assert!(!changes.retiled.is_empty());
    assert!(changes.show.contains(&WindowId(1)));
}

#[test]
fn turning_tiling_off_leaves_the_windows_where_they_are() {
    let mut state = with_windows(2);
    state.toggle_tiling().unwrap();
    assert!(!state.workspace(0, 0).unwrap().tile);
    assert!(state.workspace(0, 0).unwrap().latest_layout().is_empty());
    state.toggle_tiling().unwrap();
    assert_eq!(state.workspace(0, 0).unwrap().latest_layout().len(), 2);
}

// -- the hotkeys the user actually has ----------------------------------

#[test]
fn every_command_in_the_whkdrc_runs() {
    let mut state = with_windows(3);
    state.window_hiding_behaviour = HidingBehaviour::Cloak;

    for direction in Direction::ALL {
        state.focus_direction(direction).unwrap();
    }
    for direction in Direction::ALL {
        state.move_direction(direction).unwrap();
    }
    for axis in [Axis::Horizontal, Axis::Vertical] {
        for sizing in [Sizing::Increase, Sizing::Decrease] {
            state.resize_axis(axis, sizing).unwrap();
        }
    }
    state.toggle_float().unwrap();
    state.toggle_float().unwrap();
    state.toggle_maximize().unwrap();
    state.toggle_maximize().unwrap();
    state.toggle_monocle().unwrap();
    state.toggle_monocle().unwrap();
    state.minimize_focused_window().unwrap();
    state.close_focused_window().unwrap();
    state.cycle_layout(CycleDirection::Next).unwrap();
    state.flip_layout(Axis::Horizontal).unwrap();
    state.flip_layout(Axis::Vertical).unwrap();
    state.cycle_workspace(CycleDirection::Previous).unwrap();
    state.cycle_workspace(CycleDirection::Next).unwrap();
    state.focus_last_workspace().unwrap();
    for idx in 0..9 {
        state.focus_workspace(idx).unwrap();
    }
    state.focus_workspace(0).unwrap();
    for idx in 0..9 {
        state.move_to_workspace(idx, true).unwrap();
    }
    state.toggle_pause().unwrap();
    state.toggle_pause().unwrap();
    state.retile().unwrap();

    // Nothing was lost along the way.
    assert_eq!(state.all_window_ids().len(), 2, "one was minimized");
}

// -- drop swap ----------------------------------------------------------

fn container_ids(state: &State, monitor: usize, workspace: usize) -> Vec<WindowId> {
    state
        .workspace(monitor, workspace)
        .unwrap()
        .containers()
        .iter()
        .filter_map(Container::focused_window_id)
        .collect()
}

#[test]
fn a_point_hit_tests_the_tiles_of_the_focused_workspace() {
    let state = with_windows(2);
    assert_eq!(state.container_at_point(0, 10, 10), Some(0));
    assert_eq!(state.container_at_point(0, 1000, 500), Some(1));
    assert_eq!(state.container_at_point(0, 5000, 10), None, "off the tiles");
    assert_eq!(state.container_at_point(1, 2000, 10), None, "no containers");
    assert_eq!(state.container_at_point(9, 10, 10), None, "no monitor");
}

#[test]
fn dropping_a_window_on_another_tile_swaps_the_two_containers() {
    let mut state = with_windows(2);
    assert_eq!(container_ids(&state, 0, 0), vec![WindowId(1), WindowId(2)]);

    let changes = state.swap_window_at_point(WindowId(1), 1000, 500).unwrap();

    assert_eq!(container_ids(&state, 0, 0), vec![WindowId(2), WindowId(1)]);
    assert_eq!(changes.retiled, vec![mochi::model::WorkspaceRef::new(0, 0)]);
    assert_eq!(
        state.rect_for_window(WindowId(1)),
        Some(Rect::new(960, 0, 1920, 1080)),
        "the dragged window took the tile it was dropped on"
    );
    assert_eq!(
        state.workspace(0, 0).unwrap().focused_container_idx(),
        1,
        "the focus follows the dragged container"
    );
}

#[test]
fn dropping_a_window_on_its_own_tile_only_retiles() {
    let mut state = with_windows(3);
    let before = container_ids(&state, 0, 0);
    let rect = state.rect_for_window(WindowId(1)).unwrap();

    let changes = state
        .swap_window_at_point(WindowId(1), rect.left + 5, rect.top + 5)
        .unwrap();

    assert_eq!(container_ids(&state, 0, 0), before, "nothing moved");
    assert_eq!(changes.retiled, vec![mochi::model::WorkspaceRef::new(0, 0)]);
    assert!(changes.show.is_empty() && changes.hide.is_empty());
}

#[test]
fn dropping_a_window_off_every_monitor_snaps_it_back() {
    let mut state = with_windows(2);
    let before = container_ids(&state, 0, 0);

    let changes = state.swap_window_at_point(WindowId(1), -500, -500).unwrap();

    assert_eq!(container_ids(&state, 0, 0), before);
    assert_eq!(changes.retiled, vec![mochi::model::WorkspaceRef::new(0, 0)]);
}

#[test]
fn dropping_a_window_on_free_space_of_its_own_monitor_snaps_it_back() {
    let mut state = state();
    state.default_workspace_padding = 200;
    state.add_window(Window::new(1)).unwrap();
    let before = container_ids(&state, 0, 0);

    // The workspace padding leaves a margin that belongs to no tile.
    let changes = state.swap_window_at_point(WindowId(1), 5, 5).unwrap();

    assert_eq!(container_ids(&state, 0, 0), before);
    assert_eq!(changes.retiled, vec![mochi::model::WorkspaceRef::new(0, 0)]);
}

#[test]
fn dropping_a_window_on_another_monitor_moves_it_there() {
    let mut state = with_windows(2);
    state.add_window_to(1, 0, Window::new(5)).unwrap();
    state.add_window_to(1, 0, Window::new(6)).unwrap();
    let target = state.rect_for_window(WindowId(5)).unwrap();

    let changes = state
        .swap_window_at_point(WindowId(1), target.left + 5, target.top + 5)
        .unwrap();

    assert_eq!(container_ids(&state, 0, 0), vec![WindowId(2)]);
    assert_eq!(
        container_ids(&state, 1, 0),
        vec![WindowId(1), WindowId(5), WindowId(6)],
        "inserted at the container it was dropped on"
    );
    assert!(changes.focused_monitor_changed);
    assert_eq!(state.focused_monitor_idx(), 1);
    assert!(state.visible_window_ids().contains(&WindowId(1)));
    assert_eq!(changes.retiled.len(), 2);
}

#[test]
fn dropping_a_window_on_the_free_space_of_another_monitor_appends_it() {
    let mut state = with_windows(2);
    state.add_window_to(1, 0, Window::new(5)).unwrap();
    state.default_workspace_padding = 400;
    state.retile().unwrap();

    let changes = state.swap_window_at_point(WindowId(1), 1925, 5).unwrap();

    assert_eq!(
        container_ids(&state, 1, 0),
        vec![WindowId(5), WindowId(1)],
        "a drop on free space goes to the back"
    );
    assert!(!changes.retiled.is_empty());
}

#[test]
fn dropping_a_floating_window_changes_nothing() {
    let mut state = with_windows(2);
    state.float_window(WindowId(1)).unwrap();
    let changes = state.swap_window_at_point(WindowId(1), 1000, 500).unwrap();
    assert!(changes.is_empty());
    assert_eq!(container_ids(&state, 0, 0), vec![WindowId(2)]);
}

#[test]
fn dropping_an_unmanaged_window_is_an_error_and_a_paused_drop_does_nothing() {
    let mut state = with_windows(2);
    assert_eq!(
        state
            .swap_window_at_point(WindowId(99), 10, 10)
            .unwrap_err(),
        Error::WindowNotFound(WindowId(99))
    );
    state.is_paused = true;
    assert!(
        state
            .swap_window_at_point(WindowId(1), 1000, 500)
            .unwrap()
            .is_empty()
    );
    assert_eq!(container_ids(&state, 0, 0), vec![WindowId(1), WindowId(2)]);
}

// -- monitor reconciliation ---------------------------------------------

fn display(id: isize, name: &str, rect: Rect) -> Monitor {
    Monitor::new(id, rect, rect).with_name(name)
}

#[test]
fn reconciling_an_added_monitor_keeps_everything_and_gives_it_workspaces() {
    let mut state = with_windows(2);
    let third = Rect::new(3000, 0, 4920, 1080);
    let changes = state.reconcile_monitors(vec![
        display(1, "DISPLAY1", MAIN),
        display(2, "DISPLAY2", SIDE),
        display(3, "DISPLAY3", third),
    ]);

    assert_eq!(state.monitors().len(), 3);
    assert_eq!(
        state.monitors().get(2).unwrap().workspaces().len(),
        9,
        "as many as the monitors that were already there"
    );
    assert_eq!(container_ids(&state, 0, 0), vec![WindowId(1), WindowId(2)]);
    assert_eq!(state.monitors().get(2).unwrap().size, third);
    assert_eq!(changes.retiled.len(), 3);
    assert!(changes.focused_monitor_changed);
}

#[test]
fn reconciling_updates_the_geometry_of_a_display_that_stayed() {
    let mut state = with_windows(2);
    let resized = Rect::new(0, 0, 2560, 1440);
    state.reconcile_monitors(vec![
        display(11, "DISPLAY1", resized).with_dpi(144),
        display(2, "DISPLAY2", SIDE),
    ]);

    let main = state.monitors().get(0).unwrap();
    assert_eq!(main.size, resized);
    assert_eq!(main.work_area, resized);
    assert_eq!(main.dpi, 144);
    assert_eq!(main.id, 11, "the fresh platform handle wins");
    assert_eq!(main.workspaces().len(), 9, "the workspaces survived");
    assert_eq!(
        state.rect_for_window(WindowId(1)),
        Some(Rect::new(0, 0, 1280, 1440)),
        "and the layout followed the new size"
    );
}

#[test]
fn reconciling_a_monitor_away_rescues_its_windows() {
    let mut state = with_windows(2);
    state.add_window_to(1, 0, Window::new(5)).unwrap();
    state.add_window_to(1, 0, Window::new(7)).unwrap();
    state.float_window(WindowId(7)).unwrap();
    state.add_window_to(1, 3, Window::new(6)).unwrap();

    let changes = state.reconcile_monitors(vec![display(1, "DISPLAY1", MAIN)]);

    assert_eq!(state.monitors().len(), 1);
    assert_eq!(
        container_ids(&state, 0, 0),
        vec![WindowId(1), WindowId(2), WindowId(5)],
        "appended to the same-index workspace"
    );
    assert_eq!(
        state
            .workspace(0, 0)
            .unwrap()
            .floating_windows()
            .iter()
            .map(|w| w.id)
            .collect::<Vec<_>>(),
        vec![WindowId(7)],
        "floating windows follow their workspace"
    );
    assert_eq!(container_ids(&state, 0, 3), vec![WindowId(6)]);
    assert_eq!(state.all_window_ids().len(), 5, "nothing was lost");

    assert!(state.visible_window_ids().contains(&WindowId(5)));
    assert!(
        changes.show.contains(&WindowId(5)),
        "and it is put on screen"
    );
    assert!(!changes.hide.contains(&WindowId(5)));
    assert!(
        !state.visible_window_ids().contains(&WindowId(6)),
        "the one on workspace four stays where it was"
    );
    assert!(state.rect_for_window(WindowId(5)).is_some());
    assert_eq!(state.focused_monitor_idx(), 0);
}

#[test]
fn reconciling_a_new_order_reorders_the_ring_and_keeps_the_focused_display() {
    let mut state = with_windows(2);
    state.focus_monitor(1).unwrap();

    let changes = state.reconcile_monitors(vec![
        display(7, "DISPLAY2", SIDE),
        display(8, "DISPLAY1", MAIN),
    ]);

    assert_eq!(state.monitors().get(0).unwrap().name, "DISPLAY2");
    assert_eq!(state.monitors().get(1).unwrap().name, "DISPLAY1");
    assert_eq!(
        state.focused_monitor_idx(),
        0,
        "the focus stayed on the same display, which moved"
    );
    assert_eq!(container_ids(&state, 1, 0), vec![WindowId(1), WindowId(2)]);
    assert!(changes.focused_monitor_changed);
}

#[test]
fn reconciling_matches_by_device_id_before_the_name() {
    let mut state = State::new();
    state.default_workspace_padding = 0;
    state.default_container_padding = 0;
    state.add_monitor(
        Monitor::new(1, MAIN, MAIN)
            .with_name("DISPLAY1")
            .with_device(r"\.\DISPLAY1", "G8-12345"),
    );
    state.add_window(Window::new(1)).unwrap();

    // Windows renumbered the friendly names after a reboot.
    state.reconcile_monitors(vec![
        Monitor::new(4, MAIN, MAIN)
            .with_name("DISPLAY2")
            .with_device(r"\.\DISPLAY2", "G8-12345"),
    ]);

    assert_eq!(state.monitors().len(), 1);
    assert_eq!(state.monitors().get(0).unwrap().name, "DISPLAY2");
    assert_eq!(
        container_ids(&state, 0, 0),
        vec![WindowId(1)],
        "the same panel kept its windows"
    );
}

#[test]
fn reconciling_with_no_displays_at_all_is_ignored() {
    let mut state = with_windows(2);
    let changes = state.reconcile_monitors(Vec::new());
    assert!(changes.is_empty());
    assert_eq!(state.monitors().len(), 2);
    assert_eq!(container_ids(&state, 0, 0), vec![WindowId(1), WindowId(2)]);
}

// -- regressions --------------------------------------------------------

#[test]
fn minimizing_the_visible_window_of_a_stack_shows_the_one_underneath() {
    let mut state = with_windows(3);
    state.stack(Direction::Left).unwrap();
    assert_eq!(state.visible_window_ids(), vec![WindowId(3), WindowId(2)]);

    let changes = state.minimize_focused_window().unwrap();

    assert_eq!(changes.minimize, vec![WindowId(3)]);
    assert_eq!(
        changes.show,
        vec![WindowId(1)],
        "the window the stack now shows is still cloaked: {changes:?}"
    );
    assert_eq!(state.visible_window_ids(), vec![WindowId(1), WindowId(2)]);
}

#[test]
fn minimizing_a_maximized_window_takes_it_out_of_the_maximized_state() {
    let mut state = with_windows(2);
    state.toggle_maximize().unwrap();

    let changes = state.minimize_focused_window().unwrap();

    assert_eq!(changes.minimize, vec![WindowId(2)]);
    assert_eq!(
        changes.restore,
        vec![WindowId(2)],
        "the real window is still SW_SHOWMAXIMIZED: {changes:?}"
    );
    assert!(!state.workspace(0, 0).unwrap().is_maximized());
}

#[test]
fn floating_a_maximized_window_takes_it_out_of_the_maximized_state() {
    let mut state = with_windows(2);
    state.toggle_maximize().unwrap();

    let changes = state.float_window(WindowId(2)).unwrap();

    assert_eq!(
        changes.restore,
        vec![WindowId(2)],
        "the real window is still SW_SHOWMAXIMIZED: {changes:?}"
    );
    assert!(!state.workspace(0, 0).unwrap().is_maximized());
    assert_eq!(state.workspace(0, 0).unwrap().floating_windows().len(), 1);
}

#[test]
fn focusing_a_window_while_paused_leaves_the_model_alone() {
    let mut state = with_windows(1);
    state.focus_workspace(1).unwrap();
    state.add_window(Window::new(2)).unwrap();
    state.toggle_pause().unwrap();

    let changes = state.focus_window(WindowId(1)).unwrap();

    assert!(changes.is_empty(), "{changes:?}");
    assert_eq!(
        state.focused_indices().unwrap(),
        (0, 1),
        "a paused manager keeps the workspace it had"
    );
}

#[test]
fn moving_a_floating_window_to_another_monitor_leaves_the_tiled_ones_alone() {
    let mut state = with_windows(2);
    state.toggle_float().unwrap();

    let changes = state.move_to_monitor(1, true).unwrap();

    assert!(changes.is_empty(), "{changes:?}");
    assert_eq!(container_ids(&state, 0, 0), vec![WindowId(1)]);
    assert!(state.workspace(1, 0).unwrap().is_empty());
    assert_eq!(focused(&state), Some(WindowId(2)));
}

#[test]
fn moving_a_monocled_window_to_another_workspace_leaves_the_ring_alone() {
    let mut state = with_windows(2);
    state.toggle_monocle().unwrap();

    let changes = state.move_to_workspace(1, false).unwrap();

    assert!(changes.is_empty(), "{changes:?}");
    assert!(state.workspace(0, 1).unwrap().is_empty());
    assert_eq!(container_ids(&state, 0, 0), vec![WindowId(1)]);
}

#[test]
fn promoting_while_a_floating_window_is_focused_moves_nothing() {
    let mut state = with_windows(3);
    state.toggle_float().unwrap();

    let changes = state.promote().unwrap();

    assert!(changes.is_empty(), "{changes:?}");
    assert_eq!(container_ids(&state, 0, 0), vec![WindowId(1), WindowId(2)]);
}

#[test]
fn resizing_while_a_floating_window_is_focused_leaves_the_tiles_alone() {
    let mut state = with_windows(3);
    state.toggle_float().unwrap();

    let changes = state
        .resize_axis(Axis::Horizontal, Sizing::Increase)
        .unwrap();

    assert!(changes.is_empty(), "{changes:?}");
    assert_eq!(state.workspace(0, 0).unwrap().resize_dimension(0), None);
}

#[test]
fn stacking_while_a_floating_window_is_focused_leaves_the_stacks_alone() {
    let mut state = with_windows(3);
    state.toggle_float().unwrap();

    let changes = state.stack(Direction::Left).unwrap();

    assert!(changes.is_empty(), "{changes:?}");
    assert_eq!(container_ids(&state, 0, 0), vec![WindowId(1), WindowId(2)]);
}

#[test]
fn a_window_moved_behind_a_maximized_one_never_takes_the_foreground() {
    let mut state = with_windows(1);
    state.focus_monitor(1).unwrap();
    state.add_window(Window::new(2)).unwrap();
    state.toggle_maximize().unwrap();
    state.focus_monitor(0).unwrap();

    let changes = state.move_to_monitor(1, true).unwrap();

    assert!(changes.hide.contains(&WindowId(1)), "{changes:?}");
    assert_ne!(
        changes.focus,
        Some(WindowId(1)),
        "the daemon would cloak the window and then type into it: {changes:?}"
    );
}
