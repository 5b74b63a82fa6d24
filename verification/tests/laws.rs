//! What holds of the whole manager, on concrete values.

use mochi::config::{Colour, ColourRepr};
use mochi::error::Error;
use mochi::geometry::{Axis, Direction, Offset, Rect};
use mochi::layout::{Flip, Layout, MinSize, Sizing, MIN_TILE_SIZE};
use mochi::model::{
    scale_padding, CycleDirection, Monitor, Scale, State, Window, WindowId, Workspace,
    DEFAULT_DPI,
};
use mochi::MAX_WORKSPACES;

const MAIN: Rect = Rect { left: 0, top: 0, right: 1920, bottom: 1080 };
const SIDE: Rect = Rect { left: 1920, top: 0, right: 3000, bottom: 1920 };

fn desk(count: usize) -> State {
    let mut state = State::new();
    state.default_workspace_padding = 0;
    state.default_container_padding = 0;
    state.add_monitor(Monitor::new(1, MAIN, MAIN).with_name("DISPLAY1"));
    state.add_monitor(Monitor::new(2, SIDE, SIDE).with_name("DISPLAY2"));
    for id in 1..=count {
        state.add_window(Window::new(id as isize)).unwrap();
    }
    state
}

fn layout_of(state: &State) -> Vec<Rect> {
    state.focused_workspace().unwrap().latest_layout().to_vec()
}

fn everyone(state: &State) -> Vec<WindowId> {
    let mut ids = state.all_window_ids();
    ids.sort();
    ids
}

#[test]
fn presses_back_land_where_they_started() {
    for layout in Layout::ALL {
        let mut state = desk(4);
        state.change_layout(layout).unwrap();
        for id in 1..=4 {
            state.focus_window(WindowId(id)).unwrap();
            for direction in Direction::ALL {
                for sizing in [Sizing::Increase, Sizing::Decrease] {
                    let start = layout_of(&state);
                    let mut moved = 0;
                    while !state.resize_edge(direction, sizing).unwrap().is_empty() {
                        moved += 1;
                    }
                    for _ in 0..moved {
                        let changes = state.resize_edge(direction, sizing.opposite()).unwrap();
                        assert!(!changes.is_empty());
                    }
                    assert_eq!(layout_of(&state), start, "{layout:?} {id} {direction:?}");
                }
            }
        }
    }
}

#[test]
fn presses_back_along_an_axis_land_where_they_started() {
    for layout in Layout::ALL {
        let mut state = desk(4);
        state.change_layout(layout).unwrap();
        for id in 1..=4 {
            state.focus_window(WindowId(id)).unwrap();
            for axis in [Axis::Horizontal, Axis::Vertical] {
                let start = layout_of(&state);
                let mut moved = 0;
                while !state.resize_axis(axis, Sizing::Increase).unwrap().is_empty() {
                    moved += 1;
                }
                for _ in 0..moved {
                    state.resize_axis(axis, Sizing::Decrease).unwrap();
                }
                assert_eq!(layout_of(&state), start, "{layout:?} {id} {axis:?}");
            }
        }
    }
}

#[test]
fn no_delta_squeezes_a_tile_below_the_minimum() {
    let push = Rect::new(-5000, -5000, 5000, 5000);
    for layout in Layout::ALL {
        for len in 1..=6 {
            for pushed in 0..len {
                let mut deltas: Vec<Option<Rect>> = vec![None; len];
                deltas[pushed] = Some(push);
                for rect in layout.calculate(MAIN, len, 0, Flip::none(), &deltas) {
                    assert!(rect.width() >= MIN_TILE_SIZE, "{layout:?} {len} {rect:?}");
                    assert!(rect.height() >= MIN_TILE_SIZE, "{layout:?} {len} {rect:?}");
                }
            }
        }
    }
}

#[test]
fn a_delta_of_zero_is_as_good_as_none() {
    let zero = Some(Rect::new(0, 0, 0, 0));
    for layout in Layout::ALL {
        assert_eq!(
            layout.calculate(MAIN, 5, 4, Flip::none(), &[zero; 5]),
            layout.calculate(MAIN, 5, 4, Flip::none(), &[])
        );
    }
}

#[test]
fn an_area_too_small_for_the_minimum_is_still_tiled() {
    let area = Rect::new(0, 0, 100, 100);
    let rects = Layout::Columns.calculate_with_min(
        area,
        4,
        0,
        Flip::none(),
        &[],
        MinSize::square(64),
    );
    assert_eq!(
        rects,
        vec![
            Rect::new(0, 0, 25, 100),
            Rect::new(25, 0, 50, 100),
            Rect::new(50, 0, 75, 100),
            Rect::new(75, 0, 100, 100),
        ]
    );
}

#[test]
fn a_paused_manager_does_nothing() {
    let mut state = desk(3);
    assert!(state.toggle_pause().unwrap().is_empty());
    let before = (layout_of(&state), everyone(&state), state.focused_window_id());
    assert!(state.retile().unwrap().is_empty());
    assert!(state.focus_direction(Direction::Left).unwrap().is_empty());
    assert!(state.move_direction(Direction::Left).unwrap().is_empty());
    assert!(state.toggle_float().unwrap().is_empty());
    assert!(state.toggle_monocle().unwrap().is_empty());
    assert!(state.focus_workspace(4).unwrap().is_empty());
    assert!(state.move_to_monitor(1, true).unwrap().is_empty());
    assert!(state.resize_axis(Axis::Horizontal, Sizing::Increase).unwrap().is_empty());
    assert_eq!((layout_of(&state), everyone(&state), state.focused_window_id()), before);
}

#[test]
fn no_command_loses_a_window() {
    let mut state = desk(5);
    let all = everyone(&state);
    state.stack(Direction::Left).unwrap();
    assert_eq!(everyone(&state), all);
    state.cycle_stack(CycleDirection::Next).unwrap();
    assert_eq!(everyone(&state), all);
    state.unstack().unwrap();
    assert_eq!(everyone(&state), all);
    state.stack_all().unwrap();
    assert_eq!(everyone(&state), all);
    state.unstack_all().unwrap();
    assert_eq!(everyone(&state), all);
    state.toggle_float().unwrap();
    assert_eq!(everyone(&state), all);
    state.toggle_maximize().unwrap();
    assert_eq!(everyone(&state), all);
    state.toggle_maximize().unwrap();
    state.toggle_monocle().unwrap();
    assert_eq!(everyone(&state), all);
    state.toggle_monocle().unwrap();
    state.promote().unwrap();
    assert_eq!(everyone(&state), all);
    state.move_to_workspace(3, true).unwrap();
    assert_eq!(everyone(&state), all);
    state.move_to_monitor(1, false).unwrap();
    assert_eq!(everyone(&state), all);
}

#[test]
fn a_display_that_goes_leaves_its_windows() {
    let mut state = desk(2);
    state.focus_monitor(1).unwrap();
    state.add_window(Window::new(3)).unwrap();
    let all = everyone(&state);
    state.reconcile_monitors(vec![Monitor::new(7, MAIN, MAIN).with_name("DISPLAY1")]);
    assert_eq!(state.monitors().len(), 1);
    assert_eq!(everyone(&state), all);
}

#[test]
fn the_focused_window_is_among_the_visible_ones() {
    let mut state = desk(4);
    for id in 1..=4 {
        state.focus_window(WindowId(id)).unwrap();
        assert_eq!(state.focused_window_id(), Some(WindowId(id)));
        assert!(state.visible_window_ids().contains(&WindowId(id)));
    }
}

#[test]
fn the_last_workspace_is_a_way_back() {
    let mut state = desk(1);
    state.focus_workspace(5).unwrap();
    assert_eq!(state.focused_indices(), Ok((0, 5)));
    state.focus_last_workspace().unwrap();
    assert_eq!(state.focused_indices(), Ok((0, 0)));
    state.focus_last_workspace().unwrap();
    assert_eq!(state.focused_indices(), Ok((0, 5)));
}

#[test]
fn no_workspace_is_made_past_the_limit() {
    let mut state = desk(1);
    assert_eq!(
        state.focus_workspace(MAX_WORKSPACES).unwrap_err(),
        Error::WorkspaceIndexOutOfRange(MAX_WORKSPACES)
    );
    state.focus_workspace(MAX_WORKSPACES - 1).unwrap();
    assert_eq!(state.focused_monitor().unwrap().workspaces().len(), MAX_WORKSPACES);
}

#[test]
fn a_mode_toggled_twice_is_as_if_it_never_was() {
    let mut state = desk(3);
    let (layout, ids) = (layout_of(&state), state.all_window_ids());
    state.toggle_monocle().unwrap();
    state.toggle_monocle().unwrap();
    assert_eq!((layout_of(&state), state.all_window_ids()), (layout.clone(), ids.clone()));
    state.toggle_maximize().unwrap();
    state.toggle_maximize().unwrap();
    assert_eq!((layout_of(&state), state.all_window_ids()), (layout.clone(), ids));
    state.flip_layout(Axis::Horizontal).unwrap();
    assert_ne!(layout_of(&state), layout);
    state.flip_layout(Axis::Horizontal).unwrap();
    assert_eq!(layout_of(&state), layout);
}

#[test]
fn a_scale_of_one_changes_nothing_and_others_keep_the_order() {
    assert_eq!(scale_padding(14, Scale::one()), 14);
    assert_eq!(scale_padding(14, Scale::of_dpi(DEFAULT_DPI)), 14);
    assert_eq!(scale_padding(10, Scale::of_dpi(144)), 15);
    assert!(scale_padding(13, Scale::of_dpi(168)) <= scale_padding(14, Scale::of_dpi(168)));
    assert_eq!(
        Offset::new(10, -20, 30, 0).scaled(Scale::of_dpi(192)),
        Offset::new(20, -40, 60, 0)
    );
}

fn in_single_precision(length: i32, dpi: u32) -> i32 {
    let scale = dpi as f32 / DEFAULT_DPI as f32;
    if scale == 1.0 {
        return length;
    }
    (length as f32 * scale).round() as i32
}

#[test]
fn lengths_are_scaled_in_single_precision() {
    // Sixty pixels at 100 DPI are 62.5 in exact arithmetic and a little less here.
    assert_eq!(scale_padding(60, Scale::of_dpi(100)), 62);
    assert_eq!(scale_padding(-60, Scale::of_dpi(100)), -62);
    assert_eq!(scale_padding(1, Scale::of_dpi(144)), 2);
    assert_eq!(scale_padding(-1, Scale::of_dpi(144)), -2);
    assert_eq!(scale_padding(0, Scale::of_dpi(120)), 0);
    assert_eq!(
        Offset::new(0, 60, -60, 40).scaled(Scale::of_dpi(100)),
        Offset::new(0, 62, -62, 42)
    );
    for dpi in 1..=1000 {
        for length in -400..=400 {
            assert_eq!(
                scale_padding(length, Scale::of_dpi(dpi)),
                in_single_precision(length, dpi),
                "{length} at {dpi}"
            );
        }
    }
}

#[test]
fn long_lengths_and_high_densities_lose_the_same_bits() {
    let mut seed: u64 = 0x9e37_79b9_7f4a_7c15;
    for round in 0..400_000_u32 {
        seed ^= seed << 13;
        seed ^= seed >> 7;
        seed ^= seed << 17;
        let length = (seed as i32) >> (round % 31);
        let dpi = ((seed >> 32) as u32 >> (round % 29)).max(1);
        assert_eq!(
            scale_padding(length, Scale::of_dpi(dpi)),
            in_single_precision(length, dpi),
            "{length} at {dpi}"
        );
    }
    for length in [i32::MIN, i32::MIN + 1, -16_777_217, 16_777_217, 33_554_435, i32::MAX] {
        for dpi in [1, 2, 95, 96, 97, 100, 192, 16_777_217, u32::MAX - 1, u32::MAX] {
            assert_eq!(
                scale_padding(length, Scale::of_dpi(dpi)),
                in_single_precision(length, dpi),
                "{length} at {dpi}"
            );
        }
    }
    assert_eq!(scale_padding(i32::MAX, Scale::of_dpi(192)), i32::MAX);
    assert_eq!(scale_padding(i32::MIN, Scale::of_dpi(192)), i32::MIN);
    assert_eq!(scale_padding(16_777_217, Scale::of_dpi(192)), 33_554_432);
    assert_eq!(scale_padding(16_777_217, Scale::of_dpi(96)), 16_777_217);
}

#[test]
fn a_colour_survives_every_spelling() {
    let pink = Colour::new(0xff, 0x9e, 0xc4);
    assert_eq!(ColourRepr::Hex("#FF9EC4".to_owned()).colour(), Ok(pink));
    assert_eq!(ColourRepr::Channels { r: 0xff, g: 0x9e, b: 0xc4 }.colour(), Ok(pink));
    assert_eq!(ColourRepr::ColorRef(0x00c4_9eff).colour(), Ok(pink));
    assert_eq!(
        ColourRepr::Hex("pink".to_owned()).colour(),
        Err(Error::Parse { kind: "colour", value: "pink".to_owned() })
    );
    assert_eq!(Colour::parse(&pink.to_hex()), Ok(pink));
    assert_eq!(Colour::from_colorref(pink.to_colorref()), pink);
}

#[test]
fn a_floating_window_keeps_the_focus_while_the_tiles_are_stacked() {
    let mut state = desk(3);
    state.toggle_float().unwrap();
    assert_eq!(state.focused_window_id(), Some(WindowId(3)));
    state.stack_all().unwrap();
    assert_eq!(state.focused_workspace().unwrap().containers().len(), 1);
    assert_eq!(state.focused_window_id(), Some(WindowId(3)));
    state.unstack_all().unwrap();
    assert_eq!(state.focused_workspace().unwrap().containers().len(), 2);
    assert_eq!(state.focused_window_id(), Some(WindowId(3)));
}

#[test]
fn taking_in_a_workspace_does_not_steal_the_focus() {
    let mut other = Workspace::new();
    other.add_window(Window::new(8));
    other.add_floating_window(Window::new(9));

    let mut tiled = Workspace::new();
    tiled.add_window(Window::new(1));
    tiled.add_window(Window::new(2));
    tiled.absorb(other.clone());
    assert_eq!(tiled.focused_window_id(), Some(WindowId(2)));

    let mut floating = Workspace::new();
    floating.add_window(Window::new(1));
    floating.add_floating_window(Window::new(2));
    floating.absorb(other.clone());
    assert_eq!(floating.focused_window_id(), Some(WindowId(2)));

    let mut empty = Workspace::new();
    empty.absorb(other);
    assert_eq!(empty.focused_window_id(), Some(WindowId(8)));
}

#[test]
fn there_is_no_next_monitor_without_one() {
    let mut state = State::new();
    assert_eq!(
        state.cycle_monitor(CycleDirection::Next).unwrap_err(),
        Error::NoFocusedMonitor
    );
}

#[test]
fn a_rectangle_without_pixels_shares_none() {
    let area = Rect::new(0, 0, 10, 10);
    let line = Rect::new(5, 0, 5, 10);
    assert!(!area.intersects(&line));
    assert!(!line.intersects(&area));
    assert_eq!(area.intersection(&line), None);
    assert!(!line.intersects(&line));
    assert_eq!(area.intersection(&Rect::new(9, 9, 20, 20)), Some(Rect::new(9, 9, 10, 10)));
}
