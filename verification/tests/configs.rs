//! What a configuration does to a live state.

use std::collections::BTreeMap;

use mochi::animation::{AnimationStyle, DEFAULT_DURATION_MS, DEFAULT_FPS};
use mochi::config::{
    AnimationConfig, Colour, ColourRepr, Config, MonitorConfig, WorkspaceConfig,
};
use mochi::geometry::{Offset, Rect};
use mochi::layout::{Layout, MinSize, MIN_TILE_SIZE};
use mochi::model::{HidingBehaviour, Monitor, MoveBehaviour, State, Window};
use mochi::rules::{ApplicationIdentifier, MatchingRule, MatchingStrategy, WindowInfo};
use serde_json::Value;

fn number(value: &Value) -> Option<i32> {
    value.as_i64().map(|n| n as i32)
}

fn rect(value: &Value) -> Rect {
    let side = |key: &str| number(&value[key]).unwrap_or_default();
    Rect::new(side("left"), side("top"), side("right"), side("bottom"))
}

fn offset(value: &Value) -> Option<Offset> {
    if value.is_null() {
        return None;
    }
    let r = rect(value);
    Some(Offset::new(r.left, r.top, r.right, r.bottom))
}

fn layout(value: &Value) -> Option<Layout> {
    value.as_str().map(|name| Layout::parse(name).unwrap())
}

fn rule(value: &Value) -> MatchingRule {
    let kind = match value["kind"].as_str().unwrap() {
        "Exe" => ApplicationIdentifier::Exe,
        "Class" => ApplicationIdentifier::Class,
        "Title" => ApplicationIdentifier::Title,
        "Path" => ApplicationIdentifier::Path,
        other => panic!("{other}"),
    };
    let strategy = match value["matching_strategy"].as_str().unwrap() {
        "Equals" => MatchingStrategy::Equals,
        "Contains" => MatchingStrategy::Contains,
        "StartsWith" => MatchingStrategy::StartsWith,
        "EndsWith" => MatchingStrategy::EndsWith,
        "Regex" => MatchingStrategy::Regex,
        other => panic!("{other}"),
    };
    MatchingRule::simple(kind, value["id"].as_str().unwrap(), strategy)
}

fn rules(value: &Value) -> Option<Vec<MatchingRule>> {
    value.as_array().map(|list| list.iter().map(rule).collect())
}

fn workspace(value: &Value) -> WorkspaceConfig {
    WorkspaceConfig {
        name: value["name"].as_str().map(str::to_owned),
        layout: layout(&value["layout"]),
        workspace_padding: number(&value["workspace_padding"]),
        container_padding: number(&value["container_padding"]),
        layout_rules: value["layout_rules"].as_object().map(|list| {
            list.iter().map(|(k, v)| (k.parse().unwrap(), layout(v).unwrap())).collect()
        }),
        initial_workspace_rules: rules(&value["initial_workspace_rules"]),
        workspace_rules: rules(&value["workspace_rules"]),
        apply_window_based_work_area_offset: value["apply_window_based_work_area_offset"].as_bool(),
        float_override: value["float_override"].as_bool(),
        ..WorkspaceConfig::default()
    }
}

fn monitor(value: &Value) -> MonitorConfig {
    MonitorConfig {
        workspaces: value["workspaces"].as_array().unwrap().iter().map(workspace).collect(),
        work_area_offset: offset(&value["work_area_offset"]),
        window_based_work_area_offset_limit: value["window_based_work_area_offset_limit"]
            .as_u64()
            .map(|n| n as usize),
        ..MonitorConfig::default()
    }
}

/// The configuration a file of the keys used below stands for.
fn load(json: &str) -> Config {
    let value: Value = serde_json::from_str(json).expect("the file is JSON");
    let animation = &value["animation"];
    Config {
        window_hiding_behaviour: value["window_hiding_behaviour"].as_str().map(|name| match name {
            "Cloak" => HidingBehaviour::Cloak,
            other => panic!("{other}"),
        }),
        cross_monitor_move_behaviour: value["cross_monitor_move_behaviour"].as_str().map(|name| {
            match name {
                "Insert" => MoveBehaviour::Insert,
                other => panic!("{other}"),
            }
        }),
        mouse_follows_focus: value["mouse_follows_focus"].as_bool(),
        minimum_window_width: number(&value["minimum_window_width"]),
        minimum_window_height: number(&value["minimum_window_height"]),
        default_workspace_padding: number(&value["default_workspace_padding"]),
        default_container_padding: number(&value["default_container_padding"]),
        work_area_offset: offset(&value["work_area_offset"]),
        global_work_area_offset: offset(&value["global_work_area_offset"]),
        border: value["border"].as_bool(),
        border_width: number(&value["border_width"]),
        border_offset: number(&value["border_offset"]),
        animation: animation.as_object().map(|_| AnimationConfig {
            enabled: animation["enabled"].as_bool(),
            duration: animation["duration"].as_u64(),
            style: animation["style"].as_str().map(|name| AnimationStyle::parse(name).unwrap()),
            fps: animation["fps"].as_u64().map(|n| n as u32),
        }),
        ignore_rules: rules(&value["ignore_rules"]),
        monitors: value["monitors"].as_array().map(|list| list.iter().map(monitor).collect()),
        monitor_index_preferences: value["monitor_index_preferences"].as_object().map(|list| {
            list.iter().map(|(k, v)| (k.parse().unwrap(), rect(v))).collect::<BTreeMap<_, _>>()
        }),
        display_index_preferences: value["display_index_preferences"].as_object().map(|list| {
            list.iter()
                .map(|(k, v)| (k.parse().unwrap(), v.as_str().unwrap().to_owned()))
                .collect::<BTreeMap<_, _>>()
        }),
        ..Config::default()
    }
}

/// The colour a JSON value spells.
fn colour(json: &str) -> mochi::Result<Colour> {
    let value: Value = serde_json::from_str(json).unwrap();
    let repr = match &value {
        Value::String(text) => ColourRepr::Hex(text.clone()),
        Value::Number(raw) => ColourRepr::ColorRef(raw.as_u64().unwrap() as u32),
        _ => {
            let channel = |key: &str| value[key].as_u64().unwrap() as u8;
            ColourRepr::Channels { r: channel("r"), g: channel("g"), b: channel("b") }
        }
    };
    repr.colour()
}

/// A complete configuration file.
const REAL_CONFIG: &str = r##"{
  "$schema": "https://raw.githubusercontent.com/dominikkoenitzer/Mochi/main/schema.json",
  "app_specific_configuration_path": "$Env:USERPROFILE/applications.json",
  "window_hiding_behaviour": "Cloak",
  "cross_monitor_move_behaviour": "Insert",
  "mouse_follows_focus": false,
  "default_workspace_padding": 14,
  "default_container_padding": 10,
  "border": true,
  "border_width": 6,
  "border_offset": -1,
  "border_style": "Rounded",
  "transparency": true,
  "transparency_alpha": 235,
  "border_colours": {
"single": "#ffbbdf",
"stack": "#ffbbdf",
"monocle": "#ffbbdf",
"floating": "#ffbbdf",
"unfocused": "#313244"
  },
  "animation": {
"enabled": true,
"duration": 250,
"style": "EaseOutQuad",
"fps": 60
  },
  "ignore_rules": [
{ "kind": "Path", "id": "steamapps\\common", "matching_strategy": "Contains" },
{ "kind": "Path", "id": "Epic Games", "matching_strategy": "Contains" },
{ "kind": "Path", "id": "Riot Games", "matching_strategy": "Contains" },
{ "kind": "Exe", "id": "RobloxPlayerBeta.exe", "matching_strategy": "Equals" },
{ "kind": "Path", "id": "XboxGames", "matching_strategy": "Contains" },
{ "kind": "Path", "id": "EA Games", "matching_strategy": "Contains" },
{ "kind": "Exe", "id": "wallpaper32.exe", "matching_strategy": "Equals" },
{ "kind": "Exe", "id": "wallpaper64.exe", "matching_strategy": "Equals" },
{ "kind": "Exe", "id": "zebar.exe", "matching_strategy": "Equals" },
{ "kind": "Exe", "id": "TranslucentTB.exe", "matching_strategy": "Equals" },
{ "kind": "Exe", "id": "PowerToys.PowerAccent.exe", "matching_strategy": "Equals" },
{ "kind": "Title", "id": "[Pp]icture.in.[Pp]icture", "matching_strategy": "Regex" },
{ "kind": "Title", "id": " - Peek", "matching_strategy": "EndsWith" }
  ],
  "monitors": [
{
  "workspaces": [
    { "name": "1", "layout": "BSP" },
    { "name": "2", "layout": "BSP" },
    { "name": "3", "layout": "BSP" },
    { "name": "4", "layout": "BSP" },
    { "name": "5", "layout": "BSP" },
    { "name": "6", "layout": "BSP" },
    { "name": "7", "layout": "BSP" },
    { "name": "8", "layout": "BSP" },
    { "name": "9", "layout": "BSP" }
  ]
},
{
  "workspaces": [
    { "name": "1", "layout": "BSP" },
    { "name": "2", "layout": "BSP" },
    { "name": "3", "layout": "BSP" },
    { "name": "4", "layout": "BSP" },
    { "name": "5", "layout": "BSP" },
    { "name": "6", "layout": "BSP" },
    { "name": "7", "layout": "BSP" },
    { "name": "8", "layout": "BSP" },
    { "name": "9", "layout": "BSP" }
  ]
}
  ]
}"##;

/// The file again, with the two keys that pin entries to displays.
///
/// The first entry is pinned to the 4K main screen, the second to the
/// portrait panel. The portrait entry carries marks that say which entry
/// it is, a portrait layout and its own padding, because that is exactly
/// what must never end up on the 4K screen.
const PINNED_CONFIG: &str = r##"{
  "$schema": "https://raw.githubusercontent.com/dominikkoenitzer/Mochi/main/schema.json",
  "app_specific_configuration_path": "$Env:USERPROFILE/applications.json",
  "window_hiding_behaviour": "Cloak",
  "cross_monitor_move_behaviour": "Insert",
  "mouse_follows_focus": false,
  "default_workspace_padding": 14,
  "default_container_padding": 10,
  "display_index_preferences": {
"0": "Odyssey G8",
"1": "AW2521HF"
  },
  "monitors": [
{
  "workspaces": [
    { "name": "1", "layout": "BSP" },
    { "name": "2", "layout": "BSP" },
    { "name": "3", "layout": "BSP" },
    { "name": "4", "layout": "BSP" },
    { "name": "5", "layout": "BSP" },
    { "name": "6", "layout": "BSP" },
    { "name": "7", "layout": "BSP" },
    { "name": "8", "layout": "BSP" },
    { "name": "9", "layout": "BSP" }
  ]
},
{
  "workspaces": [
    { "name": "1", "layout": "Rows", "workspace_padding": 6 },
    { "name": "2", "layout": "Rows", "workspace_padding": 6 },
    { "name": "3", "layout": "Rows", "workspace_padding": 6 },
    { "name": "4", "layout": "Rows", "workspace_padding": 6 },
    { "name": "5", "layout": "Rows", "workspace_padding": 6 },
    { "name": "6", "layout": "Rows", "workspace_padding": 6 },
    { "name": "7", "layout": "Rows", "workspace_padding": 6 },
    { "name": "8", "layout": "Rows", "workspace_padding": 6 },
    { "name": "9", "layout": "Rows", "workspace_padding": 6 }
  ]
}
  ]
}"##;

#[test]
fn the_real_config_keeps_the_animation_settings() {
    let config = load(REAL_CONFIG);
    let animation = config.animation.expect("animation");
    assert!(animation.is_enabled());
    assert_eq!(animation.duration_ms(), 250);
    assert_eq!(animation.style(), AnimationStyle::EaseOutQuad);
    assert_eq!(animation.fps(), 60);
}

#[test]
fn the_real_config_keeps_every_ignore_rule() {
    let config = load(REAL_CONFIG);
    let sets = config.rule_sets();
    assert_eq!(sets.ignore_rules.len(), 13);
    assert!(sets.validate().is_empty(), "every regex compiles");

    assert!(sets.should_ignore(&WindowInfo::new(
        "Game",
        "",
        "game.exe",
        r"D:\SteamLibrary\steamapps\common\Game\game.exe"
    )));
    assert!(sets.should_ignore(&WindowInfo::new("", "", "zebar.exe", "")));
    assert!(sets.should_ignore(&WindowInfo::new(
        "Picture-in-Picture",
        "",
        "firefox.exe",
        ""
    )));
    assert!(sets.should_ignore(&WindowInfo::new("shot.png - Peek", "", "Peek.exe", "")));
    assert!(!sets.should_ignore(&WindowInfo::new(
        "README.md",
        "",
        "Code.exe",
        r"C:\Program Files\Code.exe"
    )));
}

#[test]
fn colours_parse_from_every_accepted_shape() {
    assert_eq!(
        Colour::parse("#ffbbdf").unwrap(),
        Colour::new(255, 187, 223)
    );
    assert_eq!(Colour::parse("ffbbdf").unwrap(), Colour::new(255, 187, 223));
    assert_eq!(
        Colour::parse("#FFBBDF").unwrap(),
        Colour::new(255, 187, 223)
    );
    assert_eq!(Colour::parse("#f0a").unwrap(), Colour::new(255, 0, 170));
    assert_eq!(
        Colour::parse("  #ffbbdf  ").unwrap(),
        Colour::new(255, 187, 223)
    );
    assert!(Colour::parse("#ff").is_err());
    assert!(Colour::parse("pink").is_err());
    assert!(Colour::parse("#gggggg").is_err());

    assert_eq!(
        colour(r#"{"r":255,"g":187,"b":223}"#).unwrap(),
        Colour::new(255, 187, 223)
    );
    assert_eq!(
        colour("14662655").unwrap(),
        Colour::from_colorref(14_662_655)
    );
    assert!(colour(r#""nope""#).is_err());
}

#[test]
fn colours_serialise_as_hex() {
    let pink = Colour::new(255, 187, 223);
    assert_eq!(pink.to_hex(), "#ffbbdf");
    assert_eq!(pink.to_string(), "#ffbbdf");
    assert_eq!(colour("\"#ffbbdf\"").unwrap(), pink);
    assert_eq!("#ffbbdf".parse::<Colour>().unwrap(), pink);
}

#[test]
fn colours_convert_to_win32_and_back() {
    let pink = Colour::new(255, 187, 223);
    assert_eq!(pink.to_rgb(), 0x00ff_bbdf);
    assert_eq!(pink.to_colorref(), 0x00df_bbff);
    assert_eq!(Colour::from_colorref(pink.to_colorref()), pink);
    assert_eq!(Colour::default(), Colour::new(0, 0, 0));
}

#[test]
fn animation_defaults_are_sane() {
    let animation = AnimationConfig::default();
    assert!(!animation.is_enabled());
    assert_eq!(animation.duration_ms(), DEFAULT_DURATION_MS);
    assert_eq!(animation.fps(), DEFAULT_FPS);
    assert_eq!(animation.style(), AnimationStyle::Linear);
}

#[test]
fn layout_rules_and_workspace_rules_deserialise() {
    let config = load(r#"{
            "monitors": [{
                "workspaces": [{
                    "name": "code",
                    "layout": "VerticalStack",
                    "workspace_padding": 20,
                    "container_padding": 5,
                    "layout_rules": { "1": "BSP", "3": "Columns" },
                    "initial_workspace_rules": [
                        { "kind": "Exe", "id": "Code.exe", "matching_strategy": "Equals" }
                    ],
                    "workspace_rules": [
                        { "kind": "Exe", "id": "firefox.exe", "matching_strategy": "Equals" }
                    ],
                    "apply_window_based_work_area_offset": true,
                    "float_override": true
                }],
                "work_area_offset": { "left": 0, "top": 40, "right": 0, "bottom": 0 },
                "window_based_work_area_offset_limit": 2
            }]
        }"#);

    let monitor = &config.monitors.as_ref().unwrap()[0];
    assert_eq!(monitor.work_area_offset, Some(Offset::new(0, 40, 0, 0)));
    assert_eq!(monitor.window_based_work_area_offset_limit, Some(2));

    let workspace = &monitor.workspaces[0];
    assert_eq!(workspace.layout, Some(Layout::VerticalStack));
    assert_eq!(workspace.workspace_padding, Some(20));
    assert_eq!(workspace.container_padding, Some(5));
    let rules = workspace.layout_rules.as_ref().unwrap();
    assert_eq!(rules.get(&1), Some(&Layout::Bsp));
    assert_eq!(rules.get(&3), Some(&Layout::Columns));

    // One monitor, no preferences, so the entry configures the monitor at
    // its own position exactly as it always did.
    let mut state = State::new();
    state.add_monitor(Monitor::new(
        1,
        Rect::new(0, 0, 3840, 2160),
        Rect::new(0, 0, 3840, 2160),
    ));
    let all = config.workspace_rules(&state);
    assert_eq!(all.len(), 2);
    assert_eq!(all[0].0, 0);
    assert_eq!(all[0].1, 0);
    assert!(all[0].3, "the first one is an initial rule");
    assert!(!all[1].3);
}

#[test]
fn either_work_area_offset_spelling_works() {
    let a = load(r#"{"work_area_offset":{"top":40}}"#);
    assert_eq!(a.work_area_offset(), Some(Offset::new(0, 40, 0, 0)));
    let b = load(r#"{"global_work_area_offset":{"top":40}}"#);
    assert_eq!(b.work_area_offset(), Some(Offset::new(0, 40, 0, 0)));
    assert_eq!(Config::default().work_area_offset(), None);
}

#[test]
fn applying_the_real_config_configures_a_live_state() {
    let config = load(REAL_CONFIG);
    let mut state = State::new();
    state.add_monitor(Monitor::new(
        1,
        Rect::new(0, 0, 3840, 2160),
        Rect::new(0, 0, 3840, 2120),
    ));
    state.add_monitor(Monitor::new(
        2,
        Rect::new(3840, 0, 4920, 1920),
        Rect::new(3840, 0, 4920, 1880),
    ));

    config.apply_to(&mut state);

    assert_eq!(state.window_hiding_behaviour, HidingBehaviour::Cloak);
    assert_eq!(state.cross_monitor_move_behaviour, MoveBehaviour::Insert);
    assert!(!state.mouse_follows_focus);
    assert_eq!(state.default_workspace_padding, 14);
    assert_eq!(state.default_container_padding, 10);
    assert_eq!(state.rules.ignore_rules.len(), 13);

    for monitor_idx in 0..2 {
        let monitor = state.monitors().get(monitor_idx).unwrap();
        assert_eq!(monitor.workspaces().len(), 9);
        for workspace_idx in 0..9 {
            let workspace = monitor.workspaces().get(workspace_idx).unwrap();
            assert_eq!(workspace.layout, Layout::Bsp);
            assert_eq!(
                workspace.name.as_deref(),
                Some((workspace_idx + 1).to_string().as_str())
            );
        }
    }
}

/// His 4K main screen, as the platform reports it. `gdi` is the GDI device
/// name, the thing that can swap when `DisplayPort` renegotiates.
fn odyssey_4k(id: isize, gdi: &str) -> Monitor {
    Monitor::new(id, Rect::new(0, 0, 3840, 2160), Rect::new(0, 0, 3840, 2120))
        .with_name(gdi.trim_start_matches(r"\\.\"))
        .with_device(gdi, "Odyssey G8")
}

/// His 1080p secondary, rotated into portrait, to the right of the 4K one.
fn aw2521hf_portrait(id: isize, gdi: &str) -> Monitor {
    Monitor::new(
        id,
        Rect::new(3840, 0, 4920, 1920),
        Rect::new(3840, 0, 4920, 1880),
    )
    .with_name(gdi.trim_start_matches(r"\\.\"))
    .with_device(gdi, "AW2521HF")
}

/// The marks that say a monitor got the portrait entry of [`PINNED_CONFIG`].
fn is_portrait_entry(monitor: &Monitor) -> bool {
    monitor.workspaces().len() == 9
        && monitor
            .workspaces()
            .iter()
            .all(|w| w.layout == Layout::Rows && w.workspace_padding == Some(6))
}

/// The marks that say a monitor got the 4K entry of [`PINNED_CONFIG`].
fn is_main_entry(monitor: &Monitor) -> bool {
    monitor.workspaces().len() == 9
        && monitor
            .workspaces()
            .iter()
            .all(|w| w.layout == Layout::Bsp && w.workspace_padding.is_none())
}

/// The name of the first workspace on a monitor, which is how the smaller
/// tests below say which entry that monitor got.
fn first_workspace_name(state: &State, monitor: usize) -> Option<String> {
    state
        .monitors()
        .get(monitor)
        .unwrap()
        .workspaces()
        .get(0)
        .unwrap()
        .name
        .clone()
}

#[test]
fn his_displays_in_the_enumeration_order_windows_usually_reports() {
    let config = load(PINNED_CONFIG);
    let mut state = State::new();
    state.add_monitor(odyssey_4k(1, r"\\.\DISPLAY1"));
    state.add_monitor(aw2521hf_portrait(2, r"\\.\DISPLAY2"));

    config.apply_to(&mut state);

    assert!(is_main_entry(state.monitors().get(0).unwrap()));
    assert!(is_portrait_entry(state.monitors().get(1).unwrap()));
}

#[test]
fn his_displays_in_the_other_order_still_get_the_entries_meant_for_them() {
    // The DisplayPort renegotiation case: Windows enumerates the portrait
    // panel first, so a positional match puts its nine workspaces, its
    // layout and its padding on the 4K screen.
    let config = load(PINNED_CONFIG);
    let mut state = State::new();
    state.add_monitor(aw2521hf_portrait(2, r"\\.\DISPLAY1"));
    state.add_monitor(odyssey_4k(1, r"\\.\DISPLAY2"));

    config.apply_to(&mut state);

    let portrait = state.monitors().get(0).unwrap();
    let main = state.monitors().get(1).unwrap();
    assert_eq!(portrait.device_id, "AW2521HF");
    assert_eq!(main.device_id, "Odyssey G8");
    assert!(
        is_portrait_entry(portrait),
        "the portrait panel got the wrong entry"
    );
    assert!(is_main_entry(main), "the 4K screen got the portrait entry");
}

#[test]
fn an_entry_pinned_to_a_display_that_is_not_attached_is_held() {
    // Only the portrait panel is plugged in. The entry for the 4K screen
    // has to wait for the 4K screen rather than land on the panel.
    let config = load(PINNED_CONFIG);
    let mut state = State::new();
    state.add_monitor(aw2521hf_portrait(2, r"\\.\DISPLAY1"));

    config.apply_to(&mut state);

    assert!(
        is_portrait_entry(state.monitors().get(0).unwrap()),
        "the only attached display got the entry for the one that is not"
    );
}

#[test]
fn a_rectangle_preference_pins_an_entry_to_the_display_at_that_position() {
    let config = load(r#"{
            "monitor_index_preferences": {
                "0": { "left": 0, "top": 0, "right": 3840, "bottom": 2160 },
                "1": { "left": 3840, "top": 0, "right": 4920, "bottom": 1920 }
            },
            "monitors": [
                { "workspaces": [{ "name": "main", "layout": "BSP" }] },
                { "workspaces": [{ "name": "side", "layout": "Rows" }] }
            ]
        }"#);
    let mut state = State::new();
    state.add_monitor(aw2521hf_portrait(2, r"\\.\DISPLAY1"));
    state.add_monitor(odyssey_4k(1, r"\\.\DISPLAY2"));

    config.apply_to(&mut state);

    assert_eq!(first_workspace_name(&state, 0).as_deref(), Some("side"));
    assert_eq!(first_workspace_name(&state, 1).as_deref(), Some("main"));
}

#[test]
fn a_rectangle_that_matches_no_attached_display_holds_the_entry() {
    let config = load(r#"{
            "monitor_index_preferences": {
                "0": { "left": 0, "top": 0, "right": 1280, "bottom": 1024 }
            },
            "monitors": [
                { "workspaces": [{ "name": "elsewhere", "layout": "BSP" }] }
            ]
        }"#);
    let mut state = State::new();
    state.add_monitor(odyssey_4k(1, r"\\.\DISPLAY1"));

    config.apply_to(&mut state);

    assert_eq!(
        first_workspace_name(&state, 0),
        None,
        "an entry pinned to a display that is not attached was applied anyway"
    );
}

#[test]
fn a_display_preference_beats_a_rectangle_preference_for_the_same_entry() {
    let config = load(r#"{
            "monitor_index_preferences": {
                "0": { "left": 0, "top": 0, "right": 3840, "bottom": 2160 }
            },
            "display_index_preferences": { "0": "AW2521HF" },
            "monitors": [
                { "workspaces": [{ "name": "pinned", "layout": "BSP" }] }
            ]
        }"#);
    let mut state = State::new();
    state.add_monitor(odyssey_4k(1, r"\\.\DISPLAY1"));
    state.add_monitor(aw2521hf_portrait(2, r"\\.\DISPLAY2"));

    config.apply_to(&mut state);

    assert_eq!(
        first_workspace_name(&state, 1).as_deref(),
        Some("pinned"),
        "the display id has to win over the rectangle"
    );
    assert_eq!(first_workspace_name(&state, 0), None);
}

#[test]
fn an_entry_that_names_neither_key_still_matches_by_position() {
    // The behaviour every config without a preference relies on.
    let config = load(r#"{
            "monitors": [
                { "workspaces": [{ "name": "first", "layout": "BSP" }] },
                { "workspaces": [{ "name": "second", "layout": "Rows" }] }
            ]
        }"#);
    let mut state = State::new();
    state.add_monitor(aw2521hf_portrait(2, r"\\.\DISPLAY1"));
    state.add_monitor(odyssey_4k(1, r"\\.\DISPLAY2"));

    config.apply_to(&mut state);

    assert_eq!(first_workspace_name(&state, 0).as_deref(), Some("first"));
    assert_eq!(first_workspace_name(&state, 1).as_deref(), Some("second"));
}

#[test]
fn an_unpinned_entry_takes_a_monitor_no_pin_claimed() {
    // One entry pinned, one not. The unpinned one fills what is left
    // rather than fighting the pin for the same display.
    let config = load(r#"{
            "display_index_preferences": { "0": "AW2521HF" },
            "monitors": [
                { "workspaces": [{ "name": "pinned", "layout": "BSP" }] },
                { "workspaces": [{ "name": "rest", "layout": "Rows" }] }
            ]
        }"#);
    let mut state = State::new();
    state.add_monitor(odyssey_4k(1, r"\\.\DISPLAY1"));
    state.add_monitor(aw2521hf_portrait(2, r"\\.\DISPLAY2"));

    config.apply_to(&mut state);

    assert_eq!(first_workspace_name(&state, 1).as_deref(), Some("pinned"));
    assert_eq!(first_workspace_name(&state, 0).as_deref(), Some("rest"));
}

#[test]
fn a_workspace_rule_routes_to_the_monitor_its_entry_is_pinned_to() {
    // The first entry is pinned to the portrait panel, which Windows
    // enumerates second, so the rule written under it has to open its
    // windows on monitor one.
    let config = load(r#"{
            "display_index_preferences": { "0": "AW2521HF" },
            "monitors": [
                {
                    "workspaces": [{
                        "name": "portrait",
                        "workspace_rules": [
                            { "kind": "Exe", "id": "firefox.exe", "matching_strategy": "Equals" }
                        ]
                    }]
                },
                { "workspaces": [{ "name": "main" }] }
            ]
        }"#);
    let mut state = State::new();
    state.add_monitor(odyssey_4k(1, r"\\.\DISPLAY1"));
    state.add_monitor(aw2521hf_portrait(2, r"\\.\DISPLAY2"));

    let rules = config.workspace_rules(&state);

    assert_eq!(rules.len(), 1);
    assert_eq!(
        rules[0].0, 1,
        "the rule routed by the index of its entry, not by the display it is pinned to"
    );
}

#[test]
fn a_workspace_rule_under_an_entry_whose_display_is_gone_routes_nowhere() {
    // Only the 4K screen is plugged in. `apply_to` holds the portrait
    // entry back rather than configuring the 4K screen with it, and its
    // rule has to be held back with it.
    let config = load(r#"{
            "display_index_preferences": { "0": "AW2521HF" },
            "monitors": [
                {
                    "workspaces": [{
                        "name": "portrait",
                        "workspace_rules": [
                            { "kind": "Exe", "id": "firefox.exe", "matching_strategy": "Equals" }
                        ]
                    }]
                }
            ]
        }"#);
    let mut state = State::new();
    state.add_monitor(odyssey_4k(1, r"\\.\DISPLAY1"));

    assert!(
        config.workspace_rules(&state).is_empty(),
        "a rule for a display that is not attached opened windows on the 4K screen"
    );
}

#[test]
fn two_panels_of_the_same_model_share_one_device_id() {
    // `device_id` is the model name from `EnumDisplayDevicesW`, not a
    // serial, so this key cannot tell two identical panels apart: the
    // first unclaimed one wins and the other entry falls back to the
    // monitor left over. Pin one of them by rectangle instead.
    let config = load(r#"{
            "display_index_preferences": { "0": "Generic PnP Monitor" },
            "monitors": [
                { "workspaces": [{ "name": "one", "layout": "BSP" }] },
                { "workspaces": [{ "name": "two", "layout": "Rows" }] }
            ]
        }"#);
    let mut state = State::new();
    state.add_monitor(
        Monitor::new(1, Rect::new(0, 0, 1920, 1080), Rect::new(0, 0, 1920, 1040))
            .with_device(r"\\.\DISPLAY1", "Generic PnP Monitor"),
    );
    state.add_monitor(
        Monitor::new(
            2,
            Rect::new(1920, 0, 3840, 1080),
            Rect::new(1920, 0, 3840, 1040),
        )
        .with_device(r"\\.\DISPLAY2", "Generic PnP Monitor"),
    );

    config.apply_to(&mut state);

    assert_eq!(first_workspace_name(&state, 0).as_deref(), Some("one"));
    assert_eq!(first_workspace_name(&state, 1).as_deref(), Some("two"));
}

/// A state with one 4K screen and one workspace holding `len` windows,
/// configured by `json`.
fn tiled(json: &str, layout: Layout, len: isize) -> (State, Rect) {
    let config = load(json);
    let mut state = State::new();
    state.add_monitor(Monitor::new(
        1,
        Rect::new(0, 0, 3840, 2160),
        Rect::new(0, 0, 3840, 2160),
    ));
    state
        .monitors_mut()
        .get_mut(0)
        .expect("the monitor is there")
        .ensure_workspaces(1);
    config.apply_to(&mut state);

    let work_area = state.work_area_for(0, 0).expect("a work area");
    let workspace_padding = state.default_workspace_padding;
    let container_padding = state.default_container_padding;
    let workspace = state.workspace_mut(0, 0).expect("the workspace");
    workspace.layout = layout;
    for id in 1..=len {
        workspace.add_window(Window::new(id));
    }
    workspace.update_layout(work_area, workspace_padding, container_padding);
    (state, work_area)
}

/// The tiles of the only workspace of `state`.
fn tiles(state: &State) -> Vec<Rect> {
    state.workspace(0, 0).unwrap().latest_layout().to_vec()
}

#[test]
fn a_configured_minimum_is_the_floor_every_tile_keeps() {
    // Twelve containers on a 4K screen: BSP squeezes the last of them down
    // to 64x67, right onto the old hardcoded floor, which is what makes a
    // configurable one worth having and this test worth reading.
    const NO_PADDING: &str =
        r#"{ "default_workspace_padding": 0, "default_container_padding": 0"#;
    let (loose, _) = tiled(&format!("{NO_PADDING} }}"), Layout::Bsp, 12);
    assert!(
        tiles(&loose)
            .iter()
            .any(|rect| rect.width() < 300 || rect.height() < 300),
        "without the key nothing is squeezed, so the floor proves nothing"
    );

    let (state, _) = tiled(
        &format!(
            "{NO_PADDING}, \"minimum_window_width\": 300, \"minimum_window_height\": 250 }}"
        ),
        Layout::Bsp,
        12,
    );
    assert_eq!(state.minimum_window_width, 300);
    assert_eq!(state.minimum_window_height, 250);
    assert_eq!(
        state.workspace(0, 0).unwrap().minimum_tile_size(),
        MinSize {
            width: 300,
            height: 250
        },
        "each axis keeps its own floor"
    );

    for (idx, rect) in tiles(&state).iter().enumerate() {
        assert!(
            rect.width() >= 300 && rect.height() >= 250,
            "tile {idx} is {}x{}, below the configured floor",
            rect.width(),
            rect.height()
        );
    }

    // The two are genuinely independent. The proof is a tile that is
    // shorter than the *width* floor: if one number bound both axes, the
    // larger would have raised every height to 300 as well.
    assert!(
        tiles(&state).iter().any(|rect| rect.height() < 300),
        "no tile is shorter than the width floor, so the two axes are not              independent and a height of 250 was silently raised to 300"
    );
}

#[test]
fn a_config_without_the_minimum_tiles_exactly_as_it_always_did() {
    // The layout the crate computed before the key existed, from the entry
    // point that still hardcodes MIN_TILE_SIZE.
    for layout in Layout::ALL {
        for len in 1..=12_isize {
            let (state, work_area) = tiled(r#"{}"#, layout, len);
            let workspace = state.workspace(0, 0).unwrap();
            assert_eq!(
                workspace.minimum_tile_size(),
                MinSize::square(MIN_TILE_SIZE)
            );
            let expected = layout.calculate(
                work_area.padded_clamped(state.default_workspace_padding),
                len as usize,
                state.default_container_padding,
                workspace.layout_flip,
                &workspace.resize_dimensions,
            );
            assert_eq!(tiles(&state), expected, "{layout:?} with {len} containers");
        }
    }
}

#[test]
fn a_minimum_larger_than_the_screen_still_tiles_the_area_exactly() {
    // Absurd values are the user's to type. The layouts scale a minimum
    // that cannot fit back down, so the worst this can do is give every
    // tile an equal share, never a panic and never an inverted rectangle.
    for minimum in [100_000, i32::MAX] {
        let json = format!(
            r#"{{ "default_workspace_padding": 0, "default_container_padding": 0,
                  "minimum_window_width": {minimum}, "minimum_window_height": 1 }}"#
        );
        for layout in Layout::ALL {
            for len in 1..=12_isize {
                let (state, _) = tiled(&json, layout, len);
                let rects = tiles(&state);
                assert_eq!(rects.len(), len as usize);
                let mut covered = 0_i64;
                for rect in &rects {
                    assert!(
                        rect.right >= rect.left && rect.bottom >= rect.top,
                        "{layout:?} with {len} containers inverted a tile: {rect:?}"
                    );
                    assert!(
                        rect.left >= 0
                            && rect.top >= 0
                            && rect.right <= 3840
                            && rect.bottom <= 2160,
                        "{layout:?} with {len} containers left the screen: {rect:?}"
                    );
                    covered += i64::from(rect.width()) * i64::from(rect.height());
                }
                assert_eq!(
                    covered,
                    3840 * 2160,
                    "{layout:?} with {len} containers stopped tiling its area exactly"
                );
            }
        }
    }
}

#[test]
fn applying_a_config_leaves_unset_keys_alone() {
    let mut state = State::new();
    state.default_container_padding = 42;
    Config::default().apply_to(&mut state);
    assert_eq!(state.default_container_padding, 42);
    assert_eq!(state.window_hiding_behaviour, HidingBehaviour::Cloak);
}

#[test]
fn applying_a_config_twice_is_applying_it_once() {
    let config = load(r#"{
            "resize_delta": 30,
            "default_workspace_padding": 6,
            "display_index_preferences": { "0": "AW2521HF" },
            "monitors": [
                { "workspaces": [
                    { "name": "side", "layout": "Rows" },
                    { "name": "chat", "layout": "Columns" }
                ] },
                { "workspaces": [{ "name": "main", "layout": "BSP" }] }
            ]
        }"#);
    let mut state = State::new();
    state.default_container_padding = 42;
    state.add_monitor(odyssey_4k(1, r"\\.\DISPLAY1"));
    state.add_monitor(aw2521hf_portrait(2, r"\\.\DISPLAY2"));
    for id in 1..=3 {
        state.add_window(Window::new(id)).unwrap();
    }
    let windows = state.all_window_ids();

    config.apply_to(&mut state);
    let once = state.clone();
    config.apply_to(&mut state);

    assert_eq!(state, once);
    assert_eq!(state.resize_delta, 30);
    assert_eq!(state.default_workspace_padding, 6);
    assert_eq!(state.default_container_padding, 42);
    assert_eq!(state.rules, config.rule_sets());
    assert_eq!(state.all_window_ids(), windows);
    assert_eq!(state.monitors().len(), 2);
    assert_eq!(first_workspace_name(&state, 0).as_deref(), Some("main"));
    assert_eq!(first_workspace_name(&state, 1).as_deref(), Some("side"));
}

#[test]
fn a_config_with_more_monitors_than_the_machine_has_is_fine() {
    let config = load(REAL_CONFIG);
    let mut state = State::new();
    config.apply_to(&mut state);
    assert!(state.monitors().is_empty());
}

