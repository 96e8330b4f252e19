use quick_action_hud::action::EditorAction;
use quick_action_hud::apply::apply_action;
use quick_action_hud::capture::{editor_text_input, TextKey};
use quick_action_hud::config::FloatBits;
use quick_action_hud::model::{wheel_entry_idx, QuickActionConfig, RadialMenu, SetEntry, WheelTheme};
use quick_action_hud::navigation::active_edit_wheel;
use quick_action_hud::shortcuts::{hud_wheel_nav, FrameInput};
use quick_action_hud::sidebar::sidebar_rows;
use quick_action_hud::state::{EditFocus, EditorUiState, Selection, WheelHudState};

/// One page holding one radial menu set of two radial menus.
fn two_menus() -> (QuickActionConfig, EditorUiState, WheelHudState) {
    let mut cfg = QuickActionConfig::default();
    let mut ui = EditorUiState::default();
    let mut hud = WheelHudState::default();
    apply_action(&EditorAction::AddSet, &mut cfg, &mut ui, &mut hud);
    apply_action(&EditorAction::AddWheelSet { set: 0 }, &mut cfg, &mut ui, &mut hud);
    apply_action(&EditorAction::AddWheelToSet { set: 0, entry: 0 }, &mut cfg, &mut ui, &mut hud);
    (cfg, ui, hud)
}

fn menu(cfg: &QuickActionConfig, wheel: usize) -> &RadialMenu {
    match &cfg.sets[0].entries[0] {
        SetEntry::RadialMenuSet(ws) => &ws.radial_menus[wheel],
        _ => panic!("expected a radial menu set"),
    }
}

fn menu_mut(cfg: &mut QuickActionConfig, wheel: usize) -> &mut RadialMenu {
    match &mut cfg.sets[0].entries[0] {
        SetEntry::RadialMenuSet(ws) => &mut ws.radial_menus[wheel],
        _ => panic!("expected a radial menu set"),
    }
}

fn frame(just: &[&str]) -> FrameInput {
    FrameInput { just_pressed: just.iter().map(|s| s.to_string()).collect(), held: Vec::new(), buttons: Vec::new() }
}

#[test]
fn editing_a_menu_gives_its_look_to_the_whole_set() {
    let (mut cfg, mut ui, mut hud) = two_menus();
    apply_action(&EditorAction::SelectWheel { set: 0, entry: 0, wheel: Some(0) }, &mut cfg, &mut ui, &mut hud);
    apply_action(&EditorAction::WheelOpacityDelta { value: FloatBits(0x3f00_0000) }, &mut cfg, &mut ui, &mut hud);
    assert_eq!(menu(&cfg, 0).opacity, FloatBits(0x3f00_0000));
    assert_eq!(menu(&cfg, 1).opacity, FloatBits(0x3f00_0000));
    assert_eq!(menu(&cfg, 0).name, "Radial menu 1");
    assert_eq!(menu(&cfg, 1).name, "Radial menu 2");
}

#[test]
fn selecting_a_menu_spreads_its_look() {
    let (mut cfg, mut ui, mut hud) = two_menus();
    menu_mut(&mut cfg, 1).outer_border = "Red".to_string();
    menu_mut(&mut cfg, 1).offset_x = FloatBits(0x4120_0000);
    menu_mut(&mut cfg, 0).stick_binding = "GP:RightStick".to_string();
    apply_action(&EditorAction::SelectWheel { set: 0, entry: 0, wheel: Some(0) }, &mut cfg, &mut ui, &mut hud);
    assert_eq!(menu(&cfg, 1).outer_border, menu(&cfg, 0).outer_border);
    assert_eq!(menu(&cfg, 1).offset_x, menu(&cfg, 0).offset_x);
    assert_eq!(menu(&cfg, 1).stick_binding, "GP:RightStick");
    match &cfg.sets[0].entries[0] {
        SetEntry::RadialMenuSet(ws) => assert_eq!(ws.stick_binding, "GP:RightStick"),
        _ => panic!("expected a radial menu set"),
    }
    // Selecting the set itself spreads nothing.
    menu_mut(&mut cfg, 1).outer_border = "Blue".to_string();
    apply_action(&EditorAction::SelectWheelSetEntry { set: 0, entry: 0 }, &mut cfg, &mut ui, &mut hud);
    assert_eq!(menu(&cfg, 1).outer_border, "Blue");
}

#[test]
fn typing_a_menu_name_spreads_its_look_but_not_its_name() {
    let (mut cfg, mut ui, mut hud) = two_menus();
    apply_action(&EditorAction::SelectWheel { set: 0, entry: 0, wheel: Some(1) }, &mut cfg, &mut ui, &mut hud);
    menu_mut(&mut cfg, 1).theme = WheelTheme(2);
    ui.editing = EditFocus::WheelName;
    editor_text_input(&mut cfg, &mut ui, &mut hud, &vec![TextKey::Character("x".to_string())]);
    assert_eq!(menu(&cfg, 1).name, "Radial menu 2x");
    assert_eq!(menu(&cfg, 0).name, "Radial menu 1");
    assert_eq!(menu(&cfg, 0).theme, WheelTheme(2));
}

#[test]
fn an_added_menu_takes_the_look_of_the_set() {
    let (mut cfg, mut ui, mut hud) = two_menus();
    menu_mut(&mut cfg, 0).theme = WheelTheme(3);
    menu_mut(&mut cfg, 0).hub_color = "Gold".to_string();
    apply_action(&EditorAction::AddWheelToSet { set: 0, entry: 0 }, &mut cfg, &mut ui, &mut hud);
    assert_eq!(menu(&cfg, 2).theme, WheelTheme(3));
    assert_eq!(menu(&cfg, 2).hub_color, "Gold");
    assert_eq!(menu(&cfg, 2).name, "Radial menu 3");
}

/// One page holding two standalone radial menus.
fn standalone() -> QuickActionConfig {
    let mut cfg = QuickActionConfig::default();
    let mut ui = EditorUiState::default();
    let mut hud = WheelHudState::default();
    apply_action(&EditorAction::AddSet, &mut cfg, &mut ui, &mut hud);
    cfg.sets[0].entries.push(SetEntry::Wheel(RadialMenu::new("Solo".to_string(), 4)));
    cfg.sets[0].entries.push(SetEntry::Wheel(RadialMenu::new("Duo".to_string(), 3)));
    cfg
}

#[test]
fn standalone_menus_count_as_wheel_entries() {
    let cfg = standalone();
    assert_eq!(wheel_entry_idx(&cfg, 0, 1), 1);
    assert_eq!(wheel_entry_idx(&cfg, 0, 2), 2);
    let mut hud = WheelHudState::default();
    assert_eq!(active_edit_wheel(&cfg, &hud), Some((0, 0, None, 4)));
    hud.active_wheel_entry = 1;
    assert_eq!(active_edit_wheel(&cfg, &hud), Some((0, 1, None, 3)));
}

#[test]
fn page_keys_step_through_standalone_menus() {
    let mut cfg = standalone();
    cfg.sets[0].next_wheel_key = "Tab".to_string();
    cfg.sets[0].prev_wheel_key = "Q".to_string();
    let ui = EditorUiState::default();
    let mut hud = WheelHudState::default();
    hud.open = true;
    hud_wheel_nav(&cfg, &mut hud, &ui, &frame(&["Tab"]));
    assert_eq!(hud.active_wheel_entry, 1);
    hud_wheel_nav(&cfg, &mut hud, &ui, &frame(&["Tab"]));
    assert_eq!(hud.active_wheel_entry, 1);
    cfg.sets[0].cycle_wheels = true;
    hud_wheel_nav(&cfg, &mut hud, &ui, &frame(&["Tab"]));
    assert_eq!(hud.active_wheel_entry, 0);
    hud_wheel_nav(&cfg, &mut hud, &ui, &frame(&["KeyQ"]));
    assert_eq!(hud.active_wheel_entry, 1);
}

#[test]
fn standalone_menus_show_in_the_sidebar() {
    let cfg = standalone();
    let mut ui = EditorUiState::default();
    let hud = WheelHudState::default();
    ui.selection = Selection::Page { set: 0 };
    let rows = sidebar_rows(&cfg, &ui, &hud);
    let solo = rows.iter().position(|r| r.label == "Solo").unwrap();
    assert!(matches!(rows[solo].press, EditorAction::SelectWheel { set: 0, entry: 0, wheel: None }));
    assert!(matches!(rows[solo + 1].press, EditorAction::DeleteEntry { set: 0, entry: 0 }));
    ui.selection = Selection::Wheel { set: 0, entry: 1, wheel: None };
    let rows = sidebar_rows(&cfg, &ui, &hud);
    assert_eq!(rows[0].label, "Back");
    assert_eq!(rows[0].value, "Duo");
    assert_eq!(rows[1].value, "Duo");
    let sectors = rows.iter().filter(|r| matches!(r.press, EditorAction::SelectSegment { wheel: None, .. })).count();
    assert_eq!(sectors, 3);
}
