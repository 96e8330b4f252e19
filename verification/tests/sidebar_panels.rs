use quick_action_hud::action::EditorAction;
use quick_action_hud::apply::apply_action;
use quick_action_hud::capture::editor_capture_key;
use quick_action_hud::cards::Tone;
use quick_action_hud::model::{HudOpenMode, QuickActionConfig, SetEntry};
use quick_action_hud::sidebar::{focused_action, sidebar_rows, SidebarRow};
use quick_action_hud::state::{EditFocus, EditorUiState, Selection, WheelHudState};

/// One page holding one quick action, with fresh editor and HUD state.
fn one_action() -> (QuickActionConfig, EditorUiState, WheelHudState) {
    let mut cfg = QuickActionConfig::default();
    let mut ui = EditorUiState::default();
    let mut hud = WheelHudState::default();
    apply_action(&EditorAction::AddSet, &mut cfg, &mut ui, &mut hud);
    apply_action(&EditorAction::AddAction { set: 0 }, &mut cfg, &mut ui, &mut hud);
    (cfg, EditorUiState::default(), WheelHudState::default())
}

fn labels(rows: &[SidebarRow]) -> Vec<String> {
    rows.iter().map(|r| r.label.clone()).collect()
}

fn action_key(cfg: &QuickActionConfig) -> String {
    match &cfg.sets[0].entries[0] {
        SetEntry::Action(a) => a.key.clone(),
        _ => panic!("expected a quick action"),
    }
}

#[test]
fn default_config_is_empty_and_toggled() {
    let cfg = QuickActionConfig::default();
    assert!(cfg.sets.is_empty());
    assert_eq!(cfg.next_set_key, "");
    assert_eq!(cfg.prev_set_key, "");
    assert_eq!(cfg.edit_shortcut, "");
    assert!(cfg.show_set_bar);
    assert!(!cfg.cycle_sets);
    assert_eq!(cfg.hud_open_mode, HudOpenMode::Toggle);
    assert_eq!(cfg.hud_bg_opacity.0, 0x3f80_0000);
    assert_eq!(cfg.hud_bg_color, "");
}

#[test]
fn nav_back_clears_the_whole_selection() {
    let (mut cfg, mut ui, mut hud) = one_action();
    ui.selection = Selection::Segment { set: 0, entry: 1, wheel: Some(0), slot: 2 };
    ui.editing = EditFocus::SlotName(2);
    apply_action(&EditorAction::NavBack, &mut cfg, &mut ui, &mut hud);
    assert_eq!(ui.selection, Selection::Nothing);
    assert_eq!(ui.editing, EditFocus::Idle);
    assert_eq!(hud.highlighted, None);
    assert_eq!(hud.selected_segment, None);
    assert!(ui.undo_stack.is_empty());
}

#[test]
fn renaming_an_action_can_be_undone() {
    let (mut cfg, mut ui, mut hud) = one_action();
    let value = "Jump".to_string();
    apply_action(&EditorAction::SetActionName { set: 0, entry: 0, value }, &mut cfg, &mut ui, &mut hud);
    assert_eq!(ui.undo_stack.len(), 1);
    assert!(ui.redo_stack.is_empty());
    match &cfg.sets[0].entries[0] {
        SetEntry::Action(a) => assert_eq!(a.name, "Jump"),
        _ => panic!("expected a quick action"),
    }
    apply_action(&EditorAction::Undo, &mut cfg, &mut ui, &mut hud);
    match &cfg.sets[0].entries[0] {
        SetEntry::Action(a) => assert_eq!(a.name, "Action 1"),
        _ => panic!("expected a quick action"),
    }
}

#[test]
fn quick_action_key_is_captured_from_the_keyboard() {
    let (mut cfg, mut ui, mut hud) = one_action();
    apply_action(&EditorAction::CaptureKey { set: 0, entry: 0 }, &mut cfg, &mut ui, &mut hud);
    assert_eq!(ui.editing, EditFocus::ButtonKey);
    editor_capture_key(&mut cfg, &mut ui, &vec!["KeyQ".to_string()]);
    assert_eq!(action_key(&cfg), "Q");
    assert_eq!(ui.editing, EditFocus::Idle);
    assert!(ui.capture_consumed);
    assert!(ui.dirty);
}

#[test]
fn toggling_twice_restores_the_action() {
    let (mut cfg, mut ui, mut hud) = one_action();
    let enabled = |c: &QuickActionConfig| match &c.sets[0].entries[0] {
        SetEntry::Action(a) => a.enabled,
        _ => panic!("expected a quick action"),
    };
    let before = enabled(&cfg);
    apply_action(&EditorAction::ToggleEnabled { set: 0, entry: 0 }, &mut cfg, &mut ui, &mut hud);
    assert_eq!(enabled(&cfg), !before);
    apply_action(&EditorAction::ToggleEnabled { set: 0, entry: 0 }, &mut cfg, &mut ui, &mut hud);
    assert_eq!(enabled(&cfg), before);
}

#[test]
fn root_panel_lists_pages_then_settings_then_footer() {
    let (cfg, ui, hud) = one_action();
    let rows = sidebar_rows(&cfg, &ui, &hud);
    assert_eq!(
        labels(&rows),
        vec![
            "+", "Set 1", "", "Delete", "Next set key", "Prev set key", "Show set bar", "Cycle sets", "Edit shortcut",
            "HUD open mode", "HUD bg opacity −", "HUD bg opacity +", "HUD bg color", "SAVE", "LOAD", "↩", "↪",
        ]
    );
    assert!(rows[0].focused);
    assert!(rows.iter().skip(1).all(|r| !r.focused));
    assert_eq!(rows[2].value, "On");
    assert_eq!(rows[4].value, "unbound");
    assert_eq!(rows[4].tone, Tone::Dim);
    assert_eq!(rows[9].value, "Toggle");
    assert_eq!(rows[10].step, -5);
    assert_eq!(rows[11].step, 5);
    assert!(matches!(rows[1].press, EditorAction::SelectSet { set: 0 }));
}

#[test]
fn root_panel_shows_a_clear_button_before_a_set_binding() {
    let (mut cfg, ui, hud) = one_action();
    cfg.next_set_key = "E".to_string();
    let rows = sidebar_rows(&cfg, &ui, &hud);
    assert_eq!(rows[4].label, "Clear next set key");
    assert!(matches!(rows[4].press, EditorAction::ClearNextSetKey));
    assert_eq!(rows[5].label, "Next set key");
    assert_eq!(rows[5].value, "E");
}

#[test]
fn action_panel_rows_in_focus_order() {
    let (cfg, mut ui, hud) = one_action();
    ui.selection = Selection::Action { set: 0, entry: 0 };
    ui.editing = EditFocus::Name;
    ui.navfocus = 3;
    let rows = sidebar_rows(&cfg, &ui, &hud);
    assert_eq!(
        labels(&rows),
        vec![
            "Back", "Delete", "Label", "Input", "Action", "Width −", "Width +", "Height −", "Height +", "Enabled",
            "Close on select", "SAVE", "LOAD", "↩", "↪",
        ]
    );
    assert_eq!(rows[0].value, "Set 1 | Action 1");
    assert_eq!(rows[2].value, "Action 1|");
    assert_eq!(rows[2].tone, Tone::Amber);
    assert_eq!(rows[3].value, "unbound");
    assert_eq!(rows[5].step, -400);
    assert_eq!(rows[8].step, 200);
    assert!(rows[3].focused);
    assert_eq!(rows.iter().filter(|r| r.focused).count(), 1);
}

#[test]
fn capturing_the_action_key_prompts_and_hides_the_clear_button() {
    let (mut cfg, mut ui, mut hud) = one_action();
    apply_action(&EditorAction::SelectAction { set: 0, entry: 0 }, &mut cfg, &mut ui, &mut hud);
    apply_action(&EditorAction::CaptureKey { set: 0, entry: 0 }, &mut cfg, &mut ui, &mut hud);
    let rows = sidebar_rows(&cfg, &ui, &hud);
    assert_eq!(rows[3].label, "Input");
    assert_eq!(rows[3].value, "press key or button…");
    assert_eq!(rows[3].tone, Tone::Amber);
    editor_capture_key(&mut cfg, &mut ui, &vec!["KeyQ".to_string()]);
    let rows = sidebar_rows(&cfg, &ui, &hud);
    assert_eq!(rows[3].label, "Clear input");
    assert_eq!(rows[4].label, "Input");
    assert_eq!(rows[4].value, "Q");
}

#[test]
fn focused_action_is_the_press_of_the_focused_row() {
    let (cfg, mut ui, hud) = one_action();
    ui.selection = Selection::Action { set: 0, entry: 0 };
    let rows = sidebar_rows(&cfg, &ui, &hud);
    let a = focused_action(&rows, 1);
    assert!(matches!(a, Some(EditorAction::DeleteEntry { set: 0, entry: 0 })));
    assert!(focused_action(&rows, 99).is_none());
    assert_eq!(rows.len(), 15);
}

#[test]
fn missing_target_falls_back_to_the_page_panel() {
    let (cfg, mut ui, hud) = one_action();
    ui.selection = Selection::Action { set: 0, entry: 5 };
    let rows = sidebar_rows(&cfg, &ui, &hud);
    assert_eq!(rows[0].label, "Back");
    assert_eq!(rows[0].value, "Action Sets");
    assert_eq!(rows[1].label, "Name");
    assert_eq!(rows[1].value, "Set 1");
    assert_eq!(
        labels(&rows[2..]),
        vec![
            "Opacity −", "Opacity +", "BG image", "BG opacity −", "BG opacity +", "+ Button", "+ Wheel set",
            "+ HUD switch", "+", "Action 1", "Delete", "SAVE", "LOAD", "↩", "↪",
        ]
    );
    assert_eq!(rows[4].value, "none");
}

#[test]
fn radial_menu_panel_lists_settings_then_sectors() {
    let (mut cfg, mut ui, mut hud) = one_action();
    apply_action(&EditorAction::AddWheelSet { set: 0 }, &mut cfg, &mut ui, &mut hud);
    let entry = cfg.sets[0].entries.len() - 1;
    let slots = match &cfg.sets[0].entries[entry] {
        SetEntry::RadialMenuSet(ws) => ws.radial_menus[0].slots.len(),
        _ => panic!("expected a radial menu set"),
    };
    ui.selection = Selection::Wheel { set: 0, entry, wheel: Some(0) };
    let rows = sidebar_rows(&cfg, &ui, &hud);
    assert_eq!(rows[0].label, "Back");
    assert_eq!(rows[0].value, "New radial menu set | Radial menu 1");
    assert_eq!(rows[1].label, "Name");
    assert_eq!(rows[1].value, "Radial menu 1");
    let outer = rows.iter().find(|r| r.label == "Outer radius +").unwrap();
    assert_eq!(outer.step, 500);
    let sectors: Vec<&SidebarRow> =
        rows.iter().filter(|r| matches!(r.press, EditorAction::SelectSegment { .. })).collect();
    assert_eq!(sectors.len(), slots);
    assert_eq!(sectors[0].label, "1");
    assert_eq!(rows.len(), 1 + 10 + 16 + slots + 4);
}
