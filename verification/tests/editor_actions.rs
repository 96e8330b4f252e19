use quick_action_hud::action::{EditorAction, EditorEffect};
use quick_action_hud::apply::apply_action;
use quick_action_hud::config::{ActionShape, FloatBits, PositionMode, QuickAction};
use quick_action_hud::model::{HudOpenMode, QuickActionConfig, SetEntry};
use quick_action_hud::state::{EditFocus, EditorUiState, Selection, WheelHudState};

fn empty_config() -> QuickActionConfig {
    QuickActionConfig {
        sets: Vec::new(),
        next_set_key: String::new(),
        prev_set_key: String::new(),
        edit_shortcut: String::new(),
        show_set_bar: true,
        cycle_sets: false,
        hud_open_mode: HudOpenMode::Toggle,
        hud_bg_opacity: FloatBits(0),
        hud_bg_color: String::new(),
    }
}

#[test]
fn add_set_appends_numbered_page_and_activates_it() {
    let mut cfg = empty_config();
    let mut ui = EditorUiState::default();
    let mut hud = WheelHudState::default();
    let e = apply_action(&EditorAction::AddSet, &mut cfg, &mut ui, &mut hud);
    assert_eq!(e, EditorEffect::NoEffect);
    apply_action(&EditorAction::AddSet, &mut cfg, &mut ui, &mut hud);
    assert_eq!(cfg.sets.len(), 2);
    assert_eq!(cfg.sets[0].name, "Set 1");
    assert_eq!(cfg.sets[1].name, "Set 2");
    assert!(cfg.sets[1].enabled);
    assert_eq!(hud.active_set, 1);
    assert_eq!(ui.undo_stack.len(), 2);
}

#[test]
fn add_action_is_named_by_position() {
    let mut cfg = empty_config();
    let mut ui = EditorUiState::default();
    let mut hud = WheelHudState::default();
    apply_action(&EditorAction::AddSet, &mut cfg, &mut ui, &mut hud);
    apply_action(&EditorAction::AddAction { set: 0 }, &mut cfg, &mut ui, &mut hud);
    apply_action(&EditorAction::AddAction { set: 0 }, &mut cfg, &mut ui, &mut hud);
    // A missing page is left alone.
    apply_action(&EditorAction::AddAction { set: 7 }, &mut cfg, &mut ui, &mut hud);
    assert_eq!(cfg.sets.len(), 1);
    assert_eq!(cfg.sets[0].entries.len(), 2);
    match &cfg.sets[0].entries[1] {
        SetEntry::Action(a) => {
            assert_eq!(a.name, "Action 2");
            assert_eq!(a.hold_command, "none");
        }
        _ => panic!("expected a quick action"),
    }
}

#[test]
fn undo_then_redo_restores_configuration() {
    let mut cfg = empty_config();
    let mut ui = EditorUiState::default();
    let mut hud = WheelHudState::default();
    apply_action(&EditorAction::AddSet, &mut cfg, &mut ui, &mut hud);
    apply_action(&EditorAction::AddAction { set: 0 }, &mut cfg, &mut ui, &mut hud);
    apply_action(&EditorAction::Undo, &mut cfg, &mut ui, &mut hud);
    assert_eq!(cfg.sets[0].entries.len(), 0);
    assert_eq!(ui.redo_stack.len(), 1);
    apply_action(&EditorAction::Redo, &mut cfg, &mut ui, &mut hud);
    assert_eq!(cfg.sets[0].entries.len(), 1);
    assert_eq!(ui.redo_stack.len(), 0);
    // Undo on an empty history changes nothing.
    apply_action(&EditorAction::Undo, &mut cfg, &mut ui, &mut hud);
    apply_action(&EditorAction::Undo, &mut cfg, &mut ui, &mut hud);
    apply_action(&EditorAction::Undo, &mut cfg, &mut ui, &mut hud);
    assert_eq!(cfg.sets.len(), 0);
    apply_action(&EditorAction::Undo, &mut cfg, &mut ui, &mut hud);
    assert_eq!(cfg.sets.len(), 0);
}

#[test]
fn history_is_bounded_by_undo_limit() {
    let mut cfg = empty_config();
    let mut ui = EditorUiState::default();
    let mut hud = WheelHudState::default();
    ui.undo_limit = 3;
    for _ in 0..5 {
        apply_action(&EditorAction::AddSet, &mut cfg, &mut ui, &mut hud);
    }
    assert_eq!(ui.undo_stack.len(), 3);
    assert_eq!(cfg.sets.len(), 5);
}

#[test]
fn cycle_position_walks_the_modes() {
    let mut cfg = empty_config();
    let mut ui = EditorUiState::default();
    let mut hud = WheelHudState::default();
    apply_action(&EditorAction::AddSet, &mut cfg, &mut ui, &mut hud);
    apply_action(&EditorAction::AddAction { set: 0 }, &mut cfg, &mut ui, &mut hud);
    let before = match &cfg.sets[0].entries[0] {
        SetEntry::Action(a) => a.position,
        _ => panic!(),
    };
    apply_action(&EditorAction::CyclePosition { set: 0, entry: 0 }, &mut cfg, &mut ui, &mut hud);
    let after = match &cfg.sets[0].entries[0] {
        SetEntry::Action(a) => a.position,
        _ => panic!(),
    };
    assert_eq!(after, before.next());
    assert_ne!(after, before);
}

#[test]
fn delete_entry_clears_its_selection() {
    let mut cfg = empty_config();
    let mut ui = EditorUiState::default();
    let mut hud = WheelHudState::default();
    apply_action(&EditorAction::AddSet, &mut cfg, &mut ui, &mut hud);
    apply_action(&EditorAction::AddAction { set: 0 }, &mut cfg, &mut ui, &mut hud);
    apply_action(&EditorAction::SelectAction { set: 0, entry: 0 }, &mut cfg, &mut ui, &mut hud);
    assert_eq!(ui.selection, Selection::Action { set: 0, entry: 0 });
    apply_action(&EditorAction::DeleteEntry { set: 0, entry: 0 }, &mut cfg, &mut ui, &mut hud);
    assert_eq!(cfg.sets[0].entries.len(), 0);
    assert_eq!(ui.selection, Selection::Nothing);
    assert_eq!(ui.editing, EditFocus::Idle);
}

#[test]
fn save_and_load_are_effects() {
    let mut cfg = empty_config();
    let mut ui = EditorUiState::default();
    let mut hud = WheelHudState::default();
    assert_eq!(apply_action(&EditorAction::Save, &mut cfg, &mut ui, &mut hud), EditorEffect::SaveConfig);
    assert_eq!(apply_action(&EditorAction::Load, &mut cfg, &mut ui, &mut hud), EditorEffect::LoadConfig);
}

#[test]
fn labels_and_cycles_of_modes() {
    assert_eq!(PositionMode::default().next().next(), PositionMode::default());
    let s = ActionShape::default();
    let mut t = s.next();
    let mut steps = 1;
    while t != s {
        t = t.next();
        steps += 1;
        assert!(steps < 10);
    }
    assert!(!s.label().is_empty());
    let a = QuickAction::default();
    assert_eq!(a.hud_name(), a.name);
    assert_eq!(a.hud_enabled(), a.enabled);
}
