use quick_action_hud::action::EditorAction;
use quick_action_hud::apply::apply_action;
use quick_action_hud::capture::{editor_capture_gamepad, editor_capture_key, PadInput};
use quick_action_hud::cards::{
    build_hud_action_editor_card, fill_edit_mode, sector_control_rows, segment_card_header, spawn_edit_toggle,
    spawn_editor_toolbar, spawn_radial_menu_overlay, spawn_segment_editor_card, spawn_wheel_settings_card,
    EditModeLayout, OverlayPlan, Tone,
};
use quick_action_hud::config::FloatBits;
use quick_action_hud::drag::{context_visibility, editor_touch_tap};
use quick_action_hud::events::{on_editor_activate, on_editor_slider, on_editor_text_change};
use quick_action_hud::hud::{process_hud_button, HudControlOwner, PointerState, SegmentInsertSide, WheelHudAction};
use quick_action_hud::input::GamepadButton;
use quick_action_hud::model::{HudOpenMode, QuickActionConfig, SetEntry};
use quick_action_hud::shortcuts::{apply_set_shortcuts, editor_undo_redo_shortcuts, FrameInput};
use quick_action_hud::state::{EditFocus, EditorUiState, Selection, WheelHudState};
use quick_action_hud::validation::validate_config;

fn sample() -> (QuickActionConfig, EditorUiState, WheelHudState) {
    let mut cfg = QuickActionConfig {
        sets: Vec::new(),
        next_set_key: String::new(),
        prev_set_key: String::new(),
        edit_shortcut: "F2".to_string(),
        show_set_bar: true,
        cycle_sets: false,
        hud_open_mode: HudOpenMode::Toggle,
        hud_bg_opacity: FloatBits(0),
        hud_bg_color: String::new(),
    };
    let mut ui = EditorUiState::default();
    let mut hud = WheelHudState::default();
    apply_action(&EditorAction::AddSet, &mut cfg, &mut ui, &mut hud);
    apply_action(&EditorAction::AddSet, &mut cfg, &mut ui, &mut hud);
    apply_action(&EditorAction::AddAction { set: 0 }, &mut cfg, &mut ui, &mut hud);
    apply_action(&EditorAction::AddWheelSet { set: 0 }, &mut cfg, &mut ui, &mut hud);
    hud.active_set = 0;
    (cfg, ui, hud)
}

fn keys(just: &[&str], held: &[&str]) -> FrameInput {
    FrameInput {
        just_pressed: just.iter().map(|s| s.to_string()).collect(),
        held: held.iter().map(|s| s.to_string()).collect(),
        buttons: Vec::new(),
    }
}

#[test]
fn sector_card_rows_follow_the_sector() {
    let (cfg, _ui, _hud) = sample();
    let sector = match &cfg.sets[0].entries[1] {
        SetEntry::RadialMenuSet(ws) => ws.radial_menus[0].slots[2].clone(),
        _ => panic!(),
    };
    let rows = spawn_segment_editor_card(&sector, 0, 1, Some(0), 2, Some(6));
    assert_eq!(rows.len(), 9);
    assert_eq!(rows[0].label, "Set name  ›");
    assert!(!rows[0].focused);
    assert!(rows[1].focused);
    assert_eq!(rows[2].label, "Set input  ›");
    assert_eq!(rows[3].value, "none");
    assert_eq!(rows[4].label, "Hold action  ·  disabled");
    assert_eq!(rows[4].value, "Off");
    assert_eq!(rows[4].tone, Tone::Dim);
    assert_eq!(rows[6].value, "On");
    assert_eq!(rows[6].tone, Tone::Green);
    assert!(matches!(rows[7].press, WheelHudAction::DeleteSegment { set: 0, entry: 1, wheel: Some(0), slot: 2 }));
    let h = segment_card_header(&sector);
    assert_eq!(h.title, "Sector settings");
    assert_eq!(h.name, "Slot 3");
}

#[test]
fn action_card_and_toolbar_rows() {
    let (cfg, _ui, mut hud) = sample();
    let a = match &cfg.sets[0].entries[0] {
        SetEntry::Action(a) => a.clone(),
        _ => panic!(),
    };
    let rows = build_hud_action_editor_card(&a, 0, 0);
    assert_eq!(rows.len(), 10);
    assert_eq!(rows[0].value, "Action 1");
    assert_eq!(rows[8].label, format!("Placement: {}", a.position.label()));
    assert!(matches!(rows[9].press, WheelHudAction::CloseSelection));
    hud.edit_control_focus = Some(11);
    hud.settings_open = true;
    let bar = spawn_editor_toolbar(&cfg, &hud);
    assert_eq!(bar[0].label, "Close  [F2]");
    assert!(bar[0].focused);
    assert_eq!(bar[3].label, "Settings ✓  [Select / Ctrl+,]");
    assert_eq!(spawn_edit_toggle().label, "Edit");
}

#[test]
fn edit_mode_shows_card_of_selected_action() {
    let (cfg, _ui, mut hud) = sample();
    assert_eq!(fill_edit_mode(&cfg, &hud), EditModeLayout::Toggle);
    hud.editor_open = true;
    assert_eq!(fill_edit_mode(&cfg, &hud), EditModeLayout::Toolbar);
    hud.selected_action = Some((0, 0));
    assert_eq!(fill_edit_mode(&cfg, &hud), EditModeLayout::ToolbarWithCard { set: 0, entry: 0 });
    hud.selected_action = Some((0, 1));
    assert_eq!(fill_edit_mode(&cfg, &hud), EditModeLayout::Toolbar);
    hud.selected_action = Some((0, 0));
    hud.hovered_wheel = Some((0, 1, Some(0)));
    assert_eq!(fill_edit_mode(&cfg, &hud), EditModeLayout::Toolbar);
}

#[test]
fn overlay_plan_and_controls() {
    let (cfg, _ui, mut hud) = sample();
    let m = (0, 1, Some(0));
    hud.highlighted = Some((0, 1, Some(0), 9));
    hud.selected_segment = Some((0, 1, Some(0), 3));
    let plan = spawn_radial_menu_overlay(&hud, m, 6);
    assert_eq!(plan, OverlayPlan { highlighted: None, sector_card: Some(3), settings_card: false });
    hud.highlighted = None;
    hud.selected_wheel = Some(m);
    assert!(spawn_radial_menu_overlay(&hud, m, 6).settings_card);
    let controls = sector_control_rows(m, 3, Some(2));
    assert_eq!(controls.len(), 4);
    assert!(controls[1].focused);
    assert!(matches!(controls[3].press, WheelHudAction::AddSegment { side: SegmentInsertSide::Outer, .. }));
    let menu = match &cfg.sets[0].entries[1] {
        SetEntry::RadialMenuSet(ws) => ws.radial_menus[0].clone(),
        _ => panic!(),
    };
    let (h, close) = spawn_wheel_settings_card(&menu);
    assert_eq!(h.note, "6 sectors");
    assert_eq!(close.label, "Close");
}

#[test]
fn editor_widgets_apply_their_actions() {
    let (mut cfg, mut ui, mut hud) = sample();
    on_editor_activate(&EditorAction::SelectAction { set: 0, entry: 0 }, &mut cfg, &mut ui, &mut hud);
    assert_eq!(ui.selection, Selection::Action { set: 0, entry: 0 });
    assert!(ui.dirty);
    let template = EditorAction::SetActionOpacity { set: 0, entry: 0, value: FloatBits(0) };
    on_editor_slider(&template, FloatBits(0.5f32.to_bits()), &mut cfg, &mut ui, &mut hud);
    match &cfg.sets[0].entries[0] {
        SetEntry::Action(a) => assert_eq!(f32::from_bits(a.opacity.0), 0.5),
        _ => panic!(),
    }
    let name = EditorAction::SetActionName { set: 0, entry: 0, value: String::new() };
    on_editor_text_change(&name, "Jump".to_string(), &mut cfg, &mut ui, &mut hud);
    match &cfg.sets[0].entries[0] {
        SetEntry::Action(a) => assert_eq!(a.name, "Jump"),
        _ => panic!(),
    }
    // A field bound to another action changes nothing.
    hud.dirty = false;
    on_editor_text_change(&EditorAction::Save, "x".to_string(), &mut cfg, &mut ui, &mut hud);
    assert!(!hud.dirty);
}

#[test]
fn editing_a_sector_input_from_the_card() {
    let (mut cfg, mut ui, mut hud) = sample();
    hud.editor_open = true;
    process_hud_button(
        &WheelHudAction::EditSegmentInput { set: 0, entry: 1, wheel: Some(0), slot: 1 },
        PointerState::Pressed,
        &mut cfg,
        &mut ui,
        &mut hud,
    );
    assert_eq!(ui.editing, EditFocus::SlotInput(1));
    assert_eq!(hud.selected_segment, Some((0, 1, Some(0), 1)));
}

#[test]
fn deleting_the_visible_wheel_removes_its_set() {
    let (mut cfg, mut ui, mut hud) = sample();
    process_hud_button(
        &WheelHudAction::DeleteWheel { set: 0, entry: 1, wheel: Some(0) },
        PointerState::Pressed,
        &mut cfg,
        &mut ui,
        &mut hud,
    );
    assert_eq!(cfg.sets[0].entries.len(), 1);
    assert_eq!(hud.selected_wheel, None);
}

#[test]
fn touch_tap_selects_last_enabled_action() {
    let (mut cfg, mut ui, mut hud) = sample();
    apply_action(&EditorAction::AddAction { set: 0 }, &mut cfg, &mut ui, &mut hud);
    ui.selection = Selection::Nothing;
    hud.open = true;
    editor_touch_tap(&cfg, &mut ui, &mut hud, false);
    assert_eq!(ui.selection, Selection::Nothing);
    editor_touch_tap(&cfg, &mut ui, &mut hud, true);
    assert_eq!(ui.selection, Selection::Action { set: 0, entry: 2 });
}

#[test]
fn next_then_previous_page_returns() {
    let (mut cfg, ui, mut hud) = sample();
    apply_action_set(&mut cfg);
    cfg.next_set_key = "E".to_string();
    cfg.prev_set_key = "Q".to_string();
    hud.open = true;
    apply_set_shortcuts(&cfg, &mut hud, &ui, &keys(&["KeyE"], &[]));
    assert_eq!(hud.active_set, 2);
    apply_set_shortcuts(&cfg, &mut hud, &ui, &keys(&["KeyQ"], &[]));
    assert_eq!(hud.active_set, 0);
}

fn apply_action_set(cfg: &mut QuickActionConfig) {
    let mut ui = EditorUiState::default();
    let mut hud = WheelHudState::default();
    apply_action(&EditorAction::AddSet, cfg, &mut ui, &mut hud);
    cfg.sets[1].enabled = false;
}

#[test]
fn history_shortcuts_need_open_editor() {
    let (mut cfg, mut ui, mut hud) = sample();
    let n = cfg.sets[0].entries.len();
    editor_undo_redo_shortcuts(&mut cfg, &mut ui, &mut hud, &keys(&["KeyZ"], &["ControlLeft"]));
    assert_eq!(cfg.sets[0].entries.len(), n);
}

#[test]
fn stick_binding_ignores_keys_and_buttons() {
    let (mut cfg, mut ui, mut hud) = sample();
    ui.selection = Selection::WheelSetEntry { set: 0, entry: 1 };
    ui.editing = EditFocus::WheelSetStick;
    editor_capture_key(&mut cfg, &mut ui, &vec!["KeyK".to_string()]);
    let pads = vec![PadInput { just_pressed: vec![GamepadButton::South], stick: None }];
    editor_capture_gamepad(&mut cfg, &mut ui, &mut hud, &pads);
    assert_eq!(ui.editing, EditFocus::WheelSetStick);
    match &cfg.sets[0].entries[1] {
        SetEntry::RadialMenuSet(ws) => assert_eq!(ws.stick_binding, "GP:LeftStick"),
        _ => panic!(),
    }
}

#[test]
fn same_shortcut_on_two_pages_is_allowed() {
    let (mut cfg, mut ui, mut hud) = sample();
    apply_action(&EditorAction::AddAction { set: 1 }, &mut cfg, &mut ui, &mut hud);
    for p in 0..2 {
        if let SetEntry::Action(a) = &mut cfg.sets[p].entries[0] {
            a.key = "Q".to_string();
        }
    }
    assert!(validate_config(&cfg).warnings.is_empty());
}

#[test]
fn badges_show_for_the_selected_component_only_in_editor() {
    let (_cfg, _ui, mut hud) = sample();
    hud.selected_hud_switch = Some((0, 3));
    assert!(!context_visibility(&hud, HudControlOwner::HudSwitch(0, 3)));
    hud.editor_open = true;
    assert!(context_visibility(&hud, HudControlOwner::HudSwitch(0, 3)));
    assert!(!context_visibility(&hud, HudControlOwner::Wheel(0, 1, Some(0))));
}
