use quick_action_hud::action::{EditorAction, EditorEffect};
use quick_action_hud::apply::apply_action;
use quick_action_hud::capture::{editor_capture_gamepad, editor_capture_key, editor_text_input, PadInput, StickSide, TextKey};
use quick_action_hud::config::{default_button_color, default_button_height, default_button_width, default_hold_command, FloatBits};
use quick_action_hud::drag::{context_visibility, editor_middle_drag, move_drag_target, MiddleButton, MiddleDragTarget};
use quick_action_hud::hud::{
    clear_hover_owner, click_hud_segment, hud_control_owner, process_hud_button, set_hover_owner, HudControlOwner,
    PointerState, SegmentInsertSide, WheelHudAction,
};
use quick_action_hud::input::{gamepad_btn_label, is_modifier, key_label, shortcut_just_pressed, GamepadButton};
use quick_action_hud::model::{enabled_hud_pages, wheel_entry_idx, HudOpenMode, QuickActionConfig, SetEntry};
use quick_action_hud::navigation::{
    active_edit_wheel, editor_gamepad_nav, editor_keyboard_radial_nav, editor_toolbar_shortcuts, HoldRepeat, PadState,
};
use quick_action_hud::palette::{cycle_palette, Palette};
use quick_action_hud::shortcuts::{
    apply_set_shortcuts, check_edit_shortcut, editor_undo_redo_shortcuts, hud_button_action_shortcuts, hud_wheel_nav,
    FrameInput,
};
use quick_action_hud::state::{EditFocus, EditorUiState, Selection, WheelHudState};
use quick_action_hud::validation::validate_config;

fn base() -> (QuickActionConfig, EditorUiState, WheelHudState) {
    let cfg = QuickActionConfig {
        sets: Vec::new(),
        next_set_key: String::new(),
        prev_set_key: String::new(),
        edit_shortcut: String::new(),
        show_set_bar: true,
        cycle_sets: false,
        hud_open_mode: HudOpenMode::Toggle,
        hud_bg_opacity: FloatBits(0),
        hud_bg_color: String::new(),
    };
    (cfg, EditorUiState::default(), WheelHudState::default())
}

/// Two pages: page 0 with an action and a radial menu set, page 1 empty.
fn sample() -> (QuickActionConfig, EditorUiState, WheelHudState) {
    let (mut cfg, mut ui, mut hud) = base();
    apply_action(&EditorAction::AddSet, &mut cfg, &mut ui, &mut hud);
    apply_action(&EditorAction::AddSet, &mut cfg, &mut ui, &mut hud);
    apply_action(&EditorAction::AddAction { set: 0 }, &mut cfg, &mut ui, &mut hud);
    apply_action(&EditorAction::AddWheelSet { set: 0 }, &mut cfg, &mut ui, &mut hud);
    hud.active_set = 0;
    (cfg, ui, hud)
}

fn frame(just: &[&str], held: &[&str], buttons: &[GamepadButton]) -> FrameInput {
    FrameInput {
        just_pressed: just.iter().map(|s| s.to_string()).collect(),
        held: held.iter().map(|s| s.to_string()).collect(),
        buttons: buttons.to_vec(),
    }
}

fn slot_count(cfg: &QuickActionConfig, set: usize, entry: usize, wheel: usize) -> usize {
    match &cfg.sets[set].entries[entry] {
        SetEntry::RadialMenuSet(ws) => ws.radial_menus[wheel].slots.len(),
        _ => panic!("expected a radial menu set"),
    }
}

fn slot_name(cfg: &QuickActionConfig, set: usize, entry: usize, wheel: usize, slot: usize) -> String {
    match &cfg.sets[set].entries[entry] {
        SetEntry::RadialMenuSet(ws) => ws.radial_menus[wheel].slots[slot].name.clone(),
        _ => panic!("expected a radial menu set"),
    }
}

#[test]
fn defaults_of_a_button() {
    assert_eq!(default_button_color(), "#3b82f6");
    assert_eq!(default_hold_command(), "none");
    assert_eq!(f32::from_bits(default_button_width().0), 80.0);
    assert_eq!(f32::from_bits(default_button_height().0), 28.0);
}

#[test]
fn key_and_button_labels() {
    assert_eq!(key_label("KeyA"), "A");
    assert_eq!(key_label("Digit1"), "1");
    assert_eq!(key_label("Tab"), "Tab");
    assert_eq!(gamepad_btn_label(GamepadButton::South), "A");
    assert_eq!(gamepad_btn_label(GamepadButton::LeftTrigger2), "LT");
    assert_eq!(gamepad_btn_label(GamepadButton::Other(5)), "Other(5)");
    assert!(is_modifier("ShiftLeft"));
    assert!(is_modifier("SuperRight"));
    assert!(!is_modifier("KeyS"));
}

#[test]
fn shortcuts_match_keys_and_buttons() {
    let keys = vec!["ShiftLeft".to_string(), "KeyQ".to_string()];
    let none: Vec<GamepadButton> = Vec::new();
    assert!(shortcut_just_pressed("Q", &keys, &none));
    assert!(!shortcut_just_pressed("E", &keys, &none));
    assert!(!shortcut_just_pressed("", &keys, &none));
    // A modifier alone never fires.
    assert!(!shortcut_just_pressed("ShiftLeft", &keys, &none));
    let pads = vec![GamepadButton::North];
    assert!(shortcut_just_pressed("GP:Y", &Vec::new(), &pads));
    assert!(!shortcut_just_pressed("GP:A", &Vec::new(), &pads));
}

#[test]
fn palette_cycles_and_wraps() {
    assert_eq!(cycle_palette(Palette::Commands, "none"), "use");
    assert_eq!(cycle_palette(Palette::Commands, "crouch"), "none");
    // An unknown value starts the palette over.
    assert_eq!(cycle_palette(Palette::Commands, "fly"), "none");
}

#[test]
fn pages_and_wheel_indices() {
    let (mut cfg, _ui, _hud) = sample();
    cfg.sets[1].enabled = false;
    assert_eq!(enabled_hud_pages(&cfg), vec![0]);
    assert_eq!(wheel_entry_idx(&cfg, 0, 0), 0);
    assert_eq!(wheel_entry_idx(&cfg, 0, 2), 1);
    assert_eq!(wheel_entry_idx(&cfg, 9, 2), 0);
}

#[test]
fn validation_reports_exact_messages() {
    let (cfg, _ui, _hud) = base();
    let v = validate_config(&cfg);
    assert_eq!(v.warnings, vec!["HUD must contain at least one page".to_string()]);
    assert!(v.has_errors);
    let (mut cfg, _ui, _hud) = sample();
    let v = validate_config(&cfg);
    assert_eq!(v.warnings, vec!["Set \"Set 2\" (#1) has no entries".to_string()]);
    match &mut cfg.sets[0].entries[0] {
        SetEntry::Action(a) => {
            a.name = "  ".to_string();
            a.key = "Q".to_string();
        }
        _ => panic!(),
    }
    match &mut cfg.sets[0].entries[1] {
        SetEntry::RadialMenuSet(ws) => ws.switch_key = "Q".to_string(),
        _ => panic!(),
    }
    let v = validate_config(&cfg);
    assert_eq!(
        v.warnings,
        vec![
            "Set \"Set 2\" (#1) has no entries".to_string(),
            "Page \"Set 1\" (#0) reuses shortcut \"Q\" 2 times".to_string(),
            "Action #0 in set \"Set 1\" has an empty name".to_string(),
        ]
    );
}

#[test]
fn hover_marks_follow_the_pointer() {
    let (_cfg, _ui, mut hud) = sample();
    let o = HudControlOwner::Action(0, 0);
    set_hover_owner(&mut hud, o);
    assert_eq!(hud.hovered_action, Some((0, 0)));
    clear_hover_owner(&mut hud, HudControlOwner::Action(0, 1));
    assert_eq!(hud.hovered_action, Some((0, 0)));
    clear_hover_owner(&mut hud, o);
    assert_eq!(hud.hovered_action, None);
    assert_eq!(
        hud_control_owner(&WheelHudAction::DeleteWheel { set: 0, entry: 1, wheel: Some(0) }),
        Some(HudControlOwner::Wheel(0, 1, Some(0)))
    );
    assert_eq!(hud_control_owner(&WheelHudAction::SaveConfig), None);
}

#[test]
fn hud_buttons_select_and_edit() {
    let (mut cfg, mut ui, mut hud) = sample();
    hud.editor_open = true;
    let e = process_hud_button(
        &WheelHudAction::SelectAction { set: 0, entry: 0 },
        PointerState::Hovered,
        &mut cfg,
        &mut ui,
        &mut hud,
    );
    assert_eq!(e, EditorEffect::NoEffect);
    assert_eq!(hud.hovered_action, Some((0, 0)));
    assert_eq!(ui.selection, Selection::Nothing);
    process_hud_button(&WheelHudAction::SelectAction { set: 0, entry: 0 }, PointerState::Pressed, &mut cfg, &mut ui, &mut hud);
    assert_eq!(ui.selection, Selection::Action { set: 0, entry: 0 });
    assert_eq!(hud.selected_action, Some((0, 0)));
    let e = process_hud_button(&WheelHudAction::SaveConfig, PointerState::Pressed, &mut cfg, &mut ui, &mut hud);
    assert_eq!(e, EditorEffect::SaveConfig);
    process_hud_button(&WheelHudAction::AddNewButton, PointerState::Pressed, &mut cfg, &mut ui, &mut hud);
    assert_eq!(cfg.sets[0].entries.len(), 3);
    process_hud_button(&WheelHudAction::DeleteAction { set: 0, entry: 2 }, PointerState::Pressed, &mut cfg, &mut ui, &mut hud);
    assert_eq!(cfg.sets[0].entries.len(), 2);
    assert_eq!(hud.selected_action, None);
}

#[test]
fn hud_set_buttons_wrap_only_when_cycling() {
    let (mut cfg, mut ui, mut hud) = sample();
    process_hud_button(&WheelHudAction::PrevSet, PointerState::Pressed, &mut cfg, &mut ui, &mut hud);
    assert_eq!(hud.active_set, 0);
    cfg.cycle_sets = true;
    process_hud_button(&WheelHudAction::PrevSet, PointerState::Pressed, &mut cfg, &mut ui, &mut hud);
    assert_eq!(hud.active_set, 1);
    process_hud_button(&WheelHudAction::NextSet, PointerState::Pressed, &mut cfg, &mut ui, &mut hud);
    assert_eq!(hud.active_set, 0);
}

#[test]
fn hud_segments_add_and_remove() {
    let (mut cfg, mut ui, mut hud) = sample();
    hud.editor_open = true;
    assert_eq!(slot_count(&cfg, 0, 1, 0), 6);
    ui.selection = Selection::Segment { set: 0, entry: 1, wheel: Some(0), slot: 2 };
    process_hud_button(
        &WheelHudAction::AddSegment { set: 0, entry: 1, wheel: Some(0), side: SegmentInsertSide::After },
        PointerState::Pressed,
        &mut cfg,
        &mut ui,
        &mut hud,
    );
    assert_eq!(slot_count(&cfg, 0, 1, 0), 7);
    assert_eq!(slot_name(&cfg, 0, 1, 0, 3), "Slot 4");
    assert_eq!(ui.selection, Selection::Segment { set: 0, entry: 1, wheel: Some(0), slot: 3 });
    process_hud_button(
        &WheelHudAction::RemoveSegment { set: 0, entry: 1, wheel: Some(0), slot: 6 },
        PointerState::Pressed,
        &mut cfg,
        &mut ui,
        &mut hud,
    );
    assert_eq!(slot_count(&cfg, 0, 1, 0), 6);
    assert_eq!(ui.selection, Selection::Segment { set: 0, entry: 1, wheel: Some(0), slot: 5 });
    // The minimum number of sectors is kept.
    for _ in 0..10 {
        process_hud_button(
            &WheelHudAction::DeleteSegment { set: 0, entry: 1, wheel: Some(0), slot: 0 },
            PointerState::Pressed,
            &mut cfg,
            &mut ui,
            &mut hud,
        );
    }
    assert_eq!(slot_count(&cfg, 0, 1, 0), 2);
    assert_eq!(ui.selection, Selection::Nothing);
}

#[test]
fn pressing_a_sector_selects_it() {
    let (_cfg, mut ui, mut hud) = sample();
    let id = (0, 1, Some(0), 4);
    click_hud_segment(&mut ui, &mut hud, false, id, PointerState::Pressed);
    // The editor is closed: nothing happens.
    assert_eq!(hud.selected_segment, None);
    hud.editor_open = true;
    click_hud_segment(&mut ui, &mut hud, true, id, PointerState::Pressed);
    assert_eq!(hud.selected_segment, None);
    click_hud_segment(&mut ui, &mut hud, false, id, PointerState::Pressed);
    assert_eq!(hud.selected_segment, Some(id));
    assert_eq!(ui.selection, Selection::Segment { set: 0, entry: 1, wheel: Some(0), slot: 4 });
    assert_eq!(hud.edit_control_focus, Some(0));
}

#[test]
fn page_shortcuts_step_through_enabled_pages() {
    let (mut cfg, ui, mut hud) = sample();
    cfg.next_set_key = "E".to_string();
    cfg.prev_set_key = "GP:LB".to_string();
    hud.open = true;
    apply_set_shortcuts(&cfg, &mut hud, &ui, &frame(&["KeyE"], &[], &[]));
    assert_eq!(hud.active_set, 1);
    assert!(hud.dirty);
    apply_set_shortcuts(&cfg, &mut hud, &ui, &frame(&["KeyE"], &[], &[]));
    assert_eq!(hud.active_set, 1);
    apply_set_shortcuts(&cfg, &mut hud, &ui, &frame(&[], &[], &[GamepadButton::LeftTrigger]));
    assert_eq!(hud.active_set, 0);
    // While the editor is open nothing switches.
    hud.editor_open = true;
    apply_set_shortcuts(&cfg, &mut hud, &ui, &frame(&["KeyE"], &[], &[]));
    assert_eq!(hud.active_set, 0);
}

#[test]
fn button_shortcut_flashes_in_editor_and_closes_otherwise() {
    let (mut cfg, ui, mut hud) = sample();
    match &mut cfg.sets[0].entries[0] {
        SetEntry::Action(a) => {
            a.key = "Q".to_string();
            a.close_on_select = true;
        }
        _ => panic!(),
    }
    hud.open = true;
    hud.editor_open = true;
    hud_button_action_shortcuts(&cfg, &mut hud, &ui, &frame(&["KeyQ"], &[], &[]));
    assert!(hud.open);
    assert_eq!(hud.flash_action_entry, Some(0));
    assert_eq!(f32::from_bits(hud.flash_action_ttl.0), 0.25);
    hud.editor_open = false;
    hud_button_action_shortcuts(&cfg, &mut hud, &ui, &frame(&["KeyQ"], &[], &[]));
    assert!(!hud.open);
}

#[test]
fn wheel_shortcuts_cycle_within_the_set() {
    let (mut cfg, mut ui, mut hud) = sample();
    apply_action(&EditorAction::AddWheelToSet { set: 0, entry: 1 }, &mut cfg, &mut ui, &mut hud);
    cfg.sets[0].next_wheel_key = "Tab".to_string();
    match &mut cfg.sets[0].entries[1] {
        SetEntry::RadialMenuSet(ws) => {
            assert_eq!(ws.radial_menus.len(), 2);
            ws.cycle_wheels = true;
        }
        _ => panic!(),
    }
    hud.open = true;
    hud.active_wheel_entry = 5;
    hud_wheel_nav(&cfg, &mut hud, &ui, &frame(&["Tab"], &[], &[]));
    assert_eq!(hud.active_wheel_entry, 0);
    assert_eq!(hud.active_wheel_index, 1);
    hud_wheel_nav(&cfg, &mut hud, &ui, &frame(&["Tab"], &[], &[]));
    assert_eq!(hud.active_wheel_index, 0);
    assert_eq!(active_edit_wheel(&cfg, &hud), Some((0, 1, Some(0), 6)));
}

#[test]
fn edit_shortcut_toggles_editor_inside_open_hud() {
    let (mut cfg, mut ui, mut hud) = sample();
    cfg.edit_shortcut = "F2".to_string();
    let f = frame(&["F2"], &[], &[]);
    check_edit_shortcut(&cfg, &mut hud, &mut ui, &f);
    assert!(!hud.editor_open);
    hud.open = true;
    check_edit_shortcut(&cfg, &mut hud, &mut ui, &f);
    assert!(hud.editor_open);
    assert_eq!(hud.edit_control_focus, Some(0));
    ui.selection = Selection::Page { set: 0 };
    check_edit_shortcut(&cfg, &mut hud, &mut ui, &f);
    assert!(!hud.editor_open);
    assert_eq!(ui.selection, Selection::Nothing);
    assert!(hud.open);
}

#[test]
fn ctrl_z_undoes_and_ctrl_y_redoes() {
    let (mut cfg, mut ui, mut hud) = sample();
    hud.editor_open = true;
    let n = cfg.sets[0].entries.len();
    editor_undo_redo_shortcuts(&mut cfg, &mut ui, &mut hud, &frame(&["KeyZ"], &[], &[]));
    assert_eq!(cfg.sets[0].entries.len(), n);
    editor_undo_redo_shortcuts(&mut cfg, &mut ui, &mut hud, &frame(&["KeyZ"], &["ControlLeft"], &[]));
    assert_eq!(cfg.sets[0].entries.len(), n - 1);
    editor_undo_redo_shortcuts(&mut cfg, &mut ui, &mut hud, &frame(&["KeyY"], &["ControlRight"], &[]));
    assert_eq!(cfg.sets[0].entries.len(), n);
}

#[test]
fn toolbar_shortcuts_save_add_and_settings() {
    let (mut cfg, mut ui, mut hud) = sample();
    hud.editor_open = true;
    let e = editor_toolbar_shortcuts(&mut cfg, &mut ui, &mut hud, &frame(&["KeyS"], &["ControlLeft"], &[]), &None);
    assert_eq!(e, EditorEffect::SaveConfig);
    assert_eq!(hud.edit_control_focus, Some(8));
    let pad = Some(PadState { just_pressed: vec![GamepadButton::RightTrigger], pressed: Vec::new() });
    editor_toolbar_shortcuts(&mut cfg, &mut ui, &mut hud, &frame(&[], &[], &[]), &pad);
    assert_eq!(cfg.sets[0].entries.len(), 3);
    assert_eq!(hud.edit_control_focus, Some(9));
    editor_toolbar_shortcuts(&mut cfg, &mut ui, &mut hud, &frame(&["Comma"], &["ControlLeft"], &[]), &None);
    assert!(hud.settings_open);
    assert_eq!(hud.edit_control_focus, Some(10));
}

fn no_repeat() -> HoldRepeat {
    HoldRepeat { timer: FloatBits(0), steps: 0 }
}

fn pad(just: &[GamepadButton], held: &[GamepadButton]) -> Option<PadState> {
    Some(PadState { just_pressed: just.to_vec(), pressed: held.to_vec() })
}

#[test]
fn gamepad_walks_toolbar_and_radial_controls() {
    let (mut cfg, mut ui, mut hud) = sample();
    hud.editor_open = true;
    editor_gamepad_nav(&mut cfg, &mut ui, &mut hud, pad(&[GamepadButton::DPadLeft], &[]), None, no_repeat());
    assert_eq!(hud.edit_control_focus, Some(8));
    let e = editor_gamepad_nav(&mut cfg, &mut ui, &mut hud, pad(&[GamepadButton::South], &[]), None, no_repeat());
    assert_eq!(e, EditorEffect::SaveConfig);
    // Up highlights the first sector of the active wheel.
    editor_gamepad_nav(&mut cfg, &mut ui, &mut hud, pad(&[GamepadButton::DPadUp], &[]), None, no_repeat());
    assert_eq!(hud.highlighted, Some((0, 1, Some(0), 0)));
    // Up again goes round to the last sector.
    editor_gamepad_nav(&mut cfg, &mut ui, &mut hud, pad(&[GamepadButton::DPadUp], &[]), None, no_repeat());
    assert_eq!(hud.highlighted, Some((0, 1, Some(0), 5)));
    // Right steps the radial control ring; South on control 1 adds a sector before.
    editor_gamepad_nav(&mut cfg, &mut ui, &mut hud, pad(&[GamepadButton::DPadRight], &[]), None, no_repeat());
    assert_eq!(hud.edit_control_focus, Some(1));
    editor_gamepad_nav(&mut cfg, &mut ui, &mut hud, pad(&[GamepadButton::South], &[]), None, no_repeat());
    assert_eq!(slot_count(&cfg, 0, 1, 0), 7);
    assert_eq!(slot_name(&cfg, 0, 1, 0, 5), "Slot 6");
    assert_eq!(hud.highlighted, Some((0, 1, Some(0), 5)));
    // Left from the sector goes round to control 7.
    editor_gamepad_nav(&mut cfg, &mut ui, &mut hud, pad(&[GamepadButton::DPadLeft], &[]), None, no_repeat());
    assert_eq!(hud.edit_control_focus, Some(7));
    editor_gamepad_nav(&mut cfg, &mut ui, &mut hud, pad(&[GamepadButton::South], &[]), None, no_repeat());
    assert_eq!(ui.editing, EditFocus::SlotInput(5));
    assert!(ui.capture_skip);
}

#[test]
fn gamepad_hold_moves_sidebar_focus() {
    let (mut cfg, mut ui, mut hud) = sample();
    hud.editor_open = true;
    hud.edit_control_focus = None;
    ui.nav_count = 4;
    editor_gamepad_nav(&mut cfg, &mut ui, &mut hud, pad(&[], &[GamepadButton::DPadDown]), None, no_repeat());
    assert_eq!(ui.navfocus, 1);
    assert_eq!(ui.nav_hold_dir, 1);
    let rep = HoldRepeat { timer: FloatBits(0x3f00_0000), steps: 5 };
    editor_gamepad_nav(&mut cfg, &mut ui, &mut hud, pad(&[], &[GamepadButton::DPadDown]), None, rep);
    assert_eq!(ui.navfocus, 3);
    assert_eq!(ui.nav_hold_timer, FloatBits(0x3f00_0000));
    editor_gamepad_nav(&mut cfg, &mut ui, &mut hud, pad(&[], &[]), None, no_repeat());
    assert_eq!(ui.nav_hold_dir, 0);
    // With no sector highlighted, South belongs to the toolbar: the sidebar
    // item is not activated.
    ui.navfocus = 2;
    editor_gamepad_nav(
        &mut cfg,
        &mut ui,
        &mut hud,
        pad(&[GamepadButton::South], &[]),
        Some(EditorAction::SelectAction { set: 0, entry: 0 }),
        no_repeat(),
    );
    assert_eq!(ui.selection, Selection::Nothing);
    assert_eq!(ui.navfocus, 2);
    // East goes back up from the selection.
    apply_action(&EditorAction::SelectAction { set: 0, entry: 0 }, &mut cfg, &mut ui, &mut hud);
    editor_gamepad_nav(&mut cfg, &mut ui, &mut hud, pad(&[GamepadButton::East], &[]), None, no_repeat());
    assert_ne!(ui.selection, Selection::Action { set: 0, entry: 0 });
    assert_eq!(ui.navfocus, 0);
}

#[test]
fn keyboard_radial_controls_delete_a_sector() {
    let (mut cfg, mut ui, mut hud) = sample();
    hud.editor_open = true;
    hud.highlighted = Some((0, 1, Some(0), 5));
    hud.edit_control_focus = Some(1);
    editor_keyboard_radial_nav(&mut cfg, &mut ui, &mut hud, &frame(&["ArrowRight"], &[], &[]));
    assert_eq!(hud.edit_control_focus, Some(2));
    editor_keyboard_radial_nav(&mut cfg, &mut ui, &mut hud, &frame(&["Enter"], &[], &[]));
    assert_eq!(slot_count(&cfg, 0, 1, 0), 5);
    assert_eq!(hud.highlighted, Some((0, 1, Some(0), 4)));
}

#[test]
fn key_capture_stores_label_and_escape_cancels() {
    let (mut cfg, mut ui, mut hud) = sample();
    apply_action(&EditorAction::CaptureNextSetKey, &mut cfg, &mut ui, &mut hud);
    assert_eq!(ui.editing, EditFocus::NextSetKey);
    editor_capture_key(&mut cfg, &mut ui, &vec!["ShiftLeft".to_string(), "KeyE".to_string()]);
    assert_eq!(cfg.next_set_key, "E");
    assert_eq!(ui.editing, EditFocus::Idle);
    assert!(ui.capture_consumed);
    apply_action(&EditorAction::CaptureNextSetKey, &mut cfg, &mut ui, &mut hud);
    editor_capture_key(&mut cfg, &mut ui, &vec!["Escape".to_string()]);
    assert_eq!(cfg.next_set_key, "E");
    assert_eq!(ui.editing, EditFocus::Idle);
}

#[test]
fn gamepad_capture_skips_first_frame_and_stores_button() {
    let (mut cfg, mut ui, mut hud) = sample();
    ui.selection = Selection::Action { set: 0, entry: 0 };
    ui.editing = EditFocus::ButtonKey;
    ui.capture_skip = true;
    let pads = vec![PadInput { just_pressed: vec![GamepadButton::West], stick: None }];
    editor_capture_gamepad(&mut cfg, &mut ui, &mut hud, &pads);
    assert!(!ui.capture_skip);
    assert_eq!(ui.editing, EditFocus::ButtonKey);
    editor_capture_gamepad(&mut cfg, &mut ui, &mut hud, &pads);
    match &cfg.sets[0].entries[0] {
        SetEntry::Action(a) => assert_eq!(a.key, "GP:X"),
        _ => panic!(),
    }
    assert_eq!(ui.editing, EditFocus::Idle);
    // A stick binding takes stick movement only.
    ui.selection = Selection::WheelSetEntry { set: 0, entry: 1 };
    ui.editing = EditFocus::WheelSetStick;
    let pads = vec![
        PadInput { just_pressed: vec![GamepadButton::South], stick: None },
        PadInput { just_pressed: Vec::new(), stick: Some(StickSide::Right) },
    ];
    editor_capture_gamepad(&mut cfg, &mut ui, &mut hud, &pads);
    match &cfg.sets[0].entries[1] {
        SetEntry::RadialMenuSet(ws) => {
            assert_eq!(ws.stick_binding, "GP:RightStick");
            assert_eq!(ws.radial_menus[0].stick_binding, "GP:RightStick");
        }
        _ => panic!(),
    }
    assert!(hud.dirty);
}

#[test]
fn typing_renames_the_focused_action() {
    let (mut cfg, mut ui, mut hud) = sample();
    apply_action(&EditorAction::EditName { set: 0, entry: 0 }, &mut cfg, &mut ui, &mut hud);
    assert_eq!(ui.editing, EditFocus::Name);
    let keys = vec![
        TextKey::Backspace,
        TextKey::Character("x".to_string()),
        TextKey::Space,
        TextKey::Enter,
        TextKey::Character("y".to_string()),
    ];
    editor_text_input(&mut cfg, &mut ui, &mut hud, &keys);
    match &cfg.sets[0].entries[0] {
        // Keys after Enter in the same frame still type: editing ends after the frame.
        SetEntry::Action(a) => assert_eq!(a.name, "Action x y"),
        _ => panic!(),
    }
    assert_eq!(ui.editing, EditFocus::Idle);
}

#[test]
fn middle_drag_moves_the_selected_action() {
    let (mut cfg, _ui, mut hud) = sample();
    let mut target = None;
    let press = MiddleButton { just_pressed: true, pressed: true, just_released: false };
    assert!(!editor_middle_drag(&mut target, &hud, press));
    hud.open = true;
    hud.editor_open = true;
    hud.selected_action = Some((0, 0));
    assert!(editor_middle_drag(&mut target, &hud, press));
    assert_eq!(target, Some(MiddleDragTarget::Action { set: 0, entry: 0 }));
    move_drag_target(&mut cfg, &mut hud, target.unwrap(), FloatBits(1.5f32.to_bits()), FloatBits(2.0f32.to_bits()));
    match &cfg.sets[0].entries[0] {
        SetEntry::Action(a) => {
            assert_eq!(f32::from_bits(a.offset_x.0), 1.5);
            assert_eq!(f32::from_bits(a.offset_y.0), 2.0);
        }
        _ => panic!(),
    }
    let release = MiddleButton { just_pressed: false, pressed: false, just_released: true };
    assert!(!editor_middle_drag(&mut target, &hud, release));
    assert_eq!(target, None);
    assert!(context_visibility(&hud, HudControlOwner::Action(0, 0)));
    assert!(!context_visibility(&hud, HudControlOwner::Action(0, 1)));
}
