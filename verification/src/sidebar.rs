//! The editor sidebar's panels as rows of focusable controls, in the order
//! the gamepad focus walks them: the caption, the text shown (with a `|`
//! cursor while typing), the editor action a press sends, the colour role,
//! and whether the gamepad focus is on it.
use crate::action::EditorAction;
use crate::cards::Tone;
use crate::config::{QuickAction, QuickActionView};
use crate::model::{
    entry_at, action_at, get_action, get_menu, get_switch, get_wheel_set, menu_at, switch_at, wheel_set_at,
    ActionSetView, ConfigView, HudOpenMode, HudSwitch, HudSwitchView, QuickActionConfig, RadialMenu, RadialMenuSet, RadialMenuSetView, RadialMenuView,
    Sector, SectorView, SetEntry, SetEntryView,
};
use crate::state::{EditFocus, EditorUiState, EditorUiView, Selection, WheelHudState};
use vstd::prelude::*;

verus! {

/// One focusable control of the sidebar. For a floating-point stepper,
/// `press` carries the setting's current value and `step` the signed amount,
/// in hundredths of the setting's unit, that the host adds to it (and
/// clamps) before sending it; `step` is 0 for every other control.
#[derive(Debug)]
pub struct SidebarRow {
    pub label: String,
    pub value: String,
    pub press: EditorAction,
    pub tone: Tone,
    pub focused: bool,
    pub step: i32,
}

pub struct SidebarRowView {
    pub label: Seq<char>,
    pub value: Seq<char>,
    pub press: EditorAction,
    pub tone: Tone,
    pub focused: bool,
    pub step: i32,
}

impl View for SidebarRow {
    type V = SidebarRowView;

    open spec fn view(&self) -> SidebarRowView {
        SidebarRowView {
            label: self.label@,
            value: self.value@,
            press: self.press,
            tone: self.tone,
            focused: self.focused,
            step: self.step,
        }
    }
}

pub open spec fn sidebar_rows_view(s: Seq<SidebarRow>) -> Seq<SidebarRowView> {
    s.map_values(|r: SidebarRow| r@)
}

/// A control with no gamepad focus and no step.
pub open spec fn srow(label: Seq<char>, value: Seq<char>, press: EditorAction, tone: Tone) -> SidebarRowView {
    SidebarRowView { label, value, press, tone, focused: false, step: 0 }
}

/// `seq![r]` when `b`, else nothing.
pub open spec fn when(b: bool, r: SidebarRowView) -> Seq<SidebarRowView> {
    if b {
        seq![r]
    } else {
        Seq::empty()
    }
}

fn push_row(v: &mut Vec<SidebarRow>, label: &str, value: String, press: EditorAction, tone: Tone)
    ensures
        sidebar_rows_view(final(v)@) == sidebar_rows_view(old(v)@).push(srow(label@, value@, press, tone)),
{
    let ghost before = sidebar_rows_view(v@);
    let r = SidebarRow { label: String::from_str(label), value, press, tone, focused: false, step: 0 };
    let ghost rv = r@;
    v.push(r);
    assert(sidebar_rows_view(v@) =~= before.push(rv));
}

fn push_step(v: &mut Vec<SidebarRow>, label: &str, press: EditorAction, step: i32)
    ensures
        sidebar_rows_view(final(v)@) == sidebar_rows_view(old(v)@).push(
            SidebarRowView { label: label@, value: ""@, press, tone: Tone::Text, focused: false, step },
        ),
{
    let ghost before = sidebar_rows_view(v@);
    let r = SidebarRow { label: String::from_str(label), value: String::from_str(""), press, tone: Tone::Text, focused: false, step };
    let ghost rv = r@;
    v.push(r);
    assert(sidebar_rows_view(v@) =~= before.push(rv));
}

/// The text of a name field: the name, with a `|` cursor while it is being
/// typed into.
pub open spec fn typed_text(name: Seq<char>, typing: bool) -> Seq<char> {
    if typing {
        name + "|"@
    } else {
        name
    }
}

fn typed_text_of(name: &String, typing: bool) -> (r: String)
    ensures
        r@ == typed_text(name@, typing),
{
    let mut r = name.clone();
    if typing {
        r.append("|");
    }
    r
}

/// Text and colour of a binding field: a prompt while capturing, `unbound`
/// when empty, else the binding.
pub open spec fn key_display(capturing: bool, key: Seq<char>) -> (Seq<char>, Tone) {
    if capturing {
        ("press key or button…"@, Tone::Amber)
    } else if key.len() == 0 {
        ("unbound"@, Tone::Dim)
    } else {
        (key, Tone::Text)
    }
}

fn key_display_of(capturing: bool, key: &String) -> (r: (String, Tone))
    ensures
        (r.0@, r.1) == key_display(capturing, key@),
{
    if capturing {
        (String::from_str("press key or button…"), Tone::Amber)
    } else if key.as_str().unicode_len() == 0 {
        (String::from_str("unbound"), Tone::Dim)
    } else {
        (key.clone(), Tone::Text)
    }
}

/// `"On"` or `"Off"` for a toggle.
pub open spec fn on_off(b: bool) -> Seq<char> {
    if b {
        "On"@
    } else {
        "Off"@
    }
}

fn on_off_string(b: bool) -> (r: String)
    ensures
        r@ == on_off(b),
{
    if b {
        String::from_str("On")
    } else {
        String::from_str("Off")
    }
}

/// The tone of a name field: amber while typed into.
pub open spec fn typing_tone(typing: bool) -> Tone {
    if typing {
        Tone::Amber
    } else {
        Tone::Text
    }
}

fn typing_tone_of(typing: bool) -> (r: Tone)
    ensures
        r == typing_tone(typing),
{
    if typing {
        Tone::Amber
    } else {
        Tone::Text
    }
}

// ─── panels ───────────────────────────────────────────────────────────────────

/// The header's back button, showing where the panel is (`parent | name`).
pub open spec fn header_rows(parent: Seq<char>, name: Seq<char>) -> Seq<SidebarRowView> {
    seq![srow("Back"@, parent + " | "@ + name, EditorAction::NavBack, Tone::Dim)]
}

/// The footer: save, load, undo, redo.
pub open spec fn footer_rows() -> Seq<SidebarRowView> {
    seq![
        srow("SAVE"@, ""@, EditorAction::Save, Tone::Green),
        srow("LOAD"@, ""@, EditorAction::Load, Tone::Dim),
        srow("↩"@, ""@, EditorAction::Undo, Tone::Dim),
        srow("↪"@, ""@, EditorAction::Redo, Tone::Dim),
    ]
}

fn push_header(v: &mut Vec<SidebarRow>, parent: &String, name: &String)
    ensures
        sidebar_rows_view(final(v)@) == sidebar_rows_view(old(v)@) + header_rows(parent@, name@),
{
    let ghost before = sidebar_rows_view(v@);
    let mut where_ = parent.clone();
    where_.append(" | ");
    where_.append(name.as_str());
    push_row(v, "Back", where_, EditorAction::NavBack, Tone::Dim);
    assert(sidebar_rows_view(v@) =~= before + header_rows(parent@, name@));
}

fn push_footer(v: &mut Vec<SidebarRow>)
    ensures
        sidebar_rows_view(final(v)@) == sidebar_rows_view(old(v)@) + footer_rows(),
{
    let ghost before = sidebar_rows_view(v@);
    push_row(v, "SAVE", String::from_str(""), EditorAction::Save, Tone::Green);
    push_row(v, "LOAD", String::from_str(""), EditorAction::Load, Tone::Dim);
    push_row(v, "↩", String::from_str(""), EditorAction::Undo, Tone::Dim);
    push_row(v, "↪", String::from_str(""), EditorAction::Redo, Tone::Dim);
    assert(sidebar_rows_view(v@) =~= before + footer_rows());
}

/// The controls of the quick-action panel for action `a` at `(set, entry)`:
/// delete, label, input binding (with a clear button before it while a
/// binding is set and not being captured), action mapping, the width and
/// height steppers, and the Enabled and Close-on-select toggles.
pub open spec fn action_editor_spec(u: EditorUiView, set: usize, entry: usize, a: QuickActionView) -> Seq<SidebarRowView> {
    let typing = u.editing == EditFocus::Name;
    let capturing = u.editing == EditFocus::Key || u.editing == EditFocus::ButtonKey;
    let (kd, kt) = key_display(capturing, a.key);
    seq![
        srow("Delete"@, ""@, EditorAction::DeleteEntry { set, entry }, Tone::Dim),
        srow("Label"@, typed_text(a.name, typing), EditorAction::EditName { set, entry }, typing_tone(typing)),
    ] + when(
        a.key.len() != 0 && !capturing,
        srow("Clear input"@, ""@, EditorAction::ClearActionKey { set, entry }, Tone::Dim),
    ) + seq![
        srow("Input"@, kd, EditorAction::CaptureKey { set, entry }, kt),
        srow("Action"@, a.command, EditorAction::CycleCommand { set, entry }, Tone::Text),
        SidebarRowView { label: "Width −"@, value: ""@, press: EditorAction::ActionWidthDelta { set, entry, value: a.width }, tone: Tone::Text, focused: false, step: -400i32 },
        SidebarRowView { label: "Width +"@, value: ""@, press: EditorAction::ActionWidthDelta { set, entry, value: a.width }, tone: Tone::Text, focused: false, step: 400i32 },
        SidebarRowView { label: "Height −"@, value: ""@, press: EditorAction::ActionHeightDelta { set, entry, value: a.height }, tone: Tone::Text, focused: false, step: -200i32 },
        SidebarRowView { label: "Height +"@, value: ""@, press: EditorAction::ActionHeightDelta { set, entry, value: a.height }, tone: Tone::Text, focused: false, step: 200i32 },
        srow("Enabled"@, on_off(a.enabled), EditorAction::ToggleEnabled { set, entry }, Tone::Text),
        srow("Close on select"@, on_off(a.close_on_select), EditorAction::ToggleActionCloseOnSelect { set, entry }, Tone::Text),
    ]
}

/// The controls of the quick-action panel (see [`action_editor_spec`]).
pub fn action_editor_rows(ui: &EditorUiState, set: usize, entry: usize, qa: &QuickAction) -> (r: Vec<SidebarRow>)
    ensures
        sidebar_rows_view(r@) == action_editor_spec(ui@, set, entry, qa@),
{
    let typing = ui.editing == EditFocus::Name;
    let capturing = ui.editing == EditFocus::Key || ui.editing == EditFocus::ButtonKey;
    let (kd, kt) = key_display_of(capturing, &qa.key);
    let mut v: Vec<SidebarRow> = Vec::new();
    push_row(&mut v, "Delete", String::from_str(""), EditorAction::DeleteEntry { set, entry }, Tone::Dim);
    push_row(&mut v, "Label", typed_text_of(&qa.name, typing), EditorAction::EditName { set, entry }, typing_tone_of(typing));
    let ghost head = sidebar_rows_view(v@);
    if qa.key.as_str().unicode_len() != 0 && !capturing {
        push_row(&mut v, "Clear input", String::from_str(""), EditorAction::ClearActionKey { set, entry }, Tone::Dim);
    }
    let ghost mid = sidebar_rows_view(v@);
    push_row(&mut v, "Input", kd, EditorAction::CaptureKey { set, entry }, kt);
    push_row(&mut v, "Action", qa.command.clone(), EditorAction::CycleCommand { set, entry }, Tone::Text);
    push_step(&mut v, "Width −", EditorAction::ActionWidthDelta { set, entry, value: qa.width }, -400);
    push_step(&mut v, "Width +", EditorAction::ActionWidthDelta { set, entry, value: qa.width }, 400);
    push_step(&mut v, "Height −", EditorAction::ActionHeightDelta { set, entry, value: qa.height }, -200);
    push_step(&mut v, "Height +", EditorAction::ActionHeightDelta { set, entry, value: qa.height }, 200);
    push_row(&mut v, "Enabled", on_off_string(qa.enabled), EditorAction::ToggleEnabled { set, entry }, Tone::Text);
    push_row(
        &mut v,
        "Close on select",
        on_off_string(qa.close_on_select),
        EditorAction::ToggleActionCloseOnSelect { set, entry },
        Tone::Text,
    );
    proof {
        reveal_strlit("");
    }
    assert(sidebar_rows_view(v@) =~= action_editor_spec(ui@, set, entry, qa@));
    v
}

/// The target page caption of a HUD switch: its number counted from 1
/// (saturating at the largest index) and the page's name, or `missing`.
pub open spec fn target_caption(c: ConfigView, t: usize) -> Seq<char> {
    crate::text::decimal(if t < usize::MAX { (t + 1) as nat } else { t as nat }) + " — "@ + if t < c.sets.len() {
        c.sets[t as int].name
    } else {
        "missing"@
    }
}

/// The controls of the HUD-switch panel for switch `hs` at `(set, entry)`:
/// the switch key (with a clear button first while one is set and not being
/// captured), the target page, and the Enabled toggle.
pub open spec fn switch_editor_spec(c: ConfigView, u: EditorUiView, set: usize, entry: usize, hs: HudSwitchView) -> Seq<SidebarRowView> {
    let capturing = u.editing == EditFocus::HudSwitchKey;
    let (kd, kt) = key_display(capturing, hs.key);
    when(hs.key.len() != 0 && !capturing, srow("Clear key"@, ""@, EditorAction::ClearHudSwitchKey { set, entry }, Tone::Dim))
        + seq![
        srow("Switch key"@, kd, EditorAction::CaptureHudSwitchKey { set, entry }, kt),
        srow("Target page"@, target_caption(c, hs.target_page), EditorAction::CycleHudSwitchTarget { set, entry }, Tone::Text),
        srow("Enabled"@, on_off(hs.enabled), EditorAction::ToggleHudSwitchEnabled { set, entry }, Tone::Text),
    ]
}

/// The controls of the HUD-switch panel (see [`switch_editor_spec`]).
pub fn switch_editor_rows(cfg: &QuickActionConfig, ui: &EditorUiState, set: usize, entry: usize, hs: &HudSwitch) -> (r: Vec<SidebarRow>)
    ensures
        sidebar_rows_view(r@) == switch_editor_spec(cfg@, ui@, set, entry, hs@),
{
    let capturing = ui.editing == EditFocus::HudSwitchKey;
    let (kd, kt) = key_display_of(capturing, &hs.key);
    let mut v: Vec<SidebarRow> = Vec::new();
    if hs.key.as_str().unicode_len() != 0 && !capturing {
        push_row(&mut v, "Clear key", String::from_str(""), EditorAction::ClearHudSwitchKey { set, entry }, Tone::Dim);
    }
    let ghost head = sidebar_rows_view(v@);
    push_row(&mut v, "Switch key", kd, EditorAction::CaptureHudSwitchKey { set, entry }, kt);
    let shown = if hs.target_page < usize::MAX {
        hs.target_page + 1
    } else {
        hs.target_page
    };
    let mut caption = crate::text::usize_to_decimal(shown);
    caption.append(" — ");
    if hs.target_page < cfg.sets.len() {
        caption.append(cfg.sets[hs.target_page].name.as_str());
    } else {
        caption.append("missing");
    }
    push_row(&mut v, "Target page", caption, EditorAction::CycleHudSwitchTarget { set, entry }, Tone::Text);
    push_row(&mut v, "Enabled", on_off_string(hs.enabled), EditorAction::ToggleHudSwitchEnabled { set, entry }, Tone::Text);
    proof {
        reveal_strlit("");
    }
    assert(sidebar_rows_view(v@) =~= switch_editor_spec(cfg@, ui@, set, entry, hs@));
    v
}

/// The controls of the sector panel for sector `slot` (`s`): name, icon,
/// input binding (with a clear button first while one is set and not being
/// captured), and the Close-on-select and Hold toggles.
pub open spec fn segment_editor_spec(u: EditorUiView, slot: usize, s: SectorView) -> Seq<SidebarRowView> {
    let name_typing = u.editing == EditFocus::SlotName(slot);
    let icon_typing = u.editing == EditFocus::SlotIcon(slot);
    let capturing = u.editing == EditFocus::SlotInput(slot);
    let (kd, kt) = key_display(capturing, s.input);
    seq![
        srow("Name"@, typed_text(s.name, name_typing), EditorAction::EditSlotName { slot }, typing_tone(name_typing)),
        srow("Icon"@, typed_text(s.icon, icon_typing), EditorAction::EditSlotIcon { slot }, typing_tone(icon_typing)),
    ] + when(s.input.len() != 0 && !capturing, srow("Clear input"@, ""@, EditorAction::ClearSlotInput { slot }, Tone::Dim))
        + seq![
        srow("Input"@, kd, EditorAction::CaptureSlotInput { slot }, kt),
        srow("Close on select"@, on_off(s.close_on_select), EditorAction::ToggleSlotCloseOnSelect { slot }, Tone::Text),
        srow("Hold action"@, on_off(s.hold), EditorAction::ToggleSlotHold { slot }, Tone::Text),
    ]
}

/// The controls of the sector panel (see [`segment_editor_spec`]).
pub fn segment_editor_rows(ui: &EditorUiState, slot: usize, s: &Sector) -> (r: Vec<SidebarRow>)
    ensures
        sidebar_rows_view(r@) == segment_editor_spec(ui@, slot, s@),
{
    let name_typing = ui.editing == EditFocus::SlotName(slot);
    let icon_typing = ui.editing == EditFocus::SlotIcon(slot);
    let capturing = ui.editing == EditFocus::SlotInput(slot);
    let (kd, kt) = key_display_of(capturing, &s.input);
    let mut v: Vec<SidebarRow> = Vec::new();
    push_row(&mut v, "Name", typed_text_of(&s.name, name_typing), EditorAction::EditSlotName { slot }, typing_tone_of(name_typing));
    push_row(&mut v, "Icon", typed_text_of(&s.icon, icon_typing), EditorAction::EditSlotIcon { slot }, typing_tone_of(icon_typing));
    let ghost head = sidebar_rows_view(v@);
    if s.input.as_str().unicode_len() != 0 && !capturing {
        push_row(&mut v, "Clear input", String::from_str(""), EditorAction::ClearSlotInput { slot }, Tone::Dim);
    }
    let ghost mid = sidebar_rows_view(v@);
    push_row(&mut v, "Input", kd, EditorAction::CaptureSlotInput { slot }, kt);
    push_row(&mut v, "Close on select", on_off_string(s.close_on_select), EditorAction::ToggleSlotCloseOnSelect { slot }, Tone::Text);
    push_row(&mut v, "Hold action", on_off_string(s.hold), EditorAction::ToggleSlotHold { slot }, Tone::Text);
    proof {
        reveal_strlit("");
    }
    assert(sidebar_rows_view(v@) =~= segment_editor_spec(ui@, slot, s@));
    v
}

/// The rows of the first `n` radial menus of the set at `(set, entry)`: a
/// select button (amber when that menu is selected) and a delete button
/// each.
pub open spec fn wheel_list(u: EditorUiView, set: usize, entry: usize, menus: Seq<crate::model::RadialMenuView>, n: int) -> Seq<SidebarRowView>
    decreases n,
{
    if n <= 0 {
        Seq::empty()
    } else {
        let i = (n - 1) as usize;
        let selected = u.selection == (Selection::Wheel { set, entry, wheel: Some(i) });
        wheel_list(u, set, entry, menus, n - 1) + seq![
            srow(menus[n - 1].name, ""@, EditorAction::SelectWheel { set, entry, wheel: Some(i) }, if selected { Tone::Amber } else { Tone::Text }),
            srow("Delete"@, ""@, EditorAction::DeleteWheelFromSet { set, entry, wheel: i }, Tone::Dim),
        ]
    }
}

/// The stick field's text: a prompt before the binding while capturing.
pub open spec fn stick_text(capturing: bool, b: Seq<char>) -> Seq<char> {
    if capturing {
        "press stick… "@ + b
    } else {
        b
    }
}

/// The controls of the radial-menu-set panel for set `w` at `(set, entry)`:
/// name; stick, previous-wheel and next-wheel bindings (each with a clear
/// button first while set and not being captured); the minimum and maximum
/// wheel steppers; the Cycle toggle; previous and next wheel; add a wheel;
/// then each radial menu's select and delete buttons.
pub open spec fn wheelset_entry_editor_spec(u: EditorUiView, set: usize, entry: usize, w: RadialMenuSetView) -> Seq<SidebarRowView> {
    wheelset_bindings(u, set, entry, w) + wheelset_controls(set, entry, w) + wheel_list(
        u,
        set,
        entry,
        w.radial_menus,
        w.radial_menus.len() as int,
    )
}

/// The name and binding fields of the radial-menu-set panel.
pub open spec fn wheelset_bindings(u: EditorUiView, set: usize, entry: usize, w: RadialMenuSetView) -> Seq<SidebarRowView> {
    let typing = u.editing == EditFocus::WheelSetName;
    let stick = u.editing == EditFocus::WheelSetStick;
    let prev = u.editing == (EditFocus::WheelSetPrevKey { set, entry });
    let next = u.editing == (EditFocus::WheelSetNextKey { set, entry });
    let (pd, pt) = key_display(prev, w.prev_wheel_key);
    let (nd, nt) = key_display(next, w.next_wheel_key);
    seq![srow("Name"@, typed_text(w.name, typing), EditorAction::EditWheelSetName { set, entry }, typing_tone(typing))]
        + when(w.stick_binding.len() != 0 && !stick, srow("Clear stick"@, ""@, EditorAction::ClearWheelSetStick { set, entry }, Tone::Dim))
        + seq![srow("Stick binding"@, stick_text(stick, w.stick_binding), EditorAction::CaptureWheelSetStick { set, entry }, if stick { Tone::Amber } else { Tone::Text })]
        + when(w.prev_wheel_key.len() != 0 && !prev, srow("Clear previous wheel"@, ""@, EditorAction::ClearWheelSetPrevKey { set, entry }, Tone::Dim))
        + seq![srow("Previous wheel"@, pd, EditorAction::CaptureWheelSetPrevKey { set, entry }, pt)]
        + when(w.next_wheel_key.len() != 0 && !next, srow("Clear next wheel"@, ""@, EditorAction::ClearWheelSetNextKey { set, entry }, Tone::Dim))
        + seq![srow("Next wheel"@, nd, EditorAction::CaptureWheelSetNextKey { set, entry }, nt)]
}

/// The steppers, toggle and buttons of the radial-menu-set panel.
pub open spec fn wheelset_controls(set: usize, entry: usize, w: RadialMenuSetView) -> Seq<SidebarRowView> {
    seq![
        srow("Minimum wheels −"@, crate::text::decimal(w.min_wheels as nat), EditorAction::WheelSetMinDelta { set, entry, delta: -1i32 }, Tone::Text),
        srow("Minimum wheels +"@, crate::text::decimal(w.min_wheels as nat), EditorAction::WheelSetMinDelta { set, entry, delta: 1i32 }, Tone::Text),
        srow("Maximum wheels −"@, crate::text::decimal(w.max_wheels as nat), EditorAction::WheelSetMaxDelta { set, entry, delta: -1i32 }, Tone::Text),
        srow("Maximum wheels +"@, crate::text::decimal(w.max_wheels as nat), EditorAction::WheelSetMaxDelta { set, entry, delta: 1i32 }, Tone::Text),
        srow("Cycle wheels"@, on_off(w.cycle_wheels), EditorAction::ToggleWheelSetCycle { set, entry }, Tone::Text),
        srow("‹ Previous wheel"@, ""@, EditorAction::SwitchWheelPrev { set, entry }, Tone::Dim),
        srow("Next wheel ›"@, ""@, EditorAction::SwitchWheelNext { set, entry }, Tone::Dim),
        srow("+"@, ""@, EditorAction::AddWheelToSet { set, entry }, Tone::Text),
    ]
}

fn push_clear(v: &mut Vec<SidebarRow>, show: bool, label: &str, press: EditorAction)
    ensures
        sidebar_rows_view(final(v)@) == sidebar_rows_view(old(v)@) + when(show, srow(label@, ""@, press, Tone::Dim)),
{
    let ghost before = sidebar_rows_view(v@);
    if show {
        push_row(v, label, String::from_str(""), press, Tone::Dim);
        assert(sidebar_rows_view(v@) =~= before + when(show, srow(label@, ""@, press, Tone::Dim)));
    } else {
        assert(sidebar_rows_view(v@) =~= before + when(show, srow(label@, ""@, press, Tone::Dim)));
    }
}

fn push_wheel_list(v: &mut Vec<SidebarRow>, ui: &EditorUiState, set: usize, entry: usize, w: &RadialMenuSet)
    ensures
        sidebar_rows_view(final(v)@) == sidebar_rows_view(old(v)@) + wheel_list(ui@, set, entry, w@.radial_menus, w@.radial_menus.len() as int),
{
    proof {
        reveal_strlit("");
    }
    let ghost head = sidebar_rows_view(v@);
    let ghost menus = w@.radial_menus;
    let n = w.radial_menus.len();
    let mut i: usize = 0;
    while i < n
        invariant
            n == w.radial_menus@.len(),
            menus == w@.radial_menus,
            i <= n,
            sidebar_rows_view(v@) == head + wheel_list(ui@, set, entry, menus, i as int),
        decreases n - i,
    {
        let selected = ui.selection == (Selection::Wheel { set, entry, wheel: Some(i) });
        let ghost before = sidebar_rows_view(v@);
        push_row(v, w.radial_menus[i].name.as_str(), String::from_str(""), EditorAction::SelectWheel { set, entry, wheel: Some(i) }, if selected { Tone::Amber } else { Tone::Text });
        push_row(v, "Delete", String::from_str(""), EditorAction::DeleteWheelFromSet { set, entry, wheel: i }, Tone::Dim);
        assert(wheel_list(ui@, set, entry, menus, i + 1) == wheel_list(ui@, set, entry, menus, i as int) + seq![
            srow(menus[i as int].name, ""@, EditorAction::SelectWheel { set, entry, wheel: Some(i) }, if selected { Tone::Amber } else { Tone::Text }),
            srow("Delete"@, ""@, EditorAction::DeleteWheelFromSet { set, entry, wheel: i }, Tone::Dim),
        ]);
        assert(sidebar_rows_view(v@) =~= head + wheel_list(ui@, set, entry, menus, i + 1));
        i = i + 1;
    }
    assert(wheel_list(ui@, set, entry, menus, n as int) == wheel_list(ui@, set, entry, w@.radial_menus, w@.radial_menus.len() as int));
}

fn push_wheelset_bindings(v: &mut Vec<SidebarRow>, ui: &EditorUiState, set: usize, entry: usize, w: &RadialMenuSet)
    ensures
        sidebar_rows_view(final(v)@) == sidebar_rows_view(old(v)@) + wheelset_bindings(ui@, set, entry, w@),
{
    let ghost before = sidebar_rows_view(v@);
    let typing = ui.editing == EditFocus::WheelSetName;
    let stick = ui.editing == EditFocus::WheelSetStick;
    let prev = ui.editing == (EditFocus::WheelSetPrevKey { set, entry });
    let next = ui.editing == (EditFocus::WheelSetNextKey { set, entry });
    let (pd, pt) = key_display_of(prev, &w.prev_wheel_key);
    let (nd, nt) = key_display_of(next, &w.next_wheel_key);
    push_row(v, "Name", typed_text_of(&w.name, typing), EditorAction::EditWheelSetName { set, entry }, typing_tone_of(typing));
    push_clear(v, w.stick_binding.as_str().unicode_len() != 0 && !stick, "Clear stick", EditorAction::ClearWheelSetStick { set, entry });
    let mut st = if stick {
        String::from_str("press stick… ")
    } else {
        String::new()
    };
    st.append(w.stick_binding.as_str());
    assert(st@ =~= stick_text(stick, w@.stick_binding));
    push_row(v, "Stick binding", st, EditorAction::CaptureWheelSetStick { set, entry }, if stick { Tone::Amber } else { Tone::Text });
    push_clear(v, w.prev_wheel_key.as_str().unicode_len() != 0 && !prev, "Clear previous wheel", EditorAction::ClearWheelSetPrevKey { set, entry });
    push_row(v, "Previous wheel", pd, EditorAction::CaptureWheelSetPrevKey { set, entry }, pt);
    push_clear(v, w.next_wheel_key.as_str().unicode_len() != 0 && !next, "Clear next wheel", EditorAction::ClearWheelSetNextKey { set, entry });
    push_row(v, "Next wheel", nd, EditorAction::CaptureWheelSetNextKey { set, entry }, nt);
    assert(sidebar_rows_view(v@) =~= before + wheelset_bindings(ui@, set, entry, w@));
}

fn push_wheelset_controls(v: &mut Vec<SidebarRow>, set: usize, entry: usize, w: &RadialMenuSet)
    ensures
        sidebar_rows_view(final(v)@) == sidebar_rows_view(old(v)@) + wheelset_controls(set, entry, w@),
{
    let ghost before = sidebar_rows_view(v@);
    push_row(v, "Minimum wheels −", crate::text::usize_to_decimal(w.min_wheels), EditorAction::WheelSetMinDelta { set, entry, delta: -1i32 }, Tone::Text);
    push_row(v, "Minimum wheels +", crate::text::usize_to_decimal(w.min_wheels), EditorAction::WheelSetMinDelta { set, entry, delta: 1i32 }, Tone::Text);
    push_row(v, "Maximum wheels −", crate::text::usize_to_decimal(w.max_wheels), EditorAction::WheelSetMaxDelta { set, entry, delta: -1i32 }, Tone::Text);
    push_row(v, "Maximum wheels +", crate::text::usize_to_decimal(w.max_wheels), EditorAction::WheelSetMaxDelta { set, entry, delta: 1i32 }, Tone::Text);
    push_row(v, "Cycle wheels", on_off_string(w.cycle_wheels), EditorAction::ToggleWheelSetCycle { set, entry }, Tone::Text);
    push_row(v, "‹ Previous wheel", String::from_str(""), EditorAction::SwitchWheelPrev { set, entry }, Tone::Dim);
    push_row(v, "Next wheel ›", String::from_str(""), EditorAction::SwitchWheelNext { set, entry }, Tone::Dim);
    push_row(v, "+", String::from_str(""), EditorAction::AddWheelToSet { set, entry }, Tone::Text);
    proof {
        reveal_strlit("");
    }
    assert(sidebar_rows_view(v@) =~= before + wheelset_controls(set, entry, w@));
}

/// The controls of the radial-menu-set panel (see
/// [`wheelset_entry_editor_spec`]).
pub fn wheelset_entry_editor_rows(ui: &EditorUiState, set: usize, entry: usize, w: &RadialMenuSet) -> (r: Vec<SidebarRow>)
    ensures
        sidebar_rows_view(r@) == wheelset_entry_editor_spec(ui@, set, entry, w@),
{
    let mut v: Vec<SidebarRow> = Vec::new();
    push_wheelset_bindings(&mut v, ui, set, entry, w);
    push_wheelset_controls(&mut v, set, entry, w);
    push_wheel_list(&mut v, ui, set, entry, w);
    assert(sidebar_rows_view(v@) =~= wheelset_entry_editor_spec(ui@, set, entry, w@));
    v
}


// ─── root panel ───────────────────────────────────────────────────────────────

/// The label of a HUD open mode.
pub open spec fn open_mode_label(m: HudOpenMode) -> Seq<char> {
    match m {
        HudOpenMode::Toggle => "Toggle"@,
        HudOpenMode::Hold => "Hold"@,
    }
}

fn open_mode_label_of(m: HudOpenMode) -> (r: String)
    ensures
        r@ == open_mode_label(m),
{
    match m {
        HudOpenMode::Toggle => String::from_str("Toggle"),
        HudOpenMode::Hold => String::from_str("Hold"),
    }
}

/// The rows of the first `n` pages: open the page, its enabled toggle, and
/// delete it.
pub open spec fn page_list(sets: Seq<ActionSetView>, n: int) -> Seq<SidebarRowView>
    decreases n,
{
    if n <= 0 {
        Seq::empty()
    } else {
        let i = (n - 1) as usize;
        page_list(sets, n - 1) + seq![
            srow(sets[n - 1].name, ""@, EditorAction::SelectSet { set: i }, Tone::Text),
            srow(""@, on_off(sets[n - 1].enabled), EditorAction::ToggleSetEnabled { set: i }, Tone::Text),
            srow("Delete"@, ""@, EditorAction::DeleteSet { set: i }, Tone::Dim),
        ]
    }
}

/// A key-capture field with its clear button first while a binding is set
/// and not being captured.
pub open spec fn capture_rows(label: Seq<char>, clear_label: Seq<char>, capturing: bool, key: Seq<char>, capture: EditorAction, clear: EditorAction) -> Seq<SidebarRowView> {
    let (kd, kt) = key_display(capturing, key);
    when(key.len() != 0 && !capturing, srow(clear_label, ""@, clear, Tone::Dim)) + seq![srow(label, kd, capture, kt)]
}

/// The page-wide settings of the root panel: the next/previous page keys,
/// the set-bar and cycling toggles, then [`root_hud_rows`].
pub open spec fn root_config_rows(c: ConfigView, u: EditorUiView) -> Seq<SidebarRowView> {
    capture_rows("Next set key"@, "Clear next set key"@, u.editing == EditFocus::NextSetKey, c.next_set_key, EditorAction::CaptureNextSetKey, EditorAction::ClearNextSetKey)
        + capture_rows("Prev set key"@, "Clear prev set key"@, u.editing == EditFocus::PrevSetKey, c.prev_set_key, EditorAction::CapturePrevSetKey, EditorAction::ClearPrevSetKey)
        + seq![
        srow("Show set bar"@, on_off(c.show_set_bar), EditorAction::ToggleShowSetBar, Tone::Text),
        srow("Cycle sets"@, on_off(c.cycle_sets), EditorAction::ToggleCycleSets, Tone::Text),
    ] + root_hud_rows(c, u)
}

/// The editor shortcut, the open mode, the HUD background opacity stepper
/// (5 percent points a step) and the HUD background colour.
pub open spec fn root_hud_rows(c: ConfigView, u: EditorUiView) -> Seq<SidebarRowView> {
    capture_rows("Edit shortcut"@, "Clear edit shortcut"@, u.editing == EditFocus::EditShortcut, c.edit_shortcut, EditorAction::CaptureEditShortcut, EditorAction::ClearEditShortcut)
        + seq![srow("HUD open mode"@, open_mode_label(c.hud_open_mode), EditorAction::CycleHudOpenMode, Tone::Text)]
        + stepper_rows("HUD bg opacity"@, EditorAction::HudBgOpacityDelta { value: c.hud_bg_opacity }, 5)
        + seq![srow("HUD bg color"@, c.hud_bg_color, EditorAction::CycleHudBgColor, if c.hud_bg_color.len() == 0 { Tone::Dim } else { Tone::Text })]
}

/// The controls of the root panel: add a page, each page's row, then the
/// page-wide settings.
pub open spec fn root_sidebar_spec(c: ConfigView, u: EditorUiView) -> Seq<SidebarRowView> {
    seq![srow("+"@, ""@, EditorAction::AddSet, Tone::Text)] + page_list(c.sets, c.sets.len() as int) + root_config_rows(c, u)
}

fn push_capture(v: &mut Vec<SidebarRow>, label: &str, clear_label: &str, capturing: bool, key: &String, capture: EditorAction, clear: EditorAction)
    ensures
        sidebar_rows_view(final(v)@) == sidebar_rows_view(old(v)@) + capture_rows(label@, clear_label@, capturing, key@, capture, clear),
{
    let ghost before = sidebar_rows_view(v@);
    let (kd, kt) = key_display_of(capturing, key);
    push_clear(v, key.as_str().unicode_len() != 0 && !capturing, clear_label, clear);
    push_row(v, label, kd, capture, kt);
    assert(sidebar_rows_view(v@) =~= before + capture_rows(label@, clear_label@, capturing, key@, capture, clear));
}

fn push_page_list(v: &mut Vec<SidebarRow>, cfg: &QuickActionConfig)
    ensures
        sidebar_rows_view(final(v)@) == sidebar_rows_view(old(v)@) + page_list(cfg@.sets, cfg@.sets.len() as int),
{
    proof {
        reveal_strlit("");
    }
    let ghost head = sidebar_rows_view(v@);
    let ghost sets = cfg@.sets;
    let n = cfg.sets.len();
    let mut i: usize = 0;
    while i < n
        invariant
            n == cfg.sets@.len(),
            sets == cfg@.sets,
            sets.len() == n,
            i <= n,
            sidebar_rows_view(v@) == head + page_list(sets, i as int),
        decreases n - i,
    {
        push_row(v, cfg.sets[i].name.as_str(), String::from_str(""), EditorAction::SelectSet { set: i }, Tone::Text);
        push_row(v, "", on_off_string(cfg.sets[i].enabled), EditorAction::ToggleSetEnabled { set: i }, Tone::Text);
        push_row(v, "Delete", String::from_str(""), EditorAction::DeleteSet { set: i }, Tone::Dim);
        assert(sidebar_rows_view(v@) =~= head + page_list(sets, i + 1));
        i = i + 1;
    }
}

fn push_root_hud(v: &mut Vec<SidebarRow>, cfg: &QuickActionConfig, ui: &EditorUiState)
    ensures
        sidebar_rows_view(final(v)@) == sidebar_rows_view(old(v)@) + root_hud_rows(cfg@, ui@),
{
    let ghost before = sidebar_rows_view(v@);
    push_capture(v, "Edit shortcut", "Clear edit shortcut", ui.editing == EditFocus::EditShortcut, &cfg.edit_shortcut, EditorAction::CaptureEditShortcut, EditorAction::ClearEditShortcut);
    push_row(v, "HUD open mode", open_mode_label_of(cfg.hud_open_mode), EditorAction::CycleHudOpenMode, Tone::Text);
    push_stepper(v, "HUD bg opacity", EditorAction::HudBgOpacityDelta { value: cfg.hud_bg_opacity }, EditorAction::HudBgOpacityDelta { value: cfg.hud_bg_opacity }, 5);
    let tone = if cfg.hud_bg_color.as_str().unicode_len() == 0 { Tone::Dim } else { Tone::Text };
    push_row(v, "HUD bg color", cfg.hud_bg_color.clone(), EditorAction::CycleHudBgColor, tone);
    assert(sidebar_rows_view(v@) =~= before + root_hud_rows(cfg@, ui@));
}

fn push_root_config(v: &mut Vec<SidebarRow>, cfg: &QuickActionConfig, ui: &EditorUiState)
    ensures
        sidebar_rows_view(final(v)@) == sidebar_rows_view(old(v)@) + root_config_rows(cfg@, ui@),
{
    let ghost before = sidebar_rows_view(v@);
    push_capture(v, "Next set key", "Clear next set key", ui.editing == EditFocus::NextSetKey, &cfg.next_set_key, EditorAction::CaptureNextSetKey, EditorAction::ClearNextSetKey);
    push_capture(v, "Prev set key", "Clear prev set key", ui.editing == EditFocus::PrevSetKey, &cfg.prev_set_key, EditorAction::CapturePrevSetKey, EditorAction::ClearPrevSetKey);
    push_row(v, "Show set bar", on_off_string(cfg.show_set_bar), EditorAction::ToggleShowSetBar, Tone::Text);
    push_row(v, "Cycle sets", on_off_string(cfg.cycle_sets), EditorAction::ToggleCycleSets, Tone::Text);
    let ghost mid = sidebar_rows_view(v@);
    push_root_hud(v, cfg, ui);
    assert(sidebar_rows_view(v@) =~= before + root_config_rows(cfg@, ui@));
}

/// The controls of the root panel (see [`root_sidebar_spec`]).
pub fn root_sidebar_rows(cfg: &QuickActionConfig, ui: &EditorUiState) -> (r: Vec<SidebarRow>)
    ensures
        sidebar_rows_view(r@) == root_sidebar_spec(cfg@, ui@),
{
    let mut v: Vec<SidebarRow> = Vec::new();
    push_row(&mut v, "+", String::from_str(""), EditorAction::AddSet, Tone::Text);
    proof {
        reveal_strlit("");
    }
    push_page_list(&mut v, cfg);
    push_root_config(&mut v, cfg, ui);
    assert(sidebar_rows_view(v@) =~= root_sidebar_spec(cfg@, ui@));
    v
}


// ─── radial menu panel ────────────────────────────────────────────────────────

/// Text and colour of a colour field: `fallback`, dimmed, while unset.
pub open spec fn color_value(c: Seq<char>, fallback: Seq<char>) -> (Seq<char>, Tone) {
    if c.len() == 0 {
        (fallback, Tone::Dim)
    } else {
        (c, Tone::Text)
    }
}

fn color_value_of(c: &String, fallback: &str) -> (r: (String, Tone))
    ensures
        (r.0@, r.1) == color_value(c@, fallback@),
{
    if c.as_str().unicode_len() == 0 {
        (String::from_str(fallback), Tone::Dim)
    } else {
        (c.clone(), Tone::Text)
    }
}

/// A stepper's pair of controls, decreasing then increasing by `step`
/// hundredths.
pub open spec fn stepper_rows(label: Seq<char>, press: EditorAction, step: i32) -> Seq<SidebarRowView> {
    seq![
        SidebarRowView { label: label + " −"@, value: ""@, press, tone: Tone::Text, focused: false, step: (-step) as i32 },
        SidebarRowView { label: label + " +"@, value: ""@, press, tone: Tone::Text, focused: false, step },
    ]
}

fn push_stepper(v: &mut Vec<SidebarRow>, label: &str, dec_press: EditorAction, inc_press: EditorAction, step: i32)
    requires
        0 < step <= 10000,
        dec_press == inc_press,
    ensures
        sidebar_rows_view(final(v)@) == sidebar_rows_view(old(v)@) + stepper_rows(label@, inc_press, step),
{
    let ghost before = sidebar_rows_view(v@);
    let mut dec = String::from_str(label);
    dec.append(" −");
    let mut inc = String::from_str(label);
    inc.append(" +");
    let r1 = SidebarRow { label: dec, value: String::from_str(""), press: dec_press, tone: Tone::Text, focused: false, step: -step };
    let ghost r1v = r1@;
    v.push(r1);
    let r2 = SidebarRow { label: inc, value: String::from_str(""), press: inc_press, tone: Tone::Text, focused: false, step };
    let ghost r2v = r2@;
    v.push(r2);
    proof {
        reveal_strlit("");
    }
    assert(sidebar_rows_view(v@) =~= before + stepper_rows(label@, inc_press, step));
}

/// Name, theme, stick binding, cooldown and opacity of the radial-menu
/// panel.
pub open spec fn wheel_basic_rows(u: EditorUiView, m: RadialMenuView) -> Seq<SidebarRowView> {
    let typing = u.editing == EditFocus::WheelName;
    let stick = u.editing == EditFocus::WheelStick;
    seq![
        srow("Name"@, typed_text(m.name, typing), EditorAction::EditWheelName, typing_tone(typing)),
        srow("Theme"@, crate::text::decimal(m.theme.0 as nat), EditorAction::ToggleWheelThemePopup, Tone::Text),
        srow("Stick"@, stick_text(stick, m.stick_binding), EditorAction::CaptureWheelStick, if stick { Tone::Amber } else { Tone::Text }),
    ] + stepper_rows("Cooldown (s)"@, EditorAction::WheelCooldownDelta { value: m.cooldown_secs }, 50)
        + stepper_rows("Opacity"@, EditorAction::WheelOpacityDelta { value: m.opacity }, 5)
        + seq![
        srow("Show labels"@, on_off(m.show_labels), EditorAction::ToggleWheelShowLabels, Tone::Text),
        srow("Show icons"@, on_off(m.show_icon), EditorAction::ToggleWheelShowIcon, Tone::Text),
        srow("Highlight"@, m.highlight_color, EditorAction::CycleHighlightColor, Tone::Text),
    ]
}

/// Background, outer circle, inner circle and hub settings of the
/// radial-menu panel.
pub open spec fn wheel_circle_rows(m: RadialMenuView) -> Seq<SidebarRowView> {
    let (bg, bgt) = color_value(m.bg_color, "Theme"@);
    let (ob, obt) = color_value(m.outer_border, "None"@);
    let (ib, ibt) = color_value(m.inner_border, "None"@);
    let (hb, hbt) = color_value(m.hub_color, "Theme"@);
    seq![srow("Background color"@, bg, EditorAction::CycleWheelBgColor, bgt)]
        + stepper_rows("Background opacity"@, EditorAction::WheelBgOpacityDelta { value: m.bg_opacity }, 5)
        + stepper_rows("Outer radius"@, EditorAction::WheelOuterRadiusDelta { value: m.outer_radius }, 500)
        + seq![srow("Outer border color"@, ob, EditorAction::CycleOuterBorderColor, obt)]
        + stepper_rows("Outer border width"@, EditorAction::WheelOuterBorderWidthDelta { value: m.outer_border_width }, 50)
        + stepper_rows("Inner radius"@, EditorAction::WheelInnerRadiusDelta { value: m.inner_radius }, 200)
        + seq![srow("Inner border color"@, ib, EditorAction::CycleInnerBorderColor, ibt)]
        + stepper_rows("Inner border width"@, EditorAction::WheelInnerBorderWidthDelta { value: m.inner_border_width }, 50)
        + seq![srow("Hub color"@, hb, EditorAction::CycleWheelHubColor, hbt)]
        + stepper_rows("Hub opacity"@, EditorAction::WheelHubOpacityDelta { value: m.hub_opacity }, 5)
}

/// The rows of the first `n` sectors: the sector's number and name, opening
/// the sector's panel.
pub open spec fn sector_list(set: usize, entry: usize, wheel: Option<usize>, slots: Seq<SectorView>, n: int) -> Seq<SidebarRowView>
    decreases n,
{
    if n <= 0 {
        Seq::empty()
    } else {
        let i = (n - 1) as usize;
        sector_list(set, entry, wheel, slots, n - 1) + seq![
            srow(crate::text::decimal(n as nat), slots[n - 1].name, EditorAction::SelectSegment { set, entry, wheel, slot: i }, Tone::Text),
        ]
    }
}

/// The controls of the panel of radial menu `m` at `(set, entry)` (number
/// `wheel` of a set, or a standalone menu when `wheel` is `None`): its basic
/// and circle settings, then one row per sector.
pub open spec fn wheel_editor_spec(u: EditorUiView, set: usize, entry: usize, wheel: Option<usize>, m: RadialMenuView) -> Seq<SidebarRowView> {
    wheel_basic_rows(u, m) + wheel_circle_rows(m) + sector_list(set, entry, wheel, m.slots, m.slots.len() as int)
}

fn push_wheel_basics(v: &mut Vec<SidebarRow>, ui: &EditorUiState, m: &RadialMenu)
    ensures
        sidebar_rows_view(final(v)@) == sidebar_rows_view(old(v)@) + wheel_basic_rows(ui@, m@),
{
    let ghost before = sidebar_rows_view(v@);
    let typing = ui.editing == EditFocus::WheelName;
    let stick = ui.editing == EditFocus::WheelStick;
    push_row(v, "Name", typed_text_of(&m.name, typing), EditorAction::EditWheelName, typing_tone_of(typing));
    push_row(v, "Theme", crate::text::usize_to_decimal(m.theme.0 as usize), EditorAction::ToggleWheelThemePopup, Tone::Text);
    let mut st = if stick {
        String::from_str("press stick… ")
    } else {
        String::new()
    };
    st.append(m.stick_binding.as_str());
    assert(st@ =~= stick_text(stick, m@.stick_binding));
    push_row(v, "Stick", st, EditorAction::CaptureWheelStick, if stick { Tone::Amber } else { Tone::Text });
    push_stepper(v, "Cooldown (s)", EditorAction::WheelCooldownDelta { value: m.cooldown_secs }, EditorAction::WheelCooldownDelta { value: m.cooldown_secs }, 50);
    push_stepper(v, "Opacity", EditorAction::WheelOpacityDelta { value: m.opacity }, EditorAction::WheelOpacityDelta { value: m.opacity }, 5);
    push_row(v, "Show labels", on_off_string(m.show_labels), EditorAction::ToggleWheelShowLabels, Tone::Text);
    push_row(v, "Show icons", on_off_string(m.show_icon), EditorAction::ToggleWheelShowIcon, Tone::Text);
    push_row(v, "Highlight", m.highlight_color.clone(), EditorAction::CycleHighlightColor, Tone::Text);
    assert(sidebar_rows_view(v@) =~= before + wheel_basic_rows(ui@, m@));
}

fn push_wheel_circles(v: &mut Vec<SidebarRow>, m: &RadialMenu)
    ensures
        sidebar_rows_view(final(v)@) == sidebar_rows_view(old(v)@) + wheel_circle_rows(m@),
{
    let ghost before = sidebar_rows_view(v@);
    let (bg, bgt) = color_value_of(&m.bg_color, "Theme");
    push_row(v, "Background color", bg, EditorAction::CycleWheelBgColor, bgt);
    push_stepper(v, "Background opacity", EditorAction::WheelBgOpacityDelta { value: m.bg_opacity }, EditorAction::WheelBgOpacityDelta { value: m.bg_opacity }, 5);
    push_stepper(v, "Outer radius", EditorAction::WheelOuterRadiusDelta { value: m.outer_radius }, EditorAction::WheelOuterRadiusDelta { value: m.outer_radius }, 500);
    let (ob, obt) = color_value_of(&m.outer_border, "None");
    push_row(v, "Outer border color", ob, EditorAction::CycleOuterBorderColor, obt);
    push_stepper(v, "Outer border width", EditorAction::WheelOuterBorderWidthDelta { value: m.outer_border_width }, EditorAction::WheelOuterBorderWidthDelta { value: m.outer_border_width }, 50);
    push_stepper(v, "Inner radius", EditorAction::WheelInnerRadiusDelta { value: m.inner_radius }, EditorAction::WheelInnerRadiusDelta { value: m.inner_radius }, 200);
    let (ib, ibt) = color_value_of(&m.inner_border, "None");
    push_row(v, "Inner border color", ib, EditorAction::CycleInnerBorderColor, ibt);
    push_stepper(v, "Inner border width", EditorAction::WheelInnerBorderWidthDelta { value: m.inner_border_width }, EditorAction::WheelInnerBorderWidthDelta { value: m.inner_border_width }, 50);
    let (hb, hbt) = color_value_of(&m.hub_color, "Theme");
    push_row(v, "Hub color", hb, EditorAction::CycleWheelHubColor, hbt);
    push_stepper(v, "Hub opacity", EditorAction::WheelHubOpacityDelta { value: m.hub_opacity }, EditorAction::WheelHubOpacityDelta { value: m.hub_opacity }, 5);
    assert(sidebar_rows_view(v@) =~= before + wheel_circle_rows(m@));
}

fn push_sector_list(v: &mut Vec<SidebarRow>, set: usize, entry: usize, wheel: Option<usize>, m: &RadialMenu)
    ensures
        sidebar_rows_view(final(v)@) == sidebar_rows_view(old(v)@) + sector_list(set, entry, wheel, m@.slots, m@.slots.len() as int),
{
    let ghost head = sidebar_rows_view(v@);
    let ghost slots = m@.slots;
    let n = m.slots.len();
    let mut i: usize = 0;
    while i < n
        invariant
            n == m.slots@.len(),
            slots == m@.slots,
            slots.len() == n,
            i <= n,
            sidebar_rows_view(v@) == head + sector_list(set, entry, wheel, slots, i as int),
        decreases n - i,
    {
        let num = crate::text::usize_to_decimal(i + 1);
        let r = SidebarRow { label: num, value: m.slots[i].name.clone(), press: EditorAction::SelectSegment { set, entry, wheel, slot: i }, tone: Tone::Text, focused: false, step: 0 };
        let ghost before = sidebar_rows_view(v@);
        let ghost rv = r@;
        v.push(r);
        assert(sidebar_rows_view(v@) =~= before.push(rv));
        assert(sidebar_rows_view(v@) =~= head + sector_list(set, entry, wheel, slots, i + 1));
        i = i + 1;
    }
}

/// The controls of the panel of radial menu `m` (see [`wheel_editor_spec`]).
pub fn wheel_editor_rows(ui: &EditorUiState, set: usize, entry: usize, wheel: Option<usize>, m: &RadialMenu) -> (r: Vec<SidebarRow>)
    ensures
        sidebar_rows_view(r@) == wheel_editor_spec(ui@, set, entry, wheel, m@),
{
    let mut v: Vec<SidebarRow> = Vec::new();
    push_wheel_basics(&mut v, ui, m);
    push_wheel_circles(&mut v, m);
    push_sector_list(&mut v, set, entry, wheel, m);
    assert(sidebar_rows_view(v@) =~= wheel_editor_spec(ui@, set, entry, wheel, m@));
    v
}

// ─── page panel ───────────────────────────────────────────────────────────────

/// `Tone::Amber` for the selected row, else `Tone::Text`.
pub open spec fn sel_tone(selected: bool) -> Tone {
    if selected {
        Tone::Amber
    } else {
        Tone::Text
    }
}

/// The radial-menu rows of the first `n` entries of page `si`: a standalone
/// radial menu's [`standalone_rows`]; for a radial menu set, open the set
/// (its name and menu count), add a radial menu to it, delete it, then its
/// radial menus.
pub open spec fn nav_wheel_section(u: EditorUiView, si: usize, entries: Seq<SetEntryView>, n: int) -> Seq<SidebarRowView>
    decreases n,
{
    if n <= 0 {
        Seq::empty()
    } else {
        let ei = (n - 1) as usize;
        nav_wheel_section(u, si, entries, n - 1) + match entries[n - 1] {
            SetEntryView::RadialMenuSet(w) => seq![
                srow(w.name, crate::text::decimal(w.radial_menus.len()) + "w"@, EditorAction::SelectWheelSetEntry { set: si, entry: ei }, sel_tone(u.selection == (Selection::WheelSetEntry { set: si, entry: ei }))),
                srow("+"@, ""@, EditorAction::AddWheelToSet { set: si, entry: ei }, Tone::Text),
                srow("Delete"@, ""@, EditorAction::DeleteEntry { set: si, entry: ei }, Tone::Dim),
            ] + wheel_list(u, si, ei, w.radial_menus, w.radial_menus.len() as int),
            SetEntryView::Wheel(m) => standalone_rows(u, si, ei, m),
            _ => Seq::empty(),
        }
    }
}

/// The rows of standalone radial menu `m` at `(si, ei)`: open it (amber
/// while selected) and delete it.
pub open spec fn standalone_rows(u: EditorUiView, si: usize, ei: usize, m: RadialMenuView) -> Seq<SidebarRowView> {
    seq![
        srow(m.name, ""@, EditorAction::SelectWheel { set: si, entry: ei, wheel: None }, sel_tone(u.selection == (Selection::Wheel { set: si, entry: ei, wheel: None }))),
        srow("Delete"@, ""@, EditorAction::DeleteEntry { set: si, entry: ei }, Tone::Dim),
    ]
}

/// The quick-action and HUD-switch rows of the first `n` entries of page
/// `si`: open the entry (its name and key) and delete it.
pub open spec fn nav_button_section(u: EditorUiView, si: usize, entries: Seq<SetEntryView>, n: int) -> Seq<SidebarRowView>
    decreases n,
{
    if n <= 0 {
        Seq::empty()
    } else {
        let ei = (n - 1) as usize;
        nav_button_section(u, si, entries, n - 1) + match entries[n - 1] {
            SetEntryView::Action(a) => seq![
                srow(a.name, a.key, EditorAction::SelectAction { set: si, entry: ei }, sel_tone(u.selection == (Selection::Action { set: si, entry: ei }))),
                srow("Delete"@, ""@, EditorAction::DeleteEntry { set: si, entry: ei }, Tone::Dim),
            ],
            SetEntryView::HudSwitch(h) => seq![
                srow(h.name, h.key, EditorAction::SelectHudSwitch { set: si, entry: ei }, sel_tone(u.selection == (Selection::HudSwitch { set: si, entry: ei }))),
                srow("Delete"@, ""@, EditorAction::DeleteEntry { set: si, entry: ei }, Tone::Dim),
            ],
            _ => Seq::empty(),
        }
    }
}

/// Text and colour of the background-image field.
pub open spec fn bg_image_value(typing: bool, path: Seq<char>) -> (Seq<char>, Tone) {
    if typing {
        (path + "|"@, Tone::Amber)
    } else if path.len() == 0 {
        ("none"@, Tone::Dim)
    } else {
        (path, Tone::Text)
    }
}

/// The settings of page `s` (number `si`): opacity, background image and its
/// opacity, the add buttons, the radial-menu sets, then the quick actions
/// and HUD switches.
pub open spec fn page_body(u: EditorUiView, si: usize, s: ActionSetView) -> Seq<SidebarRowView> {
    let (bd, bt) = bg_image_value(u.editing == EditFocus::SetBgImage(si), s.bg_image);
    stepper_rows("Opacity"@, EditorAction::SetOpacityDelta { set: si, value: s.opacity }, 5)
        + seq![srow("BG image"@, bd, EditorAction::EditSetBgImage { set: si }, bt)]
        + stepper_rows("BG opacity"@, EditorAction::SetBgImageOpacityDelta { set: si, value: s.bg_image_opacity }, 5)
        + seq![
        srow("+ Button"@, ""@, EditorAction::AddAction { set: si }, Tone::Amber),
        srow("+ Wheel set"@, ""@, EditorAction::AddWheelSet { set: si }, Tone::Text),
        srow("+ HUD switch"@, ""@, EditorAction::AddHudSwitch { set: si }, Tone::Text),
    ] + nav_wheel_section(u, si, s.entries, s.entries.len() as int)
        + seq![srow("+"@, ""@, EditorAction::AddAction { set: si }, Tone::Text)]
        + nav_button_section(u, si, s.entries, s.entries.len() as int)
}

/// The controls of the page panel for page `si`: back, the page's name (`—`
/// for a page that does not exist), and, for an existing page,
/// [`page_body`].
pub open spec fn page_panel_spec(c: ConfigView, u: EditorUiView, si: usize) -> Seq<SidebarRowView> {
    let exists = si < c.sets.len();
    let typing = u.editing == EditFocus::SetName && u.selection == (Selection::Page { set: si });
    let name = if exists { c.sets[si as int].name } else { "—"@ };
    seq![
        srow("Back"@, "Action Sets"@, EditorAction::NavBack, Tone::Dim),
        srow("Name"@, typed_text(name, typing), EditorAction::EditSetName { set: si }, typing_tone(typing)),
    ] + if exists {
        page_body(u, si, c.sets[si as int])
    } else {
        Seq::empty()
    }
}

fn push_nav_wheel_section(v: &mut Vec<SidebarRow>, ui: &EditorUiState, si: usize, s: &crate::model::ActionSet)
    ensures
        sidebar_rows_view(final(v)@) == sidebar_rows_view(old(v)@) + nav_wheel_section(ui@, si, s@.entries, s@.entries.len() as int),
{
    proof {
        reveal_strlit("");
        reveal_strlit("w");
    }
    let ghost head = sidebar_rows_view(v@);
    let ghost entries = s@.entries;
    let n = s.entries.len();
    let mut i: usize = 0;
    while i < n
        invariant
            n == s.entries@.len(),
            entries == s@.entries,
            entries.len() == n,
            i <= n,
            sidebar_rows_view(v@) == head + nav_wheel_section(ui@, si, entries, i as int),
        decreases n - i,
    {
        let ghost before = sidebar_rows_view(v@);
        match &s.entries[i] {
            SetEntry::RadialMenuSet(w) => {
                let mut count = crate::text::usize_to_decimal(w.radial_menus.len());
                count.append("w");
                let selected = ui.selection == (Selection::WheelSetEntry { set: si, entry: i });
                push_row(v, w.name.as_str(), count, EditorAction::SelectWheelSetEntry { set: si, entry: i }, if selected { Tone::Amber } else { Tone::Text });
                push_row(v, "+", String::from_str(""), EditorAction::AddWheelToSet { set: si, entry: i }, Tone::Text);
                push_row(v, "Delete", String::from_str(""), EditorAction::DeleteEntry { set: si, entry: i }, Tone::Dim);
                push_wheel_list(v, ui, si, i, w);
            },
            SetEntry::Wheel(m) => {
                let selected = ui.selection == (Selection::Wheel { set: si, entry: i, wheel: None });
                push_row(v, m.name.as_str(), String::from_str(""), EditorAction::SelectWheel { set: si, entry: i, wheel: None }, if selected { Tone::Amber } else { Tone::Text });
                push_row(v, "Delete", String::from_str(""), EditorAction::DeleteEntry { set: si, entry: i }, Tone::Dim);
            },
            _ => {},
        }
        assert(sidebar_rows_view(v@) =~= head + nav_wheel_section(ui@, si, entries, i + 1));
        i = i + 1;
    }
}

fn push_nav_button_section(v: &mut Vec<SidebarRow>, ui: &EditorUiState, si: usize, s: &crate::model::ActionSet)
    ensures
        sidebar_rows_view(final(v)@) == sidebar_rows_view(old(v)@) + nav_button_section(ui@, si, s@.entries, s@.entries.len() as int),
{
    proof {
        reveal_strlit("");
    }
    let ghost head = sidebar_rows_view(v@);
    let ghost entries = s@.entries;
    let n = s.entries.len();
    let mut i: usize = 0;
    while i < n
        invariant
            n == s.entries@.len(),
            entries == s@.entries,
            entries.len() == n,
            i <= n,
            sidebar_rows_view(v@) == head + nav_button_section(ui@, si, entries, i as int),
        decreases n - i,
    {
        match &s.entries[i] {
            SetEntry::Action(a) => {
                let selected = ui.selection == (Selection::Action { set: si, entry: i });
                push_row(v, a.name.as_str(), a.key.clone(), EditorAction::SelectAction { set: si, entry: i }, if selected { Tone::Amber } else { Tone::Text });
                push_row(v, "Delete", String::from_str(""), EditorAction::DeleteEntry { set: si, entry: i }, Tone::Dim);
            },
            SetEntry::HudSwitch(h) => {
                let selected = ui.selection == (Selection::HudSwitch { set: si, entry: i });
                push_row(v, h.name.as_str(), h.key.clone(), EditorAction::SelectHudSwitch { set: si, entry: i }, if selected { Tone::Amber } else { Tone::Text });
                push_row(v, "Delete", String::from_str(""), EditorAction::DeleteEntry { set: si, entry: i }, Tone::Dim);
            },
            _ => {},
        }
        assert(sidebar_rows_view(v@) =~= head + nav_button_section(ui@, si, entries, i + 1));
        i = i + 1;
    }
}

fn push_page_body(v: &mut Vec<SidebarRow>, ui: &EditorUiState, si: usize, s: &crate::model::ActionSet)
    ensures
        sidebar_rows_view(final(v)@) == sidebar_rows_view(old(v)@) + page_body(ui@, si, s@),
{
    proof {
        reveal_strlit("");
        reveal_strlit("none");
    }
    let ghost before = sidebar_rows_view(v@);
    push_stepper(v, "Opacity", EditorAction::SetOpacityDelta { set: si, value: s.opacity }, EditorAction::SetOpacityDelta { set: si, value: s.opacity }, 5);
    let typing = ui.editing == EditFocus::SetBgImage(si);
    let (bd, bt) = if typing {
        (typed_text_of(&s.bg_image, true), Tone::Amber)
    } else if s.bg_image.as_str().unicode_len() == 0 {
        (String::from_str("none"), Tone::Dim)
    } else {
        (s.bg_image.clone(), Tone::Text)
    };
    push_row(v, "BG image", bd, EditorAction::EditSetBgImage { set: si }, bt);
    push_stepper(v, "BG opacity", EditorAction::SetBgImageOpacityDelta { set: si, value: s.bg_image_opacity }, EditorAction::SetBgImageOpacityDelta { set: si, value: s.bg_image_opacity }, 5);
    push_row(v, "+ Button", String::from_str(""), EditorAction::AddAction { set: si }, Tone::Amber);
    push_row(v, "+ Wheel set", String::from_str(""), EditorAction::AddWheelSet { set: si }, Tone::Text);
    push_row(v, "+ HUD switch", String::from_str(""), EditorAction::AddHudSwitch { set: si }, Tone::Text);
    let ghost mid = sidebar_rows_view(v@);
    push_nav_wheel_section(v, ui, si, s);
    push_row(v, "+", String::from_str(""), EditorAction::AddAction { set: si }, Tone::Text);
    push_nav_button_section(v, ui, si, s);
    assert(sidebar_rows_view(v@) =~= before + page_body(ui@, si, s@));
}

/// The controls of the page panel (see [`page_panel_spec`]).
pub fn page_panel_rows(cfg: &QuickActionConfig, ui: &EditorUiState, si: usize) -> (r: Vec<SidebarRow>)
    ensures
        sidebar_rows_view(r@) == page_panel_spec(cfg@, ui@, si),
{
    let exists = si < cfg.sets.len();
    let typing = ui.editing == EditFocus::SetName && ui.selection == (Selection::Page { set: si });
    let mut v: Vec<SidebarRow> = Vec::new();
    push_row(&mut v, "Back", String::from_str("Action Sets"), EditorAction::NavBack, Tone::Dim);
    let name = if exists {
        typed_text_of(&cfg.sets[si].name, typing)
    } else {
        typed_text_of(&String::from_str("—"), typing)
    };
    push_row(&mut v, "Name", name, EditorAction::EditSetName { set: si }, typing_tone_of(typing));
    let ghost head = sidebar_rows_view(v@);
    if exists {
        push_page_body(&mut v, ui, si, &cfg.sets[si]);
    }
    assert(sidebar_rows_view(v@) =~= page_panel_spec(cfg@, ui@, si));
    v
}

// ─── the whole sidebar ────────────────────────────────────────────────────────

/// The sector shown for a slot that does not exist: every field empty or off.
pub open spec fn blank_sector() -> SectorView {
    SectorView { name: ""@, icon: ""@, command: ""@, hold_command: ""@, hold: false, close_on_select: false, input: ""@ }
}

/// The name of page `set`, or `Set` when it does not exist.
pub open spec fn page_caption(c: ConfigView, set: usize) -> Seq<char> {
    if set < c.sets.len() {
        c.sets[set as int].name
    } else {
        "Set"@
    }
}

/// The panel the selection opens, without the footer: the root for no
/// selection; the page panel for a page (page 0 for the set switcher); the
/// quick-action, HUD-switch, radial-menu, radial-menu-set or sector panel
/// (each after its back button) when its target exists; otherwise the page
/// panel of the selection's page.
pub open spec fn sidebar_body(c: ConfigView, u: EditorUiView) -> Seq<SidebarRowView> {
    match u.selection {
        Selection::Nothing => root_sidebar_spec(c, u),
        Selection::Page { set } => page_panel_spec(c, u, set),
        Selection::SetSwitch => page_panel_spec(c, u, 0),
        Selection::Action { set, entry } => match action_at(c, set as int, entry as int) {
            Some(a) => header_rows(page_caption(c, set), a.name) + action_editor_spec(u, set, entry, a),
            None => page_panel_spec(c, u, set),
        },
        Selection::HudSwitch { set, entry } => match switch_at(c, set as int, entry as int) {
            Some(h) => header_rows(page_caption(c, set), h.name) + switch_editor_spec(c, u, set, entry, h),
            None => page_panel_spec(c, u, set),
        },
        Selection::WheelSetEntry { set, entry } => match wheel_set_at(c, set as int, entry as int) {
            Some(w) => header_rows(page_caption(c, set), w.name) + wheelset_entry_editor_spec(u, set, entry, w),
            None => page_panel_spec(c, u, set),
        },
        Selection::Wheel { set, entry, wheel } => match panel_menu(c, set, entry, wheel) {
            Some(m) => menu_header(c, set, entry, wheel, m.name) + wheel_editor_spec(u, set, entry, wheel, m),
            None => page_panel_spec(c, u, set),
        },
        Selection::Segment { set, entry, wheel, slot } => match panel_menu(c, set, entry, wheel) {
            Some(m) => {
                let sector = if slot < m.slots.len() { m.slots[slot as int] } else { blank_sector() };
                header_rows(m.name, sector.name) + segment_editor_spec(u, slot, sector)
            },
            None => page_panel_spec(c, u, set),
        },
    }
}

/// The radial menu a radial-menu or sector panel edits: menu `i` of the set
/// at `(set, entry)`, or, for no `wheel`, the standalone menu at
/// `(set, entry)`.
pub open spec fn panel_menu(c: ConfigView, set: usize, entry: usize, wheel: Option<usize>) -> Option<RadialMenuView> {
    match wheel {
        Some(i) => menu_at(c, set as int, entry as int, i as int),
        None => match entry_at(c, set as int, entry as int) {
            Some(SetEntryView::Wheel(m)) => Some(m),
            _ => None,
        },
    }
}

/// The back button of a radial-menu panel: where the panel is, `set name |
/// menu name` for a menu of a set, the menu's name alone for a standalone
/// one.
pub open spec fn menu_header(c: ConfigView, set: usize, entry: usize, wheel: Option<usize>, name: Seq<char>) -> Seq<SidebarRowView> {
    match wheel {
        Some(_) => header_rows(wheel_set_at(c, set as int, entry as int)->0.name, name),
        None => seq![srow("Back"@, name, EditorAction::NavBack, Tone::Dim)],
    }
}

fn get_panel_menu(cfg: &QuickActionConfig, set: usize, entry: usize, wheel: Option<usize>) -> (r: Option<RadialMenu>)
    ensures
        r is Some <==> panel_menu(cfg@, set, entry, wheel) is Some,
        r is Some ==> r->0@ == panel_menu(cfg@, set, entry, wheel)->0,
{
    match wheel {
        Some(i) => get_menu(cfg, set, entry, i),
        None => {
            if set < cfg.sets.len() && entry < cfg.sets[set].entries.len() {
                match &cfg.sets[set].entries[entry] {
                    SetEntry::Wheel(m) => Some(m.clone()),
                    _ => None,
                }
            } else {
                None
            }
        },
    }
}

/// `rows` with the gamepad focus on row `f`, when there is such a row.
pub open spec fn with_focus(rows: Seq<SidebarRowView>, f: usize) -> Seq<SidebarRowView> {
    if f < rows.len() {
        rows.update(f as int, SidebarRowView { focused: true, ..rows[f as int] })
    } else {
        rows
    }
}

/// The whole sidebar: the selection's panel, then the footer, with the
/// gamepad focus on row `navfocus`.
pub open spec fn sidebar_spec(c: ConfigView, u: EditorUiView) -> Seq<SidebarRowView> {
    with_focus(sidebar_body(c, u) + footer_rows(), u.navfocus)
}

fn push_body(v: &mut Vec<SidebarRow>, cfg: &QuickActionConfig, ui: &EditorUiState)
    requires
        old(v)@.len() == 0,
    ensures
        sidebar_rows_view(final(v)@) == sidebar_body(cfg@, ui@),
{
    let ghost empty = sidebar_rows_view(v@);
    assert(empty =~= Seq::<SidebarRowView>::empty());
    match ui.selection {
        Selection::Nothing => {
            *v = root_sidebar_rows(cfg, ui);
        },
        Selection::Page { set } => {
            *v = page_panel_rows(cfg, ui, set);
        },
        Selection::SetSwitch => {
            *v = page_panel_rows(cfg, ui, 0);
        },
        Selection::Action { set, entry } => match get_action(cfg, set, entry) {
            Some(a) => {
                push_header(v, &page_name(cfg, set), &a.name);
                let rows = action_editor_rows(ui, set, entry, &a);
                append_rows(v, rows);
            },
            None => {
                *v = page_panel_rows(cfg, ui, set);
            },
        },
        Selection::HudSwitch { set, entry } => match get_switch(cfg, set, entry) {
            Some(h) => {
                push_header(v, &page_name(cfg, set), &h.name);
                let rows = switch_editor_rows(cfg, ui, set, entry, &h);
                append_rows(v, rows);
            },
            None => {
                *v = page_panel_rows(cfg, ui, set);
            },
        },
        Selection::WheelSetEntry { set, entry } => match get_wheel_set(cfg, set, entry) {
            Some(w) => {
                push_header(v, &page_name(cfg, set), &w.name);
                let rows = wheelset_entry_editor_rows(ui, set, entry, &w);
                append_rows(v, rows);
            },
            None => {
                *v = page_panel_rows(cfg, ui, set);
            },
        },
        Selection::Wheel { set, entry, wheel } => {
            match get_panel_menu(cfg, set, entry, wheel) {
                Some(m) => {
                    match wheel {
                        Some(_) => {
                            let ws = get_wheel_set(cfg, set, entry).unwrap();
                            push_header(v, &ws.name, &m.name);
                        },
                        None => {
                            push_row(v, "Back", m.name.clone(), EditorAction::NavBack, Tone::Dim);
                        },
                    }
                    let rows = wheel_editor_rows(ui, set, entry, wheel, &m);
                    append_rows(v, rows);
                },
                None => {
                    *v = page_panel_rows(cfg, ui, set);
                },
            }
        },
        Selection::Segment { set, entry, wheel, slot } => {
            match get_panel_menu(cfg, set, entry, wheel) {
                Some(m) => {
                    proof {
                        reveal_strlit("");
                    }
                    let sector = if slot < m.slots.len() {
                        let c = m.slots[slot].clone();
                        assert(c@ == m@.slots[slot as int]);
                        c
                    } else {
                        Sector {
                            name: String::from_str(""),
                            icon: String::from_str(""),
                            command: String::from_str(""),
                            hold_command: String::from_str(""),
                            hold: false,
                            close_on_select: false,
                            input: String::from_str(""),
                        }
                    };
                    assert(sector@ == (if slot < m@.slots.len() { m@.slots[slot as int] } else { blank_sector() }));
                    push_header(v, &m.name, &sector.name);
                    let rows = segment_editor_rows(ui, slot, &sector);
                    append_rows(v, rows);
                },
                None => {
                    *v = page_panel_rows(cfg, ui, set);
                },
            }
        },
    }
}

/// The name of page `set`, or `Set` when it does not exist.
fn page_name(cfg: &QuickActionConfig, set: usize) -> (r: String)
    ensures
        r@ == page_caption(cfg@, set),
{
    if set < cfg.sets.len() {
        cfg.sets[set].name.clone()
    } else {
        String::from_str("Set")
    }
}

fn append_rows(v: &mut Vec<SidebarRow>, rows: Vec<SidebarRow>)
    ensures
        sidebar_rows_view(final(v)@) == sidebar_rows_view(old(v)@) + sidebar_rows_view(rows@),
{
    let ghost a = sidebar_rows_view(v@);
    let ghost b = sidebar_rows_view(rows@);
    let mut rows = rows;
    v.append(&mut rows);
    assert(sidebar_rows_view(v@) =~= a + b);
}

/// The rows of the whole sidebar for the current selection (see
/// [`sidebar_spec`]); the HUD state is not consulted.
pub fn sidebar_rows(cfg: &QuickActionConfig, ui: &EditorUiState, _hud: &WheelHudState) -> (r: Vec<SidebarRow>)
    ensures
        sidebar_rows_view(r@) == sidebar_spec(cfg@, ui@),
{
    let mut v: Vec<SidebarRow> = Vec::new();
    push_body(&mut v, cfg, ui);
    push_footer(&mut v);
    let ghost all = sidebar_rows_view(v@);
    let f = ui.navfocus;
    if f < v.len() {
        let mut row = v.remove(f);
        row.focused = true;
        let ghost rv = row@;
        v.insert(f, row);
        assert(sidebar_rows_view(v@) =~= all.update(f as int, rv));
    }
    assert(sidebar_rows_view(v@) =~= sidebar_spec(cfg@, ui@));
    v
}

/// The action a press of the focused row sends: that of row `navfocus`, when
/// there is one.
pub fn focused_action(rows: &Vec<SidebarRow>, navfocus: usize) -> (r: Option<EditorAction>)
    ensures
        r == (if navfocus < rows@.len() { Some(rows@[navfocus as int].press) } else { None::<EditorAction> }),
{
    if navfocus < rows.len() {
        Some(rows[navfocus].press.clone())
    } else {
        None
    }
}

// ─── focus ────────────────────────────────────────────────────────────────────

/// No row of `s` has the gamepad focus.
pub open spec fn unfocused(s: Seq<SidebarRowView>) -> bool {
    forall|i: int| 0 <= i < s.len() ==> !(#[trigger] s[i]).focused
}

proof fn lemma_unfocused_concat(a: Seq<SidebarRowView>, b: Seq<SidebarRowView>)
    requires
        unfocused(a),
        unfocused(b),
    ensures
        unfocused(a + b),
{
    assert forall|i: int| 0 <= i < (a + b).len() implies !(#[trigger] (a + b)[i]).focused by {
        if i < a.len() {
            assert((a + b)[i] == a[i]);
        } else {
            assert((a + b)[i] == b[i - a.len()]);
        }
    }
}

proof fn lemma_wheel_list_unfocused(u: EditorUiView, set: usize, entry: usize, menus: Seq<crate::model::RadialMenuView>, n: int)
    ensures
        unfocused(wheel_list(u, set, entry, menus, n)),
    decreases n,
{
    if n > 0 {
        lemma_wheel_list_unfocused(u, set, entry, menus, n - 1);
        let i = (n - 1) as usize;
        let selected = u.selection == (Selection::Wheel { set, entry, wheel: Some(i) });
        lemma_unfocused_concat(wheel_list(u, set, entry, menus, n - 1), seq![
            srow(menus[n - 1].name, ""@, EditorAction::SelectWheel { set, entry, wheel: Some(i) }, if selected { Tone::Amber } else { Tone::Text }),
            srow("Delete"@, ""@, EditorAction::DeleteWheelFromSet { set, entry, wheel: i }, Tone::Dim),
        ]);
    }
}

proof fn lemma_page_list_unfocused(sets: Seq<ActionSetView>, n: int)
    ensures
        unfocused(page_list(sets, n)),
    decreases n,
{
    if n > 0 {
        lemma_page_list_unfocused(sets, n - 1);
        let i = (n - 1) as usize;
        lemma_unfocused_concat(page_list(sets, n - 1), seq![
            srow(sets[n - 1].name, ""@, EditorAction::SelectSet { set: i }, Tone::Text),
            srow(""@, on_off(sets[n - 1].enabled), EditorAction::ToggleSetEnabled { set: i }, Tone::Text),
            srow("Delete"@, ""@, EditorAction::DeleteSet { set: i }, Tone::Dim),
        ]);
    }
}

proof fn lemma_sector_list_unfocused(set: usize, entry: usize, wheel: Option<usize>, slots: Seq<SectorView>, n: int)
    ensures
        unfocused(sector_list(set, entry, wheel, slots, n)),
    decreases n,
{
    if n > 0 {
        lemma_sector_list_unfocused(set, entry, wheel, slots, n - 1);
        let i = (n - 1) as usize;
        lemma_unfocused_concat(sector_list(set, entry, wheel, slots, n - 1), seq![
            srow(crate::text::decimal(n as nat), slots[n - 1].name, EditorAction::SelectSegment { set, entry, wheel, slot: i }, Tone::Text),
        ]);
    }
}

proof fn lemma_nav_sections_unfocused(u: EditorUiView, si: usize, entries: Seq<SetEntryView>, n: int)
    ensures
        unfocused(nav_wheel_section(u, si, entries, n)),
        unfocused(nav_button_section(u, si, entries, n)),
    decreases n,
{
    if n > 0 {
        lemma_nav_sections_unfocused(u, si, entries, n - 1);
        let ei = (n - 1) as usize;
        let w_rows = match entries[n - 1] {
            SetEntryView::RadialMenuSet(w) => {
                lemma_wheel_list_unfocused(u, si, ei, w.radial_menus, w.radial_menus.len() as int);
                let head = seq![
                    srow(w.name, crate::text::decimal(w.radial_menus.len()) + "w"@, EditorAction::SelectWheelSetEntry { set: si, entry: ei }, sel_tone(u.selection == (Selection::WheelSetEntry { set: si, entry: ei }))),
                    srow("+"@, ""@, EditorAction::AddWheelToSet { set: si, entry: ei }, Tone::Text),
                    srow("Delete"@, ""@, EditorAction::DeleteEntry { set: si, entry: ei }, Tone::Dim),
                ];
                lemma_unfocused_concat(head, wheel_list(u, si, ei, w.radial_menus, w.radial_menus.len() as int));
                head + wheel_list(u, si, ei, w.radial_menus, w.radial_menus.len() as int)
            },
            SetEntryView::Wheel(m) => standalone_rows(u, si, ei, m),
            _ => Seq::empty(),
        };
        lemma_unfocused_concat(nav_wheel_section(u, si, entries, n - 1), w_rows);
        let b_rows = match entries[n - 1] {
            SetEntryView::Action(a) => seq![
                srow(a.name, a.key, EditorAction::SelectAction { set: si, entry: ei }, sel_tone(u.selection == (Selection::Action { set: si, entry: ei }))),
                srow("Delete"@, ""@, EditorAction::DeleteEntry { set: si, entry: ei }, Tone::Dim),
            ],
            SetEntryView::HudSwitch(h) => seq![
                srow(h.name, h.key, EditorAction::SelectHudSwitch { set: si, entry: ei }, sel_tone(u.selection == (Selection::HudSwitch { set: si, entry: ei }))),
                srow("Delete"@, ""@, EditorAction::DeleteEntry { set: si, entry: ei }, Tone::Dim),
            ],
            _ => Seq::empty(),
        };
        lemma_unfocused_concat(nav_button_section(u, si, entries, n - 1), b_rows);
    }
}

proof fn lemma_page_panel_unfocused(c: ConfigView, u: EditorUiView, si: usize)
    ensures
        unfocused(page_panel_spec(c, u, si)),
{
    if si < c.sets.len() {
        let s = c.sets[si as int];
        lemma_nav_sections_unfocused(u, si, s.entries, s.entries.len() as int);
        let body = page_body(u, si, s);
        assert(unfocused(body)) by {
            let (bd, bt) = bg_image_value(u.editing == EditFocus::SetBgImage(si), s.bg_image);
            let p1 = stepper_rows("Opacity"@, EditorAction::SetOpacityDelta { set: si, value: s.opacity }, 5)
                + seq![srow("BG image"@, bd, EditorAction::EditSetBgImage { set: si }, bt)]
                + stepper_rows("BG opacity"@, EditorAction::SetBgImageOpacityDelta { set: si, value: s.bg_image_opacity }, 5)
                + seq![
                srow("+ Button"@, ""@, EditorAction::AddAction { set: si }, Tone::Amber),
                srow("+ Wheel set"@, ""@, EditorAction::AddWheelSet { set: si }, Tone::Text),
                srow("+ HUD switch"@, ""@, EditorAction::AddHudSwitch { set: si }, Tone::Text),
            ];
            let w = nav_wheel_section(u, si, s.entries, s.entries.len() as int);
            let plus = seq![srow("+"@, ""@, EditorAction::AddAction { set: si }, Tone::Text)];
            let b = nav_button_section(u, si, s.entries, s.entries.len() as int);
            assert(unfocused(p1));
            lemma_unfocused_concat(p1, w);
            lemma_unfocused_concat(p1 + w, plus);
            lemma_unfocused_concat(p1 + w + plus, b);
        }
    }
}

proof fn lemma_body_unfocused(c: ConfigView, u: EditorUiView)
    ensures
        unfocused(sidebar_body(c, u)),
{
    match u.selection {
        Selection::Nothing => {
            lemma_page_list_unfocused(c.sets, c.sets.len() as int);
            lemma_unfocused_concat(seq![srow("+"@, ""@, EditorAction::AddSet, Tone::Text)], page_list(c.sets, c.sets.len() as int));
            lemma_unfocused_concat(seq![srow("+"@, ""@, EditorAction::AddSet, Tone::Text)] + page_list(c.sets, c.sets.len() as int), root_config_rows(c, u));
        },
        Selection::Page { set } => lemma_page_panel_unfocused(c, u, set),
        Selection::SetSwitch => lemma_page_panel_unfocused(c, u, 0),
        Selection::Action { set, entry } => lemma_page_panel_unfocused(c, u, set),
        Selection::HudSwitch { set, entry } => lemma_page_panel_unfocused(c, u, set),
        Selection::WheelSetEntry { set, entry } => {
            lemma_page_panel_unfocused(c, u, set);
            if let Some(w) = wheel_set_at(c, set as int, entry as int) {
                lemma_wheel_list_unfocused(u, set, entry, w.radial_menus, w.radial_menus.len() as int);
                let a = header_rows(page_caption(c, set), w.name) + wheelset_bindings(u, set, entry, w) + wheelset_controls(set, entry, w);
                lemma_unfocused_concat(a, wheel_list(u, set, entry, w.radial_menus, w.radial_menus.len() as int));
                assert(sidebar_body(c, u) =~= a + wheel_list(u, set, entry, w.radial_menus, w.radial_menus.len() as int));
            }
        },
        Selection::Wheel { set, entry, wheel } => {
            lemma_page_panel_unfocused(c, u, set);
            if let Some(m) = panel_menu(c, set, entry, wheel) {
                lemma_sector_list_unfocused(set, entry, wheel, m.slots, m.slots.len() as int);
                let a = menu_header(c, set, entry, wheel, m.name) + wheel_basic_rows(u, m) + wheel_circle_rows(m);
                lemma_unfocused_concat(a, sector_list(set, entry, wheel, m.slots, m.slots.len() as int));
                assert(sidebar_body(c, u) =~= a + sector_list(set, entry, wheel, m.slots, m.slots.len() as int));
            }
        },
        Selection::Segment { set, entry, wheel, slot } => lemma_page_panel_unfocused(c, u, set),
    }
}

/// The sidebar has the gamepad focus on exactly one row, row `navfocus`,
/// when there is such a row, and on none otherwise; the footer's four rows
/// close every panel.
pub proof fn law_sidebar_focus_is_one_row(c: ConfigView, u: EditorUiView)
    ensures
        forall|i: int| 0 <= i < sidebar_spec(c, u).len() ==> ((#[trigger] sidebar_spec(c, u)[i]).focused <==> i == u.navfocus),
        sidebar_spec(c, u).len() == sidebar_body(c, u).len() + 4,
{
    lemma_body_unfocused(c, u);
    lemma_unfocused_concat(sidebar_body(c, u), footer_rows());
}

} // verus!
