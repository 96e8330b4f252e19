//! What the in-canvas editor shows: the edit toggle or the toolbar, and the
//! settings cards of the selected quick action and sector, as rows of text
//! with the HUD action each row performs. Drawing them is the host's part.
use crate::config::{position_label, PositionMode, QuickAction, QuickActionView};
use crate::hud::WheelHudAction;
use crate::model::{action_at, ConfigView, QuickActionConfig, Sector, SectorView};
use crate::state::WheelHudState;
use vstd::prelude::*;

verus! {

/// The colour role of a row's value.
#[derive(Clone, Copy, PartialEq, Eq, Structural, Debug)]
pub enum Tone {
    Text,
    Dim,
    Green,
    Amber,
}

/// One row of a card or of the toolbar: a caption, a value (possibly
/// empty), the HUD action a press performs, how the value is coloured, and
/// whether the row has the gamepad focus.
#[derive(Debug)]
pub struct CardRow {
    pub label: String,
    pub value: String,
    pub press: WheelHudAction,
    pub tone: Tone,
    pub focused: bool,
}

pub struct RowView {
    pub label: Seq<char>,
    pub value: Seq<char>,
    pub press: WheelHudAction,
    pub tone: Tone,
    pub focused: bool,
}

impl View for CardRow {
    type V = RowView;

    open spec fn view(&self) -> RowView {
        RowView { label: self.label@, value: self.value@, press: self.press, tone: self.tone, focused: self.focused }
    }
}

pub open spec fn rows_view(s: Seq<CardRow>) -> Seq<RowView> {
    s.map_values(|r: CardRow| r@)
}

/// The text at the top of a card: its title, the name of what it edits,
/// and a note under the name.
#[derive(Debug)]
pub struct CardHeader {
    pub title: String,
    pub name: String,
    pub note: String,
}

fn header(title: &str, name: String, note: String) -> (r: CardHeader)
    ensures
        r.title@ == title@,
        r.name@ == name@,
        r.note@ == note@,
{
    CardHeader { title: String::from_str(title), name, note }
}

pub open spec fn row(label: Seq<char>, value: Seq<char>, press: WheelHudAction, tone: Tone, focused: bool) -> RowView {
    RowView { label, value, press, tone, focused }
}

fn make_row(label: &str, value: &str, press: WheelHudAction, tone: Tone, focused: bool) -> (r: CardRow)
    ensures
        r@ == row(label@, value@, press, tone, focused),
{
    CardRow { label: String::from_str(label), value: String::from_str(value), press, tone, focused }
}

fn owned_row(label: &str, value: String, press: WheelHudAction, tone: Tone, focused: bool) -> (r: CardRow)
    ensures
        r@ == row(label@, value@, press, tone, focused),
{
    CardRow { label: String::from_str(label), value, press, tone, focused }
}

/// `"On"` or `"Off"`.
pub open spec fn on_off(b: bool) -> Seq<char> {
    if b {
        "On"@
    } else {
        "Off"@
    }
}

/// The tone of an on / off value.
pub open spec fn switch_tone(b: bool) -> Tone {
    if b {
        Tone::Green
    } else {
        Tone::Dim
    }
}

// ─── sector card ──────────────────────────────────────────────────────────────

/// The rows of the settings card of sector `s`, sector `slot` of the wheel
/// at `(set, entry, wheel)`, with radial edit control `focus` focused: name,
/// icon and input (focus 5, 6, 7), mapping, hold, hold mapping, close on
/// apply, delete, close.
pub open spec fn sector_card(
    s: SectorView,
    set: usize,
    entry: usize,
    wheel: Option<usize>,
    slot: usize,
    focus: Option<usize>,
) -> Seq<RowView> {
    seq![
        row("Set name  ›"@, Seq::empty(), WheelHudAction::EditSegmentName { set, entry, wheel, slot }, Tone::Text, focus == Some(5usize)),
        row("Set icon  ›"@, Seq::empty(), WheelHudAction::EditSegmentIcon { set, entry, wheel, slot }, Tone::Text, focus == Some(6usize)),
        row(
            if s.input.len() == 0 {
                "Set input  ›"@
            } else {
                "Change input  ›"@
            },
            Seq::empty(),
            WheelHudAction::EditSegmentInput { set, entry, wheel, slot },
            Tone::Text,
            focus == Some(7usize),
        ),
        row("Action mapping"@, s.command, WheelHudAction::CycleSegmentMapping { set, entry, wheel, slot }, Tone::Text, false),
        row(
            if s.hold {
                "Hold action  ·  enabled"@
            } else {
                "Hold action  ·  disabled"@
            },
            on_off(s.hold),
            WheelHudAction::ToggleSegmentHold { set, entry, wheel, slot },
            switch_tone(s.hold),
            false,
        ),
        row("Hold mapping"@, s.hold_command, WheelHudAction::CycleSegmentHoldAction { set, entry, wheel, slot }, Tone::Text, false),
        row(
            if s.close_on_select {
                "Close HUD on apply  ·  enabled"@
            } else {
                "Close HUD on apply  ·  disabled"@
            },
            on_off(s.close_on_select),
            WheelHudAction::ToggleSegmentCloseOnApply { set, entry, wheel, slot },
            switch_tone(s.close_on_select),
            false,
        ),
        row("Delete segment"@, Seq::empty(), WheelHudAction::DeleteSegment { set, entry, wheel, slot }, Tone::Text, false),
        row("Close"@, Seq::empty(), WheelHudAction::CloseSelection, Tone::Text, false),
    ]
}

fn has_focus(focus: Option<usize>, k: usize) -> (r: bool)
    ensures
        r == (focus == Some(k)),
{
    match focus {
        Some(f) => f == k,
        None => false,
    }
}

fn on_off_str(b: bool) -> (r: &'static str)
    ensures
        r@ == on_off(b),
{
    if b {
        "On"
    } else {
        "Off"
    }
}

fn switch_tone_of(b: bool) -> (r: Tone)
    ensures
        r == switch_tone(b),
{
    if b {
        Tone::Green
    } else {
        Tone::Dim
    }
}

/// The rows of the settings card of sector `s` (see [`sector_card`]).
pub fn spawn_segment_editor_card(
    s: &Sector,
    set: usize,
    entry: usize,
    wheel: Option<usize>,
    slot: usize,
    focus: Option<usize>,
) -> (r: Vec<CardRow>)
    ensures
        rows_view(r@) == sector_card(s@, set, entry, wheel, slot, focus),
{
    let mut r: Vec<CardRow> = Vec::new();
    r.push(make_row("Set name  ›", "", WheelHudAction::EditSegmentName { set, entry, wheel, slot }, Tone::Text, has_focus(focus, 5)));
    r.push(make_row("Set icon  ›", "", WheelHudAction::EditSegmentIcon { set, entry, wheel, slot }, Tone::Text, has_focus(focus, 6)));
    let input_label = if s.input.as_str().unicode_len() == 0 {
        "Set input  ›"
    } else {
        "Change input  ›"
    };
    r.push(make_row(input_label, "", WheelHudAction::EditSegmentInput { set, entry, wheel, slot }, Tone::Text, has_focus(focus, 7)));
    r.push(owned_row("Action mapping", s.command.clone(), WheelHudAction::CycleSegmentMapping { set, entry, wheel, slot }, Tone::Text, false));
    let hold_label = if s.hold {
        "Hold action  ·  enabled"
    } else {
        "Hold action  ·  disabled"
    };
    r.push(make_row(hold_label, on_off_str(s.hold), WheelHudAction::ToggleSegmentHold { set, entry, wheel, slot }, switch_tone_of(s.hold), false));
    r.push(owned_row("Hold mapping", s.hold_command.clone(), WheelHudAction::CycleSegmentHoldAction { set, entry, wheel, slot }, Tone::Text, false));
    let close_label = if s.close_on_select {
        "Close HUD on apply  ·  enabled"
    } else {
        "Close HUD on apply  ·  disabled"
    };
    r.push(make_row(
        close_label,
        on_off_str(s.close_on_select),
        WheelHudAction::ToggleSegmentCloseOnApply { set, entry, wheel, slot },
        switch_tone_of(s.close_on_select),
        false,
    ));
    r.push(make_row("Delete segment", "", WheelHudAction::DeleteSegment { set, entry, wheel, slot }, Tone::Text, false));
    r.push(make_row("Close", "", WheelHudAction::CloseSelection, Tone::Text, false));
    proof {
        reveal_strlit("");
    }
    let ghost want = sector_card(s@, set, entry, wheel, slot, focus);
    assert(rows_view(r@)[0].label == want[0].label);
    assert(rows_view(r@)[0].value == want[0].value);
    assert(rows_view(r@)[0].press == want[0].press);
    assert(rows_view(r@)[0].focused == want[0].focused);
    assert(rows_view(r@)[0] == want[0]);
    assert(rows_view(r@)[1] == want[1]);
    assert(rows_view(r@)[2] == want[2]);
    assert(rows_view(r@)[3] == want[3]);
    assert(rows_view(r@)[4] == want[4]);
    assert(rows_view(r@)[5] == want[5]);
    assert(rows_view(r@)[6] == want[6]);
    assert(rows_view(r@)[7] == want[7]);
    assert(rows_view(r@)[8] == want[8]);
    assert(rows_view(r@) =~= sector_card(s@, set, entry, wheel, slot, focus));
    r
}

// ─── quick action card ────────────────────────────────────────────────────────

/// `"Placement: {label}"` for placement mode `m`.
pub open spec fn placement_caption(m: PositionMode) -> Seq<char> {
    "Placement: "@ + position_label(m)
}

/// The rows of the card of quick action `a` at `(set, entry)`: name, input
/// binding, icon, mapping, hold, hold action, close on apply, delete,
/// placement, close. (The resize and move steppers show and step
/// floating-point values, which is the host's part.)
pub open spec fn action_card(a: QuickActionView, set: usize, entry: usize) -> Seq<RowView> {
    seq![
        row("Name"@, a.name, WheelHudAction::EditActionName { set, entry }, Tone::Text, false),
        row("Input binding"@, a.key, WheelHudAction::CaptureActionKey { set, entry }, Tone::Text, false),
        row("Icon  ·  select"@, a.icon, WheelHudAction::CycleActionIcon { set, entry }, Tone::Text, false),
        row("Action mapping"@, a.command, WheelHudAction::CycleActionMapping { set, entry }, Tone::Text, false),
        row(
            if a.hold {
                "Hold  ·  enabled"@
            } else {
                "Hold  ·  disabled"@
            },
            on_off(a.hold),
            WheelHudAction::ToggleActionHold { set, entry },
            switch_tone(a.hold),
            false,
        ),
        row("Hold action"@, a.hold_command, WheelHudAction::CycleHoldAction { set, entry }, Tone::Text, false),
        row(
            if a.close_on_select {
                "Close HUD on apply  ·  enabled"@
            } else {
                "Close HUD on apply  ·  disabled"@
            },
            on_off(a.close_on_select),
            WheelHudAction::ToggleActionCloseOnApply { set, entry },
            switch_tone(a.close_on_select),
            false,
        ),
        row("Delete button"@, Seq::empty(), WheelHudAction::DeleteAction { set, entry }, Tone::Text, false),
        row(placement_caption(a.position), Seq::empty(), WheelHudAction::CycleActionPosition { set, entry }, Tone::Text, false),
        row("Close"@, Seq::empty(), WheelHudAction::CloseSelection, Tone::Text, false),
    ]
}

/// The rows of the card of quick action `a` at `(set, entry)` (see
/// [`action_card`]).
pub fn build_hud_action_editor_card(a: &QuickAction, set: usize, entry: usize) -> (r: Vec<CardRow>)
    ensures
        rows_view(r@) == action_card(a@, set, entry),
{
    let mut r: Vec<CardRow> = Vec::new();
    r.push(owned_row("Name", a.name.clone(), WheelHudAction::EditActionName { set, entry }, Tone::Text, false));
    r.push(owned_row("Input binding", a.key.clone(), WheelHudAction::CaptureActionKey { set, entry }, Tone::Text, false));
    r.push(owned_row("Icon  ·  select", a.icon.clone(), WheelHudAction::CycleActionIcon { set, entry }, Tone::Text, false));
    r.push(owned_row("Action mapping", a.command.clone(), WheelHudAction::CycleActionMapping { set, entry }, Tone::Text, false));
    let hold_label = if a.hold {
        "Hold  ·  enabled"
    } else {
        "Hold  ·  disabled"
    };
    r.push(make_row(hold_label, on_off_str(a.hold), WheelHudAction::ToggleActionHold { set, entry }, switch_tone_of(a.hold), false));
    r.push(owned_row("Hold action", a.hold_command.clone(), WheelHudAction::CycleHoldAction { set, entry }, Tone::Text, false));
    let close_label = if a.close_on_select {
        "Close HUD on apply  ·  enabled"
    } else {
        "Close HUD on apply  ·  disabled"
    };
    r.push(make_row(
        close_label,
        on_off_str(a.close_on_select),
        WheelHudAction::ToggleActionCloseOnApply { set, entry },
        switch_tone_of(a.close_on_select),
        false,
    ));
    r.push(make_row("Delete button", "", WheelHudAction::DeleteAction { set, entry }, Tone::Text, false));
    let mut placement = String::from_str("Placement: ");
    placement.append(a.position.label());
    r.push(CardRow {
        label: placement,
        value: String::from_str(""),
        press: WheelHudAction::CycleActionPosition { set, entry },
        tone: Tone::Text,
        focused: false,
    });
    r.push(make_row("Close", "", WheelHudAction::CloseSelection, Tone::Text, false));
    proof {
        reveal_strlit("");
    }
    let ghost want = action_card(a@, set, entry);
    assert(rows_view(r@)[0].label == want[0].label);
    assert(rows_view(r@)[7].value == want[7].value);
    assert(rows_view(r@)[8].label == want[8].label);
    assert(rows_view(r@)[8].value == want[8].value);
    assert(rows_view(r@) =~= want);
    r
}

// ─── edit mode and toolbar ────────────────────────────────────────────────────

/// What the edit-mode slot shows.
#[derive(Clone, Copy, PartialEq, Eq, Structural, Debug)]
pub enum EditModeLayout {
    /// The "Edit" toggle, while the editor is closed.
    Toggle,
    /// The toolbar alone.
    Toolbar,
    /// The toolbar and the card of the quick action at `(set, entry)`.
    ToolbarWithCard { set: usize, entry: usize },
}

/// What the edit-mode slot shows: the toggle while the editor is closed;
/// otherwise the toolbar, and the card of the selected quick action when it
/// is on the active page and no wheel or sector is highlighted, selected or
/// hovered.
pub open spec fn edit_mode_layout(c: ConfigView, h: WheelHudState) -> EditModeLayout {
    if !h.editor_open {
        EditModeLayout::Toggle
    } else if h.highlighted is Some || h.selected_wheel is Some || h.hovered_wheel is Some {
        EditModeLayout::Toolbar
    } else {
        match h.selected_action {
            Some((p, e)) => if p == h.active_set && action_at(c, p as int, e as int) is Some {
                EditModeLayout::ToolbarWithCard { set: p, entry: e }
            } else {
                EditModeLayout::Toolbar
            },
            None => EditModeLayout::Toolbar,
        }
    }
}

/// What the edit-mode slot shows (see [`edit_mode_layout`]).
pub fn fill_edit_mode(cfg: &QuickActionConfig, hud: &WheelHudState) -> (r: EditModeLayout)
    ensures
        r == edit_mode_layout(cfg@, *hud),
{
    if !hud.editor_open {
        return EditModeLayout::Toggle;
    }
    if hud.highlighted.is_some() || hud.selected_wheel.is_some() || hud.hovered_wheel.is_some() {
        return EditModeLayout::Toolbar;
    }
    match hud.selected_action {
        Some((p, e)) => {
            if p == hud.active_set && crate::model::get_action(cfg, p, e).is_some() {
                EditModeLayout::ToolbarWithCard { set: p, entry: e }
            } else {
                EditModeLayout::Toolbar
            }
        },
        None => EditModeLayout::Toolbar,
    }
}

/// The toolbar's buttons, top to bottom: Close (focus 11, with the edit
/// shortcut), Save (8), Add new (9), Settings (10, checked while open).
pub open spec fn toolbar_rows(edit_shortcut: Seq<char>, h: WheelHudState) -> Seq<RowView> {
    seq![
        row("Close  ["@ + edit_shortcut + "]"@, Seq::empty(), WheelHudAction::ToggleEditor, Tone::Amber, h.edit_control_focus == Some(11usize)),
        row("Save  [LB / Ctrl+S]"@, Seq::empty(), WheelHudAction::SaveConfig, Tone::Green, h.edit_control_focus == Some(8usize)),
        row("+ Add new  [RB / Ctrl+N]"@, Seq::empty(), WheelHudAction::AddNewButton, Tone::Text, h.edit_control_focus == Some(9usize)),
        row(
            if h.settings_open {
                "Settings ✓  [Select / Ctrl+,]"@
            } else {
                "Settings  [Select / Ctrl+,]"@
            },
            Seq::empty(),
            WheelHudAction::ToggleSettings,
            Tone::Text,
            h.edit_control_focus == Some(10usize),
        ),
    ]
}

/// The toolbar's buttons (see [`toolbar_rows`]).
pub fn spawn_editor_toolbar(cfg: &QuickActionConfig, hud: &WheelHudState) -> (r: Vec<CardRow>)
    ensures
        rows_view(r@) == toolbar_rows(cfg@.edit_shortcut, *hud),
{
    let focus = hud.edit_control_focus;
    let mut close = String::from_str("Close  [");
    close.append(cfg.edit_shortcut.as_str());
    close.append("]");
    let mut r: Vec<CardRow> = Vec::new();
    r.push(CardRow {
        label: close,
        value: String::from_str(""),
        press: WheelHudAction::ToggleEditor,
        tone: Tone::Amber,
        focused: has_focus(focus, 11),
    });
    r.push(make_row("Save  [LB / Ctrl+S]", "", WheelHudAction::SaveConfig, Tone::Green, has_focus(focus, 8)));
    r.push(make_row("+ Add new  [RB / Ctrl+N]", "", WheelHudAction::AddNewButton, Tone::Text, has_focus(focus, 9)));
    let settings = if hud.settings_open {
        "Settings ✓  [Select / Ctrl+,]"
    } else {
        "Settings  [Select / Ctrl+,]"
    };
    r.push(make_row(settings, "", WheelHudAction::ToggleSettings, Tone::Text, has_focus(focus, 10)));
    proof {
        reveal_strlit("");
    }
    let ghost want = toolbar_rows(cfg@.edit_shortcut, *hud);
    assert(rows_view(r@)[0].label == want[0].label);
    assert(rows_view(r@)[0].value == want[0].value);
    assert(rows_view(r@)[1].value == want[1].value);
    assert(rows_view(r@)[2].value == want[2].value);
    assert(rows_view(r@)[3].value == want[3].value);
    assert(rows_view(r@) =~= want);
    r
}

/// The toggle shown while the editor is closed.
pub fn spawn_edit_toggle() -> (r: CardRow)
    ensures
        r@ == row("Edit"@, ""@, WheelHudAction::ToggleEditor, Tone::Dim, false),
{
    make_row("Edit", "", WheelHudAction::ToggleEditor, Tone::Dim, false)
}

// ─── radial menu overlay ──────────────────────────────────────────────────────

/// The slot of sector `id` when it belongs to the radial menu `m`.
pub open spec fn sector_in(id: Option<(usize, usize, Option<usize>, usize)>, m: (usize, usize, Option<usize>)) -> Option<usize> {
    match id {
        Some((set, entry, wheel, slot)) => if set == m.0 && entry == m.1 && wheel == m.2 {
            Some(slot)
        } else {
            None
        },
        None => None,
    }
}

fn sector_in_of(id: Option<(usize, usize, Option<usize>, usize)>, m: (usize, usize, Option<usize>)) -> (r: Option<usize>)
    ensures
        r == sector_in(id, m),
{
    match id {
        Some((set, entry, wheel, slot)) => if set == m.0 && entry == m.1 && wheel == m.2 {
            Some(slot)
        } else {
            None
        },
        None => None,
    }
}

/// What the editor draws over a HUD radial menu.
#[derive(Clone, Copy, PartialEq, Eq, Structural, Debug)]
pub struct OverlayPlan {
    /// The highlighted sector of this menu, whose edit controls are shown
    /// together with the Apply / Back hints.
    pub highlighted: Option<usize>,
    /// The selected sector of this menu whose settings card is shown.
    pub sector_card: Option<usize>,
    /// Whether the menu's settings card is shown.
    pub settings_card: bool,
}

/// What the editor draws over radial menu `m` of `slots` sectors: the edit
/// controls of its highlighted sector, the card of its selected sector, and
/// its settings card while no sector is highlighted and the menu is selected
/// or hovered.
pub open spec fn overlay_plan(h: WheelHudState, m: (usize, usize, Option<usize>), slots: nat) -> OverlayPlan {
    OverlayPlan {
        highlighted: match sector_in(h.highlighted, m) {
            Some(s) => if s < slots {
                Some(s)
            } else {
                None
            },
            None => None,
        },
        sector_card: match sector_in(h.selected_segment, m) {
            Some(s) => if s < slots {
                Some(s)
            } else {
                None
            },
            None => None,
        },
        settings_card: h.highlighted is None && (h.selected_wheel == Some(m) || h.hovered_wheel == Some(m)),
    }
}

/// What the editor draws over radial menu `m` of `slots` sectors (see
/// [`overlay_plan`]).
pub fn spawn_radial_menu_overlay(hud: &WheelHudState, m: (usize, usize, Option<usize>), slots: usize) -> (r: OverlayPlan)
    ensures
        r == overlay_plan(*hud, m, slots as nat),
{
    let highlighted = match sector_in_of(hud.highlighted, m) {
        Some(s) => if s < slots {
            Some(s)
        } else {
            None
        },
        None => None,
    };
    let sector_card = match sector_in_of(hud.selected_segment, m) {
        Some(s) => if s < slots {
            Some(s)
        } else {
            None
        },
        None => None,
    };
    let focused = hud.selected_wheel == Some(m) || hud.hovered_wheel == Some(m);
    OverlayPlan { highlighted, sector_card, settings_card: hud.highlighted.is_none() && focused }
}

/// The edit controls around highlighted sector `slot` of radial menu `m`,
/// in the order of the radial edit focus 1 to 4: add before, delete, add
/// after, add outside.
pub open spec fn sector_controls(m: (usize, usize, Option<usize>), slot: usize, focus: Option<usize>) -> Seq<RowView> {
    let (set, entry, wheel) = m;
    seq![
        row("+"@, Seq::empty(), WheelHudAction::AddSegment { set, entry, wheel, side: crate::hud::SegmentInsertSide::Before }, Tone::Text, focus == Some(1usize)),
        row("×"@, Seq::empty(), WheelHudAction::RemoveSegment { set, entry, wheel, slot }, Tone::Text, focus == Some(2usize)),
        row("+"@, Seq::empty(), WheelHudAction::AddSegment { set, entry, wheel, side: crate::hud::SegmentInsertSide::After }, Tone::Text, focus == Some(3usize)),
        row("+"@, Seq::empty(), WheelHudAction::AddSegment { set, entry, wheel, side: crate::hud::SegmentInsertSide::Outer }, Tone::Text, focus == Some(4usize)),
    ]
}

/// The edit controls around a highlighted sector (see [`sector_controls`]).
pub fn sector_control_rows(m: (usize, usize, Option<usize>), slot: usize, focus: Option<usize>) -> (r: Vec<CardRow>)
    ensures
        rows_view(r@) == sector_controls(m, slot, focus),
{
    let (set, entry, wheel) = m;
    let mut r: Vec<CardRow> = Vec::new();
    r.push(make_row("+", "", WheelHudAction::AddSegment { set, entry, wheel, side: crate::hud::SegmentInsertSide::Before }, Tone::Text, has_focus(focus, 1)));
    r.push(make_row("×", "", WheelHudAction::RemoveSegment { set, entry, wheel, slot }, Tone::Text, has_focus(focus, 2)));
    r.push(make_row("+", "", WheelHudAction::AddSegment { set, entry, wheel, side: crate::hud::SegmentInsertSide::After }, Tone::Text, has_focus(focus, 3)));
    r.push(make_row("+", "", WheelHudAction::AddSegment { set, entry, wheel, side: crate::hud::SegmentInsertSide::Outer }, Tone::Text, has_focus(focus, 4)));
    proof {
        reveal_strlit("");
    }
    let ghost want = sector_controls(m, slot, focus);
    assert(rows_view(r@)[0].value == want[0].value);
    assert(rows_view(r@)[1].value == want[1].value);
    assert(rows_view(r@)[2].value == want[2].value);
    assert(rows_view(r@)[3].value == want[3].value);
    assert(rows_view(r@) =~= want);
    r
}

/// The settings card of radial menu `m`: its name under the title
/// "Radial menu settings", its sector count as the note, and a Close button.
pub fn spawn_wheel_settings_card(m: &crate::model::RadialMenu) -> (r: (CardHeader, CardRow))
    ensures
        r.0.title@ == "Radial menu settings"@,
        r.0.name@ == m@.name,
        r.0.note@ == crate::text::decimal(m@.slots.len()) + " sectors"@,
        r.1@ == row("Close"@, ""@, WheelHudAction::CloseSelection, Tone::Text, false),
{
    let mut count = crate::text::usize_to_decimal(m.slots.len());
    count.append(" sectors");
    (
        header("Radial menu settings", m.name.clone(), count),
        make_row("Close", "", WheelHudAction::CloseSelection, Tone::Text, false),
    )
}

/// The header of the settings card of sector `s`: its name under the title
/// "Sector settings".
pub fn segment_card_header(s: &Sector) -> (r: CardHeader)
    ensures
        r.title@ == "Sector settings"@,
        r.name@ == s@.name,
        r.note@ == "Edit the selected sector"@,
{
    header("Sector settings", s.name.clone(), String::from_str("Edit the selected sector"))
}

} // verus!
