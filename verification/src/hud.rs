//! Buttons and sectors of the HUD overlay: what hovering and pressing them
//! does to the configuration, the editor and the HUD state.
use crate::action::{action_ok, EditorAction, EditorEffect};
use crate::apply::{apply_action, step};
use crate::config::FloatBits;
use crate::model::{
    get_menu, menu_at, put_menu, sectors_view, slot_name, slot_named, named_sector_view,
    with_menu, ConfigView, QuickActionConfig, RadialMenuView, MIN_SECTORS,
};
use crate::edit::{MenuEdit, SlotEdit, SwitchEdit};
use crate::update::{edit_menu_at, edit_switch, map_menu_at, map_switch};
use crate::state::{EditFocus, EditorUiState, EditorUiView, Selection, WheelHudState};
use vstd::prelude::*;

verus! {

/// The HUD component a control belongs to.
#[derive(Clone, Copy, PartialEq, Eq, Structural, Debug)]
pub enum HudControlOwner {
    Action(usize, usize),
    Wheel(usize, usize, Option<usize>),
    HudSwitch(usize, usize),
}

/// What the pointer is doing to a HUD control.
#[derive(Clone, Copy, PartialEq, Eq, Structural, Debug)]
pub enum PointerState {
    /// The pointer left the control.
    Away,
    Hovered,
    Pressed,
}

/// Where a new sector goes relative to the selected one.
#[derive(Clone, Copy, PartialEq, Eq, Structural, Debug)]
pub enum SegmentInsertSide {
    Before,
    After,
    Outer,
}

/// What a HUD button does.
///
/// Variants that change a floating-point size carry the new value, already
/// computed by the host from the drag delta (clamping of floats happens
/// outside the library).
#[derive(Debug)]
pub enum WheelHudAction {
    SetActiveSet(usize),
    PrevSet,
    NextSet,
    ToggleEditor,
    AddSegment { set: usize, entry: usize, wheel: Option<usize>, side: SegmentInsertSide },
    RemoveSegment { set: usize, entry: usize, wheel: Option<usize>, slot: usize },
    EditSegmentName { set: usize, entry: usize, wheel: Option<usize>, slot: usize },
    EditSegmentIcon { set: usize, entry: usize, wheel: Option<usize>, slot: usize },
    EditSegmentInput { set: usize, entry: usize, wheel: Option<usize>, slot: usize },
    CycleSegmentMapping { set: usize, entry: usize, wheel: Option<usize>, slot: usize },
    ToggleSegmentHold { set: usize, entry: usize, wheel: Option<usize>, slot: usize },
    CycleSegmentHoldAction { set: usize, entry: usize, wheel: Option<usize>, slot: usize },
    ToggleSegmentCloseOnApply { set: usize, entry: usize, wheel: Option<usize>, slot: usize },
    DeleteSegment { set: usize, entry: usize, wheel: Option<usize>, slot: usize },
    SaveConfig,
    AddNewButton,
    ToggleSettings,
    SelectAction { set: usize, entry: usize },
    SelectHudSwitch { set: usize, entry: usize },
    MoveHudSwitch { set: usize, entry: usize },
    EditHudSwitch { set: usize, entry: usize },
    DeleteHudSwitch { set: usize, entry: usize },
    /// Resize to `width` x `height`.
    ResizeHudSwitch { set: usize, entry: usize, width: FloatBits, height: FloatBits },
    DeleteAction { set: usize, entry: usize },
    MoveAction { set: usize, entry: usize },
    EditAction { set: usize, entry: usize },
    EditActionName { set: usize, entry: usize },
    CaptureActionKey { set: usize, entry: usize },
    CycleActionIcon { set: usize, entry: usize },
    CycleActionMapping { set: usize, entry: usize },
    ToggleActionHold { set: usize, entry: usize },
    CycleHoldAction { set: usize, entry: usize },
    ToggleActionCloseOnApply { set: usize, entry: usize },
    WheelSettings { set: usize, entry: usize, wheel: Option<usize> },
    MoveWheel { set: usize, entry: usize, wheel: Option<usize> },
    SelectWheel { set: usize, entry: usize, wheel: Option<usize> },
    /// Set the outer radius of the wheel to `value`.
    ResizeWheel { set: usize, entry: usize, wheel: Option<usize>, value: FloatBits },
    DeleteWheel { set: usize, entry: usize, wheel: Option<usize> },
    RotateAction { set: usize, entry: usize, value: FloatBits },
    ActionWidthDelta { set: usize, entry: usize, value: FloatBits },
    ActionHeightDelta { set: usize, entry: usize, value: FloatBits },
    ActionRadiusDelta { set: usize, entry: usize, value: FloatBits },
    CycleActionPosition { set: usize, entry: usize },
    CloseSelection,
}

/// The component whose context controls include a button with action `a`.
pub open spec fn control_owner(a: WheelHudAction) -> Option<HudControlOwner> {
    match a {
        WheelHudAction::SelectAction { set, entry }
        | WheelHudAction::DeleteAction { set, entry }
        | WheelHudAction::MoveAction { set, entry }
        | WheelHudAction::EditAction { set, entry }
        | WheelHudAction::EditActionName { set, entry }
        | WheelHudAction::CaptureActionKey { set, entry }
        | WheelHudAction::CycleActionIcon { set, entry }
        | WheelHudAction::CycleActionMapping { set, entry }
        | WheelHudAction::ToggleActionHold { set, entry }
        | WheelHudAction::CycleHoldAction { set, entry }
        | WheelHudAction::ToggleActionCloseOnApply { set, entry }
        | WheelHudAction::RotateAction { set, entry, .. }
        | WheelHudAction::ActionWidthDelta { set, entry, .. }
        | WheelHudAction::ActionHeightDelta { set, entry, .. }
        | WheelHudAction::ActionRadiusDelta { set, entry, .. }
        | WheelHudAction::CycleActionPosition { set, entry } => Some(
            HudControlOwner::Action(set, entry),
        ),
        WheelHudAction::SelectHudSwitch { set, entry }
        | WheelHudAction::MoveHudSwitch { set, entry }
        | WheelHudAction::EditHudSwitch { set, entry }
        | WheelHudAction::DeleteHudSwitch { set, entry }
        | WheelHudAction::ResizeHudSwitch { set, entry, .. } => Some(
            HudControlOwner::HudSwitch(set, entry),
        ),
        WheelHudAction::AddSegment { set, entry, wheel, .. }
        | WheelHudAction::RemoveSegment { set, entry, wheel, .. }
        | WheelHudAction::EditSegmentName { set, entry, wheel, .. }
        | WheelHudAction::EditSegmentIcon { set, entry, wheel, .. }
        | WheelHudAction::EditSegmentInput { set, entry, wheel, .. }
        | WheelHudAction::CycleSegmentMapping { set, entry, wheel, .. }
        | WheelHudAction::ToggleSegmentHold { set, entry, wheel, .. }
        | WheelHudAction::CycleSegmentHoldAction { set, entry, wheel, .. }
        | WheelHudAction::ToggleSegmentCloseOnApply { set, entry, wheel, .. }
        | WheelHudAction::DeleteSegment { set, entry, wheel, .. }
        | WheelHudAction::WheelSettings { set, entry, wheel }
        | WheelHudAction::MoveWheel { set, entry, wheel }
        | WheelHudAction::SelectWheel { set, entry, wheel }
        | WheelHudAction::ResizeWheel { set, entry, wheel, .. }
        | WheelHudAction::DeleteWheel { set, entry, wheel } => Some(
            HudControlOwner::Wheel(set, entry, wheel),
        ),
        _ => None,
    }
}

/// The component whose context controls include a button with action `a`.
pub fn hud_control_owner(a: &WheelHudAction) -> (r: Option<HudControlOwner>)
    ensures
        r == control_owner(*a),
{
    match a {
        WheelHudAction::SelectAction { set, entry }
        | WheelHudAction::DeleteAction { set, entry }
        | WheelHudAction::MoveAction { set, entry }
        | WheelHudAction::EditAction { set, entry }
        | WheelHudAction::EditActionName { set, entry }
        | WheelHudAction::CaptureActionKey { set, entry }
        | WheelHudAction::CycleActionIcon { set, entry }
        | WheelHudAction::CycleActionMapping { set, entry }
        | WheelHudAction::ToggleActionHold { set, entry }
        | WheelHudAction::CycleHoldAction { set, entry }
        | WheelHudAction::ToggleActionCloseOnApply { set, entry }
        | WheelHudAction::RotateAction { set, entry, .. }
        | WheelHudAction::ActionWidthDelta { set, entry, .. }
        | WheelHudAction::ActionHeightDelta { set, entry, .. }
        | WheelHudAction::ActionRadiusDelta { set, entry, .. }
        | WheelHudAction::CycleActionPosition { set, entry } => Some(
            HudControlOwner::Action(*set, *entry),
        ),
        WheelHudAction::SelectHudSwitch { set, entry }
        | WheelHudAction::MoveHudSwitch { set, entry }
        | WheelHudAction::EditHudSwitch { set, entry }
        | WheelHudAction::DeleteHudSwitch { set, entry }
        | WheelHudAction::ResizeHudSwitch { set, entry, .. } => Some(
            HudControlOwner::HudSwitch(*set, *entry),
        ),
        WheelHudAction::AddSegment { set, entry, wheel, .. }
        | WheelHudAction::RemoveSegment { set, entry, wheel, .. }
        | WheelHudAction::EditSegmentName { set, entry, wheel, .. }
        | WheelHudAction::EditSegmentIcon { set, entry, wheel, .. }
        | WheelHudAction::EditSegmentInput { set, entry, wheel, .. }
        | WheelHudAction::CycleSegmentMapping { set, entry, wheel, .. }
        | WheelHudAction::ToggleSegmentHold { set, entry, wheel, .. }
        | WheelHudAction::CycleSegmentHoldAction { set, entry, wheel, .. }
        | WheelHudAction::ToggleSegmentCloseOnApply { set, entry, wheel, .. }
        | WheelHudAction::DeleteSegment { set, entry, wheel, .. }
        | WheelHudAction::WheelSettings { set, entry, wheel }
        | WheelHudAction::MoveWheel { set, entry, wheel }
        | WheelHudAction::SelectWheel { set, entry, wheel }
        | WheelHudAction::ResizeWheel { set, entry, wheel, .. }
        | WheelHudAction::DeleteWheel { set, entry, wheel } => Some(
            HudControlOwner::Wheel(*set, *entry, *wheel),
        ),
        _ => None,
    }
}

// ─── hover ────────────────────────────────────────────────────────────────────

/// The HUD state with component `o` marked as hovered.
pub open spec fn hover_set(h: WheelHudState, o: HudControlOwner) -> WheelHudState {
    match o {
        HudControlOwner::Action(set, entry) => WheelHudState { hovered_action: Some((set, entry)), ..h },
        HudControlOwner::Wheel(set, entry, wheel) => WheelHudState {
            hovered_wheel: Some((set, entry, wheel)),
            ..h
        },
        HudControlOwner::HudSwitch(set, entry) => WheelHudState {
            hovered_hud_switch: Some((set, entry)),
            ..h
        },
    }
}

/// The HUD state with the hover mark of component `o` removed, when `o` is
/// the hovered component of its kind.
pub open spec fn hover_cleared(h: WheelHudState, o: HudControlOwner) -> WheelHudState {
    match o {
        HudControlOwner::Action(set, entry) => if h.hovered_action == Some((set, entry)) {
            WheelHudState { hovered_action: None, ..h }
        } else {
            h
        },
        HudControlOwner::Wheel(set, entry, wheel) => if h.hovered_wheel == Some((set, entry, wheel)) {
            WheelHudState { hovered_wheel: None, ..h }
        } else {
            h
        },
        HudControlOwner::HudSwitch(set, entry) => if h.hovered_hud_switch == Some((set, entry)) {
            WheelHudState { hovered_hud_switch: None, ..h }
        } else {
            h
        },
    }
}

/// Marks component `owner` as hovered.
pub fn set_hover_owner(hud: &mut WheelHudState, owner: HudControlOwner)
    ensures
        *final(hud) == hover_set(*old(hud), owner),
{
    match owner {
        HudControlOwner::Action(set, entry) => hud.hovered_action = Some((set, entry)),
        HudControlOwner::Wheel(set, entry, wheel) => hud.hovered_wheel = Some((set, entry, wheel)),
        HudControlOwner::HudSwitch(set, entry) => hud.hovered_hud_switch = Some((set, entry)),
    }
}

/// Removes the hover mark of component `owner`, when it has it.
pub fn clear_hover_owner(hud: &mut WheelHudState, owner: HudControlOwner)
    ensures
        *final(hud) == hover_cleared(*old(hud), owner),
{
    match owner {
        HudControlOwner::Action(set, entry) => {
            if hud.hovered_action == Some((set, entry)) {
                hud.hovered_action = None;
            }
        },
        HudControlOwner::Wheel(set, entry, wheel) => {
            if hud.hovered_wheel == Some((set, entry, wheel)) {
                hud.hovered_wheel = None;
            }
        },
        HudControlOwner::HudSwitch(set, entry) => {
            if hud.hovered_hud_switch == Some((set, entry)) {
                hud.hovered_hud_switch = None;
            }
        },
    }
}

/// The HUD state after the pointer state of a button with action `a`
/// changed to `p`, before any press is handled.
pub open spec fn hover_outcome(h: WheelHudState, a: WheelHudAction, p: PointerState) -> WheelHudState {
    let h1 = match control_owner(a) {
        Some(o) => match p {
            PointerState::Hovered => hover_set(h, o),
            PointerState::Away => hover_cleared(h, o),
            PointerState::Pressed => h,
        },
        None => h,
    };
    match (a, p) {
        (WheelHudAction::SelectAction { set, entry }, PointerState::Hovered) => WheelHudState {
            hovered_action: Some((set, entry)),
            ..h1
        },
        (WheelHudAction::SelectAction { set, entry }, PointerState::Away) => if h1.hovered_action
            == Some((set, entry)) {
            WheelHudState { hovered_action: None, ..h1 }
        } else {
            h1
        },
        (WheelHudAction::SelectWheel { set, entry, wheel }, PointerState::Hovered) => WheelHudState {
            hovered_wheel: Some((set, entry, wheel)),
            ..h1
        },
        (WheelHudAction::SelectWheel { set, entry, wheel }, PointerState::Away) => if h1.hovered_wheel
            == Some((set, entry, wheel)) {
            WheelHudState { hovered_wheel: None, ..h1 }
        } else {
            h1
        },
        (WheelHudAction::SelectHudSwitch { set, entry }, PointerState::Hovered) => WheelHudState {
            hovered_hud_switch: Some((set, entry)),
            ..h1
        },
        (WheelHudAction::SelectHudSwitch { set, entry }, PointerState::Away) => if h1.hovered_hud_switch
            == Some((set, entry)) {
            WheelHudState { hovered_hud_switch: None, ..h1 }
        } else {
            h1
        },
        _ => h1,
    }
}

/// Updates the hover marks for a button with action `a` whose pointer state
/// changed to `p`.
fn apply_hover(hud: &mut WheelHudState, a: &WheelHudAction, p: PointerState)
    ensures
        *final(hud) == hover_outcome(*old(hud), *a, p),
{
    match hud_control_owner(a) {
        Some(o) => match p {
            PointerState::Hovered => set_hover_owner(hud, o),
            PointerState::Away => clear_hover_owner(hud, o),
            PointerState::Pressed => {},
        },
        None => {},
    }
    match (a, p) {
        (WheelHudAction::SelectAction { set, entry }, PointerState::Hovered) => {
            hud.hovered_action = Some((*set, *entry));
        },
        (WheelHudAction::SelectAction { set, entry }, PointerState::Away) => {
            if hud.hovered_action == Some((*set, *entry)) {
                hud.hovered_action = None;
            }
        },
        (WheelHudAction::SelectWheel { set, entry, wheel }, PointerState::Hovered) => {
            hud.hovered_wheel = Some((*set, *entry, *wheel));
        },
        (WheelHudAction::SelectWheel { set, entry, wheel }, PointerState::Away) => {
            if hud.hovered_wheel == Some((*set, *entry, *wheel)) {
                hud.hovered_wheel = None;
            }
        },
        (WheelHudAction::SelectHudSwitch { set, entry }, PointerState::Hovered) => {
            hud.hovered_hud_switch = Some((*set, *entry));
        },
        (WheelHudAction::SelectHudSwitch { set, entry }, PointerState::Away) => {
            if hud.hovered_hud_switch == Some((*set, *entry)) {
                hud.hovered_hud_switch = None;
            }
        },
        _ => {},
    }
}

// ─── press ────────────────────────────────────────────────────────────────────

/// Where a sector added on `side` goes in a radial menu of `len` sectors,
/// given the current selection: next to the selected sector, or at the end.
pub open spec fn insert_index(side: SegmentInsertSide, sel: Selection, len: nat) -> nat {
    let want: int = match side {
        SegmentInsertSide::Before => match sel {
            Selection::Segment { slot, .. } => slot as int,
            _ => len as int,
        },
        _ => match sel {
            Selection::Segment { slot, .. } => slot + 1,
            _ => len as int,
        },
    };
    if want < len {
        want as nat
    } else {
        len
    }
}

/// Radial menu `m` with a sector named `"Slot {at + 1}"` inserted at `at`.
pub open spec fn with_slot_inserted(m: RadialMenuView, at: nat) -> RadialMenuView {
    RadialMenuView {
        slots: m.slots.insert(at as int, named_sector_view(slot_name(at + 1))),
        ..m
    }
}

/// Radial menu `m` without sector `slot`.
pub open spec fn with_slot_removed(m: RadialMenuView, slot: usize) -> RadialMenuView {
    RadialMenuView { slots: m.slots.remove(slot as int), ..m }
}

/// Whether a radial menu of `len` sectors may lose sector `slot`.
pub open spec fn can_remove_slot(len: nat, slot: usize) -> bool {
    len > MIN_SECTORS && slot < len
}

/// The HUD state with every selection mark cleared but the hovered ones.
pub open spec fn unselected(h: WheelHudState) -> WheelHudState {
    WheelHudState {
        selected_action: None,
        selected_wheel: None,
        selected_hud_switch: None,
        selected_segment: None,
        ..h
    }
}

/// The outcome of a press on a sector control: selection of sector `slot`
/// of wheel `(set, entry, wheel)`, with focus `f`.
pub open spec fn segment_focus(
    u: EditorUiView,
    h: WheelHudState,
    set: usize,
    entry: usize,
    wheel: Option<usize>,
    slot: usize,
    f: EditFocus,
) -> (EditorUiView, WheelHudState) {
    (
        EditorUiView { selection: Selection::Segment { set, entry, wheel, slot }, editing: f, ..u },
        WheelHudState {
            selected_action: None,
            selected_wheel: None,
            selected_hud_switch: None,
            selected_segment: Some((set, entry, wheel, slot)),
            highlighted: Some((set, entry, wheel, slot)),
            ..h
        },
    )
}

/// The configuration after sector edit `e` of sector `slot` of the wheel at
/// `(set, entry, wheel)`.
pub open spec fn map_segment(
    c: ConfigView,
    set: usize,
    entry: usize,
    wheel: Option<usize>,
    slot: usize,
    e: SlotEdit,
) -> ConfigView {
    match wheel {
        Some(w) => map_menu_at(c, set as int, entry as int, w as int, MenuEdit::Slot(slot, e)),
        None => c,
    }
}

/// The outcome of pressing a button that adds or removes sectors.
pub open spec fn segment_press(a: WheelHudAction, c: ConfigView, u: EditorUiView, h: WheelHudState) -> (
    ConfigView,
    EditorUiView,
    WheelHudState,
) {
    match a {
        WheelHudAction::AddSegment { set, entry, wheel, side } => match wheel {
            Some(w) => match menu_at(c, set as int, entry as int, w as int) {
                Some(m) => {
                    let at = insert_index(side, u.selection, m.slots.len());
                    let id = (set, entry, wheel, at as usize);
                    (
                        with_menu(c, set as int, entry as int, w as int, with_slot_inserted(m, at)),
                        EditorUiView {
                            selection: Selection::Segment { set, entry, wheel, slot: at as usize },
                            ..u
                        },
                        WheelHudState { selected_segment: Some(id), highlighted: Some(id), ..h },
                    )
                },
                None => (c, u, h),
            },
            None => (c, u, h),
        },
        WheelHudAction::RemoveSegment { set, entry, wheel, slot } => match wheel {
            Some(w) => match menu_at(c, set as int, entry as int, w as int) {
                Some(m) => if can_remove_slot(m.slots.len(), slot) {
                    let last = (m.slots.len() - 2) as usize;
                    let next: usize = if slot < last {
                        slot
                    } else {
                        last
                    };
                    let id = (set, entry, wheel, next);
                    (
                        with_menu(c, set as int, entry as int, w as int, with_slot_removed(m, slot)),
                        EditorUiView {
                            selection: Selection::Segment { set, entry, wheel, slot: next },
                            ..u
                        },
                        WheelHudState { selected_segment: Some(id), highlighted: Some(id), ..h },
                    )
                } else {
                    (c, u, h)
                },
                None => (c, u, h),
            },
            None => (c, u, h),
        },
        WheelHudAction::DeleteSegment { set, entry, wheel, slot } => {
            let c1 = match wheel {
                Some(w) => match menu_at(c, set as int, entry as int, w as int) {
                    Some(m) => if can_remove_slot(m.slots.len(), slot) {
                        with_menu(c, set as int, entry as int, w as int, with_slot_removed(m, slot))
                    } else {
                        c
                    },
                    None => c,
                },
                None => c,
            };
            (
                c1,
                EditorUiView { selection: Selection::Nothing, ..u },
                WheelHudState { selected_segment: None, highlighted: None, ..h },
            )
        },
        _ => (c, u, h),
    }
}

/// Whether `a` adds or removes sectors.
pub open spec fn is_segment_structure(a: WheelHudAction) -> bool {
    a is AddSegment || a is RemoveSegment || a is DeleteSegment
}

/// The editor action that a press of a button with action `a` performs
/// through the editor, when it is one.
pub open spec fn delegated(a: WheelHudAction, h: WheelHudState) -> Option<EditorAction> {
    match a {
        WheelHudAction::AddNewButton => Some(EditorAction::AddAction { set: h.active_set }),
        WheelHudAction::DeleteHudSwitch { set, entry }
        | WheelHudAction::DeleteAction { set, entry }
        | WheelHudAction::DeleteWheel { set, entry, .. } => Some(EditorAction::DeleteEntry { set, entry }),
        WheelHudAction::EditActionName { set, entry } => Some(EditorAction::EditName { set, entry }),
        WheelHudAction::CaptureActionKey { set, entry } => Some(EditorAction::CaptureKey { set, entry }),
        WheelHudAction::CycleActionIcon { set, entry } => Some(EditorAction::CycleIcon { set, entry }),
        WheelHudAction::CycleActionMapping { set, entry } => Some(EditorAction::CycleCommand { set, entry }),
        WheelHudAction::ToggleActionHold { set, entry } => Some(EditorAction::ToggleHold { set, entry }),
        WheelHudAction::CycleHoldAction { set, entry } => Some(
            EditorAction::CycleHoldCommand { set, entry },
        ),
        WheelHudAction::ToggleActionCloseOnApply { set, entry } => Some(
            EditorAction::ToggleActionCloseOnSelect { set, entry },
        ),
        WheelHudAction::ResizeWheel { value, .. } => Some(EditorAction::WheelOuterRadiusDelta { value }),
        WheelHudAction::RotateAction { set, entry, value } => Some(
            EditorAction::ActionRotationDelta { set, entry, value },
        ),
        WheelHudAction::ActionWidthDelta { set, entry, value } => Some(
            EditorAction::ActionWidthDelta { set, entry, value },
        ),
        WheelHudAction::ActionHeightDelta { set, entry, value } => Some(
            EditorAction::ActionHeightDelta { set, entry, value },
        ),
        WheelHudAction::ActionRadiusDelta { set, entry, value } => Some(
            EditorAction::RadiusDelta { set, entry, value },
        ),
        WheelHudAction::CycleActionPosition { set, entry } => Some(
            EditorAction::CyclePosition { set, entry },
        ),
        _ => None,
    }
}

/// The outcome of pressing a button that performs an editor action, with
/// the HUD marks that the button sets afterwards.
pub open spec fn delegated_press(a: WheelHudAction, c: ConfigView, u: EditorUiView, h: WheelHudState) -> (
    ConfigView,
    EditorUiView,
    WheelHudState,
    EditorEffect,
) {
    let u0 = match a {
        WheelHudAction::ResizeWheel { set, entry, wheel, .. } => EditorUiView {
            selection: Selection::Wheel { set, entry, wheel },
            ..u
        },
        _ => u,
    };
    let (c1, u1, h1, e) = step(delegated(a, h)->0, c, u0, h);
    let h2 = match a {
        WheelHudAction::DeleteHudSwitch { .. } => unselected(h1),
        WheelHudAction::DeleteAction { .. } => WheelHudState {
            selected_action: None,
            selected_wheel: None,
            selected_segment: None,
            highlighted: None,
            edit_control_focus: None,
            ..h1
        },
        WheelHudAction::DeleteWheel { .. } => WheelHudState {
            selected_wheel: None,
            selected_segment: None,
            highlighted: None,
            ..h1
        },
        WheelHudAction::EditActionName { set, entry }
        | WheelHudAction::CaptureActionKey { set, entry }
        | WheelHudAction::RotateAction { set, entry, .. } => WheelHudState {
            selected_action: Some((set, entry)),
            ..h1
        },
        WheelHudAction::ResizeWheel { set, entry, wheel, .. } => WheelHudState {
            selected_wheel: Some((set, entry, wheel)),
            selected_segment: None,
            ..h1
        },
        _ => h1,
    };
    (c1, u1, h2, e)
}

/// The outcome of pressing a button that only changes what is shown or
/// selected.
pub open spec fn view_press(a: WheelHudAction, c: ConfigView, u: EditorUiView, h: WheelHudState) -> (
    EditorUiView,
    WheelHudState,
) {
    match a {
        WheelHudAction::SetActiveSet(i) => (
            u,
            WheelHudState { active_set: i, active_wheel_entry: 0, active_wheel_index: 0, ..h },
        ),
        WheelHudAction::PrevSet => {
            let next = if h.active_set > 0 {
                (h.active_set - 1) as usize
            } else if c.cycle_sets && c.sets.len() > 0 {
                (c.sets.len() - 1) as usize
            } else {
                h.active_set
            };
            (u, WheelHudState { active_set: next, active_wheel_entry: 0, active_wheel_index: 0, ..h })
        },
        WheelHudAction::NextSet => {
            let max: int = if c.sets.len() > 0 {
                c.sets.len() - 1
            } else {
                0
            };
            let next = if h.active_set < max {
                (h.active_set + 1) as usize
            } else if c.cycle_sets {
                0
            } else {
                h.active_set
            };
            (u, WheelHudState { active_set: next, active_wheel_entry: 0, active_wheel_index: 0, ..h })
        },
        WheelHudAction::ToggleEditor => {
            let open = !h.editor_open;
            let h1 = WheelHudState {
                editor_open: open,
                edit_control_focus: if open {
                    Some(0)
                } else {
                    None
                },
                ..h
            };
            if open {
                (u, h1)
            } else {
                (
                    EditorUiView { selection: Selection::Nothing, editing: EditFocus::Idle, ..u },
                    WheelHudState {
                        settings_open: false,
                        hovered_action: None,
                        hovered_wheel: None,
                        hovered_hud_switch: None,
                        ..unselected(h1)
                    },
                )
            }
        },
        WheelHudAction::ToggleSettings => {
            let open = !h.settings_open;
            if open {
                (
                    EditorUiView { selection: Selection::Nothing, editing: EditFocus::Idle, ..u },
                    WheelHudState {
                        settings_open: true,
                        highlighted: None,
                        selected_action: None,
                        selected_wheel: None,
                        selected_hud_switch: None,
                        hovered_action: None,
                        hovered_wheel: None,
                        hovered_hud_switch: None,
                        ..h
                    },
                )
            } else {
                (u, WheelHudState { settings_open: false, ..h })
            }
        },
        WheelHudAction::EditSegmentName { set, entry, wheel, slot } => segment_focus(
            u,
            h,
            set,
            entry,
            wheel,
            slot,
            EditFocus::SlotName(slot),
        ),
        WheelHudAction::EditSegmentIcon { set, entry, wheel, slot } => segment_focus(
            u,
            h,
            set,
            entry,
            wheel,
            slot,
            EditFocus::SlotIcon(slot),
        ),
        WheelHudAction::EditSegmentInput { set, entry, wheel, slot } => segment_focus(
            u,
            h,
            set,
            entry,
            wheel,
            slot,
            EditFocus::SlotInput(slot),
        ),
        WheelHudAction::SelectAction { set, entry } => (
            EditorUiView { selection: Selection::Action { set, entry }, ..u },
            WheelHudState {
                selected_action: Some((set, entry)),
                highlighted: None,
                ..unselected(h)
            },
        ),
        WheelHudAction::SelectHudSwitch { set, entry }
        | WheelHudAction::MoveHudSwitch { set, entry }
        | WheelHudAction::EditHudSwitch { set, entry } => (
            EditorUiView { selection: Selection::HudSwitch { set, entry }, ..u },
            WheelHudState {
                selected_hud_switch: Some((set, entry)),
                highlighted: None,
                ..unselected(h)
            },
        ),
        WheelHudAction::MoveAction { set, entry } | WheelHudAction::EditAction { set, entry } => (
            EditorUiView { selection: Selection::Action { set, entry }, ..u },
            WheelHudState {
                selected_action: Some((set, entry)),
                selected_wheel: None,
                highlighted: None,
                ..h
            },
        ),
        WheelHudAction::WheelSettings { set, entry, wheel }
        | WheelHudAction::MoveWheel { set, entry, wheel }
        | WheelHudAction::SelectWheel { set, entry, wheel } => (
            EditorUiView { selection: Selection::Wheel { set, entry, wheel }, ..u },
            WheelHudState {
                selected_wheel: Some((set, entry, wheel)),
                highlighted: None,
                ..unselected(h)
            },
        ),
        WheelHudAction::CloseSelection => (
            EditorUiView { selection: Selection::Nothing, editing: EditFocus::Idle, ..u },
            WheelHudState {
                highlighted: None,
                selected_action: None,
                selected_wheel: None,
                selected_segment: None,
                edit_control_focus: None,
                ..h
            },
        ),
        _ => (u, h),
    }
}

/// The outcome of pressing a button with action `a`.
pub open spec fn press_outcome(a: WheelHudAction, c: ConfigView, u: EditorUiView, h: WheelHudState) -> (
    ConfigView,
    EditorUiView,
    WheelHudState,
    EditorEffect,
) {
    if delegated(a, h) is Some {
        delegated_press(a, c, u, h)
    } else if is_segment_structure(a) {
        let (c1, u1, h1) = segment_press(a, c, u, h);
        (c1, u1, h1, EditorEffect::NoEffect)
    } else {
        match a {
            WheelHudAction::CycleSegmentMapping { set, entry, wheel, slot } => (
                map_segment(c, set, entry, wheel, slot, SlotEdit::CycleCommand),
                u,
                h,
                EditorEffect::NoEffect,
            ),
            WheelHudAction::ToggleSegmentHold { set, entry, wheel, slot } => (
                map_segment(c, set, entry, wheel, slot, SlotEdit::ToggleHold),
                u,
                h,
                EditorEffect::NoEffect,
            ),
            WheelHudAction::CycleSegmentHoldAction { set, entry, wheel, slot } => (
                map_segment(c, set, entry, wheel, slot, SlotEdit::CycleHoldCommand),
                u,
                h,
                EditorEffect::NoEffect,
            ),
            WheelHudAction::ToggleSegmentCloseOnApply { set, entry, wheel, slot } => (
                map_segment(c, set, entry, wheel, slot, SlotEdit::ToggleCloseOnSelect),
                u,
                h,
                EditorEffect::NoEffect,
            ),
            WheelHudAction::ResizeHudSwitch { set, entry, width, height } => (
                map_switch(c, set as int, entry as int, SwitchEdit::SetSize(width, height)),
                EditorUiView { selection: Selection::HudSwitch { set, entry }, ..u },
                h,
                EditorEffect::NoEffect,
            ),
            WheelHudAction::SaveConfig => (c, u, h, EditorEffect::SaveConfig),
            _ => {
                let (u1, h1) = view_press(a, c, u, h);
                (c, u1, h1, EditorEffect::NoEffect)
            },
        }
    }
}

/// Whether a press of a button with action `a` stays within what the
/// machine can hold: the editor action it performs is in range, and a radial
/// menu that gains a sector has fewer than `usize::MAX` of them.
pub open spec fn press_ok(a: WheelHudAction, c: ConfigView, h: WheelHudState) -> bool {
    &&& delegated(a, h) is Some ==> action_ok(delegated(a, h)->0, c)
    &&& a matches WheelHudAction::AddSegment { set, entry, wheel: Some(w), .. } ==> (menu_at(
        c,
        set as int,
        entry as int,
        w as int,
    ) is Some ==> menu_at(c, set as int, entry as int, w as int)->0.slots.len() < usize::MAX)
}

/// The outcome of the pointer state of a button with action `a` changing
/// to `p`: the hover marks change, and a press does what the button does.
pub open spec fn hud_button_outcome(
    a: WheelHudAction,
    p: PointerState,
    c: ConfigView,
    u: EditorUiView,
    h: WheelHudState,
) -> (ConfigView, EditorUiView, WheelHudState, EditorEffect) {
    let h1 = hover_outcome(h, a, p);
    if p is Pressed {
        press_outcome(a, c, u, h1)
    } else {
        (c, u, h1, EditorEffect::NoEffect)
    }
}

fn insert_index_of(side: SegmentInsertSide, sel: Selection, len: usize) -> (r: usize)
    ensures
        r == insert_index(side, sel, len as nat),
{
    let want: usize = match side {
        SegmentInsertSide::Before => match sel {
            Selection::Segment { slot, .. } => slot,
            _ => len,
        },
        _ => match sel {
            Selection::Segment { slot, .. } => if slot < len {
                slot + 1
            } else {
                len
            },
            _ => len,
        },
    };
    if want < len {
        want
    } else {
        len
    }
}

/// Stores radial menu `m` at `(set, entry, w)` with a numbered sector
/// inserted at `at`.
pub(crate) fn put_with_slot_inserted(
    cfg: &mut QuickActionConfig,
    set: usize,
    entry: usize,
    w: usize,
    m: crate::model::RadialMenu,
    at: usize,
)
    requires
        menu_at(old(cfg)@, set as int, entry as int, w as int) is Some,
        at <= m.slots.len() < usize::MAX,
    ensures
        final(cfg)@ == with_menu(old(cfg)@, set as int, entry as int, w as int, with_slot_inserted(m@, at as nat)),
{
    let mut m2 = m;
    let ghost before = m2@;
    let s = slot_named(at + 1);
    let ghost sv = s@;
    m2.slots.insert(at, s);
    assert(sectors_view(m2.slots@) =~= before.slots.insert(at as int, sv));
    put_menu(cfg, set, entry, w, m2);
}

/// Stores radial menu `m` at `(set, entry, w)` without sector `slot`.
pub(crate) fn put_with_slot_removed(
    cfg: &mut QuickActionConfig,
    set: usize,
    entry: usize,
    w: usize,
    m: crate::model::RadialMenu,
    slot: usize,
)
    requires
        menu_at(old(cfg)@, set as int, entry as int, w as int) is Some,
        slot < m.slots.len(),
    ensures
        final(cfg)@ == with_menu(old(cfg)@, set as int, entry as int, w as int, with_slot_removed(m@, slot)),
{
    let mut m2 = m;
    let ghost before = m2@;
    m2.slots.remove(slot);
    assert(sectors_view(m2.slots@) =~= before.slots.remove(slot as int));
    put_menu(cfg, set, entry, w, m2);
}

fn press_segment_structure(
    a: &WheelHudAction,
    cfg: &mut QuickActionConfig,
    ui: &mut EditorUiState,
    hud: &mut WheelHudState,
)
    requires
        is_segment_structure(*a),
        press_ok(*a, old(cfg)@, *old(hud)),
    ensures
        (final(cfg)@, final(ui)@, *final(hud)) == segment_press(*a, old(cfg)@, old(ui)@, *old(hud)),
{
    match a {
        WheelHudAction::AddSegment { set, entry, wheel, side } => {
            if let Some(w) = wheel {
                if let Some(m) = get_menu(cfg, *set, *entry, *w) {
                    let len = m.slots.len();
                    let at = insert_index_of(*side, ui.selection, len);
                    put_with_slot_inserted(cfg, *set, *entry, *w, m, at);
                    ui.selection = Selection::Segment { set: *set, entry: *entry, wheel: *wheel, slot: at };
                    hud.selected_segment = Some((*set, *entry, *wheel, at));
                    hud.highlighted = Some((*set, *entry, *wheel, at));
                }
            }
        },
        WheelHudAction::RemoveSegment { set, entry, wheel, slot } => {
            if let Some(w) = wheel {
                if let Some(m) = get_menu(cfg, *set, *entry, *w) {
                    let len = m.slots.len();
                    if len > MIN_SECTORS && *slot < len {
                        put_with_slot_removed(cfg, *set, *entry, *w, m, *slot);
                        let last = len - 2;
                        let next = if *slot < last {
                            *slot
                        } else {
                            last
                        };
                        ui.selection = Selection::Segment {
                            set: *set,
                            entry: *entry,
                            wheel: *wheel,
                            slot: next,
                        };
                        hud.selected_segment = Some((*set, *entry, *wheel, next));
                        hud.highlighted = Some((*set, *entry, *wheel, next));
                    }
                }
            }
        },
        WheelHudAction::DeleteSegment { set, entry, wheel, slot } => {
            if let Some(w) = wheel {
                if let Some(m) = get_menu(cfg, *set, *entry, *w) {
                    let len = m.slots.len();
                    if len > MIN_SECTORS && *slot < len {
                        put_with_slot_removed(cfg, *set, *entry, *w, m, *slot);
                    }
                }
            }
            ui.selection = Selection::Nothing;
            hud.selected_segment = None;
            hud.highlighted = None;
        },
        _ => {},
    }
}

fn clear_selected(hud: &mut WheelHudState)
    ensures
        *final(hud) == unselected(*old(hud)),
{
    hud.selected_action = None;
    hud.selected_wheel = None;
    hud.selected_hud_switch = None;
    hud.selected_segment = None;
}

#[verifier::rlimit(60)]
fn press_view(a: &WheelHudAction, cfg: &QuickActionConfig, ui: &mut EditorUiState, hud: &mut WheelHudState)
    ensures
        (final(ui)@, *final(hud)) == view_press(*a, cfg@, old(ui)@, *old(hud)),
{
    match a {
        WheelHudAction::SetActiveSet(i) => {
            hud.active_set = *i;
            hud.active_wheel_entry = 0;
            hud.active_wheel_index = 0;
        },
        WheelHudAction::PrevSet => {
            if hud.active_set > 0 {
                hud.active_set = hud.active_set - 1;
            } else if cfg.cycle_sets && cfg.sets.len() > 0 {
                hud.active_set = cfg.sets.len() - 1;
            }
            hud.active_wheel_entry = 0;
            hud.active_wheel_index = 0;
        },
        WheelHudAction::NextSet => {
            let max = if cfg.sets.len() > 0 {
                cfg.sets.len() - 1
            } else {
                0
            };
            if hud.active_set < max {
                hud.active_set = hud.active_set + 1;
            } else if cfg.cycle_sets {
                hud.active_set = 0;
            }
            hud.active_wheel_entry = 0;
            hud.active_wheel_index = 0;
        },
        WheelHudAction::ToggleEditor => {
            hud.editor_open = !hud.editor_open;
            hud.edit_control_focus = if hud.editor_open {
                Some(0)
            } else {
                None
            };
            if !hud.editor_open {
                ui.selection = Selection::Nothing;
                ui.editing = EditFocus::Idle;
                hud.settings_open = false;
                clear_selected(hud);
                hud.hovered_action = None;
                hud.hovered_wheel = None;
                hud.hovered_hud_switch = None;
            }
        },
        WheelHudAction::ToggleSettings => {
            hud.settings_open = !hud.settings_open;
            if hud.settings_open {
                hud.highlighted = None;
                hud.selected_action = None;
                hud.selected_wheel = None;
                hud.selected_hud_switch = None;
                hud.hovered_action = None;
                hud.hovered_wheel = None;
                hud.hovered_hud_switch = None;
                ui.selection = Selection::Nothing;
                ui.editing = EditFocus::Idle;
            }
        },
        WheelHudAction::EditSegmentName { set, entry, wheel, slot }
        | WheelHudAction::EditSegmentIcon { set, entry, wheel, slot }
        | WheelHudAction::EditSegmentInput { set, entry, wheel, slot } => {
            ui.selection = Selection::Segment { set: *set, entry: *entry, wheel: *wheel, slot: *slot };
            hud.selected_action = None;
            hud.selected_wheel = None;
            hud.selected_hud_switch = None;
            hud.selected_segment = Some((*set, *entry, *wheel, *slot));
            ui.editing = match a {
                WheelHudAction::EditSegmentName { .. } => EditFocus::SlotName(*slot),
                WheelHudAction::EditSegmentIcon { .. } => EditFocus::SlotIcon(*slot),
                _ => EditFocus::SlotInput(*slot),
            };
            hud.highlighted = Some((*set, *entry, *wheel, *slot));
        },
        WheelHudAction::SelectAction { set, entry } => {
            clear_selected(hud);
            hud.selected_action = Some((*set, *entry));
            hud.highlighted = None;
            ui.selection = Selection::Action { set: *set, entry: *entry };
        },
        WheelHudAction::SelectHudSwitch { set, entry }
        | WheelHudAction::MoveHudSwitch { set, entry }
        | WheelHudAction::EditHudSwitch { set, entry } => {
            clear_selected(hud);
            hud.selected_hud_switch = Some((*set, *entry));
            hud.highlighted = None;
            ui.selection = Selection::HudSwitch { set: *set, entry: *entry };
        },
        WheelHudAction::MoveAction { set, entry } | WheelHudAction::EditAction { set, entry } => {
            hud.selected_action = Some((*set, *entry));
            hud.selected_wheel = None;
            hud.highlighted = None;
            ui.selection = Selection::Action { set: *set, entry: *entry };
        },
        WheelHudAction::WheelSettings { set, entry, wheel }
        | WheelHudAction::MoveWheel { set, entry, wheel }
        | WheelHudAction::SelectWheel { set, entry, wheel } => {
            clear_selected(hud);
            hud.selected_wheel = Some((*set, *entry, *wheel));
            hud.highlighted = None;
            ui.selection = Selection::Wheel { set: *set, entry: *entry, wheel: *wheel };
        },
        WheelHudAction::CloseSelection => {
            hud.highlighted = None;
            hud.selected_action = None;
            hud.selected_wheel = None;
            hud.selected_segment = None;
            hud.edit_control_focus = None;
            ui.selection = Selection::Nothing;
            ui.editing = EditFocus::Idle;
        },
        _ => {},
    }
}

/// The editor action that a press of a button with action `a` performs.
fn delegated_of(a: &WheelHudAction, hud: &WheelHudState) -> (r: Option<EditorAction>)
    ensures
        r == delegated(*a, *hud),
{
    match a {
        WheelHudAction::AddNewButton => Some(EditorAction::AddAction { set: hud.active_set }),
        WheelHudAction::DeleteHudSwitch { set, entry }
        | WheelHudAction::DeleteAction { set, entry }
        | WheelHudAction::DeleteWheel { set, entry, .. } => Some(
            EditorAction::DeleteEntry { set: *set, entry: *entry },
        ),
        WheelHudAction::EditActionName { set, entry } => Some(
            EditorAction::EditName { set: *set, entry: *entry },
        ),
        WheelHudAction::CaptureActionKey { set, entry } => Some(
            EditorAction::CaptureKey { set: *set, entry: *entry },
        ),
        WheelHudAction::CycleActionIcon { set, entry } => Some(
            EditorAction::CycleIcon { set: *set, entry: *entry },
        ),
        WheelHudAction::CycleActionMapping { set, entry } => Some(
            EditorAction::CycleCommand { set: *set, entry: *entry },
        ),
        WheelHudAction::ToggleActionHold { set, entry } => Some(
            EditorAction::ToggleHold { set: *set, entry: *entry },
        ),
        WheelHudAction::CycleHoldAction { set, entry } => Some(
            EditorAction::CycleHoldCommand { set: *set, entry: *entry },
        ),
        WheelHudAction::ToggleActionCloseOnApply { set, entry } => Some(
            EditorAction::ToggleActionCloseOnSelect { set: *set, entry: *entry },
        ),
        WheelHudAction::ResizeWheel { value, .. } => Some(
            EditorAction::WheelOuterRadiusDelta { value: *value },
        ),
        WheelHudAction::RotateAction { set, entry, value } => Some(
            EditorAction::ActionRotationDelta { set: *set, entry: *entry, value: *value },
        ),
        WheelHudAction::ActionWidthDelta { set, entry, value } => Some(
            EditorAction::ActionWidthDelta { set: *set, entry: *entry, value: *value },
        ),
        WheelHudAction::ActionHeightDelta { set, entry, value } => Some(
            EditorAction::ActionHeightDelta { set: *set, entry: *entry, value: *value },
        ),
        WheelHudAction::ActionRadiusDelta { set, entry, value } => Some(
            EditorAction::RadiusDelta { set: *set, entry: *entry, value: *value },
        ),
        WheelHudAction::CycleActionPosition { set, entry } => Some(
            EditorAction::CyclePosition { set: *set, entry: *entry },
        ),
        _ => None,
    }
}

fn press_delegated(
    a: &WheelHudAction,
    ea: EditorAction,
    cfg: &mut QuickActionConfig,
    ui: &mut EditorUiState,
    hud: &mut WheelHudState,
) -> (r: EditorEffect)
    requires
        delegated(*a, *old(hud)) == Some(ea),
        action_ok(ea, old(cfg)@),
    ensures
        (final(cfg)@, final(ui)@, *final(hud), r) == delegated_press(*a, old(cfg)@, old(ui)@, *old(hud)),
{
    if let WheelHudAction::ResizeWheel { set, entry, wheel, .. } = a {
        ui.selection = Selection::Wheel { set: *set, entry: *entry, wheel: *wheel };
    }
    let e = apply_action(&ea, cfg, ui, hud);
    match a {
        WheelHudAction::DeleteHudSwitch { .. } => clear_selected(hud),
        WheelHudAction::DeleteAction { .. } => {
            hud.selected_action = None;
            hud.selected_wheel = None;
            hud.selected_segment = None;
            hud.highlighted = None;
            hud.edit_control_focus = None;
        },
        WheelHudAction::DeleteWheel { .. } => {
            hud.selected_wheel = None;
            hud.selected_segment = None;
            hud.highlighted = None;
        },
        WheelHudAction::EditActionName { set, entry }
        | WheelHudAction::CaptureActionKey { set, entry }
        | WheelHudAction::RotateAction { set, entry, .. } => {
            hud.selected_action = Some((*set, *entry));
        },
        WheelHudAction::ResizeWheel { set, entry, wheel, .. } => {
            hud.selected_wheel = Some((*set, *entry, *wheel));
            hud.selected_segment = None;
        },
        _ => {},
    }
    e
}

/// Performs the press of a button with action `a`.
pub fn press_hud_button(
    a: &WheelHudAction,
    cfg: &mut QuickActionConfig,
    ui: &mut EditorUiState,
    hud: &mut WheelHudState,
) -> (r: EditorEffect)
    requires
        press_ok(*a, old(cfg)@, *old(hud)),
    ensures
        (final(cfg)@, final(ui)@, *final(hud), r) == press_outcome(*a, old(cfg)@, old(ui)@, *old(hud)),
{
    if let Some(ea) = delegated_of(a, hud) {
        return press_delegated(a, ea, cfg, ui, hud);
    }
    match a {
        WheelHudAction::AddSegment { .. }
        | WheelHudAction::RemoveSegment { .. }
        | WheelHudAction::DeleteSegment { .. } => {
            press_segment_structure(a, cfg, ui, hud);
            EditorEffect::NoEffect
        },
        WheelHudAction::CycleSegmentMapping { set, entry, wheel, slot } => {
            if let Some(w) = wheel {
                edit_menu_at(cfg, *set, *entry, *w, MenuEdit::Slot(*slot, SlotEdit::CycleCommand));
            }
            EditorEffect::NoEffect
        },
        WheelHudAction::ToggleSegmentHold { set, entry, wheel, slot } => {
            if let Some(w) = wheel {
                edit_menu_at(cfg, *set, *entry, *w, MenuEdit::Slot(*slot, SlotEdit::ToggleHold));
            }
            EditorEffect::NoEffect
        },
        WheelHudAction::CycleSegmentHoldAction { set, entry, wheel, slot } => {
            if let Some(w) = wheel {
                edit_menu_at(cfg, *set, *entry, *w, MenuEdit::Slot(*slot, SlotEdit::CycleHoldCommand));
            }
            EditorEffect::NoEffect
        },
        WheelHudAction::ToggleSegmentCloseOnApply { set, entry, wheel, slot } => {
            if let Some(w) = wheel {
                edit_menu_at(
                    cfg,
                    *set,
                    *entry,
                    *w,
                    MenuEdit::Slot(*slot, SlotEdit::ToggleCloseOnSelect),
                );
            }
            EditorEffect::NoEffect
        },
        WheelHudAction::ResizeHudSwitch { set, entry, width, height } => {
            edit_switch(cfg, *set, *entry, SwitchEdit::SetSize(*width, *height));
            ui.selection = Selection::HudSwitch { set: *set, entry: *entry };
            EditorEffect::NoEffect
        },
        WheelHudAction::SaveConfig => EditorEffect::SaveConfig,
        _ => {
            press_view(a, cfg, ui, hud);
            EditorEffect::NoEffect
        },
    }
}

/// Handles a change of the pointer state of a HUD button with action `a`
/// to `p`: updates the hover marks, and on a press does what the button
/// does. Saving is returned as an effect for the host to perform.
pub fn process_hud_button(
    a: &WheelHudAction,
    p: PointerState,
    cfg: &mut QuickActionConfig,
    ui: &mut EditorUiState,
    hud: &mut WheelHudState,
) -> (r: EditorEffect)
    requires
        p is Pressed ==> press_ok(*a, old(cfg)@, *old(hud)),
    ensures
        (final(cfg)@, final(ui)@, *final(hud), r) == hud_button_outcome(*a, p, old(cfg)@, old(ui)@, *old(hud)),
{
    apply_hover(hud, a, p);
    if p == PointerState::Pressed {
        press_hud_button(a, cfg, ui, hud)
    } else {
        EditorEffect::NoEffect
    }
}

// ─── sectors ──────────────────────────────────────────────────────────────────

/// The outcome of the pointer state of sector `id` of a HUD radial menu
/// changing to `p`, while the editor is open. When the wheel settings panel
/// takes the pointer this frame (`settings_busy`), sectors under it are
/// ignored.
pub open spec fn segment_pointer_outcome(
    u: EditorUiView,
    h: WheelHudState,
    settings_busy: bool,
    id: (usize, usize, Option<usize>, usize),
    p: PointerState,
) -> (EditorUiView, WheelHudState) {
    let (set, entry, wheel, slot) = id;
    if !h.editor_open || settings_busy {
        (u, h)
    } else {
        match p {
            PointerState::Hovered => (
                u,
                WheelHudState {
                    mouse_hovered_segment: Some(id),
                    highlighted: Some(id),
                    hovered_wheel: Some((set, entry, wheel)),
                    selected_action: None,
                    selected_wheel: None,
                    edit_control_focus: Some(0),
                    ..h
                },
            ),
            PointerState::Away => if h.mouse_hovered_segment == Some(id) {
                let h1 = WheelHudState {
                    mouse_hovered_segment: None,
                    hovered_wheel: if h.hovered_wheel == Some((set, entry, wheel)) {
                        None
                    } else {
                        h.hovered_wheel
                    },
                    ..h
                };
                if u.selection == (Selection::Segment { set, entry, wheel, slot }) {
                    (u, h1)
                } else {
                    (u, WheelHudState { highlighted: None, edit_control_focus: None, ..h1 })
                }
            } else {
                (u, h)
            },
            PointerState::Pressed => (
                EditorUiView { selection: Selection::Segment { set, entry, wheel, slot }, ..u },
                WheelHudState {
                    mouse_hovered_segment: None,
                    highlighted: Some(id),
                    selected_segment: Some(id),
                    selected_action: None,
                    selected_wheel: None,
                    edit_control_focus: Some(0),
                    ..h
                },
            ),
        }
    }
}

/// Handles a change of the pointer state of sector `id` of a HUD radial
/// menu to `p`.
pub fn click_hud_segment(
    ui: &mut EditorUiState,
    hud: &mut WheelHudState,
    settings_busy: bool,
    id: (usize, usize, Option<usize>, usize),
    p: PointerState,
)
    ensures
        (final(ui)@, *final(hud)) == segment_pointer_outcome(old(ui)@, *old(hud), settings_busy, id, p),
{
    if !hud.editor_open || settings_busy {
        return;
    }
    let (set, entry, wheel, slot) = id;
    match p {
        PointerState::Hovered => {
            hud.mouse_hovered_segment = Some(id);
            hud.highlighted = Some(id);
            hud.hovered_wheel = Some((set, entry, wheel));
            hud.selected_action = None;
            hud.selected_wheel = None;
            hud.edit_control_focus = Some(0);
        },
        PointerState::Away => {
            if hud.mouse_hovered_segment == Some(id) {
                hud.mouse_hovered_segment = None;
                if hud.hovered_wheel == Some((set, entry, wheel)) {
                    hud.hovered_wheel = None;
                }
                if ui.selection != (Selection::Segment { set, entry, wheel, slot }) {
                    hud.highlighted = None;
                    hud.edit_control_focus = None;
                }
            }
        },
        PointerState::Pressed => {
            hud.mouse_hovered_segment = None;
            hud.highlighted = Some(id);
            hud.selected_segment = Some(id);
            hud.selected_action = None;
            hud.selected_wheel = None;
            hud.edit_control_focus = Some(0);
            ui.selection = Selection::Segment { set, entry, wheel, slot };
        },
    }
}

} // verus!
