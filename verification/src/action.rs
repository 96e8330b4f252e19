//! Actions dispatched by the in-canvas editor, and how each one is routed to
//! the configuration.
use crate::config::FloatBits;
use crate::edit::{
    wheel_set_edit_ok, ActionEdit, MenuEdit, PageEdit, SlotEdit, SwitchEdit, WheelSetEdit,
};
use crate::model::{wheel_set_at, ConfigView, QuickActionConfig, WheelTheme};
use crate::update::{struct_edit_ok, ConfigEdit, StructEdit};
use vstd::prelude::*;

verus! {

#[allow(inconsistent_fields)]
/// An editor action.
///
/// Variants that carry a floating-point setting carry it as `value`: the
/// setting's new value, already computed by the host from the delta or slider
/// position (clamping and wrapping of floats happen outside the library).
#[derive(Debug)]
pub enum EditorAction {
    // ── sets ─────────────────────────────────────────────────────────────────
    AddSet,
    DeleteSet { set: usize },
    SelectSet { set: usize },
    EditSetName { set: usize },
    SetOpacityDelta { set: usize, value: FloatBits },
    ToggleInputOverride { set: usize },
    ToggleSetEnabled { set: usize },
    // ── entries ──────────────────────────────────────────────────────────────
    AddAction { set: usize },
    AddWheelSet { set: usize },
    AddHudSwitch { set: usize },
    AddWheelToSet { set: usize, entry: usize },
    DeleteEntry { set: usize, entry: usize },
    DeleteWheelFromSet { set: usize, entry: usize, wheel: usize },
    MoveEntryUp { set: usize, entry: usize },
    MoveEntryDown { set: usize, entry: usize },
    // ── selection ────────────────────────────────────────────────────────────
    SelectAction { set: usize, entry: usize },
    SelectHudSwitch { set: usize, entry: usize },
    CaptureHudSwitchKey { set: usize, entry: usize },
    ClearHudSwitchKey { set: usize, entry: usize },
    ToggleHudSwitchEnabled { set: usize, entry: usize },
    CycleHudSwitchTarget { set: usize, entry: usize },
    SelectWheel { set: usize, entry: usize, wheel: Option<usize> },
    SelectWheelSetEntry { set: usize, entry: usize },
    SelectSetSwitch,
    /// Go one level up from the current selection.
    NavBack,
    // ── quick action editing ─────────────────────────────────────────────────
    EditName { set: usize, entry: usize },
    SetActionName { set: usize, entry: usize, value: String },
    SetActionCooldown { set: usize, entry: usize, value: FloatBits },
    SetActionOpacity { set: usize, entry: usize, value: FloatBits },
    CaptureKey { set: usize, entry: usize },
    CycleIcon { set: usize, entry: usize },
    CycleCommand { set: usize, entry: usize },
    CycleHoldCommand { set: usize, entry: usize },
    CycleSlotCommand { slot: usize },
    CycleSlotHoldCommand { slot: usize },
    ToggleSlotHold { slot: usize },
    ToggleHold { set: usize, entry: usize },
    ToggleShowOnMenu { set: usize, entry: usize },
    ToggleActionLabels { set: usize, entry: usize },
    ToggleActionIcons { set: usize, entry: usize },
    ToggleEnabled { set: usize, entry: usize },
    OpacityDelta { set: usize, entry: usize, value: FloatBits },
    RadiusDelta { set: usize, entry: usize, value: FloatBits },
    ActionWidthDelta { set: usize, entry: usize, value: FloatBits },
    ActionRotationDelta { set: usize, entry: usize, value: FloatBits },
    ActionHeightDelta { set: usize, entry: usize, value: FloatBits },
    CyclePosition { set: usize, entry: usize },
    CycleShape { set: usize, entry: usize },
    // ── wheel editing ────────────────────────────────────────────────────────
    EditWheelName,
    SetWheelName { value: String },
    ToggleWheelThemePopup,
    SetWheelTheme { theme: WheelTheme },
    CaptureWheelStick,
    WheelCooldownDelta { value: FloatBits },
    SetWheelCooldown { value: FloatBits },
    WheelOuterRadiusDelta { value: FloatBits },
    WheelInnerRadiusDelta { value: FloatBits },
    SetWheelInnerRadius { value: FloatBits },
    ToggleWheelShowLabels,
    EditSlotName { slot: usize },
    // ── radial menu set editing ──────────────────────────────────────────────
    EditWheelSetName { set: usize, entry: usize },
    CaptureWheelSetSwitchKey { set: usize, entry: usize },
    CaptureWheelSetStick { set: usize, entry: usize },
    CaptureWheelSetNextKey { set: usize, entry: usize },
    CaptureWheelSetPrevKey { set: usize, entry: usize },
    ClearWheelSetNextKey { set: usize, entry: usize },
    ClearWheelSetPrevKey { set: usize, entry: usize },
    WheelSetMinDelta { set: usize, entry: usize, delta: i32 },
    WheelSetMaxDelta { set: usize, entry: usize, delta: i32 },
    ToggleWheelSetCycle { set: usize, entry: usize },
    SwitchWheelPrev { set: usize, entry: usize },
    SwitchWheelNext { set: usize, entry: usize },
    // ── set-switch shortcuts ─────────────────────────────────────────────────
    CaptureNextSetKey,
    CapturePrevSetKey,
    CaptureEditShortcut,
    // ── persistence ──────────────────────────────────────────────────────────
    Save,
    Load,
    ToggleShowSetBar,
    ToggleCycleSets,
    CycleHudOpenMode,
    HudBgOpacityDelta { value: FloatBits },
    CycleHudBgColor,
    // ── per-set config ───────────────────────────────────────────────────────
    EditSetBgImage { set: usize },
    SetBgImageOpacityDelta { set: usize, value: FloatBits },
    CaptureNextWheelKey { set: usize },
    CapturePrevWheelKey { set: usize },
    ToggleCycleWheels { set: usize },
    // ── segment editing ──────────────────────────────────────────────────────
    SelectSegment { set: usize, entry: usize, wheel: Option<usize>, slot: usize },
    EditSlotIcon { slot: usize },
    ToggleWheelShowIcon,
    CycleHighlightColor,
    WheelOpacityDelta { value: FloatBits },
    SetWheelOpacity { value: FloatBits },
    CycleInnerBorderColor,
    CycleOuterBorderColor,
    CycleWheelBgColor,
    WheelBgOpacityDelta { value: FloatBits },
    WheelOuterBorderWidthDelta { value: FloatBits },
    CycleWheelHubColor,
    WheelHubOpacityDelta { value: FloatBits },
    WheelInnerBorderWidthDelta { value: FloatBits },
    CaptureSlotInput { slot: usize },
    ClearSlotInput { slot: usize },
    // ── clear shortcuts ──────────────────────────────────────────────────────
    ClearNextSetKey,
    ClearPrevSetKey,
    ClearEditShortcut,
    ClearNextWheelKey { set: usize },
    ClearPrevWheelKey { set: usize },
    ClearWheelSetSwitchKey { set: usize, entry: usize },
    ClearWheelSetStick { set: usize, entry: usize },
    ClearActionKey { set: usize, entry: usize },
    ToggleSlotCloseOnSelect { slot: usize },
    ToggleActionCloseOnSelect { set: usize, entry: usize },
    // ── undo / redo ──────────────────────────────────────────────────────────
    Undo,
    Redo,
}

impl Clone for EditorAction {
    fn clone(&self) -> (r: Self)
        ensures
            r == *self,
    {
        match self {
            EditorAction::AddSet => EditorAction::AddSet,
            EditorAction::DeleteSet { set } => EditorAction::DeleteSet { set: *set },
            EditorAction::SelectSet { set } => EditorAction::SelectSet { set: *set },
            EditorAction::EditSetName { set } => EditorAction::EditSetName { set: *set },
            EditorAction::SetOpacityDelta { set, value } => EditorAction::SetOpacityDelta { set: *set, value: *value },
            EditorAction::ToggleInputOverride { set } => EditorAction::ToggleInputOverride { set: *set },
            EditorAction::ToggleSetEnabled { set } => EditorAction::ToggleSetEnabled { set: *set },
            EditorAction::AddAction { set } => EditorAction::AddAction { set: *set },
            EditorAction::AddWheelSet { set } => EditorAction::AddWheelSet { set: *set },
            EditorAction::AddHudSwitch { set } => EditorAction::AddHudSwitch { set: *set },
            EditorAction::AddWheelToSet { set, entry } => EditorAction::AddWheelToSet { set: *set, entry: *entry },
            EditorAction::DeleteEntry { set, entry } => EditorAction::DeleteEntry { set: *set, entry: *entry },
            EditorAction::DeleteWheelFromSet { set, entry, wheel } => EditorAction::DeleteWheelFromSet { set: *set, entry: *entry, wheel: *wheel },
            EditorAction::MoveEntryUp { set, entry } => EditorAction::MoveEntryUp { set: *set, entry: *entry },
            EditorAction::MoveEntryDown { set, entry } => EditorAction::MoveEntryDown { set: *set, entry: *entry },
            EditorAction::SelectAction { set, entry } => EditorAction::SelectAction { set: *set, entry: *entry },
            EditorAction::SelectHudSwitch { set, entry } => EditorAction::SelectHudSwitch { set: *set, entry: *entry },
            EditorAction::CaptureHudSwitchKey { set, entry } => EditorAction::CaptureHudSwitchKey { set: *set, entry: *entry },
            EditorAction::ClearHudSwitchKey { set, entry } => EditorAction::ClearHudSwitchKey { set: *set, entry: *entry },
            EditorAction::ToggleHudSwitchEnabled { set, entry } => EditorAction::ToggleHudSwitchEnabled { set: *set, entry: *entry },
            EditorAction::CycleHudSwitchTarget { set, entry } => EditorAction::CycleHudSwitchTarget { set: *set, entry: *entry },
            EditorAction::SelectWheel { set, entry, wheel } => EditorAction::SelectWheel { set: *set, entry: *entry, wheel: *wheel },
            EditorAction::SelectWheelSetEntry { set, entry } => EditorAction::SelectWheelSetEntry { set: *set, entry: *entry },
            EditorAction::SelectSetSwitch => EditorAction::SelectSetSwitch,
            EditorAction::NavBack => EditorAction::NavBack,
            EditorAction::EditName { set, entry } => EditorAction::EditName { set: *set, entry: *entry },
            EditorAction::SetActionName { set, entry, value } => EditorAction::SetActionName { set: *set, entry: *entry, value: value.clone() },
            EditorAction::SetActionCooldown { set, entry, value } => EditorAction::SetActionCooldown { set: *set, entry: *entry, value: *value },
            EditorAction::SetActionOpacity { set, entry, value } => EditorAction::SetActionOpacity { set: *set, entry: *entry, value: *value },
            EditorAction::CaptureKey { set, entry } => EditorAction::CaptureKey { set: *set, entry: *entry },
            EditorAction::CycleIcon { set, entry } => EditorAction::CycleIcon { set: *set, entry: *entry },
            EditorAction::CycleCommand { set, entry } => EditorAction::CycleCommand { set: *set, entry: *entry },
            EditorAction::CycleHoldCommand { set, entry } => EditorAction::CycleHoldCommand { set: *set, entry: *entry },
            EditorAction::CycleSlotCommand { slot } => EditorAction::CycleSlotCommand { slot: *slot },
            EditorAction::CycleSlotHoldCommand { slot } => EditorAction::CycleSlotHoldCommand { slot: *slot },
            EditorAction::ToggleSlotHold { slot } => EditorAction::ToggleSlotHold { slot: *slot },
            EditorAction::ToggleHold { set, entry } => EditorAction::ToggleHold { set: *set, entry: *entry },
            EditorAction::ToggleShowOnMenu { set, entry } => EditorAction::ToggleShowOnMenu { set: *set, entry: *entry },
            EditorAction::ToggleActionLabels { set, entry } => EditorAction::ToggleActionLabels { set: *set, entry: *entry },
            EditorAction::ToggleActionIcons { set, entry } => EditorAction::ToggleActionIcons { set: *set, entry: *entry },
            EditorAction::ToggleEnabled { set, entry } => EditorAction::ToggleEnabled { set: *set, entry: *entry },
            EditorAction::OpacityDelta { set, entry, value } => EditorAction::OpacityDelta { set: *set, entry: *entry, value: *value },
            EditorAction::RadiusDelta { set, entry, value } => EditorAction::RadiusDelta { set: *set, entry: *entry, value: *value },
            EditorAction::ActionWidthDelta { set, entry, value } => EditorAction::ActionWidthDelta { set: *set, entry: *entry, value: *value },
            EditorAction::ActionRotationDelta { set, entry, value } => EditorAction::ActionRotationDelta { set: *set, entry: *entry, value: *value },
            EditorAction::ActionHeightDelta { set, entry, value } => EditorAction::ActionHeightDelta { set: *set, entry: *entry, value: *value },
            EditorAction::CyclePosition { set, entry } => EditorAction::CyclePosition { set: *set, entry: *entry },
            EditorAction::CycleShape { set, entry } => EditorAction::CycleShape { set: *set, entry: *entry },
            EditorAction::EditWheelName => EditorAction::EditWheelName,
            EditorAction::SetWheelName { value } => EditorAction::SetWheelName { value: value.clone() },
            EditorAction::ToggleWheelThemePopup => EditorAction::ToggleWheelThemePopup,
            EditorAction::SetWheelTheme { theme } => EditorAction::SetWheelTheme { theme: *theme },
            EditorAction::CaptureWheelStick => EditorAction::CaptureWheelStick,
            EditorAction::WheelCooldownDelta { value } => EditorAction::WheelCooldownDelta { value: *value },
            EditorAction::SetWheelCooldown { value } => EditorAction::SetWheelCooldown { value: *value },
            EditorAction::WheelOuterRadiusDelta { value } => EditorAction::WheelOuterRadiusDelta { value: *value },
            EditorAction::WheelInnerRadiusDelta { value } => EditorAction::WheelInnerRadiusDelta { value: *value },
            EditorAction::SetWheelInnerRadius { value } => EditorAction::SetWheelInnerRadius { value: *value },
            EditorAction::ToggleWheelShowLabels => EditorAction::ToggleWheelShowLabels,
            EditorAction::EditSlotName { slot } => EditorAction::EditSlotName { slot: *slot },
            EditorAction::EditWheelSetName { set, entry } => EditorAction::EditWheelSetName { set: *set, entry: *entry },
            EditorAction::CaptureWheelSetSwitchKey { set, entry } => EditorAction::CaptureWheelSetSwitchKey { set: *set, entry: *entry },
            EditorAction::CaptureWheelSetStick { set, entry } => EditorAction::CaptureWheelSetStick { set: *set, entry: *entry },
            EditorAction::CaptureWheelSetNextKey { set, entry } => EditorAction::CaptureWheelSetNextKey { set: *set, entry: *entry },
            EditorAction::CaptureWheelSetPrevKey { set, entry } => EditorAction::CaptureWheelSetPrevKey { set: *set, entry: *entry },
            EditorAction::ClearWheelSetNextKey { set, entry } => EditorAction::ClearWheelSetNextKey { set: *set, entry: *entry },
            EditorAction::ClearWheelSetPrevKey { set, entry } => EditorAction::ClearWheelSetPrevKey { set: *set, entry: *entry },
            EditorAction::WheelSetMinDelta { set, entry, delta } => EditorAction::WheelSetMinDelta { set: *set, entry: *entry, delta: *delta },
            EditorAction::WheelSetMaxDelta { set, entry, delta } => EditorAction::WheelSetMaxDelta { set: *set, entry: *entry, delta: *delta },
            EditorAction::ToggleWheelSetCycle { set, entry } => EditorAction::ToggleWheelSetCycle { set: *set, entry: *entry },
            EditorAction::SwitchWheelPrev { set, entry } => EditorAction::SwitchWheelPrev { set: *set, entry: *entry },
            EditorAction::SwitchWheelNext { set, entry } => EditorAction::SwitchWheelNext { set: *set, entry: *entry },
            EditorAction::CaptureNextSetKey => EditorAction::CaptureNextSetKey,
            EditorAction::CapturePrevSetKey => EditorAction::CapturePrevSetKey,
            EditorAction::CaptureEditShortcut => EditorAction::CaptureEditShortcut,
            EditorAction::Save => EditorAction::Save,
            EditorAction::Load => EditorAction::Load,
            EditorAction::ToggleShowSetBar => EditorAction::ToggleShowSetBar,
            EditorAction::ToggleCycleSets => EditorAction::ToggleCycleSets,
            EditorAction::CycleHudOpenMode => EditorAction::CycleHudOpenMode,
            EditorAction::HudBgOpacityDelta { value } => EditorAction::HudBgOpacityDelta { value: *value },
            EditorAction::CycleHudBgColor => EditorAction::CycleHudBgColor,
            EditorAction::EditSetBgImage { set } => EditorAction::EditSetBgImage { set: *set },
            EditorAction::SetBgImageOpacityDelta { set, value } => EditorAction::SetBgImageOpacityDelta { set: *set, value: *value },
            EditorAction::CaptureNextWheelKey { set } => EditorAction::CaptureNextWheelKey { set: *set },
            EditorAction::CapturePrevWheelKey { set } => EditorAction::CapturePrevWheelKey { set: *set },
            EditorAction::ToggleCycleWheels { set } => EditorAction::ToggleCycleWheels { set: *set },
            EditorAction::SelectSegment { set, entry, wheel, slot } => EditorAction::SelectSegment { set: *set, entry: *entry, wheel: *wheel, slot: *slot },
            EditorAction::EditSlotIcon { slot } => EditorAction::EditSlotIcon { slot: *slot },
            EditorAction::ToggleWheelShowIcon => EditorAction::ToggleWheelShowIcon,
            EditorAction::CycleHighlightColor => EditorAction::CycleHighlightColor,
            EditorAction::WheelOpacityDelta { value } => EditorAction::WheelOpacityDelta { value: *value },
            EditorAction::SetWheelOpacity { value } => EditorAction::SetWheelOpacity { value: *value },
            EditorAction::CycleInnerBorderColor => EditorAction::CycleInnerBorderColor,
            EditorAction::CycleOuterBorderColor => EditorAction::CycleOuterBorderColor,
            EditorAction::CycleWheelBgColor => EditorAction::CycleWheelBgColor,
            EditorAction::WheelBgOpacityDelta { value } => EditorAction::WheelBgOpacityDelta { value: *value },
            EditorAction::WheelOuterBorderWidthDelta { value } => EditorAction::WheelOuterBorderWidthDelta { value: *value },
            EditorAction::CycleWheelHubColor => EditorAction::CycleWheelHubColor,
            EditorAction::WheelHubOpacityDelta { value } => EditorAction::WheelHubOpacityDelta { value: *value },
            EditorAction::WheelInnerBorderWidthDelta { value } => EditorAction::WheelInnerBorderWidthDelta { value: *value },
            EditorAction::CaptureSlotInput { slot } => EditorAction::CaptureSlotInput { slot: *slot },
            EditorAction::ClearSlotInput { slot } => EditorAction::ClearSlotInput { slot: *slot },
            EditorAction::ClearNextSetKey => EditorAction::ClearNextSetKey,
            EditorAction::ClearPrevSetKey => EditorAction::ClearPrevSetKey,
            EditorAction::ClearEditShortcut => EditorAction::ClearEditShortcut,
            EditorAction::ClearNextWheelKey { set } => EditorAction::ClearNextWheelKey { set: *set },
            EditorAction::ClearPrevWheelKey { set } => EditorAction::ClearPrevWheelKey { set: *set },
            EditorAction::ClearWheelSetSwitchKey { set, entry } => EditorAction::ClearWheelSetSwitchKey { set: *set, entry: *entry },
            EditorAction::ClearWheelSetStick { set, entry } => EditorAction::ClearWheelSetStick { set: *set, entry: *entry },
            EditorAction::ClearActionKey { set, entry } => EditorAction::ClearActionKey { set: *set, entry: *entry },
            EditorAction::ToggleSlotCloseOnSelect { slot } => EditorAction::ToggleSlotCloseOnSelect { slot: *slot },
            EditorAction::ToggleActionCloseOnSelect { set, entry } => EditorAction::ToggleActionCloseOnSelect { set: *set, entry: *entry },
            EditorAction::Undo => EditorAction::Undo,
            EditorAction::Redo => EditorAction::Redo,
        }
    }
}

/// Outside work an action asks of the host.
#[derive(Clone, Copy, PartialEq, Eq, Structural, Debug)]
pub enum EditorEffect {
    /// Nothing to do.
    NoEffect,
    /// Write the configuration to the editor's config path.
    SaveConfig,
    /// Read the configuration from the editor's config path and hand it to
    /// [`crate::apply::finish_load`].
    LoadConfig,
}

/// Whether `a` may change the configuration, so that an undo snapshot is taken
/// before it.
pub open spec fn is_mutative(a: EditorAction) -> bool {
    !(a is SelectSet || a is SelectAction || a is SelectWheel || a is SelectWheelSetEntry
        || a is SelectSetSwitch || a is NavBack || a is SelectSegment || a is EditName
        || a is EditSetName || a is EditWheelName || a is EditSlotName
        || a is EditSlotIcon || a is EditWheelSetName || a is EditSetBgImage || a is CaptureKey
        || a is CaptureNextSetKey || a is CapturePrevSetKey || a is CaptureEditShortcut
        || a is CaptureWheelSetSwitchKey || a is CaptureSlotInput || a is CaptureNextWheelKey
        || a is CapturePrevWheelKey || a is Save || a is Load || a is Undo || a is Redo)
}

/// Whether `a` changes only what the sidebar shows (selection and edit focus),
/// so the HUD canvas need not be rebuilt.
pub open spec fn is_nav_only(a: EditorAction) -> bool {
    a is EditSetName || a is EditName || a is EditWheelName || a is EditWheelSetName
        || a is EditSlotName || a is EditSlotIcon || a is EditSetBgImage || a is CaptureKey
        || a is CaptureNextSetKey || a is CapturePrevSetKey || a is CaptureEditShortcut
        || a is CaptureWheelSetSwitchKey || a is CaptureSlotInput || a is CaptureNextWheelKey
        || a is CapturePrevWheelKey || a is Save
}

/// Whether `a` may change the configuration.
pub fn is_mutative_action(a: &EditorAction) -> (r: bool)
    ensures
        r == is_mutative(*a),
{
    match a {
        EditorAction::SelectSet { .. }
        | EditorAction::SelectAction { .. }
        | EditorAction::SelectWheel { .. }
        | EditorAction::SelectWheelSetEntry { .. }
        | EditorAction::SelectSetSwitch
        | EditorAction::NavBack
        | EditorAction::SelectSegment { .. }
        | EditorAction::EditName { .. }
        | EditorAction::EditSetName { .. }
        | EditorAction::EditWheelName
        | EditorAction::EditSlotName { .. }
        | EditorAction::EditSlotIcon { .. }
        | EditorAction::EditWheelSetName { .. }
        | EditorAction::EditSetBgImage { .. }
        | EditorAction::CaptureKey { .. }
        | EditorAction::CaptureNextSetKey
        | EditorAction::CapturePrevSetKey
        | EditorAction::CaptureEditShortcut
        | EditorAction::CaptureWheelSetSwitchKey { .. }
        | EditorAction::CaptureSlotInput { .. }
        | EditorAction::CaptureNextWheelKey { .. }
        | EditorAction::CapturePrevWheelKey { .. }
        | EditorAction::Save
        | EditorAction::Load
        | EditorAction::Undo
        | EditorAction::Redo => false,
        _ => true,
    }
}

/// Whether `a` changes only what the sidebar shows.
pub fn is_nav_only_action(a: &EditorAction) -> (r: bool)
    ensures
        r == is_nav_only(*a),
{
    match a {
        EditorAction::EditSetName { .. }
        | EditorAction::EditName { .. }
        | EditorAction::EditWheelName
        | EditorAction::EditWheelSetName { .. }
        | EditorAction::EditSlotName { .. }
        | EditorAction::EditSlotIcon { .. }
        | EditorAction::EditSetBgImage { .. }
        | EditorAction::CaptureKey { .. }
        | EditorAction::CaptureNextSetKey
        | EditorAction::CapturePrevSetKey
        | EditorAction::CaptureEditShortcut
        | EditorAction::CaptureWheelSetSwitchKey { .. }
        | EditorAction::CaptureSlotInput { .. }
        | EditorAction::CaptureNextWheelKey { .. }
        | EditorAction::CapturePrevWheelKey { .. }
        | EditorAction::Save => true,
        _ => false,
    }
}

/// The part of the configuration an action edits, and the edit.
pub enum Target {
    /// The action does not edit the configuration.
    Untouched,
    Action(usize, usize, ActionEdit),
    /// The radial menu that the current selection addresses.
    SelectedMenu(MenuEdit),
    Switch(usize, usize, SwitchEdit),
    WheelSet(usize, usize, WheelSetEdit),
    Page(usize, PageEdit),
    Config(ConfigEdit),
    Structure(StructEdit),
}

/// Where action `a` edits configuration `c`.
pub open spec fn target_of(a: EditorAction, c: ConfigView) -> Target {
    match a {
        EditorAction::AddSet => Target::Structure(StructEdit::AddPage),
        EditorAction::DeleteSet { set } => Target::Structure(StructEdit::RemovePage(set)),
        EditorAction::SetOpacityDelta { set, value } => Target::Page(set, PageEdit::SetOpacity(value)),
        EditorAction::ToggleInputOverride { set } => Target::Page(set, PageEdit::ToggleInputOverride),
        EditorAction::ToggleSetEnabled { set } => Target::Page(set, PageEdit::ToggleEnabled),
        EditorAction::AddAction { set } => Target::Structure(StructEdit::AddAction(set)),
        EditorAction::AddWheelSet { set } => Target::Structure(StructEdit::AddWheelSet(set)),
        EditorAction::AddHudSwitch { set } => Target::Structure(StructEdit::AddHudSwitch(set)),
        EditorAction::AddWheelToSet { set, entry } => Target::WheelSet(set, entry, WheelSetEdit::AddMenu),
        EditorAction::DeleteEntry { set, entry } => Target::Structure(StructEdit::RemoveEntry(set, entry)),
        EditorAction::DeleteWheelFromSet { set, entry, wheel } => Target::WheelSet(
            set,
            entry,
            WheelSetEdit::RemoveMenu(wheel),
        ),
        EditorAction::MoveEntryUp { set, entry } => if entry > 0 {
            Target::Structure(StructEdit::SwapEntries(set, (entry - 1) as usize))
        } else {
            Target::Untouched
        },
        EditorAction::MoveEntryDown { set, entry } => Target::Structure(StructEdit::SwapEntries(set, entry)),
        EditorAction::ClearHudSwitchKey { set, entry } => Target::Switch(set, entry, SwitchEdit::ClearKey),
        EditorAction::ToggleHudSwitchEnabled { set, entry } => Target::Switch(
            set,
            entry,
            SwitchEdit::ToggleEnabled,
        ),
        EditorAction::CycleHudSwitchTarget { set, entry } => Target::Switch(
            set,
            entry,
            SwitchEdit::CycleTarget(c.sets.len() as usize),
        ),
        EditorAction::SetActionName { set, entry, value } => Target::Action(set, entry, ActionEdit::Rename(value)),
        EditorAction::SetActionCooldown { set, entry, value } => Target::Action(
            set,
            entry,
            ActionEdit::SetCooldown(value),
        ),
        EditorAction::SetActionOpacity { set, entry, value } => Target::Action(
            set,
            entry,
            ActionEdit::SetOpacity(value),
        ),
        EditorAction::CycleIcon { set, entry } => Target::Action(set, entry, ActionEdit::CycleIcon),
        EditorAction::CycleCommand { set, entry } => Target::Action(set, entry, ActionEdit::CycleCommand),
        EditorAction::CycleHoldCommand { set, entry } => Target::Action(
            set,
            entry,
            ActionEdit::CycleHoldCommand,
        ),
        EditorAction::CycleSlotCommand { slot } => Target::SelectedMenu(MenuEdit::Slot(slot, SlotEdit::CycleCommand)),
        EditorAction::CycleSlotHoldCommand { slot } => Target::SelectedMenu(
            MenuEdit::Slot(slot, SlotEdit::CycleHoldCommand),
        ),
        EditorAction::ToggleSlotHold { slot } => Target::SelectedMenu(MenuEdit::Slot(slot, SlotEdit::ToggleHold)),
        EditorAction::ToggleHold { set, entry } => Target::Action(set, entry, ActionEdit::ToggleHold),
        EditorAction::ToggleShowOnMenu { set, entry } => Target::Action(set, entry, ActionEdit::ToggleShowOnMenu),
        EditorAction::ToggleActionLabels { set, entry } => Target::Action(set, entry, ActionEdit::ToggleLabels),
        EditorAction::ToggleActionIcons { set, entry } => Target::Action(set, entry, ActionEdit::ToggleIcons),
        EditorAction::ToggleEnabled { set, entry } => Target::Action(set, entry, ActionEdit::ToggleEnabled),
        EditorAction::OpacityDelta { set, entry, value } => Target::Action(set, entry, ActionEdit::SetOpacity(value)),
        EditorAction::RadiusDelta { set, entry, value } => Target::Action(set, entry, ActionEdit::SetRadius(value)),
        EditorAction::ActionWidthDelta { set, entry, value } => Target::Action(set, entry, ActionEdit::SetWidth(value)),
        EditorAction::ActionRotationDelta { set, entry, value } => Target::Action(
            set,
            entry,
            ActionEdit::SetRotation(value),
        ),
        EditorAction::ActionHeightDelta { set, entry, value } => Target::Action(set, entry, ActionEdit::SetHeight(value)),
        EditorAction::CyclePosition { set, entry } => Target::Action(set, entry, ActionEdit::CyclePosition),
        EditorAction::CycleShape { set, entry } => Target::Action(set, entry, ActionEdit::CycleShape),
        EditorAction::SetWheelName { value } => Target::SelectedMenu(MenuEdit::Rename(value)),
        EditorAction::SetWheelTheme { theme } => Target::SelectedMenu(MenuEdit::SetTheme(theme)),
        EditorAction::WheelCooldownDelta { value } => Target::SelectedMenu(MenuEdit::SetCooldown(value)),
        EditorAction::SetWheelCooldown { value } => Target::SelectedMenu(MenuEdit::SetCooldown(value)),
        EditorAction::WheelOuterRadiusDelta { value } => Target::SelectedMenu(MenuEdit::SetOuterRadius(value)),
        EditorAction::WheelInnerRadiusDelta { value } => Target::SelectedMenu(MenuEdit::SetInnerRadius(value)),
        EditorAction::SetWheelInnerRadius { value } => Target::SelectedMenu(MenuEdit::SetInnerRadius(value)),
        EditorAction::ToggleWheelShowLabels => Target::SelectedMenu(MenuEdit::ToggleShowLabels),
        EditorAction::ClearWheelSetNextKey { set, entry } => Target::WheelSet(set, entry, WheelSetEdit::ClearNextKey),
        EditorAction::ClearWheelSetPrevKey { set, entry } => Target::WheelSet(set, entry, WheelSetEdit::ClearPrevKey),
        EditorAction::WheelSetMinDelta { set, entry, delta } => Target::WheelSet(
            set,
            entry,
            WheelSetEdit::MinDelta(delta),
        ),
        EditorAction::WheelSetMaxDelta { set, entry, delta } => Target::WheelSet(
            set,
            entry,
            WheelSetEdit::MaxDelta(delta),
        ),
        EditorAction::ToggleWheelSetCycle { set, entry } => Target::WheelSet(set, entry, WheelSetEdit::ToggleCycle),
        EditorAction::ToggleShowSetBar => Target::Config(ConfigEdit::ToggleShowSetBar),
        EditorAction::ToggleCycleSets => Target::Config(ConfigEdit::ToggleCycleSets),
        EditorAction::CycleHudOpenMode => Target::Config(ConfigEdit::CycleHudOpenMode),
        EditorAction::HudBgOpacityDelta { value } => Target::Config(ConfigEdit::SetHudBgOpacity(value)),
        EditorAction::CycleHudBgColor => Target::Config(ConfigEdit::CycleHudBgColor),
        EditorAction::SetBgImageOpacityDelta { set, value } => Target::Page(set, PageEdit::SetBgImageOpacity(value)),
        EditorAction::ToggleCycleWheels { set } => Target::Page(set, PageEdit::ToggleCycleWheels),
        EditorAction::ToggleWheelShowIcon => Target::SelectedMenu(MenuEdit::ToggleShowIcon),
        EditorAction::CycleHighlightColor => Target::SelectedMenu(MenuEdit::CycleHighlight),
        EditorAction::WheelOpacityDelta { value } => Target::SelectedMenu(MenuEdit::SetOpacity(value)),
        EditorAction::SetWheelOpacity { value } => Target::SelectedMenu(MenuEdit::SetOpacity(value)),
        EditorAction::CycleInnerBorderColor => Target::SelectedMenu(MenuEdit::CycleInnerBorder),
        EditorAction::CycleOuterBorderColor => Target::SelectedMenu(MenuEdit::CycleOuterBorder),
        EditorAction::CycleWheelBgColor => Target::SelectedMenu(MenuEdit::CycleBg),
        EditorAction::WheelBgOpacityDelta { value } => Target::SelectedMenu(MenuEdit::SetBgOpacity(value)),
        EditorAction::WheelOuterBorderWidthDelta { value } => Target::SelectedMenu(
            MenuEdit::SetOuterBorderWidth(value),
        ),
        EditorAction::CycleWheelHubColor => Target::SelectedMenu(MenuEdit::CycleHub),
        EditorAction::WheelHubOpacityDelta { value } => Target::SelectedMenu(MenuEdit::SetHubOpacity(value)),
        EditorAction::WheelInnerBorderWidthDelta { value } => Target::SelectedMenu(
            MenuEdit::SetInnerBorderWidth(value),
        ),
        EditorAction::ClearSlotInput { slot } => Target::SelectedMenu(MenuEdit::Slot(slot, SlotEdit::ClearInput)),
        EditorAction::ClearNextSetKey => Target::Config(ConfigEdit::ClearNextSetKey),
        EditorAction::ClearPrevSetKey => Target::Config(ConfigEdit::ClearPrevSetKey),
        EditorAction::ClearEditShortcut => Target::Config(ConfigEdit::ClearEditShortcut),
        EditorAction::ClearNextWheelKey { set } => Target::Page(set, PageEdit::ClearNextWheelKey),
        EditorAction::ClearPrevWheelKey { set } => Target::Page(set, PageEdit::ClearPrevWheelKey),
        EditorAction::ClearWheelSetSwitchKey { set, entry } => Target::WheelSet(
            set,
            entry,
            WheelSetEdit::ClearSwitchKey,
        ),
        EditorAction::ClearWheelSetStick { set, entry } => Target::WheelSet(set, entry, WheelSetEdit::ClearStick),
        EditorAction::ClearActionKey { set, entry } => Target::Action(set, entry, ActionEdit::ClearKey),
        EditorAction::ToggleSlotCloseOnSelect { slot } => Target::SelectedMenu(
            MenuEdit::Slot(slot, SlotEdit::ToggleCloseOnSelect),
        ),
        EditorAction::ToggleActionCloseOnSelect { set, entry } => Target::Action(
            set,
            entry,
            ActionEdit::ToggleCloseOnSelect,
        ),
        _ => Target::Untouched,
    }
}

/// Whether the integer arithmetic of action `a` stays defined on
/// configuration `c` (see [`wheel_set_edit_ok`] and [`struct_edit_ok`]).
pub open spec fn action_ok(a: EditorAction, c: ConfigView) -> bool {
    match target_of(a, c) {
        Target::WheelSet(set, entry, e) => wheel_set_at(c, set as int, entry as int) is Some
            ==> wheel_set_edit_ok(wheel_set_at(c, set as int, entry as int)->0, e),
        Target::Structure(e) => struct_edit_ok(c, e),
        _ => true,
    }
}

/// Where action `a` edits configuration `cfg`.
pub fn target_of_action(a: &EditorAction, cfg: &QuickActionConfig) -> (r: Target)
    ensures
        r == target_of(*a, cfg@),
{
    match a {
        EditorAction::AddSet => Target::Structure(StructEdit::AddPage),
        EditorAction::DeleteSet { set } => Target::Structure(StructEdit::RemovePage(*set)),
        EditorAction::SetOpacityDelta { set, value } => Target::Page(*set, PageEdit::SetOpacity(*value)),
        EditorAction::ToggleInputOverride { set } => Target::Page(*set, PageEdit::ToggleInputOverride),
        EditorAction::ToggleSetEnabled { set } => Target::Page(*set, PageEdit::ToggleEnabled),
        EditorAction::AddAction { set } => Target::Structure(StructEdit::AddAction(*set)),
        EditorAction::AddWheelSet { set } => Target::Structure(StructEdit::AddWheelSet(*set)),
        EditorAction::AddHudSwitch { set } => Target::Structure(StructEdit::AddHudSwitch(*set)),
        EditorAction::AddWheelToSet { set, entry } => Target::WheelSet(*set, *entry, WheelSetEdit::AddMenu),
        EditorAction::DeleteEntry { set, entry } => Target::Structure(StructEdit::RemoveEntry(*set, *entry)),
        EditorAction::DeleteWheelFromSet { set, entry, wheel } => Target::WheelSet(
            *set,
            *entry,
            WheelSetEdit::RemoveMenu(*wheel),
        ),
        EditorAction::MoveEntryUp { set, entry } => if *entry > 0 {
            Target::Structure(StructEdit::SwapEntries(*set, *entry - 1))
        } else {
            Target::Untouched
        },
        EditorAction::MoveEntryDown { set, entry } => Target::Structure(StructEdit::SwapEntries(*set, *entry)),
        EditorAction::ClearHudSwitchKey { set, entry } => Target::Switch(*set, *entry, SwitchEdit::ClearKey),
        EditorAction::ToggleHudSwitchEnabled { set, entry } => Target::Switch(
            *set,
            *entry,
            SwitchEdit::ToggleEnabled,
        ),
        EditorAction::CycleHudSwitchTarget { set, entry } => Target::Switch(
            *set,
            *entry,
            SwitchEdit::CycleTarget(cfg.sets.len()),
        ),
        EditorAction::SetActionName { set, entry, value } => Target::Action(
            *set,
            *entry,
            ActionEdit::Rename(value.clone()),
        ),
        EditorAction::SetActionCooldown { set, entry, value } => Target::Action(
            *set,
            *entry,
            ActionEdit::SetCooldown(*value),
        ),
        EditorAction::SetActionOpacity { set, entry, value } => Target::Action(
            *set,
            *entry,
            ActionEdit::SetOpacity(*value),
        ),
        EditorAction::CycleIcon { set, entry } => Target::Action(*set, *entry, ActionEdit::CycleIcon),
        EditorAction::CycleCommand { set, entry } => Target::Action(*set, *entry, ActionEdit::CycleCommand),
        EditorAction::CycleHoldCommand { set, entry } => Target::Action(
            *set,
            *entry,
            ActionEdit::CycleHoldCommand,
        ),
        EditorAction::CycleSlotCommand { slot } => Target::SelectedMenu(
            MenuEdit::Slot(*slot, SlotEdit::CycleCommand),
        ),
        EditorAction::CycleSlotHoldCommand { slot } => Target::SelectedMenu(
            MenuEdit::Slot(*slot, SlotEdit::CycleHoldCommand),
        ),
        EditorAction::ToggleSlotHold { slot } => Target::SelectedMenu(MenuEdit::Slot(*slot, SlotEdit::ToggleHold)),
        EditorAction::ToggleHold { set, entry } => Target::Action(*set, *entry, ActionEdit::ToggleHold),
        EditorAction::ToggleShowOnMenu { set, entry } => Target::Action(
            *set,
            *entry,
            ActionEdit::ToggleShowOnMenu,
        ),
        EditorAction::ToggleActionLabels { set, entry } => Target::Action(
            *set,
            *entry,
            ActionEdit::ToggleLabels,
        ),
        EditorAction::ToggleActionIcons { set, entry } => Target::Action(*set, *entry, ActionEdit::ToggleIcons),
        EditorAction::ToggleEnabled { set, entry } => Target::Action(*set, *entry, ActionEdit::ToggleEnabled),
        EditorAction::OpacityDelta { set, entry, value } => Target::Action(
            *set,
            *entry,
            ActionEdit::SetOpacity(*value),
        ),
        EditorAction::RadiusDelta { set, entry, value } => Target::Action(
            *set,
            *entry,
            ActionEdit::SetRadius(*value),
        ),
        EditorAction::ActionWidthDelta { set, entry, value } => Target::Action(
            *set,
            *entry,
            ActionEdit::SetWidth(*value),
        ),
        EditorAction::ActionRotationDelta { set, entry, value } => Target::Action(
            *set,
            *entry,
            ActionEdit::SetRotation(*value),
        ),
        EditorAction::ActionHeightDelta { set, entry, value } => Target::Action(
            *set,
            *entry,
            ActionEdit::SetHeight(*value),
        ),
        EditorAction::CyclePosition { set, entry } => Target::Action(*set, *entry, ActionEdit::CyclePosition),
        EditorAction::CycleShape { set, entry } => Target::Action(*set, *entry, ActionEdit::CycleShape),
        EditorAction::SetWheelName { value } => Target::SelectedMenu(MenuEdit::Rename(value.clone())),
        EditorAction::SetWheelTheme { theme } => Target::SelectedMenu(MenuEdit::SetTheme(*theme)),
        EditorAction::WheelCooldownDelta { value } => Target::SelectedMenu(MenuEdit::SetCooldown(*value)),
        EditorAction::SetWheelCooldown { value } => Target::SelectedMenu(MenuEdit::SetCooldown(*value)),
        EditorAction::WheelOuterRadiusDelta { value } => Target::SelectedMenu(
            MenuEdit::SetOuterRadius(*value),
        ),
        EditorAction::WheelInnerRadiusDelta { value } => Target::SelectedMenu(
            MenuEdit::SetInnerRadius(*value),
        ),
        EditorAction::SetWheelInnerRadius { value } => Target::SelectedMenu(
            MenuEdit::SetInnerRadius(*value),
        ),
        EditorAction::ToggleWheelShowLabels => Target::SelectedMenu(MenuEdit::ToggleShowLabels),
        EditorAction::ClearWheelSetNextKey { set, entry } => Target::WheelSet(
            *set,
            *entry,
            WheelSetEdit::ClearNextKey,
        ),
        EditorAction::ClearWheelSetPrevKey { set, entry } => Target::WheelSet(
            *set,
            *entry,
            WheelSetEdit::ClearPrevKey,
        ),
        EditorAction::WheelSetMinDelta { set, entry, delta } => Target::WheelSet(
            *set,
            *entry,
            WheelSetEdit::MinDelta(*delta),
        ),
        EditorAction::WheelSetMaxDelta { set, entry, delta } => Target::WheelSet(
            *set,
            *entry,
            WheelSetEdit::MaxDelta(*delta),
        ),
        EditorAction::ToggleWheelSetCycle { set, entry } => Target::WheelSet(
            *set,
            *entry,
            WheelSetEdit::ToggleCycle,
        ),
        EditorAction::ToggleShowSetBar => Target::Config(ConfigEdit::ToggleShowSetBar),
        EditorAction::ToggleCycleSets => Target::Config(ConfigEdit::ToggleCycleSets),
        EditorAction::CycleHudOpenMode => Target::Config(ConfigEdit::CycleHudOpenMode),
        EditorAction::HudBgOpacityDelta { value } => Target::Config(ConfigEdit::SetHudBgOpacity(*value)),
        EditorAction::CycleHudBgColor => Target::Config(ConfigEdit::CycleHudBgColor),
        EditorAction::SetBgImageOpacityDelta { set, value } => Target::Page(
            *set,
            PageEdit::SetBgImageOpacity(*value),
        ),
        EditorAction::ToggleCycleWheels { set } => Target::Page(*set, PageEdit::ToggleCycleWheels),
        EditorAction::ToggleWheelShowIcon => Target::SelectedMenu(MenuEdit::ToggleShowIcon),
        EditorAction::CycleHighlightColor => Target::SelectedMenu(MenuEdit::CycleHighlight),
        EditorAction::WheelOpacityDelta { value } => Target::SelectedMenu(MenuEdit::SetOpacity(*value)),
        EditorAction::SetWheelOpacity { value } => Target::SelectedMenu(MenuEdit::SetOpacity(*value)),
        EditorAction::CycleInnerBorderColor => Target::SelectedMenu(MenuEdit::CycleInnerBorder),
        EditorAction::CycleOuterBorderColor => Target::SelectedMenu(MenuEdit::CycleOuterBorder),
        EditorAction::CycleWheelBgColor => Target::SelectedMenu(MenuEdit::CycleBg),
        EditorAction::WheelBgOpacityDelta { value } => Target::SelectedMenu(MenuEdit::SetBgOpacity(*value)),
        EditorAction::WheelOuterBorderWidthDelta { value } => Target::SelectedMenu(
            MenuEdit::SetOuterBorderWidth(*value),
        ),
        EditorAction::CycleWheelHubColor => Target::SelectedMenu(MenuEdit::CycleHub),
        EditorAction::WheelHubOpacityDelta { value } => Target::SelectedMenu(
            MenuEdit::SetHubOpacity(*value),
        ),
        EditorAction::WheelInnerBorderWidthDelta { value } => Target::SelectedMenu(
            MenuEdit::SetInnerBorderWidth(*value),
        ),
        EditorAction::ClearSlotInput { slot } => Target::SelectedMenu(MenuEdit::Slot(*slot, SlotEdit::ClearInput)),
        EditorAction::ClearNextSetKey => Target::Config(ConfigEdit::ClearNextSetKey),
        EditorAction::ClearPrevSetKey => Target::Config(ConfigEdit::ClearPrevSetKey),
        EditorAction::ClearEditShortcut => Target::Config(ConfigEdit::ClearEditShortcut),
        EditorAction::ClearNextWheelKey { set } => Target::Page(*set, PageEdit::ClearNextWheelKey),
        EditorAction::ClearPrevWheelKey { set } => Target::Page(*set, PageEdit::ClearPrevWheelKey),
        EditorAction::ClearWheelSetSwitchKey { set, entry } => Target::WheelSet(
            *set,
            *entry,
            WheelSetEdit::ClearSwitchKey,
        ),
        EditorAction::ClearWheelSetStick { set, entry } => Target::WheelSet(
            *set,
            *entry,
            WheelSetEdit::ClearStick,
        ),
        EditorAction::ClearActionKey { set, entry } => Target::Action(*set, *entry, ActionEdit::ClearKey),
        EditorAction::ToggleSlotCloseOnSelect { slot } => Target::SelectedMenu(
            MenuEdit::Slot(*slot, SlotEdit::ToggleCloseOnSelect),
        ),
        EditorAction::ToggleActionCloseOnSelect { set, entry } => Target::Action(
            *set,
            *entry,
            ActionEdit::ToggleCloseOnSelect,
        ),
        _ => Target::Untouched,
    }
}

} // verus!
