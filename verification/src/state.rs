//! Editor selection, edit focus, editor state and HUD state.
use crate::config::FloatBits;
use crate::model::{ConfigView, QuickActionConfig};
use vstd::prelude::*;

verus! {

/// A sector address: page, entry, radial menu within a set, slot.
pub type SegmentId = (usize, usize, Option<usize>, usize);

/// A radial menu address: page, entry, radial menu within a set.
pub type WheelId = (usize, usize, Option<usize>);

/// What the editor has selected.
#[derive(Clone, Copy, PartialEq, Eq, Structural, Debug)]
pub enum Selection {
    /// Nothing selected (the navigation root).
    Nothing,
    Action { set: usize, entry: usize },
    HudSwitch { set: usize, entry: usize },
    Wheel { set: usize, entry: usize, wheel: Option<usize> },
    /// A page (`Set` in the authored data).
    Page { set: usize },
    SetSwitch,
    WheelSetEntry { set: usize, entry: usize },
    Segment { set: usize, entry: usize, wheel: Option<usize>, slot: usize },
}

/// Which field the editor is currently typing into or capturing for.
#[derive(Clone, Copy, PartialEq, Eq, Structural, Debug)]
pub enum EditFocus {
    /// No field is being edited or captured.
    Idle,
    Name,
    Key,
    ButtonKey,
    HudSwitchKey,
    SetName,
    WheelName,
    SlotName(usize),
    NextSetKey,
    PrevSetKey,
    WheelSetName,
    WheelSetSwitchKey,
    WheelSetStick,
    WheelStick,
    SlotIcon(usize),
    SlotInput(usize),
    EditShortcut,
    SetBgImage(usize),
    NextWheelKey(usize),
    PrevWheelKey(usize),
    WheelSetNextKey { set: usize, entry: usize },
    WheelSetPrevKey { set: usize, entry: usize },
}

/// Transient state of the HUD overlay that the editor drives.
#[derive(Debug)]
pub struct WheelHudState {
    pub open: bool,
    pub editor_open: bool,
    pub settings_open: bool,
    pub theme_popup_open: bool,
    pub dirty: bool,
    pub active_set: usize,
    pub active_wheel_entry: usize,
    pub active_wheel_index: usize,
    pub selected_segment: Option<SegmentId>,
    pub highlighted: Option<SegmentId>,
    pub mouse_hovered_segment: Option<SegmentId>,
    pub selected_action: Option<(usize, usize)>,
    pub hovered_action: Option<(usize, usize)>,
    pub selected_hud_switch: Option<(usize, usize)>,
    pub hovered_hud_switch: Option<(usize, usize)>,
    pub selected_wheel: Option<WheelId>,
    pub hovered_wheel: Option<WheelId>,
    pub edit_control_focus: Option<usize>,
    pub flash_action_entry: Option<usize>,
    pub flash_action_ttl: FloatBits,
}

/// The HUD state before anything was opened or selected.
pub open spec fn initial_hud() -> WheelHudState {
    WheelHudState {
        open: false,
        editor_open: false,
        settings_open: false,
        theme_popup_open: false,
        dirty: true,
        active_set: 0,
        active_wheel_entry: 0,
        active_wheel_index: 0,
        selected_segment: None,
        highlighted: None,
        mouse_hovered_segment: None,
        selected_action: None,
        hovered_action: None,
        selected_hud_switch: None,
        hovered_hud_switch: None,
        selected_wheel: None,
        hovered_wheel: None,
        edit_control_focus: None,
        flash_action_entry: None,
        flash_action_ttl: FloatBits(0),
    }
}

impl Default for WheelHudState {
    fn default() -> (r: Self)
        ensures
            r == initial_hud(),
    {
        WheelHudState {
            open: false,
            editor_open: false,
            settings_open: false,
            theme_popup_open: false,
            dirty: true,
            active_set: 0,
            active_wheel_entry: 0,
            active_wheel_index: 0,
            selected_segment: None,
            highlighted: None,
            mouse_hovered_segment: None,
            selected_action: None,
            hovered_action: None,
            selected_hud_switch: None,
            hovered_hud_switch: None,
            selected_wheel: None,
            hovered_wheel: None,
            edit_control_focus: None,
            flash_action_entry: None,
            flash_action_ttl: FloatBits(0),
        }
    }
}

/// Editor state: selection, focus, navigation and undo history.
#[derive(Debug)]
pub struct EditorUiState {
    pub dirty: bool,
    pub selection: Selection,
    pub editing: EditFocus,
    pub config_path: String,
    pub wheel_scroll_y: FloatBits,
    pub navfocus: usize,
    pub nav_count: usize,
    pub scroll_to_focus: bool,
    pub capture_skip: bool,
    pub capture_consumed: bool,
    pub nav_hold_dir: i32,
    pub nav_hold_timer: FloatBits,
    pub undo_stack: Vec<QuickActionConfig>,
    pub redo_stack: Vec<QuickActionConfig>,
    pub undo_limit: usize,
}

pub struct EditorUiView {
    pub dirty: bool,
    pub selection: Selection,
    pub editing: EditFocus,
    pub config_path: Seq<char>,
    pub wheel_scroll_y: FloatBits,
    pub navfocus: usize,
    pub nav_count: usize,
    pub scroll_to_focus: bool,
    pub capture_skip: bool,
    pub capture_consumed: bool,
    pub nav_hold_dir: i32,
    pub nav_hold_timer: FloatBits,
    pub undo_stack: Seq<ConfigView>,
    pub redo_stack: Seq<ConfigView>,
    pub undo_limit: usize,
}

pub open spec fn configs_view(s: Seq<QuickActionConfig>) -> Seq<ConfigView> {
    s.map_values(|c: QuickActionConfig| c@)
}

impl View for EditorUiState {
    type V = EditorUiView;

    open spec fn view(&self) -> EditorUiView {
        EditorUiView {
            dirty: self.dirty,
            selection: self.selection,
            editing: self.editing,
            config_path: self.config_path@,
            wheel_scroll_y: self.wheel_scroll_y,
            navfocus: self.navfocus,
            nav_count: self.nav_count,
            scroll_to_focus: self.scroll_to_focus,
            capture_skip: self.capture_skip,
            capture_consumed: self.capture_consumed,
            nav_hold_dir: self.nav_hold_dir,
            nav_hold_timer: self.nav_hold_timer,
            undo_stack: configs_view(self.undo_stack@),
            redo_stack: configs_view(self.redo_stack@),
            undo_limit: self.undo_limit,
        }
    }
}

/// File the editor saves to and loads from unless told otherwise.
pub open spec fn default_config_path() -> Seq<char> {
    "quick_actions.ron"@
}

/// Number of snapshots the undo history keeps.
pub const DEFAULT_UNDO_LIMIT: usize = 50;

/// The editor state before any interaction.
pub open spec fn initial_ui() -> EditorUiView {
    EditorUiView {
        dirty: true,
        selection: Selection::Nothing,
        editing: EditFocus::Idle,
        config_path: default_config_path(),
        wheel_scroll_y: FloatBits(0),
        navfocus: 0,
        nav_count: 0,
        scroll_to_focus: false,
        capture_skip: false,
        capture_consumed: false,
        nav_hold_dir: 0,
        nav_hold_timer: FloatBits(0),
        undo_stack: Seq::empty(),
        redo_stack: Seq::empty(),
        undo_limit: DEFAULT_UNDO_LIMIT,
    }
}

impl Default for EditorUiState {
    fn default() -> (r: Self)
        ensures
            r@ == initial_ui(),
    {
        let r = EditorUiState {
            dirty: true,
            selection: Selection::Nothing,
            editing: EditFocus::Idle,
            config_path: String::from_str("quick_actions.ron"),
            wheel_scroll_y: FloatBits(0),
            navfocus: 0,
            nav_count: 0,
            scroll_to_focus: false,
            capture_skip: false,
            capture_consumed: false,
            nav_hold_dir: 0,
            nav_hold_timer: FloatBits(0),
            undo_stack: Vec::new(),
            redo_stack: Vec::new(),
            undo_limit: DEFAULT_UNDO_LIMIT,
        };
        assert(configs_view(r.undo_stack@) =~= Seq::empty());
        assert(configs_view(r.redo_stack@) =~= Seq::empty());
        r
    }
}

} // verus!
