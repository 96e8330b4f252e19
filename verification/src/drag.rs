//! Moving HUD components with the middle mouse button or a finger while the
//! editor is open, and which component the edit badges belong to.
use crate::config::FloatBits;
use crate::edit::{ActionEdit, MenuEdit};
use crate::hud::HudControlOwner;
use crate::model::{action_at, ConfigView, QuickActionConfig, SetEntry, SetEntryView};
use crate::state::{EditorUiState, EditorUiView, Selection, WheelHudState};
use crate::update::{edit_action, edit_menu_at, map_action, map_menu_at, sync_visuals_spec, sync_wheelset_visuals};
use vstd::prelude::*;

verus! {

/// The component that a middle-button drag moves.
#[derive(Clone, Copy, PartialEq, Eq, Structural, Debug)]
pub enum MiddleDragTarget {
    Action { set: usize, entry: usize },
    Wheel { set: usize, entry: usize, wheel: Option<usize> },
}

/// The middle mouse button in one frame.
#[derive(Clone, Copy, Debug)]
pub struct MiddleButton {
    pub just_pressed: bool,
    pub pressed: bool,
    pub just_released: bool,
}

/// The component a middle-button drag that starts now takes: the selected
/// quick action, else the selected wheel, else the wheel of the highlighted
/// sector.
pub open spec fn drag_target_choice(h: WheelHudState) -> Option<MiddleDragTarget> {
    match h.selected_action {
        Some((set, entry)) => Some(MiddleDragTarget::Action { set, entry }),
        None => match h.selected_wheel {
            Some((set, entry, wheel)) => Some(MiddleDragTarget::Wheel { set, entry, wheel }),
            None => match h.highlighted {
                Some((set, entry, wheel, _slot)) => Some(MiddleDragTarget::Wheel { set, entry, wheel }),
                None => None,
            },
        },
    }
}

/// The drag target after one frame of the middle button, and whether this
/// frame's mouse motion moves it. Outside the editor there is no drag.
pub open spec fn middle_drag_outcome(t: Option<MiddleDragTarget>, h: WheelHudState, m: MiddleButton) -> (
    Option<MiddleDragTarget>,
    bool,
) {
    if !h.open || !h.editor_open {
        (None, false)
    } else {
        let t1 = if m.just_pressed {
            drag_target_choice(h)
        } else {
            t
        };
        if !m.pressed {
            (
                if m.just_released {
                    None
                } else {
                    t1
                },
                false,
            )
        } else {
            (t1, true)
        }
    }
}

/// Tracks the middle-button drag target; returns whether this frame's mouse
/// motion moves it.
pub fn editor_middle_drag(target: &mut Option<MiddleDragTarget>, hud: &WheelHudState, m: MiddleButton) -> (r: bool)
    ensures
        (*final(target), r) == middle_drag_outcome(*old(target), *hud, m),
{
    if !hud.open || !hud.editor_open {
        *target = None;
        return false;
    }
    if m.just_pressed {
        *target = match hud.selected_action {
            Some((set, entry)) => Some(MiddleDragTarget::Action { set, entry }),
            None => match hud.selected_wheel {
                Some((set, entry, wheel)) => Some(MiddleDragTarget::Wheel { set, entry, wheel }),
                None => match hud.highlighted {
                    Some((set, entry, wheel, _slot)) => Some(MiddleDragTarget::Wheel { set, entry, wheel }),
                    None => None,
                },
            },
        };
    }
    if !m.pressed {
        if m.just_released {
            *target = None;
        }
        return false;
    }
    true
}

/// The outcome of moving drag target `t` to offset `(x, y)` (computed by the
/// host from the motion and clamped there): a quick action moves when it
/// exists; a radial menu moves when it exists and its look, offsets
/// included, then goes to every menu of its set; the HUD is redrawn either
/// way.
pub open spec fn drag_move_outcome(
    c: ConfigView,
    h: WheelHudState,
    t: MiddleDragTarget,
    x: FloatBits,
    y: FloatBits,
) -> (ConfigView, WheelHudState) {
    match t {
        MiddleDragTarget::Action { set, entry } => if action_at(c, set as int, entry as int) is Some {
            (map_action(c, set as int, entry as int, ActionEdit::SetOffset(x, y)), WheelHudState { dirty: true, ..h })
        } else {
            (c, h)
        },
        MiddleDragTarget::Wheel { set, entry, wheel } => (
            match wheel {
                Some(w) => sync_visuals_spec(
                    map_menu_at(c, set as int, entry as int, w as int, MenuEdit::SetOffset(x, y)),
                    Selection::Wheel { set, entry, wheel },
                ),
                None => c,
            },
            WheelHudState { dirty: true, ..h },
        ),
    }
}

/// Moves drag target `t` to offset `(x, y)`.
pub fn move_drag_target(
    cfg: &mut QuickActionConfig,
    hud: &mut WheelHudState,
    t: MiddleDragTarget,
    x: FloatBits,
    y: FloatBits,
)
    ensures
        (final(cfg)@, *final(hud)) == drag_move_outcome(old(cfg)@, *old(hud), t, x, y),
{
    match t {
        MiddleDragTarget::Action { set, entry } => {
            if crate::model::get_action(cfg, set, entry).is_some() {
                edit_action(cfg, set, entry, ActionEdit::SetOffset(x, y));
                hud.dirty = true;
            }
        },
        MiddleDragTarget::Wheel { set, entry, wheel } => {
            if let Some(w) = wheel {
                edit_menu_at(cfg, set, entry, w, MenuEdit::SetOffset(x, y));
                sync_wheelset_visuals(cfg, Selection::Wheel { set, entry, wheel });
            }
            hud.dirty = true;
        },
    }
}

// ─── touch ────────────────────────────────────────────────────────────────────

/// Index of the last enabled quick action among the first `n` of
/// `entries`, if any.
pub open spec fn last_enabled_action(entries: Seq<SetEntryView>, n: int) -> Option<usize>
    decreases n,
{
    if n <= 0 {
        None
    } else {
        match entries[n - 1] {
            SetEntryView::Action(a) => if a.enabled {
                Some((n - 1) as usize)
            } else {
                last_enabled_action(entries, n - 1)
            },
            _ => last_enabled_action(entries, n - 1),
        }
    }
}

/// The outcome of a finger lifted without a drag target while the HUD is
/// open, when the host found the touch inside the button area (`inside`):
/// every enabled quick action of the active page is selected in turn, so
/// the last one stays selected.
pub open spec fn touch_tap_outcome(c: ConfigView, u: EditorUiView, h: WheelHudState, inside: bool) -> (
    EditorUiView,
    WheelHudState,
) {
    if !h.open || !inside || h.active_set >= c.sets.len() {
        (u, h)
    } else {
        let entries = c.sets[h.active_set as int].entries;
        match last_enabled_action(entries, entries.len() as int) {
            Some(ei) => (
                EditorUiView { selection: Selection::Action { set: h.active_set, entry: ei }, dirty: true, ..u },
                WheelHudState { dirty: true, ..h },
            ),
            None => (u, h),
        }
    }
}

/// Selects a quick action of the active page on a tap (see
/// [`touch_tap_outcome`]).
pub fn editor_touch_tap(cfg: &QuickActionConfig, ui: &mut EditorUiState, hud: &mut WheelHudState, inside: bool)
    ensures
        (final(ui)@, *final(hud)) == touch_tap_outcome(cfg@, old(ui)@, *old(hud), inside),
{
    if !hud.open || !inside || hud.active_set >= cfg.sets.len() {
        return;
    }
    let set = hud.active_set;
    let page = &cfg.sets[set];
    let ghost entries = cfg@.sets[set as int].entries;
    let n = page.entries.len();
    let mut found: Option<usize> = None;
    let mut ei: usize = 0;
    while ei < n
        invariant
            n == page.entries@.len(),
            entries.len() == n,
            forall|q: int| 0 <= q < n ==> entries[q] == (#[trigger] page.entries@[q])@,
            ei <= n,
            found == last_enabled_action(entries, ei as int),
        decreases n - ei,
    {
        match &page.entries[ei] {
            SetEntry::Action(a) => {
                if a.enabled {
                    found = Some(ei);
                }
            },
            _ => {},
        }
        ei = ei + 1;
    }
    if let Some(e) = found {
        ui.selection = Selection::Action { set, entry: e };
        ui.dirty = true;
        hud.dirty = true;
    }
}

// ─── edit badges ──────────────────────────────────────────────────────────────

/// Whether the edit badges of component `o` show: only while the editor is
/// open and `o` is the selected component of its kind.
pub open spec fn control_visible(h: WheelHudState, o: HudControlOwner) -> bool {
    h.editor_open && match o {
        HudControlOwner::Action(set, entry) => h.selected_action == Some((set, entry)),
        HudControlOwner::Wheel(set, entry, wheel) => h.selected_wheel == Some((set, entry, wheel)),
        HudControlOwner::HudSwitch(set, entry) => h.selected_hud_switch == Some((set, entry)),
    }
}

/// Whether the edit badges of component `owner` show.
pub fn context_visibility(hud: &WheelHudState, owner: HudControlOwner) -> (r: bool)
    ensures
        r == control_visible(*hud, owner),
{
    let selected = match owner {
        HudControlOwner::Action(set, entry) => hud.selected_action == Some((set, entry)),
        HudControlOwner::Wheel(set, entry, wheel) => hud.selected_wheel == Some((set, entry, wheel)),
        HudControlOwner::HudSwitch(set, entry) => hud.selected_hud_switch == Some((set, entry)),
    };
    hud.editor_open && selected
}

} // verus!
