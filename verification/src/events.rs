//! What the editor's buttons, sliders and text fields do when used.
use crate::action::{action_ok, is_nav_only, is_nav_only_action, EditorAction, EditorEffect};
use crate::apply::{apply_action, step};
use crate::config::FloatBits;
use crate::model::{ConfigView, QuickActionConfig};
use crate::state::{EditorUiState, EditorUiView, WheelHudState};
use vstd::prelude::*;

verus! {

/// The outcome of activating an editor button with action `a`.
pub open spec fn activate_outcome(a: EditorAction, c: ConfigView, u: EditorUiView, h: WheelHudState) -> (
    ConfigView,
    EditorUiView,
    WheelHudState,
    EditorEffect,
) {
    let (c1, u1, h1, e) = step(a, c, u, h);
    (
        c1,
        EditorUiView { dirty: true, ..u1 },
        if is_nav_only(a) {
            h1
        } else {
            WheelHudState { dirty: true, ..h1 }
        },
        e,
    )
}

/// Performs the action of an activated editor button.
pub fn on_editor_activate(
    a: &EditorAction,
    cfg: &mut QuickActionConfig,
    ui: &mut EditorUiState,
    hud: &mut WheelHudState,
) -> (r: EditorEffect)
    requires
        action_ok(*a, old(cfg)@),
    ensures
        (final(cfg)@, final(ui)@, *final(hud), r) == activate_outcome(*a, old(cfg)@, old(ui)@, *old(hud)),
{
    let e = apply_action(a, cfg, ui, hud);
    ui.dirty = true;
    if !is_nav_only_action(a) {
        hud.dirty = true;
    }
    e
}

/// The action a slider bound to action `t` performs when moved to `value`,
/// when `t` is a slider action.
pub open spec fn slider_action(t: EditorAction, value: FloatBits) -> Option<EditorAction> {
    match t {
        EditorAction::SetWheelCooldown { .. } => Some(EditorAction::SetWheelCooldown { value }),
        EditorAction::SetWheelInnerRadius { .. } => Some(EditorAction::SetWheelInnerRadius { value }),
        EditorAction::SetWheelOpacity { .. } => Some(EditorAction::SetWheelOpacity { value }),
        EditorAction::SetActionCooldown { set, entry, .. } => Some(
            EditorAction::SetActionCooldown { set, entry, value },
        ),
        EditorAction::SetActionOpacity { set, entry, .. } => Some(
            EditorAction::SetActionOpacity { set, entry, value },
        ),
        _ => None,
    }
}

fn slider_action_of(t: &EditorAction, value: FloatBits) -> (r: Option<EditorAction>)
    ensures
        r == slider_action(*t, value),
{
    match t {
        EditorAction::SetWheelCooldown { .. } => Some(EditorAction::SetWheelCooldown { value }),
        EditorAction::SetWheelInnerRadius { .. } => Some(EditorAction::SetWheelInnerRadius { value }),
        EditorAction::SetWheelOpacity { .. } => Some(EditorAction::SetWheelOpacity { value }),
        EditorAction::SetActionCooldown { set, entry, .. } => Some(
            EditorAction::SetActionCooldown { set: *set, entry: *entry, value },
        ),
        EditorAction::SetActionOpacity { set, entry, .. } => Some(
            EditorAction::SetActionOpacity { set: *set, entry: *entry, value },
        ),
        _ => None,
    }
}

/// The outcome of moving a slider bound to action `t` to `value`: the
/// action runs with the new value when `t` is a slider action, and both
/// views are redrawn either way.
pub open spec fn slider_outcome(t: EditorAction, value: FloatBits, c: ConfigView, u: EditorUiView, h: WheelHudState) -> (
    ConfigView,
    EditorUiView,
    WheelHudState,
) {
    let (c1, u1, h1) = match slider_action(t, value) {
        Some(a) => {
            let (c1, u1, h1, _e) = step(a, c, u, h);
            (c1, u1, h1)
        },
        None => (c, u, h),
    };
    (c1, EditorUiView { dirty: true, ..u1 }, WheelHudState { dirty: true, ..h1 })
}

/// Applies the new `value` of a slider bound to action `t`.
pub fn on_editor_slider(
    t: &EditorAction,
    value: FloatBits,
    cfg: &mut QuickActionConfig,
    ui: &mut EditorUiState,
    hud: &mut WheelHudState,
)
    ensures
        (final(cfg)@, final(ui)@, *final(hud)) == slider_outcome(*t, value, old(cfg)@, old(ui)@, *old(hud)),
{
    if let Some(a) = slider_action_of(t, value) {
        let _e = apply_action(&a, cfg, ui, hud);
    }
    ui.dirty = true;
    hud.dirty = true;
}

/// The outcome of the text of a field bound to action `t` becoming `v`: a
/// quick action's name field renames the action, a wheel's name field
/// renames the selected wheel, and both views are redrawn; other fields
/// change nothing.
pub open spec fn text_change_outcome(t: EditorAction, v: String, c: ConfigView, u: EditorUiView, h: WheelHudState) -> (
    ConfigView,
    EditorUiView,
    WheelHudState,
) {
    let a = match t {
        EditorAction::SetActionName { set, entry, .. } => Some(EditorAction::SetActionName { set, entry, value: v }),
        EditorAction::SetWheelName { .. } => Some(EditorAction::SetWheelName { value: v }),
        _ => None,
    };
    match a {
        Some(a) => {
            let (c1, u1, h1, _e) = step(a, c, u, h);
            (c1, EditorUiView { dirty: true, ..u1 }, WheelHudState { dirty: true, ..h1 })
        },
        None => (c, u, h),
    }
}

/// Applies the new text `v` of a field bound to action `t`.
pub fn on_editor_text_change(
    t: &EditorAction,
    v: String,
    cfg: &mut QuickActionConfig,
    ui: &mut EditorUiState,
    hud: &mut WheelHudState,
)
    ensures
        (final(cfg)@, final(ui)@, *final(hud)) == text_change_outcome(*t, v, old(cfg)@, old(ui)@, *old(hud)),
{
    let a = match t {
        EditorAction::SetActionName { set, entry, .. } => EditorAction::SetActionName {
            set: *set,
            entry: *entry,
            value: v,
        },
        EditorAction::SetWheelName { .. } => EditorAction::SetWheelName { value: v },
        _ => return ,
    };
    let _e = apply_action(&a, cfg, ui, hud);
    ui.dirty = true;
    hud.dirty = true;
}

} // verus!
