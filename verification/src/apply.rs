//! Applying editor actions to the configuration, the editor state and the HUD
//! state, with undo and redo.
use crate::action::{
    action_ok, is_mutative, is_mutative_action, target_of, target_of_action, EditorAction,
    EditorEffect, Target,
};
use crate::edit::{normalize_spec, normalize_wheelset, wheel_set_edit_ok};
use crate::model::{
    enabled_hud_pages, enabled_pages, entries_view, page_at, pages_view, wheel_entries_before,
    wheel_entry_idx, wheel_set_at, ActionSetView, ConfigView, QuickActionConfig, SetEntry,
    SetEntryView,
};
use crate::state::{
    configs_view, EditFocus, EditorUiState, EditorUiView, Selection, WheelHudState,
};
use crate::update::{
    apply_config_edit, apply_struct_edit, config_edit_spec, edit_action, edit_menu, edit_page,
    edit_switch, edit_wheel_set, map_action, map_menu, map_page, map_switch, map_wheel_set,
    struct_edit_ok, struct_edit_spec, sync_visuals_spec, sync_wheelset_visuals,
};
use vstd::prelude::*;

verus! {

/// The configuration after `t` is applied with selection `sel`.
pub open spec fn apply_target_spec(t: Target, c: ConfigView, sel: Selection) -> ConfigView {
    match t {
        Target::Untouched => c,
        Target::Action(set, entry, e) => map_action(c, set as int, entry as int, e),
        Target::SelectedMenu(e) => map_menu(c, sel, e),
        Target::Switch(set, entry, e) => map_switch(c, set as int, entry as int, e),
        Target::WheelSet(set, entry, e) => map_wheel_set(c, set as int, entry as int, e),
        Target::Page(set, e) => map_page(c, set as int, e),
        Target::Config(e) => config_edit_spec(c, e),
        Target::Structure(e) => struct_edit_spec(c, e),
    }
}

/// Whether `t` is applicable without arithmetic overflow.
pub open spec fn target_ok(t: Target, c: ConfigView) -> bool {
    match t {
        Target::WheelSet(set, entry, e) => wheel_set_at(c, set as int, entry as int) is Some
            ==> wheel_set_edit_ok(wheel_set_at(c, set as int, entry as int)->0, e),
        Target::Structure(e) => struct_edit_ok(c, e),
        _ => true,
    }
}

/// Applies `t` to the configuration.
pub fn apply_target(cfg: &mut QuickActionConfig, t: Target, sel: Selection)
    requires
        target_ok(t, old(cfg)@),
    ensures
        final(cfg)@ == apply_target_spec(t, old(cfg)@, sel),
{
    match t {
        Target::Untouched => {},
        Target::Action(set, entry, e) => edit_action(cfg, set, entry, e),
        Target::SelectedMenu(e) => edit_menu(cfg, sel, e),
        Target::Switch(set, entry, e) => edit_switch(cfg, set, entry, e),
        Target::WheelSet(set, entry, e) => edit_wheel_set(cfg, set, entry, e),
        Target::Page(set, e) => edit_page(cfg, set, e),
        Target::Config(e) => apply_config_edit(cfg, e),
        Target::Structure(e) => apply_struct_edit(cfg, e),
    }
}

// ─── undo history ────────────────────────────────────────────────────────────

/// The editor state after a snapshot of `c` is pushed onto the undo history:
/// the oldest snapshot is dropped when the history would exceed its limit,
/// and the redo history is cleared.
pub open spec fn push_undo_spec(c: ConfigView, u: EditorUiView) -> EditorUiView {
    let pushed = u.undo_stack.push(c);
    EditorUiView {
        undo_stack: if pushed.len() > u.undo_limit {
            pushed.drop_first()
        } else {
            pushed
        },
        redo_stack: Seq::empty(),
        ..u
    }
}

/// Pushes a snapshot of `cfg` onto the undo history and clears the redo
/// history.
pub fn push_undo_snapshot(cfg: &QuickActionConfig, ui: &mut EditorUiState)
    ensures
        final(ui)@ == push_undo_spec(cfg@, old(ui)@),
{
    let snap = cfg.clone();
    let ghost before = configs_view(ui.undo_stack@);
    let ghost sv = snap@;
    ui.undo_stack.push(snap);
    assert(configs_view(ui.undo_stack@) =~= before.push(sv));
    if ui.undo_stack.len() > ui.undo_limit {
        let ghost pushed = configs_view(ui.undo_stack@);
        ui.undo_stack.remove(0);
        assert(configs_view(ui.undo_stack@) =~= pushed.drop_first());
    }
    ui.redo_stack.clear();
    assert(configs_view(ui.redo_stack@) =~= Seq::empty());
}

/// Pushes an undo snapshot when `action` may change the configuration.
pub fn maybe_push_undo_snapshot(action: &EditorAction, cfg: &QuickActionConfig, ui: &mut EditorUiState)
    ensures
        final(ui)@ == (if is_mutative(*action) {
            push_undo_spec(cfg@, old(ui)@)
        } else {
            old(ui)@
        }),
{
    if is_mutative_action(action) {
        push_undo_snapshot(cfg, ui);
    }
}

// ─── effects on selection and HUD state ──────────────────────────────────────

/// Ordinal of entry `entry` among the radial menu set entries of page `set`.
pub open spec fn wheel_entry_index(c: ConfigView, set: usize, entry: usize) -> usize {
    if set < c.sets.len() {
        wheel_entries_before(
            c.sets[set as int].entries,
            if entry < c.sets[set as int].entries.len() {
                entry as int
            } else {
                c.sets[set as int].entries.len() as int
            },
        ) as usize
    } else {
        0
    }
}

/// Whether selection `s` lies on page `set` (as an action, wheel, page or
/// radial menu set).
pub open spec fn selects_page(s: Selection, set: usize) -> bool {
    match s {
        Selection::Action { set: x, .. } => x == set,
        Selection::Wheel { set: x, .. } => x == set,
        Selection::Page { set: x } => x == set,
        Selection::WheelSetEntry { set: x, .. } => x == set,
        _ => false,
    }
}

/// Whether selection `s` is the entry `(set, entry)` (as an action, wheel or
/// radial menu set).
pub open spec fn selects_entry(s: Selection, set: usize, entry: usize) -> bool {
    match s {
        Selection::Action { set: x, entry: y } => x == set && y == entry,
        Selection::Wheel { set: x, entry: y, .. } => x == set && y == entry,
        Selection::WheelSetEntry { set: x, entry: y } => x == set && y == entry,
        _ => false,
    }
}

/// Selection `s` after entry `from` of page `set` moved to position `to`.
pub open spec fn moved_selection(s: Selection, set: usize, from: usize, to: usize) -> Selection {
    match s {
        Selection::Action { set: x, entry: y } => if x == set && y == from {
            Selection::Action { set, entry: to }
        } else {
            s
        },
        Selection::Wheel { set: x, entry: y, wheel } => if x == set && y == from {
            Selection::Wheel { set, entry: to, wheel }
        } else {
            s
        },
        _ => s,
    }
}

/// `u` with selection `s` and no edit focus.
pub open spec fn select(u: EditorUiView, s: Selection) -> EditorUiView {
    EditorUiView { selection: s, editing: EditFocus::Idle, ..u }
}

/// `u` with selection `s` and edit focus `f`.
pub open spec fn select_focus(u: EditorUiView, s: Selection, f: EditFocus) -> EditorUiView {
    EditorUiView { selection: s, editing: f, ..u }
}

/// `u` with edit focus `f`.
pub open spec fn focus(u: EditorUiView, f: EditFocus) -> EditorUiView {
    EditorUiView { editing: f, ..u }
}

/// What action `a` does besides editing the configuration, given the
/// configuration `c` after the edit, the editor state `u` after the undo
/// snapshot, and the HUD state `h`. Undo and redo also replace the
/// configuration, so the configuration is part of the result.
pub open spec fn action_effects(a: EditorAction, c: ConfigView, u: EditorUiView, h: WheelHudState) -> (
    ConfigView,
    EditorUiView,
    WheelHudState,
    EditorEffect,
) {
    let none = EditorEffect::NoEffect;
    match a {
        EditorAction::AddSet => (
            c,
            u,
            WheelHudState {
                active_set: if c.sets.len() > 0 {
                    (c.sets.len() - 1) as usize
                } else {
                    h.active_set
                },
                ..h
            },
            none,
        ),
        EditorAction::DeleteSet { set } => (
            c,
            if selects_page(u.selection, set) {
                select(u, Selection::Nothing)
            } else {
                u
            },
            WheelHudState {
                selected_segment: match h.selected_segment {
                    Some((s, _, _, _)) => if s == set {
                        None
                    } else {
                        h.selected_segment
                    },
                    None => None,
                },
                active_set: if c.sets.len() > 0 && h.active_set > c.sets.len() - 1 {
                    (c.sets.len() - 1) as usize
                } else {
                    h.active_set
                },
                ..h
            },
            none,
        ),
        EditorAction::SelectSet { set } => (
            c,
            select(u, Selection::Page { set }),
            WheelHudState {
                selected_segment: None,
                active_set: set,
                active_wheel_entry: 0,
                highlighted: None,
                ..h
            },
            none,
        ),
        EditorAction::EditSetName { set } => (
            c,
            select_focus(u, Selection::Page { set }, EditFocus::SetName),
            h,
            none,
        ),
        EditorAction::ToggleSetEnabled { .. } => (
            c,
            u,
            WheelHudState {
                active_set: if page_at(c, h.active_set as int) is Some && !c.sets[h.active_set as int].enabled
                    && enabled_pages(c).len() > 0 {
                    enabled_pages(c)[0]
                } else {
                    h.active_set
                },
                dirty: true,
                ..h
            },
            none,
        ),
        EditorAction::DeleteEntry { set, entry } => (
            c,
            if selects_entry(u.selection, set, entry) {
                select(u, Selection::Nothing)
            } else {
                u
            },
            WheelHudState {
                selected_segment: match h.selected_segment {
                    Some((s, e, _, _)) => if s == set && e == entry {
                        None
                    } else {
                        h.selected_segment
                    },
                    None => None,
                },
                ..h
            },
            none,
        ),
        EditorAction::DeleteWheelFromSet { set, entry, wheel } => (
            c,
            if u.selection == (Selection::Wheel { set, entry, wheel: Some(wheel) }) {
                select(u, Selection::Nothing)
            } else {
                u
            },
            WheelHudState {
                selected_segment: match h.selected_segment {
                    Some((s, e, w, _)) => if s == set && e == entry && w == Some(wheel) {
                        None
                    } else {
                        h.selected_segment
                    },
                    None => None,
                },
                ..h
            },
            none,
        ),
        EditorAction::MoveEntryUp { set, entry } => (
            c,
            if entry > 0 {
                EditorUiView {
                    selection: moved_selection(u.selection, set, entry, (entry - 1) as usize),
                    ..u
                }
            } else {
                u
            },
            h,
            none,
        ),
        EditorAction::MoveEntryDown { set, entry } => (
            c,
            if page_at(c, set as int) is Some && entry + 1 < c.sets[set as int].entries.len() {
                EditorUiView {
                    selection: moved_selection(u.selection, set, entry, (entry + 1) as usize),
                    ..u
                }
            } else {
                u
            },
            h,
            none,
        ),
        EditorAction::SelectAction { set, entry } => (
            c,
            select(u, Selection::Action { set, entry }),
            WheelHudState { selected_segment: None, highlighted: None, active_set: set, ..h },
            none,
        ),
        EditorAction::SelectHudSwitch { set, entry } => (
            c,
            select(u, Selection::HudSwitch { set, entry }),
            WheelHudState { selected_segment: None, active_set: set, ..h },
            none,
        ),
        EditorAction::CaptureHudSwitchKey { set, entry } => (
            c,
            select_focus(u, Selection::HudSwitch { set, entry }, EditFocus::HudSwitchKey),
            h,
            none,
        ),
        EditorAction::SelectWheel { set, entry, wheel } => (
            c,
            select(u, Selection::Wheel { set, entry, wheel }),
            WheelHudState {
                selected_segment: None,
                highlighted: None,
                active_set: set,
                active_wheel_entry: wheel_entry_index(c, set, entry),
                ..h
            },
            none,
        ),
        EditorAction::SelectWheelSetEntry { set, entry } => (
            c,
            select(u, Selection::WheelSetEntry { set, entry }),
            WheelHudState {
                selected_segment: None,
                highlighted: None,
                active_set: set,
                active_wheel_entry: wheel_entry_index(c, set, entry),
                ..h
            },
            none,
        ),
        EditorAction::SelectSetSwitch => (
            c,
            select(u, Selection::SetSwitch),
            WheelHudState { selected_segment: None, highlighted: None, ..h },
            none,
        ),
        EditorAction::NavBack => (
            c,
            select(u, Selection::Nothing),
            WheelHudState { selected_segment: None, highlighted: None, ..h },
            none,
        ),
        EditorAction::EditName { set, entry } => (
            c,
            select_focus(u, Selection::Action { set, entry }, EditFocus::Name),
            h,
            none,
        ),
        EditorAction::SetActionName { .. } => (c, focus(u, EditFocus::Idle), h, none),
        EditorAction::CaptureKey { set, entry } => (
            c,
            select_focus(u, Selection::Action { set, entry }, EditFocus::ButtonKey),
            h,
            none,
        ),
        EditorAction::EditWheelName => (c, focus(u, EditFocus::WheelName), h, none),
        EditorAction::SetWheelName { .. } => (c, focus(u, EditFocus::Idle), h, none),
        EditorAction::ToggleWheelThemePopup => (
            c,
            u,
            WheelHudState { theme_popup_open: !h.theme_popup_open, ..h },
            none,
        ),
        EditorAction::SetWheelTheme { .. } => (
            c,
            u,
            WheelHudState { theme_popup_open: false, ..h },
            none,
        ),
        EditorAction::CaptureWheelStick => (c, focus(u, EditFocus::WheelStick), h, none),
        EditorAction::EditSlotName { slot } => (c, focus(u, EditFocus::SlotName(slot)), h, none),
        EditorAction::EditWheelSetName { set, entry } => (
            c,
            select_focus(u, Selection::WheelSetEntry { set, entry }, EditFocus::WheelSetName),
            h,
            none,
        ),
        EditorAction::CaptureWheelSetSwitchKey { set, entry } => (
            c,
            select_focus(u, Selection::WheelSetEntry { set, entry }, EditFocus::WheelSetSwitchKey),
            h,
            none,
        ),
        EditorAction::CaptureWheelSetStick { set, entry } => (
            c,
            select_focus(u, Selection::WheelSetEntry { set, entry }, EditFocus::WheelSetStick),
            h,
            none,
        ),
        EditorAction::CaptureWheelSetNextKey { set, entry } => (
            c,
            select_focus(
                u,
                Selection::WheelSetEntry { set, entry },
                EditFocus::WheelSetNextKey { set, entry },
            ),
            h,
            none,
        ),
        EditorAction::CaptureWheelSetPrevKey { set, entry } => (
            c,
            select_focus(
                u,
                Selection::WheelSetEntry { set, entry },
                EditFocus::WheelSetPrevKey { set, entry },
            ),
            h,
            none,
        ),
        EditorAction::SwitchWheelPrev { set, entry } => (
            c,
            u,
            match wheel_set_at(c, set as int, entry as int) {
                Some(w) => if w.radial_menus.len() > 0 {
                    WheelHudState {
                        active_set: set,
                        active_wheel_entry: wheel_entry_index(c, set, entry),
                        active_wheel_index: if h.active_wheel_index > 0 {
                            (h.active_wheel_index - 1) as usize
                        } else {
                            (w.radial_menus.len() - 1) as usize
                        },
                        selected_segment: None,
                        highlighted: None,
                        dirty: true,
                        ..h
                    }
                } else {
                    h
                },
                None => h,
            },
            none,
        ),
        EditorAction::SwitchWheelNext { set, entry } => (
            c,
            u,
            match wheel_set_at(c, set as int, entry as int) {
                Some(w) => if w.radial_menus.len() > 0 {
                    WheelHudState {
                        active_set: set,
                        active_wheel_entry: wheel_entry_index(c, set, entry),
                        active_wheel_index: ((h.active_wheel_index + 1) % (
                        w.radial_menus.len() as int)) as usize,
                        selected_segment: None,
                        highlighted: None,
                        dirty: true,
                        ..h
                    }
                } else {
                    h
                },
                None => h,
            },
            none,
        ),
        EditorAction::CaptureNextSetKey => (c, focus(u, EditFocus::NextSetKey), h, none),
        EditorAction::CapturePrevSetKey => (c, focus(u, EditFocus::PrevSetKey), h, none),
        EditorAction::CaptureEditShortcut => (c, focus(u, EditFocus::EditShortcut), h, none),
        EditorAction::Save => (c, u, h, EditorEffect::SaveConfig),
        EditorAction::Load => (c, u, h, EditorEffect::LoadConfig),
        EditorAction::SelectSegment { set, entry, wheel, slot } => (
            c,
            select(u, Selection::Segment { set, entry, wheel, slot }),
            WheelHudState {
                selected_segment: Some((set, entry, wheel, slot)),
                highlighted: Some((set, entry, wheel, slot)),
                edit_control_focus: Some(0),
                active_set: set,
                active_wheel_entry: wheel_entry_index(c, set, entry),
                ..h
            },
            none,
        ),
        EditorAction::EditSlotIcon { slot } => (c, focus(u, EditFocus::SlotIcon(slot)), h, none),
        EditorAction::CaptureSlotInput { slot } => (c, focus(u, EditFocus::SlotInput(slot)), h, none),
        EditorAction::EditSetBgImage { set } => (c, focus(u, EditFocus::SetBgImage(set)), h, none),
        EditorAction::SetBgImageOpacityDelta { set, .. } => if page_at(c, set as int) is Some {
            (c, EditorUiView { dirty: true, ..u }, WheelHudState { dirty: true, ..h }, none)
        } else {
            (c, u, h, none)
        },
        EditorAction::CaptureNextWheelKey { set } => (c, focus(u, EditFocus::NextWheelKey(set)), h, none),
        EditorAction::CapturePrevWheelKey { set } => (c, focus(u, EditFocus::PrevWheelKey(set)), h, none),
        EditorAction::ToggleCycleWheels { set } => if page_at(c, set as int) is Some {
            (c, EditorUiView { dirty: true, ..u }, h, none)
        } else {
            (c, u, h, none)
        },
        EditorAction::Undo => if u.undo_stack.len() > 0 {
            (
                u.undo_stack.last(),
                EditorUiView {
                    undo_stack: u.undo_stack.drop_last(),
                    redo_stack: u.redo_stack.push(c),
                    dirty: true,
                    ..u
                },
                WheelHudState { dirty: true, ..h },
                none,
            )
        } else {
            (c, u, h, none)
        },
        EditorAction::Redo => if u.redo_stack.len() > 0 {
            (
                u.redo_stack.last(),
                EditorUiView {
                    redo_stack: u.redo_stack.drop_last(),
                    undo_stack: u.undo_stack.push(c),
                    dirty: true,
                    ..u
                },
                WheelHudState { dirty: true, ..h },
                none,
            )
        } else {
            (c, u, h, none)
        },
        _ => (c, u, h, none),
    }
}

/// The configuration, editor state, HUD state and host effect after
/// action `a`: an undo snapshot for mutative actions, then the edit of the
/// configuration, then the action's effects on selection and HUD state,
/// and last the look of the selected radial menu given to every menu of its
/// set (see [`sync_visuals_spec`]).
pub open spec fn step(a: EditorAction, c: ConfigView, u: EditorUiView, h: WheelHudState) -> (
    ConfigView,
    EditorUiView,
    WheelHudState,
    EditorEffect,
) {
    let u0 = if is_mutative(a) {
        push_undo_spec(c, u)
    } else {
        u
    };
    let c1 = apply_target_spec(target_of(a, c), c, u0.selection);
    let (c2, u2, h2, r) = action_effects(a, c1, u0, h);
    (sync_visuals_spec(c2, u2.selection), u2, h2, r)
}

// ─── loading ─────────────────────────────────────────────────────────────────

/// Entry `e` with its radial menu set normalized.
pub open spec fn normalize_entry(e: SetEntryView) -> SetEntryView {
    match e {
        SetEntryView::RadialMenuSet(w) => SetEntryView::RadialMenuSet(normalize_spec(w)),
        _ => e,
    }
}

/// Page `p` with all its radial menu sets normalized.
pub open spec fn normalize_page(p: ActionSetView) -> ActionSetView {
    ActionSetView { entries: p.entries.map_values(|e: SetEntryView| normalize_entry(e)), ..p }
}

/// Configuration `c` with all its radial menu sets normalized.
pub open spec fn normalize_config(c: ConfigView) -> ConfigView {
    ConfigView { sets: c.sets.map_values(|p: ActionSetView| normalize_page(p)), ..c }
}

fn normalize_entry_exec(e: &mut SetEntry)
    ensures
        final(e)@ == normalize_entry(old(e)@),
{
    match e {
        SetEntry::RadialMenuSet(w) => normalize_wheelset(w),
        _ => {},
    }
}

/// Normalizes every radial menu set of the configuration.
pub fn normalize_wheelset_config(cfg: &mut QuickActionConfig)
    ensures
        final(cfg)@ == normalize_config(old(cfg)@),
{
    let ghost c0 = cfg@;
    let n = cfg.sets.len();
    for i in 0..n
        invariant
            n == cfg.sets@.len(),
            c0.sets.len() == n,
            cfg@ == (ConfigView { sets: cfg@.sets, ..c0 }),
            forall|k: int| 0 <= k < i ==> #[trigger] cfg@.sets[k] == normalize_page(c0.sets[k]),
            forall|k: int| i <= k < n ==> #[trigger] cfg@.sets[k] == c0.sets[k],
    {
        assert(cfg@.sets[i as int] == cfg.sets@[i as int]@);
        let mut page = cfg.sets[i].clone();
        let ghost p0 = page@;
        assert(p0 == c0.sets[i as int]);
        let m = page.entries.len();
        for j in 0..m
            invariant
                m == page.entries@.len(),
                p0.entries.len() == m,
                page@ == (ActionSetView { entries: page@.entries, ..p0 }),
                forall|k: int| 0 <= k < j ==> #[trigger] page@.entries[k] == normalize_entry(p0.entries[k]),
                forall|k: int| j <= k < m ==> #[trigger] page@.entries[k] == p0.entries[k],
        {
            assert(page@.entries[j as int] == page.entries@[j as int]@);
            let mut e = page.entries[j].clone();
            assert(e@ == p0.entries[j as int]);
            normalize_entry_exec(&mut e);
            let ghost before = entries_view(page.entries@);
            let ghost ev = e@;
            page.entries.set(j, e);
            assert(entries_view(page.entries@) =~= before.update(j as int, ev));
            assert(page@.entries[j as int] == normalize_entry(p0.entries[j as int]));
        }
        assert(page@.entries =~= p0.entries.map_values(|e: SetEntryView| normalize_entry(e)));
        let ghost before = pages_view(cfg.sets@);
        let ghost pv = page@;
        cfg.sets.set(i, page);
        assert(pages_view(cfg.sets@) =~= before.update(i as int, pv));
        assert(cfg@.sets[i as int] == normalize_page(c0.sets[i as int]));
    }
    assert(cfg@.sets =~= c0.sets.map_values(|p: ActionSetView| normalize_page(p)));
}

/// The state after the host has read configuration `loaded` for a
/// `Load` action.
pub open spec fn load_outcome(loaded: ConfigView, u: EditorUiView, h: WheelHudState) -> (
    ConfigView,
    EditorUiView,
    WheelHudState,
) {
    (
        normalize_config(loaded),
        EditorUiView {
            selection: Selection::Nothing,
            editing: EditFocus::Idle,
            dirty: true,
            ..u
        },
        WheelHudState {
            active_set: 0,
            selected_segment: None,
            highlighted: None,
            dirty: true,
            ..h
        },
    )
}

/// Installs a configuration the host read for a `Load` action: it is
/// normalized and replaces the current one, the selection and edit focus are
/// cleared, and the HUD returns to the first page.
pub fn finish_load(
    loaded: QuickActionConfig,
    cfg: &mut QuickActionConfig,
    ui: &mut EditorUiState,
    hud: &mut WheelHudState,
)
    ensures
        (final(cfg)@, final(ui)@, *final(hud)) == load_outcome(loaded@, old(ui)@, *old(hud)),
{
    let mut loaded = loaded;
    normalize_wheelset_config(&mut loaded);
    *cfg = loaded;
    ui.selection = Selection::Nothing;
    ui.editing = EditFocus::Idle;
    hud.active_set = 0;
    hud.selected_segment = None;
    hud.highlighted = None;
    hud.dirty = true;
    ui.dirty = true;
}

/// `wheel_entry_index` computed.
fn wheel_entry_index_of(cfg: &QuickActionConfig, set: usize, entry: usize) -> (r: usize)
    ensures
        r == wheel_entry_index(cfg@, set, entry),
{
    wheel_entry_idx(cfg, set, entry)
}

fn selects_page_exec(s: Selection, set: usize) -> (r: bool)
    ensures
        r == selects_page(s, set),
{
    match s {
        Selection::Action { set: x, .. } => x == set,
        Selection::Wheel { set: x, .. } => x == set,
        Selection::Page { set: x } => x == set,
        Selection::WheelSetEntry { set: x, .. } => x == set,
        _ => false,
    }
}

fn selects_entry_exec(s: Selection, set: usize, entry: usize) -> (r: bool)
    ensures
        r == selects_entry(s, set, entry),
{
    match s {
        Selection::Action { set: x, entry: y } => x == set && y == entry,
        Selection::Wheel { set: x, entry: y, .. } => x == set && y == entry,
        Selection::WheelSetEntry { set: x, entry: y } => x == set && y == entry,
        _ => false,
    }
}

fn moved_selection_exec(s: Selection, set: usize, from: usize, to: usize) -> (r: Selection)
    ensures
        r == moved_selection(s, set, from, to),
{
    match s {
        Selection::Action { set: x, entry: y } => if x == set && y == from {
            Selection::Action { set, entry: to }
        } else {
            s
        },
        Selection::Wheel { set: x, entry: y, wheel } => if x == set && y == from {
            Selection::Wheel { set, entry: to, wheel }
        } else {
            s
        },
        _ => s,
    }
}


/// Number of radial menus of the set at `(set, entry)`, if there is one.
fn wheel_set_menu_count(cfg: &QuickActionConfig, set: usize, entry: usize) -> (r: Option<usize>)
    ensures
        r is Some <==> wheel_set_at(cfg@, set as int, entry as int) is Some,
        r is Some ==> r->0 == wheel_set_at(cfg@, set as int, entry as int)->0.radial_menus.len(),
{
    if set < cfg.sets.len() && entry < cfg.sets[set].entries.len() {
        match &cfg.sets[set].entries[entry] {
            SetEntry::RadialMenuSet(w) => Some(w.radial_menus.len()),
            _ => None,
        }
    } else {
        None
    }
}

/// Whether `a` is handled by `effects_structure`.
pub open spec fn in_group_structure(a: EditorAction) -> bool {
    a is AddSet || a is DeleteSet || a is ToggleSetEnabled || a is DeleteEntry || a is DeleteWheelFromSet || a is MoveEntryUp || a is MoveEntryDown
}

/// Whether `a` is handled by `effects_wheels`.
pub open spec fn in_group_wheels(a: EditorAction) -> bool {
    a is SelectWheel || a is SelectWheelSetEntry || a is SwitchWheelPrev || a is SwitchWheelNext || a is SelectSegment
}

/// Whether `a` is handled by `effects_history`.
pub open spec fn in_group_history(a: EditorAction) -> bool {
    a is Undo || a is Redo
}

#[verifier::rlimit(40)]
fn effects_structure(
    action: &EditorAction,
    cfg: &mut QuickActionConfig,
    ui: &mut EditorUiState,
    hud: &mut WheelHudState,
) -> (r: EditorEffect)
    requires
        in_group_structure(*action),
    ensures
        (final(cfg)@, final(ui)@, *final(hud), r) == action_effects(*action, old(cfg)@, old(ui)@, *old(hud)),
{
    match action {
        EditorAction::AddSet => {
            if cfg.sets.len() > 0 {
                hud.active_set = cfg.sets.len() - 1;
            }
        },
        EditorAction::DeleteSet { set } => {
            let set = *set;
            if selects_page_exec(ui.selection, set) {
                ui.selection = Selection::Nothing;
                ui.editing = EditFocus::Idle;
            }
            match hud.selected_segment {
                Some((s, _, _, _)) => {
                    if s == set {
                        hud.selected_segment = None;
                    }
                },
                None => {},
            }
            if cfg.sets.len() > 0 && hud.active_set > cfg.sets.len() - 1 {
                hud.active_set = cfg.sets.len() - 1;
            }
        },
        EditorAction::ToggleSetEnabled { .. } => {
            if hud.active_set < cfg.sets.len() && !cfg.sets[hud.active_set].enabled {
                let pages = enabled_hud_pages(cfg);
                if pages.len() > 0 {
                    hud.active_set = pages[0];
                }
            }
            hud.dirty = true;
        },
        EditorAction::DeleteEntry { set, entry } => {
            let (set, entry) = (*set, *entry);
            if selects_entry_exec(ui.selection, set, entry) {
                ui.selection = Selection::Nothing;
                ui.editing = EditFocus::Idle;
            }
            match hud.selected_segment {
                Some((s, e, _, _)) => {
                    if s == set && e == entry {
                        hud.selected_segment = None;
                    }
                },
                None => {},
            }
        },
        EditorAction::DeleteWheelFromSet { set, entry, wheel } => {
            let (set, entry, wheel) = (*set, *entry, *wheel);
            if ui.selection == (Selection::Wheel { set, entry, wheel: Some(wheel) }) {
                ui.selection = Selection::Nothing;
                ui.editing = EditFocus::Idle;
            }
            match hud.selected_segment {
                Some((s, e, w, _)) => {
                    if s == set && e == entry && w == Some(wheel) {
                        hud.selected_segment = None;
                    }
                },
                None => {},
            }
        },
        EditorAction::MoveEntryUp { set, entry } => {
            if *entry > 0 {
                ui.selection = moved_selection_exec(ui.selection, *set, *entry, *entry - 1);
            }
        },
        EditorAction::MoveEntryDown { set, entry } => {
            let (set, entry) = (*set, *entry);
            if set < cfg.sets.len() && entry < cfg.sets[set].entries.len() && entry + 1
                < cfg.sets[set].entries.len() {
                ui.selection = moved_selection_exec(ui.selection, set, entry, entry + 1);
            }
        },
        _ => {},
    }
    EditorEffect::NoEffect
}

#[verifier::rlimit(40)]
fn effects_wheels(
    action: &EditorAction,
    cfg: &mut QuickActionConfig,
    ui: &mut EditorUiState,
    hud: &mut WheelHudState,
) -> (r: EditorEffect)
    requires
        in_group_wheels(*action),
    ensures
        (final(cfg)@, final(ui)@, *final(hud), r) == action_effects(*action, old(cfg)@, old(ui)@, *old(hud)),
{
    match action {
        EditorAction::SelectWheel { set, entry, wheel } => {
            ui.selection = Selection::Wheel { set: *set, entry: *entry, wheel: *wheel };
            ui.editing = EditFocus::Idle;
            hud.selected_segment = None;
            hud.highlighted = None;
            hud.active_set = *set;
            hud.active_wheel_entry = wheel_entry_index_of(cfg, *set, *entry);
        },
        EditorAction::SelectWheelSetEntry { set, entry } => {
            ui.selection = Selection::WheelSetEntry { set: *set, entry: *entry };
            ui.editing = EditFocus::Idle;
            hud.selected_segment = None;
            hud.highlighted = None;
            hud.active_set = *set;
            hud.active_wheel_entry = wheel_entry_index_of(cfg, *set, *entry);
        },
        EditorAction::SwitchWheelPrev { set, entry } => {
            match wheel_set_menu_count(cfg, *set, *entry) {
                Some(n) => {
                    if n > 0 {
                        hud.active_set = *set;
                        hud.active_wheel_entry = wheel_entry_index_of(cfg, *set, *entry);
                        hud.active_wheel_index = if hud.active_wheel_index > 0 {
                            hud.active_wheel_index - 1
                        } else {
                            n - 1
                        };
                        hud.selected_segment = None;
                        hud.highlighted = None;
                        hud.dirty = true;
                    }
                },
                None => {},
            }
        },
        EditorAction::SwitchWheelNext { set, entry } => {
            match wheel_set_menu_count(cfg, *set, *entry) {
                Some(n) => {
                    if n > 0 {
                        let i = hud.active_wheel_index;
                        hud.active_set = *set;
                        hud.active_wheel_entry = wheel_entry_index_of(cfg, *set, *entry);
                        hud.active_wheel_index = if i % n + 1 < n {
                            i % n + 1
                        } else {
                            0
                        };
                        proof {
                            crate::apply::lemma_mod_succ(i as int, n as int);
                        }
                        hud.selected_segment = None;
                        hud.highlighted = None;
                        hud.dirty = true;
                    }
                },
                None => {},
            }
        },
        EditorAction::SelectSegment { set, entry, wheel, slot } => {
            let (set, entry, wheel, slot) = (*set, *entry, *wheel, *slot);
            ui.selection = Selection::Segment { set, entry, wheel, slot };
            ui.editing = EditFocus::Idle;
            hud.selected_segment = Some((set, entry, wheel, slot));
            hud.highlighted = Some((set, entry, wheel, slot));
            hud.edit_control_focus = Some(0);
            hud.active_set = set;
            hud.active_wheel_entry = wheel_entry_index_of(cfg, set, entry);
        },
        _ => {},
    }
    EditorEffect::NoEffect
}

#[verifier::rlimit(40)]
fn effects_history(
    action: &EditorAction,
    cfg: &mut QuickActionConfig,
    ui: &mut EditorUiState,
    hud: &mut WheelHudState,
) -> (r: EditorEffect)
    requires
        in_group_history(*action),
    ensures
        (final(cfg)@, final(ui)@, *final(hud), r) == action_effects(*action, old(cfg)@, old(ui)@, *old(hud)),
{
    match action {
        EditorAction::Undo => {
            if ui.undo_stack.len() > 0 {
                let ghost undo0 = configs_view(ui.undo_stack@);
                let ghost redo0 = configs_view(ui.redo_stack@);
                let snapshot = ui.undo_stack.pop().unwrap();
                assert(configs_view(ui.undo_stack@) =~= undo0.drop_last());
                let current = cfg.clone();
                let ghost cv = current@;
                ui.redo_stack.push(current);
                assert(configs_view(ui.redo_stack@) =~= redo0.push(cv));
                *cfg = snapshot;
                hud.dirty = true;
                ui.dirty = true;
            }
        },
        EditorAction::Redo => {
            if ui.redo_stack.len() > 0 {
                let ghost undo0 = configs_view(ui.undo_stack@);
                let ghost redo0 = configs_view(ui.redo_stack@);
                let snapshot = ui.redo_stack.pop().unwrap();
                assert(configs_view(ui.redo_stack@) =~= redo0.drop_last());
                let current = cfg.clone();
                let ghost cv = current@;
                ui.undo_stack.push(current);
                assert(configs_view(ui.undo_stack@) =~= undo0.push(cv));
                *cfg = snapshot;
                hud.dirty = true;
                ui.dirty = true;
            }
        },

        _ => {},
    }
    EditorEffect::NoEffect
}

#[verifier::rlimit(40)]
fn effects_focus(
    action: &EditorAction,
    cfg: &mut QuickActionConfig,
    ui: &mut EditorUiState,
    hud: &mut WheelHudState,
) -> (r: EditorEffect)
    requires
        !in_group_structure(*action),
        !in_group_wheels(*action),
        !in_group_history(*action),
    ensures
        (final(cfg)@, final(ui)@, *final(hud), r) == action_effects(*action, old(cfg)@, old(ui)@, *old(hud)),
{
    match action {
        EditorAction::SelectSet { set } => {
            ui.selection = Selection::Page { set: *set };
            ui.editing = EditFocus::Idle;
            hud.selected_segment = None;
            hud.active_set = *set;
            hud.active_wheel_entry = 0;
            hud.highlighted = None;
        },
        EditorAction::EditSetName { set } => {
            ui.selection = Selection::Page { set: *set };
            ui.editing = EditFocus::SetName;
        },
        EditorAction::SelectAction { set, entry } => {
            ui.selection = Selection::Action { set: *set, entry: *entry };
            ui.editing = EditFocus::Idle;
            hud.selected_segment = None;
            hud.highlighted = None;
            hud.active_set = *set;
        },
        EditorAction::SelectHudSwitch { set, entry } => {
            ui.selection = Selection::HudSwitch { set: *set, entry: *entry };
            ui.editing = EditFocus::Idle;
            hud.selected_segment = None;
            hud.active_set = *set;
        },
        EditorAction::CaptureHudSwitchKey { set, entry } => {
            ui.selection = Selection::HudSwitch { set: *set, entry: *entry };
            ui.editing = EditFocus::HudSwitchKey;
        },
        EditorAction::SelectSetSwitch => {
            ui.selection = Selection::SetSwitch;
            ui.editing = EditFocus::Idle;
            hud.selected_segment = None;
            hud.highlighted = None;
        },
        EditorAction::NavBack => {
            ui.editing = EditFocus::Idle;
            hud.selected_segment = None;
            hud.highlighted = None;
            ui.selection = Selection::Nothing;
        },
        EditorAction::EditName { set, entry } => {
            ui.selection = Selection::Action { set: *set, entry: *entry };
            ui.editing = EditFocus::Name;
        },
        EditorAction::SetActionName { .. } => {
            ui.editing = EditFocus::Idle;
        },
        EditorAction::CaptureKey { set, entry } => {
            ui.selection = Selection::Action { set: *set, entry: *entry };
            ui.editing = EditFocus::ButtonKey;
        },
        EditorAction::EditWheelName => {
            ui.editing = EditFocus::WheelName;
        },
        EditorAction::SetWheelName { .. } => {
            ui.editing = EditFocus::Idle;
        },
        EditorAction::ToggleWheelThemePopup => {
            hud.theme_popup_open = !hud.theme_popup_open;
        },
        EditorAction::SetWheelTheme { .. } => {
            hud.theme_popup_open = false;
        },
        EditorAction::CaptureWheelStick => {
            ui.editing = EditFocus::WheelStick;
        },
        EditorAction::EditSlotName { slot } => {
            ui.editing = EditFocus::SlotName(*slot);
        },
        EditorAction::EditWheelSetName { set, entry } => {
            ui.selection = Selection::WheelSetEntry { set: *set, entry: *entry };
            ui.editing = EditFocus::WheelSetName;
        },
        EditorAction::CaptureWheelSetSwitchKey { set, entry } => {
            ui.selection = Selection::WheelSetEntry { set: *set, entry: *entry };
            ui.editing = EditFocus::WheelSetSwitchKey;
        },
        EditorAction::CaptureWheelSetStick { set, entry } => {
            ui.selection = Selection::WheelSetEntry { set: *set, entry: *entry };
            ui.editing = EditFocus::WheelSetStick;
        },
        EditorAction::CaptureWheelSetNextKey { set, entry } => {
            ui.selection = Selection::WheelSetEntry { set: *set, entry: *entry };
            ui.editing = EditFocus::WheelSetNextKey { set: *set, entry: *entry };
        },
        EditorAction::CaptureWheelSetPrevKey { set, entry } => {
            ui.selection = Selection::WheelSetEntry { set: *set, entry: *entry };
            ui.editing = EditFocus::WheelSetPrevKey { set: *set, entry: *entry };
        },
        EditorAction::CaptureNextSetKey => {
            ui.editing = EditFocus::NextSetKey;
        },
        EditorAction::CapturePrevSetKey => {
            ui.editing = EditFocus::PrevSetKey;
        },
        EditorAction::CaptureEditShortcut => {
            ui.editing = EditFocus::EditShortcut;
        },
        EditorAction::Save => {
            return EditorEffect::SaveConfig;
        },
        EditorAction::Load => {
            return EditorEffect::LoadConfig;
        },
        EditorAction::EditSlotIcon { slot } => {
            ui.editing = EditFocus::SlotIcon(*slot);
        },
        EditorAction::CaptureSlotInput { slot } => {
            ui.editing = EditFocus::SlotInput(*slot);
        },
        EditorAction::EditSetBgImage { set } => {
            ui.editing = EditFocus::SetBgImage(*set);
        },
        EditorAction::SetBgImageOpacityDelta { set, .. } => {
            if *set < cfg.sets.len() {
                hud.dirty = true;
                ui.dirty = true;
            }
        },
        EditorAction::CaptureNextWheelKey { set } => {
            ui.editing = EditFocus::NextWheelKey(*set);
        },
        EditorAction::CapturePrevWheelKey { set } => {
            ui.editing = EditFocus::PrevWheelKey(*set);
        },
        EditorAction::ToggleCycleWheels { set } => {
            if *set < cfg.sets.len() {
                ui.dirty = true;
            }
        },
        _ => {},
    }
    EditorEffect::NoEffect
}

/// Performs the effects of `action` on selection, edit focus and HUD state
/// (and, for undo and redo, on the configuration).
fn apply_effects(
    action: &EditorAction,
    cfg: &mut QuickActionConfig,
    ui: &mut EditorUiState,
    hud: &mut WheelHudState,
) -> (r: EditorEffect)
    ensures
        (final(cfg)@, final(ui)@, *final(hud), r) == action_effects(*action, old(cfg)@, old(ui)@, *old(hud)),
{
    match action {
        EditorAction::AddSet
        | EditorAction::DeleteSet { .. }
        | EditorAction::ToggleSetEnabled { .. }
        | EditorAction::DeleteEntry { .. }
        | EditorAction::DeleteWheelFromSet { .. }
        | EditorAction::MoveEntryUp { .. }
        | EditorAction::MoveEntryDown { .. } => effects_structure(action, cfg, ui, hud),
        EditorAction::SelectWheel { .. }
        | EditorAction::SelectWheelSetEntry { .. }
        | EditorAction::SwitchWheelPrev { .. }
        | EditorAction::SwitchWheelNext { .. }
        | EditorAction::SelectSegment { .. } => effects_wheels(action, cfg, ui, hud),
        EditorAction::Undo | EditorAction::Redo => effects_history(action, cfg, ui, hud),
        _ => effects_focus(action, cfg, ui, hud),
    }
}

/// `(i + 1) % n` as the wrapped successor of `i % n`.
pub proof fn lemma_mod_succ(i: int, n: int)
    requires
        0 <= i,
        0 < n,
    ensures
        (i + 1) % n == (if i % n + 1 < n {
            i % n + 1
        } else {
            0
        }),
{
    assert((i + 1) % n == (i % n + 1) % n) by (nonlinear_arith)
        requires
            0 < n,
    ;
    if i % n + 1 < n {
        assert((i % n + 1) % n == i % n + 1) by (nonlinear_arith)
            requires
                0 <= i % n + 1 < n,
        ;
    } else {
        assert(i % n + 1 == n) by (nonlinear_arith)
            requires
                i % n + 1 >= n,
                0 < n,
                0 <= i,
        ;
        assert((i % n + 1) % n == 0) by (nonlinear_arith)
            requires
                i % n + 1 == n,
                0 < n,
        ;
    }
}

/// Applies an editor action.
///
/// A mutative action first pushes a snapshot of the configuration onto the
/// undo history (clearing the redo history). The action then edits the part
/// of the configuration it addresses, and updates the selection, edit focus
/// and HUD state. Last, while a radial menu of a set is selected, its look
/// is given to every menu of the set. Saving and loading are returned as an
/// effect for the host
/// to perform.
pub fn apply_action(
    action: &EditorAction,
    cfg: &mut QuickActionConfig,
    ui: &mut EditorUiState,
    hud: &mut WheelHudState,
) -> (r: EditorEffect)
    requires
        action_ok(*action, old(cfg)@),
    ensures
        (final(cfg)@, final(ui)@, *final(hud), r) == step(*action, old(cfg)@, old(ui)@, *old(hud)),
{
    maybe_push_undo_snapshot(action, cfg, ui);
    let t = target_of_action(action, cfg);
    apply_target(cfg, t, ui.selection);
    let r = apply_effects(action, cfg, ui, hud);
    sync_wheelset_visuals(cfg, ui.selection);
    r
}

} // verus!

