//! Laws on single operations: which fields an operation changes, and to
//! what, stated over its inputs and its result.
use crate::action::{is_mutative, target_of, EditorAction};
use crate::apply::{action_effects, apply_target_spec, push_undo_spec, step};
use crate::capture::{first_non_modifier, key_capture_outcome};
use crate::config::QuickActionView;
use crate::hud::{hud_button_outcome, PointerState, SegmentInsertSide, WheelHudAction};
use crate::input::{is_modifier_spec, key_label_spec, GamepadButton};
use crate::laws::lemma_effects_keep_history;
use crate::model::{action_at, menu_at, wheel_set_at, ConfigView, RadialMenuView, SetEntryView};
use crate::navigation::{gamepad_nav_outcome, just, HoldRepeat, PadState};
use crate::state::{EditFocus, EditorUiView, Selection, WheelHudState};
use crate::text::decimal;
use crate::update::sync_visuals_spec;
use crate::validation::{config_warnings, entries_structure_warnings, menu_warnings, structure_warnings};
use vstd::prelude::*;

verus! {

// ─── quick action toggles ─────────────────────────────────────────────────────

/// Giving a radial menu's look to its set changes no quick action.
proof fn lemma_sync_keeps_actions(c: ConfigView, sel: Selection, set: int, entry: int)
    ensures
        action_at(sync_visuals_spec(c, sel), set, entry) == action_at(c, set, entry),
{
    if let Selection::Wheel { set: s, entry: e, wheel: Some(_) } = sel {
        if wheel_set_at(c, s as int, e as int) is Some {
            let c2 = sync_visuals_spec(c, sel);
            assert(c2.sets.len() == c.sets.len());
            if 0 <= set < c.sets.len() {
                if set == s {
                    assert(c2.sets[set].entries.len() == c.sets[set].entries.len());
                    if entry != e && 0 <= entry < c.sets[set].entries.len() {
                        assert(c2.sets[set].entries[entry] == c.sets[set].entries[entry]);
                    }
                } else {
                    assert(c2.sets[set] == c.sets[set]);
                }
            }
        }
    }
}

/// Toggling a quick action's labels flips exactly its `show_labels`: every
/// other setting of the action, the icon setting among them, stays.
pub proof fn law_toggle_labels_flips_only_labels(c: ConfigView, u: EditorUiView, h: WheelHudState, set: usize, entry: usize)
    requires
        action_at(c, set as int, entry as int) is Some,
    ensures
        ({
            let a = action_at(c, set as int, entry as int)->0;
            let c1 = step(EditorAction::ToggleActionLabels { set, entry }, c, u, h).0;
            action_at(c1, set as int, entry as int) == Some(QuickActionView { show_labels: !a.show_labels, ..a })
        }),
{
    let act = EditorAction::ToggleActionLabels { set, entry };
    let u0 = if is_mutative(act) {
        push_undo_spec(c, u)
    } else {
        u
    };
    let c1 = apply_target_spec(target_of(act, c), c, u0.selection);
    lemma_effects_keep_history(act, c1, u0, h);
    let (c2, u2, _, _) = action_effects(act, c1, u0, h);
    lemma_sync_keeps_actions(c2, u2.selection, set as int, entry as int);
    let a = action_at(c, set as int, entry as int)->0;
    assert(c1.sets[set as int].entries[entry as int] == SetEntryView::Action(QuickActionView { show_labels: !a.show_labels, ..a }));
}

/// Toggling a quick action's icon flips exactly its `show_icon`.
pub proof fn law_toggle_icons_flips_only_icons(c: ConfigView, u: EditorUiView, h: WheelHudState, set: usize, entry: usize)
    requires
        action_at(c, set as int, entry as int) is Some,
    ensures
        ({
            let a = action_at(c, set as int, entry as int)->0;
            let c1 = step(EditorAction::ToggleActionIcons { set, entry }, c, u, h).0;
            action_at(c1, set as int, entry as int) == Some(QuickActionView { show_icon: !a.show_icon, ..a })
        }),
{
    let act = EditorAction::ToggleActionIcons { set, entry };
    let u0 = if is_mutative(act) {
        push_undo_spec(c, u)
    } else {
        u
    };
    let c1 = apply_target_spec(target_of(act, c), c, u0.selection);
    lemma_effects_keep_history(act, c1, u0, h);
    let (c2, u2, _, _) = action_effects(act, c1, u0, h);
    lemma_sync_keeps_actions(c2, u2.selection, set as int, entry as int);
    let a = action_at(c, set as int, entry as int)->0;
    assert(c1.sets[set as int].entries[entry as int] == SetEntryView::Action(QuickActionView { show_icon: !a.show_icon, ..a }));
}

/// Toggling a quick action's hold mode flips exactly its `hold` and keeps
/// every other setting of the action.
pub proof fn law_toggle_hold_flips_only_it(c: ConfigView, u: EditorUiView, h: WheelHudState, set: usize, entry: usize)
    requires
        action_at(c, set as int, entry as int) is Some,
    ensures
        ({
            let a = action_at(c, set as int, entry as int)->0;
            action_at(step(EditorAction::ToggleHold { set, entry }, c, u, h).0, set as int, entry as int)
                == Some(QuickActionView { hold: !a.hold, ..a })
        }),
{
    let act = EditorAction::ToggleHold { set, entry };
    let u0 = if is_mutative(act) {
        push_undo_spec(c, u)
    } else {
        u
    };
    let c1 = apply_target_spec(target_of(act, c), c, u0.selection);
    lemma_effects_keep_history(act, c1, u0, h);
    let (c2, u2, _, _) = action_effects(act, c1, u0, h);
    lemma_sync_keeps_actions(c2, u2.selection, set as int, entry as int);
    let a = action_at(c, set as int, entry as int)->0;
    assert(c1.sets[set as int].entries[entry as int] == SetEntryView::Action(QuickActionView { hold: !a.hold, ..a }));
}

/// Toggling a quick action's visibility on the menu flips exactly its `show_on_menu` and keeps
/// every other setting of the action.
pub proof fn law_toggle_show_on_menu_flips_only_it(c: ConfigView, u: EditorUiView, h: WheelHudState, set: usize, entry: usize)
    requires
        action_at(c, set as int, entry as int) is Some,
    ensures
        ({
            let a = action_at(c, set as int, entry as int)->0;
            action_at(step(EditorAction::ToggleShowOnMenu { set, entry }, c, u, h).0, set as int, entry as int)
                == Some(QuickActionView { show_on_menu: !a.show_on_menu, ..a })
        }),
{
    let act = EditorAction::ToggleShowOnMenu { set, entry };
    let u0 = if is_mutative(act) {
        push_undo_spec(c, u)
    } else {
        u
    };
    let c1 = apply_target_spec(target_of(act, c), c, u0.selection);
    lemma_effects_keep_history(act, c1, u0, h);
    let (c2, u2, _, _) = action_effects(act, c1, u0, h);
    lemma_sync_keeps_actions(c2, u2.selection, set as int, entry as int);
    let a = action_at(c, set as int, entry as int)->0;
    assert(c1.sets[set as int].entries[entry as int] == SetEntryView::Action(QuickActionView { show_on_menu: !a.show_on_menu, ..a }));
}

/// Toggling a quick action's enabled state flips exactly its `enabled` and keeps
/// every other setting of the action.
pub proof fn law_toggle_enabled_flips_only_it(c: ConfigView, u: EditorUiView, h: WheelHudState, set: usize, entry: usize)
    requires
        action_at(c, set as int, entry as int) is Some,
    ensures
        ({
            let a = action_at(c, set as int, entry as int)->0;
            action_at(step(EditorAction::ToggleEnabled { set, entry }, c, u, h).0, set as int, entry as int)
                == Some(QuickActionView { enabled: !a.enabled, ..a })
        }),
{
    let act = EditorAction::ToggleEnabled { set, entry };
    let u0 = if is_mutative(act) {
        push_undo_spec(c, u)
    } else {
        u
    };
    let c1 = apply_target_spec(target_of(act, c), c, u0.selection);
    lemma_effects_keep_history(act, c1, u0, h);
    let (c2, u2, _, _) = action_effects(act, c1, u0, h);
    lemma_sync_keeps_actions(c2, u2.selection, set as int, entry as int);
    let a = action_at(c, set as int, entry as int)->0;
    assert(c1.sets[set as int].entries[entry as int] == SetEntryView::Action(QuickActionView { enabled: !a.enabled, ..a }));
}

/// Toggling a quick action's close-on-select setting flips exactly its `close_on_select` and keeps
/// every other setting of the action.
pub proof fn law_toggle_close_on_select_flips_only_it(c: ConfigView, u: EditorUiView, h: WheelHudState, set: usize, entry: usize)
    requires
        action_at(c, set as int, entry as int) is Some,
    ensures
        ({
            let a = action_at(c, set as int, entry as int)->0;
            action_at(step(EditorAction::ToggleActionCloseOnSelect { set, entry }, c, u, h).0, set as int, entry as int)
                == Some(QuickActionView { close_on_select: !a.close_on_select, ..a })
        }),
{
    let act = EditorAction::ToggleActionCloseOnSelect { set, entry };
    let u0 = if is_mutative(act) {
        push_undo_spec(c, u)
    } else {
        u
    };
    let c1 = apply_target_spec(target_of(act, c), c, u0.selection);
    lemma_effects_keep_history(act, c1, u0, h);
    let (c2, u2, _, _) = action_effects(act, c1, u0, h);
    lemma_sync_keeps_actions(c2, u2.selection, set as int, entry as int);
    let a = action_at(c, set as int, entry as int)->0;
    assert(c1.sets[set as int].entries[entry as int] == SetEntryView::Action(QuickActionView { close_on_select: !a.close_on_select, ..a }));
}

/// Capturing a key while the editor-shortcut binding has the focus stores
/// the key's label as the editor shortcut and changes nothing else.
pub proof fn law_edit_shortcut_capture(c: ConfigView, u: EditorUiView, keys: Seq<Seq<char>>, i: int)
    requires
        u.editing == EditFocus::EditShortcut,
        0 <= i < keys.len(),
        !is_modifier_spec(keys[i]),
        forall|j: int| 0 <= j < i ==> is_modifier_spec(#[trigger] keys[j]),
        keys[i] != "Escape"@,
    ensures
        key_capture_outcome(c, u, keys).0 == (ConfigView { edit_shortcut: key_label_spec(keys[i]), ..c }),
{
    lemma_first_non_modifier_is(keys, 0, i);
}

// ─── page bindings ────────────────────────────────────────────────────────────

/// Capturing a key while the previous-page binding has the focus stores the
/// label of the first key that is not a modifier (unless it is Escape) as
/// the previous-page key, and changes nothing else of the configuration: the
/// next-page key stays.
pub proof fn law_prev_set_key_capture(c: ConfigView, u: EditorUiView, keys: Seq<Seq<char>>, i: int)
    requires
        u.editing == EditFocus::PrevSetKey,
        0 <= i < keys.len(),
        !is_modifier_spec(keys[i]),
        forall|j: int| 0 <= j < i ==> is_modifier_spec(#[trigger] keys[j]),
        keys[i] != "Escape"@,
    ensures
        key_capture_outcome(c, u, keys).0 == (ConfigView { prev_set_key: key_label_spec(keys[i]), ..c }),
        key_capture_outcome(c, u, keys).0.next_set_key == c.next_set_key,
{
    lemma_first_non_modifier_is(keys, 0, i);
}

/// The same for the next-page binding: it takes the label, and the
/// previous-page key stays.
pub proof fn law_next_set_key_capture(c: ConfigView, u: EditorUiView, keys: Seq<Seq<char>>, i: int)
    requires
        u.editing == EditFocus::NextSetKey,
        0 <= i < keys.len(),
        !is_modifier_spec(keys[i]),
        forall|j: int| 0 <= j < i ==> is_modifier_spec(#[trigger] keys[j]),
        keys[i] != "Escape"@,
    ensures
        key_capture_outcome(c, u, keys).0 == (ConfigView { next_set_key: key_label_spec(keys[i]), ..c }),
        key_capture_outcome(c, u, keys).0.prev_set_key == c.prev_set_key,
{
    lemma_first_non_modifier_is(keys, 0, i);
}

proof fn lemma_first_non_modifier_is(keys: Seq<Seq<char>>, from: int, i: int)
    requires
        0 <= from <= i < keys.len(),
        !is_modifier_spec(keys[i]),
        forall|j: int| 0 <= j < i ==> is_modifier_spec(#[trigger] keys[j]),
    ensures
        first_non_modifier(keys, from) == i,
    decreases i - from,
{
    if from < i {
        assert(is_modifier_spec(keys[from]));
        lemma_first_non_modifier_is(keys, from + 1, i);
    }
}

// ─── sectors added from the HUD ───────────────────────────────────────────────

/// Adding a sector before the selected sector `s` of a radial menu puts the
/// new sector, named `Slot {s + 1}`, at index `s`: the sectors before `s`
/// stay in place, the selected sector and those after it move up by one,
/// and the new sector becomes the selection.
#[verifier::spinoff_prover]
#[verifier::rlimit(100)]
pub proof fn law_add_segment_before_selected(
    c: ConfigView,
    u: EditorUiView,
    h: WheelHudState,
    set: usize,
    entry: usize,
    w: usize,
    s: usize,
)
    requires
        menu_at(c, set as int, entry as int, w as int) is Some,
        s < menu_at(c, set as int, entry as int, w as int)->0.slots.len(),
        u.selection == (Selection::Segment { set, entry, wheel: Some(w), slot: s }),
    ensures
        ({
            let m = menu_at(c, set as int, entry as int, w as int)->0;
            let r = hud_button_outcome(
                WheelHudAction::AddSegment { set, entry, wheel: Some(w), side: SegmentInsertSide::Before },
                PointerState::Pressed,
                c,
                u,
                h,
            );
            let m1 = menu_at(r.0, set as int, entry as int, w as int)->0;
            &&& menu_at(r.0, set as int, entry as int, w as int) is Some
            &&& m1.slots.len() == m.slots.len() + 1
            &&& m1.slots.subrange(0, s as int) == m.slots.subrange(0, s as int)
            &&& m1.slots.subrange(s + 1, m1.slots.len() as int) == m.slots.subrange(s as int, m.slots.len() as int)
            &&& m1.slots[s as int].name == "Slot "@ + decimal((s + 1) as nat)
            &&& r.1.selection == (Selection::Segment { set, entry, wheel: Some(w), slot: s })
        }),
{
    let m = menu_at(c, set as int, entry as int, w as int)->0;
    lemma_menu_after_with_menu(c, set as int, entry as int, w as int);
    lemma_add_segment_press(WheelHudAction::AddSegment { set, entry, wheel: Some(w), side: SegmentInsertSide::Before }, c, u, h);
    assert(crate::hud::insert_index(SegmentInsertSide::Before, u.selection, m.slots.len()) == s);
    let r = hud_button_outcome(
        WheelHudAction::AddSegment { set, entry, wheel: Some(w), side: SegmentInsertSide::Before },
        PointerState::Pressed,
        c,
        u,
        h,
    );
    let m1 = menu_at(r.0, set as int, entry as int, w as int)->0;
    assert(m1.slots.subrange(0, s as int) =~= m.slots.subrange(0, s as int));
    assert(m1.slots.subrange(s + 1, m1.slots.len() as int) =~= m.slots.subrange(s as int, m.slots.len() as int));
}

/// Adding a sector after the selected sector `s` puts the new sector, named
/// `Slot {s + 2}`, at index `s + 1`, right after the selection, which moves
/// to it.
#[verifier::spinoff_prover]
#[verifier::rlimit(100)]
pub proof fn law_add_segment_after_selected(
    c: ConfigView,
    u: EditorUiView,
    h: WheelHudState,
    set: usize,
    entry: usize,
    w: usize,
    s: usize,
)
    requires
        menu_at(c, set as int, entry as int, w as int) is Some,
        s < menu_at(c, set as int, entry as int, w as int)->0.slots.len(),
        u.selection == (Selection::Segment { set, entry, wheel: Some(w), slot: s }),
    ensures
        ({
            let m = menu_at(c, set as int, entry as int, w as int)->0;
            let r = hud_button_outcome(
                WheelHudAction::AddSegment { set, entry, wheel: Some(w), side: SegmentInsertSide::After },
                PointerState::Pressed,
                c,
                u,
                h,
            );
            let m1 = menu_at(r.0, set as int, entry as int, w as int)->0;
            &&& menu_at(r.0, set as int, entry as int, w as int) is Some
            &&& m1.slots.len() == m.slots.len() + 1
            &&& m1.slots.subrange(0, s + 1) == m.slots.subrange(0, s + 1)
            &&& m1.slots.subrange(s + 2, m1.slots.len() as int) == m.slots.subrange(s + 1, m.slots.len() as int)
            &&& m1.slots[s + 1].name == "Slot "@ + decimal((s + 2) as nat)
            &&& r.1.selection == (Selection::Segment { set, entry, wheel: Some(w), slot: (s + 1) as usize })
        }),
{
    let m = menu_at(c, set as int, entry as int, w as int)->0;
    lemma_menu_after_with_menu(c, set as int, entry as int, w as int);
    lemma_add_segment_press(WheelHudAction::AddSegment { set, entry, wheel: Some(w), side: SegmentInsertSide::After }, c, u, h);
    assert(crate::hud::insert_index(SegmentInsertSide::After, u.selection, m.slots.len()) == s + 1);
    let r = hud_button_outcome(
        WheelHudAction::AddSegment { set, entry, wheel: Some(w), side: SegmentInsertSide::After },
        PointerState::Pressed,
        c,
        u,
        h,
    );
    let m1 = menu_at(r.0, set as int, entry as int, w as int)->0;
    assert(m1.slots.subrange(0, s + 1) =~= m.slots.subrange(0, s + 1));
    assert(m1.slots.subrange(s + 2, m1.slots.len() as int) =~= m.slots.subrange(s + 1, m.slots.len() as int));
}

/// A press of a button that adds a sector performs the sector edit alone.
proof fn lemma_add_segment_press(
    a: WheelHudAction,
    c: ConfigView,
    u: EditorUiView,
    h: WheelHudState,
)
    requires
        a is AddSegment,
    ensures
        ({
            let h1 = crate::hud::hover_outcome(h, a, PointerState::Pressed);
            let (c1, u1, h2) = crate::hud::segment_press(a, c, u, h1);
            hud_button_outcome(a, PointerState::Pressed, c, u, h) == (c1, u1, h2, crate::action::EditorEffect::NoEffect)
        }),
{
    let h1 = crate::hud::hover_outcome(h, a, PointerState::Pressed);
    assert(crate::hud::delegated(a, h1) is None);
    assert(crate::hud::is_segment_structure(a));
}

/// Replacing an existing radial menu leaves it readable at the same place.
proof fn lemma_menu_after_with_menu(c: ConfigView, set: int, entry: int, w: int)
    requires
        menu_at(c, set, entry, w) is Some,
    ensures
        forall|m: RadialMenuView| #[trigger] menu_at(crate::model::with_menu(c, set, entry, w, m), set, entry, w) == Some(m),
{
    assert forall|m: RadialMenuView| #[trigger] menu_at(crate::model::with_menu(c, set, entry, w, m), set, entry, w) == Some(m) by {
        let ws = wheel_set_at(c, set, entry)->0;
        let c1 = crate::model::with_menu(c, set, entry, w, m);
        let ws1 = crate::model::RadialMenuSetView { radial_menus: ws.radial_menus.update(w, m), ..ws };
        assert(c1.sets[set].entries[entry] == SetEntryView::RadialMenuSet(ws1));
        assert(wheel_set_at(c1, set, entry) == Some(ws1));
    }
}

// ─── the D-pad on the highlighted sector ──────────────────────────────────────

/// While a sector is highlighted, a frame with Up or Down on the D-pad is
/// handled by the radial edit controls alone.
proof fn lemma_dpad_goes_to_radial(
    c: ConfigView,
    u: EditorUiView,
    h: WheelHudState,
    p: PadState,
    focused: Option<EditorAction>,
    rep: HoldRepeat,
    id: crate::navigation::SectorId,
)
    requires
        !u.capture_consumed,
        h.editor_open,
        u.editing == EditFocus::Idle,
        h.highlighted == Some(id),
        just(p, GamepadButton::DPadUp) || just(p, GamepadButton::DPadDown),
    ensures
        crate::navigation::radial_pad_outcome(c, u, h, p, id) is Some,
        gamepad_nav_outcome(c, u, h, Some(p), focused, rep) == crate::navigation::radial_pad_outcome(c, u, h, p, id)->0,
{
}

/// On a highlighted sector `slot` of a radial menu of `len > 0` sectors, the
/// D-pad's Down highlights and selects the next sector, `(slot + 1) % len`,
/// and Up (when Down is not pressed too) the previous one,
/// `(slot + len - 1) % len`; the configuration stays.
pub proof fn law_dpad_steps_around_the_menu(
    c: ConfigView,
    u: EditorUiView,
    h: WheelHudState,
    p: PadState,
    focused: Option<EditorAction>,
    rep: HoldRepeat,
    set: usize,
    entry: usize,
    w: usize,
    slot: usize,
)
    requires
        !u.capture_consumed,
        h.editor_open,
        u.editing == EditFocus::Idle,
        h.highlighted == Some((set, entry, Some(w), slot)),
        menu_at(c, set as int, entry as int, w as int) is Some,
        slot < menu_at(c, set as int, entry as int, w as int)->0.slots.len(),
    ensures
        ({
            let len = menu_at(c, set as int, entry as int, w as int)->0.slots.len() as int;
            let r = gamepad_nav_outcome(c, u, h, Some(p), focused, rep);
            &&& just(p, GamepadButton::DPadDown) ==> {
                let next = ((slot + 1) % len) as usize;
                &&& r.2.highlighted == Some((set, entry, Some(w), next))
                &&& r.1.selection == (Selection::Segment { set, entry, wheel: Some(w), slot: next })
                &&& r.0 == c
            }
            &&& (just(p, GamepadButton::DPadUp) && !just(p, GamepadButton::DPadDown)) ==> {
                let prev = ((slot + len - 1) % len) as usize;
                &&& r.2.highlighted == Some((set, entry, Some(w), prev))
                &&& r.1.selection == (Selection::Segment { set, entry, wheel: Some(w), slot: prev })
                &&& r.0 == c
            }
        }),
{
    let len = menu_at(c, set as int, entry as int, w as int)->0.slots.len() as int;
    if just(p, GamepadButton::DPadUp) || just(p, GamepadButton::DPadDown) {
        lemma_dpad_goes_to_radial(c, u, h, p, focused, rep, (set, entry, Some(w), slot));
    }
    if slot == 0 {
        assert((slot + len - 1) % len == len - 1) by (nonlinear_arith)
            requires
                slot == 0,
                len > 0,
        ;
    } else {
        assert((slot + len - 1) % len == slot - 1) by (nonlinear_arith)
            requires
                0 < slot < len,
        ;
    }
}

// ─── validation ───────────────────────────────────────────────────────────────

proof fn lemma_contains_left(a: Seq<Seq<char>>, b: Seq<Seq<char>>, x: Seq<char>)
    requires
        a.contains(x),
    ensures
        (a + b).contains(x),
{
    let k = choose|k: int| 0 <= k < a.len() && a[k] == x;
    assert((a + b)[k] == x);
}

proof fn lemma_contains_right(a: Seq<Seq<char>>, b: Seq<Seq<char>>, x: Seq<char>)
    requires
        b.contains(x),
    ensures
        (a + b).contains(x),
{
    let k = choose|k: int| 0 <= k < b.len() && b[k] == x;
    assert((a + b)[a.len() + k] == x);
}

/// The warning about radial menu `k` of set `ws` having too few sectors.
pub open spec fn few_sectors_text(menu: Seq<char>, k: nat, ws: Seq<char>) -> Seq<char> {
    "Radial menu "@ + ("\""@ + menu + "\""@) + " (#"@ + decimal(k) + ") in radial menu set "@ + ("\""@ + ws + "\""@)
        + " must have at least 2 sectors"@
}

proof fn lemma_menu_warnings_report(ws: crate::model::RadialMenuSetView, n: int, k: int)
    requires
        0 <= k < n <= ws.radial_menus.len(),
        ws.radial_menus[k].slots.len() < 2,
    ensures
        menu_warnings(ws, n).contains(few_sectors_text(ws.radial_menus[k].name, k as nat, ws.name)),
    decreases n,
{
    let x = few_sectors_text(ws.radial_menus[k].name, k as nat, ws.name);
    if k < n - 1 {
        lemma_menu_warnings_report(ws, n - 1, k);
        let m = ws.radial_menus[n - 1];
        lemma_contains_left(
            menu_warnings(ws, n - 1),
            if m.slots.len() < crate::model::MIN_SECTORS {
                seq![crate::validation::msg_few_sectors(m.name, (n - 1) as nat, ws.name)]
            } else {
                Seq::empty()
            },
            x,
        );
    } else {
        let tail = seq![crate::validation::msg_few_sectors(ws.radial_menus[k].name, k as nat, ws.name)];
        assert(tail[0] == x);
        assert(tail.contains(x));
        lemma_contains_right(menu_warnings(ws, n - 1), tail, x);
    }
}

proof fn lemma_entries_report(p: crate::model::ActionSetView, i: nat, n: int, e: int, x: Seq<char>)
    requires
        0 <= e < n <= p.entries.len(),
        crate::validation::entry_structure_warnings(p, i, p.entries[e]).contains(x),
    ensures
        entries_structure_warnings(p, i, n).contains(x),
    decreases n,
{
    if e < n - 1 {
        lemma_entries_report(p, i, n - 1, e, x);
        lemma_contains_left(entries_structure_warnings(p, i, n - 1), crate::validation::entry_structure_warnings(p, i, p.entries[n - 1]), x);
    } else {
        lemma_contains_right(entries_structure_warnings(p, i, n - 1), crate::validation::entry_structure_warnings(p, i, p.entries[e]), x);
    }
}

proof fn lemma_structure_report(c: ConfigView, n: int, pi: int, x: Seq<char>)
    requires
        0 <= pi < n <= c.sets.len(),
        crate::validation::page_structure_warnings(c.sets[pi], pi as nat).contains(x),
    ensures
        structure_warnings(c, n).contains(x),
    decreases n,
{
    if pi < n - 1 {
        lemma_structure_report(c, n - 1, pi, x);
        lemma_contains_left(structure_warnings(c, n - 1), crate::validation::page_structure_warnings(c.sets[n - 1], (n - 1) as nat), x);
    } else {
        lemma_contains_right(structure_warnings(c, n - 1), crate::validation::page_structure_warnings(c.sets[pi], pi as nat), x);
    }
}

/// Every radial menu with fewer than two sectors is reported: validation
/// warns that menu `k` of its radial menu set must have at least 2 sectors,
/// so the configuration has errors.
pub proof fn law_too_few_sectors_reported(c: ConfigView, pi: int, ei: int, k: int)
    requires
        0 <= pi < c.sets.len(),
        0 <= ei < c.sets[pi].entries.len(),
        c.sets[pi].entries[ei] is RadialMenuSet,
        0 <= k < c.sets[pi].entries[ei]->RadialMenuSet_0.radial_menus.len(),
        c.sets[pi].entries[ei]->RadialMenuSet_0.radial_menus[k].slots.len() < 2,
    ensures
        ({
            let ws = c.sets[pi].entries[ei]->RadialMenuSet_0;
            config_warnings(c).contains(few_sectors_text(ws.radial_menus[k].name, k as nat, ws.name))
        }),
        config_warnings(c).len() > 0,
{
    let p = c.sets[pi];
    let ws = p.entries[ei]->RadialMenuSet_0;
    let x = few_sectors_text(ws.radial_menus[k].name, k as nat, ws.name);
    lemma_menu_warnings_report(ws, ws.radial_menus.len() as int, k);
    let head = if ws.radial_menus.len() == 0 {
        seq![crate::validation::msg_empty_wheel_set(ws.name, p.name)]
    } else {
        Seq::empty()
    };
    lemma_contains_right(head, menu_warnings(ws, ws.radial_menus.len() as int), x);
    lemma_entries_report(p, pi as nat, p.entries.len() as int, ei, x);
    let top = if p.entries.len() == 0 {
        seq![crate::validation::msg_empty_page(p.name, pi as nat)]
    } else {
        Seq::empty()
    };
    lemma_contains_right(top, entries_structure_warnings(p, pi as nat, p.entries.len() as int), x);
    let n = c.sets.len() as int;
    lemma_structure_report(c, n, pi, x);
    let rest = crate::validation::reuse_warnings_upto(c, n);
    lemma_contains_left(structure_warnings(c, n), rest, x);
    let none = if n == 0 {
        seq![crate::validation::msg_no_pages()]
    } else {
        Seq::empty()
    };
    lemma_contains_left(structure_warnings(c, n) + rest, none, x);
    lemma_contains_left(structure_warnings(c, n) + rest + none, crate::validation::name_warnings(c, n), x);
}

} // verus!
