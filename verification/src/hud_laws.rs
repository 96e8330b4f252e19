//! Properties of the HUD interaction, the shortcuts and the navigation that
//! hold across calls or of every state.
use crate::drag::{control_visible, middle_drag_outcome, MiddleButton, MiddleDragTarget};
use crate::hud::{
    hover_cleared, hover_set, press_outcome, segment_pointer_outcome,
    with_slot_inserted, with_slot_removed, HudControlOwner, PointerState, WheelHudAction,
};
use crate::model::{menu_at, with_menu, ConfigView, RadialMenuView, SetEntryView, MIN_SECTORS};
use crate::navigation::{
    hold_outcome, radial_activate, ring_step, toolbar_left,
    toolbar_right, HoldRepeat, PadState, SectorId,
};
use crate::shortcuts::{
    action_shortcut_outcome, edit_shortcut_outcome, entry_shortcuts_upto,
    set_shortcut_outcome, wheel_nav_outcome, FrameInput,
};
use crate::state::{EditorUiView, Selection, WheelHudState};
use vstd::prelude::*;

verus! {

/// Hovering a component and then leaving it clears its hover mark.
pub proof fn law_hover_then_leave(h: WheelHudState, o: HudControlOwner)
    ensures
        ({
            let h2 = hover_cleared(hover_set(h, o), o);
            match o {
                HudControlOwner::Action(..) => h2 == WheelHudState { hovered_action: None, ..h },
                HudControlOwner::Wheel(..) => h2 == WheelHudState { hovered_wheel: None, ..h },
                HudControlOwner::HudSwitch(..) => h2 == WheelHudState { hovered_hud_switch: None, ..h },
            }
        }),
{
}

/// On the toolbar (controls 8 to 11), stepping left and then right returns
/// to the same control, and so does stepping right and then left, except
/// around Close (11): left from Close goes round to Save (8), not back to
/// Settings (10).
pub proof fn law_toolbar_steps_invert(f: usize)
    requires
        8 <= f <= 11,
    ensures
        f != 11 ==> toolbar_right(Some(toolbar_left(Some(f)))) == f,
        f != 10 ==> toolbar_left(Some(toolbar_right(Some(f)))) == f,
{
    if f == 8 {
    } else if f == 9 {
    } else if f == 10 {
    } else {
    }
}

/// Around a highlighted sector, stepping right and then left returns to the
/// same radial edit control (taken modulo the eight controls), and so does
/// stepping left and then right.
pub proof fn law_ring_steps_invert(f: int)
    ensures
        ring_step(ring_step(f, true), false) == f % 8,
        ring_step(ring_step(f, false), true) == f % 8,
{
}

/// Adding a sector before the highlighted one (control 1) and then deleting
/// the new, highlighted sector (control 2) restores the radial menu (of at
/// least one sector: deleting leaves at least one).
pub proof fn law_add_then_delete_sector(c: ConfigView, u: EditorUiView, h: WheelHudState, id: SectorId)
    requires
        id.2 is Some,
        menu_at(c, id.0 as int, id.1 as int, id.2->0 as int) is Some,
        0 < menu_at(c, id.0 as int, id.1 as int, id.2->0 as int)->0.slots.len() < usize::MAX,
    ensures
        ({
            let (c1, u1, h1) = radial_activate(c, u, h, id, Some(1));
            let (c2, _u2, _h2) = radial_activate(c1, u1, h1, h1.highlighted->0, Some(2));
            c2 == c
        }),
{
    let (set, entry, wheel, slot) = id;
    let w = wheel->0;
    let m = menu_at(c, set as int, entry as int, w as int)->0;
    let at: nat = if (slot as int) < m.slots.len() {
        slot as nat
    } else {
        m.slots.len()
    };
    let m1 = with_slot_inserted(m, at);
    let (c1, u1, h1) = radial_activate(c, u, h, id, Some(1));
    assert(c1 == with_menu(c, set as int, entry as int, w as int, m1));
    assert(menu_at(c1, set as int, entry as int, w as int) == Some(m1));
    assert(h1.highlighted == Some((set, entry, wheel, at as usize)));
    assert(m1.slots.remove(at as int) =~= m.slots);
    assert(with_slot_removed(m1, at as usize) == m);
    let (c2, _u2, _h2) = radial_activate(c1, u1, h1, h1.highlighted->0, Some(2));
    assert(c2 == with_menu(c1, set as int, entry as int, w as int, m));
    lemma_with_menu_twice(c, set as int, entry as int, w as int, m1, m);
    lemma_with_menu_same(c, set as int, entry as int, w as int);
}

/// Storing two radial menus at the same place keeps the second.
pub proof fn lemma_with_menu_twice(c: ConfigView, set: int, entry: int, w: int, m1: RadialMenuView, m2: RadialMenuView)
    requires
        menu_at(c, set, entry, w) is Some,
    ensures
        with_menu(with_menu(c, set, entry, w, m1), set, entry, w, m2) == with_menu(c, set, entry, w, m2),
{
    let ws = crate::model::wheel_set_at(c, set, entry)->0;
    let c1 = with_menu(c, set, entry, w, m1);
    let ws1 = crate::model::RadialMenuSetView { radial_menus: ws.radial_menus.update(w, m1), ..ws };
    assert(c1.sets[set].entries[entry] == crate::model::SetEntryView::RadialMenuSet(ws1));
    assert(crate::model::wheel_set_at(c1, set, entry) == Some(ws1));
    let a = with_menu(c1, set, entry, w, m2);
    let b = with_menu(c, set, entry, w, m2);
    assert(ws1.radial_menus.update(w, m2) =~= ws.radial_menus.update(w, m2));
    assert(a.sets[set].entries =~= b.sets[set].entries);
    assert(a.sets =~= b.sets);
}

/// Storing the radial menu that is already there changes nothing.
pub proof fn lemma_with_menu_same(c: ConfigView, set: int, entry: int, w: int)
    requires
        menu_at(c, set, entry, w) is Some,
    ensures
        with_menu(c, set, entry, w, menu_at(c, set, entry, w)->0) == c,
{
    let a = with_menu(c, set, entry, w, menu_at(c, set, entry, w)->0);
    let ws = crate::model::wheel_set_at(c, set, entry)->0;
    assert(ws.radial_menus.update(w, menu_at(c, set, entry, w)->0) =~= ws.radial_menus);
    assert(a.sets[set].entries =~= c.sets[set].entries);
    assert(a.sets =~= c.sets);
}

/// While the editor is open, a quick action's shortcut never closes the HUD
/// (it only flashes the button).
pub proof fn law_dry_run_keeps_hud_open(c: ConfigView, u: EditorUiView, h: WheelHudState, i: FrameInput)
    requires
        h.editor_open,
    ensures
        action_shortcut_outcome(c, u, h, i).open == h.open,
        action_shortcut_outcome(c, u, h, i).editor_open,
{
    if !(u.capture_consumed || !h.open || u.editing != crate::state::EditFocus::Idle || h.active_set
        >= c.sets.len()) {
        let entries = c.sets[h.active_set as int].entries;
        lemma_shortcuts_keep_open(c, h, entries, entries.len() as int, i);
    }
}

proof fn lemma_shortcuts_keep_open(c: ConfigView, h: WheelHudState, entries: Seq<crate::model::SetEntryView>, n: int, i: FrameInput)
    requires
        h.editor_open,
        0 <= n <= entries.len(),
    ensures
        entry_shortcuts_upto(c, h, entries, n, i).open == h.open,
        entry_shortcuts_upto(c, h, entries, n, i).editor_open,
    decreases n,
{
    if n > 0 {
        lemma_shortcuts_keep_open(c, h, entries, n - 1, i);
    }
}

/// The edit shortcut never opens or closes the HUD itself, and does nothing
/// while the HUD is closed.
pub proof fn law_edit_shortcut_needs_open_hud(c: ConfigView, u: EditorUiView, h: WheelHudState, i: FrameInput)
    ensures
        edit_shortcut_outcome(c, u, h, i).1.open == h.open,
        !h.open ==> edit_shortcut_outcome(c, u, h, i) == (u, h),
{
}

/// While the editor is open, the page and wheel switching shortcuts change
/// nothing.
pub proof fn law_runtime_shortcuts_idle_in_editor(c: ConfigView, u: EditorUiView, h: WheelHudState, i: FrameInput)
    requires
        h.editor_open,
    ensures
        set_shortcut_outcome(c, u, h, i) == h,
        wheel_nav_outcome(c, u, h, i) == h,
{
}

/// Pressing a sector of the wheel preview in the editor selects it, unless
/// the settings panel takes the pointer.
pub proof fn law_pressed_sector_is_selected(
    u: EditorUiView,
    h: WheelHudState,
    id: (usize, usize, Option<usize>, usize),
)
    requires
        h.editor_open,
    ensures
        ({
            let (u1, h1) = segment_pointer_outcome(u, h, false, id, PointerState::Pressed);
            &&& u1.selection == (Selection::Segment { set: id.0, entry: id.1, wheel: id.2, slot: id.3 })
            &&& h1.selected_segment == Some(id)
            &&& h1.highlighted == Some(id)
        }),
{
}

/// The hold-to-repeat navigation keeps the sidebar focus on an existing
/// item.
pub proof fn law_hold_keeps_focus_in_range(u: EditorUiView, p: PadState, rep: HoldRepeat)
    requires
        u.navfocus < u.nav_count,
    ensures
        hold_outcome(u, p, rep).navfocus < u.nav_count,
        hold_outcome(u, p, rep).nav_count == u.nav_count,
{
}

/// Removing or deleting a sector from the HUD never leaves a radial menu
/// with fewer than the minimum number of sectors.
pub proof fn law_sector_removal_keeps_minimum(
    a: WheelHudAction,
    c: ConfigView,
    u: EditorUiView,
    h: WheelHudState,
    set: usize,
    entry: usize,
    w: usize,
)
    requires
        a is RemoveSegment || a is DeleteSegment,
        menu_at(c, set as int, entry as int, w as int) is Some,
        menu_at(c, set as int, entry as int, w as int)->0.slots.len() >= MIN_SECTORS,
    ensures
        ({
            let (c1, _u1, _h1, _e) = press_outcome(a, c, u, h);
            &&& menu_at(c1, set as int, entry as int, w as int) is Some
            &&& menu_at(c1, set as int, entry as int, w as int)->0.slots.len() >= MIN_SECTORS
        }),
{
}

/// A middle-button drag only moves something while the editor is open.
pub proof fn law_no_drag_outside_editor(t: Option<MiddleDragTarget>, h: WheelHudState, m: MiddleButton)
    requires
        !h.open || !h.editor_open,
    ensures
        middle_drag_outcome(t, h, m) == (None::<MiddleDragTarget>, false),
{
}

/// Edit badges are hidden while the editor is closed.
pub proof fn law_badges_hidden_outside_editor(h: WheelHudState, o: HudControlOwner)
    requires
        !h.editor_open,
    ensures
        !control_visible(h, o),
{
}

proof fn lemma_nth_wheel_entry_nonneg(entries: Seq<SetEntryView>, k: nat, from: int)
    requires
        from >= 0,
    ensures
        crate::shortcuts::nth_wheel_entry(entries, k, from) >= 0,
    decreases entries.len() - from,
{
    if from < entries.len() {
        if (entries[from] is RadialMenuSet || entries[from] is Wheel) && k > 0 {
            lemma_nth_wheel_entry_nonneg(entries, (k - 1) as nat, from + 1);
        } else if !(entries[from] is RadialMenuSet || entries[from] is Wheel) {
            lemma_nth_wheel_entry_nonneg(entries, k, from + 1);
        }
    }
}

/// On a page without standalone radial menus, the wheel-switch shortcuts
/// only switch between the radial menus of the active radial menu set: the
/// page stays, and the active wheel entry only moves back to the first one
/// when it no longer exists.
pub proof fn law_wheel_shortcuts_stay_in_set(c: ConfigView, u: EditorUiView, h: WheelHudState, i: FrameInput)
    requires
        h.active_set < c.sets.len() ==> forall|q: int|
            0 <= q < c.sets[h.active_set as int].entries.len() ==> !(#[trigger] c.sets[h.active_set as int].entries[q] is Wheel),
    ensures
        wheel_nav_outcome(c, u, h, i).active_set == h.active_set,
        wheel_nav_outcome(c, u, h, i).active_wheel_entry == h.active_wheel_entry || wheel_nav_outcome(
            c,
            u,
            h,
            i,
        ).active_wheel_entry == 0,
{
    if h.active_set < c.sets.len() && !crate::shortcuts::runtime_shortcuts_off(u, h) {
        let entries = c.sets[h.active_set as int].entries;
        let n = crate::model::wheel_entries_before(entries, entries.len() as int);
        if n > 0 {
            let e1: usize = if h.active_wheel_entry >= n { 0 } else { h.active_wheel_entry };
            let k = crate::shortcuts::nth_wheel_entry(entries, e1 as nat, 0);
            lemma_nth_wheel_entry_nonneg(entries, e1 as nat, 0);
            if k < entries.len() {
                assert(!(entries[k] is Wheel));
            }
            assert(wheel_nav_outcome(c, u, h, i).active_wheel_entry == e1);
        }
    }
}

/// The undo and redo shortcuts do nothing while the editor is closed.
pub proof fn law_history_shortcuts_need_editor(c: ConfigView, u: EditorUiView, h: WheelHudState, i: FrameInput)
    requires
        !h.editor_open,
    ensures
        crate::shortcuts::undo_redo_outcome(c, u, h, i) == (c, u, h),
{
}

/// A stick binding is captured from stick movement only: keyboard keys and
/// gamepad buttons never change the configuration while a stick binding has
/// the focus.
pub proof fn law_stick_capture_axis_only(
    c: ConfigView,
    u: EditorUiView,
    h: WheelHudState,
    keys: Seq<Seq<char>>,
    pads: Seq<crate::capture::PadInput>,
)
    requires
        u.editing is WheelStick || u.editing is WheelSetStick,
        forall|p: int| 0 <= p < pads.len() ==> (#[trigger] pads[p]).stick is None,
    ensures
        crate::capture::key_capture_outcome(c, u, keys).0 == c,
        crate::capture::pad_capture_outcome(c, u, h, pads).0 == c,
{
    lemma_no_stick(pads, 0);
}

proof fn lemma_no_stick(pads: Seq<crate::capture::PadInput>, from: int)
    requires
        0 <= from <= pads.len(),
        forall|p: int| 0 <= p < pads.len() ==> (#[trigger] pads[p]).stick is None,
    ensures
        crate::capture::first_pad_stick(pads, from) == pads.len(),
    decreases pads.len() - from,
{
    if from < pads.len() {
        lemma_no_stick(pads, from + 1);
    }
}

/// While the wheel settings panel takes the pointer, sectors under it
/// change nothing.
pub proof fn law_settings_panel_is_modal(
    u: EditorUiView,
    h: WheelHudState,
    id: (usize, usize, Option<usize>, usize),
    p: PointerState,
)
    ensures
        segment_pointer_outcome(u, h, true, id, p) == (u, h),
{
}

/// The enabled pages are listed in increasing order, each below `n`.
proof fn lemma_enabled_pages_increasing(c: ConfigView, n: int)
    requires
        0 <= n <= usize::MAX + 1,
    ensures
        forall|a: int, b: int|
            0 <= a < b < crate::model::enabled_pages_upto(c, n).len() ==> crate::model::enabled_pages_upto(c, n)[a]
                < crate::model::enabled_pages_upto(c, n)[b],
        forall|a: int| 0 <= a < crate::model::enabled_pages_upto(c, n).len() ==> crate::model::enabled_pages_upto(c, n)[a] < n,
    decreases n,
{
    if n > 0 {
        lemma_enabled_pages_increasing(c, n - 1);
        let prev = crate::model::enabled_pages_upto(c, n - 1);
        let cur = crate::model::enabled_pages_upto(c, n);
        if c.sets[n - 1].enabled {
            assert(cur == prev.push((n - 1) as usize));
            assert forall|a: int, b: int| 0 <= a < b < cur.len() implies cur[a] < cur[b] by {
                if b < prev.len() {
                    assert(cur[a] == prev[a] && cur[b] == prev[b]);
                } else {
                    assert(cur[a] == prev[a]);
                }
            }
            assert forall|a: int| 0 <= a < cur.len() implies cur[a] < n by {
                if a < prev.len() {
                    assert(cur[a] == prev[a]);
                }
            }
        } else {
            assert(cur == prev);
        }
    }
}

/// In a sequence without repeats, the position of the element at `k` is `k`.
proof fn lemma_position_of_distinct(s: Seq<usize>, k: int, from: int)
    requires
        0 <= from <= k < s.len(),
        forall|a: int, b: int| 0 <= a < b < s.len() ==> s[a] < s[b],
    ensures
        crate::shortcuts::position_in(s, s[k], from) == k,
    decreases k - from,
{
    if from < k {
        assert(s[from] < s[k]);
        lemma_position_of_distinct(s, k, from + 1);
    }
}

/// Switching to the next page and then back to the previous one returns to
/// the page one started on, when it is enabled and not the last enabled
/// page.
pub proof fn law_next_then_prev_page(c: ConfigView, u: EditorUiView, h: WheelHudState, next: FrameInput, prev: FrameInput)
    requires
        !crate::shortcuts::runtime_shortcuts_off(u, h),
        c.sets.len() <= usize::MAX,
        crate::shortcuts::position_in(crate::model::enabled_pages(c), h.active_set, 0) + 1 < crate::model::enabled_pages(c).len(),
        crate::shortcuts::fires(c.next_set_key, next),
        !crate::shortcuts::fires(c.prev_set_key, next),
        crate::shortcuts::fires(c.prev_set_key, prev),
        !crate::shortcuts::fires(c.next_set_key, prev),
    ensures
        set_shortcut_outcome(c, u, set_shortcut_outcome(c, u, h, next), prev).active_set == h.active_set,
{
    let pages = crate::model::enabled_pages(c);
    let pos = crate::shortcuts::position_in(pages, h.active_set, 0);
    crate::shortcuts::lemma_position_in(pages, h.active_set, 0);
    lemma_enabled_pages_increasing(c, c.sets.len() as int);
    let h1 = set_shortcut_outcome(c, u, h, next);
    assert(h1.active_set == pages[pos + 1]);
    lemma_position_of_distinct(pages, pos + 1, 0);
    assert(crate::shortcuts::position_in(pages, h1.active_set, 0) == pos + 1);
}

/// Hovering a HUD button or leaving it never changes the configuration or
/// the editor, and returns no effect.
pub proof fn law_hover_never_edits(a: WheelHudAction, p: PointerState, c: ConfigView, u: EditorUiView, h: WheelHudState)
    requires
        !(p is Pressed),
    ensures
        ({
            let (c1, u1, _h1, e) = crate::hud::hud_button_outcome(a, p, c, u, h);
            c1 == c && u1 == u && e == crate::action::EditorEffect::NoEffect
        }),
{
}

/// No editor action moves the sidebar focus or changes the number of
/// sidebar items.
pub proof fn lemma_step_keeps_nav(a: crate::action::EditorAction, c: ConfigView, u: EditorUiView, h: WheelHudState)
    ensures
        crate::apply::step(a, c, u, h).1.navfocus == u.navfocus,
        crate::apply::step(a, c, u, h).1.nav_count == u.nav_count,
{
}

/// The last index of `count` sidebar items (0 when there are none).
pub open spec fn last_item(count: usize) -> int {
    if count > 0 {
        count - 1
    } else {
        0
    }
}

/// Gamepad navigation keeps the sidebar focus on an item (on 0 when there
/// are none) and never changes the number of items: the D-pad saturates at
/// both ends, and activating or going back moves the focus to the top only
/// when the selection changed.
#[verifier::spinoff_prover]
#[verifier::rlimit(100)]
pub proof fn law_gamepad_focus_in_range(
    c: ConfigView,
    u: EditorUiView,
    h: WheelHudState,
    pad: Option<PadState>,
    focused: Option<crate::action::EditorAction>,
    rep: HoldRepeat,
)
    requires
        u.navfocus <= last_item(u.nav_count),
    ensures
        crate::navigation::gamepad_nav_outcome(c, u, h, pad, focused, rep).1.navfocus <= last_item(u.nav_count),
        crate::navigation::gamepad_nav_outcome(c, u, h, pad, focused, rep).1.nav_count == u.nav_count,
{
    if let Some(p) = pad {
        let u1 = hold_outcome(u, p, rep);
        assert(u1.navfocus <= last_item(u.nav_count) && u1.nav_count == u.nav_count);
        match focused {
            Some(a) => lemma_step_keeps_nav(a, c, u1, h),
            None => {},
        }
        lemma_step_keeps_nav(crate::action::EditorAction::NavBack, c, u1, h);
        lemma_step_keeps_nav(crate::action::EditorAction::AddAction { set: h.active_set }, c, u, h);
    }
}

/// A key label captured from a key that is not a modifier fires as a
/// shortcut when that key is pressed, unless the label is empty (debug names
/// `"Key"` and `"Digit"`) or reads as a gamepad binding.
pub proof fn law_captured_key_fires(keys: Seq<Seq<char>>, buttons: Seq<crate::input::GamepadButton>, i: int)
    requires
        0 <= i < keys.len(),
        !crate::input::is_modifier_spec(keys[i]),
        crate::input::key_label_spec(keys[i]).len() > 0,
        !crate::text::has_prefix(crate::input::key_label_spec(keys[i]), "GP:"@),
    ensures
        crate::input::shortcut_fires(crate::input::key_label_spec(keys[i]), keys, buttons),
{
    assert(!crate::input::is_modifier_spec(keys[i]) && crate::input::key_label_spec(keys[i])
        == crate::input::key_label_spec(keys[i]));
}

/// A gamepad binding captured from a bindable button fires as a shortcut
/// when that button is pressed.
pub proof fn law_captured_button_fires(keys: Seq<Seq<char>>, buttons: Seq<crate::input::GamepadButton>, j: int)
    requires
        0 <= j < crate::input::bindable_buttons().len(),
        buttons.contains(crate::input::bindable_buttons()[j]),
    ensures
        crate::input::shortcut_fires(
            "GP:"@ + crate::input::button_label(crate::input::bindable_buttons()[j]),
            keys,
            buttons,
        ),
{
    reveal_strlit("GP:");
    let l = crate::input::button_label(crate::input::bindable_buttons()[j]);
    let s = "GP:"@ + l;
    assert(s.subrange(0, 3) =~= "GP:"@);
    assert(crate::text::has_prefix(s, "GP:"@));
    assert(s.subrange(3, s.len() as int) =~= l);
    assert(crate::text::strip_prefix(s, "GP:"@) == l);
    assert(crate::input::button_label(crate::input::bindable_buttons()[j]) == crate::text::strip_prefix(s, "GP:"@)
        && buttons.contains(crate::input::bindable_buttons()[j]));
}

/// Removing a sector from the HUD takes it out (the others keep their order)
/// exactly when more than the minimum remain and it exists, and then selects
/// and highlights its neighbour `min(slot, n - 2)`; deleting one always
/// clears the sector selection.
#[verifier::spinoff_prover]
#[verifier::rlimit(100)]
pub proof fn law_sector_removal(
    c: ConfigView,
    u: EditorUiView,
    h: WheelHudState,
    set: usize,
    entry: usize,
    w: usize,
    slot: usize,
)
    requires
        menu_at(c, set as int, entry as int, w as int) is Some,
    ensures
        ({
            let m = menu_at(c, set as int, entry as int, w as int)->0;
            let n = m.slots.len();
            let (c1, u1, h1, _e) = press_outcome(
                WheelHudAction::RemoveSegment { set, entry, wheel: Some(w), slot },
                c,
                u,
                h,
            );
            let last = (n - 2) as usize;
            let next: usize = if slot < last { slot } else { last };
            let id = (set, entry, Some(w), next);
            &&& (n > MIN_SECTORS && slot < n) ==> {
                &&& c1 == with_menu(c, set as int, entry as int, w as int, RadialMenuView { slots: m.slots.remove(slot as int), ..m })
                &&& u1.selection == (Selection::Segment { set, entry, wheel: Some(w), slot: next })
                &&& h1.selected_segment == Some(id)
                &&& h1.highlighted == Some(id)
            }
            &&& !(n > MIN_SECTORS && slot < n) ==> c1 == c && u1 == u && h1 == h
        }),
        ({
            let (_c2, u2, h2, _e) = press_outcome(
                WheelHudAction::DeleteSegment { set, entry, wheel: Some(w), slot },
                c,
                u,
                h,
            );
            &&& u2.selection == Selection::Nothing
            &&& h2.selected_segment is None
            &&& h2.highlighted is None
        }),
{
    let r = WheelHudAction::RemoveSegment { set, entry, wheel: Some(w), slot };
    let d = WheelHudAction::DeleteSegment { set, entry, wheel: Some(w), slot };
    assert(crate::hud::delegated(r, h) is None);
    assert(crate::hud::delegated(d, h) is None);
    let (c1, u1, h1) = crate::hud::segment_press(r, c, u, h);
    assert(press_outcome(r, c, u, h) == (c1, u1, h1, crate::action::EditorEffect::NoEffect));
    let (c2, u2, h2) = crate::hud::segment_press(d, c, u, h);
    assert(press_outcome(d, c, u, h) == (c2, u2, h2, crate::action::EditorEffect::NoEffect));
}

} // verus!
