//! Properties of editor actions that hold across calls: undo and redo,
//! the bound on the undo history, navigation, and reordering.
use crate::action::{is_mutative, is_nav_only, target_of, EditorAction, Target};
use crate::apply::{action_effects, apply_target_spec, push_undo_spec, step};
use crate::model::{page_at, ConfigView};
use crate::state::{EditorUiView, Selection, WheelHudState};
use crate::update::{struct_edit_spec, sync_visuals_spec, StructEdit};
use vstd::prelude::*;

verus! {

/// Every action other than undo and redo leaves both histories and their
/// limit as it found them, apart from the snapshot a mutative action takes.
/// Whether every menu of the set of the radial menu selected by `sel`
/// already has that menu's look in `c` (always so when `sel` selects no
/// radial menu of a set).
pub open spec fn look_synced(c: ConfigView, sel: Selection) -> bool {
    sync_visuals_spec(c, sel) == c
}

pub proof fn lemma_effects_keep_history(
    a: EditorAction,
    c: ConfigView,
    u: EditorUiView,
    h: WheelHudState,
)
    requires
        !(a is Undo),
        !(a is Redo),
    ensures
        action_effects(a, c, u, h).1.undo_stack == u.undo_stack,
        action_effects(a, c, u, h).1.redo_stack == u.redo_stack,
        action_effects(a, c, u, h).1.undo_limit == u.undo_limit,
        action_effects(a, c, u, h).0 == c,
{
}

/// Undo after any mutative action restores the configuration the action
/// started from (when the history keeps at least one snapshot).
pub proof fn law_undo_reverts_action(a: EditorAction, c: ConfigView, u: EditorUiView, h: WheelHudState)
    requires
        is_mutative(a),
        u.undo_limit > 0,
        look_synced(c, step(a, c, u, h).1.selection),
    ensures
        ({
            let (c1, u1, h1, _) = step(a, c, u, h);
            step(EditorAction::Undo, c1, u1, h1).0 == c
        }),
{
    let u0 = push_undo_spec(c, u);
    let c1 = apply_target_spec(target_of(a, c), c, u0.selection);
    lemma_effects_keep_history(a, c1, u0, h);
    let pushed = u.undo_stack.push(c);
    if pushed.len() > u.undo_limit {
        assert(pushed.drop_first().last() == c);
    }
}

/// Redo right after undo restores the configuration and both histories.
pub proof fn law_redo_after_undo(c: ConfigView, u: EditorUiView, h: WheelHudState)
    requires
        u.undo_stack.len() > 0,
        look_synced(c, u.selection),
        look_synced(u.undo_stack.last(), u.selection),
    ensures
        ({
            let (c1, u1, h1, _) = step(EditorAction::Undo, c, u, h);
            let (c2, u2, _, _) = step(EditorAction::Redo, c1, u1, h1);
            c2 == c && u2.undo_stack == u.undo_stack && u2.redo_stack == u.redo_stack
        }),
{
    let (c1, u1, h1, _) = step(EditorAction::Undo, c, u, h);
    assert(u1.undo_stack.push(c1) =~= u.undo_stack);
    assert(u1.redo_stack.drop_last() =~= u.redo_stack);
}

/// Undo right after redo restores the configuration and both histories.
pub proof fn law_undo_after_redo(c: ConfigView, u: EditorUiView, h: WheelHudState)
    requires
        u.redo_stack.len() > 0,
        look_synced(c, u.selection),
        look_synced(u.redo_stack.last(), u.selection),
    ensures
        ({
            let (c1, u1, h1, _) = step(EditorAction::Redo, c, u, h);
            let (c2, u2, _, _) = step(EditorAction::Undo, c1, u1, h1);
            c2 == c && u2.undo_stack == u.undo_stack && u2.redo_stack == u.redo_stack
        }),
{
    let (c1, u1, h1, _) = step(EditorAction::Redo, c, u, h);
    assert(u1.redo_stack.push(c1) =~= u.redo_stack);
    assert(u1.undo_stack.drop_last() =~= u.undo_stack);
}

/// The undo and redo histories together never hold more snapshots than the
/// undo limit, whatever action is applied.
#[verifier::spinoff_prover]
#[verifier::rlimit(100)]
pub proof fn law_history_bounded(a: EditorAction, c: ConfigView, u: EditorUiView, h: WheelHudState)
    requires
        u.undo_stack.len() + u.redo_stack.len() <= u.undo_limit,
    ensures
        ({
            let u1 = step(a, c, u, h).1;
            u1.undo_stack.len() + u1.redo_stack.len() <= u1.undo_limit && u1.undo_limit
                == u.undo_limit
        }),
{
    let u0 = if is_mutative(a) {
        push_undo_spec(c, u)
    } else {
        u
    };
    let c1 = apply_target_spec(target_of(a, c), c, u0.selection);
    let ae = action_effects(a, c1, u0, h);
    assert(step(a, c, u, h).1 == ae.1);
    if !(a is Undo) && !(a is Redo) {
        lemma_effects_keep_history(a, c1, u0, h);
    }
}

/// Actions that only move the sidebar's focus (editing a name, capturing a
/// key, saving) leave the configuration and the undo history unchanged.
#[verifier::rlimit(80)]
pub proof fn law_nav_only_keeps_config(a: EditorAction, c: ConfigView, u: EditorUiView, h: WheelHudState)
    requires
        is_nav_only(a),
        look_synced(c, step(a, c, u, h).1.selection),
    ensures
        step(a, c, u, h).0 == c,
        step(a, c, u, h).1.undo_stack == u.undo_stack,
        step(a, c, u, h).1.redo_stack == u.redo_stack,
{
    assert(!is_mutative(a));
    assert(target_of(a, c) is Untouched);
    assert(apply_target_spec(target_of(a, c), c, u.selection) == c);
    lemma_effects_keep_history(a, c, u, h);
}

/// Selecting something changes neither the configuration nor the undo
/// history. (Selecting a HUD switch is not among these: the editor counts it
/// as a change and takes an undo snapshot, though the configuration itself
/// stays the same.)
#[verifier::spinoff_prover]
#[verifier::rlimit(100)]
pub proof fn law_selection_keeps_config(a: EditorAction, c: ConfigView, u: EditorUiView, h: WheelHudState)
    requires
        a is SelectSet || a is SelectAction || a is SelectWheel || a is SelectWheelSetEntry
            || a is SelectSetSwitch || a is SelectSegment || a is NavBack,
        look_synced(c, step(a, c, u, h).1.selection),
    ensures
        step(a, c, u, h).0 == c,
        step(a, c, u, h).1.undo_stack == u.undo_stack,
        step(a, c, u, h).1.redo_stack == u.redo_stack,
{
    assert(!is_mutative(a));
    assert(target_of(a, c) is Untouched);
    lemma_effects_keep_history(a, c, u, h);
    assert(step(a, c, u, h).1 == action_effects(a, c, u, h).1);
    assert(step(a, c, u, h).0 == sync_visuals_spec(action_effects(a, c, u, h).0, step(a, c, u, h).1.selection));
}

/// Selecting a HUD switch leaves the configuration unchanged.
pub proof fn law_select_switch_keeps_config(c: ConfigView, u: EditorUiView, h: WheelHudState, set: usize, entry: usize)
    ensures
        step(EditorAction::SelectHudSwitch { set, entry }, c, u, h).0 == c,
{
}

/// Going back clears the editor selection: nothing is selected, no field has
/// the focus, no sector is highlighted or selected, and the configuration and
/// the history stay as they were.
pub proof fn law_nav_back_clears_selection(c: ConfigView, u: EditorUiView, h: WheelHudState)
    ensures
        ({
            let (c1, u1, h1, _e) = step(EditorAction::NavBack, c, u, h);
            &&& c1 == c
            &&& u1.selection == Selection::Nothing
            &&& u1.editing == crate::state::EditFocus::Idle
            &&& h1.highlighted is None
            &&& h1.selected_segment is None
            &&& u1.undo_stack == u.undo_stack
            &&& u1.redo_stack == u.redo_stack
        }),
{
}

/// Moving an entry up and then back down restores the configuration.
pub proof fn law_move_up_then_down(c: ConfigView, u: EditorUiView, h: WheelHudState, set: usize, entry: usize)
    requires
        page_at(c, set as int) is Some,
        !(u.selection matches Selection::Wheel { wheel: Some(_), .. }),
        0 < entry < c.sets[set as int].entries.len(),
    ensures
        ({
            let (c1, u1, h1, _) = step(EditorAction::MoveEntryUp { set, entry }, c, u, h);
            step(EditorAction::MoveEntryDown { set, entry: (entry - 1) as usize }, c1, u1, h1).0
                == c
        }),
{
    let p = c.sets[set as int];
    let e = p.entries;
    let i = (entry - 1) as usize;
    let swapped = e.update(i as int, e[i + 1]).update(i + 1, e[i as int]);
    let up = EditorAction::MoveEntryUp { set, entry };
    let down = EditorAction::MoveEntryDown { set, entry: i };
    let u0 = push_undo_spec(c, u);
    let c1 = struct_edit_spec(c, StructEdit::SwapEntries(set, i));
    assert(target_of(up, c) == Target::Structure(StructEdit::SwapEntries(set, i)));
    assert(c1 == crate::model::with_page(c, set as int, crate::model::ActionSetView { entries: swapped, ..p }));
    lemma_effects_keep_history(up, c1, u0, h);
    let (c1b, u1, h1, _) = step(up, c, u, h);
    assert(c1b == c1);
    let u2 = push_undo_spec(c1, u1);
    assert(target_of(down, c1) == Target::Structure(StructEdit::SwapEntries(set, i)));
    let c2 = struct_edit_spec(c1, StructEdit::SwapEntries(set, i));
    assert(swapped.update(i as int, swapped[i + 1]).update(i + 1, swapped[i as int]) =~= e);
    assert(c2.sets =~= c.sets);
    lemma_effects_keep_history(down, c2, u2, h1);
}

/// Moving the selected entry down and then back up restores the pages, and
/// the selection follows the entry both ways.
pub proof fn law_move_down_then_up(c: ConfigView, u: EditorUiView, h: WheelHudState, set: usize, entry: usize)
    requires
        page_at(c, set as int) is Some,
        entry + 1 < c.sets[set as int].entries.len() <= usize::MAX,
        u.selection == (Selection::Action { set, entry }),
    ensures
        ({
            let (c1, u1, h1, _) = step(EditorAction::MoveEntryDown { set, entry }, c, u, h);
            let (c2, u2, _h2, _) = step(EditorAction::MoveEntryUp { set, entry: (entry + 1) as usize }, c1, u1, h1);
            &&& c2.sets == c.sets
            &&& u1.selection == (Selection::Action { set, entry: (entry + 1) as usize })
            &&& u2.selection == (Selection::Action { set, entry })
        }),
{
    let p = c.sets[set as int];
    let e = p.entries;
    let swapped = e.update(entry as int, e[entry + 1]).update(entry + 1, e[entry as int]);
    let down = EditorAction::MoveEntryDown { set, entry };
    let up = EditorAction::MoveEntryUp { set, entry: (entry + 1) as usize };
    let u0 = push_undo_spec(c, u);
    let c1 = struct_edit_spec(c, StructEdit::SwapEntries(set, entry));
    assert(target_of(down, c) == Target::Structure(StructEdit::SwapEntries(set, entry)));
    assert(c1 == crate::model::with_page(c, set as int, crate::model::ActionSetView { entries: swapped, ..p }));
    lemma_effects_keep_history(down, c1, u0, h);
    let (c1b, u1, h1, _) = step(down, c, u, h);
    assert(c1b == c1);
    let u2 = push_undo_spec(c1, u1);
    assert(target_of(up, c1) == Target::Structure(StructEdit::SwapEntries(set, entry)));
    let c2 = struct_edit_spec(c1, StructEdit::SwapEntries(set, entry));
    assert(swapped.update(entry as int, swapped[entry + 1]).update(entry + 1, swapped[entry as int]) =~= e);
    assert(c2.sets =~= c.sets);
    lemma_effects_keep_history(up, c2, u2, h1);
}

/// Whether `a` flips one boolean setting of a quick action, a page or the
/// configuration.
pub open spec fn is_toggle(a: EditorAction) -> bool {
    a is ToggleHold || a is ToggleShowOnMenu || a is ToggleEnabled || a is ToggleActionCloseOnSelect
        || a is ToggleInputOverride || a is ToggleShowSetBar || a is ToggleCycleSets
}

/// The flip of a boolean setting, applied twice, restores the quick action.
proof fn lemma_action_toggle_twice(c: ConfigView, set: int, entry: int, e: crate::edit::ActionEdit)
    requires
        e is ToggleHold || e is ToggleShowOnMenu || e is ToggleEnabled || e is ToggleCloseOnSelect,
    ensures
        crate::update::map_action(crate::update::map_action(c, set, entry, e), set, entry, e) == c,
{
    if crate::model::action_at(c, set, entry) is Some {
        let c2 = crate::update::map_action(crate::update::map_action(c, set, entry, e), set, entry, e);
        assert(c2.sets[set].entries =~= c.sets[set].entries);
        assert(c2.sets =~= c.sets);
    }
}

/// A toggle keeps the selection, and while no radial menu of a set is
/// selected its step edits the configuration and nothing more.
#[verifier::spinoff_prover]
#[verifier::rlimit(100)]
proof fn lemma_toggle_step(a: EditorAction, c: ConfigView, u: EditorUiView, h: WheelHudState)
    requires
        is_toggle(a),
        !(u.selection matches Selection::Wheel { wheel: Some(_), .. }),
    ensures
        step(a, c, u, h).1.selection == u.selection,
        step(a, c, u, h).0 == apply_target_spec(target_of(a, c), c, u.selection),
{
    let u0 = if is_mutative(a) {
        push_undo_spec(c, u)
    } else {
        u
    };
    assert(u0.selection == u.selection);
    let c1 = apply_target_spec(target_of(a, c), c, u0.selection);
    let ae = action_effects(a, c1, u0, h);
    assert(ae.1.selection == u.selection);
    assert(ae.0 == c1);
    assert(step(a, c, u, h).0 == sync_visuals_spec(ae.0, ae.1.selection));
}

/// Applying a toggle twice restores the configuration (a toggle aimed at a
/// missing target changes nothing either time).
#[verifier::spinoff_prover]
#[verifier::rlimit(100)]
pub proof fn law_toggles_are_involutions(a: EditorAction, c: ConfigView, u: EditorUiView, h: WheelHudState)
    requires
        is_toggle(a),
        !(u.selection matches Selection::Wheel { wheel: Some(_), .. }),
    ensures
        ({
            let (c1, u1, h1, _) = step(a, c, u, h);
            step(a, c1, u1, h1).0 == c
        }),
{
    let (c1, u1, h1, _) = step(a, c, u, h);
    lemma_toggle_step(a, c, u, h);
    lemma_toggle_step(a, c1, u1, h1);
    match a {
        EditorAction::ToggleHold { set, entry } => {
            lemma_action_toggle_twice(c, set as int, entry as int, crate::edit::ActionEdit::ToggleHold);
        },
        EditorAction::ToggleShowOnMenu { set, entry } => {
            lemma_action_toggle_twice(c, set as int, entry as int, crate::edit::ActionEdit::ToggleShowOnMenu);
        },
        EditorAction::ToggleEnabled { set, entry } => {
            lemma_action_toggle_twice(c, set as int, entry as int, crate::edit::ActionEdit::ToggleEnabled);
        },
        EditorAction::ToggleActionCloseOnSelect { set, entry } => {
            lemma_action_toggle_twice(c, set as int, entry as int, crate::edit::ActionEdit::ToggleCloseOnSelect);
        },
        EditorAction::ToggleInputOverride { set } => {
            if page_at(c, set as int) is Some {
                let c2 = crate::update::map_page(c1, set as int, crate::edit::PageEdit::ToggleInputOverride);
                assert(c2.sets =~= c.sets);
            }
        },
        _ => {},
    }
}

/// An action that only changes what the sidebar shows leaves the
/// configuration, the HUD state and the history alone, and changes at most
/// the selection and the edit focus.
#[verifier::spinoff_prover]
#[verifier::rlimit(100)]
pub proof fn law_nav_only_changes_only_focus(a: EditorAction, c: ConfigView, u: EditorUiView, h: WheelHudState)
    requires
        is_nav_only(a),
        look_synced(c, step(a, c, u, h).1.selection),
    ensures
        ({
            let (c1, u1, h1, _) = step(a, c, u, h);
            &&& c1 == c
            &&& h1 == h
            &&& u1 == (EditorUiView { selection: u1.selection, editing: u1.editing, ..u })
        }),
{
}

} // verus!
