//! Keyboard and gamepad shortcuts of the HUD and of the editor.
use crate::action::{EditorAction, EditorEffect};
use crate::apply::{apply_action, step};
use crate::config::FloatBits;
use crate::input::{key_among, names_view, shortcut_fires, shortcut_just_pressed, GamepadButton};
use crate::model::{
    enabled_hud_pages, enabled_pages, ActionSetView, ConfigView, QuickActionConfig, SetEntry,
    SetEntryView,
};
use crate::state::{EditFocus, EditorUiState, EditorUiView, Selection, WheelHudState};
use vstd::prelude::*;

verus! {

/// The keyboard and gamepad input of one frame.
pub struct FrameInput {
    /// Debug names of the keys pressed this frame.
    pub just_pressed: Vec<String>,
    /// Debug names of the keys held down.
    pub held: Vec<String>,
    /// Gamepad buttons pressed this frame, over all gamepads.
    pub buttons: Vec<GamepadButton>,
}

/// Whether shortcut `s` fired in frame input `i`.
pub open spec fn fires(s: Seq<char>, i: FrameInput) -> bool {
    shortcut_fires(s, names_view(i.just_pressed@), i.buttons@)
}

fn fired(s: &String, i: &FrameInput) -> (r: bool)
    ensures
        r == fires(s@, *i),
{
    shortcut_just_pressed(s.as_str(), &i.just_pressed, &i.buttons)
}

// ─── page switching ───────────────────────────────────────────────────────────

/// First index of `x` in `s` at or after `from`, or the length of `s`.
pub open spec fn position_in(s: Seq<usize>, x: usize, from: int) -> int
    decreases s.len() - from,
{
    if from < 0 || from >= s.len() {
        s.len() as int
    } else if s[from] == x {
        from
    } else {
        position_in(s, x, from + 1)
    }
}

pub proof fn lemma_position_in(s: Seq<usize>, x: usize, from: int)
    requires
        0 <= from <= s.len(),
    ensures
        from <= position_in(s, x, from) <= s.len(),
        position_in(s, x, from) < s.len() ==> s[position_in(s, x, from)] == x,
        forall|j: int| from <= j < position_in(s, x, from) ==> s[j] != x,
    decreases s.len() - from,
{
    if from < s.len() && s[from] != x {
        lemma_position_in(s, x, from + 1);
    }
}

/// Whether the HUD runtime shortcuts are off: a capture took the input, the
/// HUD is closed or being edited, or a field has the focus.
pub open spec fn runtime_shortcuts_off(u: EditorUiView, h: WheelHudState) -> bool {
    u.capture_consumed || !h.open || h.editor_open || u.editing != EditFocus::Idle
}

/// The HUD state after the page-switch shortcuts of one frame: the next and
/// previous shortcuts step through the enabled pages, wrapping around when
/// the configuration cycles pages.
pub open spec fn set_shortcut_outcome(c: ConfigView, u: EditorUiView, h: WheelHudState, i: FrameInput) -> WheelHudState {
    let pages = enabled_pages(c);
    let pos = position_in(pages, h.active_set, 0);
    if runtime_shortcuts_off(u, h) || pos >= pages.len() {
        h
    } else {
        let h1 = if fires(c.next_set_key, i) {
            WheelHudState {
                active_set: if pos + 1 < pages.len() {
                    pages[pos + 1]
                } else if c.cycle_sets {
                    pages[0]
                } else {
                    h.active_set
                },
                active_wheel_entry: 0,
                dirty: true,
                ..h
            }
        } else {
            h
        };
        if fires(c.prev_set_key, i) {
            WheelHudState {
                active_set: if pos > 0 {
                    pages[pos - 1]
                } else if c.cycle_sets {
                    pages.last()
                } else {
                    h1.active_set
                },
                active_wheel_entry: 0,
                dirty: true,
                ..h1
            }
        } else {
            h1
        }
    }
}

/// Switches the active page on the next / previous page shortcuts.
pub fn apply_set_shortcuts(
    cfg: &QuickActionConfig,
    hud: &mut WheelHudState,
    ui: &EditorUiState,
    input: &FrameInput,
)
    ensures
        *final(hud) == set_shortcut_outcome(cfg@, ui@, *old(hud), *input),
{
    if ui.capture_consumed || !hud.open || hud.editor_open || ui.editing != EditFocus::Idle {
        return;
    }
    let pages = enabled_hud_pages(cfg);
    let n = pages.len();
    proof {
        lemma_position_in(pages@, hud.active_set, 0);
    }
    let mut pos: usize = 0;
    while pos < n && pages[pos] != hud.active_set
        invariant
            n == pages@.len(),
            pos <= position_in(pages@, hud.active_set, 0) <= n,
            position_in(pages@, hud.active_set, 0) < n ==> pages@[position_in(pages@, hud.active_set, 0)]
                == hud.active_set,
        decreases n - pos,
    {
        pos = pos + 1;
    }
    assert(pos == position_in(pages@, hud.active_set, 0));
    if pos >= n {
        return;
    }
    if fired(&cfg.next_set_key, input) {
        if pos + 1 < n {
            hud.active_set = pages[pos + 1];
        } else if cfg.cycle_sets {
            hud.active_set = pages[0];
        }
        hud.active_wheel_entry = 0;
        hud.dirty = true;
    }
    if fired(&cfg.prev_set_key, input) {
        if pos > 0 {
            hud.active_set = pages[pos - 1];
        } else if cfg.cycle_sets {
            hud.active_set = pages[n - 1];
        }
        hud.active_wheel_entry = 0;
        hud.dirty = true;
    }
}

// ─── button shortcuts ─────────────────────────────────────────────────────────

/// Bit pattern of `0.25_f32`: how long a dry-run flash lasts, in seconds.
pub const F32_FLASH_TTL: u32 = 0x3e80_0000;

/// The HUD state after the shortcut of entry `ei` (`e`) of the active page
/// was checked against frame input `i`.
///
/// While the editor is open, a quick action's shortcut only flashes its
/// button; otherwise it closes the HUD when the action closes on select. A
/// HUD switch's shortcut activates its target page when that page exists
/// and is enabled.
pub open spec fn entry_shortcut(
    c: ConfigView,
    h: WheelHudState,
    ei: usize,
    e: SetEntryView,
    i: FrameInput,
) -> WheelHudState {
    match e {
        SetEntryView::Action(qa) => if qa.key.len() != 0 && fires(qa.key, i) {
            if h.editor_open {
                WheelHudState {
                    flash_action_entry: Some(ei),
                    flash_action_ttl: FloatBits(F32_FLASH_TTL),
                    dirty: true,
                    ..h
                }
            } else if qa.close_on_select {
                WheelHudState { open: false, dirty: true, ..h }
            } else {
                h
            }
        } else {
            h
        },
        SetEntryView::HudSwitch(hs) => if hs.enabled && hs.key.len() != 0 && fires(hs.key, i)
            && hs.target_page < c.sets.len() && c.sets[hs.target_page as int].enabled {
            WheelHudState {
                active_set: hs.target_page,
                active_wheel_entry: 0,
                active_wheel_index: 0,
                dirty: true,
                ..h
            }
        } else {
            h
        },
        _ => h,
    }
}

/// The HUD state after the shortcuts of the first `n` of `entries`.
pub open spec fn entry_shortcuts_upto(
    c: ConfigView,
    h: WheelHudState,
    entries: Seq<SetEntryView>,
    n: int,
    i: FrameInput,
) -> WheelHudState
    decreases n,
{
    if n <= 0 {
        h
    } else {
        entry_shortcut(
            c,
            entry_shortcuts_upto(c, h, entries, n - 1, i),
            (n - 1) as usize,
            entries[n - 1],
            i,
        )
    }
}

/// The HUD state after the button shortcuts of one frame, checked in the
/// order of the active page's entries.
pub open spec fn action_shortcut_outcome(c: ConfigView, u: EditorUiView, h: WheelHudState, i: FrameInput) -> WheelHudState {
    if u.capture_consumed || !h.open || u.editing != EditFocus::Idle || h.active_set >= c.sets.len() {
        h
    } else {
        let entries = c.sets[h.active_set as int].entries;
        entry_shortcuts_upto(c, h, entries, entries.len() as int, i)
    }
}

/// Reacts to the shortcuts of the active page's buttons.
pub fn hud_button_action_shortcuts(
    cfg: &QuickActionConfig,
    hud: &mut WheelHudState,
    ui: &EditorUiState,
    input: &FrameInput,
)
    ensures
        *final(hud) == action_shortcut_outcome(cfg@, ui@, *old(hud), *input),
{
    if ui.capture_consumed || !hud.open || ui.editing != EditFocus::Idle {
        return;
    }
    if hud.active_set >= cfg.sets.len() {
        return;
    }
    let page = &cfg.sets[hud.active_set];
    let ghost entries = cfg@.sets[hud.active_set as int].entries;
    let ghost h0 = *hud;
    let n = page.entries.len();
    assert(entries.len() == n);
    let mut ei: usize = 0;
    while ei < n
        invariant
            n == page.entries@.len(),
            entries.len() == n,
            forall|j: int| 0 <= j < n ==> entries[j] == (#[trigger] page.entries@[j])@,
            ei <= n,
            *hud == entry_shortcuts_upto(cfg@, h0, entries, ei as int, *input),
        decreases n - ei,
    {
        match &page.entries[ei] {
            SetEntry::Action(qa) => {
                if qa.key.as_str().unicode_len() != 0 && fired(&qa.key, input) {
                    if hud.editor_open {
                        hud.flash_action_entry = Some(ei);
                        hud.flash_action_ttl = FloatBits(F32_FLASH_TTL);
                        hud.dirty = true;
                    } else if qa.close_on_select {
                        hud.open = false;
                        hud.dirty = true;
                    }
                }
            },
            SetEntry::HudSwitch(hs) => {
                if hs.enabled && hs.key.as_str().unicode_len() != 0 && fired(&hs.key, input) && hs.target_page
                    < cfg.sets.len() && cfg.sets[hs.target_page].enabled {
                    hud.active_set = hs.target_page;
                    hud.active_wheel_entry = 0;
                    hud.active_wheel_index = 0;
                    hud.dirty = true;
                }
            },
            _ => {},
        }
        ei = ei + 1;
    }
}

// ─── wheel switching ──────────────────────────────────────────────────────────

/// Index of the radial menu set that comes `k` radial menu sets after
/// position `from` among `entries` (`k = 0`: the first one at or after
/// `from`), or the number of entries when there are not enough.
pub open spec fn nth_wheel_entry(entries: Seq<SetEntryView>, k: nat, from: int) -> int
    decreases entries.len() - from,
{
    if from < 0 || from >= entries.len() {
        entries.len() as int
    } else if entries[from] is RadialMenuSet || entries[from] is Wheel {
        if k == 0 {
            from
        } else {
            nth_wheel_entry(entries, (k - 1) as nat, from + 1)
        }
    } else {
        nth_wheel_entry(entries, k, from + 1)
    }
}

/// Index among `page`'s entries of the radial menu set that comes `k` radial
/// menu sets after the first one, or the number of entries.
pub fn find_wheel_entry(page: &crate::model::ActionSet, k: usize) -> (r: usize)
    ensures
        r == nth_wheel_entry(page@.entries, k as nat, 0),
{
    let ghost entries = page@.entries;
    let len = page.entries.len();
    let mut r: usize = k;
    let mut j: usize = 0;
    while j < len
        invariant_except_break
            nth_wheel_entry(entries, k as nat, 0) == nth_wheel_entry(entries, r as nat, j as int),
        invariant
            len == page.entries@.len(),
            entries.len() == len,
            forall|q: int| 0 <= q < len ==> entries[q] == (#[trigger] page.entries@[q])@,
            j <= len,
        ensures
            j < len ==> nth_wheel_entry(entries, k as nat, 0) == j,
            j >= len ==> nth_wheel_entry(entries, k as nat, 0) == len,
        decreases len - j,
    {
        match &page.entries[j] {
            SetEntry::RadialMenuSet(_) | SetEntry::Wheel(_) => {
                if r == 0 {
                    break;
                }
                r = r - 1;
            },
            _ => {},
        }
        j = j + 1;
    }
    j
}

/// The HUD state after the wheel-switch shortcuts of one frame.
///
/// The active wheel entry is first brought back in range when the page has
/// fewer radial menus and radial menu sets than it points past. The
/// shortcuts of the active radial menu set (falling back to the page's own
/// when empty) then step through the set's radial menus, wrapping around
/// when the set cycles; while a standalone radial menu is active, the page's
/// own shortcuts step through the page's radial menus and sets instead.
pub open spec fn wheel_nav_outcome(c: ConfigView, u: EditorUiView, h: WheelHudState, i: FrameInput) -> WheelHudState {
    if runtime_shortcuts_off(u, h) || h.active_set >= c.sets.len() {
        h
    } else {
        let page = c.sets[h.active_set as int];
        let n = crate::model::wheel_entries_before(page.entries, page.entries.len() as int);
        if n == 0 {
            h
        } else {
            let h1 = if h.active_wheel_entry >= n {
                WheelHudState { active_wheel_entry: 0, active_wheel_index: 0, dirty: true, ..h }
            } else {
                h
            };
            let k = nth_wheel_entry(page.entries, h1.active_wheel_entry as nat, 0);
            if k >= page.entries.len() {
                h1
            } else {
                match page.entries[k] {
                    SetEntryView::RadialMenuSet(ws) => {
                        let next = if ws.next_wheel_key.len() == 0 {
                            page.next_wheel_key
                        } else {
                            ws.next_wheel_key
                        };
                        let prev = if ws.prev_wheel_key.len() == 0 {
                            page.prev_wheel_key
                        } else {
                            ws.prev_wheel_key
                        };
                        let count = ws.radial_menus.len();
                        if count < 2 {
                            h1
                        } else {
                            let h2 = if fires(next, i) {
                                WheelHudState {
                                    active_wheel_index: if h1.active_wheel_index + 1 < count {
                                        (h1.active_wheel_index + 1) as usize
                                    } else if ws.cycle_wheels {
                                        0
                                    } else {
                                        h1.active_wheel_index
                                    },
                                    highlighted: None,
                                    dirty: true,
                                    ..h1
                                }
                            } else {
                                h1
                            };
                            if fires(prev, i) {
                                WheelHudState {
                                    active_wheel_index: if h2.active_wheel_index > 0 {
                                        (h2.active_wheel_index - 1) as usize
                                    } else if ws.cycle_wheels {
                                        (count - 1) as usize
                                    } else {
                                        h2.active_wheel_index
                                    },
                                    highlighted: None,
                                    dirty: true,
                                    ..h2
                                }
                            } else {
                                h2
                            }
                        }
                    },
                    SetEntryView::Wheel(_) => standalone_nav(page, h1, n, i),
                    _ => h1,
                }
            }
        }
    }
}

/// The HUD state after the page's own wheel shortcuts step through the
/// page's `n` radial menus and radial menu sets while a standalone radial
/// menu is active, wrapping around when the page cycles.
pub open spec fn standalone_nav(page: ActionSetView, h1: WheelHudState, n: nat, i: FrameInput) -> WheelHudState {
    if n < 2 {
        h1
    } else {
        let h2 = if fires(page.next_wheel_key, i) {
            WheelHudState {
                active_wheel_entry: if h1.active_wheel_entry + 1 < n {
                    (h1.active_wheel_entry + 1) as usize
                } else if page.cycle_wheels {
                    0
                } else {
                    h1.active_wheel_entry
                },
                highlighted: None,
                dirty: true,
                ..h1
            }
        } else {
            h1
        };
        if fires(page.prev_wheel_key, i) {
            WheelHudState {
                active_wheel_entry: if h2.active_wheel_entry > 0 {
                    (h2.active_wheel_entry - 1) as usize
                } else if page.cycle_wheels {
                    (n - 1) as usize
                } else {
                    h2.active_wheel_entry
                },
                highlighted: None,
                dirty: true,
                ..h2
            }
        } else {
            h2
        }
    }
}

/// Switches between the radial menus of the active radial menu set on its
/// next / previous shortcuts.
pub fn hud_wheel_nav(cfg: &QuickActionConfig, hud: &mut WheelHudState, ui: &EditorUiState, input: &FrameInput)
    ensures
        *final(hud) == wheel_nav_outcome(cfg@, ui@, *old(hud), *input),
{
    if ui.capture_consumed || !hud.open || hud.editor_open || ui.editing != EditFocus::Idle {
        return;
    }
    if hud.active_set >= cfg.sets.len() {
        return;
    }
    let set = hud.active_set;
    let n = crate::model::wheel_entry_idx(cfg, set, cfg.sets[set].entries.len());
    if n == 0 {
        return;
    }
    if hud.active_wheel_entry >= n {
        hud.active_wheel_entry = 0;
        hud.active_wheel_index = 0;
        hud.dirty = true;
    }
    let page = &cfg.sets[set];
    let j = find_wheel_entry(page, hud.active_wheel_entry);
    if j >= page.entries.len() {
        return;
    }
    match &page.entries[j] {
        SetEntry::RadialMenuSet(ws) => {
            let next = if ws.next_wheel_key.as_str().unicode_len() == 0 {
                &page.next_wheel_key
            } else {
                &ws.next_wheel_key
            };
            let prev = if ws.prev_wheel_key.as_str().unicode_len() == 0 {
                &page.prev_wheel_key
            } else {
                &ws.prev_wheel_key
            };
            let count = ws.radial_menus.len();
            if count < 2 {
                return;
            }
            if fired(next, input) {
                if hud.active_wheel_index < count - 1 {
                    hud.active_wheel_index = hud.active_wheel_index + 1;
                } else if ws.cycle_wheels {
                    hud.active_wheel_index = 0;
                }
                hud.highlighted = None;
                hud.dirty = true;
            }
            if fired(prev, input) {
                if hud.active_wheel_index > 0 {
                    hud.active_wheel_index = hud.active_wheel_index - 1;
                } else if ws.cycle_wheels {
                    hud.active_wheel_index = count - 1;
                }
                hud.highlighted = None;
                hud.dirty = true;
            }
        },
        SetEntry::Wheel(_) => {
            if n < 2 {
                return;
            }
            if fired(&page.next_wheel_key, input) {
                if hud.active_wheel_entry < n - 1 {
                    hud.active_wheel_entry = hud.active_wheel_entry + 1;
                } else if page.cycle_wheels {
                    hud.active_wheel_entry = 0;
                }
                hud.highlighted = None;
                hud.dirty = true;
            }
            if fired(&page.prev_wheel_key, input) {
                if hud.active_wheel_entry > 0 {
                    hud.active_wheel_entry = hud.active_wheel_entry - 1;
                } else if page.cycle_wheels {
                    hud.active_wheel_entry = n - 1;
                }
                hud.highlighted = None;
                hud.dirty = true;
            }
        },
        _ => {},
    }
}

// ─── editor shortcuts ─────────────────────────────────────────────────────────

/// Whether either key named `a` or `b` is among `keys`.
pub open spec fn has_either(keys: Seq<String>, a: Seq<char>, b: Seq<char>) -> bool {
    names_view(keys).contains(a) || names_view(keys).contains(b)
}

/// `(c, u, h)` after editor action `a`, with the editor and the HUD marked
/// for redraw.
#[verifier::opaque]
pub open spec fn history_step(a: EditorAction, c: ConfigView, u: EditorUiView, h: WheelHudState) -> (
    ConfigView,
    EditorUiView,
    WheelHudState,
) {
    let (c1, u1, h1, _e) = step(a, c, u, h);
    (c1, EditorUiView { dirty: true, ..u1 }, WheelHudState { dirty: true, ..h1 })
}

/// The outcome of the undo / redo shortcuts of one frame: with Control
/// held, Z undoes (Shift+Z redoes) and Y redoes, while the editor is open
/// and no field has the focus.
pub open spec fn undo_redo_outcome(c: ConfigView, u: EditorUiView, h: WheelHudState, i: FrameInput) -> (
    ConfigView,
    EditorUiView,
    WheelHudState,
) {
    if u.capture_consumed || !h.editor_open || u.editing != EditFocus::Idle || !has_either(
        i.held@,
        "ControlLeft"@,
        "ControlRight"@,
    ) {
        (c, u, h)
    } else {
        let (c1, u1, h1) = if names_view(i.just_pressed@).contains("KeyZ"@) {
            history_step(
                if has_either(i.held@, "ShiftLeft"@, "ShiftRight"@) {
                    EditorAction::Redo
                } else {
                    EditorAction::Undo
                },
                c,
                u,
                h,
            )
        } else {
            (c, u, h)
        };
        if names_view(i.just_pressed@).contains("KeyY"@) {
            history_step(EditorAction::Redo, c1, u1, h1)
        } else {
            (c1, u1, h1)
        }
    }
}

fn history_shortcut(a: EditorAction, cfg: &mut QuickActionConfig, ui: &mut EditorUiState, hud: &mut WheelHudState)
    requires
        a is Undo || a is Redo,
    ensures
        (final(cfg)@, final(ui)@, *final(hud)) == history_step(a, old(cfg)@, old(ui)@, *old(hud)),
{
    let _e: EditorEffect = apply_action(&a, cfg, ui, hud);
    hud.dirty = true;
    ui.dirty = true;
    proof {
        reveal(history_step);
    }
}

/// Undoes or redoes on the editor's keyboard shortcuts.
pub fn editor_undo_redo_shortcuts(
    cfg: &mut QuickActionConfig,
    ui: &mut EditorUiState,
    hud: &mut WheelHudState,
    input: &FrameInput,
)
    ensures
        (final(cfg)@, final(ui)@, *final(hud)) == undo_redo_outcome(old(cfg)@, old(ui)@, *old(hud), *input),
{
    if ui.capture_consumed || !hud.editor_open || ui.editing != EditFocus::Idle {
        return;
    }
    let ctrl = key_among(&input.held, "ControlLeft") || key_among(&input.held, "ControlRight");
    if !ctrl {
        return;
    }
    if key_among(&input.just_pressed, "KeyZ") {
        let shift = key_among(&input.held, "ShiftLeft") || key_among(&input.held, "ShiftRight");
        let action = if shift {
            EditorAction::Redo
        } else {
            EditorAction::Undo
        };
        history_shortcut(action, cfg, ui, hud);
    }
    if key_among(&input.just_pressed, "KeyY") {
        history_shortcut(EditorAction::Redo, cfg, ui, hud);
    }
}

/// The outcome of the edit shortcut in one frame: inside an open HUD, with
/// no capture in progress, it opens the editor, or closes it and clears the
/// selection.
pub open spec fn edit_shortcut_outcome(c: ConfigView, u: EditorUiView, h: WheelHudState, i: FrameInput) -> (
    EditorUiView,
    WheelHudState,
) {
    if !h.open || c.edit_shortcut.len() == 0 || u.capture_consumed || u.editing != EditFocus::Idle
        || !fires(c.edit_shortcut, i) {
        (u, h)
    } else if h.editor_open {
        (
            EditorUiView { selection: Selection::Nothing, editing: EditFocus::Idle, dirty: true, ..u },
            WheelHudState {
                editor_open: false,
                edit_control_focus: None,
                settings_open: false,
                dirty: true,
                ..h
            },
        )
    } else {
        (
            EditorUiView { dirty: true, ..u },
            WheelHudState { editor_open: true, edit_control_focus: Some(0), dirty: true, ..h },
        )
    }
}

/// Opens or closes the editor on the edit shortcut.
pub fn check_edit_shortcut(
    cfg: &QuickActionConfig,
    hud: &mut WheelHudState,
    ui: &mut EditorUiState,
    input: &FrameInput,
)
    ensures
        (final(ui)@, *final(hud)) == edit_shortcut_outcome(cfg@, old(ui)@, *old(hud), *input),
{
    if !hud.open {
        return;
    }
    if cfg.edit_shortcut.as_str().unicode_len() == 0 {
        return;
    }
    if ui.capture_consumed || ui.editing != EditFocus::Idle {
        return;
    }
    if fired(&cfg.edit_shortcut, input) {
        if hud.editor_open {
            hud.editor_open = false;
            hud.edit_control_focus = None;
            hud.settings_open = false;
            ui.selection = Selection::Nothing;
            ui.editing = EditFocus::Idle;
        } else {
            hud.editor_open = true;
            hud.edit_control_focus = Some(0);
        }
        hud.dirty = true;
        ui.dirty = true;
    }
}

} // verus!
