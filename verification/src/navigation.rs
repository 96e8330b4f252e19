//! Keyboard and gamepad navigation of the editor: the toolbar, the radial
//! edit controls around a highlighted sector, and the sidebar focus.
use crate::action::{action_ok, is_nav_only, is_nav_only_action, EditorAction, EditorEffect};
use crate::apply::{apply_action, step};
use crate::config::FloatBits;
use crate::hud::{put_with_slot_inserted, put_with_slot_removed, with_slot_inserted, with_slot_removed};
use crate::input::{key_among, names_view, GamepadButton};
use crate::model::{get_menu, menu_at, with_menu, ConfigView, QuickActionConfig, SetEntry, SetEntryView};
use crate::shortcuts::{nth_wheel_entry, FrameInput};
use crate::state::{EditFocus, EditorUiState, EditorUiView, Selection, WheelHudState};
use vstd::prelude::*;

verus! {

/// A sector address: page, entry, radial menu within a set, slot.
pub type SectorId = (usize, usize, Option<usize>, usize);

// ─── radial edit controls ─────────────────────────────────────────────────────

/// The radial edit control after `f` when stepping right (`forward`) or
/// left: the eight controls around a sector form a ring.
pub open spec fn ring_step(f: int, forward: bool) -> int {
    if forward {
        (f + 1) % 8
    } else {
        (f + 7) % 8
    }
}

fn ring_step_of(f: usize, forward: bool) -> (r: usize)
    ensures
        r == ring_step(f as int, forward),
{
    let m = f % 8;
    if forward {
        (m + 1) % 8
    } else {
        (m + 7) % 8
    }
}

/// The radial edit control that has the focus (the sector itself when
/// none).
pub open spec fn control_of(focus: Option<usize>) -> usize {
    match focus {
        Some(f) => f,
        None => 0,
    }
}

/// Whether a radial menu at the wheel of sector `id` can gain a sector
/// without its count leaving `usize`.
pub open spec fn radial_ok(c: ConfigView, id: SectorId) -> bool {
    let (set, entry, wheel, _slot) = id;
    wheel matches Some(w) ==> (menu_at(c, set as int, entry as int, w as int) is Some ==> menu_at(
        c,
        set as int,
        entry as int,
        w as int,
    )->0.slots.len() < usize::MAX)
}

/// The outcome of activating radial edit control `focus` around the
/// highlighted sector `id`.
///
/// Controls 1, 3 and 4 add a numbered sector before (1) or after (3, 4) the
/// sector and select it; control 2 deletes the sector when more than one
/// remains and selects its neighbour; controls 5, 6 and 7 start editing the
/// sector's name, icon or input binding.
pub open spec fn radial_activate(
    c: ConfigView,
    u: EditorUiView,
    h: WheelHudState,
    id: SectorId,
    focus: Option<usize>,
) -> (ConfigView, EditorUiView, WheelHudState) {
    let (set, entry, wheel, slot) = id;
    let f = control_of(focus);
    if f == 1 || f == 3 || f == 4 {
        let want: int = if focus == Some(1usize) {
            slot as int
        } else {
            slot + 1
        };
        match wheel {
            Some(w) => match menu_at(c, set as int, entry as int, w as int) {
                Some(m) => {
                    let at: nat = if want < m.slots.len() {
                        want as nat
                    } else {
                        m.slots.len()
                    };
                    (
                        with_menu(c, set as int, entry as int, w as int, with_slot_inserted(m, at)),
                        EditorUiView {
                            selection: Selection::Segment { set, entry, wheel, slot: at as usize },
                            dirty: true,
                            ..u
                        },
                        WheelHudState {
                            highlighted: Some((set, entry, wheel, at as usize)),
                            edit_control_focus: Some(0),
                            dirty: true,
                            ..h
                        },
                    )
                },
                None => (c, u, h),
            },
            None => (c, u, h),
        }
    } else if f == 2 {
        match wheel {
            Some(w) => match menu_at(c, set as int, entry as int, w as int) {
                Some(m) => if m.slots.len() > 1 && slot < m.slots.len() {
                    let last = (m.slots.len() - 2) as usize;
                    let next = if slot < last {
                        slot
                    } else {
                        last
                    };
                    (
                        with_menu(c, set as int, entry as int, w as int, with_slot_removed(m, slot)),
                        EditorUiView {
                            selection: Selection::Segment { set, entry, wheel, slot: next },
                            dirty: true,
                            ..u
                        },
                        WheelHudState {
                            highlighted: Some((set, entry, wheel, next)),
                            edit_control_focus: Some(0),
                            dirty: true,
                            ..h
                        },
                    )
                } else {
                    (c, u, h)
                },
                None => (c, u, h),
            },
            None => (c, u, h),
        }
    } else if 5 <= f <= 7 {
        (
            c,
            EditorUiView {
                selection: Selection::Segment { set, entry, wheel, slot },
                editing: if focus == Some(5usize) {
                    EditFocus::SlotName(slot)
                } else if focus == Some(6usize) {
                    EditFocus::SlotIcon(slot)
                } else {
                    EditFocus::SlotInput(slot)
                },
                capture_skip: true,
                dirty: true,
                ..u
            },
            WheelHudState { dirty: true, ..h },
        )
    } else {
        (c, u, h)
    }
}

/// Activates radial edit control `hud.edit_control_focus` around the
/// highlighted sector `id`.
fn activate_radial_control(
    cfg: &mut QuickActionConfig,
    ui: &mut EditorUiState,
    hud: &mut WheelHudState,
    id: SectorId,
)
    requires
        radial_ok(old(cfg)@, id),
    ensures
        (final(cfg)@, final(ui)@, *final(hud)) == radial_activate(
            old(cfg)@,
            old(ui)@,
            *old(hud),
            id,
            old(hud).edit_control_focus,
        ),
{
    let (set, entry, wheel, slot) = id;
    let focus = hud.edit_control_focus;
    let f = match focus {
        Some(f) => f,
        None => 0,
    };
    if f == 1 || f == 3 || f == 4 {
        if let Some(w) = wheel {
            if let Some(m) = get_menu(cfg, set, entry, w) {
                let len = m.slots.len();
                let at = if focus == Some(1) {
                    if slot < len {
                        slot
                    } else {
                        len
                    }
                } else if slot < len {
                    slot + 1
                } else {
                    len
                };
                put_with_slot_inserted(cfg, set, entry, w, m, at);
                ui.selection = Selection::Segment { set, entry, wheel, slot: at };
                hud.highlighted = Some((set, entry, wheel, at));
                hud.edit_control_focus = Some(0);
                hud.dirty = true;
                ui.dirty = true;
            }
        }
    } else if f == 2 {
        if let Some(w) = wheel {
            if let Some(m) = get_menu(cfg, set, entry, w) {
                let len = m.slots.len();
                if len > 1 && slot < len {
                    put_with_slot_removed(cfg, set, entry, w, m, slot);
                    let last = len - 2;
                    let next = if slot < last {
                        slot
                    } else {
                        last
                    };
                    ui.selection = Selection::Segment { set, entry, wheel, slot: next };
                    hud.highlighted = Some((set, entry, wheel, next));
                    hud.edit_control_focus = Some(0);
                    hud.dirty = true;
                    ui.dirty = true;
                }
            }
        }
    } else if 5 <= f && f <= 7 {
        ui.selection = Selection::Segment { set, entry, wheel, slot };
        ui.editing = if focus == Some(5) {
            EditFocus::SlotName(slot)
        } else if focus == Some(6) {
            EditFocus::SlotIcon(slot)
        } else {
            EditFocus::SlotInput(slot)
        };
        ui.capture_skip = true;
        hud.dirty = true;
        ui.dirty = true;
    }
}

/// Whether the key named `name` was pressed in frame input `i`.
pub open spec fn key_pressed(i: FrameInput, name: Seq<char>) -> bool {
    names_view(i.just_pressed@).contains(name)
}

/// Whether the key named `name` is held in frame input `i`.
pub open spec fn key_held(i: FrameInput, name: Seq<char>) -> bool {
    names_view(i.held@).contains(name)
}

/// Whether the radial edit controls take the input: the editor is open,
/// no field has the focus and a sector is highlighted.
pub open spec fn radial_controls_active(u: EditorUiView, h: WheelHudState) -> bool {
    h.editor_open && u.editing == EditFocus::Idle && h.highlighted is Some
}

/// The outcome of one frame of keyboard input on the radial edit controls:
/// the arrow keys step around the ring of controls, Enter or Space
/// activates the focused one.
pub open spec fn keyboard_radial_outcome(c: ConfigView, u: EditorUiView, h: WheelHudState, i: FrameInput) -> (
    ConfigView,
    EditorUiView,
    WheelHudState,
) {
    if !radial_controls_active(u, h) {
        (c, u, h)
    } else {
        let left = key_pressed(i, "ArrowLeft"@);
        let right = key_pressed(i, "ArrowRight"@);
        if left || right {
            (
                c,
                u,
                WheelHudState {
                    edit_control_focus: Some(ring_step(control_of(h.edit_control_focus) as int, right) as usize),
                    dirty: true,
                    ..h
                },
            )
        } else if !(key_pressed(i, "Enter"@) || key_pressed(i, "Space"@)) {
            (c, u, h)
        } else {
            radial_activate(c, u, h, h.highlighted->0, h.edit_control_focus)
        }
    }
}

/// Drives the radial edit controls from the keyboard.
pub fn editor_keyboard_radial_nav(
    cfg: &mut QuickActionConfig,
    ui: &mut EditorUiState,
    hud: &mut WheelHudState,
    input: &FrameInput,
)
    requires
        old(hud).highlighted matches Some(id) ==> radial_ok(old(cfg)@, id),
    ensures
        (final(cfg)@, final(ui)@, *final(hud)) == keyboard_radial_outcome(old(cfg)@, old(ui)@, *old(hud), *input),
{
    if !hud.editor_open || ui.editing != EditFocus::Idle {
        return;
    }
    let id = match hud.highlighted {
        Some(id) => id,
        None => return ,
    };
    let left = key_among(&input.just_pressed, "ArrowLeft");
    let right = key_among(&input.just_pressed, "ArrowRight");
    if left || right {
        let current = match hud.edit_control_focus {
            Some(f) => f,
            None => 0,
        };
        hud.edit_control_focus = Some(ring_step_of(current, right));
        hud.dirty = true;
        return;
    }
    if !(key_among(&input.just_pressed, "Enter") || key_among(&input.just_pressed, "Space")) {
        return;
    }
    activate_radial_control(cfg, ui, hud, id);
}

// ─── the active wheel ─────────────────────────────────────────────────────────

/// The radial menu that the HUD shows on the active page, with its sector
/// count: page, entry, index within its set (kept within the set; none for
/// a standalone radial menu), sectors.
pub open spec fn active_wheel_target(c: ConfigView, h: WheelHudState) -> Option<(usize, usize, Option<usize>, usize)> {
    if h.active_set >= c.sets.len() {
        None
    } else {
        let entries = c.sets[h.active_set as int].entries;
        let k = nth_wheel_entry(entries, h.active_wheel_entry as nat, 0);
        if k >= entries.len() {
            None
        } else {
            match entries[k] {
                SetEntryView::Wheel(w) => Some((h.active_set, k as usize, None, w.slots.len() as usize)),
                SetEntryView::RadialMenuSet(ws) => if ws.radial_menus.len() == 0 {
                    None
                } else {
                    let active: usize = if h.active_wheel_index < ws.radial_menus.len() - 1 {
                        h.active_wheel_index
                    } else {
                        (ws.radial_menus.len() - 1) as usize
                    };
                    Some(
                        (
                            h.active_set,
                            k as usize,
                            Some(active),
                            ws.radial_menus[active as int].slots.len() as usize,
                        ),
                    )
                },
                _ => None,
            }
        }
    }
}

/// The radial menu that the HUD shows on the active page (see
/// [`active_wheel_target`]).
pub fn active_edit_wheel(cfg: &QuickActionConfig, hud: &WheelHudState) -> (r: Option<
    (usize, usize, Option<usize>, usize),
>)
    ensures
        r == active_wheel_target(cfg@, *hud),
{
    if hud.active_set >= cfg.sets.len() {
        return None;
    }
    let page = &cfg.sets[hud.active_set];
    let k = crate::shortcuts::find_wheel_entry(page, hud.active_wheel_entry);
    if k >= page.entries.len() {
        return None;
    }
    match &page.entries[k] {
        SetEntry::Wheel(w) => Some((hud.active_set, k, None, w.slots.len())),
        SetEntry::RadialMenuSet(ws) => {
            let n = ws.radial_menus.len();
            if n == 0 {
                return None;
            }
            let active = if hud.active_wheel_index < n - 1 {
                hud.active_wheel_index
            } else {
                n - 1
            };
            Some((hud.active_set, k, Some(active), ws.radial_menus[active].slots.len()))
        },
        _ => None,
    }
}

// ─── gamepad ──────────────────────────────────────────────────────────────────

/// The first gamepad's buttons in one frame.
pub struct PadState {
    /// Buttons pressed this frame.
    pub just_pressed: Vec<GamepadButton>,
    /// Buttons held down.
    pub pressed: Vec<GamepadButton>,
}

/// Hold-to-repeat timing of the D-pad, computed by the host from the frame
/// time: the hold timer after this frame, and how many repeat steps fell
/// due during it. Used only while the same direction stays held.
pub struct HoldRepeat {
    pub timer: FloatBits,
    pub steps: usize,
}

pub open spec fn just(p: PadState, b: GamepadButton) -> bool {
    p.just_pressed@.contains(b)
}

pub open spec fn held(p: PadState, b: GamepadButton) -> bool {
    p.pressed@.contains(b)
}

/// The toolbar control left of `f` (Save 8, Add 9, Settings 10, Close 11).
pub open spec fn toolbar_left(f: Option<usize>) -> usize {
    match f {
        Some(9) => 8,
        Some(10) => 9,
        Some(8) => 11,
        _ => 8,
    }
}

/// The toolbar control right of `f`.
pub open spec fn toolbar_right(f: Option<usize>) -> usize {
    match f {
        Some(8) => 9,
        Some(9) => 10,
        Some(10) => 11,
        Some(11) => 8,
        _ => 9,
    }
}

/// `(c, u, h)` after editor action `a` with both views marked for redraw;
/// the action's own effect is dropped.
pub open spec fn redrawn_step(a: EditorAction, c: ConfigView, u: EditorUiView, h: WheelHudState) -> (
    ConfigView,
    EditorUiView,
    WheelHudState,
    EditorEffect,
) {
    let (c1, u1, h1, _e) = step(a, c, u, h);
    (c1, EditorUiView { dirty: true, ..u1 }, WheelHudState { dirty: true, ..h1 }, EditorEffect::NoEffect)
}

/// The outcome of the gamepad on the toolbar when no sector is highlighted,
/// or `None` when the frame's buttons leave it to the sidebar navigation.
pub open spec fn toolbar_pad_outcome(c: ConfigView, u: EditorUiView, h: WheelHudState, p: PadState) -> Option<
    (ConfigView, EditorUiView, WheelHudState, EditorEffect),
> {
    if just(p, GamepadButton::DPadLeft) {
        Some((c, u, WheelHudState { edit_control_focus: Some(toolbar_left(h.edit_control_focus)), dirty: true, ..h }, EditorEffect::NoEffect))
    } else if just(p, GamepadButton::DPadRight) {
        Some((c, u, WheelHudState { edit_control_focus: Some(toolbar_right(h.edit_control_focus)), dirty: true, ..h }, EditorEffect::NoEffect))
    } else if just(p, GamepadButton::DPadUp) || just(p, GamepadButton::DPadDown) {
        Some(
            match active_wheel_target(c, h) {
                Some((set, entry, wheel, count)) => if count > 0 {
                    (
                        c,
                        EditorUiView { selection: Selection::Segment { set, entry, wheel, slot: 0 }, dirty: true, ..u },
                        WheelHudState {
                            highlighted: Some((set, entry, wheel, 0)),
                            edit_control_focus: Some(0),
                            dirty: true,
                            ..h
                        },
                        EditorEffect::NoEffect,
                    )
                } else {
                    (c, u, h, EditorEffect::NoEffect)
                },
                None => (c, u, h, EditorEffect::NoEffect),
            },
        )
    } else if just(p, GamepadButton::South) {
        Some(
            match h.edit_control_focus {
                Some(8) => (c, u, h, EditorEffect::SaveConfig),
                Some(9) => redrawn_step(EditorAction::AddAction { set: h.active_set }, c, u, h),
                Some(10) => (c, u, WheelHudState { settings_open: !h.settings_open, dirty: true, ..h }, EditorEffect::NoEffect),
                _ => (c, u, h, EditorEffect::NoEffect),
            },
        )
    } else {
        None
    }
}

/// The sector `d` steps (down: forward, up: backward) from `slot` in a
/// radial menu of `len > 0` sectors.
pub open spec fn cycled_slot(slot: usize, len: nat, down: bool) -> usize {
    if down {
        ((slot + 1) % (len as int)) as usize
    } else if slot == 0 {
        (len - 1) as usize
    } else {
        (slot - 1) as usize
    }
}

/// The outcome of the gamepad on the radial edit controls around the
/// highlighted sector `id`, or `None` when the frame's buttons leave it to
/// the sidebar navigation.
pub open spec fn radial_pad_outcome(c: ConfigView, u: EditorUiView, h: WheelHudState, p: PadState, id: SectorId) -> Option<
    (ConfigView, EditorUiView, WheelHudState, EditorEffect),
> {
    let (set, entry, wheel, slot) = id;
    if just(p, GamepadButton::DPadUp) || just(p, GamepadButton::DPadDown) {
        Some(
            match wheel {
                Some(w) => match menu_at(c, set as int, entry as int, w as int) {
                    Some(m) => if m.slots.len() > 0 {
                        let next = cycled_slot(slot, m.slots.len(), just(p, GamepadButton::DPadDown));
                        (
                            c,
                            EditorUiView { selection: Selection::Segment { set, entry, wheel, slot: next }, dirty: true, ..u },
                            WheelHudState {
                                highlighted: Some((set, entry, wheel, next)),
                                edit_control_focus: Some(0),
                                dirty: true,
                                ..h
                            },
                            EditorEffect::NoEffect,
                        )
                    } else {
                        (c, u, h, EditorEffect::NoEffect)
                    },
                    None => (c, u, h, EditorEffect::NoEffect),
                },
                None => (c, u, h, EditorEffect::NoEffect),
            },
        )
    } else if h.edit_control_focus is Some && (just(p, GamepadButton::DPadLeft) || just(p, GamepadButton::DPadRight)) {
        Some(
            (
                c,
                u,
                WheelHudState {
                    edit_control_focus: Some(
                        ring_step(control_of(h.edit_control_focus) as int, just(p, GamepadButton::DPadRight)) as usize,
                    ),
                    dirty: true,
                    ..h
                },
                EditorEffect::NoEffect,
            ),
        )
    } else if just(p, GamepadButton::South) {
        let (c1, u1, h1) = radial_activate(c, u, h, id, h.edit_control_focus);
        Some((c1, u1, h1, EditorEffect::NoEffect))
    } else {
        None
    }
}

/// Sidebar focus `nf` moved `k` steps down among `count` items, stopping at
/// the last one.
pub open spec fn focus_down(nf: usize, count: usize, k: nat) -> usize {
    let last: usize = if count > 0 {
        (count - 1) as usize
    } else {
        0
    };
    if k == 0 {
        nf
    } else if nf + k < last {
        (nf + k) as usize
    } else {
        last
    }
}

/// Sidebar focus `nf` moved `k` steps up, stopping at the first item.
pub open spec fn focus_up(nf: usize, k: nat) -> usize {
    if k <= nf {
        (nf - k) as usize
    } else {
        0
    }
}

/// The editor state after the D-pad hold-to-repeat navigation of one frame:
/// a newly held direction moves the sidebar focus at once and restarts the
/// hold timer; a direction held on moves it by the repeat steps that fell
/// due; releasing the D-pad resets the hold.
pub open spec fn hold_outcome(u: EditorUiView, p: PadState, rep: HoldRepeat) -> EditorUiView {
    let dir: i32 = if held(p, GamepadButton::DPadDown) {
        1i32
    } else if held(p, GamepadButton::DPadUp) {
        -1i32
    } else {
        0i32
    };
    if dir == 0 {
        EditorUiView { nav_hold_dir: 0, nav_hold_timer: FloatBits(0), ..u }
    } else if dir != u.nav_hold_dir {
        EditorUiView {
            nav_hold_dir: dir,
            nav_hold_timer: FloatBits(0),
            navfocus: if dir > 0 {
                focus_down(u.navfocus, u.nav_count, 1)
            } else {
                focus_up(u.navfocus, 1)
            },
            dirty: true,
            ..u
        }
    } else {
        EditorUiView {
            nav_hold_timer: rep.timer,
            navfocus: if dir > 0 {
                focus_down(u.navfocus, u.nav_count, rep.steps as nat)
            } else {
                focus_up(u.navfocus, rep.steps as nat)
            },
            dirty: u.dirty || rep.steps > 0,
            ..u
        }
    }
}

/// The outcome of South (activate the focused sidebar item, whose action is
/// `focused`) or East (go back up) on the sidebar. Entering a new panel
/// moves the sidebar focus to its top; starting a capture skips the press
/// that started it.
pub open spec fn activate_outcome(
    c: ConfigView,
    u: EditorUiView,
    h: WheelHudState,
    p: PadState,
    focused: Option<EditorAction>,
) -> (ConfigView, EditorUiView, WheelHudState, EditorEffect) {
    if just(p, GamepadButton::South) {
        match focused {
            Some(a) => {
                let (c1, u1, h1, e) = step(a, c, u, h);
                (
                    c1,
                    EditorUiView {
                        dirty: true,
                        capture_skip: u1.capture_skip || u1.editing != EditFocus::Idle,
                        navfocus: if u1.selection != u.selection {
                            0
                        } else {
                            u1.navfocus
                        },
                        ..u1
                    },
                    if is_nav_only(a) {
                        h1
                    } else {
                        WheelHudState { dirty: true, ..h1 }
                    },
                    e,
                )
            },
            None => (c, u, h, EditorEffect::NoEffect),
        }
    } else if just(p, GamepadButton::East) {
        let (c1, u1, h1, e) = step(EditorAction::NavBack, c, u, h);
        (
            c1,
            EditorUiView {
                dirty: true,
                navfocus: if u1.selection != u.selection {
                    0
                } else {
                    u1.navfocus
                },
                ..u1
            },
            WheelHudState { dirty: true, ..h1 },
            e,
        )
    } else {
        (c, u, h, EditorEffect::NoEffect)
    }
}

/// The outcome of one frame of the first gamepad (`pad`, when one is
/// connected) in the editor: the toolbar or the radial edit controls take
/// the D-pad and South first; otherwise the D-pad moves the sidebar focus
/// and South / East activate or go back. Saving is returned as an effect.
pub open spec fn gamepad_nav_outcome(
    c: ConfigView,
    u: EditorUiView,
    h: WheelHudState,
    pad: Option<PadState>,
    focused: Option<EditorAction>,
    rep: HoldRepeat,
) -> (ConfigView, EditorUiView, WheelHudState, EditorEffect) {
    if u.capture_consumed || !h.editor_open || u.editing != EditFocus::Idle {
        (c, EditorUiView { nav_hold_dir: 0, nav_hold_timer: FloatBits(0), ..u }, h, EditorEffect::NoEffect)
    } else {
        match pad {
            None => (c, u, h, EditorEffect::NoEffect),
            Some(p) => {
                let early = match h.highlighted {
                    None => toolbar_pad_outcome(c, u, h, p),
                    Some(id) => radial_pad_outcome(c, u, h, p, id),
                };
                match early {
                    Some(r) => r,
                    None => activate_outcome(c, hold_outcome(u, p, rep), h, p, focused),
                }
            },
        }
    }
}

/// Whether a frame of gamepad navigation stays within what the machine can
/// hold: the actions it may perform are in range, and the radial menu of
/// the highlighted sector can gain a sector.
pub open spec fn gamepad_nav_ok(c: ConfigView, h: WheelHudState, focused: Option<EditorAction>) -> bool {
    &&& focused matches Some(a) ==> action_ok(a, c)
    &&& action_ok(EditorAction::AddAction { set: h.active_set }, c)
    &&& h.highlighted matches Some(id) ==> radial_ok(c, id)
}

fn pad_just(p: &PadState, b: GamepadButton) -> (r: bool)
    ensures
        r == just(*p, b),
{
    crate::input::contains_button(&p.just_pressed, b)
}

fn pad_held(p: &PadState, b: GamepadButton) -> (r: bool)
    ensures
        r == held(*p, b),
{
    crate::input::contains_button(&p.pressed, b)
}

fn redrawn_apply(a: EditorAction, cfg: &mut QuickActionConfig, ui: &mut EditorUiState, hud: &mut WheelHudState) -> (r: EditorEffect)
    requires
        action_ok(a, old(cfg)@),
    ensures
        (final(cfg)@, final(ui)@, *final(hud), r) == redrawn_step(a, old(cfg)@, old(ui)@, *old(hud)),
{
    let _e = apply_action(&a, cfg, ui, hud);
    hud.dirty = true;
    ui.dirty = true;
    EditorEffect::NoEffect
}

fn toolbar_pad(cfg: &mut QuickActionConfig, ui: &mut EditorUiState, hud: &mut WheelHudState, p: &PadState) -> (r: Option<EditorEffect>)
    requires
        action_ok(EditorAction::AddAction { set: old(hud).active_set }, old(cfg)@),
    ensures
        match r {
            Some(e) => toolbar_pad_outcome(old(cfg)@, old(ui)@, *old(hud), *p) == Some((final(cfg)@, final(ui)@, *final(hud), e)),
            None => toolbar_pad_outcome(old(cfg)@, old(ui)@, *old(hud), *p) is None && final(cfg)@ == old(cfg)@
                && final(ui)@ == old(ui)@ && *final(hud) == *old(hud),
        },
{
    if pad_just(p, GamepadButton::DPadLeft) {
        hud.edit_control_focus = Some(match hud.edit_control_focus {
            Some(9) => 8,
            Some(10) => 9,
            Some(8) => 11,
            _ => 8,
        });
        hud.dirty = true;
        return Some(EditorEffect::NoEffect);
    }
    if pad_just(p, GamepadButton::DPadRight) {
        hud.edit_control_focus = Some(match hud.edit_control_focus {
            Some(8) => 9,
            Some(9) => 10,
            Some(10) => 11,
            Some(11) => 8,
            _ => 9,
        });
        hud.dirty = true;
        return Some(EditorEffect::NoEffect);
    }
    if pad_just(p, GamepadButton::DPadUp) || pad_just(p, GamepadButton::DPadDown) {
        if let Some((set, entry, wheel, count)) = active_edit_wheel(cfg, hud) {
            if count > 0 {
                ui.selection = Selection::Segment { set, entry, wheel, slot: 0 };
                hud.highlighted = Some((set, entry, wheel, 0));
                hud.edit_control_focus = Some(0);
                hud.dirty = true;
                ui.dirty = true;
            }
        }
        return Some(EditorEffect::NoEffect);
    }
    if pad_just(p, GamepadButton::South) {
        let e = match hud.edit_control_focus {
            Some(8) => EditorEffect::SaveConfig,
            Some(9) => redrawn_apply(EditorAction::AddAction { set: hud.active_set }, cfg, ui, hud),
            Some(10) => {
                hud.settings_open = !hud.settings_open;
                hud.dirty = true;
                EditorEffect::NoEffect
            },
            _ => EditorEffect::NoEffect,
        };
        return Some(e);
    }
    None
}

fn radial_pad(
    cfg: &mut QuickActionConfig,
    ui: &mut EditorUiState,
    hud: &mut WheelHudState,
    p: &PadState,
    id: SectorId,
) -> (r: Option<EditorEffect>)
    requires
        radial_ok(old(cfg)@, id),
    ensures
        match r {
            Some(e) => radial_pad_outcome(old(cfg)@, old(ui)@, *old(hud), *p, id) == Some((final(cfg)@, final(ui)@, *final(hud), e)),
            None => radial_pad_outcome(old(cfg)@, old(ui)@, *old(hud), *p, id) is None && final(cfg)@ == old(cfg)@
                && final(ui)@ == old(ui)@ && *final(hud) == *old(hud),
        },
{
    let (set, entry, wheel, slot) = id;
    if pad_just(p, GamepadButton::DPadUp) || pad_just(p, GamepadButton::DPadDown) {
        let down = pad_just(p, GamepadButton::DPadDown);
        if let Some(w) = wheel {
            if let Some(m) = get_menu(cfg, set, entry, w) {
                let len = m.slots.len();
                if len > 0 {
                    let q = slot % len;
                    assert((q as int + 1) % (len as int) == (slot as int + 1) % (len as int)) by (nonlinear_arith)
                        requires
                            len > 0,
                            q == slot % len,
                    ;
                    let next = if down {
                        (q + 1) % len
                    } else if slot == 0 {
                        len - 1
                    } else {
                        slot - 1
                    };
                    ui.selection = Selection::Segment { set, entry, wheel, slot: next };
                    hud.highlighted = Some((set, entry, wheel, next));
                    hud.edit_control_focus = Some(0);
                    hud.dirty = true;
                    ui.dirty = true;
                }
            }
        }
        return Some(EditorEffect::NoEffect);
    }
    let left = pad_just(p, GamepadButton::DPadLeft);
    let right = pad_just(p, GamepadButton::DPadRight);
    if hud.edit_control_focus.is_some() && (left || right) {
        let current = match hud.edit_control_focus {
            Some(f) => f,
            None => 0,
        };
        hud.edit_control_focus = Some(ring_step_of(current, right));
        hud.dirty = true;
        return Some(EditorEffect::NoEffect);
    }
    if pad_just(p, GamepadButton::South) {
        activate_radial_control(cfg, ui, hud, id);
        return Some(EditorEffect::NoEffect);
    }
    None
}

fn focus_down_of(nf: usize, count: usize, k: usize) -> (r: usize)
    ensures
        r == focus_down(nf, count, k as nat),
{
    let last = if count > 0 {
        count - 1
    } else {
        0
    };
    if k == 0 {
        nf
    } else if nf < last && k < last - nf {
        nf + k
    } else {
        last
    }
}

fn focus_up_of(nf: usize, k: usize) -> (r: usize)
    ensures
        r == focus_up(nf, k as nat),
{
    if k <= nf {
        nf - k
    } else {
        0
    }
}

fn apply_hold(ui: &mut EditorUiState, p: &PadState, rep: &HoldRepeat)
    ensures
        final(ui)@ == hold_outcome(old(ui)@, *p, *rep),
{
    let dir: i32 = if pad_held(p, GamepadButton::DPadDown) {
        1
    } else if pad_held(p, GamepadButton::DPadUp) {
        -1
    } else {
        0
    };
    if dir == 0 {
        ui.nav_hold_dir = 0;
        ui.nav_hold_timer = FloatBits(0);
    } else if dir != ui.nav_hold_dir {
        ui.nav_hold_dir = dir;
        ui.nav_hold_timer = FloatBits(0);
        ui.navfocus = if dir > 0 {
            focus_down_of(ui.navfocus, ui.nav_count, 1)
        } else {
            focus_up_of(ui.navfocus, 1)
        };
        ui.dirty = true;
    } else {
        ui.nav_hold_timer = FloatBits(rep.timer.0);
        ui.navfocus = if dir > 0 {
            focus_down_of(ui.navfocus, ui.nav_count, rep.steps)
        } else {
            focus_up_of(ui.navfocus, rep.steps)
        };
        if rep.steps > 0 {
            ui.dirty = true;
        }
    }
}

fn activate_focused(
    cfg: &mut QuickActionConfig,
    ui: &mut EditorUiState,
    hud: &mut WheelHudState,
    p: &PadState,
    focused: Option<EditorAction>,
) -> (r: EditorEffect)
    requires
        focused matches Some(a) ==> action_ok(a, old(cfg)@),
    ensures
        (final(cfg)@, final(ui)@, *final(hud), r) == activate_outcome(old(cfg)@, old(ui)@, *old(hud), *p, focused),
{
    if pad_just(p, GamepadButton::South) {
        match focused {
            Some(a) => {
                let sel_before = ui.selection;
                let e = apply_action(&a, cfg, ui, hud);
                ui.dirty = true;
                if !is_nav_only_action(&a) {
                    hud.dirty = true;
                }
                if ui.editing != EditFocus::Idle {
                    ui.capture_skip = true;
                }
                if ui.selection != sel_before {
                    ui.navfocus = 0;
                }
                e
            },
            None => EditorEffect::NoEffect,
        }
    } else if pad_just(p, GamepadButton::East) {
        let sel_before = ui.selection;
        let e = apply_action(&EditorAction::NavBack, cfg, ui, hud);
        ui.dirty = true;
        hud.dirty = true;
        if ui.selection != sel_before {
            ui.navfocus = 0;
        }
        e
    } else {
        EditorEffect::NoEffect
    }
}

/// Drives the editor from the first gamepad (`pad`, when one is
/// connected). `focused` is the action of the sidebar item that has the
/// focus, and `rep` the host's hold-to-repeat timing for this frame.
pub fn editor_gamepad_nav(
    cfg: &mut QuickActionConfig,
    ui: &mut EditorUiState,
    hud: &mut WheelHudState,
    pad: Option<PadState>,
    focused: Option<EditorAction>,
    rep: HoldRepeat,
) -> (r: EditorEffect)
    requires
        gamepad_nav_ok(old(cfg)@, *old(hud), focused),
    ensures
        (final(cfg)@, final(ui)@, *final(hud), r) == gamepad_nav_outcome(
            old(cfg)@,
            old(ui)@,
            *old(hud),
            pad,
            focused,
            rep,
        ),
{
    if ui.capture_consumed || !hud.editor_open || ui.editing != EditFocus::Idle {
        ui.nav_hold_dir = 0;
        ui.nav_hold_timer = FloatBits(0);
        return EditorEffect::NoEffect;
    }
    let p = match pad {
        Some(p) => p,
        None => return EditorEffect::NoEffect,
    };
    let early = match hud.highlighted {
        None => toolbar_pad(cfg, ui, hud, &p),
        Some(id) => radial_pad(cfg, ui, hud, &p, id),
    };
    if let Some(e) = early {
        return e;
    }
    apply_hold(ui, &p, &rep);
    activate_focused(cfg, ui, hud, &p, focused)
}

// ─── toolbar shortcuts ────────────────────────────────────────────────────────

/// Whether gamepad button `b` was pressed on the first gamepad.
pub open spec fn pad_pressed(pad: Option<PadState>, b: GamepadButton) -> bool {
    match pad {
        Some(p) => just(p, b),
        None => false,
    }
}

/// The outcome of the toolbar shortcuts of one frame while the editor is
/// open and no field has the focus: Ctrl+S or LB saves, Ctrl+N or RB adds a
/// quick action to the active page, Ctrl+, or Select toggles the settings;
/// each also moves the toolbar focus to its button.
pub open spec fn toolbar_shortcut_outcome(
    c: ConfigView,
    u: EditorUiView,
    h: WheelHudState,
    i: FrameInput,
    pad: Option<PadState>,
) -> (ConfigView, EditorUiView, WheelHudState, EditorEffect) {
    if !h.editor_open || u.editing != EditFocus::Idle {
        (c, u, h, EditorEffect::NoEffect)
    } else {
        let ctrl = key_held(i, "ControlLeft"@) || key_held(i, "ControlRight"@);
        let save = (ctrl && key_pressed(i, "KeyS"@)) || pad_pressed(pad, GamepadButton::LeftTrigger);
        let add = (ctrl && key_pressed(i, "KeyN"@)) || pad_pressed(pad, GamepadButton::RightTrigger);
        let settings = (ctrl && key_pressed(i, "Comma"@)) || pad_pressed(pad, GamepadButton::Select);
        if save {
            (c, u, WheelHudState { edit_control_focus: Some(8), dirty: true, ..h }, EditorEffect::SaveConfig)
        } else if add {
            let (c1, u1, h1, e) = redrawn_step(EditorAction::AddAction { set: h.active_set }, c, u, h);
            (c1, u1, WheelHudState { edit_control_focus: Some(9), ..h1 }, e)
        } else if settings {
            (
                c,
                u,
                WheelHudState { settings_open: !h.settings_open, edit_control_focus: Some(10), dirty: true, ..h },
                EditorEffect::NoEffect,
            )
        } else {
            (c, u, h, EditorEffect::NoEffect)
        }
    }
}

fn pad_pressed_of(pad: &Option<PadState>, b: GamepadButton) -> (r: bool)
    ensures
        r == pad_pressed(*pad, b),
{
    match pad {
        Some(p) => pad_just(p, b),
        None => false,
    }
}

/// Saves, adds a quick action or toggles the settings on the toolbar
/// shortcuts.
pub fn editor_toolbar_shortcuts(
    cfg: &mut QuickActionConfig,
    ui: &mut EditorUiState,
    hud: &mut WheelHudState,
    input: &FrameInput,
    pad: &Option<PadState>,
) -> (r: EditorEffect)
    requires
        action_ok(EditorAction::AddAction { set: old(hud).active_set }, old(cfg)@),
    ensures
        (final(cfg)@, final(ui)@, *final(hud), r) == toolbar_shortcut_outcome(old(cfg)@, old(ui)@, *old(hud), *input, *pad),
{
    if !hud.editor_open || ui.editing != EditFocus::Idle {
        return EditorEffect::NoEffect;
    }
    let ctrl = key_among(&input.held, "ControlLeft") || key_among(&input.held, "ControlRight");
    let save = (ctrl && key_among(&input.just_pressed, "KeyS")) || pad_pressed_of(pad, GamepadButton::LeftTrigger);
    let add = (ctrl && key_among(&input.just_pressed, "KeyN")) || pad_pressed_of(pad, GamepadButton::RightTrigger);
    let settings = (ctrl && key_among(&input.just_pressed, "Comma")) || pad_pressed_of(pad, GamepadButton::Select);
    if save {
        hud.edit_control_focus = Some(8);
        hud.dirty = true;
        EditorEffect::SaveConfig
    } else if add {
        let e = redrawn_apply(EditorAction::AddAction { set: hud.active_set }, cfg, ui, hud);
        hud.edit_control_focus = Some(9);
        e
    } else if settings {
        hud.settings_open = !hud.settings_open;
        hud.edit_control_focus = Some(10);
        hud.dirty = true;
        EditorEffect::NoEffect
    } else {
        EditorEffect::NoEffect
    }
}

} // verus!
