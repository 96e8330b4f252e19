//! Typing into the focused name field, and capturing key and gamepad
//! bindings into the focused binding field.
use crate::config::QuickActionView;
use crate::edit::{ActionEdit, MenuEdit, PageEdit, SlotEdit, WheelSetEdit};
use crate::input::{
    bindable_button_list, bindable_buttons, button_label, gamepad_btn_label, is_modifier,
    is_modifier_spec, key_label, key_label_spec, names_view, GamepadButton,
};
use crate::model::{
    action_at, menu_at, page_at, wheel_set_at, with_entry, with_menu, with_page, ActionSetView,
    ConfigView, QuickActionConfig, RadialMenuSetView, RadialMenuView, SectorView, SetEntryView,
};
use crate::state::{EditFocus, EditorUiState, EditorUiView, Selection, WheelHudState};
use crate::update::{
    apply_config_edit, edit_action, edit_menu_at, edit_page, edit_wheel_set,
    selected_menu, selected_menu_of, sync_visuals_spec, sync_wheelset_visuals, ConfigEdit,
};
use vstd::prelude::*;

verus! {

// ─── text fields ──────────────────────────────────────────────────────────────

/// A name-like field that text can be typed into.
#[derive(Clone, Copy, PartialEq, Eq, Structural, Debug)]
pub enum TextField {
    ActionName(usize, usize),
    PageName(usize),
    MenuName(usize, usize, usize),
    SlotName(usize, usize, usize, usize),
    SlotIcon(usize, usize, usize, usize),
    WheelSetName(usize, usize),
    PageBgImage(usize),
}

/// The field that edit focus `f` types into, given selection `s`.
pub open spec fn focused_field(f: EditFocus, s: Selection) -> Option<TextField> {
    match f {
        EditFocus::Name => match s {
            Selection::Action { set, entry } => Some(TextField::ActionName(set, entry)),
            _ => None,
        },
        EditFocus::SetName => match s {
            Selection::Page { set } => Some(TextField::PageName(set)),
            _ => None,
        },
        EditFocus::WheelName => match selected_menu(s) {
            Some((a, b, c)) => Some(TextField::MenuName(a, b, c)),
            None => None,
        },
        EditFocus::SlotName(i) => match selected_menu(s) {
            Some((a, b, c)) => Some(TextField::SlotName(a, b, c, i)),
            None => None,
        },
        EditFocus::SlotIcon(i) => match selected_menu(s) {
            Some((a, b, c)) => Some(TextField::SlotIcon(a, b, c, i)),
            None => None,
        },
        EditFocus::WheelSetName => match s {
            Selection::WheelSetEntry { set, entry } => Some(TextField::WheelSetName(set, entry)),
            _ => None,
        },
        EditFocus::SetBgImage(set) => Some(TextField::PageBgImage(set)),
        _ => None,
    }
}

/// The text of field `f`, if the field exists.
pub open spec fn field_text(c: ConfigView, f: TextField) -> Option<Seq<char>> {
    match f {
        TextField::ActionName(s, e) => match action_at(c, s as int, e as int) {
            Some(a) => Some(a.name),
            None => None,
        },
        TextField::PageName(s) => match page_at(c, s as int) {
            Some(p) => Some(p.name),
            None => None,
        },
        TextField::MenuName(s, e, w) => match menu_at(c, s as int, e as int, w as int) {
            Some(m) => Some(m.name),
            None => None,
        },
        TextField::SlotName(s, e, w, i) => match menu_at(c, s as int, e as int, w as int) {
            Some(m) => if i < m.slots.len() {
                Some(m.slots[i as int].name)
            } else {
                None
            },
            None => None,
        },
        TextField::SlotIcon(s, e, w, i) => match menu_at(c, s as int, e as int, w as int) {
            Some(m) => if i < m.slots.len() {
                Some(m.slots[i as int].icon)
            } else {
                None
            },
            None => None,
        },
        TextField::WheelSetName(s, e) => match wheel_set_at(c, s as int, e as int) {
            Some(w) => Some(w.name),
            None => None,
        },
        TextField::PageBgImage(s) => match page_at(c, s as int) {
            Some(p) => Some(p.bg_image),
            None => None,
        },
    }
}

/// The configuration with existing field `f` holding `t`.
pub open spec fn with_field_text(c: ConfigView, f: TextField, t: Seq<char>) -> ConfigView {
    match f {
        TextField::ActionName(s, e) => with_entry(
            c,
            s as int,
            e as int,
            SetEntryView::Action(QuickActionView { name: t, ..action_at(c, s as int, e as int)->0 }),
        ),
        TextField::PageName(s) => with_page(c, s as int, ActionSetView { name: t, ..c.sets[s as int] }),
        TextField::MenuName(s, e, w) => with_menu(
            c,
            s as int,
            e as int,
            w as int,
            RadialMenuView { name: t, ..menu_at(c, s as int, e as int, w as int)->0 },
        ),
        TextField::SlotName(s, e, w, i) => {
            let m = menu_at(c, s as int, e as int, w as int)->0;
            with_menu(
                c,
                s as int,
                e as int,
                w as int,
                RadialMenuView {
                    slots: m.slots.update(i as int, SectorView { name: t, ..m.slots[i as int] }),
                    ..m
                },
            )
        },
        TextField::SlotIcon(s, e, w, i) => {
            let m = menu_at(c, s as int, e as int, w as int)->0;
            with_menu(
                c,
                s as int,
                e as int,
                w as int,
                RadialMenuView {
                    slots: m.slots.update(i as int, SectorView { icon: t, ..m.slots[i as int] }),
                    ..m
                },
            )
        },
        TextField::WheelSetName(s, e) => with_entry(
            c,
            s as int,
            e as int,
            SetEntryView::RadialMenuSet(
                RadialMenuSetView { name: t, ..wheel_set_at(c, s as int, e as int)->0 },
            ),
        ),
        TextField::PageBgImage(s) => with_page(c, s as int, ActionSetView { bg_image: t, ..c.sets[s as int] }),
    }
}

/// The field that the edit focus types into.
pub fn focused_field_of(f: EditFocus, s: Selection) -> (r: Option<TextField>)
    ensures
        r == focused_field(f, s),
{
    match f {
        EditFocus::Name => match s {
            Selection::Action { set, entry } => Some(TextField::ActionName(set, entry)),
            _ => None,
        },
        EditFocus::SetName => match s {
            Selection::Page { set } => Some(TextField::PageName(set)),
            _ => None,
        },
        EditFocus::WheelName => match selected_menu_of(s) {
            Some((a, b, c)) => Some(TextField::MenuName(a, b, c)),
            None => None,
        },
        EditFocus::SlotName(i) => match selected_menu_of(s) {
            Some((a, b, c)) => Some(TextField::SlotName(a, b, c, i)),
            None => None,
        },
        EditFocus::SlotIcon(i) => match selected_menu_of(s) {
            Some((a, b, c)) => Some(TextField::SlotIcon(a, b, c, i)),
            None => None,
        },
        EditFocus::WheelSetName => match s {
            Selection::WheelSetEntry { set, entry } => Some(TextField::WheelSetName(set, entry)),
            _ => None,
        },
        EditFocus::SetBgImage(set) => Some(TextField::PageBgImage(set)),
        _ => None,
    }
}

/// The text of field `f`, if it exists.
pub fn read_field(cfg: &QuickActionConfig, f: TextField) -> (r: Option<String>)
    ensures
        r is Some <==> field_text(cfg@, f) is Some,
        r is Some ==> r->0@ == field_text(cfg@, f)->0,
{
    match f {
        TextField::ActionName(s, e) => match crate::model::get_action(cfg, s, e) {
            Some(a) => Some(a.name),
            None => None,
        },
        TextField::PageName(s) => if s < cfg.sets.len() {
            assert(cfg@.sets[s as int] == cfg.sets@[s as int]@);
            Some(cfg.sets[s].name.clone())
        } else {
            None
        },
        TextField::MenuName(s, e, w) => match crate::model::get_menu(cfg, s, e, w) {
            Some(m) => Some(m.name),
            None => None,
        },
        TextField::SlotName(s, e, w, i) => match crate::model::get_menu(cfg, s, e, w) {
            Some(m) => if i < m.slots.len() {
                assert(m@.slots[i as int] == m.slots@[i as int]@);
                Some(m.slots[i].name.clone())
            } else {
                None
            },
            None => None,
        },
        TextField::SlotIcon(s, e, w, i) => match crate::model::get_menu(cfg, s, e, w) {
            Some(m) => if i < m.slots.len() {
                assert(m@.slots[i as int] == m.slots@[i as int]@);
                Some(m.slots[i].icon.clone())
            } else {
                None
            },
            None => None,
        },
        TextField::WheelSetName(s, e) => match crate::model::get_wheel_set(cfg, s, e) {
            Some(w) => Some(w.name),
            None => None,
        },
        TextField::PageBgImage(s) => if s < cfg.sets.len() {
            assert(cfg@.sets[s as int] == cfg.sets@[s as int]@);
            Some(cfg.sets[s].bg_image.clone())
        } else {
            None
        },
    }
}

/// Stores `t` into existing field `f`.
pub fn write_field(cfg: &mut QuickActionConfig, f: TextField, t: String)
    requires
        field_text(old(cfg)@, f) is Some,
    ensures
        final(cfg)@ == with_field_text(old(cfg)@, f, t@),
{
    match f {
        TextField::ActionName(s, e) => edit_action(cfg, s, e, ActionEdit::Rename(t)),
        TextField::PageName(s) => edit_page(cfg, s, PageEdit::Rename(t)),
        TextField::MenuName(s, e, w) => edit_menu_at(cfg, s, e, w, MenuEdit::Rename(t)),
        TextField::SlotName(s, e, w, i) => edit_menu_at(
            cfg,
            s,
            e,
            w,
            MenuEdit::Slot(i, SlotEdit::Rename(t)),
        ),
        TextField::SlotIcon(s, e, w, i) => edit_menu_at(
            cfg,
            s,
            e,
            w,
            MenuEdit::Slot(i, SlotEdit::SetIcon(t)),
        ),
        TextField::WheelSetName(s, e) => edit_wheel_set(cfg, s, e, WheelSetEdit::Rename(t)),
        TextField::PageBgImage(s) => edit_page(cfg, s, PageEdit::SetBgImage(t)),
    }
}

// ─── typing ───────────────────────────────────────────────────────────────────

/// Longest name, in characters, that typing extends.
pub const MAX_NAME_CHARS: usize = 24;

/// A key press delivered to a focused text field.
pub enum TextKey {
    Enter,
    Escape,
    Backspace,
    Space,
    /// A key that produces text.
    Character(String),
    /// Any other key.
    Other,
}

/// Whether edit focus `f` is a text field that typing goes into.
pub open spec fn is_text_focus(f: EditFocus) -> bool {
    f is Name || f is SetName || f is WheelName || f is SlotName || f is SlotIcon
        || f is WheelSetName
}

/// Text `t` after key `k`: backspace removes the last character; space and
/// text keys append while `t` is shorter than 24 characters.
pub open spec fn type_key(t: Seq<char>, k: TextKey) -> Seq<char> {
    match k {
        TextKey::Backspace => if t.len() > 0 {
            t.drop_last()
        } else {
            t
        },
        TextKey::Space => if t.len() < MAX_NAME_CHARS {
            t.push(' ')
        } else {
            t
        },
        TextKey::Character(s) => if t.len() < MAX_NAME_CHARS {
            t + s@
        } else {
            t
        },
        _ => t,
    }
}

/// Text `t` after the first `n` keys.
pub open spec fn typed(t: Seq<char>, keys: Seq<TextKey>, n: int) -> Seq<char>
    decreases n,
{
    if n <= 0 {
        t
    } else {
        type_key(typed(t, keys, n - 1), keys[n - 1])
    }
}

/// Whether key `k` on text `t` counts as a change (`has_field`: the focused
/// field exists).
pub open spec fn key_changes(t: Seq<char>, k: TextKey, has_field: bool) -> bool {
    match k {
        TextKey::Enter | TextKey::Escape => true,
        TextKey::Backspace => has_field,
        TextKey::Space | TextKey::Character(_) => has_field && t.len() < MAX_NAME_CHARS,
        TextKey::Other => false,
    }
}

/// Whether any of the first `n` keys counts as a change.
pub open spec fn typing_changes(t: Seq<char>, keys: Seq<TextKey>, n: int, has_field: bool) -> bool
    decreases n,
{
    if n <= 0 {
        false
    } else {
        typing_changes(t, keys, n - 1, has_field) || key_changes(
            typed(t, keys, n - 1),
            keys[n - 1],
            has_field,
        )
    }
}

/// Whether any key ends the editing (Enter or Escape).
pub open spec fn typing_stops(keys: Seq<TextKey>) -> bool {
    exists|i: int| 0 <= i < keys.len() && (#[trigger] keys[i] is Enter || keys[i] is Escape)
}

/// The outcome of typing `keys` into the focused field.
///
/// Typing applies only while a name field has the focus. The field's text
/// takes each key in turn; Enter or Escape ends the editing; any change
/// (Enter and Escape count as one) gives the selected radial menu's look to
/// its set and marks the editor and the HUD for rebuilding.
pub open spec fn text_input_outcome(
    c: ConfigView,
    u: EditorUiView,
    h: WheelHudState,
    keys: Seq<TextKey>,
) -> (ConfigView, EditorUiView, WheelHudState) {
    if !is_text_focus(u.editing) {
        (c, u, h)
    } else {
        let f = focused_field(u.editing, u.selection);
        let has = f is Some && field_text(c, f->0) is Some;
        let t0 = if has {
            field_text(c, f->0)->0
        } else {
            Seq::empty()
        };
        let changed = typing_changes(t0, keys, keys.len() as int, has);
        let c1 = if has {
            with_field_text(c, f->0, typed(t0, keys, keys.len() as int))
        } else {
            c
        };
        let u1 = if typing_stops(keys) {
            EditorUiView { editing: EditFocus::Idle, ..u }
        } else {
            u
        };
        (
            if changed {
                sync_visuals_spec(c1, u.selection)
            } else {
                c1
            },
            if changed {
                EditorUiView { dirty: true, ..u1 }
            } else {
                u1
            },
            if changed {
                WheelHudState { dirty: true, ..h }
            } else {
                h
            },
        )
    }
}

fn is_text_focus_of(f: EditFocus) -> (r: bool)
    ensures
        r == is_text_focus(f),
{
    match f {
        EditFocus::Name
        | EditFocus::SetName
        | EditFocus::WheelName
        | EditFocus::SlotName(_)
        | EditFocus::SlotIcon(_)
        | EditFocus::WheelSetName => true,
        _ => false,
    }
}

/// Applies one key to `t`.
fn type_one(t: String, k: &TextKey) -> (r: String)
    ensures
        r@ == type_key(t@, *k),
{
    match k {
        TextKey::Backspace => {
            let n = t.unicode_len();
            if n > 0 {
                let s = t.as_str().substring_char(0, n - 1);
                let r = String::from_str(s);
                assert(r@ =~= t@.drop_last());
                r
            } else {
                t
            }
        },
        TextKey::Space => {
            if t.unicode_len() < MAX_NAME_CHARS {
                proof {
                    reveal_strlit(" ");
                }
                let mut r = t;
                r.append(" ");
                assert(r@ =~= t@.push(' '));
                r
            } else {
                t
            }
        },
        TextKey::Character(s) => {
            if t.unicode_len() < MAX_NAME_CHARS {
                let mut r = t;
                r.append(s.as_str());
                r
            } else {
                t
            }
        },
        _ => t,
    }
}

/// Types `keys` (presses only) into the focused name field.
#[verifier::spinoff_prover]
#[verifier::rlimit(60)]
pub fn editor_text_input(
    cfg: &mut QuickActionConfig,
    ui: &mut EditorUiState,
    hud: &mut WheelHudState,
    keys: &Vec<TextKey>,
)
    ensures
        (final(cfg)@, final(ui)@, *final(hud)) == text_input_outcome(old(cfg)@, old(ui)@, *old(hud), keys@),
{
    if !is_text_focus_of(ui.editing) {
        return;
    }
    let f = focused_field_of(ui.editing, ui.selection);
    let current = match f {
        Some(field) => read_field(cfg, field),
        None => None,
    };
    let has = current.is_some();
    let mut t = match current {
        Some(s) => s,
        None => String::new(),
    };
    let ghost t0 = t@;
    let mut changed = false;
    let mut stop = false;
    let n = keys.len();
    for i in 0..n
        invariant
            n == keys@.len(),
            t@ == typed(t0, keys@, i as int),
            changed == typing_changes(t0, keys@, i as int, has),
            stop == (exists|j: int| 0 <= j < i && (#[trigger] keys@[j] is Enter || keys@[j] is Escape)),
    {
        let k = &keys[i];
        let len = t.unicode_len();
        let this_changes = match k {
            TextKey::Enter | TextKey::Escape => true,
            TextKey::Backspace => has,
            TextKey::Space | TextKey::Character(_) => has && len < MAX_NAME_CHARS,
            TextKey::Other => false,
        };
        match k {
            TextKey::Enter | TextKey::Escape => {
                stop = true;
            },
            _ => {},
        }
        changed = changed || this_changes;
        t = type_one(t, k);
        proof {
            if !stop {
                assert(!(keys@[i as int] is Enter || keys@[i as int] is Escape));
            }
        }
    }
    if has {
        write_field(cfg, f.unwrap(), t);
    }
    let ghost typed_cfg = cfg@;
    if stop {
        ui.editing = EditFocus::Idle;
    }
    if changed {
        sync_wheelset_visuals(cfg, ui.selection);
        assert(cfg@ == sync_visuals_spec(typed_cfg, old(ui)@.selection));
        ui.dirty = true;
        hud.dirty = true;
    }
}

// ─── binding capture ──────────────────────────────────────────────────────────

/// The configuration with radial menu set `(set, entry)` replaced by
/// `f` of it, when it exists.
pub open spec fn update_wheel_set(
    c: ConfigView,
    set: usize,
    entry: usize,
    f: spec_fn(RadialMenuSetView) -> RadialMenuSetView,
) -> ConfigView {
    match wheel_set_at(c, set as int, entry as int) {
        Some(w) => with_entry(c, set as int, entry as int, SetEntryView::RadialMenuSet(f(w))),
        None => c,
    }
}

/// The configuration with binding `b` stored in the field that focus `f`
/// captures for, given selection `s`.
pub open spec fn store_binding(c: ConfigView, f: EditFocus, s: Selection, b: Seq<char>) -> ConfigView {
    match f {
        EditFocus::Key | EditFocus::ButtonKey => match s {
            Selection::Action { set, entry } => match action_at(c, set as int, entry as int) {
                Some(a) => with_entry(
                    c,
                    set as int,
                    entry as int,
                    SetEntryView::Action(QuickActionView { key: b, ..a }),
                ),
                None => c,
            },
            _ => c,
        },
        EditFocus::WheelSetSwitchKey => match s {
            Selection::WheelSetEntry { set, entry } => update_wheel_set(
                c,
                set,
                entry,
                |w: RadialMenuSetView| RadialMenuSetView { switch_key: b, ..w },
            ),
            _ => c,
        },
        EditFocus::NextSetKey => ConfigView { next_set_key: b, ..c },
        EditFocus::PrevSetKey => ConfigView { prev_set_key: b, ..c },
        EditFocus::EditShortcut => ConfigView { edit_shortcut: b, ..c },
        EditFocus::NextWheelKey(set) => match page_at(c, set as int) {
            Some(p) => with_page(c, set as int, ActionSetView { next_wheel_key: b, ..p }),
            None => c,
        },
        EditFocus::PrevWheelKey(set) => match page_at(c, set as int) {
            Some(p) => with_page(c, set as int, ActionSetView { prev_wheel_key: b, ..p }),
            None => c,
        },
        EditFocus::WheelSetNextKey { set, entry } => update_wheel_set(
            c,
            set,
            entry,
            |w: RadialMenuSetView| RadialMenuSetView { next_wheel_key: b, ..w },
        ),
        EditFocus::WheelSetPrevKey { set, entry } => update_wheel_set(
            c,
            set,
            entry,
            |w: RadialMenuSetView| RadialMenuSetView { prev_wheel_key: b, ..w },
        ),
        _ => c,
    }
}

/// Stores binding `b` in the field that focus `f` captures for.
pub fn store_binding_exec(cfg: &mut QuickActionConfig, f: EditFocus, s: Selection, b: String)
    ensures
        final(cfg)@ == store_binding(old(cfg)@, f, s, b@),
{
    match f {
        EditFocus::Key | EditFocus::ButtonKey => match s {
            Selection::Action { set, entry } => edit_action(cfg, set, entry, ActionEdit::SetKey(b)),
            _ => {},
        },
        EditFocus::WheelSetSwitchKey => match s {
            Selection::WheelSetEntry { set, entry } => edit_wheel_set(
                cfg,
                set,
                entry,
                WheelSetEdit::SetSwitchKey(b),
            ),
            _ => {},
        },
        EditFocus::NextSetKey => apply_config_edit(cfg, ConfigEdit::SetNextSetKey(b)),
        EditFocus::PrevSetKey => apply_config_edit(cfg, ConfigEdit::SetPrevSetKey(b)),
        EditFocus::EditShortcut => apply_config_edit(cfg, ConfigEdit::SetEditShortcut(b)),
        EditFocus::NextWheelKey(set) => edit_page(cfg, set, PageEdit::SetNextWheelKey(b)),
        EditFocus::PrevWheelKey(set) => edit_page(cfg, set, PageEdit::SetPrevWheelKey(b)),
        EditFocus::WheelSetNextKey { set, entry } => edit_wheel_set(
            cfg,
            set,
            entry,
            WheelSetEdit::SetNextKey(b),
        ),
        EditFocus::WheelSetPrevKey { set, entry } => edit_wheel_set(
            cfg,
            set,
            entry,
            WheelSetEdit::SetPrevKey(b),
        ),
        _ => {},
    }
}

/// Whether keyboard capture is active for edit focus `f`.
pub open spec fn is_key_capture_focus(f: EditFocus) -> bool {
    f is Key || f is ButtonKey || f is NextSetKey || f is PrevSetKey || f is WheelSetSwitchKey || f is EditShortcut
        || f is NextWheelKey || f is PrevWheelKey || f is WheelSetNextKey || f is WheelSetPrevKey
}

/// Index of the first key that is not a modifier, at or after `from`, or the
/// number of keys when there is none.
pub open spec fn first_non_modifier(keys: Seq<Seq<char>>, from: int) -> int
    decreases keys.len() - from,
{
    if from < 0 || from >= keys.len() {
        keys.len() as int
    } else if !is_modifier_spec(keys[from]) {
        from
    } else {
        first_non_modifier(keys, from + 1)
    }
}

/// The outcome of the keys just pressed (debug names, in order) while a
/// binding field has the focus.
///
/// The first key that is not a modifier ends the capture: Escape leaves the
/// binding as it was, any other key stores its label. Either way the key is
/// consumed for this frame and the focus is cleared.
pub open spec fn key_capture_outcome(c: ConfigView, u: EditorUiView, keys: Seq<Seq<char>>) -> (
    ConfigView,
    EditorUiView,
) {
    let u0 = EditorUiView { capture_consumed: false, ..u };
    if !is_key_capture_focus(u.editing) {
        (c, u0)
    } else {
        let i = first_non_modifier(keys, 0);
        if i >= keys.len() {
            (c, u0)
        } else {
            (
                if keys[i] == "Escape"@ {
                    c
                } else {
                    store_binding(c, u.editing, u.selection, key_label_spec(keys[i]))
                },
                EditorUiView {
                    capture_consumed: true,
                    editing: EditFocus::Idle,
                    dirty: true,
                    ..u0
                },
            )
        }
    }
}

fn is_key_capture_focus_of(f: EditFocus) -> (r: bool)
    ensures
        r == is_key_capture_focus(f),
{
    match f {
        EditFocus::Key
        | EditFocus::ButtonKey
        | EditFocus::NextSetKey
        | EditFocus::PrevSetKey
        | EditFocus::WheelSetSwitchKey
        | EditFocus::EditShortcut
        | EditFocus::NextWheelKey(_)
        | EditFocus::PrevWheelKey(_)
        | EditFocus::WheelSetNextKey { .. }
        | EditFocus::WheelSetPrevKey { .. } => true,
        _ => false,
    }
}

proof fn lemma_first_non_modifier(keys: Seq<Seq<char>>, from: int)
    requires
        0 <= from <= keys.len(),
    ensures
        from <= first_non_modifier(keys, from) <= keys.len(),
        first_non_modifier(keys, from) < keys.len() ==> !is_modifier_spec(
            keys[first_non_modifier(keys, from)],
        ),
        forall|j: int| from <= j < first_non_modifier(keys, from) ==> is_modifier_spec(keys[j]),
    decreases keys.len() - from,
{
    if from < keys.len() && is_modifier_spec(keys[from]) {
        lemma_first_non_modifier(keys, from + 1);
    }
}

/// Captures a keyboard binding into the focused binding field.
pub fn editor_capture_key(cfg: &mut QuickActionConfig, ui: &mut EditorUiState, keys: &Vec<String>)
    ensures
        (final(cfg)@, final(ui)@) == key_capture_outcome(old(cfg)@, old(ui)@, names_view(keys@)),
{
    ui.capture_consumed = false;
    let focus = ui.editing;
    if !is_key_capture_focus_of(focus) {
        return;
    }
    let ghost ks = names_view(keys@);
    proof {
        lemma_first_non_modifier(ks, 0);
    }
    let n = keys.len();
    let mut i: usize = 0;
    while i < n
        invariant
            n == keys@.len(),
            ks == names_view(keys@),
            ks.len() == n,
            i <= n,
            i <= first_non_modifier(ks, 0) <= n,
            first_non_modifier(ks, 0) < n ==> !is_modifier_spec(ks[first_non_modifier(ks, 0)]),
            forall|j: int| 0 <= j < i ==> is_modifier_spec(#[trigger] ks[j]),
            cfg@ == old(cfg)@,
            ui@ == (EditorUiView { capture_consumed: false, ..old(ui)@ }),
            focus == old(ui)@.editing,
            is_key_capture_focus(focus),
        decreases n - i,
    {
        assert(ks[i as int] == keys@[i as int]@);
        if !is_modifier(keys[i].as_str()) {
            assert(first_non_modifier(ks, 0) == i) by {
                lemma_first_non_modifier(ks, 0);
                if first_non_modifier(ks, 0) > i {
                    assert(is_modifier_spec(ks[i as int]));
                }
            }
            proof {
                reveal_strlit("Escape");
            }
            if !crate::text::str_eq(keys[i].as_str(), "Escape") {
                let label = key_label(keys[i].as_str());
                store_binding_exec(cfg, focus, ui.selection, label);
            }
            ui.capture_consumed = true;
            ui.editing = EditFocus::Idle;
            ui.dirty = true;
            return;
        }
        i = i + 1;
    }
    proof {
        lemma_first_non_modifier(ks, 0);
        if first_non_modifier(ks, 0) < n {
            assert(!is_modifier_spec(ks[first_non_modifier(ks, 0)]));
        }
    }
}

// ─── gamepad capture ──────────────────────────────────────────────────────────

/// Which analog stick was pushed past the capture threshold.
#[derive(Clone, Copy, PartialEq, Eq, Structural, Debug)]
pub enum StickSide {
    Left,
    Right,
}

/// The binding stored for a stick.
pub open spec fn stick_binding_text(s: StickSide) -> Seq<char> {
    match s {
        StickSide::Left => "GP:LeftStick"@,
        StickSide::Right => "GP:RightStick"@,
    }
}

fn stick_binding_string(s: StickSide) -> (r: String)
    ensures
        r@ == stick_binding_text(s),
{
    proof {
        reveal_strlit("GP:LeftStick");
        reveal_strlit("GP:RightStick");
    }
    match s {
        StickSide::Left => String::from_str("GP:LeftStick"),
        StickSide::Right => String::from_str("GP:RightStick"),
    }
}

/// One gamepad's input for this frame: the buttons just pressed, and the
/// stick pushed past the capture threshold (the host decides which stick,
/// preferring the left one when both are pushed equally).
pub struct PadInput {
    pub just_pressed: Vec<GamepadButton>,
    pub stick: Option<StickSide>,
}

/// Whether gamepad capture is active for edit focus `f`.
pub open spec fn is_pad_capture_focus(f: EditFocus) -> bool {
    f is Key || f is ButtonKey || f is NextSetKey || f is PrevSetKey || f is EditShortcut
        || f is WheelSetSwitchKey || f is WheelSetStick || f is WheelStick || f is NextWheelKey
        || f is PrevWheelKey
}

/// Index in [`bindable_buttons`] of the first bindable button in `pressed`,
/// at or after `from`, or 16 when there is none.
pub open spec fn first_bindable(pressed: Seq<GamepadButton>, from: int) -> int
    decreases 16 - from,
{
    if from < 0 || from >= 16 {
        16
    } else if pressed.contains(bindable_buttons()[from]) {
        from
    } else {
        first_bindable(pressed, from + 1)
    }
}

/// Index of the first gamepad, at or after `from`, that pressed a bindable
/// button, or the number of gamepads.
pub open spec fn first_pad_pressing(pads: Seq<PadInput>, from: int) -> int
    decreases pads.len() - from,
{
    if from < 0 || from >= pads.len() {
        pads.len() as int
    } else if first_bindable(pads[from].just_pressed@, 0) < 16 {
        from
    } else {
        first_pad_pressing(pads, from + 1)
    }
}

/// Index of the first gamepad, at or after `from`, whose stick was pushed,
/// or the number of gamepads.
pub open spec fn first_pad_stick(pads: Seq<PadInput>, from: int) -> int
    decreases pads.len() - from,
{
    if from < 0 || from >= pads.len() {
        pads.len() as int
    } else if pads[from].stick is Some {
        from
    } else {
        first_pad_stick(pads, from + 1)
    }
}

/// The configuration with stick binding `b` captured for focus `f`: for a
/// radial menu's stick, the selected menu takes `b`, then (while a menu of a
/// set is selected) its look goes to every menu of the set.
pub open spec fn store_stick(c: ConfigView, f: EditFocus, s: Selection, b: Seq<char>) -> ConfigView {
    if f is WheelStick {
        sync_visuals_spec(store_menu_stick(c, s, b), s)
    } else {
        store_set_stick(c, s, b)
    }
}

/// The configuration with the selected radial menu bound to stick `b`.
pub open spec fn store_menu_stick(c: ConfigView, s: Selection, b: Seq<char>) -> ConfigView {
    match selected_menu(s) {
        Some((set, entry, w)) => match menu_at(c, set as int, entry as int, w as int) {
            Some(m) => with_menu(
                c,
                set as int,
                entry as int,
                w as int,
                RadialMenuView { stick_binding: b, ..m },
            ),
            None => c,
        },
        None => c,
    }
}

/// The configuration with the selected radial menu set, and all its menus,
/// bound to stick `b`.
pub open spec fn store_set_stick(c: ConfigView, s: Selection, b: Seq<char>) -> ConfigView {
    match s {
        Selection::WheelSetEntry { set, entry } => update_wheel_set(
            c,
            set,
            entry,
            |w: RadialMenuSetView|
                RadialMenuSetView {
                    stick_binding: b,
                    radial_menus: crate::edit::bind_all(w.radial_menus, b),
                    ..w
                },
        ),
        _ => c,
    }
}

/// The outcome of one frame of gamepad input while a binding field has the
/// focus.
///
/// The frame right after the capture began is skipped. A stick binding takes
/// only stick movement, from the first gamepad that reports one; any other
/// binding takes the first bindable button pressed, checking gamepads in
/// order and buttons in the order of [`bindable_buttons`], stored as
/// `"GP:{label}"`.
pub open spec fn pad_capture_outcome(c: ConfigView, u: EditorUiView, h: WheelHudState, pads: Seq<PadInput>) -> (
    ConfigView,
    EditorUiView,
    WheelHudState,
) {
    let f = u.editing;
    if !is_pad_capture_focus(f) {
        (c, u, h)
    } else if u.capture_skip {
        (c, EditorUiView { capture_skip: false, ..u }, h)
    } else if f is WheelStick || f is WheelSetStick {
        let p = first_pad_stick(pads, 0);
        if p >= pads.len() {
            (c, u, h)
        } else {
            (
                store_stick(c, f, u.selection, stick_binding_text(pads[p].stick->0)),
                EditorUiView {
                    editing: EditFocus::Idle,
                    capture_consumed: true,
                    dirty: true,
                    ..u
                },
                WheelHudState { dirty: true, ..h },
            )
        }
    } else {
        let p = first_pad_pressing(pads, 0);
        if p >= pads.len() {
            (c, u, h)
        } else {
            let b = bindable_buttons()[first_bindable(pads[p].just_pressed@, 0)];
            (
                store_binding(c, f, u.selection, "GP:"@ + button_label(b)),
                EditorUiView {
                    editing: EditFocus::Idle,
                    capture_consumed: true,
                    dirty: true,
                    ..u
                },
                h,
            )
        }
    }
}

fn is_pad_capture_focus_of(f: EditFocus) -> (r: bool)
    ensures
        r == is_pad_capture_focus(f),
{
    match f {
        EditFocus::Key
        | EditFocus::ButtonKey
        | EditFocus::NextSetKey
        | EditFocus::PrevSetKey
        | EditFocus::EditShortcut
        | EditFocus::WheelSetSwitchKey
        | EditFocus::WheelSetStick
        | EditFocus::WheelStick
        | EditFocus::NextWheelKey(_)
        | EditFocus::PrevWheelKey(_) => true,
        _ => false,
    }
}

proof fn lemma_first_bindable(pressed: Seq<GamepadButton>, from: int)
    requires
        0 <= from <= 16,
    ensures
        from <= first_bindable(pressed, from) <= 16,
        first_bindable(pressed, from) < 16 ==> pressed.contains(
            bindable_buttons()[first_bindable(pressed, from)],
        ),
        forall|j: int| from <= j < first_bindable(pressed, from) ==> !pressed.contains(bindable_buttons()[j]),
    decreases 16 - from,
{
    if from < 16 && !pressed.contains(bindable_buttons()[from]) {
        lemma_first_bindable(pressed, from + 1);
    }
}

proof fn lemma_first_pad_pressing(pads: Seq<PadInput>, from: int)
    requires
        0 <= from <= pads.len(),
    ensures
        from <= first_pad_pressing(pads, from) <= pads.len(),
        first_pad_pressing(pads, from) < pads.len() ==> first_bindable(
            pads[first_pad_pressing(pads, from)].just_pressed@,
            0,
        ) < 16,
        forall|j: int|
            from <= j < first_pad_pressing(pads, from) ==> first_bindable(pads[j].just_pressed@, 0)
                >= 16,
    decreases pads.len() - from,
{
    if from < pads.len() && first_bindable(pads[from].just_pressed@, 0) >= 16 {
        lemma_first_pad_pressing(pads, from + 1);
    }
}

proof fn lemma_first_pad_stick(pads: Seq<PadInput>, from: int)
    requires
        0 <= from <= pads.len(),
    ensures
        from <= first_pad_stick(pads, from) <= pads.len(),
        first_pad_stick(pads, from) < pads.len() ==> pads[first_pad_stick(pads, from)].stick is Some,
        forall|j: int| from <= j < first_pad_stick(pads, from) ==> pads[j].stick is None,
    decreases pads.len() - from,
{
    if from < pads.len() && pads[from].stick is None {
        lemma_first_pad_stick(pads, from + 1);
    }
}

/// Index of the first bindable button among `pressed`, or 16.
fn first_bindable_of(pressed: &Vec<GamepadButton>) -> (r: usize)
    ensures
        r == first_bindable(pressed@, 0),
{
    let all = bindable_button_list();
    proof {
        lemma_first_bindable(pressed@, 0);
    }
    let mut j: usize = 0;
    while j < 16
        invariant
            all@ == bindable_buttons(),
            j <= 16,
            j <= first_bindable(pressed@, 0) <= 16,
            first_bindable(pressed@, 0) < 16 ==> pressed@.contains(
                bindable_buttons()[first_bindable(pressed@, 0)],
            ),
            forall|q: int| 0 <= q < j ==> !pressed@.contains(#[trigger] bindable_buttons()[q]),
        decreases 16 - j,
    {
        let b = all[j];
        let mut k: usize = 0;
        let mut hit = false;
        while k < pressed.len() && !hit
            invariant
                k <= pressed@.len(),
                hit ==> pressed@.contains(b),
                !hit ==> forall|q: int| 0 <= q < k ==> pressed@[q] != b,
            decreases pressed.len() - k,
        {
            if pressed[k] == b {
                hit = true;
            }
            k = k + 1;
        }
        if hit {
            proof {
                lemma_first_bindable(pressed@, 0);
                if first_bindable(pressed@, 0) > j {
                    assert(!pressed@.contains(bindable_buttons()[j as int]));
                }
            }
            return j;
        }
        assert(!pressed@.contains(bindable_buttons()[j as int]));
        j = j + 1;
    }
    16
}

/// Captures a gamepad binding into the focused binding field.
pub fn editor_capture_gamepad(
    cfg: &mut QuickActionConfig,
    ui: &mut EditorUiState,
    hud: &mut WheelHudState,
    pads: &Vec<PadInput>,
)
    ensures
        (final(cfg)@, final(ui)@, *final(hud)) == pad_capture_outcome(old(cfg)@, old(ui)@, *old(hud), pads@),
{
    let focus = ui.editing;
    if !is_pad_capture_focus_of(focus) {
        return;
    }
    if ui.capture_skip {
        ui.capture_skip = false;
        return;
    }
    let n = pads.len();
    match focus {
        EditFocus::WheelStick | EditFocus::WheelSetStick => {
            proof {
                lemma_first_pad_stick(pads@, 0);
            }
            let mut p: usize = 0;
            while p < n
                invariant
                    n == pads@.len(),
                    p <= n,
                    p <= first_pad_stick(pads@, 0) <= n,
                    first_pad_stick(pads@, 0) < n ==> pads@[first_pad_stick(pads@, 0)].stick is Some,
                    cfg@ == old(cfg)@,
                    ui@ == old(ui)@,
                    *hud == *old(hud),
                    focus == old(ui)@.editing,
                    focus is WheelStick || focus is WheelSetStick,
                    !old(ui)@.capture_skip,
                    forall|j: int| 0 <= j < p ==> (#[trigger] pads@[j]).stick is None,
                decreases n - p,
            {
                match pads[p].stick {
                    Some(side) => {
                        assert(first_pad_stick(pads@, 0) == p) by {
                            lemma_first_pad_stick(pads@, 0);
                            if first_pad_stick(pads@, 0) > p {
                                assert(pads@[p as int].stick is None);
                            }
                        }
                        let b = stick_binding_string(side);
                        let ghost b0 = b@;
                        assert(b0 == stick_binding_text(pads@[first_pad_stick(pads@, 0)].stick->0));
                        if focus == EditFocus::WheelStick {
                            match selected_menu_of(ui.selection) {
                                Some((set, entry, w)) => edit_menu_at(
                                    cfg,
                                    set,
                                    entry,
                                    w,
                                    MenuEdit::SetStickBinding(b),
                                ),
                                None => {},
                            }
                            assert(cfg@ == store_menu_stick(old(cfg)@, old(ui)@.selection, b0));
                            sync_wheelset_visuals(cfg, ui.selection);
                            assert(cfg@ == store_stick(old(cfg)@, focus, old(ui)@.selection, b0));
                        } else {
                            match ui.selection {
                                Selection::WheelSetEntry { set, entry } => {
                                    edit_wheel_set(cfg, set, entry, WheelSetEdit::SetStick(b));
                                },
                                _ => {},
                            }
                            assert(cfg@ == store_stick(old(cfg)@, focus, old(ui)@.selection, b0));
                        }
                        ui.editing = EditFocus::Idle;
                        ui.capture_consumed = true;
                        ui.dirty = true;
                        hud.dirty = true;
                        return;
                    },
                    None => {},
                }
                p = p + 1;
            }
        },
        _ => {
            proof {
                lemma_first_pad_pressing(pads@, 0);
            }
            let mut p: usize = 0;
            while p < n
                invariant
                    n == pads@.len(),
                    p <= n,
                    p <= first_pad_pressing(pads@, 0) <= n,
                    first_pad_pressing(pads@, 0) < n ==> first_bindable(
                        pads@[first_pad_pressing(pads@, 0)].just_pressed@,
                        0,
                    ) < 16,
                    cfg@ == old(cfg)@,
                    ui@ == old(ui)@,
                    *hud == *old(hud),
                    focus == old(ui)@.editing,
                    is_pad_capture_focus(focus),
                    !(focus is WheelStick || focus is WheelSetStick),
                    !old(ui)@.capture_skip,
                    forall|j: int| 0 <= j < p ==> first_bindable((#[trigger] pads@[j]).just_pressed@, 0) >= 16,
                decreases n - p,
            {
                let j = first_bindable_of(&pads[p].just_pressed);
                if j < 16 {
                    assert(first_pad_pressing(pads@, 0) == p) by {
                        lemma_first_pad_pressing(pads@, 0);
                        if first_pad_pressing(pads@, 0) > p {
                            assert(first_bindable(pads@[p as int].just_pressed@, 0) >= 16);
                        }
                    }
                    let all = bindable_button_list();
                    let label = gamepad_btn_label(all[j]);
                    proof {
                        reveal_strlit("GP:");
                    }
                    let mut b = String::from_str("GP:");
                    b.append(label.as_str());
                    store_binding_exec(cfg, focus, ui.selection, b);
                    ui.editing = EditFocus::Idle;
                    ui.capture_consumed = true;
                    ui.dirty = true;
                    return;
                }
                p = p + 1;
            }
        },
    }
}

} // verus!

