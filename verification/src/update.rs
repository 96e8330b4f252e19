//! Edits addressed to a component of the configuration, and structural
//! edits of its pages and entries.
use crate::config::{default_action_view, FloatBits, QuickAction, F32_ONE};
use crate::edit::{
    action_edit_spec, apply_action_edit, apply_menu_edit, apply_page_edit, apply_switch_edit,
    apply_wheel_set_edit, menu_edit_spec, page_edit_spec, switch_edit_spec, wheel_set_edit_ok,
    wheel_set_edit_spec, ActionEdit, MenuEdit, PageEdit, SwitchEdit, WheelSetEdit,
};
use crate::model::{
    action_at, default_stick_binding, entries_view, get_action, get_menu, get_page,
    get_switch, get_wheel_set, menu_at, new_menu_view, open_mode_next, page_at, pages_view,
    put_entry, put_menu, put_page, switch_at, wheel_set_at, with_entry, with_menu, with_page,
    ActionSet, ActionSetView, ConfigView, HudSwitch, HudSwitchView, QuickActionConfig,
    RadialMenu, RadialMenuSet, RadialMenuSetView, SetEntry, SetEntryView, DEFAULT_MAX_WHEELS,
    DEFAULT_MIN_WHEELS, F32_DEFAULT_SWITCH_HEIGHT, F32_DEFAULT_SWITCH_WIDTH, NEW_MENU_SECTORS,
};
use crate::palette::{cycle_palette, cycle_palette_spec, Palette};
use crate::state::Selection;
use crate::text::decimal;
use vstd::prelude::*;

verus! {

// ─── addressed component edits ───────────────────────────────────────────────

/// The configuration after edit `e` of the action at `(set, entry)`; unchanged
/// when there is no action there.
pub open spec fn map_action(c: ConfigView, set: int, entry: int, e: ActionEdit) -> ConfigView {
    match action_at(c, set, entry) {
        Some(a) => with_entry(c, set, entry, SetEntryView::Action(action_edit_spec(a, e))),
        None => c,
    }
}

/// The configuration after edit `e` of the HUD switch at `(set, entry)`.
pub open spec fn map_switch(c: ConfigView, set: int, entry: int, e: SwitchEdit) -> ConfigView {
    match switch_at(c, set, entry) {
        Some(h) => with_entry(c, set, entry, SetEntryView::HudSwitch(switch_edit_spec(h, e))),
        None => c,
    }
}

/// The configuration after edit `e` of the radial menu set at `(set, entry)`.
pub open spec fn map_wheel_set(c: ConfigView, set: int, entry: int, e: WheelSetEdit) -> ConfigView {
    match wheel_set_at(c, set, entry) {
        Some(w) => with_entry(
            c,
            set,
            entry,
            SetEntryView::RadialMenuSet(wheel_set_edit_spec(w, e)),
        ),
        None => c,
    }
}

/// The configuration after the look of the selected radial menu is given to
/// every menu of its set (and its stick binding to the set): only a
/// selection of a menu of a radial menu set changes anything.
pub open spec fn sync_visuals_spec(c: ConfigView, sel: Selection) -> ConfigView {
    match sel {
        Selection::Wheel { set, entry, wheel: Some(i) } => map_wheel_set(c, set as int, entry as int, WheelSetEdit::SyncLook(i)),
        _ => c,
    }
}

/// Gives every menu of the selected radial menu's set that menu's look (see
/// [`sync_visuals_spec`]).
pub fn sync_wheelset_visuals(cfg: &mut QuickActionConfig, sel: Selection)
    ensures
        final(cfg)@ == sync_visuals_spec(old(cfg)@, sel),
{
    match sel {
        Selection::Wheel { set, entry, wheel: Some(i) } => edit_wheel_set(cfg, set, entry, WheelSetEdit::SyncLook(i)),
        _ => {},
    }
}

/// The configuration after edit `e` of page `set`.
pub open spec fn map_page(c: ConfigView, set: int, e: PageEdit) -> ConfigView {
    match page_at(c, set) {
        Some(p) => with_page(c, set, page_edit_spec(p, e)),
        None => c,
    }
}

/// The radial menu that selection `sel` addresses: the menu of a selected
/// wheel or of a selected sector, when the selection names one.
pub open spec fn selected_menu(sel: Selection) -> Option<(usize, usize, usize)> {
    match sel {
        Selection::Wheel { set, entry, wheel: Some(w) } => Some((set, entry, w)),
        Selection::Segment { set, entry, wheel: Some(w), .. } => Some((set, entry, w)),
        _ => None,
    }
}

/// The configuration after edit `e` of radial menu `(set, entry, wheel)`.
pub open spec fn map_menu_at(c: ConfigView, set: int, entry: int, wheel: int, e: MenuEdit) -> ConfigView {
    match menu_at(c, set, entry, wheel) {
        Some(m) => with_menu(c, set, entry, wheel, menu_edit_spec(m, e)),
        None => c,
    }
}

/// The configuration after edit `e` of the radial menu that `sel` addresses.
pub open spec fn map_menu(c: ConfigView, sel: Selection, e: MenuEdit) -> ConfigView {
    match selected_menu(sel) {
        Some((s, en, w)) => map_menu_at(c, s as int, en as int, w as int, e),
        None => c,
    }
}

/// Applies edit `e` to the action at `(set, entry)`, if there is one.
pub fn edit_action(cfg: &mut QuickActionConfig, set: usize, entry: usize, e: ActionEdit)
    ensures
        final(cfg)@ == map_action(old(cfg)@, set as int, entry as int, e),
{
    match get_action(cfg, set, entry) {
        Some(mut a) => {
            apply_action_edit(&mut a, e);
            put_entry(cfg, set, entry, SetEntry::Action(a));
        },
        None => {},
    }
}

/// Applies edit `e` to the HUD switch at `(set, entry)`, if there is one.
pub fn edit_switch(cfg: &mut QuickActionConfig, set: usize, entry: usize, e: SwitchEdit)
    ensures
        final(cfg)@ == map_switch(old(cfg)@, set as int, entry as int, e),
{
    match get_switch(cfg, set, entry) {
        Some(mut h) => {
            apply_switch_edit(&mut h, e);
            put_entry(cfg, set, entry, SetEntry::HudSwitch(h));
        },
        None => {},
    }
}

/// Applies edit `e` to the radial menu set at `(set, entry)`, if there is one.
pub fn edit_wheel_set(cfg: &mut QuickActionConfig, set: usize, entry: usize, e: WheelSetEdit)
    requires
        wheel_set_at(old(cfg)@, set as int, entry as int) is Some ==> wheel_set_edit_ok(
            wheel_set_at(old(cfg)@, set as int, entry as int)->0,
            e,
        ),
    ensures
        final(cfg)@ == map_wheel_set(old(cfg)@, set as int, entry as int, e),
{
    match get_wheel_set(cfg, set, entry) {
        Some(mut w) => {
            apply_wheel_set_edit(&mut w, e);
            put_entry(cfg, set, entry, SetEntry::RadialMenuSet(w));
        },
        None => {},
    }
}

/// Applies edit `e` to page `set`, if there is one.
pub fn edit_page(cfg: &mut QuickActionConfig, set: usize, e: PageEdit)
    ensures
        final(cfg)@ == map_page(old(cfg)@, set as int, e),
{
    match get_page(cfg, set) {
        Some(mut p) => {
            apply_page_edit(&mut p, e);
            put_page(cfg, set, p);
        },
        None => {},
    }
}

/// Applies edit `e` to radial menu `(set, entry, wheel)`, if there is one.
pub fn edit_menu_at(cfg: &mut QuickActionConfig, set: usize, entry: usize, wheel: usize, e: MenuEdit)
    ensures
        final(cfg)@ == map_menu_at(old(cfg)@, set as int, entry as int, wheel as int, e),
{
    match get_menu(cfg, set, entry, wheel) {
        Some(mut m) => {
            apply_menu_edit(&mut m, e);
            put_menu(cfg, set, entry, wheel, m);
        },
        None => {},
    }
}

/// The radial menu that `sel` addresses.
pub fn selected_menu_of(sel: Selection) -> (r: Option<(usize, usize, usize)>)
    ensures
        r == selected_menu(sel),
{
    match sel {
        Selection::Wheel { set, entry, wheel: Some(w) } => Some((set, entry, w)),
        Selection::Segment { set, entry, wheel: Some(w), .. } => Some((set, entry, w)),
        _ => None,
    }
}

/// Applies edit `e` to the radial menu that `sel` addresses, if any.
pub fn edit_menu(cfg: &mut QuickActionConfig, sel: Selection, e: MenuEdit)
    ensures
        final(cfg)@ == map_menu(old(cfg)@, sel, e),
{
    match selected_menu_of(sel) {
        Some((s, en, w)) => edit_menu_at(cfg, s, en, w, e),
        None => {},
    }
}

// ─── configuration-wide edits ────────────────────────────────────────────────

/// An edit of the configuration's own fields.
pub enum ConfigEdit {
    SetNextSetKey(String),
    SetPrevSetKey(String),
    SetEditShortcut(String),
    ClearNextSetKey,
    ClearPrevSetKey,
    ClearEditShortcut,
    ToggleShowSetBar,
    ToggleCycleSets,
    CycleHudOpenMode,
    SetHudBgOpacity(FloatBits),
    CycleHudBgColor,
}

/// The configuration after edit `e`.
pub open spec fn config_edit_spec(c: ConfigView, e: ConfigEdit) -> ConfigView {
    match e {
        ConfigEdit::SetNextSetKey(k) => ConfigView { next_set_key: k@, ..c },
        ConfigEdit::SetPrevSetKey(k) => ConfigView { prev_set_key: k@, ..c },
        ConfigEdit::SetEditShortcut(k) => ConfigView { edit_shortcut: k@, ..c },
        ConfigEdit::ClearNextSetKey => ConfigView { next_set_key: Seq::empty(), ..c },
        ConfigEdit::ClearPrevSetKey => ConfigView { prev_set_key: Seq::empty(), ..c },
        ConfigEdit::ClearEditShortcut => ConfigView { edit_shortcut: Seq::empty(), ..c },
        ConfigEdit::ToggleShowSetBar => ConfigView { show_set_bar: !c.show_set_bar, ..c },
        ConfigEdit::ToggleCycleSets => ConfigView { cycle_sets: !c.cycle_sets, ..c },
        ConfigEdit::CycleHudOpenMode => ConfigView {
            hud_open_mode: open_mode_next(c.hud_open_mode),
            ..c
        },
        ConfigEdit::SetHudBgOpacity(v) => ConfigView { hud_bg_opacity: v, ..c },
        ConfigEdit::CycleHudBgColor => ConfigView {
            hud_bg_color: cycle_palette_spec(Palette::HudBg, c.hud_bg_color),
            ..c
        },
    }
}

/// Applies edit `e` to the configuration's own fields.
pub fn apply_config_edit(cfg: &mut QuickActionConfig, e: ConfigEdit)
    ensures
        final(cfg)@ == config_edit_spec(old(cfg)@, e),
{
    match e {
        ConfigEdit::SetNextSetKey(k) => cfg.next_set_key = k,
        ConfigEdit::SetPrevSetKey(k) => cfg.prev_set_key = k,
        ConfigEdit::SetEditShortcut(k) => cfg.edit_shortcut = k,
        ConfigEdit::ClearNextSetKey => cfg.next_set_key = String::new(),
        ConfigEdit::ClearPrevSetKey => cfg.prev_set_key = String::new(),
        ConfigEdit::ClearEditShortcut => cfg.edit_shortcut = String::new(),
        ConfigEdit::ToggleShowSetBar => cfg.show_set_bar = !cfg.show_set_bar,
        ConfigEdit::ToggleCycleSets => cfg.cycle_sets = !cfg.cycle_sets,
        ConfigEdit::CycleHudOpenMode => cfg.hud_open_mode = cfg.hud_open_mode.next(),
        ConfigEdit::SetHudBgOpacity(v) => cfg.hud_bg_opacity = v,
        ConfigEdit::CycleHudBgColor => cfg.hud_bg_color = cycle_palette(
            Palette::HudBg,
            cfg.hud_bg_color.as_str(),
        ),
    }
}

// ─── structural edits ────────────────────────────────────────────────────────

/// An edit that adds, removes or reorders pages or entries.
#[derive(Clone, Copy, PartialEq, Eq, Structural, Debug)]
pub enum StructEdit {
    /// Appends a new page named `"Set {n}"`.
    AddPage,
    /// Removes page `set`, if it exists.
    RemovePage(usize),
    /// Appends a new action named `"Action {n}"` to page `set`.
    AddAction(usize),
    /// Appends a new radial menu set to page `set`.
    AddWheelSet(usize),
    /// Appends a new HUD switch targeting the page after `set` to page `set`.
    AddHudSwitch(usize),
    /// Removes entry `(set, entry)`, if it exists.
    RemoveEntry(usize, usize),
    /// Swaps entries `i` and `i + 1` of page `set`, if both exist.
    SwapEntries(usize, usize),
}

/// The page that `AddPage` appends as page number `n`.
pub open spec fn new_page_view(n: nat) -> ActionSetView {
    ActionSetView {
        name: "Set "@ + decimal(n),
        icon: Seq::empty(),
        enabled: true,
        opacity: FloatBits(F32_ONE),
        input_override: false,
        entries: Seq::empty(),
        bg_image: Seq::empty(),
        bg_image_opacity: FloatBits(F32_ONE),
        next_wheel_key: Seq::empty(),
        prev_wheel_key: Seq::empty(),
        cycle_wheels: false,
    }
}

/// The radial menu set that `AddWheelSet` appends.
pub open spec fn new_wheel_set_view() -> RadialMenuSetView {
    RadialMenuSetView {
        name: "New radial menu set"@,
        radial_menus: seq![new_menu_view("Radial menu 1"@, NEW_MENU_SECTORS as nat)],
        min_wheels: DEFAULT_MIN_WHEELS,
        max_wheels: DEFAULT_MAX_WHEELS,
        stick_binding: default_stick_binding(),
        switch_key: Seq::empty(),
        next_wheel_key: Seq::empty(),
        prev_wheel_key: Seq::empty(),
        cycle_wheels: false,
    }
}

/// The HUD switch that `AddHudSwitch` appends, targeting page `target`.
pub open spec fn new_switch_view(target: usize) -> HudSwitchView {
    HudSwitchView {
        name: "HUD Switch"@,
        key: Seq::empty(),
        enabled: true,
        target_page: target,
        width: FloatBits(F32_DEFAULT_SWITCH_WIDTH),
        height: FloatBits(F32_DEFAULT_SWITCH_HEIGHT),
    }
}

/// The configuration with `e` appended to the entries of page `set`, when
/// that page exists.
pub open spec fn push_entry(c: ConfigView, set: int, e: SetEntryView) -> ConfigView {
    match page_at(c, set) {
        Some(p) => with_page(c, set, ActionSetView { entries: p.entries.push(e), ..p }),
        None => c,
    }
}

/// Page a new HUD switch on page `set` targets: the next page, or the last.
pub open spec fn new_switch_target(c: ConfigView, set: int) -> usize {
    let last = if c.sets.len() == 0 {
        0
    } else {
        c.sets.len() - 1
    };
    if set + 1 < last {
        (set + 1) as usize
    } else {
        last as usize
    }
}

/// The configuration after structural edit `e`.
pub open spec fn struct_edit_spec(c: ConfigView, e: StructEdit) -> ConfigView {
    match e {
        StructEdit::AddPage => ConfigView {
            sets: c.sets.push(new_page_view((c.sets.len() + 1) as nat)),
            ..c
        },
        StructEdit::RemovePage(set) => if set < c.sets.len() {
            ConfigView { sets: c.sets.remove(set as int), ..c }
        } else {
            c
        },
        StructEdit::AddAction(set) => match page_at(c, set as int) {
            Some(p) => push_entry(
                c,
                set as int,
                SetEntryView::Action(
                    default_action_view("Action "@ + decimal((p.entries.len() + 1) as nat)),
                ),
            ),
            None => c,
        },
        StructEdit::AddWheelSet(set) => push_entry(
            c,
            set as int,
            SetEntryView::RadialMenuSet(new_wheel_set_view()),
        ),
        StructEdit::AddHudSwitch(set) => push_entry(
            c,
            set as int,
            SetEntryView::HudSwitch(new_switch_view(new_switch_target(c, set as int))),
        ),
        StructEdit::RemoveEntry(set, entry) => match page_at(c, set as int) {
            Some(p) => if entry < p.entries.len() {
                with_page(c, set as int, ActionSetView { entries: p.entries.remove(entry as int), ..p })
            } else {
                c
            },
            None => c,
        },
        StructEdit::SwapEntries(set, i) => match page_at(c, set as int) {
            Some(p) => if i + 1 < p.entries.len() {
                with_page(
                    c,
                    set as int,
                    ActionSetView {
                        entries: p.entries.update(i as int, p.entries[i + 1]).update(
                            i + 1,
                            p.entries[i as int],
                        ),
                        ..p
                    },
                )
            } else {
                c
            },
            None => c,
        },
    }
}

fn new_page(n: usize) -> (r: ActionSet)
    ensures
        r@ == new_page_view(n as nat),
{
    let mut name = String::from_str("Set ");
    let digits = crate::text::usize_to_decimal(n);
    name.append(digits.as_str());
    let r = ActionSet {
        name,
        icon: String::new(),
        enabled: true,
        opacity: FloatBits(F32_ONE),
        input_override: false,
        entries: Vec::new(),
        bg_image: String::new(),
        bg_image_opacity: FloatBits(F32_ONE),
        next_wheel_key: String::new(),
        prev_wheel_key: String::new(),
        cycle_wheels: false,
    };
    assert(entries_view(r.entries@) =~= Seq::empty());
    r
}

fn new_wheel_set() -> (r: RadialMenuSet)
    ensures
        r@ == new_wheel_set_view(),
{
    let mut menus: Vec<RadialMenu> = Vec::new();
    menus.push(RadialMenu::new(String::from_str("Radial menu 1"), NEW_MENU_SECTORS));
    let r = RadialMenuSet {
        name: String::from_str("New radial menu set"),
        radial_menus: menus,
        min_wheels: DEFAULT_MIN_WHEELS,
        max_wheels: DEFAULT_MAX_WHEELS,
        stick_binding: String::from_str("GP:LeftStick"),
        switch_key: String::new(),
        next_wheel_key: String::new(),
        prev_wheel_key: String::new(),
        cycle_wheels: false,
    };
    assert(crate::model::menus_view(r.radial_menus@) =~= new_wheel_set_view().radial_menus);
    r
}

fn new_switch(target: usize) -> (r: HudSwitch)
    ensures
        r@ == new_switch_view(target),
{
    HudSwitch {
        name: String::from_str("HUD Switch"),
        key: String::new(),
        enabled: true,
        target_page: target,
        width: FloatBits(F32_DEFAULT_SWITCH_WIDTH),
        height: FloatBits(F32_DEFAULT_SWITCH_HEIGHT),
    }
}

fn push_to_page(cfg: &mut QuickActionConfig, set: usize, e: SetEntry)
    ensures
        final(cfg)@ == push_entry(old(cfg)@, set as int, e@),
{
    match get_page(cfg, set) {
        Some(mut p) => {
            let ghost before = entries_view(p.entries@);
            let ghost ev = e@;
            p.entries.push(e);
            assert(entries_view(p.entries@) =~= before.push(ev));
            put_page(cfg, set, p);
        },
        None => {},
    }
}

/// Whether the counts that name a new page or action fit in a `usize`.
pub open spec fn struct_edit_ok(c: ConfigView, e: StructEdit) -> bool {
    match e {
        StructEdit::AddPage => c.sets.len() < usize::MAX,
        StructEdit::AddAction(set) => page_at(c, set as int) is Some ==> c.sets[set as int].entries.len()
            < usize::MAX,
        _ => true,
    }
}

/// Applies structural edit `e`.
pub fn apply_struct_edit(cfg: &mut QuickActionConfig, e: StructEdit)
    requires
        struct_edit_ok(old(cfg)@, e),
    ensures
        final(cfg)@ == struct_edit_spec(old(cfg)@, e),
{
    match e {
        StructEdit::AddPage => {
            let n = cfg.sets.len();
            let p = new_page(n + 1);
            let ghost before = pages_view(cfg.sets@);
            let ghost pv = p@;
            cfg.sets.push(p);
            assert(pages_view(cfg.sets@) =~= before.push(pv));
        },
        StructEdit::RemovePage(set) => {
            if set < cfg.sets.len() {
                let ghost before = pages_view(cfg.sets@);
                cfg.sets.remove(set);
                assert(pages_view(cfg.sets@) =~= before.remove(set as int));
            }
        },
        StructEdit::AddAction(set) => {
            if set < cfg.sets.len() {
                let n = cfg.sets[set].entries.len();
                let mut name = String::from_str("Action ");
                let digits = crate::text::usize_to_decimal(n + 1);
                name.append(digits.as_str());
                push_to_page(cfg, set, SetEntry::Action(QuickAction::named(name)));
            }
        },
        StructEdit::AddWheelSet(set) => {
            push_to_page(cfg, set, SetEntry::RadialMenuSet(new_wheel_set()));
        },
        StructEdit::AddHudSwitch(set) => {
            let len = cfg.sets.len();
            let last = if len == 0 {
                0
            } else {
                len - 1
            };
            let target = if set < last && set + 1 < last {
                set + 1
            } else {
                last
            };
            push_to_page(cfg, set, SetEntry::HudSwitch(new_switch(target)));
        },
        StructEdit::RemoveEntry(set, entry) => {
            match get_page(cfg, set) {
                Some(mut p) => {
                    if entry < p.entries.len() {
                        let ghost before = entries_view(p.entries@);
                        p.entries.remove(entry);
                        assert(entries_view(p.entries@) =~= before.remove(entry as int));
                        put_page(cfg, set, p);
                    }
                },
                None => {},
            }
        },
        StructEdit::SwapEntries(set, i) => {
            match get_page(cfg, set) {
                Some(mut p) => {
                    if i < p.entries.len() && i + 1 < p.entries.len() {
                        let ghost before = entries_view(p.entries@);
                        let first = p.entries[i].clone();
                        let second = p.entries[i + 1].clone();
                        p.entries.set(i, second);
                        p.entries.set(i + 1, first);
                        assert(entries_view(p.entries@) =~= before.update(
                            i as int,
                            before[i + 1],
                        ).update(i + 1, before[i as int]));
                        put_page(cfg, set, p);
                    }
                },
                None => {},
            }
        },
    }
}

} // verus!
