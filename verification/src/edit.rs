//! Field-level edits of one configuration component, and their effect.
use crate::config::{
    position_next, shape_next, FloatBits, QuickAction, QuickActionView,
};
use crate::model::{
    clone_sectors, default_stick_binding, menus_view, new_menu_view, sectors_view, ActionSet, ActionSetView,
    HudSwitch, HudSwitchView, RadialMenu, RadialMenuSet, RadialMenuSetView, RadialMenuView,
    Sector, SectorView, WheelTheme, MAX_WHEELS_LIMIT, NEW_MENU_SECTORS,
};
use crate::palette::{cycle_palette, cycle_palette_spec, Palette};
use vstd::prelude::*;

verus! {

// ─── quick action ─────────────────────────────────────────────────────────────

/// An edit of one field of a quick action.
pub enum ActionEdit {
    Rename(String),
    SetKey(String),
    ClearKey,
    ToggleHold,
    ToggleShowOnMenu,
    ToggleLabels,
    ToggleIcons,
    ToggleEnabled,
    ToggleCloseOnSelect,
    CyclePosition,
    CycleShape,
    CycleIcon,
    CycleCommand,
    CycleHoldCommand,
    SetCooldown(FloatBits),
    SetOpacity(FloatBits),
    SetRadius(FloatBits),
    SetWidth(FloatBits),
    SetHeight(FloatBits),
    SetRotation(FloatBits),
    SetOffset(FloatBits, FloatBits),
}

/// The quick action after edit `e`.
pub open spec fn action_edit_spec(a: QuickActionView, e: ActionEdit) -> QuickActionView {
    match e {
        ActionEdit::Rename(s) => QuickActionView { name: s@, ..a },
        ActionEdit::SetKey(s) => QuickActionView { key: s@, ..a },
        ActionEdit::ClearKey => QuickActionView { key: Seq::empty(), ..a },
        ActionEdit::ToggleHold => QuickActionView { hold: !a.hold, ..a },
        ActionEdit::ToggleShowOnMenu => QuickActionView { show_on_menu: !a.show_on_menu, ..a },
        ActionEdit::ToggleLabels => QuickActionView { show_labels: !a.show_labels, ..a },
        ActionEdit::ToggleIcons => QuickActionView { show_icon: !a.show_icon, ..a },
        ActionEdit::ToggleEnabled => QuickActionView { enabled: !a.enabled, ..a },
        ActionEdit::ToggleCloseOnSelect => QuickActionView {
            close_on_select: !a.close_on_select,
            ..a
        },
        ActionEdit::CyclePosition => QuickActionView { position: position_next(a.position), ..a },
        ActionEdit::CycleShape => QuickActionView { shape: shape_next(a.shape), ..a },
        ActionEdit::CycleIcon => QuickActionView {
            icon: cycle_palette_spec(Palette::Icons, a.icon),
            ..a
        },
        ActionEdit::CycleCommand => QuickActionView {
            command: cycle_palette_spec(Palette::Commands, a.command),
            ..a
        },
        ActionEdit::CycleHoldCommand => QuickActionView {
            hold_command: cycle_palette_spec(Palette::Commands, a.hold_command),
            ..a
        },
        ActionEdit::SetCooldown(v) => QuickActionView { cooldown_secs: v, ..a },
        ActionEdit::SetOpacity(v) => QuickActionView { opacity: v, ..a },
        ActionEdit::SetRadius(v) => QuickActionView { radius: v, ..a },
        ActionEdit::SetWidth(v) => QuickActionView { width: v, ..a },
        ActionEdit::SetHeight(v) => QuickActionView { height: v, ..a },
        ActionEdit::SetRotation(v) => QuickActionView { rotation: v, ..a },
        ActionEdit::SetOffset(x, y) => QuickActionView { offset_x: x, offset_y: y, ..a },
    }
}

/// Applies edit `e` to a quick action.
pub fn apply_action_edit(a: &mut QuickAction, e: ActionEdit)
    ensures
        final(a)@ == action_edit_spec(old(a)@, e),
{
    match e {
        ActionEdit::Rename(s) => a.name = s,
        ActionEdit::SetKey(s) => a.key = s,
        ActionEdit::ClearKey => a.key = String::new(),
        ActionEdit::ToggleHold => a.hold = !a.hold,
        ActionEdit::ToggleShowOnMenu => a.show_on_menu = !a.show_on_menu,
        ActionEdit::ToggleLabels => a.show_labels = !a.show_labels,
        ActionEdit::ToggleIcons => a.show_icon = !a.show_icon,
        ActionEdit::ToggleEnabled => a.enabled = !a.enabled,
        ActionEdit::ToggleCloseOnSelect => a.close_on_select = !a.close_on_select,
        ActionEdit::CyclePosition => a.position = a.position.next(),
        ActionEdit::CycleShape => a.shape = a.shape.next(),
        ActionEdit::CycleIcon => a.icon = cycle_palette(Palette::Icons, a.icon.as_str()),
        ActionEdit::CycleCommand => a.command = cycle_palette(Palette::Commands, a.command.as_str()),
        ActionEdit::CycleHoldCommand => a.hold_command = cycle_palette(
            Palette::Commands,
            a.hold_command.as_str(),
        ),
        ActionEdit::SetCooldown(v) => a.cooldown_secs = v,
        ActionEdit::SetOpacity(v) => a.opacity = v,
        ActionEdit::SetRadius(v) => a.radius = v,
        ActionEdit::SetWidth(v) => a.width = v,
        ActionEdit::SetHeight(v) => a.height = v,
        ActionEdit::SetRotation(v) => a.rotation = v,
        ActionEdit::SetOffset(x, y) => {
            a.offset_x = x;
            a.offset_y = y;
        },
    }
}

// ─── sector ───────────────────────────────────────────────────────────────────

/// An edit of one field of a radial menu sector.
pub enum SlotEdit {
    Rename(String),
    SetIcon(String),
    SetInput(String),
    ClearInput,
    CycleCommand,
    CycleHoldCommand,
    ToggleHold,
    ToggleCloseOnSelect,
}

/// The sector after edit `e`.
pub open spec fn slot_edit_spec(s: SectorView, e: SlotEdit) -> SectorView {
    match e {
        SlotEdit::Rename(n) => SectorView { name: n@, ..s },
        SlotEdit::SetIcon(n) => SectorView { icon: n@, ..s },
        SlotEdit::SetInput(n) => SectorView { input: n@, ..s },
        SlotEdit::ClearInput => SectorView { input: Seq::empty(), ..s },
        SlotEdit::CycleCommand => SectorView {
            command: cycle_palette_spec(Palette::Commands, s.command),
            ..s
        },
        SlotEdit::CycleHoldCommand => SectorView {
            hold_command: cycle_palette_spec(Palette::Commands, s.hold_command),
            ..s
        },
        SlotEdit::ToggleHold => SectorView { hold: !s.hold, ..s },
        SlotEdit::ToggleCloseOnSelect => SectorView { close_on_select: !s.close_on_select, ..s },
    }
}

/// Applies edit `e` to a sector.
pub fn apply_slot_edit(s: &mut Sector, e: SlotEdit)
    ensures
        final(s)@ == slot_edit_spec(old(s)@, e),
{
    match e {
        SlotEdit::Rename(n) => s.name = n,
        SlotEdit::SetIcon(n) => s.icon = n,
        SlotEdit::SetInput(n) => s.input = n,
        SlotEdit::ClearInput => s.input = String::new(),
        SlotEdit::CycleCommand => s.command = cycle_palette(Palette::Commands, s.command.as_str()),
        SlotEdit::CycleHoldCommand => s.hold_command = cycle_palette(
            Palette::Commands,
            s.hold_command.as_str(),
        ),
        SlotEdit::ToggleHold => s.hold = !s.hold,
        SlotEdit::ToggleCloseOnSelect => s.close_on_select = !s.close_on_select,
    }
}

// ─── radial menu ──────────────────────────────────────────────────────────────

/// An edit of one field of a radial menu, or of one of its sectors.
pub enum MenuEdit {
    Rename(String),
    SetTheme(WheelTheme),
    SetStickBinding(String),
    SetCooldown(FloatBits),
    SetOuterRadius(FloatBits),
    SetInnerRadius(FloatBits),
    SetOpacity(FloatBits),
    SetBgOpacity(FloatBits),
    SetOuterBorderWidth(FloatBits),
    SetHubOpacity(FloatBits),
    SetInnerBorderWidth(FloatBits),
    SetOffset(FloatBits, FloatBits),
    ToggleShowLabels,
    ToggleShowIcon,
    CycleHighlight,
    CycleInnerBorder,
    CycleOuterBorder,
    CycleBg,
    CycleHub,
    /// Edit of sector `slot`; no change when there is no such sector.
    Slot(usize, SlotEdit),
}

/// The radial menu after edit `e`.
pub open spec fn menu_edit_spec(m: RadialMenuView, e: MenuEdit) -> RadialMenuView {
    match e {
        MenuEdit::Rename(n) => RadialMenuView { name: n@, ..m },
        MenuEdit::SetTheme(t) => RadialMenuView { theme: t, ..m },
        MenuEdit::SetStickBinding(b) => RadialMenuView { stick_binding: b@, ..m },
        MenuEdit::SetCooldown(v) => RadialMenuView { cooldown_secs: v, ..m },
        MenuEdit::SetOuterRadius(v) => RadialMenuView { outer_radius: v, ..m },
        MenuEdit::SetInnerRadius(v) => RadialMenuView { inner_radius: v, ..m },
        MenuEdit::SetOpacity(v) => RadialMenuView { opacity: v, ..m },
        MenuEdit::SetBgOpacity(v) => RadialMenuView { bg_opacity: v, ..m },
        MenuEdit::SetOuterBorderWidth(v) => RadialMenuView { outer_border_width: v, ..m },
        MenuEdit::SetHubOpacity(v) => RadialMenuView { hub_opacity: v, ..m },
        MenuEdit::SetInnerBorderWidth(v) => RadialMenuView { inner_border_width: v, ..m },
        MenuEdit::SetOffset(x, y) => RadialMenuView { offset_x: x, offset_y: y, ..m },
        MenuEdit::ToggleShowLabels => RadialMenuView { show_labels: !m.show_labels, ..m },
        MenuEdit::ToggleShowIcon => RadialMenuView { show_icon: !m.show_icon, ..m },
        MenuEdit::CycleHighlight => RadialMenuView {
            highlight_color: cycle_palette_spec(Palette::Highlight, m.highlight_color),
            ..m
        },
        MenuEdit::CycleInnerBorder => RadialMenuView {
            inner_border: cycle_palette_spec(Palette::Border, m.inner_border),
            ..m
        },
        MenuEdit::CycleOuterBorder => RadialMenuView {
            outer_border: cycle_palette_spec(Palette::Border, m.outer_border),
            ..m
        },
        MenuEdit::CycleBg => RadialMenuView {
            bg_color: cycle_palette_spec(Palette::WheelBg, m.bg_color),
            ..m
        },
        MenuEdit::CycleHub => RadialMenuView {
            hub_color: cycle_palette_spec(Palette::Hub, m.hub_color),
            ..m
        },
        MenuEdit::Slot(i, se) => if i < m.slots.len() {
            RadialMenuView { slots: m.slots.update(i as int, slot_edit_spec(m.slots[i as int], se)), ..m }
        } else {
            m
        },
    }
}

/// Applies edit `e` to a radial menu.
pub fn apply_menu_edit(m: &mut RadialMenu, e: MenuEdit)
    ensures
        final(m)@ == menu_edit_spec(old(m)@, e),
{
    match e {
        MenuEdit::Rename(n) => m.name = n,
        MenuEdit::SetTheme(t) => m.theme = t,
        MenuEdit::SetStickBinding(b) => m.stick_binding = b,
        MenuEdit::SetCooldown(v) => m.cooldown_secs = v,
        MenuEdit::SetOuterRadius(v) => m.outer_radius = v,
        MenuEdit::SetInnerRadius(v) => m.inner_radius = v,
        MenuEdit::SetOpacity(v) => m.opacity = v,
        MenuEdit::SetBgOpacity(v) => m.bg_opacity = v,
        MenuEdit::SetOuterBorderWidth(v) => m.outer_border_width = v,
        MenuEdit::SetHubOpacity(v) => m.hub_opacity = v,
        MenuEdit::SetInnerBorderWidth(v) => m.inner_border_width = v,
        MenuEdit::SetOffset(x, y) => {
            m.offset_x = x;
            m.offset_y = y;
        },
        MenuEdit::ToggleShowLabels => m.show_labels = !m.show_labels,
        MenuEdit::ToggleShowIcon => m.show_icon = !m.show_icon,
        MenuEdit::CycleHighlight => m.highlight_color = cycle_palette(
            Palette::Highlight,
            m.highlight_color.as_str(),
        ),
        MenuEdit::CycleInnerBorder => m.inner_border = cycle_palette(
            Palette::Border,
            m.inner_border.as_str(),
        ),
        MenuEdit::CycleOuterBorder => m.outer_border = cycle_palette(
            Palette::Border,
            m.outer_border.as_str(),
        ),
        MenuEdit::CycleBg => m.bg_color = cycle_palette(Palette::WheelBg, m.bg_color.as_str()),
        MenuEdit::CycleHub => m.hub_color = cycle_palette(Palette::Hub, m.hub_color.as_str()),
        MenuEdit::Slot(i, se) => {
            if i < m.slots.len() {
                let ghost old_slots = sectors_view(m.slots@);
                let mut s = m.slots[i].clone();
                apply_slot_edit(&mut s, se);
                let ghost sv = s@;
                m.slots.set(i, s);
                assert(sectors_view(m.slots@) =~= old_slots.update(i as int, sv));
            }
        },
    }
}

// ─── radial menu set ──────────────────────────────────────────────────────────

/// An edit of a radial menu set.
pub enum WheelSetEdit {
    Rename(String),
    SetSwitchKey(String),
    SetNextKey(String),
    SetPrevKey(String),
    ClearSwitchKey,
    ClearNextKey,
    ClearPrevKey,
    ToggleCycle,
    /// Binds the set and every one of its menus to `stick`.
    SetStick(String),
    /// Resets the stick binding of the set and every one of its menus.
    ClearStick,
    /// Moves the lower bound on the number of menus by `delta` within
    /// `1 ..= max_wheels`, then normalizes the set.
    MinDelta(i32),
    /// Moves the upper bound by `delta` within
    /// `max(min_wheels, menu count) ..= 64`.
    MaxDelta(i32),
    /// Appends a new menu when the set holds fewer than `max_wheels`.
    AddMenu,
    /// Removes menu `i` when the set holds more than `min_wheels`.
    RemoveMenu(usize),
    /// Gives every menu the look of menu `i` (see [`with_look`]) and the
    /// set that menu's stick binding; nothing when there is no menu `i`.
    SyncLook(usize),
}

/// Every menu of `ms` with its stick binding set to `b`.
pub open spec fn bind_all(ms: Seq<RadialMenuView>, b: Seq<char>) -> Seq<RadialMenuView> {
    ms.map_values(|m: RadialMenuView| RadialMenuView { stick_binding: b, ..m })
}

pub open spec fn clamp_int(x: int, lo: int, hi: int) -> int {
    if x < lo {
        lo
    } else if x > hi {
        hi
    } else {
        x
    }
}

/// The name of the `n`-th menu of a set.
pub open spec fn menu_name(n: nat) -> Seq<char> {
    "Radial menu "@ + crate::text::decimal(n)
}

/// The menu appended to set `w` as its `n`-th menu: a fresh menu with
/// the set's look (that of its first menu, when it has one) and the set's
/// stick binding.
pub open spec fn appended_menu(w: RadialMenuSetView, n: nat) -> RadialMenuView {
    let fresh = new_menu_view(menu_name(n), NEW_MENU_SECTORS as nat);
    let looked = if w.radial_menus.len() > 0 {
        with_look(fresh, w.radial_menus[0])
    } else {
        fresh
    };
    RadialMenuView { stick_binding: w.stick_binding, ..looked }
}

/// Menus `w.radial_menus` extended with fresh menus up to `k` menus.
pub open spec fn fill_menus(w: RadialMenuSetView, k: nat) -> Seq<RadialMenuView>
    decreases k,
{
    if k <= w.radial_menus.len() {
        w.radial_menus
    } else {
        fill_menus(w, (k - 1) as nat).push(appended_menu(w, k))
    }
}

/// Normalized bounds and menu count of a radial menu set: the lower bound
/// within `1 ..= 64`, the upper bound within `lower ..= 64`, and at least
/// `lower` menus.
pub open spec fn normalize_spec(w: RadialMenuSetView) -> RadialMenuSetView {
    let lo = clamp_int(w.min_wheels as int, 1, MAX_WHEELS_LIMIT as int);
    let hi = clamp_int(w.max_wheels as int, lo, MAX_WHEELS_LIMIT as int);
    RadialMenuSetView {
        min_wheels: lo as usize,
        max_wheels: hi as usize,
        radial_menus: fill_menus(w, lo as nat),
        ..w
    }
}

/// The radial menu set after edit `e`.
pub open spec fn wheel_set_edit_spec(w: RadialMenuSetView, e: WheelSetEdit) -> RadialMenuSetView {
    match e {
        WheelSetEdit::Rename(n) => RadialMenuSetView { name: n@, ..w },
        WheelSetEdit::SetSwitchKey(k) => RadialMenuSetView { switch_key: k@, ..w },
        WheelSetEdit::SetNextKey(k) => RadialMenuSetView { next_wheel_key: k@, ..w },
        WheelSetEdit::SetPrevKey(k) => RadialMenuSetView { prev_wheel_key: k@, ..w },
        WheelSetEdit::ClearSwitchKey => RadialMenuSetView { switch_key: Seq::empty(), ..w },
        WheelSetEdit::ClearNextKey => RadialMenuSetView { next_wheel_key: Seq::empty(), ..w },
        WheelSetEdit::ClearPrevKey => RadialMenuSetView { prev_wheel_key: Seq::empty(), ..w },
        WheelSetEdit::ToggleCycle => RadialMenuSetView { cycle_wheels: !w.cycle_wheels, ..w },
        WheelSetEdit::SetStick(b) => RadialMenuSetView {
            stick_binding: b@,
            radial_menus: bind_all(w.radial_menus, b@),
            ..w
        },
        WheelSetEdit::ClearStick => RadialMenuSetView {
            stick_binding: default_stick_binding(),
            radial_menus: bind_all(w.radial_menus, default_stick_binding()),
            ..w
        },
        WheelSetEdit::MinDelta(d) => normalize_spec(
            RadialMenuSetView {
                min_wheels: clamp_int(w.min_wheels + d, 1, w.max_wheels as int) as usize,
                ..w
            },
        ),
        WheelSetEdit::MaxDelta(d) => RadialMenuSetView {
            max_wheels: clamp_int(
                w.max_wheels + d,
                if w.min_wheels >= w.radial_menus.len() {
                    w.min_wheels as int
                } else {
                    w.radial_menus.len() as int
                },
                MAX_WHEELS_LIMIT as int,
            ) as usize,
            ..w
        },
        WheelSetEdit::AddMenu => if w.radial_menus.len() < w.max_wheels {
            RadialMenuSetView {
                radial_menus: w.radial_menus.push(
                    appended_menu(w, (w.radial_menus.len() + 1) as nat),
                ),
                ..w
            }
        } else {
            w
        },
        WheelSetEdit::SyncLook(i) => sync_look_spec(w, i),
        WheelSetEdit::RemoveMenu(i) => if w.radial_menus.len() > w.min_wheels && i
            < w.radial_menus.len() {
            RadialMenuSetView { radial_menus: w.radial_menus.remove(i as int), ..w }
        } else {
            w
        },
    }
}

/// Builds the menu appended to `w` as its `n`-th menu.
fn make_appended_menu(w: &RadialMenuSet, n: usize) -> (r: RadialMenu)
    ensures
        r@ == appended_menu(w@, n as nat),
{
    let mut name = String::from_str("Radial menu ");
    let digits = crate::text::usize_to_decimal(n);
    name.append(digits.as_str());
    let fresh = RadialMenu::new(name, NEW_MENU_SECTORS);
    let mut m = if w.radial_menus.len() > 0 {
        let mut looked = w.radial_menus[0].clone();
        looked.name = fresh.name;
        looked.slots = fresh.slots;
        looked.cooldown_secs = fresh.cooldown_secs;
        looked
    } else {
        fresh
    };
    m.stick_binding = w.stick_binding.clone();
    m
}

/// Menu `m` with the look of `src`: every setting of `src` (theme, radii,
/// colours, opacities, borders, labels and icons, placement offsets, stick
/// binding) but `m`'s own name, sectors and cooldown.
pub open spec fn with_look(m: RadialMenuView, src: RadialMenuView) -> RadialMenuView {
    RadialMenuView { name: m.name, slots: m.slots, cooldown_secs: m.cooldown_secs, ..src }
}

/// Set `w` with every menu given the look of menu `i`, and the set given
/// that menu's stick binding; `w` itself when there is no menu `i`.
pub open spec fn sync_look_spec(w: RadialMenuSetView, i: usize) -> RadialMenuSetView {
    if i < w.radial_menus.len() {
        let src = w.radial_menus[i as int];
        RadialMenuSetView {
            stick_binding: src.stick_binding,
            radial_menus: w.radial_menus.map_values(|m: RadialMenuView| with_look(m, src)),
            ..w
        }
    } else {
        w
    }
}

/// Gives every menu of `w` the look of menu `i` (see [`sync_look_spec`]).
fn sync_look(w: &mut RadialMenuSet, i: usize)
    ensures
        final(w)@ == sync_look_spec(old(w)@, i),
{
    if i >= w.radial_menus.len() {
        return;
    }
    let src = w.radial_menus[i].clone();
    let ghost srcv = src@;
    let ghost old_menus = menus_view(w.radial_menus@);
    let n = w.radial_menus.len();
    let mut j: usize = 0;
    while j < n
        invariant
            n == w.radial_menus@.len(),
            j <= n,
            old_menus.len() == n,
            srcv == src@,
            forall|k: int| 0 <= k < j ==> #[trigger] w.radial_menus@[k]@ == with_look(old_menus[k], srcv),
            forall|k: int| j <= k < n ==> #[trigger] w.radial_menus@[k]@ == old_menus[k],
            w.name@ == old(w)@.name,
            w.min_wheels == old(w).min_wheels,
            w.max_wheels == old(w).max_wheels,
            w.switch_key@ == old(w)@.switch_key,
            w.next_wheel_key@ == old(w)@.next_wheel_key,
            w.prev_wheel_key@ == old(w)@.prev_wheel_key,
            w.cycle_wheels == old(w).cycle_wheels,
            w.stick_binding@ == old(w)@.stick_binding,
            old_menus == old(w)@.radial_menus,
        decreases n - j,
    {
        assert(w.radial_menus@[j as int]@ == old_menus[j as int]);
        let mut m = src.clone();
        m.name = w.radial_menus[j].name.clone();
        m.slots = clone_sectors(&w.radial_menus[j].slots);
        m.cooldown_secs = w.radial_menus[j].cooldown_secs;
        assert(m@ == with_look(old_menus[j as int], srcv));
        w.radial_menus.set(j, m);
        j = j + 1;
    }
    w.stick_binding = src.stick_binding.clone();
    assert(menus_view(w.radial_menus@) =~= old_menus.map_values(|m: RadialMenuView| with_look(m, srcv)));
}

/// Binds `w` and all its menus to stick `b`.
fn bind_stick(w: &mut RadialMenuSet, b: String)
    ensures
        final(w)@ == (RadialMenuSetView {
            stick_binding: b@,
            radial_menus: bind_all(old(w)@.radial_menus, b@),
            ..old(w)@
        }),
{
    let ghost old_menus = menus_view(w.radial_menus@);
    let n = w.radial_menus.len();
    let mut i: usize = 0;
    while i < n
        invariant
            n == w.radial_menus@.len(),
            i <= n,
            old_menus.len() == n,
            forall|j: int|
                0 <= j < i ==> #[trigger] w.radial_menus@[j]@ == (RadialMenuView {
                    stick_binding: b@,
                    ..old_menus[j]
                }),
            forall|j: int| i <= j < n ==> #[trigger] w.radial_menus@[j]@ == old_menus[j],
            w.name@ == old(w)@.name,
            w.min_wheels == old(w).min_wheels,
            w.max_wheels == old(w).max_wheels,
            w.switch_key@ == old(w)@.switch_key,
            w.next_wheel_key@ == old(w)@.next_wheel_key,
            w.prev_wheel_key@ == old(w)@.prev_wheel_key,
            w.cycle_wheels == old(w).cycle_wheels,
            w.stick_binding@ == old(w)@.stick_binding,
            old_menus == old(w)@.radial_menus,
        decreases n - i,
    {
        let mut m = w.radial_menus[i].clone();
        m.stick_binding = b.clone();
        w.radial_menus.set(i, m);
        i = i + 1;
    }
    w.stick_binding = b;
    assert(menus_view(w.radial_menus@) =~= bind_all(old_menus, w.stick_binding@));
}

/// Normalizes the bounds and menu count of a radial menu set.
pub fn normalize_wheelset(w: &mut RadialMenuSet)
    ensures
        final(w)@ == normalize_spec(old(w)@),
{
    let lo = if w.min_wheels < 1 {
        1
    } else if w.min_wheels > MAX_WHEELS_LIMIT {
        MAX_WHEELS_LIMIT
    } else {
        w.min_wheels
    };
    let hi = if w.max_wheels < lo {
        lo
    } else if w.max_wheels > MAX_WHEELS_LIMIT {
        MAX_WHEELS_LIMIT
    } else {
        w.max_wheels
    };
    let ghost w0 = w@;
    let n0 = w.radial_menus.len();
    let mut k = n0;
    while k < lo
        invariant
            n0 == w0.radial_menus.len(),
            n0 <= k,
            k == n0 || k <= lo,
            lo <= MAX_WHEELS_LIMIT,
            menus_view(w.radial_menus@) == fill_menus(w0, k as nat),
            w.stick_binding@ == w0.stick_binding,
            w@ == (RadialMenuSetView { radial_menus: menus_view(w.radial_menus@), ..w0 }),
            w.radial_menus@.len() == k,
            k > 0 ==> menus_view(w.radial_menus@)[0] == (if n0 > 0 {
                w0.radial_menus[0]
            } else {
                appended_menu(w0, 1)
            }),
        decreases lo - k,
    {
        proof {
            if k == 0 {
                assert(w@ =~= w0);
            } else {
                assert(w@.radial_menus[0] == menus_view(w.radial_menus@)[0]);
            }
        }
        assert(appended_menu(w@, (k + 1) as nat) == appended_menu(w0, (k + 1) as nat));
        let m = make_appended_menu(w, k + 1);
        let ghost before = menus_view(w.radial_menus@);
        let ghost mv = m@;
        w.radial_menus.push(m);
        assert(menus_view(w.radial_menus@) =~= before.push(mv));
        k = k + 1;
    }
    assert(fill_menus(w0, lo as nat) == fill_menus(w0, k as nat)) by {
        if k > lo {
            assert(k == n0);
        }
        lemma_fill_menus_stable(w0, lo as nat, k as nat);
    }
    w.min_wheels = lo;
    w.max_wheels = hi;
}

proof fn lemma_fill_menus_stable(w: RadialMenuSetView, a: nat, b: nat)
    requires
        a <= w.radial_menus.len() || a == b,
        b <= w.radial_menus.len() || a == b,
    ensures
        fill_menus(w, a) == fill_menus(w, b),
{
}

/// Whether the integer conversions and clamps of edit `e` stay defined on
/// set `w`: the bound being moved, and the result before
/// clamping, fit in an `i32`, and the clamp range is not empty.
pub open spec fn wheel_set_edit_ok(w: RadialMenuSetView, e: WheelSetEdit) -> bool {
    match e {
        WheelSetEdit::MinDelta(d) => 1 <= w.max_wheels <= i32::MAX && w.min_wheels <= i32::MAX
            && i32::MIN <= w.min_wheels + d <= i32::MAX,
        WheelSetEdit::MaxDelta(d) => w.min_wheels <= MAX_WHEELS_LIMIT && w.radial_menus.len()
            <= MAX_WHEELS_LIMIT && w.max_wheels <= i32::MAX && i32::MIN <= w.max_wheels + d
            <= i32::MAX,
        _ => true,
    }
}

/// Applies edit `e` to a radial menu set.
pub fn apply_wheel_set_edit(w: &mut RadialMenuSet, e: WheelSetEdit)
    requires
        wheel_set_edit_ok(old(w)@, e),
    ensures
        final(w)@ == wheel_set_edit_spec(old(w)@, e),
{
    match e {
        WheelSetEdit::Rename(n) => w.name = n,
        WheelSetEdit::SetSwitchKey(k) => w.switch_key = k,
        WheelSetEdit::SetNextKey(k) => w.next_wheel_key = k,
        WheelSetEdit::SetPrevKey(k) => w.prev_wheel_key = k,
        WheelSetEdit::ClearSwitchKey => w.switch_key = String::new(),
        WheelSetEdit::ClearNextKey => w.next_wheel_key = String::new(),
        WheelSetEdit::ClearPrevKey => w.prev_wheel_key = String::new(),
        WheelSetEdit::ToggleCycle => w.cycle_wheels = !w.cycle_wheels,
        WheelSetEdit::SetStick(b) => bind_stick(w, b),
        WheelSetEdit::ClearStick => bind_stick(w, String::from_str("GP:LeftStick")),
        WheelSetEdit::MinDelta(d) => {
            let t: i64 = w.min_wheels as i64 + d as i64;
            let next: usize = if t < 1 {
                1
            } else if t > w.max_wheels as i64 {
                w.max_wheels
            } else {
                t as usize
            };
            w.min_wheels = next;
            normalize_wheelset(w);
        },
        WheelSetEdit::MaxDelta(d) => {
            let lo = if w.min_wheels >= w.radial_menus.len() {
                w.min_wheels
            } else {
                w.radial_menus.len()
            };
            let t: i64 = w.max_wheels as i64 + d as i64;
            w.max_wheels = if t < lo as i64 {
                lo
            } else if t > MAX_WHEELS_LIMIT as i64 {
                MAX_WHEELS_LIMIT
            } else {
                t as usize
            };
        },
        WheelSetEdit::AddMenu => {
            if w.radial_menus.len() < w.max_wheels {
                let n = w.radial_menus.len() + 1;
                let m = make_appended_menu(w, n);
                let ghost before = menus_view(w.radial_menus@);
                let ghost mv = m@;
                w.radial_menus.push(m);
                assert(menus_view(w.radial_menus@) =~= before.push(mv));
            }
        },
        WheelSetEdit::SyncLook(i) => sync_look(w, i),
        WheelSetEdit::RemoveMenu(i) => {
            if w.radial_menus.len() > w.min_wheels && i < w.radial_menus.len() {
                let ghost before = menus_view(w.radial_menus@);
                w.radial_menus.remove(i);
                assert(menus_view(w.radial_menus@) =~= before.remove(i as int));
            }
        },
    }
}

// ─── HUD switch ───────────────────────────────────────────────────────────────

/// An edit of a HUD switch.
pub enum SwitchEdit {
    SetKey(String),
    ClearKey,
    ToggleEnabled,
    /// Moves the target to the next page of `page_count` pages (0 when there
    /// are no pages).
    CycleTarget(usize),
    SetSize(FloatBits, FloatBits),
}

/// The HUD switch after edit `e`.
pub open spec fn switch_edit_spec(h: HudSwitchView, e: SwitchEdit) -> HudSwitchView {
    match e {
        SwitchEdit::SetKey(k) => HudSwitchView { key: k@, ..h },
        SwitchEdit::ClearKey => HudSwitchView { key: Seq::empty(), ..h },
        SwitchEdit::ToggleEnabled => HudSwitchView { enabled: !h.enabled, ..h },
        SwitchEdit::CycleTarget(n) => HudSwitchView {
            target_page: if n == 0 {
                0
            } else {
                ((h.target_page + 1) % (n as int)) as usize
            },
            ..h
        },
        SwitchEdit::SetSize(wd, ht) => HudSwitchView { width: wd, height: ht, ..h },
    }
}

/// Applies edit `e` to a HUD switch.
pub fn apply_switch_edit(h: &mut HudSwitch, e: SwitchEdit)
    ensures
        final(h)@ == switch_edit_spec(old(h)@, e),
{
    match e {
        SwitchEdit::SetKey(k) => h.key = k,
        SwitchEdit::ClearKey => h.key = String::new(),
        SwitchEdit::ToggleEnabled => h.enabled = !h.enabled,
        SwitchEdit::CycleTarget(n) => {
            h.target_page = if n == 0 {
                0
            } else if h.target_page < n {
                if h.target_page + 1 == n {
                    0
                } else {
                    h.target_page + 1
                }
            } else {
                ((h.target_page % n) + 1) % n
            };
            proof {
                if n > 0 {
                    let t = old(h).target_page as int;
                    assert((t + 1) % (n as int) == ((t % (n as int)) + 1) % (n as int))
                        by (nonlinear_arith)
                        requires
                            n > 0,
                    ;
                    if t < n && t + 1 < n {
                        assert((t + 1) % (n as int) == t + 1) by (nonlinear_arith)
                            requires
                                0 <= t,
                                t + 1 < n,
                        ;
                    }
                    if t + 1 == n {
                        assert((t + 1) % (n as int) == 0) by (nonlinear_arith)
                            requires
                                t + 1 == n,
                                n > 0,
                        ;
                    }
                }
            }
        },
        SwitchEdit::SetSize(wd, ht) => {
            h.width = wd;
            h.height = ht;
        },
    }
}

// ─── page ─────────────────────────────────────────────────────────────────────

/// An edit of a page's own fields.
pub enum PageEdit {
    Rename(String),
    SetBgImage(String),
    SetNextWheelKey(String),
    SetPrevWheelKey(String),
    ClearNextWheelKey,
    ClearPrevWheelKey,
    ToggleEnabled,
    ToggleInputOverride,
    ToggleCycleWheels,
    SetOpacity(FloatBits),
    SetBgImageOpacity(FloatBits),
}

/// The page after edit `e`.
pub open spec fn page_edit_spec(p: ActionSetView, e: PageEdit) -> ActionSetView {
    match e {
        PageEdit::Rename(n) => ActionSetView { name: n@, ..p },
        PageEdit::SetBgImage(n) => ActionSetView { bg_image: n@, ..p },
        PageEdit::SetNextWheelKey(k) => ActionSetView { next_wheel_key: k@, ..p },
        PageEdit::SetPrevWheelKey(k) => ActionSetView { prev_wheel_key: k@, ..p },
        PageEdit::ClearNextWheelKey => ActionSetView { next_wheel_key: Seq::empty(), ..p },
        PageEdit::ClearPrevWheelKey => ActionSetView { prev_wheel_key: Seq::empty(), ..p },
        PageEdit::ToggleEnabled => ActionSetView { enabled: !p.enabled, ..p },
        PageEdit::ToggleInputOverride => ActionSetView { input_override: !p.input_override, ..p },
        PageEdit::ToggleCycleWheels => ActionSetView { cycle_wheels: !p.cycle_wheels, ..p },
        PageEdit::SetOpacity(v) => ActionSetView { opacity: v, ..p },
        PageEdit::SetBgImageOpacity(v) => ActionSetView { bg_image_opacity: v, ..p },
    }
}

/// Applies edit `e` to a page.
pub fn apply_page_edit(p: &mut ActionSet, e: PageEdit)
    ensures
        final(p)@ == page_edit_spec(old(p)@, e),
{
    match e {
        PageEdit::Rename(n) => p.name = n,
        PageEdit::SetBgImage(n) => p.bg_image = n,
        PageEdit::SetNextWheelKey(k) => p.next_wheel_key = k,
        PageEdit::SetPrevWheelKey(k) => p.prev_wheel_key = k,
        PageEdit::ClearNextWheelKey => p.next_wheel_key = String::new(),
        PageEdit::ClearPrevWheelKey => p.prev_wheel_key = String::new(),
        PageEdit::ToggleEnabled => p.enabled = !p.enabled,
        PageEdit::ToggleInputOverride => p.input_override = !p.input_override,
        PageEdit::ToggleCycleWheels => p.cycle_wheels = !p.cycle_wheels,
        PageEdit::SetOpacity(v) => p.opacity = v,
        PageEdit::SetBgImageOpacity(v) => p.bg_image_opacity = v,
    }
}

} // verus!
