//! The authored HUD configuration: pages of actions, HUD switches and radial
//! menu sets, with their mathematical views and indexed access.
use crate::config::{
    FloatBits, QuickAction, QuickActionView, F32_ONE, F32_ZERO,
};
use vstd::prelude::*;

verus! {

/// Stick binding given to radial menus that have not been bound explicitly.
pub open spec fn default_stick_binding() -> Seq<char> {
    "GP:LeftStick"@
}

/// Fewest sectors a radial menu keeps when sectors are removed from the HUD.
pub const MIN_SECTORS: usize = 2;

/// Sectors given to a radial menu created by the editor.
pub const NEW_MENU_SECTORS: usize = 6;

/// Bit pattern of `150.0_f32`, the default outer radius of a radial menu.
pub const F32_DEFAULT_OUTER_RADIUS: u32 = 0x4316_0000;
/// Bit pattern of `40.0_f32`, the default inner radius of a radial menu.
pub const F32_DEFAULT_INNER_RADIUS: u32 = 0x4220_0000;
/// Bit pattern of `120.0_f32`, the default width of a HUD switch.
pub const F32_DEFAULT_SWITCH_WIDTH: u32 = 0x42f0_0000;
/// Bit pattern of `32.0_f32`, the default height of a HUD switch.
pub const F32_DEFAULT_SWITCH_HEIGHT: u32 = 0x4200_0000;

/// Largest number of radial menus a radial menu set may be configured to hold.
pub const MAX_WHEELS_LIMIT: usize = 64;

/// Visual theme of a radial menu, as an index into the host's theme table.
#[derive(Clone, Copy, PartialEq, Eq, Structural, Debug)]
pub struct WheelTheme(pub u8);

/// How the HUD overlay is opened by its shortcut.
#[derive(Clone, Copy, PartialEq, Eq, Structural, Debug)]
pub enum HudOpenMode {
    /// A press opens the HUD and the next press closes it.
    Toggle,
    /// The HUD stays open while the shortcut is held.
    Hold,
}

/// The open mode that follows `m` when cycling.
pub open spec fn open_mode_next(m: HudOpenMode) -> HudOpenMode {
    match m {
        HudOpenMode::Toggle => HudOpenMode::Hold,
        HudOpenMode::Hold => HudOpenMode::Toggle,
    }
}

impl HudOpenMode {
    /// Returns the next open mode.
    pub fn next(self) -> (r: Self)
        ensures
            r == open_mode_next(self),
    {
        match self {
            HudOpenMode::Toggle => HudOpenMode::Hold,
            HudOpenMode::Hold => HudOpenMode::Toggle,
        }
    }
}

// ─── sector ───────────────────────────────────────────────────────────────────

/// One sector (slot) of a radial menu.
#[derive(Debug)]
pub struct Sector {
    pub name: String,
    pub icon: String,
    pub command: String,
    pub hold_command: String,
    pub hold: bool,
    pub close_on_select: bool,
    /// Keyboard key or `"GP:"` gamepad binding that selects this sector.
    pub input: String,
}

pub struct SectorView {
    pub name: Seq<char>,
    pub icon: Seq<char>,
    pub command: Seq<char>,
    pub hold_command: Seq<char>,
    pub hold: bool,
    pub close_on_select: bool,
    pub input: Seq<char>,
}

impl View for Sector {
    type V = SectorView;

    open spec fn view(&self) -> SectorView {
        SectorView {
            name: self.name@,
            icon: self.icon@,
            command: self.command@,
            hold_command: self.hold_command@,
            hold: self.hold,
            close_on_select: self.close_on_select,
            input: self.input@,
        }
    }
}

/// A fresh sector carrying `name`.
pub open spec fn named_sector_view(name: Seq<char>) -> SectorView {
    SectorView {
        name: name,
        icon: Seq::empty(),
        command: "none"@,
        hold_command: "none"@,
        hold: false,
        close_on_select: true,
        input: Seq::empty(),
    }
}

impl Sector {
    /// A fresh sector carrying `name`.
    pub fn named(name: String) -> (r: Self)
        ensures
            r@ == named_sector_view(name@),
    {
        Sector {
            name,
            icon: String::new(),
            command: String::from_str("none"),
            hold_command: String::from_str("none"),
            hold: false,
            close_on_select: true,
            input: String::new(),
        }
    }
}

impl Clone for Sector {
    fn clone(&self) -> (r: Self)
        ensures
            r@ == self@,
    {
        Sector {
            name: self.name.clone(),
            icon: self.icon.clone(),
            command: self.command.clone(),
            hold_command: self.hold_command.clone(),
            hold: self.hold,
            close_on_select: self.close_on_select,
            input: self.input.clone(),
        }
    }
}

pub open spec fn sectors_view(s: Seq<Sector>) -> Seq<SectorView> {
    s.map_values(|x: Sector| x@)
}

/// Clones a list of sectors.
pub fn clone_sectors(v: &Vec<Sector>) -> (r: Vec<Sector>)
    ensures
        sectors_view(r@) == sectors_view(v@),
{
    let mut r: Vec<Sector> = Vec::new();
    for i in 0..v.len()
        invariant
            r@.len() == i,
            forall|j: int| 0 <= j < i ==> #[trigger] r@[j]@ == v@[j]@,
    {
        r.push(v[i].clone());
    }
    assert(sectors_view(r@) =~= sectors_view(v@));
    r
}

// ─── radial menu ──────────────────────────────────────────────────────────────

/// A radial menu (wheel) of sectors.
#[derive(Debug)]
pub struct RadialMenu {
    pub name: String,
    pub slots: Vec<Sector>,
    pub theme: WheelTheme,
    pub stick_binding: String,
    pub cooldown_secs: FloatBits,
    pub outer_radius: FloatBits,
    pub inner_radius: FloatBits,
    pub show_labels: bool,
    pub show_icon: bool,
    pub highlight_color: String,
    pub opacity: FloatBits,
    pub inner_border: String,
    pub outer_border: String,
    pub bg_color: String,
    pub bg_opacity: FloatBits,
    pub outer_border_width: FloatBits,
    pub hub_color: String,
    pub hub_opacity: FloatBits,
    pub inner_border_width: FloatBits,
    pub offset_x: FloatBits,
    pub offset_y: FloatBits,
}

pub struct RadialMenuView {
    pub name: Seq<char>,
    pub slots: Seq<SectorView>,
    pub theme: WheelTheme,
    pub stick_binding: Seq<char>,
    pub cooldown_secs: FloatBits,
    pub outer_radius: FloatBits,
    pub inner_radius: FloatBits,
    pub show_labels: bool,
    pub show_icon: bool,
    pub highlight_color: Seq<char>,
    pub opacity: FloatBits,
    pub inner_border: Seq<char>,
    pub outer_border: Seq<char>,
    pub bg_color: Seq<char>,
    pub bg_opacity: FloatBits,
    pub outer_border_width: FloatBits,
    pub hub_color: Seq<char>,
    pub hub_opacity: FloatBits,
    pub inner_border_width: FloatBits,
    pub offset_x: FloatBits,
    pub offset_y: FloatBits,
}

impl View for RadialMenu {
    type V = RadialMenuView;

    open spec fn view(&self) -> RadialMenuView {
        RadialMenuView {
            name: self.name@,
            slots: sectors_view(self.slots@),
            theme: self.theme,
            stick_binding: self.stick_binding@,
            cooldown_secs: self.cooldown_secs,
            outer_radius: self.outer_radius,
            inner_radius: self.inner_radius,
            show_labels: self.show_labels,
            show_icon: self.show_icon,
            highlight_color: self.highlight_color@,
            opacity: self.opacity,
            inner_border: self.inner_border@,
            outer_border: self.outer_border@,
            bg_color: self.bg_color@,
            bg_opacity: self.bg_opacity,
            outer_border_width: self.outer_border_width,
            hub_color: self.hub_color@,
            hub_opacity: self.hub_opacity,
            inner_border_width: self.inner_border_width,
            offset_x: self.offset_x,
            offset_y: self.offset_y,
        }
    }
}

impl Clone for RadialMenu {
    fn clone(&self) -> (r: Self)
        ensures
            r@ == self@,
    {
        RadialMenu {
            name: self.name.clone(),
            slots: clone_sectors(&self.slots),
            theme: self.theme,
            stick_binding: self.stick_binding.clone(),
            cooldown_secs: self.cooldown_secs,
            outer_radius: self.outer_radius,
            inner_radius: self.inner_radius,
            show_labels: self.show_labels,
            show_icon: self.show_icon,
            highlight_color: self.highlight_color.clone(),
            opacity: self.opacity,
            inner_border: self.inner_border.clone(),
            outer_border: self.outer_border.clone(),
            bg_color: self.bg_color.clone(),
            bg_opacity: self.bg_opacity,
            outer_border_width: self.outer_border_width,
            hub_color: self.hub_color.clone(),
            hub_opacity: self.hub_opacity,
            inner_border_width: self.inner_border_width,
            offset_x: self.offset_x,
            offset_y: self.offset_y,
        }
    }
}

pub open spec fn menus_view(s: Seq<RadialMenu>) -> Seq<RadialMenuView> {
    s.map_values(|x: RadialMenu| x@)
}

/// Clones a list of radial menus.
pub fn clone_menus(v: &Vec<RadialMenu>) -> (r: Vec<RadialMenu>)
    ensures
        menus_view(r@) == menus_view(v@),
{
    let mut r: Vec<RadialMenu> = Vec::new();
    for i in 0..v.len()
        invariant
            r@.len() == i,
            forall|j: int| 0 <= j < i ==> #[trigger] r@[j]@ == v@[j]@,
    {
        r.push(v[i].clone());
    }
    assert(menus_view(r@) =~= menus_view(v@));
    r
}

/// The name `"Slot {n}"` given to the sector created at position `n - 1`.
pub open spec fn slot_name(n: nat) -> Seq<char> {
    "Slot "@ + crate::text::decimal(n)
}

/// The sectors `"Slot 1" .. "Slot {n}"` of a new radial menu.
pub open spec fn numbered_sectors(n: nat) -> Seq<SectorView> {
    Seq::new(n, |i: int| named_sector_view(slot_name((i + 1) as nat)))
}

/// A fresh radial menu named `name` with `n` numbered sectors.
pub open spec fn new_menu_view(name: Seq<char>, n: nat) -> RadialMenuView {
    RadialMenuView {
        name: name,
        slots: numbered_sectors(n),
        theme: WheelTheme(0),
        stick_binding: default_stick_binding(),
        cooldown_secs: FloatBits(F32_ZERO),
        outer_radius: FloatBits(F32_DEFAULT_OUTER_RADIUS),
        inner_radius: FloatBits(F32_DEFAULT_INNER_RADIUS),
        show_labels: true,
        show_icon: true,
        highlight_color: "#f59e0b"@,
        opacity: FloatBits(F32_ONE),
        inner_border: Seq::empty(),
        outer_border: Seq::empty(),
        bg_color: Seq::empty(),
        bg_opacity: FloatBits(F32_ONE),
        outer_border_width: FloatBits(F32_ZERO),
        hub_color: Seq::empty(),
        hub_opacity: FloatBits(F32_ONE),
        inner_border_width: FloatBits(F32_ZERO),
        offset_x: FloatBits(F32_ZERO),
        offset_y: FloatBits(F32_ZERO),
    }
}

/// Builds the sector named `"Slot {n}"`.
pub fn slot_named(n: usize) -> (r: Sector)
    ensures
        r@ == named_sector_view(slot_name(n as nat)),
{
    let mut name = String::from_str("Slot ");
    let digits = crate::text::usize_to_decimal(n);
    name.append(digits.as_str());
    Sector::named(name)
}

impl RadialMenu {
    /// A fresh radial menu named `name` with `n` sectors `"Slot 1" .. "Slot {n}"`.
    pub fn new(name: String, n: usize) -> (r: Self)
        ensures
            r@ == new_menu_view(name@, n as nat),
    {
        let mut slots: Vec<Sector> = Vec::new();
        for i in 0..n
            invariant
                slots@.len() == i,
                forall|j: int|
                    0 <= j < i ==> #[trigger] slots@[j]@ == named_sector_view(
                        slot_name((j + 1) as nat),
                    ),
        {
            slots.push(slot_named(i + 1));
        }
        assert(sectors_view(slots@) =~= numbered_sectors(n as nat));
        RadialMenu {
            name,
            slots,
            theme: WheelTheme(0),
            stick_binding: String::from_str("GP:LeftStick"),
            cooldown_secs: FloatBits(F32_ZERO),
            outer_radius: FloatBits(F32_DEFAULT_OUTER_RADIUS),
            inner_radius: FloatBits(F32_DEFAULT_INNER_RADIUS),
            show_labels: true,
            show_icon: true,
            highlight_color: String::from_str("#f59e0b"),
            opacity: FloatBits(F32_ONE),
            inner_border: String::new(),
            outer_border: String::new(),
            bg_color: String::new(),
            bg_opacity: FloatBits(F32_ONE),
            outer_border_width: FloatBits(F32_ZERO),
            hub_color: String::new(),
            hub_opacity: FloatBits(F32_ONE),
            inner_border_width: FloatBits(F32_ZERO),
            offset_x: FloatBits(F32_ZERO),
            offset_y: FloatBits(F32_ZERO),
        }
    }
}

// ─── radial menu set ──────────────────────────────────────────────────────────

/// A HUD component holding several radial menus of which one is shown.
#[derive(Debug)]
pub struct RadialMenuSet {
    pub name: String,
    pub radial_menus: Vec<RadialMenu>,
    pub min_wheels: usize,
    pub max_wheels: usize,
    pub stick_binding: String,
    pub switch_key: String,
    pub next_wheel_key: String,
    pub prev_wheel_key: String,
    pub cycle_wheels: bool,
}

pub struct RadialMenuSetView {
    pub name: Seq<char>,
    pub radial_menus: Seq<RadialMenuView>,
    pub min_wheels: usize,
    pub max_wheels: usize,
    pub stick_binding: Seq<char>,
    pub switch_key: Seq<char>,
    pub next_wheel_key: Seq<char>,
    pub prev_wheel_key: Seq<char>,
    pub cycle_wheels: bool,
}

impl View for RadialMenuSet {
    type V = RadialMenuSetView;

    open spec fn view(&self) -> RadialMenuSetView {
        RadialMenuSetView {
            name: self.name@,
            radial_menus: menus_view(self.radial_menus@),
            min_wheels: self.min_wheels,
            max_wheels: self.max_wheels,
            stick_binding: self.stick_binding@,
            switch_key: self.switch_key@,
            next_wheel_key: self.next_wheel_key@,
            prev_wheel_key: self.prev_wheel_key@,
            cycle_wheels: self.cycle_wheels,
        }
    }
}

impl Clone for RadialMenuSet {
    fn clone(&self) -> (r: Self)
        ensures
            r@ == self@,
    {
        RadialMenuSet {
            name: self.name.clone(),
            radial_menus: clone_menus(&self.radial_menus),
            min_wheels: self.min_wheels,
            max_wheels: self.max_wheels,
            stick_binding: self.stick_binding.clone(),
            switch_key: self.switch_key.clone(),
            next_wheel_key: self.next_wheel_key.clone(),
            prev_wheel_key: self.prev_wheel_key.clone(),
            cycle_wheels: self.cycle_wheels,
        }
    }
}

/// Default bounds on the number of radial menus in a new set.
pub const DEFAULT_MIN_WHEELS: usize = 1;
pub const DEFAULT_MAX_WHEELS: usize = 8;

// ─── HUD switch ───────────────────────────────────────────────────────────────

/// A HUD component that switches the HUD to another page.
#[derive(Debug)]
pub struct HudSwitch {
    pub name: String,
    pub key: String,
    pub enabled: bool,
    pub target_page: usize,
    pub width: FloatBits,
    pub height: FloatBits,
}

pub struct HudSwitchView {
    pub name: Seq<char>,
    pub key: Seq<char>,
    pub enabled: bool,
    pub target_page: usize,
    pub width: FloatBits,
    pub height: FloatBits,
}

impl View for HudSwitch {
    type V = HudSwitchView;

    open spec fn view(&self) -> HudSwitchView {
        HudSwitchView {
            name: self.name@,
            key: self.key@,
            enabled: self.enabled,
            target_page: self.target_page,
            width: self.width,
            height: self.height,
        }
    }
}

impl Clone for HudSwitch {
    fn clone(&self) -> (r: Self)
        ensures
            r@ == self@,
    {
        HudSwitch {
            name: self.name.clone(),
            key: self.key.clone(),
            enabled: self.enabled,
            target_page: self.target_page,
            width: self.width,
            height: self.height,
        }
    }
}

// ─── page entries ─────────────────────────────────────────────────────────────

/// One component of a HUD page.
#[derive(Debug)]
pub enum SetEntry {
    Action(QuickAction),
    HudSwitch(HudSwitch),
    /// A standalone radial menu, navigated with the page's own wheel keys.
    Wheel(RadialMenu),
    RadialMenuSet(RadialMenuSet),
}

pub enum SetEntryView {
    Action(QuickActionView),
    HudSwitch(HudSwitchView),
    Wheel(RadialMenuView),
    RadialMenuSet(RadialMenuSetView),
}

impl View for SetEntry {
    type V = SetEntryView;

    open spec fn view(&self) -> SetEntryView {
        match self {
            SetEntry::Action(a) => SetEntryView::Action(a@),
            SetEntry::HudSwitch(h) => SetEntryView::HudSwitch(h@),
            SetEntry::Wheel(m) => SetEntryView::Wheel(m@),
            SetEntry::RadialMenuSet(w) => SetEntryView::RadialMenuSet(w@),
        }
    }
}

impl Clone for SetEntry {
    fn clone(&self) -> (r: Self)
        ensures
            r@ == self@,
    {
        match self {
            SetEntry::Action(a) => SetEntry::Action(a.clone()),
            SetEntry::HudSwitch(h) => SetEntry::HudSwitch(h.clone()),
            SetEntry::Wheel(m) => SetEntry::Wheel(m.clone()),
            SetEntry::RadialMenuSet(w) => SetEntry::RadialMenuSet(w.clone()),
        }
    }
}

pub open spec fn entries_view(s: Seq<SetEntry>) -> Seq<SetEntryView> {
    s.map_values(|x: SetEntry| x@)
}

/// Clones a list of page entries.
pub fn clone_entries(v: &Vec<SetEntry>) -> (r: Vec<SetEntry>)
    ensures
        entries_view(r@) == entries_view(v@),
{
    let mut r: Vec<SetEntry> = Vec::new();
    for i in 0..v.len()
        invariant
            r@.len() == i,
            forall|j: int| 0 <= j < i ==> #[trigger] r@[j]@ == v@[j]@,
    {
        r.push(v[i].clone());
    }
    assert(entries_view(r@) =~= entries_view(v@));
    r
}

// ─── page ─────────────────────────────────────────────────────────────────────

/// A HUD page (action set).
#[derive(Debug)]
pub struct ActionSet {
    pub name: String,
    pub icon: String,
    pub enabled: bool,
    pub opacity: FloatBits,
    pub input_override: bool,
    pub entries: Vec<SetEntry>,
    pub bg_image: String,
    pub bg_image_opacity: FloatBits,
    pub next_wheel_key: String,
    pub prev_wheel_key: String,
    pub cycle_wheels: bool,
}

pub struct ActionSetView {
    pub name: Seq<char>,
    pub icon: Seq<char>,
    pub enabled: bool,
    pub opacity: FloatBits,
    pub input_override: bool,
    pub entries: Seq<SetEntryView>,
    pub bg_image: Seq<char>,
    pub bg_image_opacity: FloatBits,
    pub next_wheel_key: Seq<char>,
    pub prev_wheel_key: Seq<char>,
    pub cycle_wheels: bool,
}

impl View for ActionSet {
    type V = ActionSetView;

    open spec fn view(&self) -> ActionSetView {
        ActionSetView {
            name: self.name@,
            icon: self.icon@,
            enabled: self.enabled,
            opacity: self.opacity,
            input_override: self.input_override,
            entries: entries_view(self.entries@),
            bg_image: self.bg_image@,
            bg_image_opacity: self.bg_image_opacity,
            next_wheel_key: self.next_wheel_key@,
            prev_wheel_key: self.prev_wheel_key@,
            cycle_wheels: self.cycle_wheels,
        }
    }
}

impl Clone for ActionSet {
    fn clone(&self) -> (r: Self)
        ensures
            r@ == self@,
    {
        ActionSet {
            name: self.name.clone(),
            icon: self.icon.clone(),
            enabled: self.enabled,
            opacity: self.opacity,
            input_override: self.input_override,
            entries: clone_entries(&self.entries),
            bg_image: self.bg_image.clone(),
            bg_image_opacity: self.bg_image_opacity,
            next_wheel_key: self.next_wheel_key.clone(),
            prev_wheel_key: self.prev_wheel_key.clone(),
            cycle_wheels: self.cycle_wheels,
        }
    }
}

pub open spec fn pages_view(s: Seq<ActionSet>) -> Seq<ActionSetView> {
    s.map_values(|x: ActionSet| x@)
}

/// Clones a list of pages.
pub fn clone_pages(v: &Vec<ActionSet>) -> (r: Vec<ActionSet>)
    ensures
        pages_view(r@) == pages_view(v@),
{
    let mut r: Vec<ActionSet> = Vec::new();
    for i in 0..v.len()
        invariant
            r@.len() == i,
            forall|j: int| 0 <= j < i ==> #[trigger] r@[j]@ == v@[j]@,
    {
        r.push(v[i].clone());
    }
    assert(pages_view(r@) =~= pages_view(v@));
    r
}

// ─── configuration ────────────────────────────────────────────────────────────

/// The authored HUD configuration.
#[derive(Debug)]
pub struct QuickActionConfig {
    pub sets: Vec<ActionSet>,
    pub next_set_key: String,
    pub prev_set_key: String,
    pub edit_shortcut: String,
    pub show_set_bar: bool,
    pub cycle_sets: bool,
    pub hud_open_mode: HudOpenMode,
    pub hud_bg_opacity: FloatBits,
    pub hud_bg_color: String,
}

pub struct ConfigView {
    pub sets: Seq<ActionSetView>,
    pub next_set_key: Seq<char>,
    pub prev_set_key: Seq<char>,
    pub edit_shortcut: Seq<char>,
    pub show_set_bar: bool,
    pub cycle_sets: bool,
    pub hud_open_mode: HudOpenMode,
    pub hud_bg_opacity: FloatBits,
    pub hud_bg_color: Seq<char>,
}

impl View for QuickActionConfig {
    type V = ConfigView;

    open spec fn view(&self) -> ConfigView {
        ConfigView {
            sets: pages_view(self.sets@),
            next_set_key: self.next_set_key@,
            prev_set_key: self.prev_set_key@,
            edit_shortcut: self.edit_shortcut@,
            show_set_bar: self.show_set_bar,
            cycle_sets: self.cycle_sets,
            hud_open_mode: self.hud_open_mode,
            hud_bg_opacity: self.hud_bg_opacity,
            hud_bg_color: self.hud_bg_color@,
        }
    }
}

impl Clone for QuickActionConfig {
    fn clone(&self) -> (r: Self)
        ensures
            r@ == self@,
    {
        QuickActionConfig {
            sets: clone_pages(&self.sets),
            next_set_key: self.next_set_key.clone(),
            prev_set_key: self.prev_set_key.clone(),
            edit_shortcut: self.edit_shortcut.clone(),
            show_set_bar: self.show_set_bar,
            cycle_sets: self.cycle_sets,
            hud_open_mode: self.hud_open_mode,
            hud_bg_opacity: self.hud_bg_opacity,
            hud_bg_color: self.hud_bg_color.clone(),
        }
    }
}

/// The configuration an editor starts from when none was authored.
pub open spec fn empty_config_view() -> ConfigView {
    ConfigView {
        sets: Seq::empty(),
        next_set_key: Seq::empty(),
        prev_set_key: Seq::empty(),
        edit_shortcut: Seq::empty(),
        show_set_bar: true,
        cycle_sets: false,
        hud_open_mode: HudOpenMode::Toggle,
        hud_bg_opacity: FloatBits(F32_ONE),
        hud_bg_color: Seq::empty(),
    }
}

impl Default for QuickActionConfig {
    /// No pages, no shortcuts, the page bar shown, pages not cycling, the
    /// HUD toggled by its shortcut and fully opaque.
    fn default() -> (r: Self)
        ensures
            r@ == empty_config_view(),
    {
        let r = QuickActionConfig {
            sets: Vec::new(),
            next_set_key: String::new(),
            prev_set_key: String::new(),
            edit_shortcut: String::new(),
            show_set_bar: true,
            cycle_sets: false,
            hud_open_mode: HudOpenMode::Toggle,
            hud_bg_opacity: FloatBits(F32_ONE),
            hud_bg_color: String::new(),
        };
        assert(r@.sets =~= Seq::<ActionSetView>::empty());
        r
    }
}

// ─── indexed access (spec) ────────────────────────────────────────────────────

/// The page at `set`, if it exists.
pub open spec fn page_at(c: ConfigView, set: int) -> Option<ActionSetView> {
    if 0 <= set < c.sets.len() {
        Some(c.sets[set])
    } else {
        None
    }
}

/// The entry `entry` of page `set`, if it exists.
pub open spec fn entry_at(c: ConfigView, set: int, entry: int) -> Option<SetEntryView> {
    if 0 <= set < c.sets.len() && 0 <= entry < c.sets[set].entries.len() {
        Some(c.sets[set].entries[entry])
    } else {
        None
    }
}

/// The quick action at `(set, entry)`, if that entry exists and is an action.
pub open spec fn action_at(c: ConfigView, set: int, entry: int) -> Option<QuickActionView> {
    match entry_at(c, set, entry) {
        Some(SetEntryView::Action(a)) => Some(a),
        _ => None,
    }
}

/// The HUD switch at `(set, entry)`, if that entry exists and is a switch.
pub open spec fn switch_at(c: ConfigView, set: int, entry: int) -> Option<HudSwitchView> {
    match entry_at(c, set, entry) {
        Some(SetEntryView::HudSwitch(h)) => Some(h),
        _ => None,
    }
}

/// The radial menu set at `(set, entry)`, if that entry exists and is one.
pub open spec fn wheel_set_at(c: ConfigView, set: int, entry: int) -> Option<RadialMenuSetView> {
    match entry_at(c, set, entry) {
        Some(SetEntryView::RadialMenuSet(w)) => Some(w),
        _ => None,
    }
}

/// Radial menu `wheel` of the radial menu set at `(set, entry)`.
pub open spec fn menu_at(c: ConfigView, set: int, entry: int, wheel: int) -> Option<
    RadialMenuView,
> {
    match wheel_set_at(c, set, entry) {
        Some(w) => if 0 <= wheel < w.radial_menus.len() {
            Some(w.radial_menus[wheel])
        } else {
            None
        },
        None => None,
    }
}

/// The configuration with page `set` replaced by `p`.
pub open spec fn with_page(c: ConfigView, set: int, p: ActionSetView) -> ConfigView {
    ConfigView { sets: c.sets.update(set, p), ..c }
}

/// The configuration with entry `(set, entry)` replaced by `e`.
pub open spec fn with_entry(c: ConfigView, set: int, entry: int, e: SetEntryView) -> ConfigView {
    with_page(c, set, ActionSetView { entries: c.sets[set].entries.update(entry, e), ..c.sets[set] })
}

/// The configuration with radial menu `(set, entry, wheel)` replaced by `m`.
pub open spec fn with_menu(
    c: ConfigView,
    set: int,
    entry: int,
    wheel: int,
    m: RadialMenuView,
) -> ConfigView {
    let w = wheel_set_at(c, set, entry)->0;
    with_entry(
        c,
        set,
        entry,
        SetEntryView::RadialMenuSet(
            RadialMenuSetView { radial_menus: w.radial_menus.update(wheel, m), ..w },
        ),
    )
}

/// Indices of the enabled pages, in order.
pub open spec fn enabled_pages(c: ConfigView) -> Seq<usize> {
    enabled_pages_upto(c, c.sets.len() as int)
}

/// Indices `< n` of enabled pages, in order.
pub open spec fn enabled_pages_upto(c: ConfigView, n: int) -> Seq<usize>
    decreases n,
{
    if n <= 0 {
        Seq::empty()
    } else if c.sets[n - 1].enabled {
        enabled_pages_upto(c, n - 1).push((n - 1) as usize)
    } else {
        enabled_pages_upto(c, n - 1)
    }
}

/// Number of radial menus and radial menu sets among the first `n` entries.
pub open spec fn wheel_entries_before(entries: Seq<SetEntryView>, n: int) -> nat
    decreases n,
{
    if n <= 0 {
        0
    } else {
        wheel_entries_before(entries, n - 1) + if entries[n - 1] is RadialMenuSet || entries[n - 1] is Wheel {
            1nat
        } else {
            0nat
        }
    }
}

// ─── indexed access (exec) ────────────────────────────────────────────────────

/// A copy of page `set`.
pub fn get_page(cfg: &QuickActionConfig, set: usize) -> (r: Option<ActionSet>)
    ensures
        r is Some <==> page_at(cfg@, set as int) is Some,
        r is Some ==> r->0@ == page_at(cfg@, set as int)->0,
{
    if set < cfg.sets.len() {
        Some(cfg.sets[set].clone())
    } else {
        None
    }
}

/// Replaces page `set` by `p`.
pub fn put_page(cfg: &mut QuickActionConfig, set: usize, p: ActionSet)
    requires
        set < old(cfg).sets.len(),
    ensures
        final(cfg)@ == with_page(old(cfg)@, set as int, p@),
{
    let ghost pv = p@;
    cfg.sets.set(set, p);
    assert(pages_view(cfg.sets@) =~= pages_view(old(cfg).sets@).update(set as int, pv));
}

/// A copy of entry `(set, entry)`.
pub fn get_entry(cfg: &QuickActionConfig, set: usize, entry: usize) -> (r: Option<SetEntry>)
    ensures
        r is Some <==> entry_at(cfg@, set as int, entry as int) is Some,
        r is Some ==> r->0@ == entry_at(cfg@, set as int, entry as int)->0,
{
    if set < cfg.sets.len() && entry < cfg.sets[set].entries.len() {
        Some(cfg.sets[set].entries[entry].clone())
    } else {
        None
    }
}

/// Replaces entry `(set, entry)` by `e`.
pub fn put_entry(cfg: &mut QuickActionConfig, set: usize, entry: usize, e: SetEntry)
    requires
        entry_at(old(cfg)@, set as int, entry as int) is Some,
    ensures
        final(cfg)@ == with_entry(old(cfg)@, set as int, entry as int, e@),
{
    let ghost ev = e@;
    let ghost old_page = old(cfg).sets@[set as int];
    cfg.sets[set].entries.set(entry, e);
    let ghost new_page = cfg.sets@[set as int];
    assert(entries_view(new_page.entries@) =~= entries_view(old_page.entries@).update(
        entry as int,
        ev,
    ));
    assert(new_page@ == (ActionSetView {
        entries: old_page@.entries.update(entry as int, ev),
        ..old_page@
    }));
    assert(pages_view(cfg.sets@) =~= pages_view(old(cfg).sets@).update(set as int, new_page@));
}

/// A copy of the quick action at `(set, entry)`.
pub fn get_action(cfg: &QuickActionConfig, set: usize, entry: usize) -> (r: Option<QuickAction>)
    ensures
        r is Some <==> action_at(cfg@, set as int, entry as int) is Some,
        r is Some ==> r->0@ == action_at(cfg@, set as int, entry as int)->0,
{
    if set < cfg.sets.len() && entry < cfg.sets[set].entries.len() {
        match &cfg.sets[set].entries[entry] {
            SetEntry::Action(a) => Some(a.clone()),
            _ => None,
        }
    } else {
        None
    }
}

/// A copy of the HUD switch at `(set, entry)`.
pub fn get_switch(cfg: &QuickActionConfig, set: usize, entry: usize) -> (r: Option<HudSwitch>)
    ensures
        r is Some <==> switch_at(cfg@, set as int, entry as int) is Some,
        r is Some ==> r->0@ == switch_at(cfg@, set as int, entry as int)->0,
{
    if set < cfg.sets.len() && entry < cfg.sets[set].entries.len() {
        match &cfg.sets[set].entries[entry] {
            SetEntry::HudSwitch(h) => Some(h.clone()),
            _ => None,
        }
    } else {
        None
    }
}

/// A copy of the radial menu set at `(set, entry)`.
pub fn get_wheel_set(cfg: &QuickActionConfig, set: usize, entry: usize) -> (r: Option<
    RadialMenuSet,
>)
    ensures
        r is Some <==> wheel_set_at(cfg@, set as int, entry as int) is Some,
        r is Some ==> r->0@ == wheel_set_at(cfg@, set as int, entry as int)->0,
{
    if set < cfg.sets.len() && entry < cfg.sets[set].entries.len() {
        match &cfg.sets[set].entries[entry] {
            SetEntry::RadialMenuSet(w) => Some(w.clone()),
            _ => None,
        }
    } else {
        None
    }
}

/// A copy of radial menu `wheel` of the set at `(set, entry)`.
pub fn get_menu(cfg: &QuickActionConfig, set: usize, entry: usize, wheel: usize) -> (r: Option<
    RadialMenu,
>)
    ensures
        r is Some <==> menu_at(cfg@, set as int, entry as int, wheel as int) is Some,
        r is Some ==> r->0@ == menu_at(cfg@, set as int, entry as int, wheel as int)->0,
{
    if set < cfg.sets.len() && entry < cfg.sets[set].entries.len() {
        match &cfg.sets[set].entries[entry] {
            SetEntry::RadialMenuSet(w) => {
                if wheel < w.radial_menus.len() {
                    Some(w.radial_menus[wheel].clone())
                } else {
                    None
                }
            },
            _ => None,
        }
    } else {
        None
    }
}

/// Replaces radial menu `wheel` of the set at `(set, entry)` by `m`.
pub fn put_menu(cfg: &mut QuickActionConfig, set: usize, entry: usize, wheel: usize, m: RadialMenu)
    requires
        menu_at(old(cfg)@, set as int, entry as int, wheel as int) is Some,
    ensures
        final(cfg)@ == with_menu(old(cfg)@, set as int, entry as int, wheel as int, m@),
{
    let mut ws = get_wheel_set(cfg, set, entry).unwrap();
    let ghost mv = m@;
    let ghost old_ws = ws@;
    ws.radial_menus.set(wheel, m);
    assert(menus_view(ws.radial_menus@) =~= old_ws.radial_menus.update(wheel as int, mv));
    put_entry(cfg, set, entry, SetEntry::RadialMenuSet(ws));
}

/// Indices of the enabled pages, in order.
pub fn enabled_hud_pages(cfg: &QuickActionConfig) -> (r: Vec<usize>)
    ensures
        r@ == enabled_pages(cfg@),
{
    let mut r: Vec<usize> = Vec::new();
    for i in 0..cfg.sets.len()
        invariant
            r@ == enabled_pages_upto(cfg@, i as int),
    {
        if cfg.sets[i].enabled {
            r.push(i);
        }
    }
    r
}

/// Ordinal of entry `entry` among the radial menu set entries of page `set`
/// (0 when the page does not exist).
pub fn wheel_entry_idx(cfg: &QuickActionConfig, set: usize, entry: usize) -> (r: usize)
    ensures
        r == (if 0 <= set < cfg@.sets.len() {
            wheel_entries_before(
                cfg@.sets[set as int].entries,
                if entry < cfg@.sets[set as int].entries.len() {
                    entry as int
                } else {
                    cfg@.sets[set as int].entries.len() as int
                },
            )
        } else {
            0
        }),
{
    if set >= cfg.sets.len() {
        return 0;
    }
    let entries = &cfg.sets[set].entries;
    let n = if entry < entries.len() {
        entry
    } else {
        entries.len()
    };
    let ghost ev = cfg@.sets[set as int].entries;
    let mut count: usize = 0;
    for i in 0..n
        invariant
            n <= entries.len(),
            ev == entries_view(entries@),
            count == wheel_entries_before(ev, i as int),
            count <= i,
    {
        match &entries[i] {
            SetEntry::RadialMenuSet(_) | SetEntry::Wheel(_) => {
                count = count + 1;
            },
            _ => {},
        }
    }
    count
}

} // verus!
