//! Authored configuration for a floating HUD button.
use vstd::prelude::*;

verus! {

/// An `f32` setting held as its IEEE-754 bit pattern.
///
/// The library carries these values (through edits, snapshots and undo) but
/// never does arithmetic on them; the host converts with `f32::from_bits` /
/// `f32::to_bits`.
#[derive(Clone, Copy, PartialEq, Eq, Structural, Debug)]
pub struct FloatBits(pub u32);

/// Bit pattern of `0.0_f32`.
pub const F32_ZERO: u32 = 0x0000_0000;
/// Bit pattern of `1.0_f32`.
pub const F32_ONE: u32 = 0x3f80_0000;
/// Bit pattern of `48.0_f32`, the default action radius.
pub const F32_DEFAULT_RADIUS: u32 = 0x4240_0000;
/// Bit pattern of `80.0_f32`, the default button width.
pub const F32_DEFAULT_WIDTH: u32 = 0x42a0_0000;
/// Bit pattern of `28.0_f32`, the default button height.
pub const F32_DEFAULT_HEIGHT: u32 = 0x41e0_0000;

/// Coordinate interpretation for a floating button.
#[derive(Clone, Copy, PartialEq, Eq, Structural, Debug)]
pub enum PositionMode {
    /// Position relative to the HUD action layout.
    Relative,
    /// Position using absolute HUD coordinates.
    Absolute,
}

/// Editor label of a placement mode.
pub open spec fn position_label(m: PositionMode) -> Seq<char> {
    match m {
        PositionMode::Relative => "Relative"@,
        PositionMode::Absolute => "Absolute"@,
    }
}

/// The placement mode that follows `m` when cycling.
pub open spec fn position_next(m: PositionMode) -> PositionMode {
    match m {
        PositionMode::Relative => PositionMode::Absolute,
        PositionMode::Absolute => PositionMode::Relative,
    }
}

impl PositionMode {
    /// Returns the human-readable editor label.
    pub fn label(self) -> (r: &'static str)
        ensures
            r@ == position_label(self),
    {
        proof {
            reveal_strlit("Relative");
            reveal_strlit("Absolute");
        }
        match self {
            PositionMode::Relative => "Relative",
            PositionMode::Absolute => "Absolute",
        }
    }

    /// Returns the next placement mode.
    pub fn next(self) -> (r: Self)
        ensures
            r == position_next(self),
    {
        match self {
            PositionMode::Relative => PositionMode::Absolute,
            PositionMode::Absolute => PositionMode::Relative,
        }
    }
}

impl Default for PositionMode {
    fn default() -> (r: Self)
        ensures
            r == PositionMode::Relative,
    {
        PositionMode::Relative
    }
}

/// Shape used by a floating HUD button.
#[derive(Clone, Copy, PartialEq, Eq, Structural, Debug)]
pub enum ActionShape {
    /// Rounded rectangle.
    Rounded,
    /// Circle-like button.
    Round,
    /// Square button.
    Square,
    /// Diamond-shaped button.
    Diamond,
}

/// Editor label of a button shape.
pub open spec fn shape_label(s: ActionShape) -> Seq<char> {
    match s {
        ActionShape::Rounded => "Rounded"@,
        ActionShape::Round => "Round"@,
        ActionShape::Square => "Square"@,
        ActionShape::Diamond => "Diamond"@,
    }
}

/// The shape that follows `s` when cycling.
pub open spec fn shape_next(s: ActionShape) -> ActionShape {
    match s {
        ActionShape::Rounded => ActionShape::Round,
        ActionShape::Round => ActionShape::Square,
        ActionShape::Square => ActionShape::Diamond,
        ActionShape::Diamond => ActionShape::Rounded,
    }
}

/// Position of a shape in the cycle `Rounded, Round, Square, Diamond`.
pub open spec fn shape_index(s: ActionShape) -> int {
    match s {
        ActionShape::Rounded => 0,
        ActionShape::Round => 1,
        ActionShape::Square => 2,
        ActionShape::Diamond => 3,
    }
}

impl ActionShape {
    /// Returns the human-readable editor label.
    pub fn label(self) -> (r: &'static str)
        ensures
            r@ == shape_label(self),
    {
        proof {
            reveal_strlit("Rounded");
            reveal_strlit("Round");
            reveal_strlit("Square");
            reveal_strlit("Diamond");
        }
        match self {
            ActionShape::Rounded => "Rounded",
            ActionShape::Round => "Round",
            ActionShape::Square => "Square",
            ActionShape::Diamond => "Diamond",
        }
    }

    /// Returns the next button shape.
    pub fn next(self) -> (r: Self)
        ensures
            r == shape_next(self),
            shape_index(r) == (shape_index(self) + 1) % 4,
    {
        match self {
            ActionShape::Rounded => ActionShape::Round,
            ActionShape::Round => ActionShape::Square,
            ActionShape::Square => ActionShape::Diamond,
            ActionShape::Diamond => ActionShape::Rounded,
        }
    }
}

impl Default for ActionShape {
    fn default() -> (r: Self)
        ensures
            r == ActionShape::Rounded,
    {
        ActionShape::Rounded
    }
}

/// Cycling the placement mode twice returns to the starting mode.
pub proof fn law_position_next_involutive(m: PositionMode)
    ensures
        position_next(position_next(m)) == m,
        position_next(m) != m,
{
}

/// The shape reached from `s` by cycling `k` times.
pub open spec fn shape_cycled(s: ActionShape, k: nat) -> ActionShape
    decreases k,
{
    if k == 0 {
        s
    } else {
        shape_next(shape_cycled(s, (k - 1) as nat))
    }
}

/// Cycling the shape four times returns to the starting shape, and every
/// shape is reached from any other within fewer than four steps.
pub proof fn law_shape_cycles(s: ActionShape, t: ActionShape)
    ensures
        shape_cycled(s, 4) == s,
        shape_next(s) != s,
        shape_cycled(s, ((shape_index(t) - shape_index(s) + 4) % 4) as nat) == t,
{
    reveal_with_fuel(shape_cycled, 5);
}

/// Default fill color of a HUD button.
pub open spec fn default_button_color_spec() -> Seq<char> {
    "#3b82f6"@
}

/// Default hold command of a HUD button.
pub open spec fn default_hold_command_spec() -> Seq<char> {
    "none"@
}

/// Default fill color of a HUD button.
pub fn default_button_color() -> (r: String)
    ensures
        r@ == default_button_color_spec(),
{
    String::from_str("#3b82f6")
}

/// Default width of a HUD button (`80.0`).
pub fn default_button_width() -> (r: FloatBits)
    ensures
        r == FloatBits(F32_DEFAULT_WIDTH),
{
    FloatBits(F32_DEFAULT_WIDTH)
}

/// Default height of a HUD button (`28.0`).
pub fn default_button_height() -> (r: FloatBits)
    ensures
        r == FloatBits(F32_DEFAULT_HEIGHT),
{
    FloatBits(F32_DEFAULT_HEIGHT)
}

/// Default hold command of a HUD button.
pub fn default_hold_command() -> (r: String)
    ensures
        r@ == default_hold_command_spec(),
{
    String::from_str("none")
}

/// A key-bound floating HUD button.
#[derive(Debug)]
pub struct QuickAction {
    /// Display name shown on the button.
    pub name: String,
    /// Optional explanatory text for this HUD button.
    pub description: String,
    /// Keyboard key or gamepad button (`"GP:"` prefix) that triggers this action.
    pub key: String,
    /// Optional icon asset path or symbolic icon.
    pub icon: String,
    /// Action mapping invoked by the button.
    pub command: String,
    /// Command/mapping used while the input is held.
    pub hold_command: String,
    /// Whether holding the binding invokes `hold_command`.
    pub hold: bool,
    /// Whether the button is visible while the HUD is open.
    pub show_on_menu: bool,
    /// Minimum time between activations while the HUD is open.
    pub cooldown_secs: FloatBits,
    /// Whether the button label is rendered.
    pub show_labels: bool,
    /// Whether the button icon is rendered.
    pub show_icon: bool,
    /// Button opacity.
    pub opacity: FloatBits,
    /// Position interpretation used by the HUD layout.
    pub position: PositionMode,
    /// Radial distance from the action anchor.
    pub radius: FloatBits,
    /// Horizontal editor offset from the HUD's default action area.
    pub offset_x: FloatBits,
    /// Vertical editor offset from the HUD's default action area.
    pub offset_y: FloatBits,
    /// Rotation of the floating button in degrees.
    pub rotation: FloatBits,
    /// Button shape.
    pub shape: ActionShape,
    /// Button fill color.
    pub color: String,
    /// Button width in logical pixels.
    pub width: FloatBits,
    /// Button height in logical pixels.
    pub height: FloatBits,
    /// Whether the button is active.
    pub enabled: bool,
    /// Close the HUD overlay when this action's shortcut is pressed.
    pub close_on_select: bool,
}

/// Mathematical content of a [`QuickAction`]: strings as character sequences.
pub struct QuickActionView {
    pub name: Seq<char>,
    pub description: Seq<char>,
    pub key: Seq<char>,
    pub icon: Seq<char>,
    pub command: Seq<char>,
    pub hold_command: Seq<char>,
    pub hold: bool,
    pub show_on_menu: bool,
    pub cooldown_secs: FloatBits,
    pub show_labels: bool,
    pub show_icon: bool,
    pub opacity: FloatBits,
    pub position: PositionMode,
    pub radius: FloatBits,
    pub offset_x: FloatBits,
    pub offset_y: FloatBits,
    pub rotation: FloatBits,
    pub shape: ActionShape,
    pub color: Seq<char>,
    pub width: FloatBits,
    pub height: FloatBits,
    pub enabled: bool,
    pub close_on_select: bool,
}

impl View for QuickAction {
    type V = QuickActionView;

    open spec fn view(&self) -> QuickActionView {
        QuickActionView {
            name: self.name@,
            description: self.description@,
            key: self.key@,
            icon: self.icon@,
            command: self.command@,
            hold_command: self.hold_command@,
            hold: self.hold,
            show_on_menu: self.show_on_menu,
            cooldown_secs: self.cooldown_secs,
            show_labels: self.show_labels,
            show_icon: self.show_icon,
            opacity: self.opacity,
            position: self.position,
            radius: self.radius,
            offset_x: self.offset_x,
            offset_y: self.offset_y,
            rotation: self.rotation,
            shape: self.shape,
            color: self.color@,
            width: self.width,
            height: self.height,
            enabled: self.enabled,
            close_on_select: self.close_on_select,
        }
    }
}

/// Icon of a freshly created action.
pub open spec fn default_action_icon() -> Seq<char> {
    "\u{25c6}"@
}

/// The action that `QuickAction::default()` produces, named `name`.
pub open spec fn default_action_view(name: Seq<char>) -> QuickActionView {
    QuickActionView {
        name: name,
        description: Seq::empty(),
        key: Seq::empty(),
        icon: default_action_icon(),
        command: "none"@,
        hold_command: "none"@,
        hold: false,
        show_on_menu: true,
        cooldown_secs: FloatBits(F32_ZERO),
        show_labels: true,
        show_icon: true,
        opacity: FloatBits(F32_ONE),
        position: PositionMode::Relative,
        radius: FloatBits(F32_DEFAULT_RADIUS),
        offset_x: FloatBits(F32_ZERO),
        offset_y: FloatBits(F32_ZERO),
        rotation: FloatBits(F32_ZERO),
        shape: ActionShape::Rounded,
        color: default_button_color_spec(),
        width: FloatBits(F32_DEFAULT_WIDTH),
        height: FloatBits(F32_DEFAULT_HEIGHT),
        enabled: true,
        close_on_select: true,
    }
}

impl QuickAction {
    /// A default action carrying the given display name.
    pub fn named(name: String) -> (r: Self)
        ensures
            r@ == default_action_view(name@),
    {
        QuickAction {
            name,
            description: String::new(),
            key: String::new(),
            icon: String::from_str("\u{25c6}"),
            command: String::from_str("none"),
            hold_command: default_hold_command(),
            hold: false,
            show_on_menu: true,
            cooldown_secs: FloatBits(F32_ZERO),
            show_labels: true,
            show_icon: true,
            opacity: FloatBits(F32_ONE),
            position: PositionMode::Relative,
            radius: FloatBits(F32_DEFAULT_RADIUS),
            offset_x: FloatBits(F32_ZERO),
            offset_y: FloatBits(F32_ZERO),
            rotation: FloatBits(F32_ZERO),
            shape: ActionShape::Rounded,
            color: default_button_color(),
            width: default_button_width(),
            height: default_button_height(),
            enabled: true,
            close_on_select: true,
        }
    }

    /// Name reported to the HUD.
    pub fn hud_name(&self) -> (r: &str)
        ensures
            r@ == self.name@,
    {
        self.name.as_str()
    }

    /// Whether the HUD treats this action as enabled.
    pub fn hud_enabled(&self) -> (r: bool)
        ensures
            r == self.enabled,
    {
        self.enabled
    }
}

impl Default for QuickAction {
    fn default() -> (r: Self)
        ensures
            r@ == default_action_view("Action"@),
    {
        QuickAction::named(String::from_str("Action"))
    }
}

impl Clone for QuickAction {
    fn clone(&self) -> (r: Self)
        ensures
            r@ == self@,
    {
        QuickAction {
            name: self.name.clone(),
            description: self.description.clone(),
            key: self.key.clone(),
            icon: self.icon.clone(),
            command: self.command.clone(),
            hold_command: self.hold_command.clone(),
            hold: self.hold,
            show_on_menu: self.show_on_menu,
            cooldown_secs: self.cooldown_secs,
            show_labels: self.show_labels,
            show_icon: self.show_icon,
            opacity: self.opacity,
            position: self.position,
            radius: self.radius,
            offset_x: self.offset_x,
            offset_y: self.offset_y,
            rotation: self.rotation,
            shape: self.shape,
            color: self.color.clone(),
            width: self.width,
            height: self.height,
            enabled: self.enabled,
            close_on_select: self.close_on_select,
        }
    }
}

} // verus!
