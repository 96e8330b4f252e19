# quick_action_hud

The editing rules of a quick-action HUD: pages of floating buttons, HUD
switches and radial menu sets, edited in place with the mouse, the keyboard
or a gamepad, with undo and redo.

The library (`src/`) is verified with Verus. It holds the configuration
model and its views, every editor action and what it does to the
configuration, the editor state and the HUD state, the HUD buttons and
sectors, shortcuts, navigation, binding capture, typing, validation messages,
the rows of the editor's cards, and the editor sidebar's panels as rows of
focusable controls in gamepad focus order (`src/sidebar.rs`). Contracts are stated over the views;
`src/laws.rs` and `src/hud_laws.rs` prove properties across calls (undo and
redo, bounded history, round trips, invariants of navigation and capture).

The radial menus of a set share one look: while a menu of a set is
selected, every edit (and the selection itself) gives that menu's look
(theme, radii, colours, opacities, borders, labels, icons, offsets and stick
binding; not its name, sectors or cooldown) to every menu of the set, and a
menu added to a set takes the look of its first menu. Pages may also hold
standalone radial menus, which count among the page's wheel entries and are
stepped through with the page's own wheel shortcuts.

Floating-point values are stored as `f32` bit patterns (`FloatBits`): the
library stores and compares them but never computes with them.

`app/` is the host: the RON file format and its reading and writing,
conversion of Bevy input into plain values, floating-point timing and
geometry (including the stepped values of the sidebar's float steppers), and
a Bevy plugin that feeds each frame to the library, activates the focused
sidebar row from the gamepad, and performs the effects it returns (saving and
loading).
