//! Quick-action HUD editor: authored configuration, editor state and the
//! rules by which editor actions, input and navigation change them.
pub mod config;
pub mod model;
pub mod text;
pub mod state;
pub mod palette;
pub mod edit;
pub mod update;
pub mod action;
pub mod apply;
pub mod laws;
pub mod validation;
pub mod input;
pub mod capture;
pub mod hud;
pub mod shortcuts;
pub mod navigation;
pub mod drag;
pub mod events;
pub mod hud_laws;
pub mod cards;
pub mod sidebar;
pub mod operation_laws;
