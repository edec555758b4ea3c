//! State, rules and wire handling of a session command palette.

pub mod catalog;
pub mod control;
pub mod domain;
pub mod domain_laws;
pub mod event;
pub mod hud;
pub mod json;
pub mod keys;
pub mod laws;
pub mod list_laws;
pub mod model;
pub mod note_laws;
pub mod notes;
pub mod overview;
pub mod pane_laws;
pub mod refresh;
pub mod refresh_laws;
pub mod shell;
pub mod text;
pub mod timeline;
pub mod timeline_laws;
pub mod tray;
pub mod update;
pub mod view_laws;
pub mod window;
pub mod window_laws;
pub mod wire_laws;
