//! Core logic of a split-pane text editor: colors and themes, hex color
//! parsing, configuration, key bindings, window geometry, pane layout, and
//! the state machines behind the command palette and the theme editor.
pub mod appearance;
pub mod color;
pub mod component;
pub mod config;
pub mod editor;
pub mod environment;
pub mod event;
pub mod keys;
pub mod modal;
pub mod pane;
pub mod preview;
pub mod session;
pub mod strutil;
pub mod theme;
pub mod theme_editor;
pub mod window_state;

pub use color::Color;
pub use theme::Theme;
