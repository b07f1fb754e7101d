//! What the screens show, computed from the state: texts, rows, heights and
//! areas. Drawing them into a terminal is left to the caller.

pub mod layout;
pub mod main_screen;
pub mod settings_screen;
pub mod theme;
pub mod widgets;

pub use main_screen::MainScreen;
pub use settings_screen::SettingsScreen;
