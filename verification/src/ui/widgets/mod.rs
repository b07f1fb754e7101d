//! The parts that the main screen is made of.

pub mod command_menu;
pub mod feedback;
pub mod header;
pub mod prompt_input;
pub mod score_display;

pub use command_menu::CommandMenu;
pub use feedback::Feedback;
pub use header::Header;
pub use prompt_input::PromptInput;
pub use score_display::ScoreDisplay;
