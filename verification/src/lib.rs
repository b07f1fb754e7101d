//! A terminal application that takes a prompt, has a backend judge it, and
//! shows the judgement: its state machine, what its screens show, what it
//! asks of a backend, and what a self-update decides. Terminal, network and
//! disk are left to the caller.

pub mod app;
pub mod buffer;
pub mod input;
pub mod model;
pub mod palette;
pub mod providers;
pub mod text;
pub mod types;
pub mod ui;
pub mod update;
pub mod words;
