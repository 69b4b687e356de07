//! Pomodoro timer logic: settings, timer rounds, themes and their SVG text.

pub mod color;
pub mod settings;
pub mod text;
pub mod theme;
pub mod timer;
pub mod window;
