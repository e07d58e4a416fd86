//! The launch-configuration engine of a launcher for the Zandronum engine:
//! the table of supported IWADs, their discovery in a folder, the settings
//! that persist the user's choices, and the assembly of the game's command
//! line.
//!
//! The library touches neither the environment nor the file system. Both
//! are handed to it as values: an [`environment::Environment`] and a
//! [`files::FileSnapshot`].

pub mod catalog;
pub mod command;
pub mod controller;
pub mod discovery;
pub mod environment;
pub mod file_select;
pub mod files;
pub mod settings;
pub mod state;
pub mod text;
