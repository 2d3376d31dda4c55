//! Main application which is responsible for operations on the terminal.

/// Application mode.
pub mod mode;

/// Kinds of prompt output.
pub mod output;

/// Selection helper.
pub mod selection;

/// Style helper.
pub mod style;

/// Clipboard content kinds.
pub mod clipboard;

/// Application commands.
pub mod command;

/// Application tabs.
pub mod tab;

/// Application prompt.
pub mod prompt;

/// Input and command handler.
pub mod handler;

/// Application state.
pub mod state;

/// Application banner text.
pub mod banner;

/// Key bindings helper.
pub mod keys;

/// Application launcher.
pub mod launcher;

/// Requests to the world around the application.
pub mod request;

/// What commands do to the application.
pub mod transition;

/// What the interface shows.
pub mod renderer;
