//! Custom widgets and helpers for the terminal interface.

/// Table widget with state support.
pub mod table;

/// List widget with state support.
pub mod list;

/// Row item with limited width/height and scrolling properties.
pub mod row;

/// Style helper.
pub mod style;

/// Areas of the terminal.
pub mod rect;

/// Styled text.
pub mod text;
