//! Terminal events as the application sees them.

/// Keys, modifiers and key chords.
pub mod key;
