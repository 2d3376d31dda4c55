//! A terminal user interface for managing GnuPG keys: the interactive
//! control layer, with its command language, key bindings, prompt and
//! viewport layout.

use vstd::prelude::*;

pub mod app;
pub mod args;
pub mod config;
pub mod error;
pub mod gpg;
pub mod term;
pub mod text;
pub mod widget;

verus! {

/// Minimum required version of the GPGME library.
pub const GPGME_REQUIRED_VERSION: &'static str = "1.7.0";

} // verus!
