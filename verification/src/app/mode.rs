//! The modes of the application.

use crate::text::{lowercase, str_eq};
use vstd::prelude::*;

verus! {

/// Application mode.
#[derive(Clone, Copy, Debug, PartialEq, Eq, Structural)]
pub enum Mode {
    /// Normal mode.
    Normal,
    /// Visual mode.
    /// (Disables the mouse capture)
    Visual,
    /// Copy mode.
    /// (Makes it easier to copy values)
    Copy,
}

/// The mode that a lower-case name denotes.
pub open spec fn mode_of(name: Seq<char>) -> Option<Mode> {
    if name == "normal"@ || name == "n"@ {
        Some(Mode::Normal)
    } else if name == "visual"@ || name == "v"@ {
        Some(Mode::Visual)
    } else if name == "copy"@ || name == "c"@ {
        Some(Mode::Copy)
    } else {
        None
    }
}

impl Mode {
    /// Reads a mode from a name that is already in lower case.
    pub fn from_lowered(name: &str) -> (r: Option<Mode>)
        ensures
            r == mode_of(name@),
    {
        if str_eq(name, "normal") || str_eq(name, "n") {
            Some(Mode::Normal)
        } else if str_eq(name, "visual") || str_eq(name, "v") {
            Some(Mode::Visual)
        } else if str_eq(name, "copy") || str_eq(name, "c") {
            Some(Mode::Copy)
        } else {
            None
        }
    }

    /// Reads a mode from its name, whatever the case of its letters.
    pub fn from_str(s: &str) -> (r: Result<Mode, ()>)
        ensures
            match mode_of(lowercase(s@)) {
                Some(mode) => r == Ok::<Mode, ()>(mode),
                None => r is Err,
            },
    {
        let lowered = s.to_lowercase();
        match Mode::from_lowered(lowered.as_str()) {
            Some(mode) => Ok(mode),
            None => Err(()),
        }
    }

    /// The lower-case name of the mode.
    pub fn name(&self) -> (r: &'static str)
        ensures
            r@ == match *self {
                Mode::Normal => "normal"@,
                Mode::Visual => "visual"@,
                Mode::Copy => "copy"@,
            },
    {
        match self {
            Mode::Normal => "normal",
            Mode::Visual => "visual",
            Mode::Copy => "copy",
        }
    }

    /// The banner that announces the mode.
    pub fn to_string(&self) -> (r: String)
        ensures
            r@ == match *self {
                Mode::Normal => "-- NORMAL --"@,
                Mode::Visual => "-- VISUAL --"@,
                Mode::Copy => "-- COPY --"@,
            },
    {
        match self {
            Mode::Normal => "-- NORMAL --".to_owned(),
            Mode::Visual => "-- VISUAL --".to_owned(),
            Mode::Copy => "-- COPY --".to_owned(),
        }
    }
}

} // verus!
