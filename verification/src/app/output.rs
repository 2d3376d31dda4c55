//! The kinds of message that the prompt shows.

use crate::text::{lowercase, str_eq};
use vstd::prelude::*;

verus! {

/// Severity of a log record.
#[derive(Clone, Copy, Debug, PartialEq, Eq, Structural)]
pub enum Level {
    /// Serious errors.
    Error,
    /// Hazardous situations.
    Warn,
    /// Useful information.
    Info,
    /// Lower priority information.
    Debug,
    /// Very low priority, often extremely verbose, information.
    Trace,
}

/// Output type of the prompt.
#[derive(Clone, Copy, Debug, PartialEq, Eq, Structural)]
pub enum OutputType {
    /// No output.
    Silent,
    /// Successful execution.
    Success,
    /// Warning about execution.
    Warning,
    /// Failed execution.
    Failure,
    /// Performed an action (such as changing the mode).
    Action,
}

impl Default for OutputType {
    fn default() -> (r: Self)
        ensures
            r == OutputType::Silent,
    {
        OutputType::Silent
    }
}

/// The output type that a lower-case name denotes; an unknown name
/// denotes no output.
pub open spec fn output_type_of(name: Seq<char>) -> OutputType {
    if name == "success"@ {
        OutputType::Success
    } else if name == "warning"@ {
        OutputType::Warning
    } else if name == "failure"@ {
        OutputType::Failure
    } else if name == "action"@ {
        OutputType::Action
    } else {
        OutputType::Silent
    }
}

/// The mark that stands before a message of the given type.
pub open spec fn output_prefix(output_type: OutputType) -> Seq<char> {
    match output_type {
        OutputType::Success => "(i) "@,
        OutputType::Warning => "(w) "@,
        OutputType::Failure => "(e) "@,
        _ => ""@,
    }
}

/// The name of an output type as it is written in code.
pub open spec fn output_type_name(output_type: OutputType) -> Seq<char> {
    match output_type {
        OutputType::Silent => "None"@,
        OutputType::Success => "Success"@,
        OutputType::Warning => "Warning"@,
        OutputType::Failure => "Failure"@,
        OutputType::Action => "Action"@,
    }
}

impl OutputType {
    /// Reads an output type from a name that is already in lower case.
    pub fn from_lowered(name: &str) -> (r: OutputType)
        ensures
            r == output_type_of(name@),
    {
        if str_eq(name, "success") {
            OutputType::Success
        } else if str_eq(name, "warning") {
            OutputType::Warning
        } else if str_eq(name, "failure") {
            OutputType::Failure
        } else if str_eq(name, "action") {
            OutputType::Action
        } else {
            OutputType::Silent
        }
    }

    /// Reads an output type from its name, whatever the case of its
    /// letters.
    pub fn from(s: String) -> (r: OutputType)
        ensures
            r == output_type_of(lowercase(s@)),
    {
        let lowered = s.as_str().to_lowercase();
        OutputType::from_lowered(lowered.as_str())
    }

    /// The mark that stands before a message of this type.
    pub fn to_string(&self) -> (r: String)
        ensures
            r@ == output_prefix(*self),
    {
        self.prefix().to_owned()
    }

    /// The mark that stands before a message of this type.
    pub fn prefix(&self) -> (r: &'static str)
        ensures
            r@ == output_prefix(*self),
    {
        match self {
            OutputType::Success => "(i) ",
            OutputType::Warning => "(w) ",
            OutputType::Failure => "(e) ",
            _ => "",
        }
    }

    /// The name of the type as it is written in code.
    pub fn name(&self) -> (r: &'static str)
        ensures
            r@ == output_type_name(*self),
    {
        match self {
            OutputType::Silent => "None",
            OutputType::Success => "Success",
            OutputType::Warning => "Warning",
            OutputType::Failure => "Failure",
            OutputType::Action => "Action",
        }
    }

    /// Converts output type to log level.
    pub fn as_log_level(&self) -> (r: Level)
        ensures
            r == match *self {
                OutputType::Silent => Level::Trace,
                OutputType::Success => Level::Info,
                OutputType::Warning => Level::Warn,
                OutputType::Failure => Level::Error,
                OutputType::Action => Level::Info,
            },
    {
        match self {
            OutputType::Silent => Level::Trace,
            OutputType::Success => Level::Info,
            OutputType::Warning => Level::Warn,
            OutputType::Failure => Level::Error,
            OutputType::Action => Level::Info,
        }
    }
}

} // verus!
