//! Log severities; rendering and emission stay with the caller.

use vstd::prelude::*;

verus! {

/// Severity of a diagnostic line.
#[derive(Clone, Copy, Debug, PartialEq, Eq, Structural)]
pub enum LogLevel {
    Info,
    Warn,
    Error,
}

impl LogLevel {
    /// The prefix a diagnostic line of this severity carries.
    pub fn prefix(&self) -> (r: &'static str)
        ensures
            *self == LogLevel::Info ==> r@ == "INFO: "@,
            *self == LogLevel::Warn ==> r@ == "WARN: "@,
            *self == LogLevel::Error ==> r@ == "ERROR: "@,
    {
        match self {
            LogLevel::Info => "INFO: ",
            LogLevel::Warn => "WARN: ",
            LogLevel::Error => "ERROR: ",
        }
    }
}

} // verus!
