//! The error taxonomy of the command surface: protocol-shape errors,
//! precondition errors raised by the state machine before any driver call,
//! and opaque driver-reported failures. Each error has a stable numeric
//! code and a fixed message.

use vstd::prelude::*;

verus! {

/// Every way a command can fail. `DriverError` carries the driver's own
/// message verbatim; the core never reinterprets it.
#[derive(Debug, Clone, PartialEq)]
pub enum CommandError {
    MethodNotFound,
    InvalidParams,
    NotConnected,
    SelectionModeDisabled,
    NoActiveElement,
    EmptyCatalog,
    UnsupportedDirection,
    DriverError(String),
}

impl CommandError {
    /// The stable protocol code of this error.
    pub open spec fn spec_code(&self) -> int {
        match *self {
            CommandError::MethodNotFound => -32601,
            CommandError::InvalidParams => -32602,
            CommandError::NotConnected => -32001,
            CommandError::SelectionModeDisabled => -32002,
            CommandError::NoActiveElement => -32003,
            CommandError::EmptyCatalog => -32004,
            CommandError::UnsupportedDirection => -32005,
            CommandError::DriverError(_) => -32006,
        }
    }

    pub fn code(&self) -> (c: i32)
        ensures
            c == self.spec_code(),
    {
        match *self {
            CommandError::MethodNotFound => -32601,
            CommandError::InvalidParams => -32602,
            CommandError::NotConnected => -32001,
            CommandError::SelectionModeDisabled => -32002,
            CommandError::NoActiveElement => -32003,
            CommandError::EmptyCatalog => -32004,
            CommandError::UnsupportedDirection => -32005,
            CommandError::DriverError(_) => -32006,
        }
    }

    /// The fixed human-readable message of this error.
    pub open spec fn spec_message(&self) -> Seq<char> {
        match *self {
            CommandError::MethodNotFound => "Method not found"@,
            CommandError::InvalidParams => "Invalid params"@,
            CommandError::NotConnected => "Browser not connected"@,
            CommandError::SelectionModeDisabled => "Selection mode is not enabled"@,
            CommandError::NoActiveElement => "No active element"@,
            CommandError::EmptyCatalog => "Element catalog is empty"@,
            CommandError::UnsupportedDirection => "Unsupported direction"@,
            CommandError::DriverError(_) => "Driver error"@,
        }
    }

    pub fn message(&self) -> (m: String)
        ensures
            m@ == self.spec_message(),
    {
        match *self {
            CommandError::MethodNotFound => "Method not found".to_owned(),
            CommandError::InvalidParams => "Invalid params".to_owned(),
            CommandError::NotConnected => "Browser not connected".to_owned(),
            CommandError::SelectionModeDisabled => "Selection mode is not enabled".to_owned(),
            CommandError::NoActiveElement => "No active element".to_owned(),
            CommandError::EmptyCatalog => "Element catalog is empty".to_owned(),
            CommandError::UnsupportedDirection => "Unsupported direction".to_owned(),
            CommandError::DriverError(_) => "Driver error".to_owned(),
        }
    }

    /// The opaque detail attached to this error: the driver's message for
    /// `DriverError`, nothing for every other variant.
    pub fn detail(&self) -> (d: Option<String>)
        ensures
            *self matches CommandError::DriverError(m) ==> d == Some(m),
            !(*self is DriverError) ==> d is None,
    {
        match self {
            CommandError::DriverError(m) => Some(m.clone()),
            _ => None,
        }
    }
}

} // verus!
