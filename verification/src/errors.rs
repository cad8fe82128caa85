//! The error taxonomy: transport, upstream-status and decode failures from the
//! model endpoint, and command-layer failures.

use crate::text::{decimal_digits, u64_to_string};
use vstd::prelude::*;
use vstd::string::StringExecFns;

verus! {

/// A failure of one client operation against the model endpoint.
#[derive(Debug)]
pub enum LmError {
    /// The request could not be sent or the connection failed.
    TransportError,
    /// The endpoint answered with a non-success HTTP status.
    UpstreamError { status: u16 },
    /// A response body or event payload could not be parsed.
    DecodeError,
}

/// A failure of one command dispatch.
#[derive(Debug)]
pub enum CommandError {
    /// The command name is not registered.
    UnknownCommand,
    /// A handler failed; its message is carried unchanged.
    HandlerError(String),
}

impl LmError {
    /// The single user-visible line for this error.
    pub fn message(&self) -> (r: String)
        ensures
            match self {
                LmError::TransportError => r@ == "Transport error"@,
                LmError::UpstreamError { status } => r@ == "Upstream error with status: "@
                    + decimal_digits(*status as nat),
                LmError::DecodeError => r@ == "Failed to parse response JSON"@,
            },
    {
        match self {
            LmError::TransportError => String::from_str("Transport error"),
            LmError::UpstreamError { status } => {
                let mut s = String::from_str("Upstream error with status: ");
                let digits = u64_to_string(*status as u64);
                s.append(digits.as_str());
                s
            },
            LmError::DecodeError => String::from_str("Failed to parse response JSON"),
        }
    }
}

impl CommandError {
    /// The single user-visible line for this error.
    pub fn message(&self) -> (r: String)
        ensures
            match self {
                CommandError::UnknownCommand => r@
                    == "Unknown command. Type /help for a list of commands."@,
                CommandError::HandlerError(m) => r@ == m@,
            },
    {
        match self {
            CommandError::UnknownCommand => String::from_str(
                "Unknown command. Type /help for a list of commands.",
            ),
            CommandError::HandlerError(m) => m.clone(),
        }
    }
}

} // verus!
