use vstd::prelude::*;

use crate::wire::{decimal, write_decimal};

verus! {

/// Every way in which the core can fail.
#[derive(Debug, Clone, PartialEq, Eq)]
pub enum CoreError {
    /// No API token was supplied by any source.
    MissingCredential,
    /// The platform reports no configuration directory.
    NoConfigDir,
    /// The configuration directory cannot be written as text.
    ConfigDirNotText,
    /// Neither prompt text nor standard input gave a prompt.
    NoPrompt,
    /// The server answered with a status outside the success range.
    HttpStatus { status: u16, body: String },
    /// The server could not be reached, or the call timed out.
    Transport(String),
    /// The response body lacked the fields the core reads; the text says
    /// which.
    MalformedResponse(String),
    /// The server answered, but its body could not be read.
    UnreadableBody(String),
    /// Interactive input could not be read.
    Input(String),
}

/// The text shown to the user for an error.
pub open spec fn error_text(e: CoreError) -> Seq<char> {
    match e {
        CoreError::MissingCredential => "No API token was found"@,
        CoreError::NoConfigDir => "Could not find config directory"@,
        CoreError::ConfigDirNotText => "Could not convert config directory to string"@,
        CoreError::NoPrompt => "No prompt provided"@,
        CoreError::HttpStatus { status, body } => "Error: status "@ + decimal(status as nat) + "\n"@
            + body@,
        CoreError::Transport(d) => "Did not get response from server\n"@ + d@,
        CoreError::MalformedResponse(_) => "Could not serialize response from chat completion"@,
        CoreError::UnreadableBody(_) => "Could not read response text"@,
        CoreError::Input(d) => d@,
    }
}

impl CoreError {
    /// The text shown to the user for this error.
    pub fn message(&self) -> (r: String)
        ensures
            r@ == error_text(*self),
    {
        match self {
            CoreError::MissingCredential => String::from_str("No API token was found"),
            CoreError::NoConfigDir => String::from_str("Could not find config directory"),
            CoreError::ConfigDirNotText => String::from_str(
                "Could not convert config directory to string",
            ),
            CoreError::NoPrompt => String::from_str("No prompt provided"),
            CoreError::HttpStatus { status, body } => {
                let mut r = String::from_str("Error: status ");
                write_decimal(&mut r, *status as u64);
                r.append("\n");
                r.append(body.as_str());
                r
            },
            CoreError::Transport(d) => {
                let mut r = String::from_str("Did not get response from server\n");
                r.append(d.as_str());
                r
            },
            CoreError::MalformedResponse(_) => String::from_str(
                "Could not serialize response from chat completion",
            ),
            CoreError::UnreadableBody(_) => String::from_str("Could not read response text"),
            CoreError::Input(d) => d.clone(),
        }
    }
}

} // verus!
