//! What can go wrong while the environment is controlled.

use vstd::prelude::*;
use vstd::string::*;
use crate::text::chain;

verus! {

/// A failure, with what there is to say about it.
#[derive(Debug, Clone, PartialEq, Eq)]
pub enum CliError {
    /// A configuration document was no JSON.
    Json(String),
    /// A command could not be run, or ended with a failure.
    Command(String),
    /// A command's output was no UTF-8.
    InvalidUtf8(String),
    /// A command printed nothing where an answer was expected.
    EmptyOutput,
    /// Git could not be asked, or had no answer.
    Git(String),
    /// Docker could not be asked, or had no answer.
    Docker(String),
    /// The tool was driven in a way that its course does not allow.
    Config(String),
}

/// A failure as contracts see it: its kind, and its details as characters.
pub enum Failure {
    Json(Seq<char>),
    Command(Seq<char>),
    InvalidUtf8(Seq<char>),
    EmptyOutput,
    Git(Seq<char>),
    Docker(Seq<char>),
    Config(Seq<char>),
}

impl View for CliError {
    type V = Failure;

    open spec fn view(&self) -> Failure {
        match self {
            CliError::Json(m) => Failure::Json(m@),
            CliError::Command(m) => Failure::Command(m@),
            CliError::InvalidUtf8(m) => Failure::InvalidUtf8(m@),
            CliError::EmptyOutput => Failure::EmptyOutput,
            CliError::Git(m) => Failure::Git(m@),
            CliError::Docker(m) => Failure::Docker(m@),
            CliError::Config(m) => Failure::Config(m@),
        }
    }
}

impl Failure {
    /// The line that tells the user of this failure.
    pub open spec fn text(self) -> Seq<char> {
        match self {
            Failure::Json(m) => "JSON parse error: "@ + m,
            Failure::Command(m) => "Command execution failed: "@ + m,
            Failure::InvalidUtf8(m) => "Invalid UTF-8 output: "@ + m,
            Failure::EmptyOutput => "No output from command"@,
            Failure::Git(m) => "Git error: "@ + m,
            Failure::Docker(m) => "Docker error: "@ + m,
            Failure::Config(m) => "Configuration error: "@ + m,
        }
    }
}

impl CliError {
    /// The line that tells the user of this failure.
    pub fn message(&self) -> (r: String)
        ensures
            r@ == self@.text(),
    {
        match self {
            CliError::Json(m) => chain("JSON parse error: ", m.as_str()),
            CliError::Command(m) => chain("Command execution failed: ", m.as_str()),
            CliError::InvalidUtf8(m) => chain("Invalid UTF-8 output: ", m.as_str()),
            CliError::EmptyOutput => String::from_str("No output from command"),
            CliError::Git(m) => chain("Git error: ", m.as_str()),
            CliError::Docker(m) => chain("Docker error: ", m.as_str()),
            CliError::Config(m) => chain("Configuration error: ", m.as_str()),
        }
    }
}

} // verus!
