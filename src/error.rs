//! The failures a shell command line can run into.

use vstd::prelude::*;

verus! {

/// What went wrong while evaluating one command line.
#[derive(Debug)]
pub enum ShellError {
    /// The line held no command: only blanks, or it was erased. The shell
    /// passes over it silently.
    EmptyInput,
    /// No builtin or external command has this name.
    CommandNotFound { command_name: String },
    /// A command could not be carried out; the message says why.
    CommandExecutionFail(String),
    /// The command line is malformed; the message says how.
    ParsingFail(String),
}

/// The text shown to the user for an error. Execution and parsing failures
/// are shown in red.
pub open spec fn error_text(e: ShellError) -> Seq<char> {
    match e {
        ShellError::EmptyInput => "empty input"@,
        ShellError::CommandNotFound { command_name } => command_name@ + ": command not found"@,
        ShellError::CommandExecutionFail(m) => "\x1b[31m"@ + m@ + "\x1b[0m"@,
        ShellError::ParsingFail(m) => "\x1b[31m"@ + m@ + "\x1b[0m"@,
    }
}

impl ShellError {
    /// The text shown to the user for this error.
    pub fn message(&self) -> (r: String)
        ensures
            r@ == error_text(*self),
    {
        match self {
            ShellError::EmptyInput => "empty input".to_string(),
            ShellError::CommandNotFound { command_name } => {
                let mut r = command_name.clone();
                r.append(": command not found");
                r
            },
            ShellError::CommandExecutionFail(m) => {
                let mut r = "\x1b[31m".to_string();
                r.append(m.as_str());
                r.append("\x1b[0m");
                r
            },
            ShellError::ParsingFail(m) => {
                let mut r = "\x1b[31m".to_string();
                r.append(m.as_str());
                r.append("\x1b[0m");
                r
            },
        }
    }
}

} // verus!
