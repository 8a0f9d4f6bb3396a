//! The runner's error taxonomy and the rendering of its diagnostic text.
//!
//! Every failure of the runner is fatal to the caller; the error value
//! carries everything the diagnostic needs, and [`RunError::message_text`]
//! renders it. The caller decides whether to abort with that text.

use crate::numeral::dec_str;
use crate::numeral::format_i32;
use vstd::prelude::*;

verus! {

use vstd::string::StringExecFns;

/// The text that `String::from_utf8_lossy` decodes from `b`: the bytes read
/// as UTF-8, with each invalid sequence replaced by the replacement
/// character.
pub uninterp spec fn lossy_text(b: Seq<u8>) -> Seq<char>;

/// Relies on `String::from_utf8_lossy`: the decoding depends on the bytes
/// alone; valid UTF-8 — so in particular plain ASCII — is kept unchanged,
/// and no bytes decode to no text.
#[verifier::external_body]
pub(crate) fn decode_lossy(bytes: &Vec<u8>) -> (r: String)
    ensures
        r@ == lossy_text(bytes@),
        bytes@.len() == 0 ==> r@.len() == 0,
        (forall|i: int| 0 <= i < bytes@.len() ==> bytes@[i] < 128) ==> r@ == bytes@.map_values(
            |b: u8| b as char,
        ),
{
    String::from_utf8_lossy(bytes).into_owned()
}

/// The mathematical shape of a [`RunError`]: the same five kinds, with the
/// carried strings as character sequences and the exit code as an integer.
pub enum ErrorModel {
    EmptyCommand,
    SpawnFailure { os_error: Seq<char> },
    StreamReadFailure { stdout_error: Option<Seq<char>>, stderr_error: Option<Seq<char>> },
    WaitFailure { os_error: Seq<char> },
    CommandFailed { command: Seq<char>, code: Option<int>, output: Seq<char> },
}

/// Why a run of a command failed. Every kind is fatal: the runner never
/// recovers from any of them, it only reports.
#[derive(Debug)]
pub enum RunError {
    /// The command line held no token at all.
    EmptyCommand,
    /// The operating system could not create the child process.
    SpawnFailure { os_error: String },
    /// Reading one of the child's output streams failed while draining.
    StreamReadFailure { stdout_error: Option<String>, stderr_error: Option<String> },
    /// The operating system could not report the child's exit status.
    WaitFailure { os_error: String },
    /// The child ran and ended without success; the diagnostic carries the
    /// command line, the exit code if one exists, and the combined output.
    CommandFailed { command: String, code: Option<i32>, output: String },
}

/// The exit code as an integer, when one exists.
pub open spec fn code_model(code: Option<i32>) -> Option<int> {
    match code {
        Some(c) => Some(c as int),
        None => None,
    }
}

impl View for RunError {
    type V = ErrorModel;

    open spec fn view(&self) -> ErrorModel {
        match self {
            RunError::EmptyCommand => ErrorModel::EmptyCommand,
            RunError::SpawnFailure { os_error } => ErrorModel::SpawnFailure {
                os_error: os_error@,
            },
            RunError::StreamReadFailure { stdout_error, stderr_error } => {
                ErrorModel::StreamReadFailure {
                    stdout_error: match stdout_error {
                        Some(m) => Some(m@),
                        None => None,
                    },
                    stderr_error: match stderr_error {
                        Some(m) => Some(m@),
                        None => None,
                    },
                }
            },
            RunError::WaitFailure { os_error } => ErrorModel::WaitFailure { os_error: os_error@ },
            RunError::CommandFailed { command, code, output } => ErrorModel::CommandFailed {
                command: command@,
                code: code_model(*code),
                output: output@,
            },
        }
    }
}

/// The diagnostic text for each kind of failure: the failure kind, the
/// command line and exit code where relevant, and the combined output.
pub open spec fn message_of(e: ErrorModel) -> Seq<char> {
    match e {
        ErrorModel::EmptyCommand => "No command specified"@,
        ErrorModel::SpawnFailure { os_error } => "Failed to spawn command: "@ + os_error,
        ErrorModel::StreamReadFailure { stdout_error, stderr_error } => "Failed to read stdout or stderr"@
            + (match stdout_error {
            Some(m) => "\nstdout: "@ + m,
            None => Seq::empty(),
        }) + (match stderr_error {
            Some(m) => "\nstderr: "@ + m,
            None => Seq::empty(),
        }),
        ErrorModel::WaitFailure { os_error } => "Failed to wait for command: "@ + os_error,
        ErrorModel::CommandFailed { command, code, output } => match code {
            Some(c) => "\nCommand \""@ + command + "\" failed with return value "@ + dec_str(c)
                + "\n"@ + output,
            None => "\nCommand \""@ + command + "\" failed with no return value\n"@ + output,
        },
    }
}

impl RunError {
    /// Render the diagnostic text for this failure.
    pub fn message_text(&self) -> (s: String)
        ensures
            s@ == message_of(self@),
    {
        match self {
            RunError::EmptyCommand => <String as StringExecFns>::from_str("No command specified"),
            RunError::SpawnFailure { os_error } => {
                let mut s = <String as StringExecFns>::from_str("Failed to spawn command: ");
                s.append(os_error.as_str());
                s
            },
            RunError::StreamReadFailure { stdout_error, stderr_error } => {
                let mut s = <String as StringExecFns>::from_str("Failed to read stdout or stderr");
                match stdout_error {
                    Some(m) => {
                        s.append("\nstdout: ");
                        s.append(m.as_str());
                    },
                    None => {},
                }
                match stderr_error {
                    Some(m) => {
                        s.append("\nstderr: ");
                        s.append(m.as_str());
                    },
                    None => {},
                }
                proof {
                    assert(s@ =~= message_of(self@));
                }
                s
            },
            RunError::WaitFailure { os_error } => {
                let mut s = <String as StringExecFns>::from_str("Failed to wait for command: ");
                s.append(os_error.as_str());
                s
            },
            RunError::CommandFailed { command, code, output } => {
                match code {
                    Some(c) => {
                        let mut s = <String as StringExecFns>::from_str("\nCommand \"");
                        s.append(command.as_str());
                        s.append("\" failed with return value ");
                        let rendered = format_i32(*c);
                        s.append(rendered.as_str());
                        s.append("\n");
                        s.append(output.as_str());
                        proof {
                            assert(s@ =~= message_of(self@));
                        }
                        s
                    },
                    None => {
                        let mut s = <String as StringExecFns>::from_str("\nCommand \"");
                        s.append(command.as_str());
                        s.append("\" failed with no return value\n");
                        s.append(output.as_str());
                        proof {
                            assert(s@ =~= message_of(self@));
                        }
                        s
                    },
                }
            },
        }
    }
}

} // verus!
