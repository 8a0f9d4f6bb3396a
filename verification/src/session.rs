//! One run of a command, as a linear session of verified decisions.
//!
//! The runner itself owns no process machinery: a thin shell spawns the
//! child, polls its two pipes, and waits for it, feeding what it observed
//! into the session. The session makes every decision — how the command
//! line splits, what the combined buffer holds, when draining is complete,
//! and how the exit status is judged — and each decision is verified.

use crate::report::code_model;
use crate::report::decode_lossy;
use crate::report::lossy_text;
use crate::report::ErrorModel;
use crate::report::RunError;
use crate::tokens::tokenize;
use crate::tokens::tokens_of;
use vstd::prelude::*;

verus! {

/// What one poll of a child output stream observed: the bytes currently
/// available (possibly none), or the operating-system error text when the
/// read failed.
pub enum ReadResult {
    Data(Vec<u8>),
    Failed(String),
}

/// What waiting for the child observed: its exit status — `success` as the
/// operating system judges it, with the numeric exit code when one exists —
/// or the operating-system error text when the wait itself failed.
pub enum WaitResult {
    Status { success: bool, code: Option<i32> },
    Failed(String),
}

/// One run of a command: the tokenized command line and the combined output
/// captured so far.
#[derive(Debug)]
pub struct Session {
    /// The original command line, kept verbatim for the diagnostic.
    pub command: String,
    /// The first token: the program to execute.
    pub program: String,
    /// The remaining tokens: the arguments, passed on verbatim.
    pub args: Vec<String>,
    /// The combined output captured so far: bytes from both streams,
    /// interleaved in the order the drain observed them.
    pub captured: Vec<u8>,
}

/// Open a session for `command_line`: split it on whitespace and take the
/// first token as the program. A line with no token at all is the one
/// failure that needs no child process.
pub fn begin(command_line: &str) -> (r: Result<Session, RunError>)
    ensures
        match r {
            Ok(session) => {
                &&& tokens_of(command_line@).len() > 0
                &&& session.command@ == command_line@
                &&& session.program@ == tokens_of(command_line@)[0]
                &&& session.args.deep_view() == tokens_of(command_line@).drop_first()
                &&& session.captured@ == Seq::<u8>::empty()
            },
            Err(e) => {
                &&& tokens_of(command_line@).len() == 0
                &&& e@ == ErrorModel::EmptyCommand
            },
        },
{
    let mut toks = tokenize(command_line);
    if toks.len() == 0 {
        Err(RunError::EmptyCommand)
    } else {
        let ghost all = toks.deep_view();
        let program = toks.remove(0);
        proof {
            assert(toks.deep_view() =~= all.drop_first());
        }
        Ok(
            Session {
                command: command_line.to_owned(),
                program,
                args: toks,
                captured: Vec::new(),
            },
        )
    }
}

/// What a finished run amounts to: nothing on success, the error on failure.
pub open spec fn outcome_model(r: Result<(), RunError>) -> Option<ErrorModel> {
    match r {
        Ok(u) => None,
        Err(e) => Some(e@),
    }
}

/// The judgment of an exit status: a successful status ends the run
/// silently and the captured output is discarded; any other status is a
/// failure whose diagnostic carries the command line, the exit code when one
/// exists, and the captured output decoded as text.
pub open spec fn finish_outcome(
    command: Seq<char>,
    success: bool,
    code: Option<int>,
    captured: Seq<u8>,
) -> Option<ErrorModel> {
    if success {
        None
    } else {
        Some(ErrorModel::CommandFailed { command, code, output: lossy_text(captured) })
    }
}

impl Session {
    /// Absorb one round of polling both streams: append what standard-output
    /// yielded, then what standard-error yielded, and report whether the
    /// drain is complete. A failed read on either stream is fatal and names
    /// the failing stream or streams.
    ///
    /// The drain counts as complete exactly when both streams yielded zero
    /// bytes in the same round. This is a proxy for the child having
    /// finished writing, and a deliberate quirk of the design: a child that
    /// is alive but momentarily silent also shows two empty reads, so the
    /// drain can end early and output written after that is never captured.
    /// The wait that follows still blocks until the child truly exits, so
    /// the judgment of the exit status is unaffected.
    pub fn poll(&mut self, stdout_read: ReadResult, stderr_read: ReadResult) -> (r: Result<
        bool,
        RunError,
    >)
        ensures
            final(self).command == old(self).command,
            final(self).program == old(self).program,
            final(self).args == old(self).args,
            match (stdout_read, stderr_read) {
                (ReadResult::Data(o), ReadResult::Data(e)) => {
                    &&& final(self).captured@ == old(self).captured@ + o@ + e@
                    &&& r matches Ok(done) && done == (o@.len() == 0 && e@.len() == 0)
                },
                _ => {
                    &&& final(self).captured == old(self).captured
                    &&& r matches Err(err) && err@ == (ErrorModel::StreamReadFailure {
                        stdout_error: match stdout_read {
                            ReadResult::Failed(m) => Some(m@),
                            ReadResult::Data(o) => None,
                        },
                        stderr_error: match stderr_read {
                            ReadResult::Failed(m) => Some(m@),
                            ReadResult::Data(o) => None,
                        },
                    })
                },
            },
    {
        match (stdout_read, stderr_read) {
            (ReadResult::Data(o), ReadResult::Data(e)) => {
                let done = o.len() == 0 && e.len() == 0;
                let mut o = o;
                let mut e = e;
                self.captured.append(&mut o);
                self.captured.append(&mut e);
                Ok(done)
            },
            (so, se) => {
                let stdout_error = match so {
                    ReadResult::Failed(m) => Some(m),
                    ReadResult::Data(o) => None,
                };
                let stderr_error = match se {
                    ReadResult::Failed(m) => Some(m),
                    ReadResult::Data(e) => None,
                };
                Err(RunError::StreamReadFailure { stdout_error, stderr_error })
            },
        }
    }

    /// Judge the child's exit, consuming the session. A successful status
    /// returns silently — whatever was captured is discarded — and any other
    /// status, or a failure of the wait itself, is reported as an error.
    pub fn finish(self, wait: WaitResult) -> (r: Result<(), RunError>)
        ensures
            match wait {
                WaitResult::Status { success, code } => outcome_model(r) == finish_outcome(
                    self.command@,
                    success,
                    code_model(code),
                    self.captured@,
                ),
                WaitResult::Failed(m) => r matches Err(e) && e@ == (ErrorModel::WaitFailure {
                    os_error: m@,
                }),
            },
    {
        match wait {
            WaitResult::Status { success, code } => {
                if success {
                    Ok(())
                } else {
                    let output = decode_lossy(&self.captured);
                    Err(RunError::CommandFailed { command: self.command, code, output })
                }
            },
            WaitResult::Failed(m) => Err(RunError::WaitFailure { os_error: m }),
        }
    }
}

/// Running the same command twice with the same observed events ends the
/// same way both times: the outcome is a function of the command line and
/// of what the run observed, and nothing persists from one run to the next.
pub proof fn lemma_rerun_same_outcome(
    r1: Result<(), RunError>,
    r2: Result<(), RunError>,
    command: Seq<char>,
    success: bool,
    code: Option<int>,
    captured: Seq<u8>,
)
    requires
        outcome_model(r1) == finish_outcome(command, success, code, captured),
        outcome_model(r2) == finish_outcome(command, success, code, captured),
    ensures
        outcome_model(r1) == outcome_model(r2),
        r1 is Ok <==> r2 is Ok,
{
}

} // verus!
