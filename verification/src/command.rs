//! External commands: what is to be run, and how a run ended.
//!
//! The library runs nothing itself. It says which command is to be run, and is told the
//! outcome.

use vstd::prelude::*;
use vstd::string::*;

verus! {

/// A program and its arguments.
#[derive(Debug)]
pub struct Command {
    pub program: String,
    pub args: Vec<String>,
}

/// A command as plain text.
pub struct CommandView {
    pub program: Seq<char>,
    pub args: Seq<Seq<char>>,
}

/// The texts of a list of strings.
pub open spec fn texts(strings: Seq<String>) -> Seq<Seq<char>> {
    Seq::new(strings.len(), |i: int| strings[i]@)
}

impl View for Command {
    type V = CommandView;

    open spec fn view(&self) -> CommandView {
        CommandView { program: self.program@, args: texts(self.args@) }
    }
}

/// How the run of a command ended.
#[derive(Debug)]
pub enum CommandOutcome {
    /// The program could not be started, for the reason given.
    NotStarted { reason: String },
    /// The program ran and ended. `code` is its exit code, `None` where it has none.
    Exited { code: Option<i32>, stdout: Vec<u8>, stderr: Vec<u8> },
}

/// An outcome as plain values.
pub enum OutcomeView {
    NotStarted { reason: Seq<char> },
    Exited { code: Option<i32>, stdout: Seq<u8>, stderr: Seq<u8> },
}

impl OutcomeView {
    /// Whether the program ran and ended with exit code 0.
    pub open spec fn succeeded(self) -> bool {
        self matches OutcomeView::Exited { code: Some(c), .. } && c == 0
    }

    /// Why a run failed: the reason why the program did not start, or else what it wrote to
    /// its error stream.
    pub open spec fn failure_cause(self) -> Seq<char> {
        match self {
            OutcomeView::NotStarted { reason } => reason,
            OutcomeView::Exited { stderr, .. } => utf8_lossy(stderr),
        }
    }
}

impl View for CommandOutcome {
    type V = OutcomeView;

    open spec fn view(&self) -> OutcomeView {
        match self {
            CommandOutcome::NotStarted { reason } => OutcomeView::NotStarted { reason: reason@ },
            CommandOutcome::Exited { code, stdout, stderr } => OutcomeView::Exited {
                code: *code,
                stdout: stdout@,
                stderr: stderr@,
            },
        }
    }
}

impl CommandOutcome {
    /// Whether the program ran and ended with exit code 0.
    pub fn succeeded(&self) -> (r: bool)
        ensures
            r == self@.succeeded(),
    {
        match self {
            CommandOutcome::NotStarted { .. } => false,
            CommandOutcome::Exited { code, .. } => match code {
                Some(c) => *c == 0,
                None => false,
            },
        }
    }
}

/// The text that `String::from_utf8_lossy` of the standard library makes of `bytes`.
pub uninterp spec fn utf8_lossy(bytes: Seq<u8>) -> Seq<char>;

/// Calls `String::from_utf8_lossy`. The contract only names the result: it is the text that
/// `bytes` encode in UTF-8, with a replacement character for each part that is no valid
/// encoding.
#[verifier::external_body]
pub(crate) fn decode_lossy(bytes: &[u8]) -> (r: String)
    ensures
        r@ == utf8_lossy(bytes@),
{
    String::from_utf8_lossy(bytes).into_owned()
}

} // verus!
