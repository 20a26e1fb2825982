//! What is handed to the external debug-bridge program and what comes back
//! from it.

use vstd::prelude::*;

verus! {

/// How an external process ended: its exit code, or none if it ended
/// without one (ended by a signal).
#[derive(Debug, Clone, Copy, PartialEq, Eq)]
pub struct ProcessOutcome {
    pub code: Option<i32>,
}

impl ProcessOutcome {
    /// A process succeeded when it ended with exit code zero.
    pub open spec fn succeeded(self) -> bool {
        self.code == Some(0i32)
    }

    /// The outcome of a process that ended with exit code `code`.
    pub fn exited(code: i32) -> (outcome: ProcessOutcome)
        ensures
            outcome.code == Some(code),
    {
        ProcessOutcome { code: Some(code) }
    }

    /// Tells whether the process succeeded.
    pub fn success(&self) -> (ok: bool)
        ensures
            ok == self.succeeded(),
    {
        match self.code {
            Some(code) => code == 0,
            None => false,
        }
    }
}

/// A program to run, with its argument vector.
#[derive(Debug, Clone, PartialEq, Eq)]
pub struct Invocation {
    pub program: String,
    pub args: Vec<String>,
}

/// The mathematical content of an [`Invocation`].
pub struct InvocationView {
    pub program: Seq<char>,
    pub args: Seq<Seq<char>>,
}

impl View for Invocation {
    type V = InvocationView;

    open spec fn view(&self) -> InvocationView {
        InvocationView {
            program: self.program@,
            args: Seq::new(self.args@.len(), |i: int| self.args@[i]@),
        }
    }
}

} // verus!
