//! The per-test results and the error taxonomy: everything that can end a
//! test case, as a tagged union with a structured payload per kind.

use vstd::prelude::*;

verus! {

/// Which captured stream a decoding failure belongs to, so that a
/// malformed-stdout error can still surface whatever stderr held, and vice
/// versa.
#[derive(Copy, Clone, Debug, PartialEq, Eq, Structural)]
pub enum Stream {
    Stdout,
    Stderr,
}

/// Everything that can end a test case other than an ordinary pass or
/// comparison mismatch. Each per-test error aborts only that test's
/// remaining phases; none stops the session.
#[derive(Clone, Debug)]
pub enum TestError {
    /// The setup or run command could not be launched.
    Spawn { detail: String },
    /// Writing standard input, reading output, or waiting for exit failed.
    Io { detail: String },
    /// The captured bytes of the given stream are not valid UTF-8 text;
    /// carries the offending bytes to aid debugging.
    Encoding { stream: Stream, bytes: Vec<u8> },
    /// The process ran but exited with a non-zero status; carries the
    /// decoded standard-error text as the failure detail.
    Process { stderr: String },
    /// The expected output could not be compiled as a regular expression:
    /// a configuration-level error, not a wrong program output.
    Pattern { message: String },
}

/// The terminal result of one test case's run phase: whether the observed
/// output satisfied the expectation, and the decoded standard output.
#[derive(Clone, Debug)]
pub struct TestOutcome {
    pub success: bool,
    pub stdout: String,
}

} // verus!
