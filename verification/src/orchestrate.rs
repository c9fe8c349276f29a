//! The test orchestrator: a state machine that sequences one test case's
//! optional setup phase and required run phase.
//!
//! The engine never spawns a process itself. It tells the caller which
//! command to run next, the caller reports what the operating system gave
//! back, and the engine decides what that result means. A failed setup
//! never advances to the run command; exactly one terminal result is
//! reached per test case.

use vstd::prelude::*;
use vstd::utf8::{valid_utf8, decode_utf8};
use crate::compare::{compare, comparison_defined, comparison_ok};
use crate::config::TestCase;
use crate::outcome::{Stream, TestError, TestOutcome};

verus! {

/// What the operating system gave back for one completed command: its exit
/// status and the raw bytes captured from both output streams.
#[derive(Clone, Debug)]
pub struct RawOutput {
    pub exit_success: bool,
    pub stdout: Vec<u8>,
    pub stderr: Vec<u8>,
}

/// Why a command produced no `RawOutput` at all.
#[derive(Clone, Debug)]
pub enum ExecFailure {
    /// The command could not be launched.
    Spawn { detail: String },
    /// Writing standard input, reading output, or waiting for exit failed.
    Io { detail: String },
}

/// The orchestrator's instruction to the caller: which command to run
/// next, or the terminal result of the test case.
#[derive(Debug)]
pub enum TestStep {
    /// Run the setup command, delivering no standard input.
    RunSetup { command: String },
    /// Run the run command, delivering `input` as standard input if
    /// present. `setup_output` carries the setup phase's decoded standard
    /// output as informational text, when a setup phase ran.
    RunCommand { command: String, input: Option<String>, setup_output: Option<String> },
    /// The test case is decided; no further command may be run for it.
    Done { result: Result<TestOutcome, TestError> },
}

/// The library error that stands for a reported execution failure.
pub open spec fn failure_error(f: ExecFailure, e: TestError) -> bool {
    match f {
        ExecFailure::Spawn { detail } => e matches TestError::Spawn { detail: d } && d@
            == detail@,
        ExecFailure::Io { detail } => e matches TestError::Io { detail: d } && d@ == detail@,
    }
}

/// Whether the test's configured expectation can decide every observed
/// output: only a `Regex` expectation that does not compile cannot.
pub open spec fn verdict_defined(test: TestCase) -> bool {
    match (test.output, test.comparison) {
        (Some(expected), Some(strategy)) => comparison_defined(expected@, strategy),
        _ => true,
    }
}

/// Whether a run phase whose command exited zero with the given decoded
/// standard output passes: by the configured comparison when both an
/// expected output and a strategy are present, and unconditionally
/// otherwise.
pub open spec fn run_passes(test: TestCase, observed: Seq<char>) -> bool {
    match (test.output, test.comparison) {
        (Some(expected), Some(strategy)) => comparison_ok(observed, expected@, strategy),
        _ => true,
    }
}

/// Begins one test case: the setup command comes first when one is
/// configured, otherwise the run command comes immediately.
pub fn start_test(test: &TestCase) -> (r: TestStep)
    ensures
        match test.setup {
            Some(setup) => r matches TestStep::RunSetup { command } && command@ == setup@,
            None => r matches TestStep::RunCommand { command, input, setup_output }
                && command@ == test.run@
                && input.deep_view() == test.input.deep_view()
                && setup_output is None,
        },
{
    match &test.setup {
        Some(setup) => TestStep::RunSetup { command: setup.clone() },
        None => TestStep::RunCommand {
            command: test.run.clone(),
            input: crate::config::clone_optional(&test.input),
            setup_output: None,
        },
    }
}

/// Decides the setup phase. Only a setup command that was launched, exited
/// zero and produced well-formed text advances to the run command; every
/// other result ends the test case, so a failed setup never executes the
/// run command.
pub fn on_setup_result(test: &TestCase, exec: Result<RawOutput, ExecFailure>) -> (r: TestStep)
    ensures
        !(r matches TestStep::RunSetup { .. }),
        (r matches TestStep::RunCommand { .. }) <==> (exec matches Ok(raw) && raw.exit_success
            && valid_utf8(raw.stdout@)),
        match exec {
            Err(f) => r matches TestStep::Done { result } && result matches Err(e)
                && failure_error(f, e),
            Ok(raw) => {
                if raw.exit_success {
                    if valid_utf8(raw.stdout@) {
                        r matches TestStep::RunCommand { command, input, setup_output }
                            && command@ == test.run@
                            && input.deep_view() == test.input.deep_view()
                            && (setup_output matches Some(info) && info@ == decode_utf8(
                            raw.stdout@,
                        ))
                    } else {
                        r matches TestStep::Done { result } && result matches Err(e)
                            && (e matches TestError::Encoding { stream, bytes } && stream is Stdout
                            && bytes@ == raw.stdout@)
                    }
                } else {
                    if valid_utf8(raw.stderr@) {
                        r matches TestStep::Done { result } && result matches Err(e)
                            && (e matches TestError::Process { stderr } && stderr@ == decode_utf8(
                            raw.stderr@,
                        ))
                    } else {
                        r matches TestStep::Done { result } && result matches Err(e)
                            && (e matches TestError::Encoding { stream, bytes } && stream is Stderr
                            && bytes@ == raw.stderr@)
                    }
                }
            },
        },
{
    match exec {
        Err(failure) => TestStep::Done { result: Err(failure_to_error(failure)) },
        Ok(raw) => {
            if raw.exit_success {
                match crate::text::decode_text(raw.stdout) {
                    Ok(info) => TestStep::RunCommand {
                        command: test.run.clone(),
                        input: crate::config::clone_optional(&test.input),
                        setup_output: Some(info),
                    },
                    Err(bytes) => TestStep::Done {
                        result: Err(TestError::Encoding { stream: Stream::Stdout, bytes }),
                    },
                }
            } else {
                match crate::text::decode_text(raw.stderr) {
                    Ok(stderr) => TestStep::Done {
                        result: Err(TestError::Process { stderr }),
                    },
                    Err(bytes) => TestStep::Done {
                        result: Err(TestError::Encoding { stream: Stream::Stderr, bytes }),
                    },
                }
            }
        },
    }
}

/// Decides the run phase: the terminal result of the test case.
///
/// A command that could not be executed or exited non-zero fails with the
/// corresponding error; one that exited zero passes or fails by the
/// configured comparison, with an uncompilable `Regex` expectation
/// reported as a pattern error rather than a failure.
pub fn on_run_result(test: &TestCase, exec: Result<RawOutput, ExecFailure>) -> (r: TestStep)
    ensures
        r matches TestStep::Done { .. },
        match exec {
            Err(f) => r matches TestStep::Done { result } && result matches Err(e)
                && failure_error(f, e),
            Ok(raw) => {
                if raw.exit_success {
                    if valid_utf8(raw.stdout@) {
                        if verdict_defined(*test) {
                            r matches TestStep::Done { result } && result matches Ok(outcome)
                                && outcome.stdout@ == decode_utf8(raw.stdout@)
                                && outcome.success == run_passes(*test, decode_utf8(raw.stdout@))
                        } else {
                            r matches TestStep::Done { result } && result matches Err(e)
                                && e matches TestError::Pattern { .. }
                        }
                    } else {
                        r matches TestStep::Done { result } && result matches Err(e)
                            && (e matches TestError::Encoding { stream, bytes } && stream is Stdout
                            && bytes@ == raw.stdout@)
                    }
                } else {
                    if valid_utf8(raw.stderr@) {
                        r matches TestStep::Done { result } && result matches Err(e)
                            && (e matches TestError::Process { stderr } && stderr@ == decode_utf8(
                            raw.stderr@,
                        ))
                    } else {
                        r matches TestStep::Done { result } && result matches Err(e)
                            && (e matches TestError::Encoding { stream, bytes } && stream is Stderr
                            && bytes@ == raw.stderr@)
                    }
                }
            },
        },
{
    match exec {
        Err(failure) => TestStep::Done { result: Err(failure_to_error(failure)) },
        Ok(raw) => {
            if raw.exit_success {
                match crate::text::decode_text(raw.stdout) {
                    Ok(observed) => TestStep::Done { result: decide_run(test, observed) },
                    Err(bytes) => TestStep::Done {
                        result: Err(TestError::Encoding { stream: Stream::Stdout, bytes }),
                    },
                }
            } else {
                match crate::text::decode_text(raw.stderr) {
                    Ok(stderr) => TestStep::Done {
                        result: Err(TestError::Process { stderr }),
                    },
                    Err(bytes) => TestStep::Done {
                        result: Err(TestError::Encoding { stream: Stream::Stderr, bytes }),
                    },
                }
            }
        },
    }
}

fn failure_to_error(failure: ExecFailure) -> (e: TestError)
    ensures
        failure_error(failure, e),
{
    match failure {
        ExecFailure::Spawn { detail } => TestError::Spawn { detail },
        ExecFailure::Io { detail } => TestError::Io { detail },
    }
}

/// Applies the configured comparison to the decoded standard output of a
/// run command that exited zero.
fn decide_run(test: &TestCase, observed: String) -> (result: Result<TestOutcome, TestError>)
    ensures
        verdict_defined(*test) ==> (result matches Ok(outcome) && outcome.stdout@ == observed@
            && outcome.success == run_passes(*test, observed@)),
        !verdict_defined(*test) ==> (result matches Err(e) && e matches TestError::Pattern {
            ..
        }),
{
    match (&test.output, &test.comparison) {
        (Some(expected), Some(strategy)) => {
            match compare(&observed, expected, *strategy) {
                Ok(success) => Ok(TestOutcome { success, stdout: observed }),
                Err(pattern_error) => Err(TestError::Pattern { message: pattern_error.message }),
            }
        },
        _ => Ok(TestOutcome { success: true, stdout: observed }),
    }
}

/// With no expected output configured, a run command that exits zero and
/// produces well-formed text always passes, whatever that text holds.
pub proof fn lemma_no_expectation_passes(test: TestCase, observed: Seq<char>)
    requires
        test.output is None || test.comparison is None,
    ensures
        verdict_defined(test),
        run_passes(test, observed),
{
}

} // verus!
