use autograder::config::{Comparison, TestCase};
use autograder::orchestrate::{
    on_run_result, on_setup_result, start_test, ExecFailure, RawOutput, TestStep,
};
use autograder::outcome::{Stream, TestError};

fn test_case(
    setup: Option<&str>,
    run: &str,
    input: Option<&str>,
    output: Option<&str>,
    comparison: Option<Comparison>,
) -> TestCase {
    TestCase {
        name: "example".to_string(),
        setup: setup.map(|t| t.to_string()),
        run: run.to_string(),
        input: input.map(|t| t.to_string()),
        output: output.map(|t| t.to_string()),
        comparison,
        timeout: None,
        points: None,
    }
}

fn finished(exit_success: bool, stdout: &[u8], stderr: &[u8]) -> Result<RawOutput, ExecFailure> {
    Ok(RawOutput { exit_success, stdout: stdout.to_vec(), stderr: stderr.to_vec() })
}

#[test]
fn start_with_setup_runs_setup_first() {
    let test = test_case(Some("make fixtures"), "./grader", None, None, None);
    match start_test(&test) {
        TestStep::RunSetup { command } => assert_eq!(command, "make fixtures"),
        other => panic!("expected a setup step, got {:?}", other),
    }
}

#[test]
fn start_without_setup_runs_command_immediately() {
    let test = test_case(None, "./grader", Some("5 7"), None, None);
    match start_test(&test) {
        TestStep::RunCommand { command, input, setup_output } => {
            assert_eq!(command, "./grader");
            assert_eq!(input.as_deref(), Some("5 7"));
            assert!(setup_output.is_none());
        }
        other => panic!("expected a run step, got {:?}", other),
    }
}

#[test]
fn failed_setup_never_reaches_the_run_command() {
    let test = test_case(Some("prepare"), "touch marker", None, None, None);
    let step = on_setup_result(&test, finished(false, b"", b"missing fixture\n"));
    match step {
        TestStep::Done { result } => match result {
            Err(TestError::Process { stderr }) => assert_eq!(stderr, "missing fixture\n"),
            other => panic!("expected a process failure, got {:?}", other),
        },
        other => panic!("a failed setup must end the test, got {:?}", other),
    }
}

#[test]
fn setup_spawn_failure_ends_the_test() {
    let test = test_case(Some("prepare"), "./grader", None, None, None);
    let step = on_setup_result(
        &test,
        Err(ExecFailure::Spawn { detail: "no such file".to_string() }),
    );
    match step {
        TestStep::Done { result: Err(TestError::Spawn { detail }) } => {
            assert_eq!(detail, "no such file");
        }
        other => panic!("expected a spawn error, got {:?}", other),
    }
}

#[test]
fn successful_setup_surfaces_its_output_and_advances() {
    let test = test_case(Some("prepare"), "./grader", Some("in"), None, None);
    let step = on_setup_result(&test, finished(true, b"fixtures ready\n", b""));
    match step {
        TestStep::RunCommand { command, input, setup_output } => {
            assert_eq!(command, "./grader");
            assert_eq!(input.as_deref(), Some("in"));
            assert_eq!(setup_output.as_deref(), Some("fixtures ready\n"));
        }
        other => panic!("expected to advance to the run command, got {:?}", other),
    }
}

#[test]
fn setup_output_with_invalid_bytes_is_an_encoding_error() {
    let test = test_case(Some("prepare"), "./grader", None, None, None);
    let step = on_setup_result(&test, finished(true, &[0xff, 0xfe], b""));
    match step {
        TestStep::Done { result: Err(TestError::Encoding { stream, bytes }) } => {
            assert_eq!(stream, Stream::Stdout);
            assert_eq!(bytes, vec![0xff, 0xfe]);
        }
        other => panic!("expected a stdout encoding error, got {:?}", other),
    }
}

#[test]
fn zero_exit_with_no_expectation_passes_whatever_was_printed() {
    let test = test_case(None, "./grader", None, None, None);
    let step = on_run_result(&test, finished(true, b"arbitrary\ninterim output", b""));
    match step {
        TestStep::Done { result: Ok(outcome) } => {
            assert!(outcome.success);
            assert_eq!(outcome.stdout, "arbitrary\ninterim output");
        }
        other => panic!("expected a pass, got {:?}", other),
    }
}

#[test]
fn echo_appends_a_newline_so_exact_comparison_fails() {
    // What `echo hello` writes is "hello\n"; under strict equality with
    // "hello" the test must fail, because no trimming is performed.
    let test = test_case(None, "echo hello", None, Some("hello"), Some(Comparison::Exact));
    let step = on_run_result(&test, finished(true, b"hello\n", b""));
    match step {
        TestStep::Done { result: Ok(outcome) } => {
            assert!(!outcome.success);
            assert_eq!(outcome.stdout, "hello\n");
        }
        other => panic!("expected a failed comparison, got {:?}", other),
    }
}

#[test]
fn included_comparison_passes_through_the_orchestrator() {
    let test = test_case(None, "./grader", None, Some("ell"), Some(Comparison::Included));
    let step = on_run_result(&test, finished(true, b"hello\n", b""));
    match step {
        TestStep::Done { result: Ok(outcome) } => assert!(outcome.success),
        other => panic!("expected a pass, got {:?}", other),
    }
}

#[test]
fn invalid_stdout_bytes_are_an_encoding_error_not_a_comparison() {
    let test = test_case(None, "./grader", None, Some("x"), Some(Comparison::Included));
    let step = on_run_result(&test, finished(true, &[0xc3, 0x28], b""));
    match step {
        TestStep::Done { result: Err(TestError::Encoding { stream, bytes }) } => {
            assert_eq!(stream, Stream::Stdout);
            assert_eq!(bytes, vec![0xc3, 0x28]);
        }
        other => panic!("expected a stdout encoding error, got {:?}", other),
    }
}

#[test]
fn nonzero_exit_fails_with_decoded_stderr() {
    let test = test_case(None, "./grader", None, Some("x"), Some(Comparison::Exact));
    let step = on_run_result(&test, finished(false, b"partial", b"panicked at input\n"));
    match step {
        TestStep::Done { result: Err(TestError::Process { stderr }) } => {
            assert_eq!(stderr, "panicked at input\n");
        }
        other => panic!("expected a process failure, got {:?}", other),
    }
}

#[test]
fn nonzero_exit_with_invalid_stderr_is_an_encoding_error() {
    let test = test_case(None, "./grader", None, None, None);
    let step = on_run_result(&test, finished(false, b"", &[0x80]));
    match step {
        TestStep::Done { result: Err(TestError::Encoding { stream, bytes }) } => {
            assert_eq!(stream, Stream::Stderr);
            assert_eq!(bytes, vec![0x80]);
        }
        other => panic!("expected a stderr encoding error, got {:?}", other),
    }
}

#[test]
fn run_spawn_and_io_failures_keep_their_kind() {
    let test = test_case(None, "./grader", Some("in"), None, None);
    let spawn = on_run_result(
        &test,
        Err(ExecFailure::Spawn { detail: "command not found".to_string() }),
    );
    assert!(matches!(
        spawn,
        TestStep::Done { result: Err(TestError::Spawn { .. }) }
    ));
    let io = on_run_result(
        &test,
        Err(ExecFailure::Io { detail: "broken pipe".to_string() }),
    );
    assert!(matches!(io, TestStep::Done { result: Err(TestError::Io { .. }) }));
}

#[test]
fn invalid_regex_expectation_is_a_pattern_error() {
    let test = test_case(None, "./grader", None, Some("("), Some(Comparison::Regex));
    let step = on_run_result(&test, finished(true, b"fine output\n", b""));
    match step {
        TestStep::Done { result: Err(TestError::Pattern { message }) } => {
            assert!(!message.is_empty());
        }
        other => panic!("expected a pattern error, got {:?}", other),
    }
}

#[test]
fn output_without_comparison_passes_on_process_success() {
    let test = test_case(None, "./grader", None, Some("ignored"), None);
    let step = on_run_result(&test, finished(true, b"something else\n", b""));
    match step {
        TestStep::Done { result: Ok(outcome) } => assert!(outcome.success),
        other => panic!("expected a pass, got {:?}", other),
    }
}
