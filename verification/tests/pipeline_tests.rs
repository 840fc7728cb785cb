use code_runner::pipeline::{ExecutionRequest, Pipeline, PipelineOutcome, PipelineState};
use code_runner::reply::format_outcome;
use code_runner::sandbox::{ExitStatus, SandboxResult};
use code_runner::text::scrub;

fn result(exit_status: ExitStatus, stdout: &str, stderr: &str) -> SandboxResult {
    SandboxResult {
        exit_status,
        stdout: stdout.as_bytes().to_vec(),
        stderr: stderr.as_bytes().to_vec(),
        output_truncated: false,
        duration_ms: 10,
    }
}

fn request(source: &str) -> ExecutionRequest {
    ExecutionRequest::new(source.as_bytes().to_vec(), 7, 0)
}

fn no_secret() -> Vec<u8> {
    b"/tmp/box-0".to_vec()
}

#[test]
fn hello_program_round_trip() {
    let mut p = Pipeline::new(request("main = putStrLn \"hi\""));
    assert_eq!(p.state, PipelineState::Received);
    assert_eq!(p.source(), &b"main = putStrLn \"hi\"".to_vec());
    p.begin_compile();
    p.finish_compile(&result(ExitStatus::Success, "", ""), &no_secret());
    assert_eq!(p.state, PipelineState::Compiled);
    p.begin_run();
    p.finish_run(result(ExitStatus::Success, "hi\n", ""), &no_secret());
    assert_eq!(p.state, PipelineState::Completed);
    match p.take_outcome() {
        PipelineOutcome::RuntimeOutput { stdout, truncated } => {
            assert_eq!(stdout, b"hi\n".to_vec());
            assert!(!truncated);
        },
        _ => panic!("expected runtime output"),
    }
}

#[test]
fn hello_program_formats_to_hi() {
    let outcome = PipelineOutcome::RuntimeOutput { stdout: b"hi\n".to_vec(), truncated: false };
    let payload = format_outcome(outcome, 2000);
    assert_eq!(payload.text, b"hi".to_vec());
    assert!(payload.attachment.is_none());
}

#[test]
fn syntax_error_stops_before_the_run_phase() {
    let mut p = Pipeline::new(request("main = "));
    p.begin_compile();
    p.finish_compile(
        &result(ExitStatus::NonZeroExit(1), "", "Main.hs:1:8: error: parse error"),
        &no_secret(),
    );
    assert_eq!(p.state, PipelineState::CompileFailed);
    match p.take_outcome() {
        PipelineOutcome::CompileError { diagnostics } => {
            assert_eq!(diagnostics, b"Main.hs:1:8: error: parse error".to_vec());
        },
        _ => panic!("expected a compile error"),
    }
}

#[test]
fn timed_out_run_is_a_runtime_error() {
    let mut p = Pipeline::new(request("main = let loop = loop in loop"));
    p.begin_compile();
    p.finish_compile(&result(ExitStatus::Success, "", ""), &no_secret());
    p.begin_run();
    let mut timed_out = result(ExitStatus::TimedOut, "", "");
    timed_out.duration_ms = 5000;
    p.finish_run(timed_out, &no_secret());
    assert_eq!(p.state, PipelineState::RunFailed);
    match p.take_outcome() {
        PipelineOutcome::RuntimeError { result } => {
            assert_eq!(result.exit_status, ExitStatus::TimedOut);
            assert_eq!(result.duration_ms, 5000);
        },
        _ => panic!("expected a runtime error"),
    }
}

#[test]
fn nonzero_exit_is_a_runtime_error() {
    let mut p = Pipeline::new(request("main = exitWith (ExitFailure 3)"));
    p.begin_compile();
    p.finish_compile(&result(ExitStatus::Success, "", ""), &no_secret());
    p.begin_run();
    p.finish_run(result(ExitStatus::NonZeroExit(3), "", "boom"), &no_secret());
    match p.take_outcome() {
        PipelineOutcome::RuntimeError { result } => {
            assert_eq!(result.exit_status, ExitStatus::NonZeroExit(3));
            assert_eq!(result.stderr, b"boom".to_vec());
        },
        _ => panic!("expected a runtime error"),
    }
}

#[test]
fn diagnostics_are_scrubbed_of_the_working_directory() {
    let mut p = Pipeline::new(request("main = "));
    p.begin_compile();
    let secret = b"/tmp/box-41".to_vec();
    p.finish_compile(
        &result(ExitStatus::NonZeroExit(1), "", "/tmp/box-41/Main.hs:1:8: error"),
        &secret,
    );
    match p.take_outcome() {
        PipelineOutcome::CompileError { diagnostics } => {
            assert_eq!(diagnostics, b"<scrubbed>/Main.hs:1:8: error".to_vec());
        },
        _ => panic!("expected a compile error"),
    }
}

#[test]
fn scrub_replaces_every_occurrence() {
    let text = b"path /w/d and again /w/d end".to_vec();
    let out = scrub(&text, &b"/w/d".to_vec());
    assert_eq!(out, b"path <scrubbed> and again <scrubbed> end".to_vec());
}

#[test]
fn scrub_with_empty_pattern_changes_nothing() {
    let text = b"anything".to_vec();
    let out = scrub(&text, &b"".to_vec());
    assert_eq!(out, b"anything".to_vec());
}

#[test]
fn internal_breakdown_is_a_runtime_error() {
    let mut p = Pipeline::new(request("main = pure ()"));
    p.begin_compile();
    p.internal_failure();
    assert_eq!(p.state, PipelineState::RunFailed);
    match p.take_outcome() {
        PipelineOutcome::RuntimeError { result } => {
            assert_eq!(result.exit_status, ExitStatus::SpawnFailed);
            assert_eq!(result.stderr, b"internal sandbox failure".to_vec());
        },
        _ => panic!("expected a runtime error"),
    }
}
