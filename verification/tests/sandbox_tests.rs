use code_runner::limits::{SandboxLimits, ServiceConfig};
use code_runner::sandbox::{
    status_of_exit, verdict_status, watchdog_check, ExitStatus, OutputCapture, WatchdogVerdict,
};

fn limits() -> SandboxLimits {
    SandboxLimits::new(5000, 5000, 64 * 1024 * 1024, 1024)
}

#[test]
fn configuration_keeps_its_fields() {
    let cfg = ServiceConfig::new(limits(), limits(), 2, 10_000);
    assert_eq!(cfg.max_concurrent_executions, 2);
    assert_eq!(cfg.admission_timeout_ms, 10_000);
    assert_eq!(cfg.compile_limits, limits());
    assert_eq!(cfg.run_limits.max_wall_time_ms, 5000);
}

#[test]
fn watchdog_lets_a_quiet_child_run() {
    let v = watchdog_check(100, 1024, &limits());
    assert_eq!(v, WatchdogVerdict::KeepWaiting);
}

#[test]
fn watchdog_kills_on_wall_clock() {
    let v = watchdog_check(5001, 1024, &limits());
    assert_eq!(v, WatchdogVerdict::KillTimedOut);
    assert_eq!(verdict_status(v), ExitStatus::TimedOut);
}

#[test]
fn watchdog_kills_on_memory() {
    let v = watchdog_check(100, 65 * 1024 * 1024, &limits());
    assert_eq!(v, WatchdogVerdict::KillMemoryExceeded);
    assert_eq!(verdict_status(v), ExitStatus::MemoryExceeded);
}

#[test]
fn wall_clock_governs_when_both_budgets_are_spent() {
    let v = watchdog_check(6000, 65 * 1024 * 1024, &limits());
    assert_eq!(v, WatchdogVerdict::KillTimedOut);
}

#[test]
fn exit_zero_is_success() {
    assert_eq!(status_of_exit(Some(0)), ExitStatus::Success);
}

#[test]
fn nonzero_exit_keeps_its_code() {
    assert_eq!(status_of_exit(Some(2)), ExitStatus::NonZeroExit(2));
}

#[test]
fn signal_termination_is_killed() {
    assert_eq!(status_of_exit(None), ExitStatus::Killed);
}

#[test]
fn capture_within_budget_is_untouched() {
    let mut c = OutputCapture::new(10);
    c.push_stdout(&b"hello".to_vec());
    c.push_stderr(&b"oops".to_vec());
    let r = c.finish(ExitStatus::Success, 42);
    assert_eq!(r.stdout, b"hello".to_vec());
    assert_eq!(r.stderr, b"oops".to_vec());
    assert!(!r.output_truncated);
    assert_eq!(r.duration_ms, 42);
}

#[test]
fn capture_over_budget_is_cut_and_marked() {
    let mut c = OutputCapture::new(10);
    c.push_stdout(&b"123456".to_vec());
    c.push_stdout(&b"abcdef".to_vec());
    let r = c.finish(ExitStatus::Success, 1);
    assert_eq!(r.stdout, b"123456abcd".to_vec());
    assert_eq!(r.stdout.len() + r.stderr.len(), 10);
    assert!(r.output_truncated);
}

#[test]
fn capture_budget_is_shared_between_streams() {
    let mut c = OutputCapture::new(6);
    c.push_stdout(&b"1234".to_vec());
    c.push_stderr(&b"abcd".to_vec());
    let r = c.finish(ExitStatus::Success, 0);
    assert_eq!(r.stdout, b"1234".to_vec());
    assert_eq!(r.stderr, b"ab".to_vec());
    assert!(r.output_truncated);
}

#[test]
fn full_capture_drops_everything_further() {
    let mut c = OutputCapture::new(3);
    c.push_stdout(&b"abc".to_vec());
    c.push_stdout(&b"d".to_vec());
    let r = c.finish(ExitStatus::Success, 0);
    assert_eq!(r.stdout, b"abc".to_vec());
    assert!(r.output_truncated);
}
