//! Turns a pipeline outcome into the bounded reply payload handed to the
//! chat transport. Pure: the payload is a function of the outcome and the
//! transport's message-size limit, stated byte for byte.

use vstd::prelude::*;
use crate::pipeline::PipelineOutcome;
use crate::sandbox::ExitStatus;
use crate::text::{ascii_view, lit_bytes, trim_newlines, trim_newlines_spec};

verus! {

/// What the transport sends back for one request.
pub struct ResponsePayload {
    /// Reply text, never longer than the transport's message-size limit.
    pub text: Vec<u8>,
    /// An optional file to attach; the formatter itself attaches none.
    pub attachment: Option<Vec<u8>>,
}

/// The marker appended wherever text had to be cut.
pub open spec fn trunc_marker() -> Seq<u8> {
    ascii_view(" [output truncated]"@)
}

/// Heading put before compiler diagnostics.
pub open spec fn compile_error_prefix() -> Seq<u8> {
    ascii_view("compilation failed:\n"@)
}

/// Reply sent when no slot became free within the admission timeout.
pub open spec fn busy_note() -> Seq<u8> {
    ascii_view("the runner is busy; try again later"@)
}

/// One-line explanation of a failed run-phase exit.
pub open spec fn status_note(s: ExitStatus) -> Seq<u8> {
    match s {
        ExitStatus::TimedOut => ascii_view("the program timed out\n"@),
        ExitStatus::MemoryExceeded => ascii_view("the program exceeded its memory limit\n"@),
        ExitStatus::Killed => ascii_view("the program was killed\n"@),
        ExitStatus::SpawnFailed => ascii_view("the sandbox failed to run the program\n"@),
        _ => ascii_view("the program exited with a failure status\n"@),
    }
}

/// `s` cut to at most `limit` bytes; a cut is announced by ending the text
/// with the truncation marker instead of what was dropped.
pub open spec fn clip_spec(s: Seq<u8>, limit: int) -> Seq<u8>
    recommends
        limit >= trunc_marker().len(),
{
    if s.len() <= limit {
        s
    } else {
        s.take(limit - trunc_marker().len()) + trunc_marker()
    }
}

/// The reply text for one outcome under one message-size limit: a program's
/// trimmed stdout (marked when the capture dropped bytes), or a heading plus
/// the compiler diagnostics, or an explanation plus the program's stderr.
pub open spec fn format_spec(o: PipelineOutcome, limit: int) -> Seq<u8> {
    match o {
        PipelineOutcome::RuntimeOutput { stdout, truncated } => {
            let body = trim_newlines_spec(stdout@);
            clip_spec(
                if truncated {
                    body + trunc_marker()
                } else {
                    body
                },
                limit,
            )
        },
        PipelineOutcome::CompileError { diagnostics } => clip_spec(
            trim_newlines_spec(compile_error_prefix() + diagnostics@),
            limit,
        ),
        PipelineOutcome::RuntimeError { result } => clip_spec(
            trim_newlines_spec(status_note(result.exit_status) + result.stderr@),
            limit,
        ),
    }
}

/// Cuts `v` to at most `limit` bytes, ending a cut text with the marker.
fn clip(v: Vec<u8>, limit: usize) -> (r: Vec<u8>)
    requires
        limit >= trunc_marker().len(),
    ensures
        r@ == clip_spec(v@, limit as int),
        r@.len() <= limit,
{
    proof {
        reveal_strlit(" [output truncated]");
    }
    if v.len() <= limit {
        v
    } else {
        let marker = lit_bytes(" [output truncated]");
        proof {
            assert(marker@ =~= trunc_marker());
        }
        let mut out = v;
        out.truncate(limit - marker.len());
        out.extend_from_slice(marker.as_slice());
        proof {
            assert(out@ =~= clip_spec(v@, limit as int));
        }
        out
    }
}

/// Builds the reply for one finished pipeline run. The outcome is consumed;
/// the reply text is exactly `format_spec` of it and never exceeds the
/// transport limit.
pub fn format_outcome(o: PipelineOutcome, transport_limit: usize) -> (r: ResponsePayload)
    requires
        transport_limit >= trunc_marker().len(),
    ensures
        r.text@ == format_spec(o, transport_limit as int),
        r.text@.len() <= transport_limit,
        r.attachment is None,
{
    proof {
        reveal_strlit(" [output truncated]");
        reveal_strlit("compilation failed:\n");
        reveal_strlit("the program timed out\n");
        reveal_strlit("the program exceeded its memory limit\n");
        reveal_strlit("the program was killed\n");
        reveal_strlit("the sandbox failed to run the program\n");
        reveal_strlit("the program exited with a failure status\n");
    }
    let text: Vec<u8> = match o {
        PipelineOutcome::RuntimeOutput { stdout, truncated } => {
            let mut body = trim_newlines(stdout);
            if truncated {
                let marker = lit_bytes(" [output truncated]");
                proof {
                    assert(marker@ =~= trunc_marker());
                }
                body.extend_from_slice(marker.as_slice());
            }
            clip(body, transport_limit)
        },
        PipelineOutcome::CompileError { diagnostics } => {
            let mut t = lit_bytes("compilation failed:\n");
            proof {
                assert(t@ =~= compile_error_prefix());
            }
            t.extend_from_slice(diagnostics.as_slice());
            proof {
                assert(t@ =~= compile_error_prefix() + diagnostics@);
            }
            clip(trim_newlines(t), transport_limit)
        },
        PipelineOutcome::RuntimeError { result } => {
            let mut t: Vec<u8> = match result.exit_status {
                ExitStatus::TimedOut => lit_bytes("the program timed out\n"),
                ExitStatus::MemoryExceeded => lit_bytes("the program exceeded its memory limit\n"),
                ExitStatus::Killed => lit_bytes("the program was killed\n"),
                ExitStatus::SpawnFailed => lit_bytes("the sandbox failed to run the program\n"),
                _ => lit_bytes("the program exited with a failure status\n"),
            };
            proof {
                assert(t@ =~= status_note(result.exit_status));
            }
            t.extend_from_slice(result.stderr.as_slice());
            proof {
                assert(t@ =~= status_note(result.exit_status) + result.stderr@);
            }
            clip(trim_newlines(t), transport_limit)
        },
    };
    ResponsePayload { text, attachment: None }
}

/// The reply for a request that got no slot within the admission timeout:
/// the requester is told the runner is busy, never left without an answer.
pub fn busy_reply() -> (r: ResponsePayload)
    ensures
        r.text@ == busy_note(),
        r.attachment is None,
{
    proof {
        reveal_strlit("the runner is busy; try again later");
    }
    ResponsePayload { text: lit_bytes("the runner is busy; try again later"), attachment: None }
}

} // verus!
