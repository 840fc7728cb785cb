//! The two-phase compile-then-run pipeline. The unverified shell performs
//! each sandbox invocation; the pipeline owns the state machine between
//! them, maps every sandbox result onto exactly one outcome, and scrubs a
//! host-internal byte string (the sandbox working directory path) out of all
//! captured text before it can reach a user.

use vstd::prelude::*;
use crate::sandbox::{ExitStatus, SandboxResult};
use crate::text::{lit_bytes, ascii_view, scrub, scrub_spec};

verus! {

/// One admitted request: the extracted source text, who asked, and when.
/// Immutable once created; consumed by the pipeline that serves it.
pub struct ExecutionRequest {
    /// The fenced source text to compile and run.
    pub source_text: Vec<u8>,
    /// Opaque identifier of the requester.
    pub requester_id: u64,
    /// Submission time in milliseconds since the shell's epoch.
    pub submitted_at_ms: u64,
}

impl ExecutionRequest {
    pub fn new(source_text: Vec<u8>, requester_id: u64, submitted_at_ms: u64) -> (r: Self)
        ensures
            r.source_text@ == source_text@,
            r.requester_id == requester_id,
            r.submitted_at_ms == submitted_at_ms,
    {
        ExecutionRequest { source_text, requester_id, submitted_at_ms }
    }
}

/// The terminal result of one pipeline run.
pub enum PipelineOutcome {
    /// The compile phase failed; carries the scrubbed compiler diagnostics.
    CompileError { diagnostics: Vec<u8> },
    /// The run phase failed, or the sandbox machinery itself broke down;
    /// carries the scrubbed result of the failing invocation.
    RuntimeError { result: SandboxResult },
    /// Both phases succeeded; carries the program's scrubbed stdout and
    /// whether the capture dropped bytes for want of budget.
    RuntimeOutput { stdout: Vec<u8>, truncated: bool },
}

/// Where one pipeline run stands.
#[derive(Clone, Copy, PartialEq, Eq, Structural, Debug)]
pub enum PipelineState {
    /// The request is admitted and nothing has run yet.
    Received,
    /// The compile-phase sandbox invocation is in flight.
    Compiling,
    /// Terminal: the compile phase failed.
    CompileFailed,
    /// The compile phase succeeded and the run phase has not started.
    Compiled,
    /// The run-phase sandbox invocation is in flight.
    Running,
    /// Terminal: the run phase failed, or the sandbox machinery broke down.
    RunFailed,
    /// Terminal: both phases succeeded.
    Completed,
}

impl PipelineState {
    /// Terminal states take no further transition.
    pub open spec fn is_terminal(self) -> bool {
        self == PipelineState::CompileFailed || self == PipelineState::RunFailed || self
            == PipelineState::Completed
    }
}

/// Transitions left to a run in the given state; every pipeline transition
/// strictly decreases it.
pub open spec fn rank(s: PipelineState) -> nat {
    match s {
        PipelineState::Received => 4,
        PipelineState::Compiling => 3,
        PipelineState::Compiled => 2,
        PipelineState::Running => 1,
        _ => 0,
    }
}

/// The pipeline's transition relation: everything one call on a `Pipeline`
/// may do to its state.
pub open spec fn step(pre: Pipeline, post: Pipeline) -> bool {
    ||| pre.state == PipelineState::Received && post.state == PipelineState::Compiling
    ||| pre.state == PipelineState::Compiling && post.state == PipelineState::Compiled
    ||| pre.state == PipelineState::Compiling && post.state == PipelineState::CompileFailed
    ||| pre.state == PipelineState::Compiled && post.state == PipelineState::Running
    ||| pre.state == PipelineState::Running && post.state == PipelineState::Completed
    ||| pre.state == PipelineState::Running && post.state == PipelineState::RunFailed
    ||| !pre.state.is_terminal() && post.state == PipelineState::RunFailed
}

/// One compile-then-run pipeline run over one request.
pub struct Pipeline {
    /// The request being served.
    pub request: ExecutionRequest,
    /// Where the run stands.
    pub state: PipelineState,
    /// The one outcome, present exactly in a terminal state.
    pub outcome: Option<PipelineOutcome>,
}

impl Pipeline {
    /// A terminal pipeline holds exactly one outcome, of the variant its
    /// state announces; a live pipeline holds none.
    pub open spec fn wf(self) -> bool {
        match self.state {
            PipelineState::CompileFailed => self.outcome matches Some(
                PipelineOutcome::CompileError { .. },
            ),
            PipelineState::RunFailed => self.outcome matches Some(
                PipelineOutcome::RuntimeError { .. },
            ),
            PipelineState::Completed => self.outcome matches Some(
                PipelineOutcome::RuntimeOutput { .. },
            ),
            _ => self.outcome is None,
        }
    }

    /// Starts a pipeline run over one admitted request.
    pub fn new(request: ExecutionRequest) -> (p: Self)
        ensures
            p.wf(),
            p.state == PipelineState::Received,
            p.outcome is None,
            p.request.source_text@ == request.source_text@,
            p.request.requester_id == request.requester_id,
    {
        Pipeline { request, state: PipelineState::Received, outcome: None }
    }

    /// The source text the shell must write into the sandbox working
    /// directory before the compile phase.
    pub fn source(&self) -> (r: &Vec<u8>)
        ensures
            r@ == self.request.source_text@,
    {
        &self.request.source_text
    }

    /// Records that the compile-phase invocation was started.
    pub fn begin_compile(&mut self)
        requires
            old(self).wf(),
            old(self).state == PipelineState::Received,
        ensures
            final(self).wf(),
            final(self).state == PipelineState::Compiling,
            final(self).outcome is None,
            final(self).request == old(self).request,
            step(*old(self), *final(self)),
    {
        self.state = PipelineState::Compiling;
    }

    /// Judges the compile-phase result. On success the run phase may start;
    /// on any other exit the pipeline is terminal with a `CompileError`
    /// carrying the scrubbed compiler diagnostics, and the run phase is
    /// never invoked.
    pub fn finish_compile(&mut self, r: &SandboxResult, secret: &Vec<u8>)
        requires
            old(self).wf(),
            old(self).state == PipelineState::Compiling,
        ensures
            final(self).wf(),
            final(self).request == old(self).request,
            step(*old(self), *final(self)),
            r.exit_status == ExitStatus::Success ==> final(self).state == PipelineState::Compiled
                && final(self).outcome is None,
            r.exit_status != ExitStatus::Success ==> final(self).state
                == PipelineState::CompileFailed && (final(self).outcome matches Some(
                PipelineOutcome::CompileError { diagnostics },
            ) && diagnostics@ == scrub_spec(r.stderr@, secret@)),
    {
        if matches!(r.exit_status, ExitStatus::Success) {
            self.state = PipelineState::Compiled;
        } else {
            self.state = PipelineState::CompileFailed;
            self.outcome = Some(
                PipelineOutcome::CompileError { diagnostics: scrub(&r.stderr, secret) },
            );
        }
    }

    /// Records that the run-phase invocation was started.
    pub fn begin_run(&mut self)
        requires
            old(self).wf(),
            old(self).state == PipelineState::Compiled,
        ensures
            final(self).wf(),
            final(self).state == PipelineState::Running,
            final(self).outcome is None,
            final(self).request == old(self).request,
            step(*old(self), *final(self)),
    {
        self.state = PipelineState::Running;
    }

    /// Judges the run-phase result: a successful exit completes the pipeline
    /// with the program's scrubbed stdout; every other exit is terminal with
    /// a `RuntimeError` carrying the scrubbed result.
    pub fn finish_run(&mut self, r: SandboxResult, secret: &Vec<u8>)
        requires
            old(self).wf(),
            old(self).state == PipelineState::Running,
        ensures
            final(self).wf(),
            final(self).request == old(self).request,
            step(*old(self), *final(self)),
            r.exit_status == ExitStatus::Success ==> final(self).state == PipelineState::Completed
                && (final(self).outcome matches Some(
                PipelineOutcome::RuntimeOutput { stdout, truncated },
            ) && stdout@ == scrub_spec(r.stdout@, secret@) && truncated == r.output_truncated),
            r.exit_status != ExitStatus::Success ==> final(self).state == PipelineState::RunFailed
                && (final(self).outcome matches Some(PipelineOutcome::RuntimeError { result })
                && result.exit_status == r.exit_status && result.stderr@ == scrub_spec(
                r.stderr@,
                secret@,
            ) && result.stdout@ == scrub_spec(r.stdout@, secret@) && result.output_truncated
                == r.output_truncated && result.duration_ms == r.duration_ms),
    {
        if matches!(r.exit_status, ExitStatus::Success) {
            self.state = PipelineState::Completed;
            self.outcome = Some(
                PipelineOutcome::RuntimeOutput {
                    stdout: scrub(&r.stdout, secret),
                    truncated: r.output_truncated,
                },
            );
        } else {
            self.state = PipelineState::RunFailed;
            let scrubbed = SandboxResult {
                exit_status: r.exit_status,
                stdout: scrub(&r.stdout, secret),
                stderr: scrub(&r.stderr, secret),
                output_truncated: r.output_truncated,
                duration_ms: r.duration_ms,
            };
            self.outcome = Some(PipelineOutcome::RuntimeError { result: scrubbed });
        }
    }

    /// Catches a breakdown of the sandbox machinery itself (for example a
    /// crashed watchdog) at the pipeline boundary: the run is terminal with
    /// a `RuntimeError` whose payload is a generic internal-failure message,
    /// never an unhandled fault of the whole service.
    pub fn internal_failure(&mut self)
        requires
            old(self).wf(),
            !old(self).state.is_terminal(),
        ensures
            final(self).wf(),
            final(self).request == old(self).request,
            step(*old(self), *final(self)),
            final(self).state == PipelineState::RunFailed,
            final(self).outcome matches Some(PipelineOutcome::RuntimeError { result })
                && result.exit_status == ExitStatus::SpawnFailed && result.stderr@ == ascii_view(
                "internal sandbox failure"@,
            ),
    {
        proof {
            reveal_strlit("internal sandbox failure");
        }
        self.state = PipelineState::RunFailed;
        let message = lit_bytes("internal sandbox failure");
        let result = SandboxResult {
            exit_status: ExitStatus::SpawnFailed,
            stdout: Vec::new(),
            stderr: message,
            output_truncated: false,
            duration_ms: 0,
        };
        self.outcome = Some(PipelineOutcome::RuntimeError { result });
    }

    /// Surrenders the one outcome of a finished run.
    pub fn take_outcome(self) -> (r: PipelineOutcome)
        requires
            self.wf(),
            self.state.is_terminal(),
        ensures
            self.outcome == Some(r),
    {
        match self.outcome {
            Some(o) => o,
            None => vstd::pervasive::unreached(),
        }
    }
}

/// Every pipeline transition strictly decreases a finite rank, so a run
/// takes at most four transitions before it stops: the pipeline terminates
/// on every source text.
pub proof fn lemma_pipeline_terminates(pre: Pipeline, post: Pipeline)
    requires
        step(pre, post),
    ensures
        rank(post.state) < rank(pre.state),
{
}

/// A terminal pipeline holds exactly one outcome and admits no further
/// transition: every request yields one outcome, never zero and never two.
pub proof fn lemma_exactly_one_outcome(p: Pipeline, q: Pipeline)
    requires
        p.wf(),
        p.state.is_terminal(),
    ensures
        p.outcome is Some,
        !step(p, q),
{
}

/// A compile-phase result other than `Success` leaves the pipeline terminal
/// in `CompileFailed`: no transition out of it exists, so a source that
/// fails to compile never reaches the run phase.
pub proof fn lemma_compile_failure_skips_run(pre: Pipeline, post: Pipeline, q: Pipeline)
    requires
        pre.wf(),
        pre.state == PipelineState::Compiling,
        step(pre, post),
        post.state == PipelineState::CompileFailed,
    ensures
        post.state.is_terminal(),
        !step(post, q),
{
}

} // verus!
