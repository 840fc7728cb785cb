//! Decisions of the sandbox runner stated over plain values: how a child's
//! exit is classified, when the supervising watchdog must kill it, and how
//! its output is captured under a combined byte budget. The unverified shell
//! spawns the child, polls its clock and memory, and feeds the answers back
//! through these functions.

use vstd::prelude::*;
use crate::limits::SandboxLimits;

verus! {

/// How one sandboxed invocation ended.
#[derive(Clone, Copy, PartialEq, Eq, Structural, Debug)]
pub enum ExitStatus {
    /// The child exited with status zero.
    Success,
    /// The child exited on its own with the given non-zero status.
    NonZeroExit(i32),
    /// The watchdog killed the child for outliving its wall-clock budget.
    TimedOut,
    /// The watchdog killed the child for exceeding its memory budget.
    MemoryExceeded,
    /// The child was terminated by a signal it did not raise itself.
    Killed,
    /// The child could not be created at all.
    SpawnFailed,
}

/// What the watchdog tells the shell to do after one poll of the child.
#[derive(Clone, Copy, PartialEq, Eq, Structural, Debug)]
pub enum WatchdogVerdict {
    /// Both budgets hold; keep waiting.
    KeepWaiting,
    /// The wall-clock budget is spent; kill the child and its descendants.
    KillTimedOut,
    /// The memory budget is exceeded; kill the child and its descendants.
    KillMemoryExceeded,
}

/// One watchdog poll: given the child's elapsed wall-clock time and resident
/// memory, decides whether it may keep running. The wall clock is judged
/// first, so a child that is over both budgets is reported as timed out.
pub fn watchdog_check(elapsed_ms: u64, resident_bytes: u64, limits: &SandboxLimits) -> (v:
    WatchdogVerdict)
    ensures
        v == WatchdogVerdict::KillTimedOut <==> elapsed_ms > limits.max_wall_time_ms,
        v == WatchdogVerdict::KillMemoryExceeded <==> (elapsed_ms <= limits.max_wall_time_ms
            && resident_bytes > limits.max_memory_bytes),
        v == WatchdogVerdict::KeepWaiting <==> (elapsed_ms <= limits.max_wall_time_ms
            && resident_bytes <= limits.max_memory_bytes),
{
    if elapsed_ms > limits.max_wall_time_ms {
        WatchdogVerdict::KillTimedOut
    } else if resident_bytes > limits.max_memory_bytes {
        WatchdogVerdict::KillMemoryExceeded
    } else {
        WatchdogVerdict::KeepWaiting
    }
}

/// The exit status recorded for a child the watchdog decided to kill.
pub fn verdict_status(v: WatchdogVerdict) -> (s: ExitStatus)
    requires
        v != WatchdogVerdict::KeepWaiting,
    ensures
        v == WatchdogVerdict::KillTimedOut ==> s == ExitStatus::TimedOut,
        v == WatchdogVerdict::KillMemoryExceeded ==> s == ExitStatus::MemoryExceeded,
{
    match v {
        WatchdogVerdict::KillTimedOut => ExitStatus::TimedOut,
        _ => ExitStatus::MemoryExceeded,
    }
}

/// The status of a child that ended on its own: `code` is its exit code, or
/// `None` when the operating system reports it signal-terminated.
pub open spec fn status_of_exit_spec(code: Option<i32>) -> ExitStatus {
    match code {
        Some(c) => if c == 0 {
            ExitStatus::Success
        } else {
            ExitStatus::NonZeroExit(c)
        },
        None => ExitStatus::Killed,
    }
}

/// Classifies the exit of a child that ended without watchdog intervention.
pub fn status_of_exit(code: Option<i32>) -> (s: ExitStatus)
    ensures
        s == status_of_exit_spec(code),
{
    match code {
        Some(c) => if c == 0 {
            ExitStatus::Success
        } else {
            ExitStatus::NonZeroExit(c)
        },
        None => ExitStatus::Killed,
    }
}

/// Incremental capture of a child's stdout and stderr under one combined
/// byte budget. Once the budget is spent, further bytes are dropped and the
/// capture is marked truncated.
pub struct OutputCapture {
    /// The combined budget, `SandboxLimits::max_output_bytes`.
    pub limit: usize,
    /// Captured stdout bytes.
    pub stdout: Vec<u8>,
    /// Captured stderr bytes.
    pub stderr: Vec<u8>,
    /// Whether any byte has been dropped.
    pub truncated: bool,
}

/// How many of `n` offered bytes fit into `avail` remaining budget.
pub open spec fn kept_len(avail: int, n: int) -> int {
    if n <= avail {
        n
    } else {
        avail
    }
}

/// Relates a capture before and after one chunk of `chunk` bytes was offered
/// to it: the prefix that fits is appended to `to`, the rest is dropped, and
/// dropping anything marks the capture truncated.
pub open spec fn capture_push_post(
    pre: OutputCapture,
    chunk: Seq<u8>,
    to_stdout: bool,
    post: OutputCapture,
) -> bool {
    let kept = kept_len(pre.limit - pre.used(), chunk.len() as int);
    &&& post.limit == pre.limit
    &&& (if to_stdout {
        post.stdout@ == pre.stdout@ + chunk.take(kept) && post.stderr@ == pre.stderr@
    } else {
        post.stderr@ == pre.stderr@ + chunk.take(kept) && post.stdout@ == pre.stdout@
    })
    &&& post.truncated == (pre.truncated || chunk.len() > pre.limit - pre.used())
}

impl OutputCapture {
    /// Bytes of budget already consumed.
    pub open spec fn used(self) -> int {
        self.stdout@.len() + self.stderr@.len() as int
    }

    /// The capture never holds more than its budget.
    pub open spec fn wf(self) -> bool {
        self.used() <= self.limit
    }

    /// An empty capture with the given combined budget.
    pub fn new(limit: usize) -> (c: Self)
        ensures
            c.wf(),
            c.limit == limit,
            c.stdout@ == Seq::<u8>::empty(),
            c.stderr@ == Seq::<u8>::empty(),
            !c.truncated,
    {
        OutputCapture { limit, stdout: Vec::new(), stderr: Vec::new(), truncated: false }
    }

    /// Offers one chunk read from the child's stdout.
    pub fn push_stdout(&mut self, chunk: &Vec<u8>)
        requires
            old(self).wf(),
        ensures
            final(self).wf(),
            capture_push_post(*old(self), chunk@, true, *final(self)),
    {
        let keep = self.fit(chunk.len());
        append_prefix(&mut self.stdout, chunk, keep);
    }

    /// Offers one chunk read from the child's stderr.
    pub fn push_stderr(&mut self, chunk: &Vec<u8>)
        requires
            old(self).wf(),
        ensures
            final(self).wf(),
            capture_push_post(*old(self), chunk@, false, *final(self)),
    {
        let keep = self.fit(chunk.len());
        append_prefix(&mut self.stderr, chunk, keep);
    }

    /// How much of an `n`-byte chunk fits; marks the capture truncated when
    /// not all of it does.
    fn fit(&mut self, n: usize) -> (keep: usize)
        requires
            old(self).wf(),
        ensures
            final(self).limit == old(self).limit,
            final(self).stdout == old(self).stdout,
            final(self).stderr == old(self).stderr,
            keep == kept_len(old(self).limit - old(self).used(), n as int),
            final(self).truncated == (old(self).truncated || n > old(self).limit - old(
                self,
            ).used()),
    {
        let used: usize = self.stdout.len() + self.stderr.len();
        let avail: usize = self.limit - used;
        if n > avail {
            self.truncated = true;
            avail
        } else {
            n
        }
    }

    /// Freezes the capture into the result of one sandbox invocation.
    pub fn finish(self, exit_status: ExitStatus, duration_ms: u64) -> (r: SandboxResult)
        requires
            self.wf(),
        ensures
            r.exit_status == exit_status,
            r.stdout@ == self.stdout@,
            r.stderr@ == self.stderr@,
            r.output_truncated == self.truncated,
            r.duration_ms == duration_ms,
            r.stdout@.len() + r.stderr@.len() <= self.limit,
    {
        SandboxResult {
            exit_status,
            stdout: self.stdout,
            stderr: self.stderr,
            output_truncated: self.truncated,
            duration_ms,
        }
    }
}

/// Appends the first `keep` bytes of `chunk` to `to`.
fn append_prefix(to: &mut Vec<u8>, chunk: &Vec<u8>, keep: usize)
    requires
        keep <= chunk@.len(),
    ensures
        final(to)@ == old(to)@ + chunk@.take(keep as int),
{
    let ghost pre = to@;
    let mut k: usize = 0;
    while k < keep
        invariant
            keep <= chunk@.len(),
            0 <= k <= keep,
            to@ == pre + chunk@.take(k as int),
        decreases keep - k,
    {
        to.push(chunk[k]);
        proof {
            assert(pre + chunk@.take(k as int) + seq![chunk@[k as int]] =~= pre + chunk@.take(
                k + 1,
            ));
        }
        k += 1;
    }
    proof {
        assert(to@ =~= pre + chunk@.take(keep as int));
    }
}

/// The structured result of one sandbox invocation: how the child ended and
/// what it wrote, both streams bounded by the capture budget.
#[derive(Clone, Debug)]
pub struct SandboxResult {
    /// How the child ended.
    pub exit_status: ExitStatus,
    /// Captured stdout, truncated to the budget.
    pub stdout: Vec<u8>,
    /// Captured stderr, truncated to the budget.
    pub stderr: Vec<u8>,
    /// Whether any output byte was dropped for want of budget.
    pub output_truncated: bool,
    /// Wall-clock duration of the invocation in milliseconds.
    pub duration_ms: u64,
}

/// A capture that respects its budget keeps respecting it under any pushed
/// chunk, and a chunk that did not fit whole leaves the capture marked
/// truncated: captured output never exceeds the configured bound.
pub proof fn lemma_capture_bounded(
    pre: OutputCapture,
    chunk: Seq<u8>,
    to_stdout: bool,
    post: OutputCapture,
)
    requires
        pre.wf(),
        capture_push_post(pre, chunk, to_stdout, post),
    ensures
        post.wf(),
        post.used() <= post.limit,
        pre.used() + chunk.len() > pre.limit ==> post.truncated,
        chunk.len() <= pre.limit - pre.used() ==> post.used() == pre.used() + chunk.len()
            && post.truncated == pre.truncated,
{
}

} // verus!
