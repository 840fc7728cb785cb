use vstd::prelude::*;

verus! {

/// Resource bounds enforced on one sandboxed child process. Loaded once at
/// startup and never mutated afterwards.
#[derive(Clone, Copy, PartialEq, Eq, Structural, Debug)]
pub struct SandboxLimits {
    /// Wall-clock budget in milliseconds; a child that outlives it is killed.
    pub max_wall_time_ms: u64,
    /// CPU-time budget in milliseconds, applied by the spawning shell.
    pub max_cpu_time_ms: u64,
    /// Resident-memory budget in bytes; exceeding it kills the child.
    pub max_memory_bytes: u64,
    /// Combined budget for captured stdout and stderr, in bytes.
    pub max_output_bytes: usize,
}

impl SandboxLimits {
    pub open spec fn wf(self) -> bool {
        &&& self.max_wall_time_ms > 0
        &&& self.max_memory_bytes > 0
    }

    pub fn new(
        max_wall_time_ms: u64,
        max_cpu_time_ms: u64,
        max_memory_bytes: u64,
        max_output_bytes: usize,
    ) -> (r: Self)
        requires
            max_wall_time_ms > 0,
            max_memory_bytes > 0,
        ensures
            r.wf(),
            r.max_wall_time_ms == max_wall_time_ms,
            r.max_cpu_time_ms == max_cpu_time_ms,
            r.max_memory_bytes == max_memory_bytes,
            r.max_output_bytes == max_output_bytes,
    {
        SandboxLimits { max_wall_time_ms, max_cpu_time_ms, max_memory_bytes, max_output_bytes }
    }
}

/// The whole configuration surface of the service, loaded once at startup
/// and static for the process lifetime. The compile phase usually gets the
/// shorter wall-clock budget of the two.
#[derive(Clone, Copy, PartialEq, Eq, Structural, Debug)]
pub struct ServiceConfig {
    /// Budgets for the compile-phase sandbox invocation.
    pub compile_limits: SandboxLimits,
    /// Budgets for the run-phase sandbox invocation.
    pub run_limits: SandboxLimits,
    /// Bound on simultaneously running executions.
    pub max_concurrent_executions: u64,
    /// How long a request may wait for admission before it is told busy.
    pub admission_timeout_ms: u64,
}

impl ServiceConfig {
    pub open spec fn wf(self) -> bool {
        &&& self.compile_limits.wf()
        &&& self.run_limits.wf()
        &&& self.max_concurrent_executions > 0
    }

    pub fn new(
        compile_limits: SandboxLimits,
        run_limits: SandboxLimits,
        max_concurrent_executions: u64,
        admission_timeout_ms: u64,
    ) -> (r: Self)
        requires
            compile_limits.wf(),
            run_limits.wf(),
            max_concurrent_executions > 0,
        ensures
            r.wf(),
            r.compile_limits == compile_limits,
            r.run_limits == run_limits,
            r.max_concurrent_executions == max_concurrent_executions,
            r.admission_timeout_ms == admission_timeout_ms,
    {
        ServiceConfig { compile_limits, run_limits, max_concurrent_executions, admission_timeout_ms }
    }
}

} // verus!
