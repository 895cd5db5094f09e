//! Process-creation requests: which entry point to run, on how large a
//! stack, and whether a new PID namespace is requested.
//!
//! Creating a process with a fresh PID namespace needs the raw clone
//! primitive, because only it exposes the namespace flag and the flags
//! that make the later wait calls behave correctly.  All of that flag
//! composition is kept behind this one seam; the unverified process
//! layer only passes the finished flag word to the kernel.

use vstd::prelude::*;

verus! {

/// Clone flag requesting a new PID namespace (Linux `CLONE_NEWPID`).
pub const CLONE_NEWPID_FLAG: i32 = 0x2000_0000;

/// Clone flag clearing the child-tid word on child exit (Linux
/// `CLONE_CHILD_CLEARTID`); part of what a plain fork would set, and
/// needed for the wait calls to work on a manually created child.
pub const CLONE_CHILD_CLEARTID_FLAG: i32 = 0x0020_0000;

/// Clone flag storing the child's tid in the child (Linux
/// `CLONE_CHILD_SETTID`); set for the same reason as the clear-tid flag.
pub const CLONE_CHILD_SETTID_FLAG: i32 = 0x0100_0000;

/// The signal the child raises in its parent on exit (Linux `SIGCHLD`);
/// without it the parent cannot wait for the child.
pub const SIGCHLD_FLAG: i32 = 17;

/// Page alignment for freshly allocated execution stacks.
pub const DEFAULT_STACK_ALIGNMENT: usize = 4096;

/// Stack size for the runner: small, because the runner's sole purpose
/// is to be re-imaged at once.
pub const DEFAULT_RUNNER_STACK_SIZE: usize = 8192;

/// Stack size for the manager: larger, leaving headroom for supervisory
/// logic.
pub const DEFAULT_MANAGER_STACK_SIZE: usize = 4194304;

/// The two entry points a newly created process can run.
#[derive(Clone, Copy, Debug, PartialEq, Eq, Structural)]
pub enum EntryPoint {
    /// PID 1 of the new namespace: drops privilege, then supervises.
    NamespaceManager,
    /// The disposable child that replaces itself with the target command.
    ExecRunner,
}

/// Sizing of the execution stacks handed to newly created processes,
/// passed explicitly so that tests can substitute smaller sizes.
#[derive(Clone, Copy, Debug, PartialEq, Eq, Structural)]
pub struct StackConfig {
    /// Alignment of each freshly allocated stack, in bytes.
    pub alignment: usize,
    /// Stack size for the namespace manager, in bytes.
    pub manager_stack_size: usize,
    /// Stack size for the exec runner, in bytes.
    pub runner_stack_size: usize,
}

impl StackConfig {
    /// Both stacks are non-empty and whole multiples of a non-zero
    /// alignment.
    pub open spec fn well_formed(self) -> bool {
        &&& self.alignment >= 1
        &&& self.manager_stack_size >= 1
        &&& self.runner_stack_size >= 1
        &&& self.manager_stack_size % self.alignment == 0
        &&& self.runner_stack_size % self.alignment == 0
    }
}

impl Default for StackConfig {
    /// The stock sizing: page-aligned stacks, a small one for the
    /// runner and a roomy one for the manager.
    fn default() -> (c: Self)
        ensures
            c.alignment == DEFAULT_STACK_ALIGNMENT,
            c.manager_stack_size == DEFAULT_MANAGER_STACK_SIZE,
            c.runner_stack_size == DEFAULT_RUNNER_STACK_SIZE,
            c.well_formed(),
    {
        StackConfig {
            alignment: DEFAULT_STACK_ALIGNMENT,
            manager_stack_size: DEFAULT_MANAGER_STACK_SIZE,
            runner_stack_size: DEFAULT_RUNNER_STACK_SIZE,
        }
    }
}

/// One request to create a process: the entry point it will run, the
/// size of its fresh stack, and whether it starts a new PID namespace.
/// The request exists only until the creation call returns.
#[derive(Clone, Copy, Debug, PartialEq, Eq, Structural)]
pub struct SpawnRequest {
    /// The entry point the new process runs.
    pub entry: EntryPoint,
    /// The size of the stack to allocate for it, in bytes.
    pub stack_size: usize,
    /// Whether the new process becomes PID 1 of a fresh PID namespace.
    pub new_pid_namespace: bool,
}

/// The flag word handed to the clone primitive: the flags a plain fork
/// would use, plus the wait-enabling flags, plus the new-namespace flag
/// exactly when the request asks for one.
pub open spec fn spec_clone_flags(new_pid_namespace: bool) -> i32 {
    if new_pid_namespace {
        CLONE_CHILD_CLEARTID_FLAG | CLONE_CHILD_SETTID_FLAG | SIGCHLD_FLAG | CLONE_NEWPID_FLAG
    } else {
        CLONE_CHILD_CLEARTID_FLAG | CLONE_CHILD_SETTID_FLAG | SIGCHLD_FLAG
    }
}

/// The request that creates the namespace manager: manager entry point,
/// manager stack, and a fresh PID namespace.
pub fn manager_spawn_request(cfg: &StackConfig) -> (r: SpawnRequest)
    ensures
        r.entry == EntryPoint::NamespaceManager,
        r.stack_size == cfg.manager_stack_size,
        r.new_pid_namespace,
{
    SpawnRequest {
        entry: EntryPoint::NamespaceManager,
        stack_size: cfg.manager_stack_size,
        new_pid_namespace: true,
    }
}

/// The request that creates the exec runner: runner entry point, runner
/// stack, and no new namespace of any kind.
pub fn runner_spawn_request(cfg: &StackConfig) -> (r: SpawnRequest)
    ensures
        r.entry == EntryPoint::ExecRunner,
        r.stack_size == cfg.runner_stack_size,
        !r.new_pid_namespace,
{
    SpawnRequest {
        entry: EntryPoint::ExecRunner,
        stack_size: cfg.runner_stack_size,
        new_pid_namespace: false,
    }
}

/// Composes the clone flag word for a request.  The namespace bit is set
/// exactly when the request asks for a new PID namespace; the
/// wait-enabling bits and the child-exit signal are always set.
pub fn clone_flags(req: &SpawnRequest) -> (f: i32)
    ensures
        f == spec_clone_flags(req.new_pid_namespace),
        (f & CLONE_NEWPID_FLAG != 0) <==> req.new_pid_namespace,
        f & CLONE_CHILD_CLEARTID_FLAG != 0,
        f & CLONE_CHILD_SETTID_FLAG != 0,
        f & SIGCHLD_FLAG == SIGCHLD_FLAG,
{
    proof {
        assert((0x0020_0000i32 | 0x0100_0000i32 | 17i32 | 0x2000_0000i32) & 0x2000_0000i32 != 0)
            by (bit_vector);
        assert((0x0020_0000i32 | 0x0100_0000i32 | 17i32) & 0x2000_0000i32 == 0) by (bit_vector);
        assert((0x0020_0000i32 | 0x0100_0000i32 | 17i32 | 0x2000_0000i32) & 0x0020_0000i32 != 0)
            by (bit_vector);
        assert((0x0020_0000i32 | 0x0100_0000i32 | 17i32) & 0x0020_0000i32 != 0) by (bit_vector);
        assert((0x0020_0000i32 | 0x0100_0000i32 | 17i32 | 0x2000_0000i32) & 0x0100_0000i32 != 0)
            by (bit_vector);
        assert((0x0020_0000i32 | 0x0100_0000i32 | 17i32) & 0x0100_0000i32 != 0) by (bit_vector);
        assert((0x0020_0000i32 | 0x0100_0000i32 | 17i32 | 0x2000_0000i32) & 17i32 == 17i32)
            by (bit_vector);
        assert((0x0020_0000i32 | 0x0100_0000i32 | 17i32) & 17i32 == 17i32) by (bit_vector);
    }
    if req.new_pid_namespace {
        CLONE_CHILD_CLEARTID_FLAG | CLONE_CHILD_SETTID_FLAG | SIGCHLD_FLAG | CLONE_NEWPID_FLAG
    } else {
        CLONE_CHILD_CLEARTID_FLAG | CLONE_CHILD_SETTID_FLAG | SIGCHLD_FLAG
    }
}

/// How the clone primitive's return value is read: a positive value is
/// the new process id, anything else means no process was created.
#[derive(Clone, Copy, Debug, PartialEq, Eq, Structural)]
pub enum SpawnOutcome {
    /// A process was created, with this (positive) process id.
    Spawned(i32),
    /// The kernel created no process.
    CreationFailed,
}

/// Classifies the return value of the clone primitive.  Creation either
/// yields a positive process id or failed; there is no third case and no
/// retry.
pub fn classify_spawn(ret: i32) -> (o: SpawnOutcome)
    ensures
        ret > 0 ==> o == SpawnOutcome::Spawned(ret),
        ret <= 0 ==> o == SpawnOutcome::CreationFailed,
{
    if ret > 0 {
        SpawnOutcome::Spawned(ret)
    } else {
        SpawnOutcome::CreationFailed
    }
}

} // verus!
