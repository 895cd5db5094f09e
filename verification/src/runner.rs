//! The exec runner: the disposable child that becomes the target
//! program.
//!
//! It re-reads the captured command, lays the executable path and the
//! full argument vector out as the image to request from the kernel —
//! with the executable path itself as the first argument, by convention
//! — and asks for its own memory image to be replaced.  A successful
//! replacement never returns; this module decides what any return
//! means.

use crate::command::Command;
use vstd::prelude::*;

verus! {

/// The exit status the runner reports when the image replacement fails.
pub const RUNNER_FAILURE_STATUS: i32 = -1;

/// The image the runner asks the kernel to load: the executable path
/// and the argument vector the target program will observe.
pub struct ExecImage {
    /// The path of the executable to load.
    pub program: String,
    /// The argument vector of the target program; its first entry is
    /// the executable path.
    pub argv: Vec<String>,
}

impl ExecImage {
    /// The image is faithful to a command: the argument vector is
    /// exactly the command's items, and the program is its first item.
    pub open spec fn faithful_to(self, cmd: Command) -> bool {
        &&& self.argv@ == cmd.items@
        &&& self.program == cmd.items@[0]
    }
}

/// Builds the image for a command.  Argument fidelity: the target
/// program's argument vector is exactly the command, unchanged and in
/// order, and its first entry equals the executable path.
pub fn exec_image(cmd: &Command) -> (r: ExecImage)
    requires
        cmd.well_formed(),
    ensures
        r.faithful_to(*cmd),
        r.program@ == cmd.program(),
        r.argv@.len() >= 1,
        r.argv@[0] == r.program,
{
    let program = cmd.items[0].clone();
    let mut argv: Vec<String> = Vec::new();
    let mut i: usize = 0;
    while i < cmd.items.len()
        invariant
            0 <= i <= cmd.items@.len(),
            argv@ == cmd.items@.subrange(0, i as int),
        decreases cmd.items@.len() - i,
    {
        argv.push(cmd.items[i].clone());
        proof {
            assert(cmd.items@.subrange(0, i as int).push(cmd.items@[i as int])
                =~= cmd.items@.subrange(0, i + 1 as int));
        }
        i = i + 1;
    }
    proof {
        assert(cmd.items@.subrange(0, cmd.items@.len() as int) =~= cmd.items@);
    }
    ExecImage { program, argv }
}

/// What a return from the image-replacement call means.
#[derive(Clone, Copy, Debug, PartialEq, Eq, Structural)]
pub enum ExecReturn {
    /// The kernel reported a failure (executable not found, not
    /// executable, ...): report it and exit with the failure status.
    ReportFailure,
    /// Control returned although the call reported success.  The kernel
    /// contract says a successful replacement never returns, so this is
    /// a fatal logic error: the process must abort, never continue.
    FatalBug,
}

/// Classifies a return from the image-replacement call.  Any error
/// return is an ordinary reported failure; a "successful" return is a
/// contract violation that must abort.
pub fn classify_exec_return(ret: i32) -> (o: ExecReturn)
    ensures
        ret != 0 ==> o == ExecReturn::ReportFailure,
        ret == 0 ==> o == ExecReturn::FatalBug,
{
    if ret != 0 {
        ExecReturn::ReportFailure
    } else {
        ExecReturn::FatalBug
    }
}

} // verus!
