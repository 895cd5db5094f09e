//! The command specification: the target executable path followed by its
//! argument vector, captured once from the launch request.
//!
//! A launch request is the launcher's own argument list; everything after
//! the binary name is the command.  An empty command is rejected here,
//! before any privileged operation is attempted.

use vstd::prelude::*;

verus! {

/// An ordered, non-empty sequence of strings: the executable path
/// followed by its arguments.  Immutable once captured.
pub struct Command {
    /// The executable path, then each argument, in order.
    pub items: Vec<String>,
}

impl Command {
    /// A command must hold at least the executable path.
    pub open spec fn well_formed(self) -> bool {
        self.items@.len() >= 1
    }

    /// The executable path: the first item of the command.
    pub open spec fn program(self) -> Seq<char> {
        self.items@[0]@
    }
}

/// Captures the command from a raw launch-request argument list, whose
/// first entry is the launcher binary's own name.  Fails exactly when no
/// trailing arguments were given, so that an empty invocation is rejected
/// before any process is created.
pub fn command_from_args(args: &Vec<String>) -> (r: Option<Command>)
    ensures
        args@.len() <= 1 ==> r is None,
        args@.len() >= 2 ==> r is Some,
        (r matches Some(c) ==> c.items@ == args@.skip(1)),
        (r matches Some(c) ==> c.well_formed()),
{
    if args.len() <= 1 {
        return None;
    }
    let mut items: Vec<String> = Vec::new();
    let mut i: usize = 1;
    while i < args.len()
        invariant
            1 <= i <= args@.len(),
            args@.len() >= 2,
            items@ == args@.subrange(1, i as int),
        decreases args@.len() - i,
    {
        items.push(args[i].clone());
        proof {
            assert(args@.subrange(1, i as int).push(args@[i as int]) =~= args@.subrange(
                1,
                i + 1 as int,
            ));
        }
        i = i + 1;
    }
    proof {
        assert(args@.subrange(1, args@.len() as int) =~= args@.skip(1));
    }
    Some(Command { items })
}

} // verus!
