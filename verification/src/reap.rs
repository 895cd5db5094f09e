//! The child-reaping loop shared by every supervising layer.
//!
//! A supervising process repeatedly asks the kernel for a state change of
//! any child: the loop prevents zombie accumulation and detects when the
//! whole descendant tree has finished.  "No children left" is terminal
//! success, an interrupted or temporarily unavailable wait is retried,
//! and any other error is terminal failure.  Each reaped child carries
//! one bit of detail — whether it exited abnormally — which the loop
//! accumulates, so that a supervisor can report failure when any of its
//! children did; what a supervisor makes of that bit is its own policy.
//!
//! The blocking wait call itself lives outside this crate; here the loop
//! is verified over the sequence of events the call reports.

use vstd::prelude::*;

verus! {

/// The `errno` value the wait primitive reports when the calling process
/// has no children left (Linux `ECHILD`).
pub const ERRNO_NO_CHILDREN: i32 = 10;

/// The `errno` value the wait primitive reports when it was interrupted
/// by a signal (Linux `EINTR`).
pub const ERRNO_INTERRUPTED: i32 = 4;

/// The `errno` value the wait primitive reports when it is temporarily
/// unable to complete (Linux `EAGAIN`).
pub const ERRNO_UNAVAILABLE: i32 = 11;

/// The child-state code the wait primitive reports for a child that
/// exited of its own accord (Linux `CLD_EXITED`); any other code means
/// the child was killed or dumped core.
pub const CHILD_EXITED_CODE: i32 = 1;

/// Outcome of one round of the blocking wait-for-any-child call.
#[derive(Clone, Copy, Debug, PartialEq, Eq, Structural)]
pub enum WaitEvent {
    /// A child changed state and was reaped; others may remain.
    /// `abnormal` records whether the child failed: it was killed, or
    /// it exited with a non-zero status.
    ChildReaped { abnormal: bool },
    /// No children exist any more: every descendant has been reaped.
    NoChildren,
    /// The wait call was interrupted by a signal.
    Interrupted,
    /// The wait call was temporarily unable to complete.
    Unavailable,
    /// Any other operating-system error, carried by its error number.
    OsError(i32),
}

/// Terminal result of the reaping loop.
#[derive(Clone, Copy, Debug, PartialEq, Eq, Structural)]
pub enum ReapOutcome {
    /// Every spawned descendant finished and was reaped.
    /// `any_abnormal` records whether any of them failed.
    AllReaped { any_abnormal: bool },
    /// The wait primitive failed for a reason other than "no children",
    /// carried by its error number.
    WaitError(i32),
}

/// What the reaping loop does after observing one wait event.
#[derive(Clone, Copy, Debug, PartialEq, Eq, Structural)]
pub enum ReapStep {
    /// Keep waiting: children may still be running.  `any_abnormal`
    /// carries whether any child reaped so far had failed.
    Continue { any_abnormal: bool },
    /// The loop ends with this outcome.
    Done(ReapOutcome),
}

/// A child failed when it did not exit of its own accord with status
/// zero.
pub open spec fn spec_child_abnormal(code: i32, status: i32) -> bool {
    !(code == CHILD_EXITED_CODE && status == 0)
}

/// The decision the reaping loop takes on one wait event, given whether
/// any child reaped so far had failed.
pub open spec fn spec_reap_step(e: WaitEvent, any_abnormal: bool) -> ReapStep {
    match e {
        WaitEvent::ChildReaped { abnormal } => ReapStep::Continue {
            any_abnormal: any_abnormal || abnormal,
        },
        WaitEvent::NoChildren => ReapStep::Done(ReapOutcome::AllReaped { any_abnormal }),
        WaitEvent::Interrupted => ReapStep::Continue { any_abnormal },
        WaitEvent::Unavailable => ReapStep::Continue { any_abnormal },
        WaitEvent::OsError(code) => ReapStep::Done(ReapOutcome::WaitError(code)),
    }
}

/// An event after which the loop keeps waiting.
pub open spec fn retries(e: WaitEvent) -> bool {
    match e {
        WaitEvent::ChildReaped { .. } => true,
        WaitEvent::Interrupted => true,
        WaitEvent::Unavailable => true,
        _ => false,
    }
}

/// An event that reaped a failed child.
pub open spec fn abnormal_reap(e: WaitEvent) -> bool {
    e == (WaitEvent::ChildReaped { abnormal: true })
}

/// How a raw wait result is read: a non-error return reaped one child,
/// whose state code and status say whether it failed; an error return
/// is classified by its error number.
pub open spec fn spec_classify_wait(ret: i32, errno: i32, code: i32, status: i32) -> WaitEvent {
    if ret != -1 {
        WaitEvent::ChildReaped { abnormal: spec_child_abnormal(code, status) }
    } else if errno == ERRNO_NO_CHILDREN {
        WaitEvent::NoChildren
    } else if errno == ERRNO_INTERRUPTED {
        WaitEvent::Interrupted
    } else if errno == ERRNO_UNAVAILABLE {
        WaitEvent::Unavailable
    } else {
        WaitEvent::OsError(errno)
    }
}

/// Classifies one return of the wait primitive: its return value, the
/// reported error number when it failed, and the reaped child's state
/// code and status when it succeeded.
pub fn classify_wait(ret: i32, errno: i32, code: i32, status: i32) -> (e: WaitEvent)
    ensures
        e == spec_classify_wait(ret, errno, code, status),
{
    if ret != -1 {
        WaitEvent::ChildReaped { abnormal: !(code == CHILD_EXITED_CODE && status == 0) }
    } else if errno == ERRNO_NO_CHILDREN {
        WaitEvent::NoChildren
    } else if errno == ERRNO_INTERRUPTED {
        WaitEvent::Interrupted
    } else if errno == ERRNO_UNAVAILABLE {
        WaitEvent::Unavailable
    } else {
        WaitEvent::OsError(errno)
    }
}

/// One decision of the reaping loop: "no children" is terminal success
/// carrying whether any child failed, interruption and temporary
/// unavailability are retried, a reaped child folds its failure bit into
/// the accumulator, and any other error is terminal failure.
pub fn reap_step(e: WaitEvent, any_abnormal: bool) -> (s: ReapStep)
    ensures
        s == spec_reap_step(e, any_abnormal),
{
    match e {
        WaitEvent::ChildReaped { abnormal } => ReapStep::Continue {
            any_abnormal: any_abnormal || abnormal,
        },
        WaitEvent::NoChildren => ReapStep::Done(ReapOutcome::AllReaped { any_abnormal }),
        WaitEvent::Interrupted => ReapStep::Continue { any_abnormal },
        WaitEvent::Unavailable => ReapStep::Continue { any_abnormal },
        WaitEvent::OsError(code) => ReapStep::Done(ReapOutcome::WaitError(code)),
    }
}

/// Whether any of the first `n` events reaped a failed child.
pub open spec fn spec_any_abnormal(events: Seq<WaitEvent>, n: int) -> bool
    decreases n,
{
    if n <= 0 {
        false
    } else {
        spec_any_abnormal(events, n - 1) || abnormal_reap(events[n - 1])
    }
}

/// The result of running the reaping loop over a sequence of wait
/// events, starting with `any_abnormal` already accumulated: the
/// outcome of the first terminal event together with the number of wait
/// calls consumed, or `None` if every event asks for a retry.
pub open spec fn spec_reap_run_from(events: Seq<WaitEvent>, any_abnormal: bool) -> Option<
    (ReapOutcome, int),
>
    decreases events.len(),
{
    if events.len() == 0 {
        None
    } else {
        match spec_reap_step(events[0], any_abnormal) {
            ReapStep::Done(o) => Some((o, 1)),
            ReapStep::Continue { any_abnormal: acc } => match spec_reap_run_from(
                events.skip(1),
                acc,
            ) {
                Some(rest) => Some((rest.0, rest.1 + 1)),
                None => None,
            },
        }
    }
}

/// The result of the reaping loop on a fresh supervisor: no failed
/// child has been seen yet.
pub open spec fn spec_reap_run(events: Seq<WaitEvent>) -> Option<(ReapOutcome, int)> {
    spec_reap_run_from(events, false)
}

/// Splitting the first `n` events at the front event: any failed child
/// among the first `n` was either the very first event or lies in the
/// remainder.
proof fn lemma_any_abnormal_shift(events: Seq<WaitEvent>, n: int)
    requires
        1 <= n <= events.len(),
    ensures
        spec_any_abnormal(events, n) == (abnormal_reap(events[0]) || spec_any_abnormal(
            events.skip(1),
            n - 1,
        )),
    decreases n,
{
    if n == 1 {
        assert(!spec_any_abnormal(events, 0));
        assert(spec_any_abnormal(events, 1) == abnormal_reap(events[0]));
        assert(!spec_any_abnormal(events.skip(1), 0));
    } else {
        lemma_any_abnormal_shift(events, n - 1);
        assert(events.skip(1)[n - 2] == events[n - 1]);
        assert(spec_any_abnormal(events, n) == (spec_any_abnormal(events, n - 1)
            || abnormal_reap(events[n - 1])));
        assert(spec_any_abnormal(events.skip(1), n - 1) == (spec_any_abnormal(
            events.skip(1),
            n - 2,
        ) || abnormal_reap(events.skip(1)[n - 2])));
    }
}

/// Dropping a prefix of retried events only shifts the count of wait
/// calls and folds the prefix's failed children into the accumulator:
/// the loop's outcome is otherwise unchanged.
proof fn lemma_reap_prefix(events: Seq<WaitEvent>, i: int, acc: bool)
    requires
        0 <= i <= events.len(),
        forall|j: int| 0 <= j < i ==> retries(events[j]),
    ensures
        spec_reap_run_from(events, acc) == (match spec_reap_run_from(
            events.skip(i),
            acc || spec_any_abnormal(events, i),
        ) {
            Some(rest) => Some((rest.0, rest.1 + i)),
            None => None,
        }),
    decreases i,
{
    if i > 0 {
        assert(retries(events[0]));
        assert(forall|j: int| 0 <= j < i - 1 ==> retries(events.skip(1)[j]));
        lemma_reap_prefix(events.skip(1), i - 1, acc || abnormal_reap(events[0]));
        lemma_any_abnormal_shift(events, i);
        assert(events.skip(1).skip(i - 1) =~= events.skip(i));
    } else {
        assert(events.skip(0) =~= events);
    }
}

/// Runs the reaping loop over a recorded sequence of wait events,
/// returning the terminal outcome and the number of wait calls consumed,
/// or `None` if the sequence ends before a terminal event.
pub fn run_reap(events: &Vec<WaitEvent>) -> (r: Option<(ReapOutcome, usize)>)
    ensures
        (match r {
            Some(p) => p.1 >= 1 && spec_reap_run(events@) == Some((p.0, p.1 as int)),
            None => spec_reap_run(events@) is None,
        }),
{
    let n = events.len();
    let mut any_abnormal = false;
    let mut i: usize = 0;
    while i < n
        invariant
            n == events@.len(),
            0 <= i <= n,
            forall|j: int| 0 <= j < i ==> retries(events@[j]),
            any_abnormal == spec_any_abnormal(events@, i as int),
        decreases n - i,
    {
        let e = events[i];
        match reap_step(e, any_abnormal) {
            ReapStep::Done(o) => {
                proof {
                    lemma_reap_prefix(events@, i as int, false);
                    assert(events@.skip(i as int)[0] == events@[i as int]);
                    assert(spec_reap_run_from(
                        events@.skip(i as int),
                        spec_any_abnormal(events@, i as int),
                    ) == Some((o, 1int)));
                }
                return Some((o, i + 1));
            },
            ReapStep::Continue { any_abnormal: acc } => {
                any_abnormal = acc;
                i = i + 1;
            },
        }
    }
    proof {
        lemma_reap_prefix(events@, n as int, false);
        assert(events@.skip(n as int) =~= Seq::<WaitEvent>::empty());
    }
    None
}

/// Reaping is idempotent: when no live children exist, the very first
/// wait reports "no children" and the loop returns success immediately,
/// after exactly one wait call and without further blocking.
pub proof fn lemma_reap_idempotent(events: Seq<WaitEvent>)
    requires
        events.len() >= 1,
        events[0] == WaitEvent::NoChildren,
    ensures
        spec_reap_run(events) == Some((ReapOutcome::AllReaped { any_abnormal: false }, 1int)),
{
}

/// Interrupt resilience: if the wait primitive is interrupted or
/// temporarily unavailable on each of the first `n` events and the
/// event after them is terminal, the loop retries exactly `n` times and
/// still reaches that terminal outcome, after `n + 1` wait calls.
pub proof fn lemma_reap_survives_retries(events: Seq<WaitEvent>, n: int, o: ReapOutcome)
    requires
        0 <= n < events.len(),
        forall|j: int|
            0 <= j < n ==> (events[j] == WaitEvent::Interrupted || events[j]
                == WaitEvent::Unavailable),
        spec_reap_step(events[n], false) == ReapStep::Done(o),
    ensures
        spec_reap_run(events) == Some((o, n + 1)),
{
    assert(forall|j: int| 0 <= j < n ==> retries(events[j]) && !abnormal_reap(events[j]));
    lemma_reap_prefix(events, n, false);
    assert(!spec_any_abnormal(events, n)) by {
        lemma_no_abnormal_prefix(events, n);
    }
    assert(events.skip(n)[0] == events[n]);
    assert(spec_reap_run_from(events.skip(n), false) == Some((o, 1int)));
}

/// A prefix without a failed child accumulates nothing.
proof fn lemma_no_abnormal_prefix(events: Seq<WaitEvent>, n: int)
    requires
        0 <= n <= events.len(),
        forall|j: int| 0 <= j < n ==> !abnormal_reap(events[j]),
    ensures
        !spec_any_abnormal(events, n),
    decreases n,
{
    if n > 0 {
        lemma_no_abnormal_prefix(events, n - 1);
    }
}

/// Failure propagation: when every child is reaped and any of them
/// failed, the loop's success outcome carries that fact — the
/// supervisor that spawned the failed child can observe it.
pub proof fn lemma_reap_records_failure(events: Seq<WaitEvent>, n: int)
    requires
        0 <= n < events.len(),
        forall|j: int| 0 <= j < n ==> retries(events[j]),
        exists|j: int| 0 <= j < n && abnormal_reap(events[j]),
        events[n] == WaitEvent::NoChildren,
    ensures
        spec_reap_run(events) == Some((ReapOutcome::AllReaped { any_abnormal: true }, n + 1)),
{
    lemma_reap_prefix(events, n, false);
    let w = choose|j: int| 0 <= j < n && abnormal_reap(events[j]);
    lemma_abnormal_witness(events, w, n);
    assert(events.skip(n)[0] == events[n]);
    assert(spec_reap_run_from(events.skip(n), true) == Some(
        (ReapOutcome::AllReaped { any_abnormal: true }, 1int),
    ));
}

/// A failed child anywhere in a prefix makes the accumulator true.
proof fn lemma_abnormal_witness(events: Seq<WaitEvent>, w: int, n: int)
    requires
        0 <= w < n <= events.len(),
        abnormal_reap(events[w]),
    ensures
        spec_any_abnormal(events, n),
    decreases n,
{
    if w < n - 1 {
        lemma_abnormal_witness(events, w, n - 1);
    }
}

} // verus!
