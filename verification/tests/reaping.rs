use nslaunch::reap::{
    classify_wait, reap_step, run_reap, ReapOutcome, ReapStep, WaitEvent, CHILD_EXITED_CODE,
};

#[test]
fn no_children_is_immediate_success() {
    // With zero live children the very first wait reports "no children":
    // the loop returns success after exactly one wait call.
    let events = vec![WaitEvent::NoChildren];
    assert_eq!(
        run_reap(&events),
        Some((ReapOutcome::AllReaped { any_abnormal: false }, 1))
    );
    assert_eq!(
        reap_step(WaitEvent::NoChildren, false),
        ReapStep::Done(ReapOutcome::AllReaped { any_abnormal: false })
    );
}

#[test]
fn retries_then_success() {
    // Three retryable events, then "no children": the loop retries
    // exactly three times and still ends successfully.
    let events = vec![
        WaitEvent::Interrupted,
        WaitEvent::Unavailable,
        WaitEvent::Interrupted,
        WaitEvent::NoChildren,
    ];
    assert_eq!(
        run_reap(&events),
        Some((ReapOutcome::AllReaped { any_abnormal: false }, 4))
    );
}

#[test]
fn retries_then_error() {
    let events = vec![WaitEvent::Interrupted, WaitEvent::OsError(5)];
    assert_eq!(run_reap(&events), Some((ReapOutcome::WaitError(5), 2)));
}

#[test]
fn reaped_children_then_done() {
    let events = vec![
        WaitEvent::ChildReaped { abnormal: false },
        WaitEvent::ChildReaped { abnormal: false },
        WaitEvent::NoChildren,
    ];
    assert_eq!(
        run_reap(&events),
        Some((ReapOutcome::AllReaped { any_abnormal: false }, 3))
    );
}

#[test]
fn abnormal_child_is_recorded() {
    // A child that failed is reaped like any other, but the loop's
    // success outcome carries the fact for the supervisor to act on.
    let events = vec![
        WaitEvent::ChildReaped { abnormal: false },
        WaitEvent::ChildReaped { abnormal: true },
        WaitEvent::NoChildren,
    ];
    assert_eq!(
        run_reap(&events),
        Some((ReapOutcome::AllReaped { any_abnormal: true }, 3))
    );
}

#[test]
fn only_retries_never_terminates() {
    let events = vec![
        WaitEvent::Interrupted,
        WaitEvent::Unavailable,
        WaitEvent::ChildReaped { abnormal: false },
    ];
    assert_eq!(run_reap(&events), None);
    assert_eq!(run_reap(&Vec::new()), None);
}

#[test]
fn wait_results_classified_by_real_errno_values() {
    // The error numbers the library classifies match the platform's.
    assert_eq!(classify_wait(-1, libc::ECHILD, 0, 0), WaitEvent::NoChildren);
    assert_eq!(classify_wait(-1, libc::EINTR, 0, 0), WaitEvent::Interrupted);
    assert_eq!(classify_wait(-1, libc::EAGAIN, 0, 0), WaitEvent::Unavailable);
    assert_eq!(
        classify_wait(-1, libc::EPERM, 0, 0),
        WaitEvent::OsError(libc::EPERM)
    );
    assert_eq!(
        classify_wait(-1, libc::EINVAL, 0, 0),
        WaitEvent::OsError(libc::EINVAL)
    );
}

#[test]
fn reaped_children_classified_by_real_state_codes() {
    // The child-state code the library reads matches the platform's,
    // and only a voluntary exit with status zero counts as normal.
    assert_eq!(CHILD_EXITED_CODE, libc::CLD_EXITED);
    assert_eq!(
        classify_wait(0, 0, libc::CLD_EXITED, 0),
        WaitEvent::ChildReaped { abnormal: false }
    );
    assert_eq!(
        classify_wait(0, 0, libc::CLD_EXITED, 255),
        WaitEvent::ChildReaped { abnormal: true }
    );
    assert_eq!(
        classify_wait(0, 0, libc::CLD_KILLED, libc::SIGKILL),
        WaitEvent::ChildReaped { abnormal: true }
    );
    assert_eq!(
        classify_wait(0, 0, libc::CLD_DUMPED, libc::SIGSEGV),
        WaitEvent::ChildReaped { abnormal: true }
    );
}
