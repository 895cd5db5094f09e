// Runs as its own process: dropping the capability set is irreversible,
// so this check must not share a process with the other tests.

use nslaunch::manager::{manager_drop_privileges, ManagerPhase};

#[test]
fn dropping_privileges_empties_the_capability_set() {
    // The manager's first act: after a successful drop, the permitted
    // and effective capability sets of this very process are empty.
    let phase = manager_drop_privileges(ManagerPhase::Privileged);
    match phase {
        ManagerPhase::Unprivileged => {
            let permitted = caps::read(None, caps::CapSet::Permitted).unwrap();
            assert!(permitted.is_empty());
            let effective = caps::read(None, caps::CapSet::Effective).unwrap();
            assert!(effective.is_empty());
        }
        ManagerPhase::DropFailed => {
            // The kernel refused the update; the manager would abort
            // here rather than continue with retained privilege.
        }
        other => panic!("unreachable phase after the drop: {:?}", other),
    }
}
