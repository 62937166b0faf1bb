use security_monitor::architecture::HartLifecycleState::{Shutdown, Started, Stopped, Suspended};
use security_monitor::architecture::{HartArchitecturalState, HartLifecycleState, LifecycleTransition};
use security_monitor::confidential_hart::ConfidentialHart;
use security_monitor::error::Error;
use security_monitor::transformations::SbiHsmHartSuspend;

fn started_hart() -> ConfidentialHart {
    ConfidentialHart::from_vm_hart(0, &HartArchitecturalState::empty())
}

fn suspend_request() -> SbiHsmHartSuspend {
    SbiHsmHartSuspend { suspend_type: 1, resume_address: 0x2000, opaque: 9 }
}

#[test]
fn lifecycle_table_has_exactly_the_legal_transitions() {
    let states = [Started, Stopped, Suspended, Shutdown];
    let transitions = [
        LifecycleTransition::Suspend,
        LifecycleTransition::Resume,
        LifecycleTransition::Stop,
        LifecycleTransition::Shutdown,
    ];
    let mut legal = 0;
    for state in states {
        for transition in transitions {
            let expected = match (state, transition) {
                (Started, LifecycleTransition::Suspend) => Some(Suspended),
                (Suspended, LifecycleTransition::Resume) => Some(Started),
                (Started, LifecycleTransition::Stop) => Some(Stopped),
                (Started, LifecycleTransition::Shutdown) => Some(Shutdown),
                (Stopped, LifecycleTransition::Shutdown) => Some(Shutdown),
                (Suspended, LifecycleTransition::Shutdown) => Some(Shutdown),
                _ => None,
            };
            assert_eq!(state.next(transition), expected);
            if expected.is_some() {
                legal += 1;
            }
        }
    }
    assert_eq!(legal, 6);
}

#[test]
fn shutdown_has_no_outgoing_transition() {
    let state = HartLifecycleState::Shutdown;
    assert_eq!(state.next(LifecycleTransition::Suspend), None);
    assert_eq!(state.next(LifecycleTransition::Resume), None);
    assert_eq!(state.next(LifecycleTransition::Stop), None);
    assert_eq!(state.next(LifecycleTransition::Shutdown), None);
}

#[test]
fn started_hart_suspends_and_starts_again() {
    let mut hart = started_hart();
    assert_eq!(*hart.lifecycle_state(), HartLifecycleState::Started);
    assert_eq!(hart.transition_from_started_to_suspended(suspend_request()), Ok(()));
    assert_eq!(*hart.lifecycle_state(), HartLifecycleState::Suspended);
    assert_eq!(hart.suspend_parameters(), Some(suspend_request()));
    assert_eq!(hart.transition_from_suspended_to_started(), Ok(()));
    assert_eq!(*hart.lifecycle_state(), HartLifecycleState::Started);
    assert_eq!(hart.suspend_parameters(), None);
}

#[test]
fn stopped_hart_cannot_be_suspended() {
    let mut hart = started_hart();
    assert_eq!(hart.transition_from_started_to_stopped(), Ok(()));
    assert_eq!(*hart.lifecycle_state(), HartLifecycleState::Stopped);
    assert_eq!(
        hart.transition_from_started_to_suspended(suspend_request()),
        Err(Error::CannotSuspendNotStartedHart)
    );
    assert_eq!(*hart.lifecycle_state(), HartLifecycleState::Stopped);
    assert_eq!(hart.suspend_parameters(), None);
}

#[test]
fn illegal_transitions_fail_and_change_nothing() {
    let mut hart = started_hart();
    assert_eq!(hart.transition_from_suspended_to_started(), Err(Error::CannotStartNotSuspendedHart));
    assert_eq!(*hart.lifecycle_state(), HartLifecycleState::Started);
    assert_eq!(hart.transition_from_started_to_suspended(suspend_request()), Ok(()));
    assert_eq!(hart.transition_from_started_to_stopped(), Err(Error::CannotStopNotStartedHart));
    assert_eq!(
        hart.transition_from_started_to_suspended(suspend_request()),
        Err(Error::CannotSuspendNotStartedHart)
    );
    assert_eq!(*hart.lifecycle_state(), HartLifecycleState::Suspended);
    assert_eq!(hart.suspend_parameters(), Some(suspend_request()));
}

#[test]
fn every_state_can_be_shut_down_and_stays_so() {
    let mut started = started_hart();
    started.transition_to_shutdown();
    assert_eq!(*started.lifecycle_state(), HartLifecycleState::Shutdown);

    let mut stopped = started_hart();
    stopped.transition_from_started_to_stopped().unwrap();
    stopped.transition_to_shutdown();
    assert_eq!(*stopped.lifecycle_state(), HartLifecycleState::Shutdown);

    let mut suspended = started_hart();
    suspended.transition_from_started_to_suspended(suspend_request()).unwrap();
    suspended.transition_to_shutdown();
    assert_eq!(*suspended.lifecycle_state(), HartLifecycleState::Shutdown);

    suspended.transition_to_shutdown();
    assert_eq!(*suspended.lifecycle_state(), HartLifecycleState::Shutdown);
    assert_eq!(suspended.transition_from_suspended_to_started(), Err(Error::CannotStartNotSuspendedHart));
    assert_eq!(suspended.transition_from_started_to_stopped(), Err(Error::CannotStopNotStartedHart));
    assert_eq!(
        suspended.transition_from_started_to_suspended(suspend_request()),
        Err(Error::CannotSuspendNotStartedHart)
    );
    assert_eq!(*suspended.lifecycle_state(), HartLifecycleState::Shutdown);
}
