use security_monitor::architecture::{HartArchitecturalState, HartLifecycleState};
use security_monitor::confidential_flow::ConfidentialFlow;
use security_monitor::confidential_vm_id::ConfidentialVmId;
use security_monitor::control_data::ControlData;
use security_monitor::convert_to_confidential_vm::create_confidential_vm;
use security_monitor::error::Error;
use security_monitor::hardware_hart::HardwareHart;
use security_monitor::memory_layout::MemoryLayout;
use security_monitor::non_confidential_flow::NonConfidentialFlow;
use security_monitor::transformations::{ConvertToConfidentialVm, ExposeToConfidentialVm, ExposeToHypervisor};

fn registry_with_one_vm() -> (ControlData, ConfidentialVmId) {
    let mut control_data = ControlData::new();
    let mut state = HartArchitecturalState::empty();
    state.hgatp = 0x8_0000;
    state.mepc = 0x4000;
    let layout = MemoryLayout::new(0x8000_0000, 0x9000_0000);
    let id = create_confidential_vm(ConvertToConfidentialVm::new(&state), &mut control_data, &layout).unwrap();
    (control_data, id)
}

fn enter(control_data: &mut ControlData, hardware_hart_id: usize, id: ConfidentialVmId, hart: usize) -> ConfidentialFlow {
    let flow = NonConfidentialFlow::create(HardwareHart::init(hardware_hart_id, 100, 200));
    match flow.into_confidential_flow(control_data, id, hart) {
        Ok(flow) => flow,
        Err((_, error)) => panic!("cannot enter the confidential flow: {:?}", error),
    }
}

#[test]
fn confidential_hart_cannot_be_taken_twice() {
    let (mut control_data, id) = registry_with_one_vm();
    let first = enter(&mut control_data, 0, id, 0);
    assert_eq!(first.confidential_vm_id(), id);
    assert_eq!(first.confidential_hart_id(), 0);
    assert!(control_data.confidential_vm(id).unwrap().confidential_hart(0).unwrap().is_dummy());

    let second = NonConfidentialFlow::create(HardwareHart::init(1, 100, 200));
    let (second, error) = second.into_confidential_flow(&mut control_data, id, 0).unwrap_err();
    assert_eq!(error, Error::HartAlreadyRunning);
    let hardware_hart = second.exit_to_hypervisor(ExposeToHypervisor::Resume);
    assert!(hardware_hart.confidential_hart().is_dummy());
    assert_eq!(hardware_hart.id(), 1);
}

#[test]
fn returned_hart_can_be_taken_by_another_hardware_hart() {
    let (mut control_data, id) = registry_with_one_vm();
    let first = enter(&mut control_data, 0, id, 0);
    let back = first.into_non_confidential_flow(&mut control_data);
    let vm = control_data.confidential_vm(id).unwrap();
    assert!(!vm.confidential_hart(0).unwrap().is_dummy());
    assert_eq!(vm.confidential_hart(0).unwrap().state().mepc, 0x4000);
    let hardware_hart = back.exit_to_hypervisor(ExposeToHypervisor::Resume);
    assert!(hardware_hart.confidential_hart().is_dummy());
    assert_eq!(hardware_hart.confidential_hart().confidential_hart_id(), 0);

    let second = enter(&mut control_data, 1, id, 0);
    assert_eq!(second.confidential_hart_id(), 0);
    let hardware_hart = second.exit_to_confidential_hart(ExposeToConfidentialVm::Resume);
    assert_eq!(hardware_hart.id(), 1);
    assert_eq!(hardware_hart.confidential_hart().state().mepc, 0x4000);
    assert_eq!(hardware_hart.confidential_hart().confidential_vm_id(), Some(id));
}

#[test]
fn dummy_in_the_vm_names_the_hardware_hart_that_runs_the_hart() {
    let (mut control_data, id) = registry_with_one_vm();
    let _first = enter(&mut control_data, 5, id, 1);
    let vm = control_data.confidential_vm(id).unwrap();
    let parked = vm.confidential_hart(1).unwrap();
    assert!(parked.is_dummy());
    assert_eq!(parked.confidential_hart_id(), 5);
    assert_eq!(parked.confidential_vm_id(), None);
    assert!(!vm.confidential_hart(0).unwrap().is_dummy());
}

#[test]
fn two_hardware_harts_run_two_different_harts() {
    let (mut control_data, id) = registry_with_one_vm();
    let first = enter(&mut control_data, 0, id, 0);
    let second = enter(&mut control_data, 1, id, 1);
    assert_eq!(first.confidential_hart_id(), 0);
    assert_eq!(second.confidential_hart_id(), 1);
    let back = second.into_non_confidential_flow(&mut control_data);
    let vm = control_data.confidential_vm(id).unwrap();
    assert!(vm.confidential_hart(0).unwrap().is_dummy());
    assert!(!vm.confidential_hart(1).unwrap().is_dummy());
    let (_, error) = back.into_confidential_flow(&mut control_data, id, 0).unwrap_err();
    assert_eq!(error, Error::HartAlreadyRunning);
    first.into_non_confidential_flow(&mut control_data);
    assert!(!control_data.confidential_vm(id).unwrap().confidential_hart(0).unwrap().is_dummy());
}

#[test]
fn entering_fails_for_unknown_vm_or_hart() {
    let (mut control_data, id) = registry_with_one_vm();
    let flow = NonConfidentialFlow::create(HardwareHart::init(0, 100, 200));
    let (flow, error) = flow.into_confidential_flow(&mut control_data, ConfidentialVmId::new(9), 0).unwrap_err();
    assert_eq!(error, Error::InvalidConfidentialVmId);
    let (flow, error) = flow.into_confidential_flow(&mut control_data, id, 2).unwrap_err();
    assert_eq!(error, Error::InvalidHartId);
    assert!(flow.into_confidential_flow(&mut control_data, id, 0).is_ok());
}

#[test]
fn changes_made_in_the_flow_come_back_with_the_hart() {
    let (mut control_data, id) = registry_with_one_vm();
    let mut flow = enter(&mut control_data, 0, id, 0);
    assert!(!flow.is_confidential_hart_shutdown());
    flow.shutdown_confidential_hart();
    assert!(flow.is_confidential_hart_shutdown());
    flow.into_non_confidential_flow(&mut control_data);
    let vm = control_data.confidential_vm(id).unwrap();
    assert_eq!(*vm.confidential_hart(0).unwrap().lifecycle_state(), HartLifecycleState::Shutdown);
}

#[test]
fn flow_delegates_lifecycle_transitions() {
    let (mut control_data, id) = registry_with_one_vm();
    let mut flow = enter(&mut control_data, 0, id, 0);
    let request = security_monitor::transformations::SbiHsmHartSuspend {
        suspend_type: 0,
        resume_address: 0x10,
        opaque: 3,
    };
    assert_eq!(flow.start_confidential_hart_after_suspend(), Err(Error::CannotStartNotSuspendedHart));
    assert_eq!(flow.suspend_confidential_hart(request), Ok(()));
    assert_eq!(flow.suspend_confidential_hart(request), Err(Error::CannotSuspendNotStartedHart));
    assert_eq!(flow.stop_confidential_hart(), Err(Error::CannotStopNotStartedHart));
    assert_eq!(flow.start_confidential_hart_after_suspend(), Ok(()));
    assert_eq!(flow.stop_confidential_hart(), Ok(()));
    assert_eq!(flow.stop_confidential_hart(), Err(Error::CannotStopNotStartedHart));
    let hardware_hart = flow.exit_to_confidential_hart(ExposeToConfidentialVm::Resume);
    assert_eq!(*hardware_hart.confidential_hart().lifecycle_state(), HartLifecycleState::Stopped);

    let mut reset = enter(&mut control_data, 1, id, 1);
    assert_eq!(reset.suspend_confidential_hart(request), Err(Error::CannotSuspendNotStartedHart));
    reset.shutdown_confidential_hart();
    assert!(reset.is_confidential_hart_shutdown());
}

#[test]
fn flow_knows_whether_its_vm_is_registered() {
    let (mut control_data, id) = registry_with_one_vm();
    let flow = enter(&mut control_data, 0, id, 0);
    assert!(flow.is_registered_in(&control_data));
    let other_registry = ControlData::new();
    assert!(!flow.is_registered_in(&other_registry));
    let idle = HardwareHart::init(3, 0, 0);
    assert!(!control_data.can_return(&idle));
}

#[test]
fn vm_leaves_the_registry_only_with_all_its_harts() {
    let (mut control_data, id) = registry_with_one_vm();
    let flow = enter(&mut control_data, 0, id, 1);
    assert_eq!(control_data.remove_confidential_vm(id).unwrap_err(), Error::HartAlreadyRunning);
    assert!(control_data.contains(id));
    assert!(flow.is_registered_in(&control_data));
    assert!(!control_data.confidential_vm(id).unwrap().holds_every_hart());
    flow.into_non_confidential_flow(&mut control_data);
    assert!(control_data.confidential_vm(id).unwrap().holds_every_hart());
    let removed = control_data.remove_confidential_vm(id).unwrap();
    assert_eq!(removed.number_of_confidential_harts(), 2);
    assert!(!removed.confidential_hart(0).unwrap().is_dummy());
    assert!(!removed.confidential_hart(1).unwrap().is_dummy());
    assert!(!control_data.contains(id));
    assert_eq!(control_data.remove_confidential_vm(id).unwrap_err(), Error::InvalidConfidentialVmId);
}

#[test]
fn same_identifier_is_never_held_by_two_hardware_harts() {
    let (mut control_data, id) = registry_with_one_vm();
    let first = enter(&mut control_data, 0, id, 0);
    assert_eq!(control_data.remove_confidential_vm(id).unwrap_err(), Error::HartAlreadyRunning);
    let mut state = HartArchitecturalState::empty();
    state.hgatp = 0x8_0000;
    let layout = MemoryLayout::new(0x8000_0000, 0x9000_0000);
    let second_id =
        create_confidential_vm(ConvertToConfidentialVm::new(&state), &mut control_data, &layout).unwrap();
    assert_ne!(second_id, id);
    let second = enter(&mut control_data, 1, second_id, 0);
    assert_ne!(first.confidential_vm_id(), second.confidential_vm_id());
}

#[test]
fn hypervisor_resumes_a_hart_through_the_non_confidential_flow() {
    let (mut control_data, id) = registry_with_one_vm();
    let flow = NonConfidentialFlow::create(HardwareHart::init(2, 100, 200));
    let (flow, error) = match flow.resume_confidential_hart(&mut control_data, id, 7) {
        Ok(_) => panic!("the machine has no hart 7"),
        Err(failed) => failed,
    };
    assert_eq!(error, Error::InvalidHartId);
    let (flow, request) = match flow.resume_confidential_hart(&mut control_data, id, 0) {
        Ok(resumed) => resumed,
        Err((_, error)) => panic!("cannot resume: {:?}", error),
    };
    assert_eq!(
        request,
        security_monitor::confidential_flow::ResumeRequest::Exit(ExposeToConfidentialVm::Resume)
    );
    assert_eq!(flow.confidential_hart_id(), 0);
    assert!(flow.is_registered_in(&control_data));
    let again = NonConfidentialFlow::create(HardwareHart::init(3, 100, 200));
    match again.resume_confidential_hart(&mut control_data, id, 0) {
        Ok(_) => panic!("the hart runs already"),
        Err((_, error)) => assert_eq!(error, Error::HartAlreadyRunning),
    }
}

#[test]
fn registry_reports_lifecycle_states() {
    let (mut control_data, id) = registry_with_one_vm();
    assert_eq!(control_data.confidential_hart_lifecycle_state(id, 0), Ok(HartLifecycleState::Started));
    assert_eq!(control_data.confidential_hart_lifecycle_state(id, 1), Ok(HartLifecycleState::Stopped));
    assert_eq!(control_data.confidential_hart_lifecycle_state(id, 2), Err(Error::InvalidHartId));
    assert_eq!(
        control_data.confidential_hart_lifecycle_state(ConfidentialVmId::new(4), 0),
        Err(Error::InvalidConfidentialVmId)
    );
    let mut flow = enter(&mut control_data, 0, id, 1);
    assert_eq!(control_data.confidential_hart_lifecycle_state(id, 1), Ok(HartLifecycleState::Started));
    flow.shutdown_confidential_hart();
    flow.into_non_confidential_flow(&mut control_data);
    assert_eq!(control_data.confidential_hart_lifecycle_state(id, 1), Ok(HartLifecycleState::Shutdown));
}
