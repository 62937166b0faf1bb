use security_monitor::architecture::HartArchitecturalState;
use security_monitor::confidential_flow::{BroadcastProgress, ConfidentialFlow};
use security_monitor::confidential_vm::{InterHartBroadcastStep, MAX_NUMBER_OF_INTER_HART_REQUESTS};
use security_monitor::confidential_vm_id::ConfidentialVmId;
use security_monitor::control_data::ControlData;
use security_monitor::convert_to_confidential_vm::create_confidential_vm;
use security_monitor::error::Error;
use security_monitor::hardware_hart::HardwareHart;
use security_monitor::memory_layout::MemoryLayout;
use security_monitor::non_confidential_flow::NonConfidentialFlow;
use security_monitor::transformations::{
    ConvertToConfidentialVm, ExposeToConfidentialVm, HartSelection, InterHartRequest, SbiHsmHartStart,
};

const MONITOR_MSCRATCH: usize = 0x1111;
const FIRMWARE_MSCRATCH: usize = 0x2222;

fn registry_with_one_vm() -> (ControlData, ConfidentialVmId) {
    let mut control_data = ControlData::new();
    let mut state = HartArchitecturalState::empty();
    state.hgatp = 0x8_0000;
    let layout = MemoryLayout::new(0x8000_0000, 0x9000_0000);
    let id = create_confidential_vm(ConvertToConfidentialVm::new(&state), &mut control_data, &layout).unwrap();
    (control_data, id)
}

fn enter(control_data: &mut ControlData, hardware_hart_id: usize, id: ConfidentialVmId, hart: usize) -> ConfidentialFlow {
    let hardware_hart = HardwareHart::init(hardware_hart_id, MONITOR_MSCRATCH, FIRMWARE_MSCRATCH);
    match NonConfidentialFlow::create(hardware_hart).into_confidential_flow(control_data, id, hart) {
        Ok(flow) => flow,
        Err((_, error)) => panic!("cannot enter the confidential flow: {:?}", error),
    }
}

/// Runs a broadcast to its end on a machine on which exactly the hardware
/// harts below `reachable` can be interrupted. Returns the flow, the result,
/// the hardware harts that were interrupted and the scratch values that the
/// firmware saw.
fn broadcast(
    flow: ConfidentialFlow,
    control_data: &mut ControlData,
    request: InterHartRequest,
    reachable: usize,
) -> (ConfidentialFlow, Result<(), Error>, Vec<usize>, Vec<usize>) {
    let mut interrupted = Vec::new();
    let mut seen = Vec::new();
    let mut progress = flow.broadcast_inter_hart_request(control_data, request);
    loop {
        match progress {
            BroadcastProgress::Notify { broadcast, hardware_hart_id } => {
                seen.push(broadcast.mscratch());
                assert_eq!(broadcast.request(), request);
                let delivered = hardware_hart_id < reachable;
                if delivered {
                    interrupted.push(hardware_hart_id);
                }
                progress = broadcast.proceed(control_data, delivered);
            }
            BroadcastProgress::Finished { flow, result } => return (flow, result, interrupted, seen),
        }
    }
}

fn scratch_values(flow: ConfidentialFlow) -> (usize, usize) {
    let hardware_hart = flow.exit_to_confidential_hart(ExposeToConfidentialVm::Resume);
    (hardware_hart.mscratch(), hardware_hart.previous_mscratch())
}

fn everyone() -> HartSelection {
    HartSelection { hart_mask: 0, hart_mask_base: usize::MAX }
}

fn queued(control_data: &ControlData, id: ConfidentialVmId, hart: usize) -> usize {
    control_data.confidential_vm(id).unwrap().number_of_inter_hart_requests(hart).unwrap()
}

#[test]
fn hart_selection_by_mask_and_base() {
    let selection = HartSelection { hart_mask: 0b101, hart_mask_base: 2 };
    assert!(!selection.is_hart_selected(0));
    assert!(!selection.is_hart_selected(1));
    assert!(selection.is_hart_selected(2));
    assert!(!selection.is_hart_selected(3));
    assert!(selection.is_hart_selected(4));
    assert!(!selection.is_hart_selected(5));
    assert!(!selection.is_hart_selected(2 + usize::BITS as usize));
    assert!(!selection.is_hart_selected(usize::MAX));
    let top = HartSelection { hart_mask: 1 << (usize::BITS - 1), hart_mask_base: 0 };
    assert!(top.is_hart_selected(usize::BITS as usize - 1));
    assert!(!top.is_hart_selected(usize::BITS as usize));
    assert!(!top.is_hart_selected(0));
    let all = HartSelection { hart_mask: 0, hart_mask_base: usize::MAX };
    assert!(all.is_hart_selected(0));
    assert!(all.is_hart_selected(77));
    assert!(all.is_hart_selected(usize::MAX));
    let start = InterHartRequest::SbiHsmHartStart(SbiHsmHartStart {
        confidential_hart_id: 3,
        start_address: 0,
        opaque: 0,
    });
    assert!(start.is_hart_selected(3));
    assert!(!start.is_hart_selected(2));
}

#[test]
fn broadcast_queues_for_selected_harts_only() {
    let (mut control_data, id) = registry_with_one_vm();
    let flow = enter(&mut control_data, 0, id, 0);
    let only_one = InterHartRequest::SbiIpi(HartSelection { hart_mask: 0b10, hart_mask_base: 0 });
    let (_, result, interrupted, _) = broadcast(flow, &mut control_data, only_one, 4);
    assert_eq!(result, Ok(()));
    assert_eq!(queued(&control_data, id, 0), 0);
    assert_eq!(queued(&control_data, id, 1), 1);
    assert!(interrupted.is_empty());
}

#[test]
fn broadcast_names_the_hardware_harts_that_run_a_target() {
    let (mut control_data, id) = registry_with_one_vm();
    let sender = enter(&mut control_data, 0, id, 0);
    let _target = enter(&mut control_data, 3, id, 1);
    let request = InterHartRequest::SbiRemoteFenceI(HartSelection { hart_mask: 0b1, hart_mask_base: 1 });
    let (_, result, interrupted, _) = broadcast(sender, &mut control_data, request, 4);
    assert_eq!(result, Ok(()));
    assert_eq!(queued(&control_data, id, 0), 0);
    assert_eq!(queued(&control_data, id, 1), 1);
    assert_eq!(interrupted, vec![3]);
}

#[test]
fn broadcast_to_everyone_includes_the_sender() {
    let (mut control_data, id) = registry_with_one_vm();
    let sender = enter(&mut control_data, 2, id, 0);
    let _target = enter(&mut control_data, 3, id, 1);
    let (_, result, interrupted, _) = broadcast(sender, &mut control_data, InterHartRequest::SbiIpi(everyone()), 4);
    assert_eq!(result, Ok(()));
    assert_eq!(interrupted, vec![2, 3]);
    assert_eq!(queued(&control_data, id, 0), 1);
    assert_eq!(queued(&control_data, id, 1), 1);
}

#[test]
fn failed_broadcast_reverts_the_scratch_register() {
    let (mut control_data, id) = registry_with_one_vm();
    let sender = enter(&mut control_data, 0, id, 0);
    let _unreachable = enter(&mut control_data, 7, id, 1);
    let request = InterHartRequest::SbiIpi(HartSelection { hart_mask: 0b10, hart_mask_base: 0 });
    let (sender, result, interrupted, seen) = broadcast(sender, &mut control_data, request, 2);
    assert_eq!(result, Err(Error::InterruptSendingError));
    assert_eq!(queued(&control_data, id, 1), 1);
    assert!(interrupted.is_empty());
    assert_eq!(seen, vec![FIRMWARE_MSCRATCH]);
    assert_eq!(scratch_values(sender), (MONITOR_MSCRATCH, FIRMWARE_MSCRATCH));
}

#[test]
fn broadcast_that_fails_mid_call_stops_there() {
    let (mut control_data, id) = registry_with_one_vm();
    let sender = enter(&mut control_data, 5, id, 0);
    let _target = enter(&mut control_data, 1, id, 1);
    let (sender, result, interrupted, seen) = broadcast(sender, &mut control_data, InterHartRequest::SbiIpi(everyone()), 2);
    assert_eq!(result, Err(Error::InterruptSendingError));
    assert!(interrupted.is_empty());
    assert_eq!(seen, vec![FIRMWARE_MSCRATCH]);
    assert_eq!(queued(&control_data, id, 0), 1);
    assert_eq!(queued(&control_data, id, 1), 0);
    assert_eq!(scratch_values(sender), (MONITOR_MSCRATCH, FIRMWARE_MSCRATCH));
}

#[test]
fn successful_broadcast_reverts_the_scratch_register() {
    let (mut control_data, id) = registry_with_one_vm();
    let sender = enter(&mut control_data, 0, id, 0);
    let _target = enter(&mut control_data, 1, id, 1);
    let (sender, result, interrupted, seen) = broadcast(sender, &mut control_data, InterHartRequest::SbiIpi(everyone()), 2);
    assert_eq!(result, Ok(()));
    assert_eq!(interrupted, vec![0, 1]);
    assert_eq!(seen, vec![FIRMWARE_MSCRATCH, FIRMWARE_MSCRATCH]);
    assert_eq!(scratch_values(sender), (MONITOR_MSCRATCH, FIRMWARE_MSCRATCH));
}

#[test]
fn swap_mscratch_is_paired() {
    let mut hardware_hart = HardwareHart::init(0, MONITOR_MSCRATCH, FIRMWARE_MSCRATCH);
    hardware_hart.swap_mscratch();
    assert_eq!(hardware_hart.mscratch(), FIRMWARE_MSCRATCH);
    assert_eq!(hardware_hart.previous_mscratch(), MONITOR_MSCRATCH);
    hardware_hart.swap_mscratch();
    assert_eq!(hardware_hart.mscratch(), MONITOR_MSCRATCH);
    assert_eq!(hardware_hart.previous_mscratch(), FIRMWARE_MSCRATCH);
}

#[test]
fn broadcast_fails_when_a_queue_is_full() {
    let (mut control_data, id) = registry_with_one_vm();
    let mut sender = enter(&mut control_data, 0, id, 0);
    let to_second = InterHartRequest::SbiIpi(HartSelection { hart_mask: 0b10, hart_mask_base: 0 });
    for _ in 0..MAX_NUMBER_OF_INTER_HART_REQUESTS {
        let (flow, result, _, _) = broadcast(sender, &mut control_data, to_second, 1);
        assert_eq!(result, Ok(()));
        sender = flow;
    }
    assert_eq!(MAX_NUMBER_OF_INTER_HART_REQUESTS, 64);
    assert_eq!(queued(&control_data, id, 1), 64);
    let (sender, result, _, _) = broadcast(sender, &mut control_data, to_second, 1);
    assert_eq!(result, Err(Error::ReachedMaxNumberOfRemoteHartRequests));
    assert_eq!(queued(&control_data, id, 1), 64);
    assert_eq!(scratch_values(sender), (MONITOR_MSCRATCH, FIRMWARE_MSCRATCH));
}

#[test]
fn broadcast_stops_at_the_first_failure_and_keeps_what_was_queued() {
    let (mut control_data, id) = registry_with_one_vm();
    let mut sender = enter(&mut control_data, 0, id, 0);
    let to_second = InterHartRequest::SbiIpi(HartSelection { hart_mask: 0b10, hart_mask_base: 0 });
    for _ in 0..MAX_NUMBER_OF_INTER_HART_REQUESTS {
        let (flow, result, _, _) = broadcast(sender, &mut control_data, to_second, 1);
        assert_eq!(result, Ok(()));
        sender = flow;
    }
    let to_all = InterHartRequest::SbiRemoteFenceI(everyone());
    let (_, result, interrupted, _) = broadcast(sender, &mut control_data, to_all, 1);
    assert_eq!(result, Err(Error::ReachedMaxNumberOfRemoteHartRequests));
    assert_eq!(queued(&control_data, id, 0), 1);
    assert_eq!(queued(&control_data, id, 1), 64);
    assert_eq!(interrupted, vec![0]);
}

#[test]
fn broadcast_fails_where_the_registry_does_not_hold_the_vm() {
    let (mut control_data, id) = registry_with_one_vm();
    let sender = enter(&mut control_data, 0, id, 0);
    let mut other_registry = ControlData::new();
    let (sender, result, interrupted, _) =
        broadcast(sender, &mut other_registry, InterHartRequest::SbiIpi(everyone()), 1);
    assert_eq!(result, Err(Error::InvalidConfidentialVmId));
    assert!(interrupted.is_empty());
    assert_eq!(queued(&control_data, id, 0), 0);
    assert_eq!(scratch_values(sender), (MONITOR_MSCRATCH, FIRMWARE_MSCRATCH));
}

#[test]
fn broadcast_step_in_the_registry_goes_on_from_a_given_hart() {
    let (mut control_data, id) = registry_with_one_vm();
    let _first = enter(&mut control_data, 4, id, 0);
    let _second = enter(&mut control_data, 6, id, 1);
    let request = InterHartRequest::SbiIpi(everyone());
    assert_eq!(
        control_data.broadcast_inter_hart_request(id, request, 0),
        InterHartBroadcastStep::Notify { hardware_hart_id: 4, next_hart_id: 1 }
    );
    assert_eq!((queued(&control_data, id, 0), queued(&control_data, id, 1)), (1, 0));
    assert_eq!(
        control_data.broadcast_inter_hart_request(id, request, 1),
        InterHartBroadcastStep::Notify { hardware_hart_id: 6, next_hart_id: 2 }
    );
    assert_eq!((queued(&control_data, id, 0), queued(&control_data, id, 1)), (1, 1));
    assert_eq!(control_data.broadcast_inter_hart_request(id, request, 2), InterHartBroadcastStep::Finished(Ok(())));
    assert_eq!(control_data.broadcast_inter_hart_request(id, request, 9), InterHartBroadcastStep::Finished(Ok(())));
    assert_eq!((queued(&control_data, id, 0), queued(&control_data, id, 1)), (1, 1));
    assert_eq!(
        control_data.broadcast_inter_hart_request(ConfidentialVmId::new(8), request, 0),
        InterHartBroadcastStep::Finished(Err(Error::InvalidConfidentialVmId))
    );
}
