use security_monitor::architecture::{
    AceExtension, BaseExtension, HartArchitecturalState, HsmExtension, IpiExtension,
    RfenceExtension, SbiExtension, SrstExtension, TrapReason,
};
use security_monitor::confidential_flow::{ConfidentialFlow, ConfidentialRequest};
use security_monitor::confidential_hart::ConfidentialHart;
use security_monitor::control_data::ControlData;
use security_monitor::convert_to_confidential_vm::create_confidential_vm;
use security_monitor::hardware_hart::HardwareHart;
use security_monitor::memory_layout::MemoryLayout;
use security_monitor::non_confidential_flow::NonConfidentialFlow;
use security_monitor::shared_page::{PageSize, SharePageRequest};
use security_monitor::transformations::{
    ConvertToConfidentialVm, ExposeToConfidentialVm, GuestLoadPageFaultRequest, GuestStorePageFaultRequest, HartSelection, InterHartRequest,
    SbiHsmHartStart, SbiHsmHartStatus, SbiHsmHartSuspend, SbiRequest, UnsharePageRequest,
    VirtualInstructionRequest,
};

fn registers() -> HartArchitecturalState {
    let mut state = HartArchitecturalState::empty();
    state.a0 = 10;
    state.a1 = 11;
    state.a2 = 12;
    state.a3 = 13;
    state.a4 = 14;
    state.a5 = 15;
    state.mtval = 0x30;
    state.htval = 0x31;
    state.mtinst = 0x32;
    state
}

fn hardware_hart_with(state: &HartArchitecturalState) -> HardwareHart {
    let mut boot_state = *state;
    boot_state.hgatp = 0x8_0000;
    let layout = MemoryLayout::new(0x8000_0000, 0x9000_0000);
    let mut control_data = ControlData::new();
    let id = create_confidential_vm(ConvertToConfidentialVm::new(&boot_state), &mut control_data, &layout).unwrap();
    let flow = NonConfidentialFlow::create(HardwareHart::init(0, 1, 2));
    match flow.into_confidential_flow(&mut control_data, id, 0) {
        Ok(flow) => flow.exit_to_confidential_hart(ExposeToConfidentialVm::Resume),
        Err((_, error)) => panic!("cannot enter the confidential flow: {:?}", error),
    }
}

/// Routes the trap of a hart with the registers `state`, as the entry from
/// the context switch does: it stops with the reason where the mapping has no
/// handler for it.
fn route(state: &HartArchitecturalState) -> Result<(ConfidentialFlow, ConfidentialRequest), TrapReason> {
    let hardware_hart = hardware_hart_with(state);
    let reason = ConfidentialFlow::trap_reason(&hardware_hart, state);
    if !ConfidentialRequest::is_mapped(reason) {
        return Err(reason);
    }
    Ok(ConfidentialFlow::route_confidential_flow(hardware_hart, state))
}

fn route_call(extension_id: usize, function_id: usize) -> Option<ConfidentialRequest> {
    let mut state = registers();
    state.mcause = 10;
    state.a7 = extension_id;
    state.a6 = function_id;
    route(&state).ok().map(|(_, request)| request)
}

fn route_cause(mcause: usize) -> Result<ConfidentialRequest, TrapReason> {
    let mut state = registers();
    state.mcause = mcause;
    route(&state).map(|(_, request)| request)
}

fn call() -> SbiRequest {
    SbiRequest { extension_id: 0, function_id: 0, a0: 10, a1: 11, a2: 12, a3: 13, a4: 14, a5: 15 }
}

fn selection() -> HartSelection {
    HartSelection { hart_mask: 10, hart_mask_base: 11 }
}

#[test]
fn decode_sbi_extensions() {
    assert_eq!(SbiExtension::decode(0x10, 0), SbiExtension::Base(BaseExtension::GetSpecVersion));
    assert_eq!(SbiExtension::decode(0x10, 1), SbiExtension::Base(BaseExtension::GetImplId));
    assert_eq!(SbiExtension::decode(0x10, 2), SbiExtension::Base(BaseExtension::GetImplVersion));
    assert_eq!(SbiExtension::decode(0x10, 3), SbiExtension::Base(BaseExtension::ProbeExtension));
    assert_eq!(SbiExtension::decode(0x10, 4), SbiExtension::Base(BaseExtension::GetMvendorId));
    assert_eq!(SbiExtension::decode(0x10, 5), SbiExtension::Base(BaseExtension::GetMarchid));
    assert_eq!(SbiExtension::decode(0x10, 6), SbiExtension::Base(BaseExtension::GetMimpid));
    assert_eq!(SbiExtension::decode(0x10, 7), SbiExtension::Unknown(0x10, 7));
    assert_eq!(SbiExtension::decode(0x735049, 0), SbiExtension::Ipi(IpiExtension::SendIpi));
    assert_eq!(SbiExtension::decode(0x735049, 1), SbiExtension::Unknown(0x735049, 1));
    assert_eq!(SbiExtension::decode(0x52464E43, 0), SbiExtension::Rfence(RfenceExtension::RemoteFenceI));
    assert_eq!(SbiExtension::decode(0x52464E43, 1), SbiExtension::Rfence(RfenceExtension::RemoteSfenceVma));
    assert_eq!(SbiExtension::decode(0x52464E43, 2), SbiExtension::Rfence(RfenceExtension::RemoteSfenceVmaAsid));
    assert_eq!(SbiExtension::decode(0x52464E43, 3), SbiExtension::Rfence(RfenceExtension::RemoteHfenceGvmaVmid));
    assert_eq!(SbiExtension::decode(0x52464E43, 4), SbiExtension::Rfence(RfenceExtension::RemoteHfenceGvma));
    assert_eq!(SbiExtension::decode(0x52464E43, 5), SbiExtension::Rfence(RfenceExtension::RemoteHfenceVvmaAsid));
    assert_eq!(SbiExtension::decode(0x52464E43, 6), SbiExtension::Rfence(RfenceExtension::RemoteHfenceVvma));
    assert_eq!(SbiExtension::decode(0x52464E43, 7), SbiExtension::Unknown(0x52464E43, 7));
    assert_eq!(SbiExtension::decode(0x48534D, 0), SbiExtension::Hsm(HsmExtension::HartStart));
    assert_eq!(SbiExtension::decode(0x48534D, 1), SbiExtension::Hsm(HsmExtension::HartStop));
    assert_eq!(SbiExtension::decode(0x48534D, 2), SbiExtension::Hsm(HsmExtension::HartGetStatus));
    assert_eq!(SbiExtension::decode(0x48534D, 3), SbiExtension::Hsm(HsmExtension::HartSuspend));
    assert_eq!(SbiExtension::decode(0x48534D, 4), SbiExtension::Unknown(0x48534D, 4));
    assert_eq!(SbiExtension::decode(0x53525354, 0), SbiExtension::Srst(SrstExtension::SystemReset));
    assert_eq!(SbiExtension::decode(0x53525354, 1), SbiExtension::Unknown(0x53525354, 1));
    assert_eq!(SbiExtension::decode(0x510000, 2000), SbiExtension::Ace(AceExtension::SharePageWithHypervisor));
    assert_eq!(
        SbiExtension::decode(0x510000, 2001),
        SbiExtension::Ace(AceExtension::StopSharingPageWithHypervisor)
    );
    assert_eq!(SbiExtension::decode(0x510000, 0), SbiExtension::Unknown(0x510000, 0));
    assert_eq!(SbiExtension::decode(0x1234, 5), SbiExtension::Unknown(0x1234, 5));
}

#[test]
fn decode_trap_reasons() {
    assert_eq!(TrapReason::decode(usize::MAX / 2 + 1, 0, 0), TrapReason::Interrupt);
    assert_eq!(TrapReason::decode(usize::MAX / 2 + 1 + 7, 0x10, 0), TrapReason::Interrupt);
    assert_eq!(TrapReason::decode(usize::MAX, 0, 0), TrapReason::Interrupt);
    assert_eq!(TrapReason::decode(usize::MAX / 2, 0, 0), TrapReason::Unknown);
    assert_eq!(TrapReason::decode(9, 0x10, 0), TrapReason::HsEcall);
    assert_eq!(
        TrapReason::decode(10, 0x10, 3),
        TrapReason::VsEcall(SbiExtension::Base(BaseExtension::ProbeExtension))
    );
    assert_eq!(TrapReason::decode(11, 0x10, 0), TrapReason::MachineEcall);
    assert_eq!(TrapReason::decode(20, 0, 0), TrapReason::GuestInstructionPageFault);
    assert_eq!(TrapReason::decode(21, 0, 0), TrapReason::GuestLoadPageFault);
    assert_eq!(TrapReason::decode(22, 0, 0), TrapReason::VirtualInstruction);
    assert_eq!(TrapReason::decode(23, 0, 0), TrapReason::GuestStorePageFault);
    assert_eq!(TrapReason::decode(0, 0, 0), TrapReason::Unknown);
    assert_eq!(TrapReason::decode(8, 0, 0), TrapReason::Unknown);
    assert_eq!(TrapReason::decode(24, 0, 0), TrapReason::Unknown);
}

#[test]
fn route_interrupts_faults_and_virtual_instructions() {
    assert_eq!(route_cause(usize::MAX / 2 + 1 + 9), Ok(ConfidentialRequest::Interrupt));
    assert_eq!(
        route_cause(21),
        Ok(ConfidentialRequest::GuestLoadPageFault(GuestLoadPageFaultRequest {
            mtval: 0x30,
            htval: 0x31,
            mtinst: 0x32
        }))
    );
    assert_eq!(
        route_cause(22),
        Ok(ConfidentialRequest::VirtualInstruction(VirtualInstructionRequest { instruction: 0x30 }))
    );
    assert_eq!(
        route_cause(23),
        Ok(ConfidentialRequest::GuestStorePageFault(GuestStorePageFaultRequest {
            mtval: 0x30,
            htval: 0x31,
            mtinst: 0x32
        }))
    );
}

#[test]
fn route_calls_of_the_monitor_and_base_extensions() {
    assert_eq!(
        route_call(0x510000, 2000),
        Some(ConfidentialRequest::SharePage(SharePageRequest::new(10, PageSize::Size4KiB)))
    );
    assert_eq!(
        route_call(0x510000, 2001),
        Some(ConfidentialRequest::UnsharePage(UnsharePageRequest { address: 10 }))
    );
    for function_id in [0, 1, 2, 4, 5, 6] {
        assert_eq!(
            route_call(0x10, function_id),
            Some(ConfidentialRequest::Hypercall(SbiRequest { extension_id: 0x10, function_id, ..call() }))
        );
    }
    assert_eq!(
        route_call(0x10, 3),
        Some(ConfidentialRequest::SbiProbeExtension(SbiRequest {
            extension_id: 0x10,
            function_id: 3,
            ..call()
        }))
    );
}

#[test]
fn route_inter_hart_calls() {
    assert_eq!(
        route_call(0x735049, 0),
        Some(ConfidentialRequest::SbiIpi(InterHartRequest::SbiIpi(selection())))
    );
    assert_eq!(
        route_call(0x52464E43, 0),
        Some(ConfidentialRequest::SbiIpi(InterHartRequest::SbiRemoteFenceI(selection())))
    );
    assert_eq!(
        route_call(0x52464E43, 1),
        Some(ConfidentialRequest::SbiIpi(InterHartRequest::SbiRemoteSfenceVma {
            selection: selection(),
            start_address: 12,
            size: 13
        }))
    );
    assert_eq!(
        route_call(0x52464E43, 2),
        Some(ConfidentialRequest::SbiIpi(InterHartRequest::SbiRemoteSfenceVmaAsid {
            selection: selection(),
            start_address: 12,
            size: 13,
            asid: 14
        }))
    );
    for function_id in [3, 4, 5, 6] {
        assert_eq!(route_call(0x52464E43, function_id), Some(ConfidentialRequest::SbiRfenceNop));
    }
}

#[test]
fn route_hart_state_management_and_reset_calls() {
    assert_eq!(
        route_call(0x48534D, 0),
        Some(ConfidentialRequest::SbiHsmHartStart(SbiHsmHartStart {
            confidential_hart_id: 10,
            start_address: 11,
            opaque: 12
        }))
    );
    assert_eq!(route_call(0x48534D, 1), Some(ConfidentialRequest::SbiHsmHartStop));
    assert_eq!(
        route_call(0x48534D, 2),
        Some(ConfidentialRequest::SbiHsmHartStatus(SbiHsmHartStatus { confidential_hart_id: 10 }))
    );
    assert_eq!(
        route_call(0x48534D, 3),
        Some(ConfidentialRequest::SbiHsmHartSuspend(SbiHsmHartSuspend {
            suspend_type: 10,
            resume_address: 11,
            opaque: 12
        }))
    );
    assert_eq!(route_call(0x53525354, 0), Some(ConfidentialRequest::SbiSrst));
}

#[test]
fn route_has_no_handler_for_unknown_calls() {
    assert_eq!(route_call(0x1234, 0), None);
    assert_eq!(route_call(0x10, 7), None);
    assert_eq!(route_call(0x510000, 1), None);
    assert_eq!(route_call(0x53525354, 1), None);
    assert_eq!(route_call(0x735049, 1), None);
    assert_eq!(route_call(0x52464E43, 7), None);
    assert_eq!(route_call(0x48534D, 4), None);
    let mut state = registers();
    state.mcause = 10;
    state.a7 = 0x1234;
    state.a6 = 5;
    assert_eq!(route(&state).unwrap_err(), TrapReason::VsEcall(SbiExtension::Unknown(0x1234, 5)));
    assert!(!ConfidentialRequest::is_mapped(TrapReason::VsEcall(SbiExtension::Unknown(0x1234, 5))));
}

#[test]
fn route_has_no_handler_outside_the_mapping() {
    assert_eq!(route_cause(9), Err(TrapReason::HsEcall));
    assert_eq!(route_cause(11), Err(TrapReason::MachineEcall));
    assert_eq!(route_cause(20), Err(TrapReason::GuestInstructionPageFault));
    assert_eq!(route_cause(0), Err(TrapReason::Unknown));
    assert_eq!(route_cause(8), Err(TrapReason::Unknown));
    assert_eq!(route_cause(1000), Err(TrapReason::Unknown));
}

#[test]
fn route_reads_the_registers_that_the_hardware_holds() {
    let mut stale = registers();
    stale.mcause = 9;
    stale.mtval = 1;
    let hardware_hart = hardware_hart_with(&stale);
    let mut fresh = HartArchitecturalState::empty();
    fresh.mcause = 22;
    fresh.mtval = 0x77;
    fresh.a0 = 99;
    assert_eq!(ConfidentialFlow::trap_reason(&hardware_hart, &fresh), TrapReason::VirtualInstruction);
    assert_eq!(ConfidentialFlow::trap_reason(&hardware_hart, &stale), TrapReason::HsEcall);
    let (flow, request) = ConfidentialFlow::route_confidential_flow(hardware_hart, &fresh);
    assert_eq!(
        request,
        ConfidentialRequest::VirtualInstruction(VirtualInstructionRequest { instruction: 0x77 })
    );
    let hardware_hart = flow.exit_to_confidential_hart(ExposeToConfidentialVm::Resume);
    let state = hardware_hart.confidential_hart().state();
    assert_eq!(state.mcause, 22);
    assert_eq!(state.mtval, 0x77);
    assert_eq!(state.a0, 10);
}

#[test]
fn mapping_has_a_handler_for_exactly_the_declared_reasons() {
    let hart = ConfidentialHart::from_vm_hart(0, &registers());
    let unmapped = [
        TrapReason::VsEcall(SbiExtension::Unknown(1, 2)),
        TrapReason::HsEcall,
        TrapReason::MachineEcall,
        TrapReason::GuestInstructionPageFault,
        TrapReason::Unknown,
    ];
    for reason in unmapped {
        assert!(!ConfidentialRequest::is_mapped(reason));
    }
    let mapped = [
        TrapReason::Interrupt,
        TrapReason::VsEcall(SbiExtension::Ace(AceExtension::SharePageWithHypervisor)),
        TrapReason::VsEcall(SbiExtension::Base(BaseExtension::GetMimpid)),
        TrapReason::VsEcall(SbiExtension::Ipi(IpiExtension::SendIpi)),
        TrapReason::VsEcall(SbiExtension::Rfence(RfenceExtension::RemoteHfenceVvma)),
        TrapReason::VsEcall(SbiExtension::Hsm(HsmExtension::HartStop)),
        TrapReason::VsEcall(SbiExtension::Srst(SrstExtension::SystemReset)),
        TrapReason::GuestLoadPageFault,
        TrapReason::VirtualInstruction,
        TrapReason::GuestStorePageFault,
    ];
    for reason in mapped {
        assert!(ConfidentialRequest::is_mapped(reason));
    }
    assert_eq!(ConfidentialRequest::route(TrapReason::Interrupt, &hart), ConfidentialRequest::Interrupt);
    assert_eq!(
        ConfidentialRequest::route(TrapReason::VsEcall(SbiExtension::Hsm(HsmExtension::HartStop)), &hart),
        ConfidentialRequest::SbiHsmHartStop
    );
}
