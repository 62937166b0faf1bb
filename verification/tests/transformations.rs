use security_monitor::architecture::{
    destination_register, instruction_length, GeneralPurposeRegister, HartArchitecturalState,
    HartLifecycleState, SbiExtension,
};
use security_monitor::confidential_hart::ConfidentialHart;
use security_monitor::confidential_vm_id::ConfidentialVmId;
use security_monitor::control_data::ControlData;
use security_monitor::error::Error;
use security_monitor::hardware_hart::HardwareHart;
use security_monitor::memory_layout::MemoryLayout;
use security_monitor::shared_page::{PageSize, SharePageRequest, SharedPage};
use security_monitor::transformations::{
    ExposeToConfidentialVm, ExposeToHypervisor, GuestLoadPageFaultRequest, GuestLoadPageFaultResult,
    GuestStorePageFaultRequest, HartSelection, InterHartRequest, PendingRequest, SbiHsmHartStart,
    SbiHsmHartSuspend, SbiRequest, SbiResult, UnsharePageRequest, VirtualInstructionRequest,
};

fn hart() -> ConfidentialHart {
    let mut state = HartArchitecturalState::empty();
    state.a0 = 1;
    state.a1 = 2;
    state.a2 = 3;
    state.mepc = 0x1000;
    ConfidentialHart::from_vm_hart(4, &state)
}

#[test]
fn error_codes() {
    assert_eq!(Error::AddressNotInNonConfidentialMemory.code(), 1);
    assert_eq!(Error::InvalidMemoryLayout.code(), 2);
    assert_eq!(Error::TooManyConfidentialVms.code(), 3);
    assert_eq!(Error::InvalidConfidentialVmId.code(), 4);
    assert_eq!(Error::InvalidHartId.code(), 5);
    assert_eq!(Error::HartAlreadyRunning.code(), 6);
    assert_eq!(Error::CannotSuspendNotStartedHart.code(), 7);
    assert_eq!(Error::CannotStopNotStartedHart.code(), 8);
    assert_eq!(Error::CannotStartNotSuspendedHart.code(), 9);
    assert_eq!(Error::PendingRequest.code(), 10);
    assert_eq!(Error::ReachedMaxNumberOfRemoteHartRequests.code(), 11);
    assert_eq!(Error::InterruptSendingError.code(), 12);
}

#[test]
fn errors_become_results_of_calls() {
    assert_eq!(
        Error::InvalidHartId.into_confidential_transformation(),
        ExposeToConfidentialVm::SbiResult(SbiResult { a0: 5, a1: 0 })
    );
    assert_eq!(
        Error::TooManyConfidentialVms.into_non_confidential_transformation(),
        ExposeToHypervisor::SbiResult(SbiResult { a0: 3, a1: 0 })
    );
    assert_eq!(SbiResult::success(9), SbiResult { a0: 0, a1: 9 });
    assert_eq!(SbiResult::failure(9), SbiResult { a0: 9, a1: 0 });
}

#[test]
fn sbi_result_lands_in_a0_and_a1_and_skips_the_call() {
    let mut hart = hart();
    hart.apply(ExposeToConfidentialVm::SbiResult(SbiResult { a0: 7, a1: 8 }));
    assert_eq!(hart.state().a0, 7);
    assert_eq!(hart.state().a1, 8);
    assert_eq!(hart.state().a2, 3);
    assert_eq!(hart.state().mepc, 0x1004);
}

#[test]
fn program_counter_wraps_around() {
    let mut state = HartArchitecturalState::empty();
    state.mepc = usize::MAX - 1;
    let mut hart = ConfidentialHart::from_vm_hart(0, &state);
    hart.apply(ExposeToConfidentialVm::SbiResult(SbiResult { a0: 0, a1: 0 }));
    assert_eq!(hart.state().mepc, 2);
    hart.apply(ExposeToConfidentialVm::GuestStorePageFaultResult { instruction_length: usize::MAX });
    assert_eq!(hart.state().mepc, 1);
}

#[test]
fn emulated_instructions_are_skipped() {
    let mut hart = hart();
    hart.apply(ExposeToConfidentialVm::GuestLoadPageFaultResult {
        result_gpr: GeneralPurposeRegister::A5,
        value: 0x99,
        instruction_length: 2,
    });
    assert_eq!(hart.state().a5, 0x99);
    assert_eq!(hart.state().a0, 1);
    assert_eq!(hart.state().mepc, 0x1002);
    hart.apply(ExposeToConfidentialVm::GuestStorePageFaultResult { instruction_length: 4 });
    assert_eq!(hart.state().mepc, 0x1006);
    hart.apply(ExposeToConfidentialVm::VirtualInstructionResult { instruction_length: 4 });
    assert_eq!(hart.state().mepc, 0x100a);
    assert_eq!(hart.state().a5, 0x99);
}

#[test]
fn every_argument_register_can_be_written_and_read() {
    let registers = [
        GeneralPurposeRegister::A0,
        GeneralPurposeRegister::A1,
        GeneralPurposeRegister::A2,
        GeneralPurposeRegister::A3,
        GeneralPurposeRegister::A4,
        GeneralPurposeRegister::A5,
        GeneralPurposeRegister::A6,
        GeneralPurposeRegister::A7,
    ];
    let mut state = HartArchitecturalState::empty();
    for (index, register) in registers.iter().enumerate() {
        state.set_gpr(*register, 100 + index);
    }
    assert_eq!(
        [state.a0, state.a1, state.a2, state.a3, state.a4, state.a5, state.a6, state.a7],
        [100, 101, 102, 103, 104, 105, 106, 107]
    );
    for (index, register) in registers.iter().enumerate() {
        assert_eq!(state.gpr(*register), 100 + index);
    }
    assert_eq!(state.mepc, 0);
}

#[test]
fn transformations_that_leave_the_saved_state_alone() {
    let unchanged = [
        ExposeToConfidentialVm::Resume,
        ExposeToConfidentialVm::SbiHsmHartStartPending,
        ExposeToConfidentialVm::SbiRemoteFenceI,
        ExposeToConfidentialVm::SbiRemoteSfenceVma { start_address: 1, size: 2 },
        ExposeToConfidentialVm::SbiRemoteSfenceVmaAsid { start_address: 1, size: 2, asid: 3 },
        ExposeToConfidentialVm::StartHart { start_address: 0x5000, opaque: 5 },
    ];
    for transformation in unchanged {
        let mut changed = hart();
        changed.apply(transformation);
        assert_eq!(*changed.state(), *hart().state());
        assert_eq!(*changed.lifecycle_state(), HartLifecycleState::Started);
    }
}

#[test]
fn ipi_raises_the_software_interrupt_and_keeps_other_interrupts() {
    let mut state = HartArchitecturalState::empty();
    state.hvip = 0b0100_0000;
    let mut hart = ConfidentialHart::from_vm_hart(0, &state);
    hart.apply(ExposeToConfidentialVm::SbiIpi);
    assert_eq!(hart.state().hvip, 0b0100_0100);
    hart.apply(ExposeToConfidentialVm::SbiIpi);
    assert_eq!(hart.state().hvip, 0b0100_0100);
}

#[test]
fn start_command_starts_a_suspended_hart_only() {
    let mut suspended = hart();
    suspended
        .transition_from_started_to_suspended(SbiHsmHartSuspend { suspend_type: 0, resume_address: 0, opaque: 0 })
        .unwrap();
    suspended.apply(ExposeToConfidentialVm::StartHart { start_address: 0x5000, opaque: 5 });
    assert_eq!(*suspended.lifecycle_state(), HartLifecycleState::Started);
    assert_eq!(suspended.state().mepc, 0x5000);
    assert_eq!(suspended.state().a0, 4);
    assert_eq!(suspended.state().a1, 5);
    assert_eq!(suspended.state().a2, 3);

    let mut stopped = hart();
    stopped.transition_from_started_to_stopped().unwrap();
    stopped.apply(ExposeToConfidentialVm::StartHart { start_address: 0x5000, opaque: 5 });
    assert_eq!(*stopped.lifecycle_state(), HartLifecycleState::Stopped);
    assert_eq!(stopped.state().mepc, 0x1000);

    let mut shutdown = hart();
    shutdown.transition_to_shutdown();
    shutdown.apply(ExposeToConfidentialVm::StartHart { start_address: 0x5000, opaque: 5 });
    assert_eq!(*shutdown.lifecycle_state(), HartLifecycleState::Shutdown);
}

#[test]
fn inter_hart_requests_become_transformations() {
    let selection = HartSelection { hart_mask: 1, hart_mask_base: 0 };
    assert_eq!(
        InterHartRequest::SbiIpi(selection).into_expose_to_confidential_vm(),
        ExposeToConfidentialVm::SbiIpi
    );
    assert_eq!(
        InterHartRequest::SbiRemoteFenceI(selection).into_expose_to_confidential_vm(),
        ExposeToConfidentialVm::SbiRemoteFenceI
    );
    assert_eq!(
        InterHartRequest::SbiRemoteSfenceVma { selection, start_address: 5, size: 6 }.into_expose_to_confidential_vm(),
        ExposeToConfidentialVm::SbiRemoteSfenceVma { start_address: 5, size: 6 }
    );
    assert_eq!(
        InterHartRequest::SbiRemoteSfenceVmaAsid { selection, start_address: 5, size: 6, asid: 7 }
            .into_expose_to_confidential_vm(),
        ExposeToConfidentialVm::SbiRemoteSfenceVmaAsid { start_address: 5, size: 6, asid: 7 }
    );
    assert_eq!(
        InterHartRequest::SbiHsmHartStart(SbiHsmHartStart { confidential_hart_id: 1, start_address: 8, opaque: 9 })
            .into_expose_to_confidential_vm(),
        ExposeToConfidentialVm::StartHart { start_address: 8, opaque: 9 }
    );
}

#[test]
fn hypervisor_sees_requests_and_results() {
    let mut hardware_hart = HardwareHart::init(2, 0, 0);
    let mut state = HartArchitecturalState::empty();
    state.mepc = 0x300;
    state.mtval = 0x44;
    hardware_hart.store_non_confidential_hart_state(&state);
    let request = SbiRequest { extension_id: 70, function_id: 60, a0: 1, a1: 2, a2: 3, a3: 4, a4: 5, a5: 6 };
    hardware_hart.apply(ExposeToHypervisor::SbiRequest(request));
    let seen = *hardware_hart.non_confidential_hart_state();
    assert_eq!([seen.a0, seen.a1, seen.a2, seen.a3, seen.a4, seen.a5, seen.a6, seen.a7], [1, 2, 3, 4, 5, 6, 60, 70]);
    assert_eq!(seen.mepc, 0x300);
    assert_eq!(seen.mtval, 0x44);
    hardware_hart.apply(ExposeToHypervisor::SbiResult(SbiResult { a0: 9, a1: 8 }));
    let seen = *hardware_hart.non_confidential_hart_state();
    assert_eq!([seen.a0, seen.a1, seen.a2, seen.mepc], [9, 8, 3, 0x304]);
    hardware_hart.apply(ExposeToHypervisor::Resume);
    assert_eq!(*hardware_hart.non_confidential_hart_state(), seen);
    hardware_hart.apply(ExposeToHypervisor::Trap { mcause: 21, mtval: 1, htval: 2, mtinst: 3 });
    let trapped = *hardware_hart.non_confidential_hart_state();
    assert_eq!([trapped.mcause, trapped.mtval, trapped.htval, trapped.mtinst], [21, 1, 2, 3]);
    assert_eq!([trapped.a0, trapped.a1, trapped.mepc], [9, 8, 0x304]);
    assert_eq!(SbiRequest::from_hart_state(&seen).extension_id, 70);
    assert_eq!(
        SbiRequest::kvm_ace_register(ConfidentialVmId::new(3), 0),
        SbiRequest { extension_id: 0x509999, function_id: 1, a0: 3, a1: 0, a2: 0, a3: 0, a4: 0, a5: 0 }
    );
}

#[test]
fn pending_request_slot_holds_one_request() {
    let mut hart = hart();
    assert_eq!(hart.take_request(), None);
    assert_eq!(hart.set_pending_request(PendingRequest::SbiRequest), Ok(()));
    assert_eq!(hart.set_pending_request(PendingRequest::SbiHsmHartStart), Err(Error::PendingRequest));
    assert_eq!(hart.take_request(), Some(PendingRequest::SbiRequest));
    assert_eq!(hart.take_request(), None);
    assert_eq!(hart.set_pending_request(PendingRequest::SbiHsmHartStart), Ok(()));
    assert_eq!(hart.pending_request(), Some(PendingRequest::SbiHsmHartStart));
}

#[test]
fn control_and_status_registers_are_stored_and_loaded() {
    let mut hart = hart();
    let mut hardware = HartArchitecturalState::empty();
    hardware.a0 = 0xdead;
    hardware.mepc = 0x10;
    hardware.mcause = 0x11;
    hardware.mtval = 0x12;
    hardware.htval = 0x13;
    hardware.mtinst = 0x14;
    hardware.hvip = 0x15;
    hardware.hgatp = 0x16;
    hart.store_volatile_control_status_registers_in_main_memory(&hardware);
    let loaded = hart.load_volatile_control_status_registers_from_main_memory();
    assert_eq!(loaded.a0, 1);
    assert_eq!(
        [loaded.mepc, loaded.mcause, loaded.mtval, loaded.htval, loaded.mtinst, loaded.hvip, loaded.hgatp],
        [0x10, 0x11, 0x12, 0x13, 0x14, 0x15, 0x16]
    );
}

#[test]
fn shared_page_is_mapped_into_its_vm() {
    let mut control_data = ControlData::new();
    let layout = MemoryLayout::new(0x8000_0000, 0x9000_0000);
    let mut state = HartArchitecturalState::empty();
    state.hgatp = 0x8_0000;
    let id = security_monitor::convert_to_confidential_vm::create_confidential_vm(
        security_monitor::transformations::ConvertToConfidentialVm::new(&state),
        &mut control_data,
        &layout,
    )
    .unwrap();
    let page = SharedPage::new(0x8000_1000, SharePageRequest::new(0x2000, PageSize::Size4KiB), &layout).unwrap();
    assert_eq!(control_data.map_shared_page(id, page), Ok(()));
    let vm = control_data.confidential_vm(id).unwrap();
    assert_eq!(vm.memory_protector().number_of_shared_pages(), 1);
    assert_eq!(vm.memory_protector().hgatp(), 0x8_0000);
    assert_eq!(vm.number_of_confidential_harts(), 2);
    assert_eq!(vm.number_of_inter_hart_requests(0), Some(0));
    assert!(!vm.confidential_hart(0).unwrap().is_dummy());
    let page = SharedPage::new(0x8000_1000, SharePageRequest::new(0x2000, PageSize::Size4KiB), &layout).unwrap();
    assert_eq!(control_data.map_shared_page(ConfidentialVmId::new(5), page), Err(Error::InvalidConfidentialVmId));
}

#[test]
fn trapped_instructions_are_decoded() {
    assert_eq!(instruction_length(0b00), 2);
    assert_eq!(instruction_length(0b01), 2);
    assert_eq!(instruction_length(0b10), 4);
    assert_eq!(instruction_length(0b11), 4);
    assert_eq!(instruction_length(0x0000_3503), 4);
    assert_eq!(destination_register(0x0000_3503), 10);
    assert_eq!(destination_register(0x0000_3883), 17);
    assert_eq!(destination_register(usize::MAX), 31);
    assert_eq!(destination_register(0), 0);
    assert_eq!(GeneralPurposeRegister::from_number(9), None);
    assert_eq!(GeneralPurposeRegister::from_number(10), Some(GeneralPurposeRegister::A0));
    assert_eq!(GeneralPurposeRegister::from_number(13), Some(GeneralPurposeRegister::A3));
    assert_eq!(GeneralPurposeRegister::from_number(17), Some(GeneralPurposeRegister::A7));
    assert_eq!(GeneralPurposeRegister::from_number(18), None);
}

#[test]
fn page_faults_go_to_the_hypervisor_and_come_back() {
    let load = GuestLoadPageFaultRequest { mtval: 1, htval: 2, mtinst: 0x0000_3583 };
    assert_eq!(
        load.into_expose_to_hypervisor(),
        ExposeToHypervisor::Trap { mcause: 21, mtval: 1, htval: 2, mtinst: 0x0000_3583 }
    );
    assert_eq!(
        GuestLoadPageFaultResult { request: load, value: 0x77 }.into_expose_to_confidential_vm(),
        ExposeToConfidentialVm::GuestLoadPageFaultResult {
            result_gpr: GeneralPurposeRegister::A1,
            value: 0x77,
            instruction_length: 4
        }
    );
    let compressed_to_other_register = GuestLoadPageFaultRequest { mtval: 1, htval: 2, mtinst: 0x0000_0401 };
    assert_eq!(
        GuestLoadPageFaultResult { request: compressed_to_other_register, value: 0x77 }
            .into_expose_to_confidential_vm(),
        ExposeToConfidentialVm::VirtualInstructionResult { instruction_length: 2 }
    );
    let store = GuestStorePageFaultRequest { mtval: 3, htval: 4, mtinst: 0x0000_b023 };
    assert_eq!(
        store.into_expose_to_hypervisor(),
        ExposeToHypervisor::Trap { mcause: 23, mtval: 3, htval: 4, mtinst: 0x0000_b023 }
    );
    assert_eq!(
        store.into_expose_to_confidential_vm(),
        ExposeToConfidentialVm::GuestStorePageFaultResult { instruction_length: 4 }
    );
    assert_eq!(
        VirtualInstructionRequest { instruction: 0x1050_0073 }.into_expose_to_confidential_vm(),
        ExposeToConfidentialVm::VirtualInstructionResult { instruction_length: 4 }
    );
}

#[test]
fn calls_for_the_hypervisor() {
    assert_eq!(
        SbiRequest::kvm_ace_share_page(SharePageRequest::new(0x9000, PageSize::Size2MiB)),
        SbiRequest { extension_id: 0x509999, function_id: 2, a0: 0x9000, a1: 0x20_0000, a2: 0, a3: 0, a4: 0, a5: 0 }
    );
    assert_eq!(
        SbiRequest::kvm_ace_stop_sharing_page(UnsharePageRequest { address: 0x9000 }),
        SbiRequest { extension_id: 0x509999, function_id: 3, a0: 0x9000, a1: 0, a2: 0, a3: 0, a4: 0, a5: 0 }
    );
    assert_eq!(
        SbiRequest::sbi_hsm_hart_start(SbiHsmHartStart { confidential_hart_id: 1, start_address: 2, opaque: 3 }),
        SbiRequest { extension_id: 0x48534D, function_id: 0, a0: 1, a1: 2, a2: 3, a3: 0, a4: 0, a5: 0 }
    );
}

#[test]
fn supported_extensions_and_status_numbers() {
    for extension_id in [0x10, 0x735049, 0x52464E43, 0x48534D, 0x53525354, 0x510000] {
        assert!(SbiExtension::is_supported(extension_id));
    }
    assert!(!SbiExtension::is_supported(0));
    assert!(!SbiExtension::is_supported(0x509999));
    assert_eq!(HartLifecycleState::Started.sbi_status(), 0);
    assert_eq!(HartLifecycleState::Stopped.sbi_status(), 1);
    assert_eq!(HartLifecycleState::Suspended.sbi_status(), 4);
    assert_eq!(HartLifecycleState::Shutdown.sbi_status(), 1);
}
