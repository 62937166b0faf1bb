//! The requests that cross the boundary between the two worlds and the
//! transformations that describe every change of a hart's state.
//!
//! Handlers never change a hart directly. They return a transformation, and
//! the flow that leaves the monitor applies it.

use vstd::prelude::*;
use crate::architecture::{
    spec_destination_register, spec_instruction_length, GeneralPurposeRegister,
    HartArchitecturalState, CAUSE_GUEST_LOAD_PAGE_FAULT, CAUSE_GUEST_STORE_PAGE_FAULT,
    HSM_EXTENSION_ID,
};
use crate::confidential_vm_id::ConfidentialVmId;
use crate::error::Error;
use crate::shared_page::SharePageRequest;

verus! {

/// Identifier of the extension through which the monitor calls the hypervisor.
pub const KVM_ACE_EXTENSION_ID: usize = 0x509999;

/// Function of that extension that registers a new confidential virtual machine.
pub const KVM_ACE_REGISTER_FUNCTION_ID: usize = 1;

/// Function of that extension that asks for a page to share.
pub const KVM_ACE_SHARE_PAGE_FUNCTION_ID: usize = 2;

/// Function of that extension that gives a shared page back.
pub const KVM_ACE_STOP_SHARING_PAGE_FUNCTION_ID: usize = 3;

/// Code with which a call reports success.
pub const SBI_SUCCESS: usize = 0;

/// A call, with its extension, its function and its arguments.
#[derive(Clone, Copy, Debug, PartialEq, Eq, Structural)]
pub struct SbiRequest {
    pub extension_id: usize,
    pub function_id: usize,
    pub a0: usize,
    pub a1: usize,
    pub a2: usize,
    pub a3: usize,
    pub a4: usize,
    pub a5: usize,
}

impl SbiRequest {
    /// The call that a hart with the registers `state` makes.
    pub open spec fn spec_from_hart_state(state: HartArchitecturalState) -> SbiRequest {
        SbiRequest {
            extension_id: state.a7,
            function_id: state.a6,
            a0: state.a0,
            a1: state.a1,
            a2: state.a2,
            a3: state.a3,
            a4: state.a4,
            a5: state.a5,
        }
    }

    /// Reads a call from the registers of the hart that makes it.
    pub fn from_hart_state(state: &HartArchitecturalState) -> (request: SbiRequest)
        ensures
            request == Self::spec_from_hart_state(*state),
    {
        SbiRequest {
            extension_id: state.a7,
            function_id: state.a6,
            a0: state.a0,
            a1: state.a1,
            a2: state.a2,
            a3: state.a3,
            a4: state.a4,
            a5: state.a5,
        }
    }

    /// The call that tells the hypervisor of the new confidential virtual
    /// machine `confidential_vm_id`, whose hart `boot_hart_id` runs first.
    pub open spec fn spec_kvm_ace_register(
        confidential_vm_id: ConfidentialVmId,
        boot_hart_id: usize,
    ) -> SbiRequest {
        SbiRequest {
            extension_id: KVM_ACE_EXTENSION_ID,
            function_id: KVM_ACE_REGISTER_FUNCTION_ID,
            a0: confidential_vm_id.spec_usize(),
            a1: boot_hart_id,
            a2: 0,
            a3: 0,
            a4: 0,
            a5: 0,
        }
    }

    /// The call that asks the hypervisor for a page to share at the address
    /// and of the size that `request` names.
    pub open spec fn spec_kvm_ace_share_page(request: SharePageRequest) -> SbiRequest {
        SbiRequest {
            extension_id: KVM_ACE_EXTENSION_ID,
            function_id: KVM_ACE_SHARE_PAGE_FUNCTION_ID,
            a0: request.confidential_vm_virtual_address.address,
            a1: request.page_size.spec_in_bytes(),
            a2: 0,
            a3: 0,
            a4: 0,
            a5: 0,
        }
    }

    /// Builds the call that asks the hypervisor for a page to share.
    pub fn kvm_ace_share_page(request: SharePageRequest) -> (call: SbiRequest)
        ensures
            call == Self::spec_kvm_ace_share_page(request),
    {
        SbiRequest {
            extension_id: KVM_ACE_EXTENSION_ID,
            function_id: KVM_ACE_SHARE_PAGE_FUNCTION_ID,
            a0: request.confidential_vm_virtual_address.address,
            a1: request.page_size.in_bytes(),
            a2: 0,
            a3: 0,
            a4: 0,
            a5: 0,
        }
    }

    /// The call that tells the hypervisor that the page at the address of
    /// `request` is shared no longer.
    pub open spec fn spec_kvm_ace_stop_sharing_page(request: UnsharePageRequest) -> SbiRequest {
        SbiRequest {
            extension_id: KVM_ACE_EXTENSION_ID,
            function_id: KVM_ACE_STOP_SHARING_PAGE_FUNCTION_ID,
            a0: request.address,
            a1: 0,
            a2: 0,
            a3: 0,
            a4: 0,
            a5: 0,
        }
    }

    /// Builds the call that tells the hypervisor that a page is shared no
    /// longer.
    pub fn kvm_ace_stop_sharing_page(request: UnsharePageRequest) -> (call: SbiRequest)
        ensures
            call == Self::spec_kvm_ace_stop_sharing_page(request),
    {
        SbiRequest {
            extension_id: KVM_ACE_EXTENSION_ID,
            function_id: KVM_ACE_STOP_SHARING_PAGE_FUNCTION_ID,
            a0: request.address,
            a1: 0,
            a2: 0,
            a3: 0,
            a4: 0,
            a5: 0,
        }
    }

    /// The call that asks the hypervisor to schedule the hart that `request`
    /// starts.
    pub open spec fn spec_sbi_hsm_hart_start(request: SbiHsmHartStart) -> SbiRequest {
        SbiRequest {
            extension_id: HSM_EXTENSION_ID,
            function_id: 0,
            a0: request.confidential_hart_id,
            a1: request.start_address,
            a2: request.opaque,
            a3: 0,
            a4: 0,
            a5: 0,
        }
    }

    /// Builds the call that asks the hypervisor to schedule a hart.
    pub fn sbi_hsm_hart_start(request: SbiHsmHartStart) -> (call: SbiRequest)
        ensures
            call == Self::spec_sbi_hsm_hart_start(request),
    {
        SbiRequest {
            extension_id: HSM_EXTENSION_ID,
            function_id: 0,
            a0: request.confidential_hart_id,
            a1: request.start_address,
            a2: request.opaque,
            a3: 0,
            a4: 0,
            a5: 0,
        }
    }

    /// Builds the call that tells the hypervisor of a new confidential virtual
    /// machine.
    pub fn kvm_ace_register(confidential_vm_id: ConfidentialVmId, boot_hart_id: usize) -> (request:
        SbiRequest)
        ensures
            request == Self::spec_kvm_ace_register(confidential_vm_id, boot_hart_id),
    {
        SbiRequest {
            extension_id: KVM_ACE_EXTENSION_ID,
            function_id: KVM_ACE_REGISTER_FUNCTION_ID,
            a0: confidential_vm_id.usize(),
            a1: boot_hart_id,
            a2: 0,
            a3: 0,
            a4: 0,
            a5: 0,
        }
    }
}

/// The result of a call: a code in `a0` and a value in `a1`.
#[derive(Clone, Copy, Debug, PartialEq, Eq, Structural)]
pub struct SbiResult {
    pub a0: usize,
    pub a1: usize,
}

impl SbiResult {
    /// The result of a call that succeeded with `value`.
    pub open spec fn spec_success(value: usize) -> SbiResult {
        SbiResult { a0: SBI_SUCCESS, a1: value }
    }

    /// The result of a call that succeeded with `value`.
    pub fn success(value: usize) -> (result: SbiResult)
        ensures
            result == Self::spec_success(value),
    {
        SbiResult { a0: SBI_SUCCESS, a1: value }
    }

    /// The result of a call that failed with `code`.
    pub open spec fn spec_failure(code: usize) -> SbiResult {
        SbiResult { a0: code, a1: 0 }
    }

    /// The result of a call that failed with `code`.
    pub fn failure(code: usize) -> (result: SbiResult)
        ensures
            result == Self::spec_failure(code),
    {
        SbiResult { a0: code, a1: 0 }
    }
}

/// A request to stop sharing the page at `address` of the virtual machine.
#[derive(Clone, Copy, Debug, PartialEq, Eq, Structural)]
pub struct UnsharePageRequest {
    pub address: usize,
}

/// What the hypervisor answers to a request to share a page: a code, and the
/// address of the page that it offers.
#[derive(Clone, Copy, Debug, PartialEq, Eq, Structural)]
pub struct SharePageResult {
    pub response_code: usize,
    pub hypervisor_page_address: usize,
}

/// A request to start the hart `confidential_hart_id` at `start_address`.
#[derive(Clone, Copy, Debug, PartialEq, Eq, Structural)]
pub struct SbiHsmHartStart {
    pub confidential_hart_id: usize,
    pub start_address: usize,
    pub opaque: usize,
}

/// The parameters with which a hart asks to be suspended.
#[derive(Clone, Copy, Debug, PartialEq, Eq, Structural)]
pub struct SbiHsmHartSuspend {
    pub suspend_type: usize,
    pub resume_address: usize,
    pub opaque: usize,
}

/// A request for the lifecycle state of the hart `confidential_hart_id`.
#[derive(Clone, Copy, Debug, PartialEq, Eq, Structural)]
pub struct SbiHsmHartStatus {
    pub confidential_hart_id: usize,
}

/// A load of a confidential hart that faulted in the second stage of the
/// address translation.
#[derive(Clone, Copy, Debug, PartialEq, Eq, Structural)]
pub struct GuestLoadPageFaultRequest {
    pub mtval: usize,
    pub htval: usize,
    pub mtinst: usize,
}

/// A store of a confidential hart that faulted in the second stage of the
/// address translation.
#[derive(Clone, Copy, Debug, PartialEq, Eq, Structural)]
pub struct GuestStorePageFaultRequest {
    pub mtval: usize,
    pub htval: usize,
    pub mtinst: usize,
}

/// What the hypervisor answers to a load that it emulated.
#[derive(Clone, Copy, Debug, PartialEq, Eq, Structural)]
pub struct GuestLoadPageFaultResult {
    /// The load that was emulated.
    pub request: GuestLoadPageFaultRequest,
    /// The value that the load yields.
    pub value: usize,
}

impl GuestLoadPageFaultRequest {
    /// How the hypervisor learns of the load.
    pub open spec fn spec_into_expose_to_hypervisor(self) -> ExposeToHypervisor {
        ExposeToHypervisor::Trap {
            mcause: CAUSE_GUEST_LOAD_PAGE_FAULT,
            mtval: self.mtval,
            htval: self.htval,
            mtinst: self.mtinst,
        }
    }

    /// Turns the load into the trap that the hypervisor serves.
    pub fn into_expose_to_hypervisor(self) -> (transformation: ExposeToHypervisor)
        ensures
            transformation == self.spec_into_expose_to_hypervisor(),
    {
        ExposeToHypervisor::Trap {
            mcause: CAUSE_GUEST_LOAD_PAGE_FAULT,
            mtval: self.mtval,
            htval: self.htval,
            mtinst: self.mtinst,
        }
    }
}

impl GuestStorePageFaultRequest {
    /// How the hypervisor learns of the store.
    pub open spec fn spec_into_expose_to_hypervisor(self) -> ExposeToHypervisor {
        ExposeToHypervisor::Trap {
            mcause: CAUSE_GUEST_STORE_PAGE_FAULT,
            mtval: self.mtval,
            htval: self.htval,
            mtinst: self.mtinst,
        }
    }

    /// Turns the store into the trap that the hypervisor serves.
    pub fn into_expose_to_hypervisor(self) -> (transformation: ExposeToHypervisor)
        ensures
            transformation == self.spec_into_expose_to_hypervisor(),
    {
        ExposeToHypervisor::Trap {
            mcause: CAUSE_GUEST_STORE_PAGE_FAULT,
            mtval: self.mtval,
            htval: self.htval,
            mtinst: self.mtinst,
        }
    }

    /// What the hart finds once the hypervisor has emulated the store: it goes
    /// on behind the instruction that stored.
    pub open spec fn spec_into_expose_to_confidential_vm(self) -> ExposeToConfidentialVm {
        ExposeToConfidentialVm::GuestStorePageFaultResult {
            instruction_length: spec_instruction_length(self.mtinst),
        }
    }

    /// Turns the emulated store into the change of the hart's state.
    pub fn into_expose_to_confidential_vm(self) -> (transformation: ExposeToConfidentialVm)
        ensures
            transformation == self.spec_into_expose_to_confidential_vm(),
    {
        ExposeToConfidentialVm::GuestStorePageFaultResult {
            instruction_length: crate::architecture::instruction_length(self.mtinst),
        }
    }
}

impl GuestLoadPageFaultResult {
    /// What the hart finds once the hypervisor has emulated the load: the
    /// value in the register that the load names, where that is an argument
    /// register, and in any case it goes on behind the instruction that
    /// loaded.
    pub open spec fn spec_into_expose_to_confidential_vm(self) -> ExposeToConfidentialVm {
        let instruction = self.request.mtinst;
        match GeneralPurposeRegister::spec_from_number(spec_destination_register(instruction)) {
            Some(result_gpr) => ExposeToConfidentialVm::GuestLoadPageFaultResult {
                result_gpr,
                value: self.value,
                instruction_length: spec_instruction_length(instruction),
            },
            None => ExposeToConfidentialVm::VirtualInstructionResult {
                instruction_length: spec_instruction_length(instruction),
            },
        }
    }

    /// Turns the emulated load into the change of the hart's state.
    pub fn into_expose_to_confidential_vm(self) -> (transformation: ExposeToConfidentialVm)
        ensures
            transformation == self.spec_into_expose_to_confidential_vm(),
    {
        let instruction = self.request.mtinst;
        let instruction_length = crate::architecture::instruction_length(instruction);
        match GeneralPurposeRegister::from_number(
            crate::architecture::destination_register(instruction),
        ) {
            Some(result_gpr) => ExposeToConfidentialVm::GuestLoadPageFaultResult {
                result_gpr,
                value: self.value,
                instruction_length,
            },
            None => ExposeToConfidentialVm::VirtualInstructionResult { instruction_length },
        }
    }
}

/// An instruction that a confidential hart may not execute itself.
#[derive(Clone, Copy, Debug, PartialEq, Eq, Structural)]
pub struct VirtualInstructionRequest {
    pub instruction: usize,
}

impl VirtualInstructionRequest {
    /// What the hart finds once the monitor has dealt with the instruction: it
    /// goes on behind it.
    pub open spec fn spec_into_expose_to_confidential_vm(self) -> ExposeToConfidentialVm {
        ExposeToConfidentialVm::VirtualInstructionResult {
            instruction_length: spec_instruction_length(self.instruction),
        }
    }

    /// Turns the instruction into the change of the hart's state.
    pub fn into_expose_to_confidential_vm(self) -> (transformation: ExposeToConfidentialVm)
        ensures
            transformation == self.spec_into_expose_to_confidential_vm(),
    {
        ExposeToConfidentialVm::VirtualInstructionResult {
            instruction_length: crate::architecture::instruction_length(self.instruction),
        }
    }
}

/// The harts that a request is for, as a mask over the hart identifiers from
/// `hart_mask_base` on. A base of `usize::MAX` selects every hart.
#[derive(Clone, Copy, Debug, PartialEq, Eq, Structural)]
pub struct HartSelection {
    pub hart_mask: usize,
    pub hart_mask_base: usize,
}

impl HartSelection {
    /// Whether the selection holds the hart `hart_id`.
    pub open spec fn spec_is_hart_selected(self, hart_id: usize) -> bool {
        if self.hart_mask_base == usize::MAX {
            true
        } else if hart_id < self.hart_mask_base {
            false
        } else if hart_id - self.hart_mask_base >= usize::BITS {
            false
        } else {
            (self.hart_mask >> ((hart_id - self.hart_mask_base) as usize)) & 1 == 1
        }
    }

    /// Tells whether the selection holds the hart `hart_id`.
    pub fn is_hart_selected(&self, hart_id: usize) -> (selected: bool)
        ensures
            selected == self.spec_is_hart_selected(hart_id),
    {
        if self.hart_mask_base == usize::MAX {
            true
        } else if hart_id < self.hart_mask_base {
            false
        } else {
            let shift: usize = hart_id - self.hart_mask_base;
            if shift >= usize::BITS as usize {
                false
            } else {
                (self.hart_mask >> shift) & 1 == 1
            }
        }
    }
}

/// A message that one confidential hart queues for other harts of its virtual
/// machine. The target acts on it when it next resumes.
#[derive(Clone, Copy, Debug, PartialEq, Eq, Structural)]
pub enum InterHartRequest {
    /// An inter-processor interrupt.
    SbiIpi(HartSelection),
    /// A fence of the instruction stream.
    SbiRemoteFenceI(HartSelection),
    /// A fence of the address translation, for a range of addresses.
    SbiRemoteSfenceVma { selection: HartSelection, start_address: usize, size: usize },
    /// A fence of the address translation, for a range of addresses in one
    /// address space.
    SbiRemoteSfenceVmaAsid {
        selection: HartSelection,
        start_address: usize,
        size: usize,
        asid: usize,
    },
    /// The command to start one hart.
    SbiHsmHartStart(SbiHsmHartStart),
}

impl InterHartRequest {
    /// Whether the request is for the hart `hart_id`.
    pub open spec fn spec_is_hart_selected(self, hart_id: usize) -> bool {
        match self {
            InterHartRequest::SbiIpi(selection) => selection.spec_is_hart_selected(hart_id),
            InterHartRequest::SbiRemoteFenceI(selection) => selection.spec_is_hart_selected(
                hart_id,
            ),
            InterHartRequest::SbiRemoteSfenceVma { selection, .. } => selection.spec_is_hart_selected(
                hart_id,
            ),
            InterHartRequest::SbiRemoteSfenceVmaAsid {
                selection,
                ..
            } => selection.spec_is_hart_selected(hart_id),
            InterHartRequest::SbiHsmHartStart(start) => start.confidential_hart_id == hart_id,
        }
    }

    /// Tells whether the request is for the hart `hart_id`.
    pub fn is_hart_selected(&self, hart_id: usize) -> (selected: bool)
        ensures
            selected == self.spec_is_hart_selected(hart_id),
    {
        match self {
            InterHartRequest::SbiIpi(selection) => selection.is_hart_selected(hart_id),
            InterHartRequest::SbiRemoteFenceI(selection) => selection.is_hart_selected(hart_id),
            InterHartRequest::SbiRemoteSfenceVma { selection, .. } => selection.is_hart_selected(
                hart_id,
            ),
            InterHartRequest::SbiRemoteSfenceVmaAsid { selection, .. } => selection.is_hart_selected(
                hart_id,
            ),
            InterHartRequest::SbiHsmHartStart(start) => start.confidential_hart_id == hart_id,
        }
    }

    /// The change of the target's state that the request stands for.
    pub open spec fn spec_into_expose_to_confidential_vm(self) -> ExposeToConfidentialVm {
        match self {
            InterHartRequest::SbiIpi(_) => ExposeToConfidentialVm::SbiIpi,
            InterHartRequest::SbiRemoteFenceI(_) => ExposeToConfidentialVm::SbiRemoteFenceI,
            InterHartRequest::SbiRemoteSfenceVma {
                start_address,
                size,
                ..
            } => ExposeToConfidentialVm::SbiRemoteSfenceVma { start_address, size },
            InterHartRequest::SbiRemoteSfenceVmaAsid {
                start_address,
                size,
                asid,
                ..
            } => ExposeToConfidentialVm::SbiRemoteSfenceVmaAsid { start_address, size, asid },
            InterHartRequest::SbiHsmHartStart(start) => ExposeToConfidentialVm::StartHart {
                start_address: start.start_address,
                opaque: start.opaque,
            },
        }
    }

    /// Turns the request into the change of state that the target applies.
    pub fn into_expose_to_confidential_vm(self) -> (transformation: ExposeToConfidentialVm)
        ensures
            transformation == self.spec_into_expose_to_confidential_vm(),
    {
        match self {
            InterHartRequest::SbiIpi(_) => ExposeToConfidentialVm::SbiIpi,
            InterHartRequest::SbiRemoteFenceI(_) => ExposeToConfidentialVm::SbiRemoteFenceI,
            InterHartRequest::SbiRemoteSfenceVma {
                start_address,
                size,
                ..
            } => ExposeToConfidentialVm::SbiRemoteSfenceVma { start_address, size },
            InterHartRequest::SbiRemoteSfenceVmaAsid {
                start_address,
                size,
                asid,
                ..
            } => ExposeToConfidentialVm::SbiRemoteSfenceVmaAsid { start_address, size, asid },
            InterHartRequest::SbiHsmHartStart(start) => ExposeToConfidentialVm::StartHart {
                start_address: start.start_address,
                opaque: start.opaque,
            },
        }
    }
}

/// The request whose result a confidential hart waits for while it does not
/// run.
#[derive(Clone, Copy, Debug, PartialEq, Eq, Structural)]
pub enum PendingRequest {
    /// A call that the hypervisor serves.
    SbiRequest,
    GuestLoadPageFault(GuestLoadPageFaultRequest),
    GuestStorePageFault(GuestStorePageFaultRequest),
    SharePage(SharePageRequest),
    /// The start of another hart, which the hypervisor must schedule.
    SbiHsmHartStart,
    /// The first run of a hart that another hart started.
    SbiHsmHartStartPending,
}

/// A change of the state of a confidential hart, applied when the monitor
/// hands control back to it.
#[derive(Clone, Copy, Debug, PartialEq, Eq, Structural)]
pub enum ExposeToConfidentialVm {
    /// The result of a call: it lands in `a0` and `a1`, and the hart goes on
    /// behind the call.
    SbiResult(SbiResult),
    /// The value of an emulated load: it lands in `result_gpr`, and the hart
    /// goes on behind the load.
    GuestLoadPageFaultResult {
        result_gpr: GeneralPurposeRegister,
        value: usize,
        instruction_length: usize,
    },
    /// An emulated store is done: the hart goes on behind it.
    GuestStorePageFaultResult { instruction_length: usize },
    /// An emulated instruction is done: the hart goes on behind it.
    VirtualInstructionResult { instruction_length: usize },
    /// Nothing changes.
    Resume,
    /// The hypervisor scheduled the hart that this hart started: the call
    /// succeeded.
    SbiHsmHartStart,
    /// The hart runs for the first time after another hart started it.
    SbiHsmHartStartPending,
    /// A software interrupt becomes pending.
    SbiIpi,
    /// A fence of the instruction stream, which leaves the saved state alone.
    SbiRemoteFenceI,
    /// A fence of the address translation, which leaves the saved state alone.
    SbiRemoteSfenceVma { start_address: usize, size: usize },
    /// A fence of the address translation, which leaves the saved state alone.
    SbiRemoteSfenceVmaAsid { start_address: usize, size: usize, asid: usize },
    /// A suspended hart starts again at `start_address`, with its own
    /// identifier in `a0` and `opaque` in `a1`.
    StartHart { start_address: usize, opaque: usize },
}

/// A change of the state that the hypervisor sees, applied when the monitor
/// hands control to the hypervisor.
#[derive(Clone, Copy, Debug, PartialEq, Eq, Structural)]
pub enum ExposeToHypervisor {
    /// A call for the hypervisor to serve.
    SbiRequest(SbiRequest),
    /// The result of a call that the hypervisor made.
    SbiResult(SbiResult),
    /// A trap of the confidential hart that the hypervisor has to serve: it
    /// finds the cause and what the hardware reported with it.
    Trap { mcause: usize, mtval: usize, htval: usize, mtinst: usize },
    /// Nothing changes.
    Resume,
}

/// The request of the hypervisor to turn a virtual machine into a confidential
/// one. It carries the state with which the boot hart of the machine starts.
#[derive(Clone, Copy, Debug, PartialEq, Eq, Structural)]
pub struct ConvertToConfidentialVm {
    pub hart_state: HartArchitecturalState,
}

impl ConvertToConfidentialVm {
    /// Reads the request from the registers of the hypervisor's hart.
    pub fn new(from_state: &HartArchitecturalState) -> (request: ConvertToConfidentialVm)
        ensures
            request.hart_state == *from_state,
    {
        ConvertToConfidentialVm { hart_state: *from_state }
    }

    /// The state with which the boot hart starts.
    pub fn into(self) -> (hart_state: HartArchitecturalState)
        ensures
            hart_state == self.hart_state,
    {
        self.hart_state
    }
}

impl Error {
    /// How the error reaches a confidential hart: as the result of its call.
    pub open spec fn spec_into_confidential_transformation(self) -> ExposeToConfidentialVm {
        ExposeToConfidentialVm::SbiResult(SbiResult::spec_failure(self.spec_code()))
    }

    /// Turns the error into the result of the call that a confidential hart
    /// made.
    pub fn into_confidential_transformation(self) -> (transformation: ExposeToConfidentialVm)
        ensures
            transformation == self.spec_into_confidential_transformation(),
    {
        ExposeToConfidentialVm::SbiResult(SbiResult::failure(self.code()))
    }

    /// How the error reaches the hypervisor: as the result of its call.
    pub open spec fn spec_into_non_confidential_transformation(self) -> ExposeToHypervisor {
        ExposeToHypervisor::SbiResult(SbiResult::spec_failure(self.spec_code()))
    }

    /// Turns the error into the result of the call that the hypervisor made.
    pub fn into_non_confidential_transformation(self) -> (transformation: ExposeToHypervisor)
        ensures
            transformation == self.spec_into_non_confidential_transformation(),
    {
        ExposeToHypervisor::SbiResult(SbiResult::failure(self.code()))
    }
}

} // verus!
