//! The state of one virtual processor core of a confidential virtual machine.

use vstd::prelude::*;
use crate::architecture::{
    HartArchitecturalState, HartLifecycleState, LifecycleTransition, TrapReason,
    ECALL_INSTRUCTION_LENGTH, VIRTUAL_SUPERVISOR_SOFTWARE_INTERRUPT,
};
use crate::confidential_vm_id::ConfidentialVmId;
use crate::error::Error;
use crate::shared_page::{PageSize, SharePageRequest};
use crate::transformations::{
    ExposeToConfidentialVm, GuestLoadPageFaultRequest, GuestStorePageFaultRequest, HartSelection,
    InterHartRequest, PendingRequest, SbiHsmHartStart, SbiHsmHartStatus, SbiHsmHartSuspend,
    SbiRequest, SbiResult, UnsharePageRequest, VirtualInstructionRequest, SBI_SUCCESS,
};

verus! {

/// What a confidential hart holds, as contracts speak of it.
pub struct ConfidentialHartView {
    /// For a hart of a virtual machine, its identifier within the machine. For
    /// a dummy, the identifier of the hardware hart that it stands in for.
    pub id: usize,
    /// The virtual machine that the hart belongs to. A dummy has none.
    pub confidential_vm_id: Option<ConfidentialVmId>,
    pub lifecycle_state: HartLifecycleState,
    /// The saved registers.
    pub state: HartArchitecturalState,
    /// The request whose result the hart waits for.
    pub pending_request: Option<PendingRequest>,
    /// The parameters with which the hart was suspended.
    pub suspend_parameters: Option<SbiHsmHartSuspend>,
}

impl ConfidentialHartView {
    /// A dummy stands in where no confidential hart is.
    pub open spec fn is_dummy(self) -> bool {
        self.confidential_vm_id is None
    }

    /// The hart after `transformation` was applied to it.
    pub open spec fn apply(self, transformation: ExposeToConfidentialVm) -> ConfidentialHartView {
        match transformation {
            ExposeToConfidentialVm::SbiResult(result) => ConfidentialHartView {
                state: HartArchitecturalState {
                    a0: result.a0,
                    a1: result.a1,
                    mepc: self.state.mepc.wrapping_add(ECALL_INSTRUCTION_LENGTH),
                    ..self.state
                },
                ..self
            },
            ExposeToConfidentialVm::GuestLoadPageFaultResult {
                result_gpr,
                value,
                instruction_length,
            } => ConfidentialHartView {
                state: HartArchitecturalState {
                    mepc: self.state.mepc.wrapping_add(instruction_length),
                    ..self.state.spec_with_gpr(result_gpr, value)
                },
                ..self
            },
            ExposeToConfidentialVm::GuestStorePageFaultResult {
                instruction_length,
            } => ConfidentialHartView {
                state: HartArchitecturalState {
                    mepc: self.state.mepc.wrapping_add(instruction_length),
                    ..self.state
                },
                ..self
            },
            ExposeToConfidentialVm::VirtualInstructionResult {
                instruction_length,
            } => ConfidentialHartView {
                state: HartArchitecturalState {
                    mepc: self.state.mepc.wrapping_add(instruction_length),
                    ..self.state
                },
                ..self
            },
            ExposeToConfidentialVm::Resume => self,
            ExposeToConfidentialVm::SbiHsmHartStart => ConfidentialHartView {
                state: HartArchitecturalState {
                    a0: SBI_SUCCESS,
                    a1: 0,
                    mepc: self.state.mepc.wrapping_add(ECALL_INSTRUCTION_LENGTH),
                    ..self.state
                },
                ..self
            },
            ExposeToConfidentialVm::SbiHsmHartStartPending => self,
            ExposeToConfidentialVm::SbiIpi => ConfidentialHartView {
                state: HartArchitecturalState {
                    hvip: self.state.hvip | VIRTUAL_SUPERVISOR_SOFTWARE_INTERRUPT,
                    ..self.state
                },
                ..self
            },
            ExposeToConfidentialVm::SbiRemoteFenceI => self,
            ExposeToConfidentialVm::SbiRemoteSfenceVma { .. } => self,
            ExposeToConfidentialVm::SbiRemoteSfenceVmaAsid { .. } => self,
            ExposeToConfidentialVm::StartHart { start_address, opaque } => {
                if self.lifecycle_state == HartLifecycleState::Suspended {
                    ConfidentialHartView {
                        lifecycle_state: HartLifecycleState::Started,
                        suspend_parameters: None,
                        state: HartArchitecturalState {
                            a0: self.id,
                            a1: opaque,
                            mepc: start_address,
                            ..self.state
                        },
                        ..self
                    }
                } else {
                    self
                }
            },
        }
    }

    /// The hart after the requests of `requests` were applied to it, the first
    /// of them first.
    pub open spec fn apply_requests(self, requests: Seq<InterHartRequest>) -> ConfidentialHartView
        decreases requests.len(),
    {
        if requests.len() == 0 {
            self
        } else {
            self.apply(requests[0].spec_into_expose_to_confidential_vm()).apply_requests(
                requests.skip(1),
            )
        }
    }

    /// The hart after the lifecycle transition `transition`, where the table
    /// of legal transitions allows it.
    pub open spec fn transition(self, transition: LifecycleTransition) -> Option<
        ConfidentialHartView,
    > {
        match self.lifecycle_state.spec_next(transition) {
            Some(next) => Some(ConfidentialHartView { lifecycle_state: next, ..self }),
            None => None,
        }
    }
}

/// One virtual processor core. It belongs to one confidential virtual machine
/// and is held either by that machine or by the hardware hart that runs it,
/// never by both.
#[derive(Debug)]
pub struct ConfidentialHart {
    id: usize,
    confidential_vm_id: Option<ConfidentialVmId>,
    lifecycle_state: HartLifecycleState,
    state: HartArchitecturalState,
    pending_request: Option<PendingRequest>,
    suspend_parameters: Option<SbiHsmHartSuspend>,
}

impl View for ConfidentialHart {
    type V = ConfidentialHartView;

    closed spec fn view(&self) -> ConfidentialHartView {
        ConfidentialHartView {
            id: self.id,
            confidential_vm_id: self.confidential_vm_id,
            lifecycle_state: self.lifecycle_state,
            state: self.state,
            pending_request: self.pending_request,
            suspend_parameters: self.suspend_parameters,
        }
    }
}

impl ConfidentialHart {
    /// The view of the dummy that stands in on the hardware hart `id`.
    pub open spec fn spec_dummy(id: usize) -> ConfidentialHartView {
        ConfidentialHartView {
            id,
            confidential_vm_id: None,
            lifecycle_state: HartLifecycleState::Stopped,
            state: HartArchitecturalState::spec_empty(),
            pending_request: None,
            suspend_parameters: None,
        }
    }

    /// The dummy that a hardware hart holds while it runs no confidential
    /// hart, and that a virtual machine holds in place of a hart that runs.
    pub fn dummy(id: usize) -> (hart: Self)
        ensures
            hart@ == Self::spec_dummy(id),
    {
        Self {
            id,
            confidential_vm_id: None,
            lifecycle_state: HartLifecycleState::Stopped,
            state: HartArchitecturalState::empty(),
            pending_request: None,
            suspend_parameters: None,
        }
    }

    /// The boot hart of a new virtual machine: it is started and holds the
    /// registers `from`. It belongs to no virtual machine yet.
    pub fn from_vm_hart(id: usize, from: &HartArchitecturalState) -> (hart: Self)
        ensures
            hart@ == (ConfidentialHartView {
                id,
                lifecycle_state: HartLifecycleState::Started,
                state: *from,
                ..Self::spec_dummy(id)
            }),
    {
        Self {
            id,
            confidential_vm_id: None,
            lifecycle_state: HartLifecycleState::Started,
            state: *from,
            pending_request: None,
            suspend_parameters: None,
        }
    }

    /// A hart of a new virtual machine other than the boot hart: it is stopped
    /// and every register holds zero. It belongs to no virtual machine yet.
    pub fn from_vm_hart_reset(id: usize) -> (hart: Self)
        ensures
            hart@ == Self::spec_dummy(id),
    {
        Self::dummy(id)
    }

    /// Makes the hart a hart of the virtual machine `confidential_vm_id`.
    pub(crate) fn set_confidential_vm_id(&mut self, confidential_vm_id: ConfidentialVmId)
        ensures
            final(self)@ == (ConfidentialHartView {
                confidential_vm_id: Some(confidential_vm_id),
                ..old(self)@
            }),
    {
        self.confidential_vm_id = Some(confidential_vm_id);
    }

    /// Tells whether this is a dummy.
    pub fn is_dummy(&self) -> (dummy: bool)
        ensures
            dummy == self@.is_dummy(),
    {
        self.confidential_vm_id.is_none()
    }

    /// The virtual machine that the hart belongs to.
    pub fn confidential_vm_id(&self) -> (id: Option<ConfidentialVmId>)
        ensures
            id == self@.confidential_vm_id,
    {
        self.confidential_vm_id
    }

    /// The identifier of the hart within its virtual machine.
    pub fn confidential_hart_id(&self) -> (id: usize)
        ensures
            id == self@.id,
    {
        self.id
    }

    /// The lifecycle state of the hart.
    pub fn lifecycle_state(&self) -> (state: &HartLifecycleState)
        ensures
            *state == self@.lifecycle_state,
    {
        &self.lifecycle_state
    }

    /// The saved registers of the hart.
    pub fn state(&self) -> (state: &HartArchitecturalState)
        ensures
            *state == self@.state,
    {
        &self.state
    }

    /// The request for whose result the hart waits.
    pub fn pending_request(&self) -> (request: Option<PendingRequest>)
        ensures
            request == self@.pending_request,
    {
        self.pending_request
    }

    /// The parameters with which the hart was suspended.
    pub fn suspend_parameters(&self) -> (parameters: Option<SbiHsmHartSuspend>)
        ensures
            parameters == self@.suspend_parameters,
    {
        self.suspend_parameters
    }

    /// Saves the registers that the hardware changes between traps. The
    /// general purpose registers stay as they are.
    pub fn store_volatile_control_status_registers_in_main_memory(
        &mut self,
        registers: &HartArchitecturalState,
    )
        ensures
            final(self)@ == (ConfidentialHartView {
                state: Self::spec_with_control_status_registers(old(self)@.state, *registers),
                ..old(self)@
            }),
    {
        self.state.mepc = registers.mepc;
        self.state.mcause = registers.mcause;
        self.state.mtval = registers.mtval;
        self.state.htval = registers.htval;
        self.state.mtinst = registers.mtinst;
        self.state.hvip = registers.hvip;
        self.state.hgatp = registers.hgatp;
    }

    /// The state `state` with the control and status registers of `registers`.
    pub open spec fn spec_with_control_status_registers(
        state: HartArchitecturalState,
        registers: HartArchitecturalState,
    ) -> HartArchitecturalState {
        HartArchitecturalState {
            mepc: registers.mepc,
            mcause: registers.mcause,
            mtval: registers.mtval,
            htval: registers.htval,
            mtinst: registers.mtinst,
            hvip: registers.hvip,
            hgatp: registers.hgatp,
            ..state
        }
    }

    /// The saved registers, for the hardware to load before the hart runs.
    pub fn load_volatile_control_status_registers_from_main_memory(&self) -> (registers:
        HartArchitecturalState)
        ensures
            registers == self@.state,
    {
        self.state
    }

    /// The reason for which the hart trapped.
    pub fn trap_reason(&self) -> (reason: TrapReason)
        ensures
            reason == TrapReason::spec_decode(self@.state.mcause, self@.state.a7, self@.state.a6),
    {
        TrapReason::decode(self.state.mcause, self.state.a7, self.state.a6)
    }

    /// The call that the hart made, for the hypervisor to serve.
    pub fn hypercall_request(&self) -> (request: SbiRequest)
        ensures
            request == SbiRequest::spec_from_hart_state(self@.state),
    {
        SbiRequest::from_hart_state(&self.state)
    }

    /// The request to share the page of four kibibytes at the address in `a0`.
    pub fn share_page_request(&self) -> (request: SharePageRequest)
        ensures
            request == SharePageRequest::spec_new(self@.state.a0, PageSize::Size4KiB),
    {
        SharePageRequest::new(self.state.a0, PageSize::Size4KiB)
    }

    /// The request to stop sharing the page at the address in `a0`.
    pub fn unshare_page_request(&self) -> (request: UnsharePageRequest)
        ensures
            request == (UnsharePageRequest { address: self@.state.a0 }),
    {
        UnsharePageRequest { address: self.state.a0 }
    }

    /// The harts that a call selects with a mask in `a0` and a base in `a1`.
    pub open spec fn spec_hart_selection(state: HartArchitecturalState) -> HartSelection {
        HartSelection { hart_mask: state.a0, hart_mask_base: state.a1 }
    }

    /// The inter-processor interrupt that the hart asks for.
    pub fn sbi_ipi(&self) -> (request: InterHartRequest)
        ensures
            request == InterHartRequest::SbiIpi(Self::spec_hart_selection(self@.state)),
    {
        InterHartRequest::SbiIpi(
            HartSelection { hart_mask: self.state.a0, hart_mask_base: self.state.a1 },
        )
    }

    /// The fence of the instruction stream that the hart asks for.
    pub fn sbi_remote_fence_i(&self) -> (request: InterHartRequest)
        ensures
            request == InterHartRequest::SbiRemoteFenceI(Self::spec_hart_selection(self@.state)),
    {
        InterHartRequest::SbiRemoteFenceI(
            HartSelection { hart_mask: self.state.a0, hart_mask_base: self.state.a1 },
        )
    }

    /// The fence of the address translation that the hart asks for, with the
    /// start of the range in `a2` and its size in `a3`.
    pub fn sbi_remote_sfence_vma(&self) -> (request: InterHartRequest)
        ensures
            request == (InterHartRequest::SbiRemoteSfenceVma {
                selection: Self::spec_hart_selection(self@.state),
                start_address: self@.state.a2,
                size: self@.state.a3,
            }),
    {
        InterHartRequest::SbiRemoteSfenceVma {
            selection: HartSelection { hart_mask: self.state.a0, hart_mask_base: self.state.a1 },
            start_address: self.state.a2,
            size: self.state.a3,
        }
    }

    /// The fence of the address translation of one address space that the hart
    /// asks for, with the address space in `a4`.
    pub fn sbi_remote_sfence_vma_asid(&self) -> (request: InterHartRequest)
        ensures
            request == (InterHartRequest::SbiRemoteSfenceVmaAsid {
                selection: Self::spec_hart_selection(self@.state),
                start_address: self@.state.a2,
                size: self@.state.a3,
                asid: self@.state.a4,
            }),
    {
        InterHartRequest::SbiRemoteSfenceVmaAsid {
            selection: HartSelection { hart_mask: self.state.a0, hart_mask_base: self.state.a1 },
            start_address: self.state.a2,
            size: self.state.a3,
            asid: self.state.a4,
        }
    }

    /// The request to start the hart in `a0` at the address in `a1`.
    pub fn sbi_hsm_hart_start(&self) -> (request: SbiHsmHartStart)
        ensures
            request == (SbiHsmHartStart {
                confidential_hart_id: self@.state.a0,
                start_address: self@.state.a1,
                opaque: self@.state.a2,
            }),
    {
        SbiHsmHartStart {
            confidential_hart_id: self.state.a0,
            start_address: self.state.a1,
            opaque: self.state.a2,
        }
    }

    /// The parameters with which the hart asks to be suspended.
    pub fn sbi_hsm_hart_suspend(&self) -> (request: SbiHsmHartSuspend)
        ensures
            request == (SbiHsmHartSuspend {
                suspend_type: self@.state.a0,
                resume_address: self@.state.a1,
                opaque: self@.state.a2,
            }),
    {
        SbiHsmHartSuspend {
            suspend_type: self.state.a0,
            resume_address: self.state.a1,
            opaque: self.state.a2,
        }
    }

    /// The request for the lifecycle state of the hart in `a0`.
    pub fn sbi_hsm_hart_status(&self) -> (request: SbiHsmHartStatus)
        ensures
            request == (SbiHsmHartStatus { confidential_hart_id: self@.state.a0 }),
    {
        SbiHsmHartStatus { confidential_hart_id: self.state.a0 }
    }

    /// The load that faulted.
    pub fn guest_load_page_fault_request(&self) -> (request: GuestLoadPageFaultRequest)
        ensures
            request == (GuestLoadPageFaultRequest {
                mtval: self@.state.mtval,
                htval: self@.state.htval,
                mtinst: self@.state.mtinst,
            }),
    {
        GuestLoadPageFaultRequest {
            mtval: self.state.mtval,
            htval: self.state.htval,
            mtinst: self.state.mtinst,
        }
    }

    /// The store that faulted.
    pub fn guest_store_page_fault_request(&self) -> (request: GuestStorePageFaultRequest)
        ensures
            request == (GuestStorePageFaultRequest {
                mtval: self@.state.mtval,
                htval: self@.state.htval,
                mtinst: self@.state.mtinst,
            }),
    {
        GuestStorePageFaultRequest {
            mtval: self.state.mtval,
            htval: self.state.htval,
            mtinst: self.state.mtinst,
        }
    }

    /// The instruction that the hart may not execute itself.
    pub fn virtual_instruction_request(&self) -> (request: VirtualInstructionRequest)
        ensures
            request == (VirtualInstructionRequest { instruction: self@.state.mtval }),
    {
        VirtualInstructionRequest { instruction: self.state.mtval }
    }

    /// Takes the request whose result the hart waits for. Afterwards the hart
    /// waits for nothing.
    pub fn take_request(&mut self) -> (request: Option<PendingRequest>)
        ensures
            request == old(self)@.pending_request,
            final(self)@ == (ConfidentialHartView { pending_request: None, ..old(self)@ }),
    {
        let request = self.pending_request;
        self.pending_request = None;
        request
    }

    /// Records that the hart waits for the result of `request`. Fails, and
    /// changes nothing, where the hart already waits for a result.
    pub fn set_pending_request(&mut self, request: PendingRequest) -> (result: Result<(), Error>)
        ensures
            result is Ok <==> old(self)@.pending_request is None,
            result is Ok ==> final(self)@ == (ConfidentialHartView {
                pending_request: Some(request),
                ..old(self)@
            }),
            result matches Err(error) ==> error == Error::PendingRequest && final(self)@ == old(self)@,
    {
        if self.pending_request.is_some() {
            return Err(Error::PendingRequest);
        }
        self.pending_request = Some(request);
        Ok(())
    }

    /// Applies `transformation` to the hart.
    pub fn apply(&mut self, transformation: ExposeToConfidentialVm)
        ensures
            final(self)@ == old(self)@.apply(transformation),
    {
        match transformation {
            ExposeToConfidentialVm::SbiResult(result) => {
                self.apply_sbi_result(result);
            },
            ExposeToConfidentialVm::GuestLoadPageFaultResult {
                result_gpr,
                value,
                instruction_length,
            } => {
                self.state.set_gpr(result_gpr, value);
                self.state.mepc = self.state.mepc.wrapping_add(instruction_length);
            },
            ExposeToConfidentialVm::GuestStorePageFaultResult { instruction_length } => {
                self.state.mepc = self.state.mepc.wrapping_add(instruction_length);
            },
            ExposeToConfidentialVm::VirtualInstructionResult { instruction_length } => {
                self.state.mepc = self.state.mepc.wrapping_add(instruction_length);
            },
            ExposeToConfidentialVm::Resume => {},
            ExposeToConfidentialVm::SbiHsmHartStart => {
                self.apply_sbi_result(SbiResult::success(0));
            },
            ExposeToConfidentialVm::SbiHsmHartStartPending => {},
            ExposeToConfidentialVm::SbiIpi => {
                self.state.hvip = self.state.hvip | VIRTUAL_SUPERVISOR_SOFTWARE_INTERRUPT;
            },
            ExposeToConfidentialVm::SbiRemoteFenceI => {},
            ExposeToConfidentialVm::SbiRemoteSfenceVma { .. } => {},
            ExposeToConfidentialVm::SbiRemoteSfenceVmaAsid { .. } => {},
            ExposeToConfidentialVm::StartHart { start_address, opaque } => {
                if self.lifecycle_state == HartLifecycleState::Suspended {
                    self.lifecycle_state = HartLifecycleState::Started;
                    self.suspend_parameters = None;
                    self.state.a0 = self.id;
                    self.state.a1 = opaque;
                    self.state.mepc = start_address;
                }
            },
        }
    }

    fn apply_sbi_result(&mut self, result: SbiResult)
        ensures
            final(self)@ == old(self)@.apply(ExposeToConfidentialVm::SbiResult(result)),
    {
        self.state.a0 = result.a0;
        self.state.a1 = result.a1;
        self.state.mepc = self.state.mepc.wrapping_add(ECALL_INSTRUCTION_LENGTH);
    }

    /// Suspends a started hart and keeps the parameters of the request. Fails,
    /// and changes nothing, where the hart is not started.
    pub fn transition_from_started_to_suspended(&mut self, request: SbiHsmHartSuspend) -> (result:
        Result<(), Error>)
        ensures
            result is Ok <==> old(self)@.transition(LifecycleTransition::Suspend) is Some,
            result is Ok ==> final(self)@ == (ConfidentialHartView {
                suspend_parameters: Some(request),
                ..old(self)@.transition(LifecycleTransition::Suspend)->0
            }),
            result matches Err(error) ==> error == Error::CannotSuspendNotStartedHart && final(self)@ == old(self)@,
    {
        match self.lifecycle_state.next(LifecycleTransition::Suspend) {
            Some(next) => {
                self.lifecycle_state = next;
                self.suspend_parameters = Some(request);
                Ok(())
            },
            None => Err(Error::CannotSuspendNotStartedHart),
        }
    }

    /// Stops a started hart. Fails, and changes nothing, where the hart is not
    /// started.
    pub fn transition_from_started_to_stopped(&mut self) -> (result: Result<(), Error>)
        ensures
            result is Ok <==> old(self)@.transition(LifecycleTransition::Stop) is Some,
            result is Ok ==> final(self)@ == old(self)@.transition(LifecycleTransition::Stop)->0,
            result matches Err(error) ==> error == Error::CannotStopNotStartedHart && final(self)@
                == old(self)@,
    {
        match self.lifecycle_state.next(LifecycleTransition::Stop) {
            Some(next) => {
                self.lifecycle_state = next;
                Ok(())
            },
            None => Err(Error::CannotStopNotStartedHart),
        }
    }

    /// Starts a suspended hart again and drops the parameters with which it
    /// was suspended. Fails, and changes nothing, where the hart is not
    /// suspended.
    pub fn transition_from_suspended_to_started(&mut self) -> (result: Result<(), Error>)
        ensures
            result is Ok <==> old(self)@.transition(LifecycleTransition::Resume) is Some,
            result is Ok ==> final(self)@ == (ConfidentialHartView {
                suspend_parameters: None,
                ..old(self)@.transition(LifecycleTransition::Resume)->0
            }),
            result matches Err(error) ==> error == Error::CannotStartNotSuspendedHart && final(self)@ == old(self)@,
    {
        match self.lifecycle_state.next(LifecycleTransition::Resume) {
            Some(next) => {
                self.lifecycle_state = next;
                self.suspend_parameters = None;
                Ok(())
            },
            None => Err(Error::CannotStartNotSuspendedHart),
        }
    }

    /// Shuts the hart down, whatever state it is in. A hart that was shut down
    /// stays so.
    pub fn transition_to_shutdown(&mut self)
        ensures
            final(self)@ == (ConfidentialHartView {
                lifecycle_state: HartLifecycleState::Shutdown,
                ..old(self)@
            }),
            old(self)@.transition(LifecycleTransition::Shutdown) matches Some(next) ==> final(self)@ == next,
    {
        self.lifecycle_state = HartLifecycleState::Shutdown;
    }
}

} // verus!
