//! The confidential flow: the phase of the monitor's state machine in which a
//! hardware hart runs a confidential hart.

use vstd::prelude::*;
use crate::architecture::{
    AceExtension, BaseExtension, HartArchitecturalState, HartLifecycleState, HsmExtension,
    IpiExtension, LifecycleTransition, RfenceExtension, SbiExtension, SrstExtension, TrapReason,
};
use crate::confidential_hart::{ConfidentialHart, ConfidentialHartView};
use crate::confidential_vm::{ConfidentialVmView, InterHartBroadcastStep};
use crate::confidential_vm_id::ConfidentialVmId;
use crate::control_data::{ControlData, ControlDataView};
use crate::error::Error;
use crate::hardware_hart::{HardwareHart, HardwareHartView};
use crate::non_confidential_flow::NonConfidentialFlow;
use crate::shared_page::{PageSize, SharePageRequest};
use crate::transformations::{
    ExposeToConfidentialVm, GuestLoadPageFaultRequest, GuestLoadPageFaultResult,
    GuestStorePageFaultRequest, InterHartRequest, PendingRequest, SbiHsmHartStart,
    SbiHsmHartStatus, SbiHsmHartSuspend, SbiRequest, SbiResult, SharePageResult,
    UnsharePageRequest, VirtualInstructionRequest,
};

verus! {

/// The handler that serves a trap of a confidential hart, with the request
/// that it serves.
#[derive(Clone, Copy, Debug, PartialEq, Eq, Structural)]
pub enum ConfidentialRequest {
    Interrupt,
    SharePage(SharePageRequest),
    UnsharePage(UnsharePageRequest),
    /// A call that the hypervisor serves.
    Hypercall(SbiRequest),
    SbiProbeExtension(SbiRequest),
    /// An interrupt or a fence for other harts of the virtual machine.
    SbiIpi(InterHartRequest),
    /// A fence that has nothing to do in a confidential virtual machine.
    SbiRfenceNop,
    SbiHsmHartStart(SbiHsmHartStart),
    SbiHsmHartStop,
    SbiHsmHartSuspend(SbiHsmHartSuspend),
    SbiHsmHartStatus(SbiHsmHartStatus),
    SbiSrst,
    GuestLoadPageFault(GuestLoadPageFaultRequest),
    VirtualInstruction(VirtualInstructionRequest),
    GuestStorePageFault(GuestStorePageFaultRequest),
}

impl ConfidentialRequest {
    /// The mapping from the reason of a trap to its handler, for a hart with
    /// the registers `state`. A call whose extension or function the monitor
    /// does not know has no handler, nor has a trap that the hardware never
    /// delegates from a confidential hart.
    pub open spec fn spec_route(reason: TrapReason, state: HartArchitecturalState) -> Option<
        ConfidentialRequest,
    > {
        let selection = ConfidentialHart::spec_hart_selection(state);
        let call = SbiRequest::spec_from_hart_state(state);
        match reason {
            TrapReason::Interrupt => Some(ConfidentialRequest::Interrupt),
            TrapReason::VsEcall(SbiExtension::Ace(AceExtension::SharePageWithHypervisor)) => Some(
                ConfidentialRequest::SharePage(
                    SharePageRequest::spec_new(state.a0, PageSize::Size4KiB),
                ),
            ),
            TrapReason::VsEcall(
                SbiExtension::Ace(AceExtension::StopSharingPageWithHypervisor),
            ) => Some(ConfidentialRequest::UnsharePage(UnsharePageRequest { address: state.a0 })),
            TrapReason::VsEcall(SbiExtension::Base(BaseExtension::ProbeExtension)) => Some(
                ConfidentialRequest::SbiProbeExtension(call),
            ),
            TrapReason::VsEcall(SbiExtension::Base(_)) => Some(ConfidentialRequest::Hypercall(call)),
            TrapReason::VsEcall(SbiExtension::Ipi(IpiExtension::SendIpi)) => Some(
                ConfidentialRequest::SbiIpi(InterHartRequest::SbiIpi(selection)),
            ),
            TrapReason::VsEcall(SbiExtension::Rfence(RfenceExtension::RemoteFenceI)) => Some(
                ConfidentialRequest::SbiIpi(InterHartRequest::SbiRemoteFenceI(selection)),
            ),
            TrapReason::VsEcall(SbiExtension::Rfence(RfenceExtension::RemoteSfenceVma)) => Some(
                ConfidentialRequest::SbiIpi(
                    InterHartRequest::SbiRemoteSfenceVma {
                        selection,
                        start_address: state.a2,
                        size: state.a3,
                    },
                ),
            ),
            TrapReason::VsEcall(SbiExtension::Rfence(RfenceExtension::RemoteSfenceVmaAsid)) => Some(
                ConfidentialRequest::SbiIpi(
                    InterHartRequest::SbiRemoteSfenceVmaAsid {
                        selection,
                        start_address: state.a2,
                        size: state.a3,
                        asid: state.a4,
                    },
                ),
            ),
            TrapReason::VsEcall(SbiExtension::Rfence(_)) => Some(ConfidentialRequest::SbiRfenceNop),
            TrapReason::VsEcall(SbiExtension::Hsm(HsmExtension::HartStart)) => Some(
                ConfidentialRequest::SbiHsmHartStart(
                    SbiHsmHartStart {
                        confidential_hart_id: state.a0,
                        start_address: state.a1,
                        opaque: state.a2,
                    },
                ),
            ),
            TrapReason::VsEcall(SbiExtension::Hsm(HsmExtension::HartStop)) => Some(
                ConfidentialRequest::SbiHsmHartStop,
            ),
            TrapReason::VsEcall(SbiExtension::Hsm(HsmExtension::HartSuspend)) => Some(
                ConfidentialRequest::SbiHsmHartSuspend(
                    SbiHsmHartSuspend {
                        suspend_type: state.a0,
                        resume_address: state.a1,
                        opaque: state.a2,
                    },
                ),
            ),
            TrapReason::VsEcall(SbiExtension::Hsm(HsmExtension::HartGetStatus)) => Some(
                ConfidentialRequest::SbiHsmHartStatus(
                    SbiHsmHartStatus { confidential_hart_id: state.a0 },
                ),
            ),
            TrapReason::VsEcall(SbiExtension::Srst(SrstExtension::SystemReset)) => Some(
                ConfidentialRequest::SbiSrst,
            ),
            TrapReason::VsEcall(SbiExtension::Unknown(_, _)) => None,
            TrapReason::GuestLoadPageFault => Some(
                ConfidentialRequest::GuestLoadPageFault(
                    GuestLoadPageFaultRequest {
                        mtval: state.mtval,
                        htval: state.htval,
                        mtinst: state.mtinst,
                    },
                ),
            ),
            TrapReason::VirtualInstruction => Some(
                ConfidentialRequest::VirtualInstruction(
                    VirtualInstructionRequest { instruction: state.mtval },
                ),
            ),
            TrapReason::GuestStorePageFault => Some(
                ConfidentialRequest::GuestStorePageFault(
                    GuestStorePageFaultRequest {
                        mtval: state.mtval,
                        htval: state.htval,
                        mtinst: state.mtinst,
                    },
                ),
            ),
            TrapReason::HsEcall => None,
            TrapReason::MachineEcall => None,
            TrapReason::GuestInstructionPageFault => None,
            TrapReason::Unknown => None,
        }
    }

    /// Whether the mapping has a handler for `reason`. It has none for a call
    /// whose extension or function the monitor does not know, nor for a trap
    /// that does not come from a confidential hart.
    pub open spec fn spec_is_mapped(reason: TrapReason) -> bool {
        match reason {
            TrapReason::VsEcall(SbiExtension::Unknown(_, _)) => false,
            TrapReason::HsEcall => false,
            TrapReason::MachineEcall => false,
            TrapReason::GuestInstructionPageFault => false,
            TrapReason::Unknown => false,
            _ => true,
        }
    }

    /// The mapping has a handler exactly for the reasons that
    /// `spec_is_mapped` names.
    pub proof fn lemma_mapped_reasons_have_a_handler(
        reason: TrapReason,
        state: HartArchitecturalState,
    )
        ensures
            Self::spec_route(reason, state) is Some <==> Self::spec_is_mapped(reason),
    {
    }

    /// Tells whether the mapping has a handler for `reason`.
    pub fn is_mapped(reason: TrapReason) -> (mapped: bool)
        ensures
            mapped == Self::spec_is_mapped(reason),
    {
        match reason {
            TrapReason::VsEcall(SbiExtension::Unknown(_, _)) => false,
            TrapReason::HsEcall => false,
            TrapReason::MachineEcall => false,
            TrapReason::GuestInstructionPageFault => false,
            TrapReason::Unknown => false,
            _ => true,
        }
    }

    /// Selects the handler for the trap of `hart`, which trapped for `reason`.
    /// The mapping must have a handler for the reason.
    pub fn route(reason: TrapReason, hart: &ConfidentialHart) -> (request: ConfidentialRequest)
        requires
            Self::spec_is_mapped(reason),
        ensures
            Some(request) == Self::spec_route(reason, hart@.state),
    {
        match reason {
            TrapReason::Interrupt => ConfidentialRequest::Interrupt,
            TrapReason::VsEcall(extension) => match extension {
                SbiExtension::Ace(AceExtension::SharePageWithHypervisor) => ConfidentialRequest::SharePage(
                    hart.share_page_request(),
                ),
                SbiExtension::Ace(
                    AceExtension::StopSharingPageWithHypervisor,
                ) => ConfidentialRequest::UnsharePage(hart.unshare_page_request()),
                SbiExtension::Base(
                    BaseExtension::ProbeExtension,
                ) => ConfidentialRequest::SbiProbeExtension(hart.hypercall_request()),
                SbiExtension::Base(_) => ConfidentialRequest::Hypercall(hart.hypercall_request()),
                SbiExtension::Ipi(IpiExtension::SendIpi) => ConfidentialRequest::SbiIpi(
                    hart.sbi_ipi(),
                ),
                SbiExtension::Rfence(RfenceExtension::RemoteFenceI) => ConfidentialRequest::SbiIpi(
                    hart.sbi_remote_fence_i(),
                ),
                SbiExtension::Rfence(RfenceExtension::RemoteSfenceVma) => ConfidentialRequest::SbiIpi(
                    hart.sbi_remote_sfence_vma(),
                ),
                SbiExtension::Rfence(
                    RfenceExtension::RemoteSfenceVmaAsid,
                ) => ConfidentialRequest::SbiIpi(hart.sbi_remote_sfence_vma_asid()),
                SbiExtension::Rfence(_) => ConfidentialRequest::SbiRfenceNop,
                SbiExtension::Hsm(HsmExtension::HartStart) => ConfidentialRequest::SbiHsmHartStart(
                    hart.sbi_hsm_hart_start(),
                ),
                SbiExtension::Hsm(HsmExtension::HartStop) => ConfidentialRequest::SbiHsmHartStop,
                SbiExtension::Hsm(
                    HsmExtension::HartSuspend,
                ) => ConfidentialRequest::SbiHsmHartSuspend(hart.sbi_hsm_hart_suspend()),
                SbiExtension::Hsm(
                    HsmExtension::HartGetStatus,
                ) => ConfidentialRequest::SbiHsmHartStatus(hart.sbi_hsm_hart_status()),
                SbiExtension::Srst(SrstExtension::SystemReset) => ConfidentialRequest::SbiSrst,
                SbiExtension::Unknown(_, _) => vstd::pervasive::unreached(),
            },
            TrapReason::GuestLoadPageFault => ConfidentialRequest::GuestLoadPageFault(
                hart.guest_load_page_fault_request(),
            ),
            TrapReason::VirtualInstruction => ConfidentialRequest::VirtualInstruction(
                hart.virtual_instruction_request(),
            ),
            TrapReason::GuestStorePageFault => ConfidentialRequest::GuestStorePageFault(
                hart.guest_store_page_fault_request(),
            ),
            TrapReason::HsEcall => vstd::pervasive::unreached(),
            TrapReason::MachineEcall => vstd::pervasive::unreached(),
            TrapReason::GuestInstructionPageFault => vstd::pervasive::unreached(),
            TrapReason::Unknown => vstd::pervasive::unreached(),
        }
    }
}

/// The handler that finishes the request for whose result a confidential hart
/// waited, with what it works on.
#[derive(Clone, Copy, Debug, PartialEq, Eq, Structural)]
pub enum ResumeRequest {
    /// The hypervisor served a call.
    HypercallResult(SbiResult),
    /// The hypervisor emulated a load.
    GuestLoadPageFaultResult(GuestLoadPageFaultResult),
    /// The hypervisor emulated a store.
    GuestStorePageFaultResult(GuestStorePageFaultRequest),
    /// The hypervisor offered a page to share.
    SharePageResult(SharePageResult, SharePageRequest),
    /// Nothing is left to do but to leave the monitor with this
    /// transformation.
    Exit(ExposeToConfidentialVm),
}

impl ResumeRequest {
    /// The handler that belongs to the pending request `pending` of a hart
    /// whose hypervisor left the registers `hypervisor_state`. Every pending
    /// request has exactly one, and a hart that waits for nothing just
    /// resumes.
    pub open spec fn spec_resolve(
        pending: Option<PendingRequest>,
        hypervisor_state: HartArchitecturalState,
    ) -> ResumeRequest {
        match pending {
            Some(PendingRequest::SbiRequest) => ResumeRequest::HypercallResult(
                SbiResult { a0: hypervisor_state.a0, a1: hypervisor_state.a1 },
            ),
            Some(PendingRequest::GuestLoadPageFault(request)) => ResumeRequest::GuestLoadPageFaultResult(
                GuestLoadPageFaultResult { request, value: hypervisor_state.a0 },
            ),
            Some(PendingRequest::GuestStorePageFault(request)) => ResumeRequest::GuestStorePageFaultResult(
                request,
            ),
            Some(PendingRequest::SharePage(request)) => ResumeRequest::SharePageResult(
                SharePageResult {
                    response_code: hypervisor_state.a0,
                    hypervisor_page_address: hypervisor_state.a1,
                },
                request,
            ),
            Some(PendingRequest::SbiHsmHartStart) => ResumeRequest::Exit(
                ExposeToConfidentialVm::SbiHsmHartStart,
            ),
            Some(PendingRequest::SbiHsmHartStartPending) => ResumeRequest::Exit(
                ExposeToConfidentialVm::SbiHsmHartStartPending,
            ),
            None => ResumeRequest::Exit(ExposeToConfidentialVm::Resume),
        }
    }
}

/// A broadcast that waits for its caller to interrupt a hardware hart. It
/// holds the confidential flow that began it, with the value of the firmware
/// in the scratch register, and gives the flow back only when the broadcast is
/// over.
#[derive(Debug)]
pub struct InterHartBroadcast {
    flow: ConfidentialFlow,
    request: InterHartRequest,
    next_hart_id: usize,
}

/// How far a broadcast has come.
#[derive(Debug)]
pub enum BroadcastProgress {
    /// The request was queued for a hart that the hardware hart
    /// `hardware_hart_id` runs. The caller interrupts that hardware hart and
    /// tells the broadcast whether it could.
    Notify { broadcast: InterHartBroadcast, hardware_hart_id: usize },
    /// The broadcast is over. The flow is as it was before the broadcast.
    Finished { flow: ConfidentialFlow, result: Result<(), Error> },
}

impl BroadcastProgress {
    /// Whether this is what a broadcast of `request`, begun by a flow that
    /// held `origin`, has come to after a step that ended with `outcome`.
    pub open spec fn follows(
        self,
        origin: HardwareHartView,
        request: InterHartRequest,
        outcome: InterHartBroadcastStep,
    ) -> bool {
        match outcome {
            InterHartBroadcastStep::Notify { hardware_hart_id, next_hart_id } => {
                &&& self is Notify
                &&& self->hardware_hart_id == hardware_hart_id
                &&& self->broadcast.origin() == origin
                &&& self->broadcast.spec_request() == request
                &&& self->broadcast.spec_next_hart_id() == next_hart_id
                &&& self->broadcast.wf()
            },
            InterHartBroadcastStep::Finished(result) => {
                &&& self is Finished
                &&& self->result == result
                &&& self->flow@ == origin
                &&& self->flow.wf()
            },
        }
    }
}

impl InterHartBroadcast {
    /// What the flow that began the broadcast held when it began it.
    pub closed spec fn origin(&self) -> HardwareHartView {
        self.flow@.swap_mscratch()
    }

    /// The request that is broadcast.
    pub closed spec fn spec_request(&self) -> InterHartRequest {
        self.request
    }

    /// The hart with which the broadcast goes on.
    pub closed spec fn spec_next_hart_id(&self) -> usize {
        self.next_hart_id
    }

    /// The flow that began the broadcast held a confidential hart.
    pub open spec fn wf(&self) -> bool {
        !self.origin().confidential_hart.is_dummy()
    }

    /// The value that stands in the scratch register while the broadcast
    /// lasts: the one that the flow kept aside before.
    pub fn mscratch(&self) -> (value: usize)
        ensures
            value == self.origin().previous_mscratch,
    {
        self.flow.hardware_hart.mscratch()
    }

    /// The request that is broadcast.
    pub fn request(&self) -> (request: InterHartRequest)
        ensures
            request == self.spec_request(),
    {
        self.request
    }

    /// Carries the broadcast on after the caller tried to interrupt the
    /// hardware hart that the last step named.
    ///
    /// Where the hardware hart could not be interrupted (`delivered` is
    /// false), the broadcast is over with a failure and has changed nothing
    /// more. Else it goes on with the hart behind the one that the hardware
    /// hart runs.
    pub fn proceed(self, control_data: &mut ControlData, delivered: bool) -> (progress:
        BroadcastProgress)
        requires
            self.wf(),
            old(control_data).wf(),
        ensures
            final(control_data).wf(),
            ({
                let id = self.origin().confidential_hart.confidential_vm_id->0;
                &&& !delivered ==> {
                    &&& final(control_data)@ == old(control_data)@
                    &&& progress.follows(
                        self.origin(),
                        self.spec_request(),
                        InterHartBroadcastStep::Finished(Err(Error::InterruptSendingError)),
                    )
                }
                &&& delivered ==> {
                    &&& final(control_data)@ == ControlData::spec_broadcast_step(
                        old(control_data)@,
                        id,
                        self.spec_request(),
                        self.spec_next_hart_id(),
                    )
                    &&& progress.follows(
                        self.origin(),
                        self.spec_request(),
                        ControlData::spec_broadcast_outcome(
                            old(control_data)@,
                            id,
                            self.spec_request(),
                            self.spec_next_hart_id(),
                        ),
                    )
                }
                &&& ControlData::spec_can_return(old(control_data)@, self.origin())
                    ==> ControlData::spec_can_return(final(control_data)@, self.origin())
            }),
    {
        let request = self.request;
        let from = self.next_hart_id;
        let mut flow = self.flow;
        if !delivered {
            flow.hardware_hart.swap_mscratch();
            return BroadcastProgress::Finished { flow, result: Err(Error::InterruptSendingError) };
        }
        let confidential_vm_id = flow.confidential_vm_id();
        match control_data.broadcast_inter_hart_request(confidential_vm_id, request, from) {
            InterHartBroadcastStep::Notify { hardware_hart_id, next_hart_id } => {
                BroadcastProgress::Notify {
                    broadcast: InterHartBroadcast { flow, request, next_hart_id },
                    hardware_hart_id,
                }
            },
            InterHartBroadcastStep::Finished(result) => {
                flow.hardware_hart.swap_mscratch();
                BroadcastProgress::Finished { flow, result }
            },
        }
    }
}

/// Proof that a hardware hart runs a confidential hart. It owns both, so that
/// the state of the confidential hart is reached through its functions only,
/// and it is used up by the step that leaves the confidential flow.
#[derive(Debug)]
pub struct ConfidentialFlow {
    hardware_hart: HardwareHart,
}

impl View for ConfidentialFlow {
    type V = HardwareHartView;

    closed spec fn view(&self) -> HardwareHartView {
        self.hardware_hart@
    }
}

impl ConfidentialFlow {
    /// A confidential hart is assigned to the hardware hart.
    pub open spec fn wf(&self) -> bool {
        !self@.confidential_hart.is_dummy()
    }

    /// The virtual machine of the confidential hart exists in the registry,
    /// and has a place for the hart.
    pub open spec fn is_registered(&self, control_data: ControlDataView) -> bool {
        ControlData::spec_can_return(control_data, self@)
    }

    /// Tells whether the virtual machine of the confidential hart exists in
    /// `control_data`, with a place for the hart.
    pub fn is_registered_in(&self, control_data: &ControlData) -> (registered: bool)
        ensures
            registered == self.is_registered(control_data@),
    {
        control_data.can_return(&self.hardware_hart)
    }

    /// Enters the confidential flow on a hardware hart that runs a
    /// confidential hart.
    pub fn create(hardware_hart: HardwareHart) -> (flow: Self)
        requires
            !hardware_hart@.confidential_hart.is_dummy(),
        ensures
            flow@ == hardware_hart@,
            flow.wf(),
    {
        Self { hardware_hart }
    }

    /// Hands the hardware hart on within the library, as it is.
    pub(crate) fn into_hardware_hart(self) -> (hardware_hart: HardwareHart)
        ensures
            hardware_hart@ == self@,
    {
        self.hardware_hart
    }

    /// Leaves the confidential flow: the confidential hart goes back to its
    /// virtual machine, and the hardware hart, now with a dummy, enters the
    /// non-confidential flow.
    pub fn into_non_confidential_flow(self, control_data: &mut ControlData) -> (flow:
        NonConfidentialFlow)
        requires
            self.wf(),
            old(control_data).wf(),
            self.is_registered(old(control_data)@),
        ensures
            final(control_data).wf(),
            final(control_data)@ == ControlData::spec_return(old(control_data)@, self@),
            final(control_data)@.contains(self@.confidential_hart.confidential_vm_id->0),
            final(control_data)@.vm(self@.confidential_hart.confidential_vm_id->0) == old(
                control_data
            )@.vm(self@.confidential_hart.confidential_vm_id->0).with_hart(self@.confidential_hart),
            flow@ == (HardwareHartView {
                confidential_hart: ConfidentialHart::spec_dummy(self@.id),
                ..self@
            }),
            flow.wf(),
    {
        let mut hardware_hart = self.hardware_hart;
        let result = control_data.return_confidential_hart(&mut hardware_hart);
        assert(result is Ok);
        NonConfidentialFlow::create(hardware_hart)
    }

    /// The reason for which the confidential hart of `hardware_hart` trapped,
    /// where the hardware holds the control and status registers `registers`.
    pub open spec fn spec_trap_reason(
        hardware_hart: HardwareHartView,
        registers: HartArchitecturalState,
    ) -> TrapReason {
        TrapReason::spec_decode(
            registers.mcause,
            hardware_hart.confidential_hart.state.a7,
            hardware_hart.confidential_hart.state.a6,
        )
    }

    /// Decodes the reason for which the confidential hart of `hardware_hart`
    /// trapped, from the cause that the hardware holds in `registers` and from
    /// the saved registers of the hart.
    pub fn trap_reason(hardware_hart: &HardwareHart, registers: &HartArchitecturalState) -> (reason:
        TrapReason)
        ensures
            reason == Self::spec_trap_reason(hardware_hart@, *registers),
    {
        let state = hardware_hart.confidential_hart().state();
        TrapReason::decode(registers.mcause, state.a7, state.a6)
    }

    /// Takes over a hardware hart whose confidential hart trapped, saves the
    /// control and status registers `registers` that the hardware holds, and
    /// selects the handler of the trap.
    ///
    /// The hardware hart must hold a confidential hart, and the mapping must
    /// have a handler for the reason of the trap. The hardware delegates no
    /// other trap, and a monitor that sees one has to stop.
    pub fn route_confidential_flow(
        hardware_hart: HardwareHart,
        registers: &HartArchitecturalState,
    ) -> (result: (ConfidentialFlow, ConfidentialRequest))
        requires
            !hardware_hart@.confidential_hart.is_dummy(),
            ConfidentialRequest::spec_is_mapped(Self::spec_trap_reason(hardware_hart@, *registers)),
        ensures
            ({
                let state = ConfidentialHart::spec_with_control_status_registers(
                    hardware_hart@.confidential_hart.state,
                    *registers,
                );
                let reason = Self::spec_trap_reason(hardware_hart@, *registers);
                &&& Some(result.1) == ConfidentialRequest::spec_route(reason, state)
                &&& result.0.wf()
                &&& result.0@ == (HardwareHartView {
                    confidential_hart: ConfidentialHartView {
                        state,
                        ..hardware_hart@.confidential_hart
                    },
                    ..hardware_hart@
                })
            }),
    {
        let mut hardware_hart = hardware_hart;
        hardware_hart.confidential_hart_mut().store_volatile_control_status_registers_in_main_memory(
            registers,
        );
        let flow = Self::create(hardware_hart);
        let reason = flow.hardware_hart.confidential_hart().trap_reason();
        let request = ConfidentialRequest::route(reason, flow.hardware_hart.confidential_hart());
        (flow, request)
    }

    /// Enters the confidential flow on a hardware hart whose confidential hart
    /// did not run for a while, and brings the hart up to date.
    ///
    /// First every request that other harts queued for the hart is applied,
    /// oldest first. Only then the request for whose result the hart waited is
    /// taken, and the handler that finishes it is selected.
    pub fn resume_confidential_hart_execution(
        hardware_hart: HardwareHart,
        control_data: &mut ControlData,
    ) -> (result: (ConfidentialFlow, ResumeRequest))
        requires
            !hardware_hart@.confidential_hart.is_dummy(),
            old(control_data).wf(),
            ControlData::spec_can_return(old(control_data)@, hardware_hart@),
        ensures
            final(control_data).wf(),
            ({
                let hart = hardware_hart@.confidential_hart;
                let id = hart.confidential_vm_id->0;
                let vm = old(control_data)@.vm(id);
                let requests = vm.inter_hart_requests[hart.id as int];
                &&& final(control_data)@ == old(control_data)@.with_vm(
                    id,
                    vm.without_requests(hart.id as int),
                )
                &&& result.0@ == (HardwareHartView {
                    confidential_hart: ConfidentialHartView {
                        pending_request: None,
                        ..hart.apply_requests(requests)
                    },
                    ..hardware_hart@
                })
                &&& result.0.wf()
                &&& result.0.is_registered(final(control_data)@)
                &&& final(control_data)@.vm(id) == vm.without_requests(hart.id as int)
                &&& result.1 == ResumeRequest::spec_resolve(
                    hart.apply_requests(requests).pending_request,
                    hardware_hart@.non_confidential_hart_state,
                )
            }),
    {
        let mut confidential_flow = Self::create(hardware_hart);
        confidential_flow.process_inter_hart_requests(control_data);
        let pending = confidential_flow.hardware_hart.confidential_hart_mut().take_request();
        let request = match pending {
            Some(PendingRequest::SbiRequest) => ResumeRequest::HypercallResult(
                confidential_flow.hardware_hart.hypercall_result(),
            ),
            Some(PendingRequest::GuestLoadPageFault(request)) => ResumeRequest::GuestLoadPageFaultResult(
                confidential_flow.hardware_hart.guest_load_page_fault_result(request),
            ),
            Some(PendingRequest::GuestStorePageFault(request)) => ResumeRequest::GuestStorePageFaultResult(
                request,
            ),
            Some(PendingRequest::SharePage(request)) => ResumeRequest::SharePageResult(
                confidential_flow.hardware_hart.share_page_result(),
                request,
            ),
            Some(PendingRequest::SbiHsmHartStart) => ResumeRequest::Exit(
                ExposeToConfidentialVm::SbiHsmHartStart,
            ),
            Some(PendingRequest::SbiHsmHartStartPending) => ResumeRequest::Exit(
                ExposeToConfidentialVm::SbiHsmHartStartPending,
            ),
            None => ResumeRequest::Exit(ExposeToConfidentialVm::Resume),
        };
        (confidential_flow, request)
    }

    /// Applies `transformation` to the confidential hart and leaves the
    /// monitor: what is returned is the hardware hart as the context switch
    /// takes it over to run the confidential hart.
    pub fn exit_to_confidential_hart(self, transformation: ExposeToConfidentialVm) -> (hardware_hart:
        HardwareHart)
        requires
            self.wf(),
        ensures
            hardware_hart@ == (HardwareHartView {
                confidential_hart: self@.confidential_hart.apply(transformation),
                ..self@
            }),
            !hardware_hart@.confidential_hart.is_dummy(),
    {
        let mut hardware_hart = self.hardware_hart;
        hardware_hart.confidential_hart_mut().apply(transformation);
        hardware_hart
    }

    /// Begins to broadcast `inter_hart_request` to the harts of the virtual
    /// machine of this hart, and carries the broadcast as far as it goes
    /// without interrupting a hardware hart.
    ///
    /// The firmware that interrupts other cores expects its own value in the
    /// scratch register. For the time of the broadcast that value stands
    /// there, and the flow is not to be had: it comes back when the broadcast
    /// is over, with the scratch register as it was, however the broadcast
    /// ends.
    pub fn broadcast_inter_hart_request(
        self,
        control_data: &mut ControlData,
        inter_hart_request: InterHartRequest,
    ) -> (progress: BroadcastProgress)
        requires
            self.wf(),
            old(control_data).wf(),
        ensures
            final(control_data).wf(),
            ({
                let id = self@.confidential_hart.confidential_vm_id->0;
                &&& final(control_data)@ == ControlData::spec_broadcast_step(
                    old(control_data)@,
                    id,
                    inter_hart_request,
                    0,
                )
                &&& progress.follows(
                    self@,
                    inter_hart_request,
                    ControlData::spec_broadcast_outcome(
                        old(control_data)@,
                        id,
                        inter_hart_request,
                        0,
                    ),
                )
                &&& self.is_registered(old(control_data)@) ==> ControlData::spec_can_return(
                    final(control_data)@,
                    self@,
                )
            }),
    {
        let mut flow = self;
        flow.hardware_hart.swap_mscratch();
        let broadcast = InterHartBroadcast { flow, request: inter_hart_request, next_hart_id: 0 };
        broadcast.proceed(control_data, true)
    }

    /// Takes the requests that other harts queued for this hart and applies
    /// them to it, oldest first.
    pub fn process_inter_hart_requests(&mut self, control_data: &mut ControlData)
        requires
            old(self).wf(),
            old(control_data).wf(),
            old(self).is_registered(old(control_data)@),
        ensures
            final(control_data).wf(),
            final(self).wf(),
            ({
                let hart = old(self)@.confidential_hart;
                let id = hart.confidential_vm_id->0;
                let vm = old(control_data)@.vm(id);
                &&& final(control_data)@ == old(control_data)@.with_vm(
                    id,
                    vm.without_requests(hart.id as int),
                )
                &&& final(self)@ == (HardwareHartView {
                    confidential_hart: hart.apply_requests(vm.inter_hart_requests[hart.id as int]),
                    ..old(self)@
                })
                &&& final(control_data)@.vm(id) == vm.without_requests(hart.id as int)
                &&& final(self).is_registered(final(control_data)@)
            }),
    {
        let confidential_vm_id = self.confidential_vm_id();
        let confidential_hart_id = self.confidential_hart_id();
        let requests = control_data.take_inter_hart_requests(
            confidential_vm_id,
            confidential_hart_id,
        ).unwrap();
        let ghost start = self@.confidential_hart;
        let mut i: usize = 0;
        while i < requests.len()
            invariant
                i <= requests.len(),
                self@ == (HardwareHartView {
                    confidential_hart: start.apply_requests(requests@.take(i as int)),
                    ..old(self)@
                }),
                start == old(self)@.confidential_hart,
            decreases requests.len() - i,
        {
            let transformation = requests[i].into_expose_to_confidential_vm();
            self.hardware_hart.confidential_hart_mut().apply(transformation);
            proof {
                lemma_apply_requests_push(start, requests@.take(i as int), requests@[i as int]);
                assert(requests@.take(i as int).push(requests@[i as int]) =~= requests@.take(
                    i + 1,
                ));
            }
            i = i + 1;
        }
        proof {
            assert(requests@.take(requests.len() as int) =~= requests@);
            lemma_apply_requests_keeps_identity(start, requests@);
        }
    }

    /// Suspends the confidential hart. Fails, and changes nothing, where the
    /// hart is not started.
    pub fn suspend_confidential_hart(&mut self, request: SbiHsmHartSuspend) -> (result: Result<
        (),
        Error,
    >)
        requires
            old(self).wf(),
        ensures
            final(self).wf(),
            result is Ok <==> old(self)@.confidential_hart.transition(LifecycleTransition::Suspend)
                is Some,
            result is Ok ==> final(self)@ == (HardwareHartView {
                confidential_hart: ConfidentialHartView {
                    suspend_parameters: Some(request),
                    ..old(self)@.confidential_hart.transition(LifecycleTransition::Suspend)->0
                },
                ..old(self)@
            }),
            result matches Err(error) ==> error == Error::CannotSuspendNotStartedHart && final(self)@ == old(self)@,
    {
        self.hardware_hart.confidential_hart_mut().transition_from_started_to_suspended(request)
    }

    /// Stops the confidential hart. Fails, and changes nothing, where the hart
    /// is not started.
    pub fn stop_confidential_hart(&mut self) -> (result: Result<(), Error>)
        requires
            old(self).wf(),
        ensures
            final(self).wf(),
            result is Ok <==> old(self)@.confidential_hart.transition(LifecycleTransition::Stop)
                is Some,
            result is Ok ==> final(self)@ == (HardwareHartView {
                confidential_hart: old(self)@.confidential_hart.transition(
                    LifecycleTransition::Stop,
                )->0,
                ..old(self)@
            }),
            result matches Err(error) ==> error == Error::CannotStopNotStartedHart && final(self)@
                == old(self)@,
    {
        self.hardware_hart.confidential_hart_mut().transition_from_started_to_stopped()
    }

    /// Starts the suspended confidential hart again. Fails, and changes
    /// nothing, where the hart is not suspended.
    pub fn start_confidential_hart_after_suspend(&mut self) -> (result: Result<(), Error>)
        requires
            old(self).wf(),
        ensures
            final(self).wf(),
            result is Ok <==> old(self)@.confidential_hart.transition(LifecycleTransition::Resume)
                is Some,
            result is Ok ==> final(self)@ == (HardwareHartView {
                confidential_hart: ConfidentialHartView {
                    suspend_parameters: None,
                    ..old(self)@.confidential_hart.transition(LifecycleTransition::Resume)->0
                },
                ..old(self)@
            }),
            result matches Err(error) ==> error == Error::CannotStartNotSuspendedHart && final(self)@ == old(self)@,
    {
        self.hardware_hart.confidential_hart_mut().transition_from_suspended_to_started()
    }

    /// Shuts the confidential hart down, whatever state it is in.
    pub fn shutdown_confidential_hart(&mut self)
        requires
            old(self).wf(),
        ensures
            final(self).wf(),
            final(self)@ == (HardwareHartView {
                confidential_hart: ConfidentialHartView {
                    lifecycle_state: HartLifecycleState::Shutdown,
                    ..old(self)@.confidential_hart
                },
                ..old(self)@
            }),
    {
        self.hardware_hart.confidential_hart_mut().transition_to_shutdown();
    }

    /// The virtual machine of the confidential hart.
    pub fn confidential_vm_id(&self) -> (id: ConfidentialVmId)
        requires
            self.wf(),
        ensures
            Some(id) == self@.confidential_hart.confidential_vm_id,
    {
        self.hardware_hart.confidential_hart().confidential_vm_id().unwrap()
    }

    /// The identifier of the confidential hart within its virtual machine.
    pub fn confidential_hart_id(&self) -> (id: usize)
        ensures
            id == self@.confidential_hart.id,
    {
        self.hardware_hart.confidential_hart().confidential_hart_id()
    }

    /// Tells whether the confidential hart was shut down.
    pub fn is_confidential_hart_shutdown(&self) -> (shutdown: bool)
        ensures
            shutdown == (self@.confidential_hart.lifecycle_state == HartLifecycleState::Shutdown),
    {
        *self.hardware_hart.confidential_hart().lifecycle_state() == HartLifecycleState::Shutdown
    }

    /// Records that the confidential hart waits for the result of `request`.
    ///
    /// Where the hart already waits for a result there is nobody to report
    /// the failure to: the flow then ends at once, and what is returned as the
    /// error is the hardware hart as it leaves the monitor, with the failure
    /// as the result of the confidential hart's call.
    pub fn set_pending_request(self, request: PendingRequest) -> (result: Result<
        Self,
        HardwareHart,
    >)
        requires
            self.wf(),
        ensures
            result is Ok <==> self@.confidential_hart.pending_request is None,
            result matches Ok(flow) ==> flow.wf() && flow@ == (HardwareHartView {
                confidential_hart: ConfidentialHartView {
                    pending_request: Some(request),
                    ..self@.confidential_hart
                },
                ..self@
            }),
            result matches Err(hardware_hart) ==> hardware_hart@ == (HardwareHartView {
                confidential_hart: self@.confidential_hart.apply(
                    Error::PendingRequest.spec_into_confidential_transformation(),
                ),
                ..self@
            }),
    {
        let mut flow = self;
        match flow.hardware_hart.confidential_hart_mut().set_pending_request(request) {
            Ok(_) => Ok(flow),
            Err(error) => Err(
                flow.exit_to_confidential_hart(error.into_confidential_transformation()),
            ),
        }
    }
}

/// Applying a queue to which `request` was added last is applying the queue
/// and then `request`: requests take effect in the order in which they were
/// queued.
pub proof fn lemma_apply_requests_push(
    hart: ConfidentialHartView,
    requests: Seq<InterHartRequest>,
    request: InterHartRequest,
)
    ensures
        hart.apply_requests(requests.push(request)) == hart.apply_requests(requests).apply(
            request.spec_into_expose_to_confidential_vm(),
        ),
    decreases requests.len(),
{
    if requests.len() == 0 {
        assert(requests.push(request).skip(1) =~= Seq::empty());
        assert(hart.apply(request.spec_into_expose_to_confidential_vm()).apply_requests(
            Seq::empty(),
        ) == hart.apply(request.spec_into_expose_to_confidential_vm()));
    } else {
        assert(requests.push(request).skip(1) =~= requests.skip(1).push(request));
        lemma_apply_requests_push(
            hart.apply(requests[0].spec_into_expose_to_confidential_vm()),
            requests.skip(1),
            request,
        );
    }
}

/// Two requests that were broadcast one after the other, each carried through
/// with success, reach a hart that both select in that order: when the hart
/// drains its queue, it applies what was queued before, then the first
/// request, then the second, each once.
pub proof fn lemma_broadcasts_apply_in_order(
    vm: ConfidentialVmView,
    first: InterHartRequest,
    second: InterHartRequest,
    target: int,
    hart: ConfidentialHartView,
)
    requires
        vm.wf(),
        0 <= target < vm.confidential_harts.len(),
        first.spec_is_hart_selected(target as usize),
        second.spec_is_hart_selected(target as usize),
        vm.carried_through_result(first, 0) is Ok,
        vm.carried_through(first, 0).carried_through_result(second, 0) is Ok,
    ensures
        ({
            let before = vm.inter_hart_requests[target];
            let after = vm.carried_through(first, 0).carried_through(
                second,
                0,
            ).inter_hart_requests[target];
            &&& after == before.push(first).push(second)
            &&& hart.apply_requests(after) == hart.apply_requests(before).apply(
                first.spec_into_expose_to_confidential_vm(),
            ).apply(second.spec_into_expose_to_confidential_vm())
            &&& before.len() == 0 ==> hart.apply_requests(after) == hart.apply(
                first.spec_into_expose_to_confidential_vm(),
            ).apply(second.spec_into_expose_to_confidential_vm())
        }),
{
    let before = vm.inter_hart_requests[target];
    let middle = vm.carried_through(first, 0);
    vm.lemma_carried_through(first, 0);
    middle.lemma_carried_through(second, 0);
    assert(middle.inter_hart_requests[target] == before.push(first));
    lemma_apply_requests_push(hart, before, first);
    lemma_apply_requests_push(hart, before.push(first), second);
}

/// No transformation changes which hart a hart is: its identifier and its
/// virtual machine stay.
pub proof fn lemma_apply_keeps_identity(
    hart: ConfidentialHartView,
    transformation: ExposeToConfidentialVm,
)
    ensures
        hart.apply(transformation).id == hart.id,
        hart.apply(transformation).confidential_vm_id == hart.confidential_vm_id,
{
}

/// No queue of requests changes which hart a hart is, nor the request for
/// whose result it waits.
pub proof fn lemma_apply_requests_keeps_identity(
    hart: ConfidentialHartView,
    requests: Seq<InterHartRequest>,
)
    ensures
        hart.apply_requests(requests).id == hart.id,
        hart.apply_requests(requests).confidential_vm_id == hart.confidential_vm_id,
        hart.apply_requests(requests).pending_request == hart.pending_request,
    decreases requests.len(),
{
    if requests.len() > 0 {
        lemma_apply_requests_keeps_identity(
            hart.apply(requests[0].spec_into_expose_to_confidential_vm()),
            requests.skip(1),
        );
    }
}

} // verus!
