//! The non-confidential flow: the phase of the monitor's state machine in
//! which a hardware hart runs the hypervisor.

use vstd::prelude::*;
use crate::confidential_flow::{ConfidentialFlow, ResumeRequest};
use crate::confidential_hart::ConfidentialHartView;
use crate::confidential_vm_id::ConfidentialVmId;
use crate::control_data::ControlData;
use crate::error::Error;
use crate::hardware_hart::{HardwareHart, HardwareHartView};
use crate::transformations::ExposeToHypervisor;

verus! {

/// Proof that a hardware hart runs no confidential hart. It owns the hardware
/// hart and is used up by the step that leaves the non-confidential flow.
#[derive(Debug)]
pub struct NonConfidentialFlow {
    hardware_hart: HardwareHart,
}

impl View for NonConfidentialFlow {
    type V = HardwareHartView;

    closed spec fn view(&self) -> HardwareHartView {
        self.hardware_hart@
    }
}

impl NonConfidentialFlow {
    /// The hardware hart holds a dummy.
    pub open spec fn wf(&self) -> bool {
        self@.confidential_hart.is_dummy()
    }

    /// Enters the non-confidential flow on a hardware hart that runs no
    /// confidential hart.
    pub fn create(hardware_hart: HardwareHart) -> (flow: Self)
        requires
            hardware_hart@.confidential_hart.is_dummy(),
        ensures
            flow@ == hardware_hart@,
            flow.wf(),
    {
        Self { hardware_hart }
    }

    /// Moves to the confidential flow: the hardware hart takes the hart
    /// `confidential_hart_id` of the virtual machine `confidential_vm_id` from
    /// the registry.
    ///
    /// Fails where there is no such hart or a hardware hart already runs it.
    /// Nothing has changed then, and the non-confidential flow goes on.
    pub fn into_confidential_flow(
        self,
        control_data: &mut ControlData,
        confidential_vm_id: ConfidentialVmId,
        confidential_hart_id: usize,
    ) -> (result: Result<ConfidentialFlow, (NonConfidentialFlow, Error)>)
        requires
            self.wf(),
            old(control_data).wf(),
        ensures
            final(control_data).wf(),
            result is Ok <==> old(control_data)@.contains(confidential_vm_id) && old(
                control_data
            )@.vm(confidential_vm_id).holds_hart(confidential_hart_id as int),
            result matches Ok(flow) ==> {
                let vm = old(control_data)@.vm(confidential_vm_id);
                &&& final(control_data)@ == old(control_data)@.with_vm(
                    confidential_vm_id,
                    vm.without_hart(confidential_hart_id as int, self@.id),
                )
                &&& flow@ == (HardwareHartView {
                    confidential_hart: vm.confidential_harts[confidential_hart_id as int],
                    ..self@
                })
                &&& flow.wf()
                &&& flow.is_registered(final(control_data)@)
            },
            result matches Err((flow, error)) ==> {
                &&& final(control_data)@ == old(control_data)@
                &&& flow@ == self@
                &&& error == if !old(control_data)@.contains(confidential_vm_id) {
                    Error::InvalidConfidentialVmId
                } else if confidential_hart_id >= old(control_data)@.vm(
                    confidential_vm_id,
                ).confidential_harts.len() {
                    Error::InvalidHartId
                } else {
                    Error::HartAlreadyRunning
                }
            },
    {
        let mut hardware_hart = self.hardware_hart;
        match control_data.steal_confidential_hart(
            confidential_vm_id,
            confidential_hart_id,
            &mut hardware_hart,
        ) {
            Ok(_) => {
                Ok(ConfidentialFlow::create(hardware_hart))
            },
            Err(error) => Err((Self { hardware_hart }, error)),
        }
    }

    /// Serves the hypervisor's request to run the hart `confidential_hart_id`
    /// of the virtual machine `confidential_vm_id`: moves to the confidential
    /// flow, applies the requests that other harts queued for the hart, oldest
    /// first, and selects the handler that finishes the request for whose
    /// result the hart waited.
    ///
    /// Fails where there is no such hart or a hardware hart already runs it.
    /// Nothing has changed then, and the non-confidential flow goes on.
    pub fn resume_confidential_hart(
        self,
        control_data: &mut ControlData,
        confidential_vm_id: ConfidentialVmId,
        confidential_hart_id: usize,
    ) -> (result: Result<(ConfidentialFlow, ResumeRequest), (NonConfidentialFlow, Error)>)
        requires
            self.wf(),
            old(control_data).wf(),
        ensures
            final(control_data).wf(),
            result is Ok <==> old(control_data)@.contains(confidential_vm_id) && old(
                control_data
            )@.vm(confidential_vm_id).holds_hart(confidential_hart_id as int),
            result matches Ok((flow, request)) ==> {
                let vm = old(control_data)@.vm(confidential_vm_id);
                let hart = vm.confidential_harts[confidential_hart_id as int];
                let requests = vm.inter_hart_requests[confidential_hart_id as int];
                let parked = vm.without_hart(confidential_hart_id as int, self@.id).without_requests(
                    confidential_hart_id as int,
                );
                &&& final(control_data)@ == old(control_data)@.with_vm(confidential_vm_id, parked)
                &&& final(control_data)@.vm(confidential_vm_id) == parked
                &&& flow@ == (HardwareHartView {
                    confidential_hart: ConfidentialHartView {
                        pending_request: None,
                        ..hart.apply_requests(requests)
                    },
                    ..self@
                })
                &&& flow.wf()
                &&& flow.is_registered(final(control_data)@)
                &&& request == ResumeRequest::spec_resolve(
                    hart.apply_requests(requests).pending_request,
                    self@.non_confidential_hart_state,
                )
            },
            result matches Err((flow, error)) ==> {
                &&& final(control_data)@ == old(control_data)@
                &&& flow@ == self@
                &&& error == if !old(control_data)@.contains(confidential_vm_id) {
                    Error::InvalidConfidentialVmId
                } else if confidential_hart_id >= old(control_data)@.vm(
                    confidential_vm_id,
                ).confidential_harts.len() {
                    Error::InvalidHartId
                } else {
                    Error::HartAlreadyRunning
                }
            },
    {
        match self.into_confidential_flow(control_data, confidential_vm_id, confidential_hart_id) {
            Ok(flow) => {
                proof {
                    let before = old(control_data)@;
                    let vm = before.vm(confidential_vm_id);
                    let taken = vm.without_hart(confidential_hart_id as int, self@.id);
                    before.lemma_with_vm_twice(
                        confidential_vm_id,
                        taken,
                        taken.without_requests(confidential_hart_id as int),
                    );
                }
                Ok(
                    ConfidentialFlow::resume_confidential_hart_execution(
                        flow.into_hardware_hart(),
                        control_data,
                    ),
                )
            },
            Err((flow, error)) => Err((flow, error)),
        }
    }

    /// Applies `transformation` to the registers of the hypervisor's hart and
    /// leaves the monitor: what is returned is the hardware hart as the
    /// context switch takes it over to run the hypervisor.
    pub fn exit_to_hypervisor(self, transformation: ExposeToHypervisor) -> (hardware_hart:
        HardwareHart)
        ensures
            hardware_hart@ == self@.apply(transformation),
    {
        let mut hardware_hart = self.hardware_hart;
        hardware_hart.apply(transformation);
        hardware_hart
    }
}

} // verus!
