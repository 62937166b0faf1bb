//! Turns a virtual machine of the hypervisor into a confidential one.

use vstd::prelude::*;
use crate::architecture::{HartArchitecturalState, HartLifecycleState};
use crate::confidential_hart::{ConfidentialHart, ConfidentialHartView};
use crate::confidential_vm::{
    ConfidentialVm, ConfidentialVmMeasurement, ConfidentialVmView, NUMBER_OF_MEASUREMENTS,
};
use crate::confidential_vm_id::ConfidentialVmId;
use crate::control_data::{ControlData, ControlDataView, MAX_NUMBER_OF_CONFIDENTIAL_VMS};
use crate::error::Error;
use crate::hardware_hart::HardwareHart;
use crate::memory_layout::MemoryLayout;
use crate::memory_protector::{ConfidentialVmMemoryProtector, ConfidentialVmMemoryProtectorView};
use crate::non_confidential_flow::NonConfidentialFlow;
use crate::transformations::{
    ConvertToConfidentialVm, ExposeToHypervisor, InterHartRequest, SbiRequest,
};

verus! {

/// The hart with which a new confidential virtual machine boots.
pub const BOOT_HART_ID: usize = 0;

/// Number of harts of a new confidential virtual machine.
pub const NUMBER_OF_CONFIDENTIAL_HARTS: usize = 2;

/// The hart `confidential_hart_id` of a virtual machine that boots with the
/// registers `boot_state`, before it belongs to a virtual machine: the boot
/// hart is started and holds those registers, every other hart is stopped and
/// holds zero in every register.
pub open spec fn spec_unassigned_hart(
    confidential_hart_id: usize,
    boot_state: HartArchitecturalState,
) -> ConfidentialHartView {
    if confidential_hart_id == BOOT_HART_ID {
        ConfidentialHartView {
            id: confidential_hart_id,
            confidential_vm_id: None,
            lifecycle_state: HartLifecycleState::Started,
            state: boot_state,
            pending_request: None,
            suspend_parameters: None,
        }
    } else {
        ConfidentialHart::spec_dummy(confidential_hart_id)
    }
}

/// The hart `confidential_hart_id` of the new virtual machine
/// `confidential_vm_id` that boots with the registers `boot_state`.
pub open spec fn spec_initial_hart(
    confidential_vm_id: ConfidentialVmId,
    confidential_hart_id: usize,
    boot_state: HartArchitecturalState,
) -> ConfidentialHartView {
    ConfidentialHartView {
        confidential_vm_id: Some(confidential_vm_id),
        ..spec_unassigned_hart(confidential_hart_id, boot_state)
    }
}

/// Whether `vm` is the virtual machine `confidential_vm_id` as it is right
/// after its creation from the registers `boot_state`.
pub open spec fn spec_is_new_vm(
    vm: ConfidentialVmView,
    confidential_vm_id: ConfidentialVmId,
    boot_state: HartArchitecturalState,
) -> bool {
    &&& vm.id == confidential_vm_id
    &&& vm.confidential_harts == Seq::new(
        NUMBER_OF_CONFIDENTIAL_HARTS as nat,
        |i: int| spec_initial_hart(confidential_vm_id, i as usize, boot_state),
    )
    &&& vm.inter_hart_requests == Seq::new(
        NUMBER_OF_CONFIDENTIAL_HARTS as nat,
        |i: int| Seq::<InterHartRequest>::empty(),
    )
    &&& vm.memory_protector == (ConfidentialVmMemoryProtectorView {
        hgatp: boot_state.hgatp,
        shared_pages: Seq::empty(),
    })
    &&& vm.measurements.len() == NUMBER_OF_MEASUREMENTS
    &&& forall|i: int|
        0 <= i < vm.measurements.len() ==> (#[trigger] vm.measurements[i]).value@ == Seq::new(
            32,
            |j: int| 0u8,
        )
}

/// Whether a virtual machine that boots with `boot_state` can be created in
/// the registry `control_data`: its address translation is valid, and an
/// identifier is free. The machine then gets the least free number as its
/// identifier.
pub open spec fn spec_can_create(
    control_data: ControlDataView,
    boot_state: HartArchitecturalState,
    memory_layout: MemoryLayout,
) -> bool {
    &&& ConfidentialVmMemoryProtector::spec_is_valid(boot_state.hgatp, memory_layout)
    &&& exists|number: usize|
        number < MAX_NUMBER_OF_CONFIDENTIAL_VMS && !#[trigger] control_data.is_number_used(number)
}

/// The reason for which such a virtual machine cannot be created.
pub open spec fn spec_creation_error(
    boot_state: HartArchitecturalState,
    memory_layout: MemoryLayout,
) -> Error {
    if !ConfidentialVmMemoryProtector::spec_is_valid(boot_state.hgatp, memory_layout) {
        Error::InvalidMemoryLayout
    } else {
        Error::TooManyConfidentialVms
    }
}

/// What the hypervisor finds after a conversion that ended with `result`: on
/// success a call that registers the new virtual machine and its boot hart, on
/// failure the error as the result of its own call.
pub open spec fn spec_expose_to_hypervisor(result: Result<ConfidentialVmId, Error>) -> ExposeToHypervisor {
    match result {
        Ok(id) => ExposeToHypervisor::SbiRequest(SbiRequest::spec_kvm_ace_register(id, BOOT_HART_ID)),
        Err(error) => error.spec_into_non_confidential_transformation(),
    }
}

/// What a new confidential virtual machine is made of, before the registry
/// gave it an identifier: its harts, room for its measurements and its memory
/// protector.
#[derive(Debug)]
pub struct NewConfidentialVm {
    confidential_harts: Vec<ConfidentialHart>,
    measurements: [ConfidentialVmMeasurement; 4],
    memory_protector: ConfidentialVmMemoryProtector,
}

impl NewConfidentialVm {
    /// The registers with which the boot hart starts.
    pub closed spec fn spec_boot_state(&self) -> HartArchitecturalState {
        self.confidential_harts@[BOOT_HART_ID as int]@.state
    }

    /// The parts are those of a virtual machine that boots with
    /// `spec_boot_state`: the boot hart started with those registers, every
    /// other hart stopped with zero in every register, no measurement taken,
    /// and a memory protector without shared pages.
    pub closed spec fn wf(&self) -> bool {
        &&& self.confidential_harts.len() == NUMBER_OF_CONFIDENTIAL_HARTS
        &&& forall|j: int|
            0 <= j < self.confidential_harts.len() ==> (#[trigger] self.confidential_harts[j])@
                == spec_unassigned_hart(j as usize, self.spec_boot_state())
        &&& self.memory_protector@ == (ConfidentialVmMemoryProtectorView {
            hgatp: self.spec_boot_state().hgatp,
            shared_pages: Seq::empty(),
        })
        &&& forall|i: int|
            0 <= i < self.measurements@.len() ==> (#[trigger] self.measurements@[i]).value@
                == Seq::new(32, |j: int| 0u8)
    }
}

/// Serves the hypervisor's request to convert a virtual machine, and leaves
/// the monitor towards the hypervisor.
///
/// On success the hypervisor finds a call that registers the new virtual
/// machine and its boot hart. On failure it finds the error as the result of
/// its own call, and the registry is as it was.
pub fn handle(
    convert_to_confidential_vm_request: ConvertToConfidentialVm,
    non_confidential_flow: NonConfidentialFlow,
    control_data: &mut ControlData,
    memory_layout: &MemoryLayout,
) -> (hardware_hart: HardwareHart)
    requires
        old(control_data).wf(),
    ensures
        final(control_data).wf(),
        ({
            let boot_state = convert_to_confidential_vm_request.hart_state;
            let before = old(control_data)@;
            let after = final(control_data)@;
            &&& spec_can_create(before, boot_state, *memory_layout) ==> {
                let number = before.least_free_number();
                let id = after.confidential_vms[number].id;
                &&& id.spec_usize() == number
                &&& !before.contains(id)
                &&& after == before.with_vm(id, after.vm(id))
                &&& spec_is_new_vm(after.vm(id), id, boot_state)
                &&& hardware_hart@ == non_confidential_flow@.apply(
                    spec_expose_to_hypervisor(Ok(id)),
                )
            }
            &&& !spec_can_create(before, boot_state, *memory_layout) ==> {
                &&& after == before
                &&& hardware_hart@ == non_confidential_flow@.apply(
                    spec_expose_to_hypervisor(
                        Err(spec_creation_error(boot_state, *memory_layout)),
                    ),
                )
            }
        }),
{
    let result = create_confidential_vm(
        convert_to_confidential_vm_request,
        control_data,
        memory_layout,
    );
    non_confidential_flow.exit_to_hypervisor(expose_to_hypervisor(result))
}

/// Turns the result of a conversion into what the hypervisor finds of it.
pub fn expose_to_hypervisor(result: Result<ConfidentialVmId, Error>) -> (transformation:
    ExposeToHypervisor)
    ensures
        transformation == spec_expose_to_hypervisor(result),
{
    match result {
        Ok(id) => ExposeToHypervisor::SbiRequest(SbiRequest::kvm_ace_register(id, BOOT_HART_ID)),
        Err(error) => error.into_non_confidential_transformation(),
    }
}

/// Creates a confidential virtual machine that boots with the state of the
/// request, and puts it into the registry under a fresh identifier.
///
/// Fails, and changes nothing, where the address translation that the
/// hypervisor configured is not valid, or where no identifier is free.
pub fn create_confidential_vm(
    convert_to_confidential_vm_request: ConvertToConfidentialVm,
    control_data: &mut ControlData,
    memory_layout: &MemoryLayout,
) -> (result: Result<ConfidentialVmId, Error>)
    requires
        old(control_data).wf(),
    ensures
        final(control_data).wf(),
        ({
            let boot_state = convert_to_confidential_vm_request.hart_state;
            let before = old(control_data)@;
            let after = final(control_data)@;
            &&& result is Ok <==> spec_can_create(before, boot_state, *memory_layout)
            &&& result matches Ok(id) ==> {
                &&& !before.contains(id)
                &&& before.is_least_free_number(id.spec_usize())
                &&& id.spec_usize() == before.least_free_number()
                &&& after == before.with_vm(id, after.vm(id))
                &&& after.contains(id)
                &&& spec_is_new_vm(after.vm(id), id, boot_state)
            }
            &&& result matches Err(error) ==> {
                &&& after == before
                &&& error == spec_creation_error(boot_state, *memory_layout)
            }
        }),
{
    match prepare_confidential_vm(convert_to_confidential_vm_request, memory_layout) {
        Ok(new_vm) => register_confidential_vm(new_vm, control_data),
        Err(error) => Err(error),
    }
}

/// Builds everything of a confidential virtual machine that boots with the
/// state of the request, but for its identifier. This needs no registry, so
/// that no other core waits meanwhile.
///
/// Fails where the address translation that the hypervisor configured is not
/// valid.
pub fn prepare_confidential_vm(
    convert_to_confidential_vm_request: ConvertToConfidentialVm,
    memory_layout: &MemoryLayout,
) -> (result: Result<NewConfidentialVm, Error>)
    ensures
        result is Ok <==> ConfidentialVmMemoryProtector::spec_is_valid(
            convert_to_confidential_vm_request.hart_state.hgatp,
            *memory_layout,
        ),
        result matches Ok(new_vm) ==> new_vm.wf() && new_vm.spec_boot_state()
            == convert_to_confidential_vm_request.hart_state,
        result matches Err(error) ==> error == Error::InvalidMemoryLayout,
{
    let hart_state = convert_to_confidential_vm_request.into();
    let memory_protector = match ConfidentialVmMemoryProtector::from_vm_state(
        &hart_state,
        memory_layout,
    ) {
        Ok(memory_protector) => memory_protector,
        Err(error) => {
            return Err(error);
        },
    };
    let mut confidential_harts: Vec<ConfidentialHart> = Vec::new();
    let mut confidential_hart_id: usize = 0;
    while confidential_hart_id < NUMBER_OF_CONFIDENTIAL_HARTS
        invariant
            confidential_hart_id <= NUMBER_OF_CONFIDENTIAL_HARTS,
            confidential_harts.len() == confidential_hart_id,
            forall|j: int|
                0 <= j < confidential_hart_id ==> (#[trigger] confidential_harts[j])@
                    == spec_unassigned_hart(j as usize, hart_state),
        decreases NUMBER_OF_CONFIDENTIAL_HARTS - confidential_hart_id,
    {
        let confidential_hart = if confidential_hart_id == BOOT_HART_ID {
            ConfidentialHart::from_vm_hart(confidential_hart_id, &hart_state)
        } else {
            ConfidentialHart::from_vm_hart_reset(confidential_hart_id)
        };
        confidential_harts.push(confidential_hart);
        confidential_hart_id = confidential_hart_id + 1;
    }
    let measurements = [ConfidentialVmMeasurement::empty();4];
    let new_vm = NewConfidentialVm { confidential_harts, measurements, memory_protector };
    proof {
        assert(new_vm.confidential_harts@[BOOT_HART_ID as int]@ == spec_unassigned_hart(
            BOOT_HART_ID,
            hart_state,
        ));
    }
    Ok(new_vm)
}

/// Gives `new_vm` a fresh identifier and puts it into the registry. This is
/// all of a conversion that needs the registry.
///
/// Fails, and changes nothing, where no identifier is free.
pub fn register_confidential_vm(new_vm: NewConfidentialVm, control_data: &mut ControlData) -> (result:
    Result<ConfidentialVmId, Error>)
    requires
        new_vm.wf(),
        old(control_data).wf(),
    ensures
        final(control_data).wf(),
        ({
            let before = old(control_data)@;
            let after = final(control_data)@;
            &&& result is Ok <==> exists|number: usize|
                number < MAX_NUMBER_OF_CONFIDENTIAL_VMS && !#[trigger] before.is_number_used(number)
            &&& result matches Ok(id) ==> {
                &&& !before.contains(id)
                &&& before.is_least_free_number(id.spec_usize())
                &&& id.spec_usize() == before.least_free_number()
                &&& after == before.with_vm(id, after.vm(id))
                &&& after.contains(id)
                &&& spec_is_new_vm(after.vm(id), id, new_vm.spec_boot_state())
            }
            &&& result matches Err(error) ==> {
                &&& after == before
                &&& error == Error::TooManyConfidentialVms
            }
        }),
{
    let id = match control_data.unique_id() {
        Ok(id) => id,
        Err(error) => {
            return Err(error);
        },
    };
    let ghost boot_state = new_vm.spec_boot_state();
    let confidential_vm = ConfidentialVm::new(
        id,
        new_vm.confidential_harts,
        new_vm.measurements,
        new_vm.memory_protector,
    );
    proof {
        assert(confidential_vm@.confidential_harts =~= Seq::new(
            NUMBER_OF_CONFIDENTIAL_HARTS as nat,
            |i: int| spec_initial_hart(id, i as usize, boot_state),
        ));
    }
    control_data.insert_confidential_vm(confidential_vm)
}

} // verus!
