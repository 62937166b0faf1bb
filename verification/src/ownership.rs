//! The central safety property of the monitor: at every moment a confidential
//! hart is held either by its virtual machine or by exactly one hardware hart.
//!
//! A flow guard of the confidential flow exists for a hardware hart exactly
//! while that hardware hart holds a confidential hart. So the property says
//! that no two such guards ever exist for the same confidential hart.

use vstd::prelude::*;
use crate::confidential_hart::{ConfidentialHart, ConfidentialHartView};
use crate::confidential_vm::ConfidentialVmView;
use crate::confidential_vm_id::ConfidentialVmId;
use crate::control_data::{ControlData, ControlDataView};
use crate::hardware_hart::HardwareHartView;

verus! {

/// Whether `first` and `second` are the same confidential hart: a hart of the
/// same virtual machine with the same identifier.
pub open spec fn same_confidential_hart(
    first: ConfidentialHartView,
    second: ConfidentialHartView,
) -> bool {
    &&& !first.is_dummy()
    &&& first.confidential_vm_id == second.confidential_vm_id
    &&& first.id == second.id
}

/// Exclusive ownership over the registry `control_data` and the hardware harts
/// `hardware_harts` of the machine:
/// a confidential hart that a hardware hart holds has a place in a virtual
/// machine of the registry, that place holds a dummy, and no other hardware
/// hart holds the same confidential hart.
pub open spec fn exclusive_ownership(
    control_data: ControlDataView,
    hardware_harts: Seq<HardwareHartView>,
) -> bool {
    &&& forall|k: int|
        0 <= k < hardware_harts.len() && !(#[trigger] hardware_harts[k]).confidential_hart.is_dummy()
            ==> {
            let hart = hardware_harts[k].confidential_hart;
            &&& ControlData::spec_can_return(control_data, hardware_harts[k])
            &&& control_data.vm(hart.confidential_vm_id->0).is_hart_running(hart.id as int)
        }
    &&& forall|k: int, l: int|
        0 <= k < hardware_harts.len() && 0 <= l < hardware_harts.len() && k != l
            ==> !same_confidential_hart(
            (#[trigger] hardware_harts[k]).confidential_hart,
            (#[trigger] hardware_harts[l]).confidential_hart,
        )
}

/// The hardware hart `hardware_hart` with `confidential_hart` on it.
pub open spec fn with_confidential_hart(
    hardware_hart: HardwareHartView,
    confidential_hart: ConfidentialHartView,
) -> HardwareHartView {
    HardwareHartView { confidential_hart, ..hardware_hart }
}

/// While no hardware hart holds a confidential hart, ownership is exclusive,
/// whatever the registry holds.
pub proof fn lemma_exclusive_ownership_without_guards(
    control_data: ControlDataView,
    hardware_harts: Seq<HardwareHartView>,
)
    requires
        forall|k: int|
            0 <= k < hardware_harts.len() ==> (#[trigger] hardware_harts[k]).confidential_hart.is_dummy(),
    ensures
        exclusive_ownership(control_data, hardware_harts),
{
}

/// Entering the confidential flow keeps ownership exclusive: when the hardware
/// hart `k`, which holds none, takes the hart `confidential_hart_id` from the
/// virtual machine `confidential_vm_id`, which holds it, the hart is from then
/// on held by that hardware hart alone.
pub proof fn lemma_steal_keeps_exclusive_ownership(
    control_data: ControlDataView,
    hardware_harts: Seq<HardwareHartView>,
    k: int,
    confidential_vm_id: ConfidentialVmId,
    confidential_hart_id: int,
)
    requires
        control_data.wf(),
        exclusive_ownership(control_data, hardware_harts),
        0 <= k < hardware_harts.len(),
        hardware_harts[k].confidential_hart.is_dummy(),
        control_data.contains(confidential_vm_id),
        control_data.vm(confidential_vm_id).holds_hart(confidential_hart_id),
    ensures
        ({
            let vm = control_data.vm(confidential_vm_id);
            exclusive_ownership(
                control_data.with_vm(
                    confidential_vm_id,
                    vm.without_hart(confidential_hart_id, hardware_harts[k].id),
                ),
                hardware_harts.update(
                    k,
                    with_confidential_hart(
                        hardware_harts[k],
                        vm.confidential_harts[confidential_hart_id],
                    ),
                ),
            )
        }),
{
    let vm = control_data.vm(confidential_vm_id);
    let taken = vm.confidential_harts[confidential_hart_id];
    let vm_after = vm.without_hart(confidential_hart_id, hardware_harts[k].id);
    let after = control_data.with_vm(confidential_vm_id, vm_after);
    let harts_after = hardware_harts.update(k, with_confidential_hart(hardware_harts[k], taken));
    assert(control_data.confidential_vms.contains_key(confidential_vm_id.spec_usize()));
    assert(taken.id == confidential_hart_id && taken.confidential_vm_id == Some(vm.id));
    assert forall|l: int|
        0 <= l < harts_after.len() && !(#[trigger] harts_after[l]).confidential_hart.is_dummy() implies {
        let hart = harts_after[l].confidential_hart;
        &&& ControlData::spec_can_return(after, harts_after[l])
        &&& after.vm(hart.confidential_vm_id->0).is_hart_running(hart.id as int)
    } by {
        if l != k {
            assert(harts_after[l] == hardware_harts[l]);
            assert(ControlData::spec_can_return(control_data, hardware_harts[l]));
        }
    }
    assert forall|i: int, j: int|
        0 <= i < harts_after.len() && 0 <= j < harts_after.len() && i != j implies !same_confidential_hart(
        (#[trigger] harts_after[i]).confidential_hart,
        (#[trigger] harts_after[j]).confidential_hart,
    ) by {
        if i != k && j != k {
            assert(!same_confidential_hart(
                hardware_harts[i].confidential_hart,
                hardware_harts[j].confidential_hart,
            ));
        } else {
            let other = if i == k { j } else { i };
            assert(harts_after[other] == hardware_harts[other]);
            if !hardware_harts[other].confidential_hart.is_dummy() {
                assert(ControlData::spec_can_return(control_data, hardware_harts[other]));
            }
        }
    }
}

/// Leaving the confidential flow keeps ownership exclusive: when the hart that
/// the hardware hart `k` holds goes back to its virtual machine, the hardware
/// hart holds none, and the harts on the other hardware harts stay theirs
/// alone.
pub proof fn lemma_return_keeps_exclusive_ownership(
    control_data: ControlDataView,
    hardware_harts: Seq<HardwareHartView>,
    k: int,
)
    requires
        control_data.wf(),
        exclusive_ownership(control_data, hardware_harts),
        0 <= k < hardware_harts.len(),
        !hardware_harts[k].confidential_hart.is_dummy(),
    ensures
        exclusive_ownership(
            ControlData::spec_return(control_data, hardware_harts[k]),
            hardware_harts.update(
                k,
                with_confidential_hart(
                    hardware_harts[k],
                    ConfidentialHart::spec_dummy(hardware_harts[k].id),
                ),
            ),
        ),
        ControlData::spec_return(control_data, hardware_harts[k]).wf(),
{
    let returned = hardware_harts[k].confidential_hart;
    let id = returned.confidential_vm_id->0;
    let vm = control_data.vm(id);
    let vm_after = vm.with_hart(returned);
    let after = ControlData::spec_return(control_data, hardware_harts[k]);
    let harts_after = hardware_harts.update(
        k,
        with_confidential_hart(hardware_harts[k], ConfidentialHart::spec_dummy(hardware_harts[k].id)),
    );
    assert(ControlData::spec_can_return(control_data, hardware_harts[k]));
    assert(control_data.confidential_vms.contains_key(id.spec_usize()));
    id.lemma_number_names_the_id(vm.id);
    control_data.lemma_with_vm(id, vm_after);
    assert forall|l: int|
        0 <= l < harts_after.len() && !(#[trigger] harts_after[l]).confidential_hart.is_dummy() implies {
        let hart = harts_after[l].confidential_hart;
        &&& ControlData::spec_can_return(after, harts_after[l])
        &&& after.vm(hart.confidential_vm_id->0).is_hart_running(hart.id as int)
    } by {
        assert(l != k);
        assert(harts_after[l] == hardware_harts[l]);
        assert(ControlData::spec_can_return(control_data, hardware_harts[l]));
        assert(!same_confidential_hart(
            hardware_harts[l].confidential_hart,
            hardware_harts[k].confidential_hart,
        ));
        id.lemma_number_names_the_id(hardware_harts[l].confidential_hart.confidential_vm_id->0);
    }
    assert forall|i: int, j: int|
        0 <= i < harts_after.len() && 0 <= j < harts_after.len() && i != j implies !same_confidential_hart(
        (#[trigger] harts_after[i]).confidential_hart,
        (#[trigger] harts_after[j]).confidential_hart,
    ) by {
        if i != k && j != k {
            assert(!same_confidential_hart(
                hardware_harts[i].confidential_hart,
                hardware_harts[j].confidential_hart,
            ));
        }
    }
}

/// What a flow does to the confidential hart that it holds keeps ownership
/// exclusive, as long as the hart stays the hart it is: this covers every
/// transformation and every lifecycle transition.
pub proof fn lemma_change_of_held_hart_keeps_exclusive_ownership(
    control_data: ControlDataView,
    hardware_harts: Seq<HardwareHartView>,
    k: int,
    changed: HardwareHartView,
)
    requires
        exclusive_ownership(control_data, hardware_harts),
        0 <= k < hardware_harts.len(),
        changed.confidential_hart.confidential_vm_id
            == hardware_harts[k].confidential_hart.confidential_vm_id,
        changed.confidential_hart.id == hardware_harts[k].confidential_hart.id,
    ensures
        exclusive_ownership(control_data, hardware_harts.update(k, changed)),
{
    let harts_after = hardware_harts.update(k, changed);
    assert forall|l: int|
        0 <= l < harts_after.len() && !(#[trigger] harts_after[l]).confidential_hart.is_dummy() implies {
        let hart = harts_after[l].confidential_hart;
        &&& ControlData::spec_can_return(control_data, harts_after[l])
        &&& control_data.vm(hart.confidential_vm_id->0).is_hart_running(hart.id as int)
    } by {
        assert(ControlData::spec_can_return(control_data, hardware_harts[l]));
    }
    assert forall|i: int, j: int|
        0 <= i < harts_after.len() && 0 <= j < harts_after.len() && i != j implies !same_confidential_hart(
        (#[trigger] harts_after[i]).confidential_hart,
        (#[trigger] harts_after[j]).confidential_hart,
    ) by {
        assert(!same_confidential_hart(
            hardware_harts[i].confidential_hart,
            hardware_harts[j].confidential_hart,
        ));
    }
}

/// What happens within one virtual machine keeps ownership exclusive, as long
/// as the machine keeps its harts where they are: this covers a broadcast, the
/// draining of a queue and the mapping of a shared page.
pub proof fn lemma_change_within_vm_keeps_exclusive_ownership(
    control_data: ControlDataView,
    hardware_harts: Seq<HardwareHartView>,
    confidential_vm_id: ConfidentialVmId,
    changed: ConfidentialVmView,
)
    requires
        control_data.wf(),
        exclusive_ownership(control_data, hardware_harts),
        control_data.contains(confidential_vm_id),
        changed.wf(),
        changed.id == control_data.vm(confidential_vm_id).id,
        changed.confidential_harts == control_data.vm(confidential_vm_id).confidential_harts,
    ensures
        exclusive_ownership(control_data.with_vm(confidential_vm_id, changed), hardware_harts),
{
    let after = control_data.with_vm(confidential_vm_id, changed);
    assert(control_data.confidential_vms.contains_key(confidential_vm_id.spec_usize()));
    assert forall|l: int|
        0 <= l < hardware_harts.len() && !(#[trigger] hardware_harts[l]).confidential_hart.is_dummy() implies {
        let hart = hardware_harts[l].confidential_hart;
        &&& ControlData::spec_can_return(after, hardware_harts[l])
        &&& after.vm(hart.confidential_vm_id->0).is_hart_running(hart.id as int)
    } by {
        assert(ControlData::spec_can_return(control_data, hardware_harts[l]));
    }
}

/// A new virtual machine keeps ownership exclusive.
pub proof fn lemma_new_vm_keeps_exclusive_ownership(
    control_data: ControlDataView,
    hardware_harts: Seq<HardwareHartView>,
    vm: ConfidentialVmView,
)
    requires
        control_data.wf(),
        exclusive_ownership(control_data, hardware_harts),
        !control_data.contains(vm.id),
    ensures
        exclusive_ownership(control_data.with_vm(vm.id, vm), hardware_harts),
{
    let after = control_data.with_vm(vm.id, vm);
    assert forall|l: int|
        0 <= l < hardware_harts.len() && !(#[trigger] hardware_harts[l]).confidential_hart.is_dummy() implies {
        let hart = hardware_harts[l].confidential_hart;
        &&& ControlData::spec_can_return(after, hardware_harts[l])
        &&& after.vm(hart.confidential_vm_id->0).is_hart_running(hart.id as int)
    } by {
        assert(ControlData::spec_can_return(control_data, hardware_harts[l]));
    }
}

/// Taking a virtual machine out of the registry keeps ownership exclusive,
/// where the machine holds every one of its harts itself, which is where the
/// registry lets it go: no hardware hart holds a hart of that machine then.
pub proof fn lemma_removal_keeps_exclusive_ownership(
    control_data: ControlDataView,
    hardware_harts: Seq<HardwareHartView>,
    confidential_vm_id: ConfidentialVmId,
)
    requires
        control_data.wf(),
        exclusive_ownership(control_data, hardware_harts),
        control_data.contains(confidential_vm_id),
        control_data.vm(confidential_vm_id).holds_every_hart(),
    ensures
        forall|k: int|
            0 <= k < hardware_harts.len() ==> (
            #[trigger] hardware_harts[k]).confidential_hart.confidential_vm_id != Some(
                confidential_vm_id,
            ),
        exclusive_ownership(control_data.without_vm(confidential_vm_id), hardware_harts),
{
    let after = control_data.without_vm(confidential_vm_id);
    assert forall|k: int|
        0 <= k < hardware_harts.len() && !(#[trigger] hardware_harts[k]).confidential_hart.is_dummy() implies (
    hardware_harts[k].confidential_hart.confidential_vm_id->0).spec_usize()
        != confidential_vm_id.spec_usize() by {
        let hart = hardware_harts[k].confidential_hart;
        assert(ControlData::spec_can_return(control_data, hardware_harts[k]));
        if (hart.confidential_vm_id->0).spec_usize() == confidential_vm_id.spec_usize() {
            assert(control_data.vm(confidential_vm_id).is_hart_running(hart.id as int));
            assert(!control_data.vm(confidential_vm_id).confidential_harts[hart.id as int].is_dummy());
        }
    }
    assert forall|l: int|
        0 <= l < hardware_harts.len() && !(#[trigger] hardware_harts[l]).confidential_hart.is_dummy() implies {
        let hart = hardware_harts[l].confidential_hart;
        &&& ControlData::spec_can_return(after, hardware_harts[l])
        &&& after.vm(hart.confidential_vm_id->0).is_hart_running(hart.id as int)
    } by {
        assert(ControlData::spec_can_return(control_data, hardware_harts[l]));
    }
}

} // verus!
