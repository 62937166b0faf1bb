//! The registry of confidential virtual machines: the one piece of state that
//! every hardware hart reaches.

use vstd::prelude::*;
use std::collections::BTreeMap;
use crate::architecture::HartLifecycleState;
use crate::confidential_hart::ConfidentialHart;
use crate::confidential_vm::{ConfidentialVm, ConfidentialVmView, InterHartBroadcastStep};
use crate::confidential_vm_id::ConfidentialVmId;
use crate::error::Error;
use crate::hardware_hart::{HardwareHart, HardwareHartView};
use crate::shared_page::SharedPage;
use crate::transformations::InterHartRequest;

verus! {

/// The identifiers of confidential virtual machines are the numbers below this
/// one.
pub const MAX_NUMBER_OF_CONFIDENTIAL_VMS: usize = 1024;

/// What the registry holds, as contracts speak of it.
pub struct ControlDataView {
    /// The virtual machines, each under the number of its identifier.
    pub confidential_vms: Map<usize, ConfidentialVmView>,
}

impl ControlDataView {
    /// Every virtual machine is well-formed and stands under the number of its
    /// own identifier, so that no two have the same identifier.
    pub open spec fn wf(self) -> bool {
        &&& self.confidential_vms.dom().finite()
        &&& forall|number: usize| #[trigger]
            self.confidential_vms.contains_key(number) ==> {
                &&& self.confidential_vms[number].wf()
                &&& self.confidential_vms[number].id.spec_usize() == number
            }
    }

    /// Whether the registry holds a virtual machine with the identifier `id`.
    pub open spec fn contains(self, id: ConfidentialVmId) -> bool {
        self.confidential_vms.contains_key(id.spec_usize())
    }

    /// Whether a virtual machine of the registry has the number `number` as
    /// its identifier.
    pub open spec fn is_number_used(self, number: usize) -> bool {
        self.confidential_vms.contains_key(number)
    }

    /// Whether `number` is the least number that no virtual machine of the
    /// registry has as its identifier.
    pub open spec fn is_least_free_number(self, number: usize) -> bool {
        &&& number < MAX_NUMBER_OF_CONFIDENTIAL_VMS
        &&& !self.is_number_used(number)
        &&& forall|smaller: usize| smaller < number ==> #[trigger] self.is_number_used(smaller)
    }

    /// The least number that no virtual machine of the registry has as its
    /// identifier, where there is one below
    /// `MAX_NUMBER_OF_CONFIDENTIAL_VMS`.
    pub open spec fn least_free_number(self) -> usize {
        choose|number: usize| self.is_least_free_number(number)
    }

    /// The virtual machine `id`.
    pub open spec fn vm(self, id: ConfidentialVmId) -> ConfidentialVmView {
        self.confidential_vms[id.spec_usize()]
    }

    /// The registry with `vm` under the identifier `id`.
    pub open spec fn with_vm(self, id: ConfidentialVmId, vm: ConfidentialVmView) -> ControlDataView {
        ControlDataView { confidential_vms: self.confidential_vms.insert(id.spec_usize(), vm) }
    }

    /// The registry without the virtual machine `id`.
    pub open spec fn without_vm(self, id: ConfidentialVmId) -> ControlDataView {
        ControlDataView { confidential_vms: self.confidential_vms.remove(id.spec_usize()) }
    }

    /// There is at most one least free number.
    pub proof fn lemma_least_free_number(self, number: usize)
        requires
            self.is_least_free_number(number),
        ensures
            self.least_free_number() == number,
    {
        let chosen = self.least_free_number();
        assert(self.is_least_free_number(chosen));
        if chosen < number {
            assert(self.is_number_used(chosen));
        }
        if number < chosen {
            assert(self.is_number_used(number));
        }
    }

    /// Putting a machine in the place of one with the same identifier, and
    /// then another, is putting the last one there.
    pub proof fn lemma_with_vm_twice(
        self,
        id: ConfidentialVmId,
        first: ConfidentialVmView,
        second: ConfidentialVmView,
    )
        ensures
            self.with_vm(id, first).with_vm(id, second) == self.with_vm(id, second),
    {
        assert(self.with_vm(id, first).with_vm(id, second).confidential_vms =~= self.with_vm(
            id,
            second,
        ).confidential_vms);
    }

    /// Putting a well-formed machine in the place of one with the same
    /// identifier keeps the registry well-formed, and the machine is found
    /// under that identifier. The other machines stay where they are.
    pub proof fn lemma_with_vm(self, id: ConfidentialVmId, vm: ConfidentialVmView)
        requires
            self.wf(),
            vm.wf(),
            vm.id.spec_usize() == id.spec_usize(),
        ensures
            self.with_vm(id, vm).wf(),
            self.with_vm(id, vm).contains(id),
            self.with_vm(id, vm).vm(id) == vm,
            forall|other: ConfidentialVmId|
                other.spec_usize() != id.spec_usize() ==> #[trigger] self.with_vm(id, vm).contains(
                    other,
                ) == self.contains(other),
            forall|other: ConfidentialVmId|
                other.spec_usize() != id.spec_usize() ==> #[trigger] self.with_vm(id, vm).vm(other)
                    == self.vm(other),
    {
        let after = self.with_vm(id, vm);
        assert(after.confidential_vms.dom() =~= self.confidential_vms.dom().insert(
            id.spec_usize(),
        ));
        assert forall|number: usize| #[trigger]
            after.confidential_vms.contains_key(number) implies {
            &&& after.confidential_vms[number].wf()
            &&& after.confidential_vms[number].id.spec_usize() == number
        } by {
            if number != id.spec_usize() {
                assert(self.confidential_vms.contains_key(number));
            }
        }
    }
}

/// Holds every confidential virtual machine under its identifier.
#[derive(Debug)]
pub struct ControlData {
    confidential_vms: BTreeMap<usize, ConfidentialVm>,
}

impl View for ControlData {
    type V = ControlDataView;

    closed spec fn view(&self) -> ControlDataView {
        ControlDataView {
            confidential_vms: Map::new(
                |number: usize| self.confidential_vms@.contains_key(number),
                |number: usize| self.confidential_vms@[number]@,
            ),
        }
    }
}

impl ControlData {
    /// The invariant of the registry.
    pub open spec fn wf(&self) -> bool {
        self@.wf()
    }

    /// The registry without any virtual machine.
    pub fn new() -> (control_data: Self)
        ensures
            control_data@.confidential_vms == Map::<usize, ConfidentialVmView>::empty(),
            control_data.wf(),
    {
        let control_data = Self { confidential_vms: BTreeMap::new() };
        proof {
            assert(control_data@.confidential_vms =~= Map::<usize, ConfidentialVmView>::empty());
        }
        control_data
    }

    /// Number of virtual machines in the registry.
    pub fn number_of_confidential_vms(&self) -> (number: usize)
        ensures
            number == self@.confidential_vms.dom().len(),
    {
        broadcast use vstd::std_specs::btree::group_btree_axioms;

        let number = self.confidential_vms.len();
        proof {
            assert(self@.confidential_vms.dom() =~= self.confidential_vms@.dom());
        }
        number
    }

    /// Tells whether the registry holds a virtual machine `id`.
    pub fn contains(&self, id: ConfidentialVmId) -> (found: bool)
        ensures
            found == self@.contains(id),
    {
        broadcast use vstd::std_specs::btree::group_btree_axioms;

        let number = id.usize();
        self.confidential_vms.contains_key(&number)
    }

    /// The virtual machine `id`, to read it.
    pub fn confidential_vm(&self, id: ConfidentialVmId) -> (vm: Option<&ConfidentialVm>)
        ensures
            vm is Some <==> self@.contains(id),
            vm matches Some(vm) ==> vm@ == self@.vm(id),
    {
        broadcast use vstd::std_specs::btree::group_btree_axioms;

        let number = id.usize();
        self.confidential_vms.get(&number)
    }

    /// The lifecycle state of the hart `confidential_hart_id` of the virtual
    /// machine `confidential_vm_id`. A hart that a hardware hart runs counts
    /// as started. Fails where there is no such hart.
    pub fn confidential_hart_lifecycle_state(
        &self,
        confidential_vm_id: ConfidentialVmId,
        confidential_hart_id: usize,
    ) -> (result: Result<HartLifecycleState, Error>)
        ensures
            result is Ok <==> self@.contains(confidential_vm_id) && confidential_hart_id < self@.vm(
                confidential_vm_id,
            ).confidential_harts.len(),
            result matches Ok(state) ==> {
                let hart = self@.vm(confidential_vm_id).confidential_harts[confidential_hart_id as int];
                state == if hart.is_dummy() {
                    HartLifecycleState::Started
                } else {
                    hart.lifecycle_state
                }
            },
            result matches Err(error) ==> error == if !self@.contains(confidential_vm_id) {
                Error::InvalidConfidentialVmId
            } else {
                Error::InvalidHartId
            },
    {
        match self.confidential_vm(confidential_vm_id) {
            None => Err(Error::InvalidConfidentialVmId),
            Some(vm) => match vm.confidential_hart(confidential_hart_id) {
                None => Err(Error::InvalidHartId),
                Some(hart) => if hart.is_dummy() {
                    Ok(HartLifecycleState::Started)
                } else {
                    Ok(*hart.lifecycle_state())
                },
            },
        }
    }

    /// An identifier that no virtual machine of the registry has: the least
    /// number that is free. Fails where every number below
    /// `MAX_NUMBER_OF_CONFIDENTIAL_VMS` is taken.
    pub fn unique_id(&self) -> (result: Result<ConfidentialVmId, Error>)
        ensures
            result is Ok <==> exists|number: usize|
                number < MAX_NUMBER_OF_CONFIDENTIAL_VMS && !#[trigger] self@.is_number_used(number),
            result matches Ok(id) ==> {
                &&& self@.is_least_free_number(id.spec_usize())
                &&& id.spec_usize() == self@.least_free_number()
                &&& !self@.contains(id)
            },
            result matches Err(error) ==> error == Error::TooManyConfidentialVms,
    {
        broadcast use vstd::std_specs::btree::group_btree_axioms;

        let mut candidate: usize = 0;
        while candidate < MAX_NUMBER_OF_CONFIDENTIAL_VMS
            invariant
                candidate <= MAX_NUMBER_OF_CONFIDENTIAL_VMS,
                forall|number: usize| number < candidate ==> #[trigger] self@.is_number_used(number),
            decreases MAX_NUMBER_OF_CONFIDENTIAL_VMS - candidate,
        {
            if !self.confidential_vms.contains_key(&candidate) {
                let id = ConfidentialVmId::new(candidate);
                proof {
                    self@.lemma_least_free_number(candidate);
                }
                return Ok(id);
            }
            candidate = candidate + 1;
        }
        Err(Error::TooManyConfidentialVms)
    }

    /// Puts `confidential_vm` into the registry and returns its identifier.
    /// Fails, and changes nothing, where the registry already holds a virtual
    /// machine with that identifier.
    pub fn insert_confidential_vm(&mut self, confidential_vm: ConfidentialVm) -> (result: Result<
        ConfidentialVmId,
        Error,
    >)
        requires
            old(self).wf(),
            confidential_vm.wf(),
        ensures
            final(self).wf(),
            result is Ok <==> !old(self)@.contains(confidential_vm@.id),
            result matches Ok(id) ==> {
                &&& id == confidential_vm@.id
                &&& final(self)@ == old(self)@.with_vm(id, confidential_vm@)
                &&& final(self)@.contains(id)
                &&& final(self)@.vm(id) == confidential_vm@
            },
            result matches Err(error) ==> error == Error::InvalidConfidentialVmId && final(self)@
                == old(self)@,
    {
        broadcast use vstd::std_specs::btree::group_btree_axioms;

        let id = confidential_vm.confidential_vm_id();
        let number = id.usize();
        if self.confidential_vms.contains_key(&number) {
            return Err(Error::InvalidConfidentialVmId);
        }
        self.confidential_vms.insert(number, confidential_vm);
        proof {
            assert(self@.confidential_vms =~= old(self)@.with_vm(id, confidential_vm@).confidential_vms);
            old(self)@.lemma_with_vm(id, confidential_vm@);
        }
        Ok(id)
    }

    /// Takes the virtual machine `id` out of the registry, with everything
    /// that it owns: all its harts and its memory protector.
    ///
    /// Fails, and changes nothing, where there is no such virtual machine, or
    /// where a hardware hart runs one of its harts: a machine leaves the
    /// registry only with every hart that belongs to it.
    pub fn remove_confidential_vm(&mut self, id: ConfidentialVmId) -> (result: Result<
        ConfidentialVm,
        Error,
    >)
        requires
            old(self).wf(),
        ensures
            final(self).wf(),
            result is Ok <==> old(self)@.contains(id) && old(self)@.vm(id).holds_every_hart(),
            result matches Ok(vm) ==> {
                &&& vm@ == old(self)@.vm(id)
                &&& vm.wf()
                &&& final(self)@ == old(self)@.without_vm(id)
                &&& !final(self)@.contains(id)
            },
            result matches Err(error) ==> {
                &&& final(self)@ == old(self)@
                &&& error == if !old(self)@.contains(id) {
                    Error::InvalidConfidentialVmId
                } else {
                    Error::HartAlreadyRunning
                }
            },
    {
        broadcast use vstd::std_specs::btree::group_btree_axioms;

        let number = id.usize();
        let holds_every_hart = match self.confidential_vms.get(&number) {
            None => {
                return Err(Error::InvalidConfidentialVmId);
            },
            Some(vm) => vm.holds_every_hart(),
        };
        if !holds_every_hart {
            return Err(Error::HartAlreadyRunning);
        }
        let vm = self.confidential_vms.remove(&number).unwrap();
        proof {
            let before = old(self)@;
            let after = self@;
            assert(after.confidential_vms =~= before.without_vm(id).confidential_vms);
            assert(after.confidential_vms.dom() =~= before.confidential_vms.dom().remove(number));
            assert(before.confidential_vms.contains_key(number));
            assert forall|other: usize| #[trigger]
                after.confidential_vms.contains_key(other) implies {
                &&& after.confidential_vms[other].wf()
                &&& after.confidential_vms[other].id.spec_usize() == other
            } by {
                assert(before.confidential_vms.contains_key(other));
            }
        }
        Ok(vm)
    }

    /// Hands the hart `confidential_hart_id` of the virtual machine
    /// `confidential_vm_id` to `hardware_hart`.
    ///
    /// Fails, and changes nothing, where there is no such virtual machine or
    /// no such hart, or where a hardware hart already runs the hart.
    pub fn steal_confidential_hart(
        &mut self,
        confidential_vm_id: ConfidentialVmId,
        confidential_hart_id: usize,
        hardware_hart: &mut HardwareHart,
    ) -> (result: Result<(), Error>)
        requires
            old(self).wf(),
            old(hardware_hart)@.confidential_hart.is_dummy(),
        ensures
            final(self).wf(),
            result is Ok <==> old(self)@.contains(confidential_vm_id) && old(self)@.vm(
                confidential_vm_id,
            ).holds_hart(confidential_hart_id as int),
            result is Ok ==> {
                &&& final(self)@ == old(self)@.with_vm(
                    confidential_vm_id,
                    old(self)@.vm(confidential_vm_id).without_hart(
                        confidential_hart_id as int,
                        old(hardware_hart)@.id,
                    ),
                )
                &&& final(hardware_hart)@ == (HardwareHartView {
                    confidential_hart: old(self)@.vm(
                        confidential_vm_id,
                    ).confidential_harts[confidential_hart_id as int],
                    ..old(hardware_hart)@
                })
                &&& final(self)@.contains(confidential_vm_id)
                &&& final(self)@.vm(confidential_vm_id) == old(self)@.vm(
                    confidential_vm_id,
                ).without_hart(confidential_hart_id as int, old(hardware_hart)@.id)
            },
            result matches Err(error) ==> {
                &&& final(self)@ == old(self)@
                &&& final(hardware_hart)@ == old(hardware_hart)@
                &&& error == if !old(self)@.contains(confidential_vm_id) {
                    Error::InvalidConfidentialVmId
                } else if confidential_hart_id >= old(self)@.vm(
                    confidential_vm_id,
                ).confidential_harts.len() {
                    Error::InvalidHartId
                } else {
                    Error::HartAlreadyRunning
                }
            },
    {
        broadcast use vstd::std_specs::btree::group_btree_axioms;

        let number = confidential_vm_id.usize();
        match self.confidential_vms.remove(&number) {
            None => {
                proof {
                    assert(self@.confidential_vms =~= old(self)@.confidential_vms);
                }
                Err(Error::InvalidConfidentialVmId)
            },
            Some(vm) => {
                let mut vm = vm;
                assert(old(self)@.confidential_vms.contains_key(number));
                let result = vm.steal_confidential_hart(confidential_hart_id, hardware_hart);
                self.confidential_vms.insert(number, vm);
                proof {
                    self.lemma_put_back(old(self)@, confidential_vm_id, vm@);
                }
                result
            },
        }
    }

    /// Gives the hart that `hardware_hart` runs back to its virtual machine
    /// and leaves the hardware hart with a dummy.
    ///
    /// Fails, and changes nothing, where the registry does not hold the
    /// virtual machine of the hart or that machine has no place for it.
    pub fn return_confidential_hart(&mut self, hardware_hart: &mut HardwareHart) -> (result: Result<
        (),
        Error,
    >)
        requires
            old(self).wf(),
            !old(hardware_hart)@.confidential_hart.is_dummy(),
        ensures
            final(self).wf(),
            result is Ok <==> Self::spec_can_return(old(self)@, old(hardware_hart)@),
            result is Ok ==> {
                &&& final(self)@ == Self::spec_return(old(self)@, old(hardware_hart)@)
                &&& final(hardware_hart)@ == (HardwareHartView {
                    confidential_hart: ConfidentialHart::spec_dummy(old(hardware_hart)@.id),
                    ..old(hardware_hart)@
                })
                &&& final(self)@.contains(old(hardware_hart)@.confidential_hart.confidential_vm_id->0)
                &&& final(self)@.vm(old(hardware_hart)@.confidential_hart.confidential_vm_id->0)
                    == old(self)@.vm(
                    old(hardware_hart)@.confidential_hart.confidential_vm_id->0,
                ).with_hart(old(hardware_hart)@.confidential_hart)
            },
            result matches Err(error) ==> {
                &&& final(self)@ == old(self)@
                &&& final(hardware_hart)@ == old(hardware_hart)@
                &&& error == if !old(self)@.contains(
                    old(hardware_hart)@.confidential_hart.confidential_vm_id->0,
                ) {
                    Error::InvalidConfidentialVmId
                } else {
                    Error::InvalidHartId
                }
            },
    {
        broadcast use vstd::std_specs::btree::group_btree_axioms;

        let confidential_vm_id = hardware_hart.confidential_hart().confidential_vm_id().unwrap();
        let number = confidential_vm_id.usize();
        match self.confidential_vms.remove(&number) {
            None => {
                proof {
                    assert(self@.confidential_vms =~= old(self)@.confidential_vms);
                }
                Err(Error::InvalidConfidentialVmId)
            },
            Some(vm) => {
                let mut vm = vm;
                assert(old(self)@.confidential_vms.contains_key(number));
                let fits = hardware_hart.confidential_hart().confidential_hart_id()
                    < vm.number_of_confidential_harts();
                let ghost home = vm@;
                if fits {
                    proof {
                        confidential_vm_id.lemma_number_names_the_id(home.id);
                    }
                    vm.return_confidential_hart(hardware_hart);
                }
                self.confidential_vms.insert(number, vm);
                proof {
                    self.lemma_put_back(old(self)@, confidential_vm_id, vm@);
                }
                if fits {
                    Ok(())
                } else {
                    Err(Error::InvalidHartId)
                }
            },
        }
    }

    /// Tells whether the registry has a place for the hart that
    /// `hardware_hart` runs.
    pub fn can_return(&self, hardware_hart: &HardwareHart) -> (possible: bool)
        ensures
            possible == Self::spec_can_return(self@, hardware_hart@),
    {
        let hart = hardware_hart.confidential_hart();
        match hart.confidential_vm_id() {
            None => false,
            Some(id) => match self.confidential_vm(id) {
                None => false,
                Some(vm) => hart.confidential_hart_id() < vm.number_of_confidential_harts(),
            },
        }
    }

    /// Whether the registry has a place for the hart that `hardware_hart`
    /// runs: it holds the virtual machine of the hart, and that machine has a
    /// hart with its identifier.
    pub open spec fn spec_can_return(
        control_data: ControlDataView,
        hardware_hart: HardwareHartView,
    ) -> bool {
        let hart = hardware_hart.confidential_hart;
        &&& hart.confidential_vm_id is Some
        &&& control_data.contains(hart.confidential_vm_id->0)
        &&& hart.id < control_data.vm(hart.confidential_vm_id->0).confidential_harts.len()
    }

    /// The registry after the hart that `hardware_hart` runs came back to its
    /// virtual machine.
    pub open spec fn spec_return(
        control_data: ControlDataView,
        hardware_hart: HardwareHartView,
    ) -> ControlDataView {
        let hart = hardware_hart.confidential_hart;
        let id = hart.confidential_vm_id->0;
        control_data.with_vm(id, control_data.vm(id).with_hart(hart))
    }

    /// Takes the requests that wait for the hart `confidential_hart_id` of the
    /// virtual machine `confidential_vm_id`, oldest first, and leaves its
    /// queue empty. Fails, and changes nothing, where there is no such hart.
    pub fn take_inter_hart_requests(
        &mut self,
        confidential_vm_id: ConfidentialVmId,
        confidential_hart_id: usize,
    ) -> (result: Result<Vec<InterHartRequest>, Error>)
        requires
            old(self).wf(),
        ensures
            final(self).wf(),
            result is Ok <==> old(self)@.contains(confidential_vm_id) && confidential_hart_id
                < old(self)@.vm(confidential_vm_id).confidential_harts.len(),
            result matches Ok(requests) ==> {
                &&& requests@ == old(self)@.vm(
                    confidential_vm_id,
                ).inter_hart_requests[confidential_hart_id as int]
                &&& final(self)@ == old(self)@.with_vm(
                    confidential_vm_id,
                    old(self)@.vm(confidential_vm_id).without_requests(confidential_hart_id as int),
                )
                &&& final(self)@.contains(confidential_vm_id)
                &&& final(self)@.vm(confidential_vm_id) == old(self)@.vm(
                    confidential_vm_id,
                ).without_requests(confidential_hart_id as int)
            },
            result matches Err(error) ==> {
                &&& final(self)@ == old(self)@
                &&& error == if !old(self)@.contains(confidential_vm_id) {
                    Error::InvalidConfidentialVmId
                } else {
                    Error::InvalidHartId
                }
            },
    {
        broadcast use vstd::std_specs::btree::group_btree_axioms;

        let number = confidential_vm_id.usize();
        match self.confidential_vms.remove(&number) {
            None => {
                proof {
                    assert(self@.confidential_vms =~= old(self)@.confidential_vms);
                }
                Err(Error::InvalidConfidentialVmId)
            },
            Some(vm) => {
                let mut vm = vm;
                assert(old(self)@.confidential_vms.contains_key(number));
                let result = vm.take_inter_hart_requests(confidential_hart_id);
                self.confidential_vms.insert(number, vm);
                proof {
                    self.lemma_put_back(old(self)@, confidential_vm_id, vm@);
                }
                result
            },
        }
    }

    /// Carries a broadcast of `request` among the harts of the virtual machine
    /// `confidential_vm_id` on from the hart `from`. Where there is no such
    /// virtual machine the broadcast is over, with a failure.
    pub fn broadcast_inter_hart_request(
        &mut self,
        confidential_vm_id: ConfidentialVmId,
        request: InterHartRequest,
        from: usize,
    ) -> (step: InterHartBroadcastStep)
        requires
            old(self).wf(),
        ensures
            final(self).wf(),
            step == Self::spec_broadcast_outcome(old(self)@, confidential_vm_id, request, from),
            final(self)@ == Self::spec_broadcast_step(
                old(self)@,
                confidential_vm_id,
                request,
                from,
            ),
            final(self)@.contains(confidential_vm_id) == old(self)@.contains(confidential_vm_id),
            old(self)@.contains(confidential_vm_id) ==> final(self)@.vm(confidential_vm_id) == old(
                self
            )@.vm(confidential_vm_id).broadcast_step(request, from as int),
    {
        broadcast use vstd::std_specs::btree::group_btree_axioms;

        let number = confidential_vm_id.usize();
        match self.confidential_vms.remove(&number) {
            None => {
                proof {
                    assert(self@.confidential_vms =~= old(self)@.confidential_vms);
                }
                InterHartBroadcastStep::Finished(Err(Error::InvalidConfidentialVmId))
            },
            Some(vm) => {
                let mut vm = vm;
                assert(old(self)@.confidential_vms.contains_key(number));
                let step = vm.broadcast_inter_hart_request(request, from);
                self.confidential_vms.insert(number, vm);
                proof {
                    self.lemma_put_back(old(self)@, confidential_vm_id, vm@);
                }
                step
            },
        }
    }

    /// How a step of a broadcast among the harts of the virtual machine
    /// `confidential_vm_id` ends.
    pub open spec fn spec_broadcast_outcome(
        control_data: ControlDataView,
        confidential_vm_id: ConfidentialVmId,
        request: InterHartRequest,
        from: usize,
    ) -> InterHartBroadcastStep {
        if control_data.contains(confidential_vm_id) {
            control_data.vm(confidential_vm_id).broadcast_outcome(request, from as int)
        } else {
            InterHartBroadcastStep::Finished(Err(Error::InvalidConfidentialVmId))
        }
    }

    /// The registry after a step of a broadcast among the harts of the virtual
    /// machine `confidential_vm_id`.
    pub open spec fn spec_broadcast_step(
        control_data: ControlDataView,
        confidential_vm_id: ConfidentialVmId,
        request: InterHartRequest,
        from: usize,
    ) -> ControlDataView {
        if control_data.contains(confidential_vm_id) {
            control_data.with_vm(
                confidential_vm_id,
                control_data.vm(confidential_vm_id).broadcast_step(request, from as int),
            )
        } else {
            control_data
        }
    }

    /// Maps `shared_page` into the address space of the virtual machine
    /// `confidential_vm_id`, and changes nothing else in the registry. Fails,
    /// and changes nothing at all, where there is no such virtual machine.
    pub fn map_shared_page(&mut self, confidential_vm_id: ConfidentialVmId, shared_page: SharedPage) -> (result:
        Result<(), Error>)
        requires
            old(self).wf(),
        ensures
            final(self).wf(),
            result is Ok <==> old(self)@.contains(confidential_vm_id),
            result is Ok ==> {
                let mapped = old(self)@.vm(confidential_vm_id).with_shared_page(shared_page);
                &&& final(self)@ == old(self)@.with_vm(confidential_vm_id, mapped)
                &&& final(self)@.contains(confidential_vm_id)
                &&& final(self)@.vm(confidential_vm_id) == mapped
            },
            result matches Err(error) ==> error == Error::InvalidConfidentialVmId && final(self)@
                == old(self)@,
    {
        broadcast use vstd::std_specs::btree::group_btree_axioms;

        let number = confidential_vm_id.usize();
        match self.confidential_vms.remove(&number) {
            None => {
                proof {
                    assert(self@.confidential_vms =~= old(self)@.confidential_vms);
                }
                Err(Error::InvalidConfidentialVmId)
            },
            Some(vm) => {
                let mut vm = vm;
                assert(old(self)@.confidential_vms.contains_key(number));
                vm.map_shared_page(shared_page);
                self.confidential_vms.insert(number, vm);
                proof {
                    self.lemma_put_back(old(self)@, confidential_vm_id, vm@);
                }
                Ok(())
            },
        }
    }

    /// A registry that differs from a well-formed one only in the virtual
    /// machine `id`, which kept its identifier and is well-formed, is
    /// well-formed, and that machine is found under `id`.
    proof fn lemma_put_back(&self, before: ControlDataView, id: ConfidentialVmId, vm: ConfidentialVmView)
        requires
            before.wf(),
            before.contains(id),
            vm.wf(),
            vm.id == before.vm(id).id,
            self@.confidential_vms =~= before.confidential_vms.insert(id.spec_usize(), vm),
        ensures
            self.wf(),
            self@ == before.with_vm(id, vm),
            self@.contains(id),
            self@.vm(id) == vm,
            vm == before.vm(id) ==> self@ == before,
    {
        before.lemma_with_vm(id, vm);
        if vm == before.vm(id) {
            assert(self@.confidential_vms =~= before.confidential_vms);
        }
    }
}

} // verus!
