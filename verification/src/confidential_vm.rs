//! One confidential virtual machine: its harts, the requests that its harts
//! queued for each other, its measurements and its memory protector.

use vstd::prelude::*;
use crate::confidential_hart::{ConfidentialHart, ConfidentialHartView};
use crate::confidential_vm_id::ConfidentialVmId;
use crate::error::Error;
use crate::hardware_hart::{HardwareHart, HardwareHartView};
use crate::memory_protector::{ConfidentialVmMemoryProtector, ConfidentialVmMemoryProtectorView};
use crate::shared_page::SharedPage;
use crate::transformations::InterHartRequest;

verus! {

/// The most requests that may wait in the queue of one hart.
pub const MAX_NUMBER_OF_INTER_HART_REQUESTS: usize = 64;

/// Number of measurements that a virtual machine keeps.
pub const NUMBER_OF_MEASUREMENTS: usize = 4;

/// One measurement of a confidential virtual machine. How it is computed lies
/// outside this library, which only keeps room for it.
#[derive(Clone, Copy, Debug)]
pub struct ConfidentialVmMeasurement {
    pub value: [u8; 32],
}

impl ConfidentialVmMeasurement {
    /// The measurement that was not taken yet: all bytes are zero.
    pub fn empty() -> (measurement: Self)
        ensures
            measurement.value@ == Seq::new(32, |i: int| 0u8),
    {
        let measurement = Self { value: [0u8;32] };
        assert(measurement.value@ =~= Seq::new(32, |i: int| 0u8));
        measurement
    }
}

/// What a confidential virtual machine holds, as contracts speak of it.
pub struct ConfidentialVmView {
    pub id: ConfidentialVmId,
    /// One entry for each hart, in the order of their identifiers. The entry
    /// of a hart that runs on a hardware hart is a dummy that names that
    /// hardware hart.
    pub confidential_harts: Seq<ConfidentialHartView>,
    /// For each hart the requests that other harts queued for it, oldest
    /// first.
    pub inter_hart_requests: Seq<Seq<InterHartRequest>>,
    pub measurements: Seq<ConfidentialVmMeasurement>,
    pub memory_protector: ConfidentialVmMemoryProtectorView,
}

impl ConfidentialVmView {
    /// Every hart that the machine holds sits at the place of its identifier
    /// and names this machine, every hart has a queue, no queue holds more
    /// than it may, and the number of harts fits a machine word.
    pub open spec fn wf(self) -> bool {
        &&& self.inter_hart_requests.len() == self.confidential_harts.len()
        &&& self.confidential_harts.len() <= usize::MAX
        &&& self.measurements.len() == NUMBER_OF_MEASUREMENTS
        &&& forall|i: int|
            0 <= i < self.confidential_harts.len() ==> {
                let hart = #[trigger] self.confidential_harts[i];
                hart.is_dummy() || (hart.id == i && hart.confidential_vm_id == Some(self.id))
            }
        &&& forall|i: int|
            0 <= i < self.inter_hart_requests.len() ==> (#[trigger] self.inter_hart_requests[i]).len()
                <= MAX_NUMBER_OF_INTER_HART_REQUESTS
    }

    /// Whether the machine has a hart `hart_id` and holds it itself, so that
    /// no hardware hart runs it.
    pub open spec fn holds_hart(self, hart_id: int) -> bool {
        0 <= hart_id < self.confidential_harts.len() && !self.confidential_harts[hart_id].is_dummy()
    }

    /// Whether the machine has a hart `hart_id` that a hardware hart runs.
    pub open spec fn is_hart_running(self, hart_id: int) -> bool {
        0 <= hart_id < self.confidential_harts.len() && self.confidential_harts[hart_id].is_dummy()
    }

    /// The machine after the hardware hart `hardware_hart_id` took the hart
    /// `hart_id` from it.
    pub open spec fn without_hart(self, hart_id: int, hardware_hart_id: usize) -> ConfidentialVmView {
        ConfidentialVmView {
            confidential_harts: self.confidential_harts.update(
                hart_id,
                ConfidentialHart::spec_dummy(hardware_hart_id),
            ),
            ..self
        }
    }

    /// The machine after `hart` came back to it.
    pub open spec fn with_hart(self, hart: ConfidentialHartView) -> ConfidentialVmView {
        ConfidentialVmView {
            confidential_harts: self.confidential_harts.update(hart.id as int, hart),
            ..self
        }
    }

    /// Whether the machine holds every one of its harts itself, so that no
    /// hardware hart runs any of them.
    pub open spec fn holds_every_hart(self) -> bool {
        forall|hart_id: int|
            0 <= hart_id < self.confidential_harts.len() ==> !(
            #[trigger] self.confidential_harts[hart_id]).is_dummy()
    }

    /// The machine after `shared_page` was mapped into its address space.
    pub open spec fn with_shared_page(self, shared_page: SharedPage) -> ConfidentialVmView {
        ConfidentialVmView {
            memory_protector: ConfidentialVmMemoryProtectorView {
                shared_pages: self.memory_protector.shared_pages.push(shared_page),
                ..self.memory_protector
            },
            ..self
        }
    }

    /// The machine after the queue of the hart `hart_id` was emptied.
    pub open spec fn without_requests(self, hart_id: int) -> ConfidentialVmView {
        ConfidentialVmView {
            inter_hart_requests: self.inter_hart_requests.update(hart_id, Seq::empty()),
            ..self
        }
    }

    /// Whether the queue of the hart `hart_id` has no room left.
    pub open spec fn is_queue_full(self, hart_id: int) -> bool {
        self.inter_hart_requests[hart_id].len() >= MAX_NUMBER_OF_INTER_HART_REQUESTS
    }

    /// Whether a broadcast of `request` cannot go past the hart `hart_id`
    /// without its caller: the hart is selected, and either its queue is full,
    /// or a hardware hart runs it and has to be interrupted.
    pub open spec fn stops_broadcast(self, request: InterHartRequest, hart_id: int) -> bool {
        request.spec_is_hart_selected(hart_id as usize) && (self.is_queue_full(hart_id)
            || self.confidential_harts[hart_id].is_dummy())
    }

    /// The first hart from `from` on at which a broadcast of `request` stops,
    /// or the number of harts if there is none.
    pub open spec fn next_stop(self, request: InterHartRequest, from: int) -> int
        decreases self.confidential_harts.len() - from,
    {
        if from >= self.confidential_harts.len() {
            self.confidential_harts.len() as int
        } else if self.stops_broadcast(request, from) {
            from
        } else {
            self.next_stop(request, from + 1)
        }
    }

    /// Whether the step of a broadcast of `request` that starts at the hart
    /// `from` puts the request into the queue of the hart `hart_id`: the hart
    /// is selected, lies between `from` and the next stop, and its queue has
    /// room.
    pub open spec fn is_delivered(self, request: InterHartRequest, from: int, hart_id: int) -> bool {
        &&& from <= hart_id <= self.next_stop(request, from)
        &&& hart_id < self.confidential_harts.len()
        &&& request.spec_is_hart_selected(hart_id as usize)
        &&& !self.is_queue_full(hart_id)
    }

    /// The machine after the step of a broadcast of `request` that starts at
    /// the hart `from`: the request stands last in the queue of every hart to
    /// which the step delivers it.
    pub open spec fn broadcast_step(self, request: InterHartRequest, from: int) -> ConfidentialVmView {
        ConfidentialVmView {
            inter_hart_requests: Seq::new(
                self.inter_hart_requests.len(),
                |hart_id: int|
                    if self.is_delivered(request, from, hart_id) {
                        self.inter_hart_requests[hart_id].push(request)
                    } else {
                        self.inter_hart_requests[hart_id]
                    },
            ),
            ..self
        }
    }

    /// How the step of a broadcast of `request` that starts at the hart `from`
    /// ends: with success behind the last hart, with a failure at a hart whose
    /// queue is full, or with the hardware hart that has to be interrupted
    /// before the broadcast goes on behind the hart that it runs.
    pub open spec fn broadcast_outcome(self, request: InterHartRequest, from: int) -> InterHartBroadcastStep {
        let stop = self.next_stop(request, from);
        if stop >= self.confidential_harts.len() {
            InterHartBroadcastStep::Finished(Ok(()))
        } else if self.is_queue_full(stop) {
            InterHartBroadcastStep::Finished(Err(Error::ReachedMaxNumberOfRemoteHartRequests))
        } else {
            InterHartBroadcastStep::Notify {
                hardware_hart_id: self.confidential_harts[stop].id,
                next_hart_id: (stop + 1) as usize,
            }
        }
    }

    /// Whether the step of a broadcast of `request` that starts at the hart
    /// `from` ends with a hardware hart to interrupt.
    pub open spec fn step_notifies(self, request: InterHartRequest, from: int) -> bool {
        let stop = self.next_stop(request, from);
        0 <= from <= stop < self.confidential_harts.len() && !self.is_queue_full(stop)
    }

    /// The machine after a broadcast of `request` was carried through from the
    /// hart `from` on: after each step that ends with a hardware hart to
    /// interrupt, the interrupt is delivered and the next step starts behind
    /// the hart that the hardware hart runs.
    pub open spec fn carried_through(self, request: InterHartRequest, from: int) -> ConfidentialVmView
        decreases self.confidential_harts.len() - from,
    {
        if self.step_notifies(request, from) {
            self.broadcast_step(request, from).carried_through(
                request,
                self.next_stop(request, from) + 1,
            )
        } else {
            self.broadcast_step(request, from)
        }
    }

    /// What a broadcast of `request` that is carried through from the hart
    /// `from` on returns.
    pub open spec fn carried_through_result(self, request: InterHartRequest, from: int) -> Result<
        (),
        Error,
    >
        decreases self.confidential_harts.len() - from,
    {
        if self.step_notifies(request, from) {
            self.broadcast_step(request, from).carried_through_result(
                request,
                self.next_stop(request, from) + 1,
            )
        } else if self.next_stop(request, from) >= self.confidential_harts.len() {
            Ok(())
        } else {
            Err(Error::ReachedMaxNumberOfRemoteHartRequests)
        }
    }

    /// A step ends with a hardware hart to interrupt exactly where
    /// `step_notifies` says so, and the broadcast then goes on behind the
    /// next stop. Every other step ends the broadcast, with what the broadcast
    /// returns.
    pub proof fn lemma_step_notifies(self, request: InterHartRequest, from: int)
        requires
            self.wf(),
            0 <= from <= self.confidential_harts.len(),
        ensures
            self.step_notifies(request, from) <==> self.broadcast_outcome(request, from) is Notify,
            self.step_notifies(request, from) ==> self.broadcast_outcome(
                request,
                from,
            )->next_hart_id == self.next_stop(request, from) + 1,
            !self.step_notifies(request, from) ==> self.broadcast_outcome(request, from)
                == InterHartBroadcastStep::Finished(self.carried_through_result(request, from)),
    {
        self.lemma_next_stop(request, from);
    }

    /// A step of a broadcast keeps the machine well-formed.
    pub proof fn lemma_broadcast_step_wf(self, request: InterHartRequest, from: int)
        requires
            self.wf(),
        ensures
            self.broadcast_step(request, from).wf(),
    {
        let after = self.broadcast_step(request, from);
        assert forall|i: int| 0 <= i < after.confidential_harts.len() implies {
            let hart = #[trigger] after.confidential_harts[i];
            hart.is_dummy() || (hart.id == i && hart.confidential_vm_id == Some(after.id))
        } by {
            assert(after.confidential_harts[i] == self.confidential_harts[i]);
        }
        assert forall|i: int| 0 <= i < after.inter_hart_requests.len() implies (
        #[trigger] after.inter_hart_requests[i]).len() <= MAX_NUMBER_OF_INTER_HART_REQUESTS by {
            assert(self.inter_hart_requests[i].len() <= MAX_NUMBER_OF_INTER_HART_REQUESTS);
        }
    }

    /// A broadcast that is carried through changes nothing but queues, and no
    /// queue of a hart that it does not select or that lies before `from`.
    /// Where it returns success, the request stands last in the queue of every
    /// selected hart from `from` on: once in each, behind all that was queued
    /// before.
    pub proof fn lemma_carried_through(self, request: InterHartRequest, from: int)
        requires
            self.wf(),
            0 <= from <= self.confidential_harts.len(),
        ensures
            self.carried_through(request, from).wf(),
            self.carried_through(request, from) == (ConfidentialVmView {
                inter_hart_requests: self.carried_through(request, from).inter_hart_requests,
                ..self
            }),
            forall|hart_id: int|
                0 <= hart_id < self.confidential_harts.len() && (hart_id < from
                    || !request.spec_is_hart_selected(hart_id as usize))
                    ==> #[trigger] self.carried_through(request, from).inter_hart_requests[hart_id]
                    == self.inter_hart_requests[hart_id],
            self.carried_through_result(request, from) is Ok ==> forall|hart_id: int|
                from <= hart_id < self.confidential_harts.len() && request.spec_is_hart_selected(
                    hart_id as usize,
                ) ==> #[trigger] self.carried_through(request, from).inter_hart_requests[hart_id]
                    == self.inter_hart_requests[hart_id].push(request),
        decreases self.confidential_harts.len() - from,
    {
        let step = self.broadcast_step(request, from);
        let stop = self.next_stop(request, from);
        let after = self.carried_through(request, from);
        self.lemma_next_stop(request, from);
        self.lemma_broadcast_step_wf(request, from);
        if self.step_notifies(request, from) {
            step.lemma_carried_through(request, stop + 1);
            assert forall|hart_id: int|
                0 <= hart_id < self.confidential_harts.len() && (hart_id < from
                    || !request.spec_is_hart_selected(hart_id as usize)) implies (
            #[trigger] after.inter_hart_requests[hart_id]) == self.inter_hart_requests[hart_id] by {
                assert(step.inter_hart_requests[hart_id] == self.inter_hart_requests[hart_id]);
            }
            if self.carried_through_result(request, from) is Ok {
                assert forall|hart_id: int|
                    from <= hart_id < self.confidential_harts.len()
                        && request.spec_is_hart_selected(
                        hart_id as usize,
                    ) implies #[trigger] after.inter_hart_requests[hart_id]
                    == self.inter_hart_requests[hart_id].push(request) by {
                    if hart_id < stop {
                        assert(!self.stops_broadcast(request, hart_id));
                        assert(step.inter_hart_requests[hart_id]
                            == self.inter_hart_requests[hart_id].push(request));
                    } else if hart_id == stop {
                        assert(step.inter_hart_requests[hart_id]
                            == self.inter_hart_requests[hart_id].push(request));
                    } else {
                        assert(step.inter_hart_requests[hart_id]
                            == self.inter_hart_requests[hart_id]);
                    }
                }
            }
        } else {
            if self.carried_through_result(request, from) is Ok {
                assert forall|hart_id: int|
                    from <= hart_id < self.confidential_harts.len()
                        && request.spec_is_hart_selected(
                        hart_id as usize,
                    ) implies #[trigger] after.inter_hart_requests[hart_id]
                    == self.inter_hart_requests[hart_id].push(request) by {
                    assert(!self.stops_broadcast(request, hart_id));
                }
            }
        }
    }

    /// The next stop is what its name says: the broadcast stops at no hart
    /// before it, and at the hart itself.
    pub proof fn lemma_next_stop(self, request: InterHartRequest, from: int)
        requires
            0 <= from <= self.confidential_harts.len(),
        ensures
            from <= self.next_stop(request, from) <= self.confidential_harts.len(),
            forall|hart_id: int|
                from <= hart_id < self.next_stop(request, from) ==> !#[trigger] self.stops_broadcast(
                    request,
                    hart_id,
                ),
            self.next_stop(request, from) < self.confidential_harts.len() ==> self.stops_broadcast(
                request,
                self.next_stop(request, from),
            ),
        decreases self.confidential_harts.len() - from,
    {
        if from < self.confidential_harts.len() && !self.stops_broadcast(request, from) {
            self.lemma_next_stop(request, from + 1);
        }
    }

    /// A step that ends with success has put the request last into the queue
    /// of every selected hart from `from` on, and a step never touches the
    /// queue of a hart that is not selected or lies before `from`.
    pub proof fn lemma_broadcast_step(self, request: InterHartRequest, from: int)
        requires
            self.wf(),
            0 <= from <= self.confidential_harts.len(),
        ensures
            self.broadcast_outcome(request, from) == InterHartBroadcastStep::Finished(Ok(()))
                ==> forall|hart_id: int|
                from <= hart_id < self.confidential_harts.len() && request.spec_is_hart_selected(
                    hart_id as usize,
                ) ==> #[trigger] self.broadcast_step(request, from).inter_hart_requests[hart_id]
                    == self.inter_hart_requests[hart_id].push(request),
            forall|hart_id: int|
                0 <= hart_id < self.confidential_harts.len() && (hart_id < from
                    || !request.spec_is_hart_selected(hart_id as usize))
                    ==> #[trigger] self.broadcast_step(request, from).inter_hart_requests[hart_id]
                    == self.inter_hart_requests[hart_id],
    {
        self.lemma_next_stop(request, from);
        if self.broadcast_outcome(request, from) == InterHartBroadcastStep::Finished(Ok(())) {
            assert forall|hart_id: int|
                from <= hart_id < self.confidential_harts.len() && request.spec_is_hart_selected(
                    hart_id as usize,
                ) implies #[trigger] self.broadcast_step(request, from).inter_hart_requests[hart_id]
                == self.inter_hart_requests[hart_id].push(request) by {
                assert(!self.stops_broadcast(request, hart_id));
            }
        }
    }
}

/// How one step of a broadcast ends.
#[derive(Clone, Copy, Debug, PartialEq, Eq)]
pub enum InterHartBroadcastStep {
    /// The hardware hart `hardware_hart_id` runs a hart that the request was
    /// queued for and has to be interrupted. The broadcast then goes on with
    /// the hart `next_hart_id`.
    Notify { hardware_hart_id: usize, next_hart_id: usize },
    /// The broadcast is over.
    Finished(Result<(), Error>),
}

/// One isolated guest.
#[derive(Debug)]
pub struct ConfidentialVm {
    id: ConfidentialVmId,
    measurements: [ConfidentialVmMeasurement; 4],
    confidential_harts: Vec<ConfidentialHart>,
    memory_protector: ConfidentialVmMemoryProtector,
    inter_hart_requests: Vec<Vec<InterHartRequest>>,
}

/// The views of the harts of `harts`, in their order.
pub open spec fn spec_hart_views(harts: Seq<ConfidentialHart>) -> Seq<ConfidentialHartView> {
    Seq::new(harts.len(), |i: int| harts[i]@)
}

/// The views of the queues of `queues`, in their order.
pub open spec fn spec_queue_views(queues: Seq<Vec<InterHartRequest>>) -> Seq<Seq<InterHartRequest>> {
    Seq::new(queues.len(), |i: int| queues[i]@)
}

impl View for ConfidentialVm {
    type V = ConfidentialVmView;

    closed spec fn view(&self) -> ConfidentialVmView {
        ConfidentialVmView {
            id: self.id,
            confidential_harts: spec_hart_views(self.confidential_harts@),
            inter_hart_requests: spec_queue_views(self.inter_hart_requests@),
            measurements: self.measurements@,
            memory_protector: self.memory_protector@,
        }
    }
}

impl ConfidentialVm {
    /// The invariant of the machine.
    pub open spec fn wf(&self) -> bool {
        self@.wf()
    }

    /// The virtual machine `id` with the harts `confidential_harts`, which
    /// from now on belong to it. No requests wait for them.
    pub fn new(
        id: ConfidentialVmId,
        confidential_harts: Vec<ConfidentialHart>,
        measurements: [ConfidentialVmMeasurement; 4],
        memory_protector: ConfidentialVmMemoryProtector,
    ) -> (vm: Self)
        requires
            forall|i: int| 0 <= i < confidential_harts.len() ==> (#[trigger] confidential_harts[i])@.id == i,
        ensures
            vm@ == (ConfidentialVmView {
                id,
                confidential_harts: Seq::new(
                    confidential_harts.len() as nat,
                    |i: int|
                        ConfidentialHartView {
                            confidential_vm_id: Some(id),
                            ..confidential_harts[i]@
                        },
                ),
                inter_hart_requests: Seq::new(
                    confidential_harts.len() as nat,
                    |i: int| Seq::<InterHartRequest>::empty(),
                ),
                measurements: measurements@,
                memory_protector: memory_protector@,
            }),
            vm.wf(),
    {
        let ghost given = confidential_harts@;
        let mut confidential_harts = confidential_harts;
        let mut inter_hart_requests: Vec<Vec<InterHartRequest>> = Vec::new();
        let number_of_harts = confidential_harts.len();
        let mut i: usize = 0;
        while i < number_of_harts
            invariant
                i <= number_of_harts,
                number_of_harts == given.len(),
                confidential_harts.len() == number_of_harts,
                inter_hart_requests.len() == i,
                forall|j: int|
                    0 <= j < i ==> (#[trigger] inter_hart_requests[j])@ == Seq::<
                        InterHartRequest,
                    >::empty(),
                forall|j: int|
                    0 <= j < i ==> (#[trigger] confidential_harts[j])@ == (ConfidentialHartView {
                        confidential_vm_id: Some(id),
                        ..given[j]@
                    }),
                forall|j: int| i <= j < number_of_harts ==> (#[trigger] confidential_harts[j]) == given[j],
            decreases number_of_harts - i,
        {
            confidential_harts[i].set_confidential_vm_id(id);
            inter_hart_requests.push(Vec::new());
            i = i + 1;
        }
        let vm = Self { id, measurements, confidential_harts, memory_protector, inter_hart_requests };
        proof {
            assert(vm@.confidential_harts =~= Seq::new(
                given.len(),
                |i: int| ConfidentialHartView { confidential_vm_id: Some(id), ..given[i]@ },
            ));
            assert(vm@.inter_hart_requests =~= Seq::new(
                given.len(),
                |i: int| Seq::<InterHartRequest>::empty(),
            ));
        }
        vm
    }

    /// The identifier of the machine.
    pub fn confidential_vm_id(&self) -> (id: ConfidentialVmId)
        ensures
            id == self@.id,
    {
        self.id
    }

    /// Number of harts of the machine.
    pub fn number_of_confidential_harts(&self) -> (number: usize)
        ensures
            number == self@.confidential_harts.len(),
    {
        self.confidential_harts.len()
    }

    /// The hart `confidential_hart_id`, or the dummy in its place while a
    /// hardware hart runs it.
    pub fn confidential_hart(&self, confidential_hart_id: usize) -> (hart: Option<&ConfidentialHart>)
        ensures
            hart is Some <==> confidential_hart_id < self@.confidential_harts.len(),
            hart matches Some(hart) ==> hart@ == self@.confidential_harts[confidential_hart_id as int],
    {
        if confidential_hart_id < self.confidential_harts.len() {
            Some(&self.confidential_harts[confidential_hart_id])
        } else {
            None
        }
    }

    /// Number of requests that wait for the hart `confidential_hart_id`.
    pub fn number_of_inter_hart_requests(&self, confidential_hart_id: usize) -> (number: Option<usize>)
        ensures
            number is Some <==> confidential_hart_id < self@.inter_hart_requests.len(),
            number matches Some(number) ==> number == self@.inter_hart_requests[confidential_hart_id as int].len(),
    {
        if confidential_hart_id < self.inter_hart_requests.len() {
            Some(self.inter_hart_requests[confidential_hart_id].len())
        } else {
            None
        }
    }

    /// The memory protector of the machine.
    pub fn memory_protector(&self) -> (protector: &ConfidentialVmMemoryProtector)
        ensures
            protector@ == self@.memory_protector,
    {
        &self.memory_protector
    }

    /// Maps `shared_page` into the address space of the machine. Nothing else
    /// of the machine changes.
    pub fn map_shared_page(&mut self, shared_page: SharedPage)
        ensures
            final(self)@ == old(self)@.with_shared_page(shared_page),
    {
        self.memory_protector.map_shared_page(shared_page);
    }

    /// Tells whether the machine holds every one of its harts itself.
    pub fn holds_every_hart(&self) -> (holds: bool)
        ensures
            holds == self@.holds_every_hart(),
    {
        let mut hart_id: usize = 0;
        while hart_id < self.confidential_harts.len()
            invariant
                hart_id <= self.confidential_harts.len(),
                forall|j: int| 0 <= j < hart_id ==> !(#[trigger] self@.confidential_harts[j]).is_dummy(),
            decreases self.confidential_harts.len() - hart_id,
        {
            if self.confidential_harts[hart_id].is_dummy() {
                assert(self@.confidential_harts[hart_id as int].is_dummy());
                return false;
            }
            assert(self@.confidential_harts[hart_id as int] == self.confidential_harts[hart_id as int]@);
            hart_id = hart_id + 1;
        }
        true
    }

    /// Hands the hart `confidential_hart_id` to `hardware_hart`, which then
    /// runs it, and keeps a dummy that names the hardware hart in its place.
    ///
    /// Fails, and changes nothing, where the machine has no such hart or where
    /// a hardware hart already runs it.
    pub(crate) fn steal_confidential_hart(
        &mut self,
        confidential_hart_id: usize,
        hardware_hart: &mut HardwareHart,
    ) -> (result: Result<(), Error>)
        requires
            old(self).wf(),
            old(hardware_hart)@.confidential_hart.is_dummy(),
        ensures
            final(self).wf(),
            result is Ok <==> old(self)@.holds_hart(confidential_hart_id as int),
            result is Ok ==> {
                &&& final(self)@ == old(self)@.without_hart(
                    confidential_hart_id as int,
                    old(hardware_hart)@.id,
                )
                &&& final(hardware_hart)@ == (HardwareHartView {
                    confidential_hart: old(self)@.confidential_harts[confidential_hart_id as int],
                    ..old(hardware_hart)@
                })
            },
            result matches Err(error) ==> {
                &&& final(self)@ == old(self)@
                &&& final(hardware_hart)@ == old(hardware_hart)@
                &&& error == if confidential_hart_id >= old(self)@.confidential_harts.len() {
                    Error::InvalidHartId
                } else {
                    Error::HartAlreadyRunning
                }
            },
    {
        if confidential_hart_id >= self.confidential_harts.len() {
            return Err(Error::InvalidHartId);
        }
        if self.confidential_harts[confidential_hart_id].is_dummy() {
            return Err(Error::HartAlreadyRunning);
        }
        let mut hart = ConfidentialHart::dummy(hardware_hart.id());
        std::mem::swap(&mut self.confidential_harts[confidential_hart_id], &mut hart);
        hardware_hart.swap_confidential_hart(&mut hart);
        proof {
            assert(self@.confidential_harts =~= old(self)@.confidential_harts.update(
                confidential_hart_id as int,
                ConfidentialHart::spec_dummy(old(hardware_hart)@.id),
            ));
        }
        Ok(())
    }

    /// Takes back the hart that `hardware_hart` runs and leaves the hardware
    /// hart with a dummy.
    pub(crate) fn return_confidential_hart(&mut self, hardware_hart: &mut HardwareHart)
        requires
            old(self).wf(),
            !old(hardware_hart)@.confidential_hart.is_dummy(),
            old(hardware_hart)@.confidential_hart.confidential_vm_id == Some(old(self)@.id),
            old(hardware_hart)@.confidential_hart.id < old(self)@.confidential_harts.len(),
        ensures
            final(self).wf(),
            final(self)@ == old(self)@.with_hart(old(hardware_hart)@.confidential_hart),
            final(hardware_hart)@ == (HardwareHartView {
                confidential_hart: ConfidentialHart::spec_dummy(old(hardware_hart)@.id),
                ..old(hardware_hart)@
            }),
    {
        let mut hart = ConfidentialHart::dummy(hardware_hart.id());
        hardware_hart.swap_confidential_hart(&mut hart);
        let confidential_hart_id = hart.confidential_hart_id();
        std::mem::swap(&mut self.confidential_harts[confidential_hart_id], &mut hart);
        proof {
            assert(self@.confidential_harts =~= old(self)@.confidential_harts.update(
                confidential_hart_id as int,
                old(hardware_hart)@.confidential_hart,
            ));
        }
    }

    /// Takes the requests that wait for the hart `confidential_hart_id`,
    /// oldest first, and leaves its queue empty. Fails, and changes nothing,
    /// where the machine has no such hart.
    pub fn take_inter_hart_requests(&mut self, confidential_hart_id: usize) -> (result: Result<
        Vec<InterHartRequest>,
        Error,
    >)
        requires
            old(self).wf(),
        ensures
            final(self).wf(),
            result is Ok <==> confidential_hart_id < old(self)@.confidential_harts.len(),
            result matches Ok(requests) ==> {
                &&& requests@ == old(self)@.inter_hart_requests[confidential_hart_id as int]
                &&& final(self)@ == old(self)@.without_requests(confidential_hart_id as int)
            },
            result matches Err(error) ==> error == Error::InvalidHartId && final(self)@ == old(self)@,
    {
        if confidential_hart_id >= self.inter_hart_requests.len() {
            return Err(Error::InvalidHartId);
        }
        let mut requests: Vec<InterHartRequest> = Vec::new();
        std::mem::swap(&mut self.inter_hart_requests[confidential_hart_id], &mut requests);
        proof {
            assert(self@.inter_hart_requests =~= old(self)@.inter_hart_requests.update(
                confidential_hart_id as int,
                Seq::empty(),
            ));
        }
        Ok(requests)
    }

    /// A machine that differs from a well-formed one only in its queues, none
    /// of which is too long, is well-formed.
    proof fn lemma_wf_by_queues(&self, before: ConfidentialVmView)
        requires
            before.wf(),
            self@.id == before.id,
            self@.confidential_harts == before.confidential_harts,
            self@.measurements == before.measurements,
            self.inter_hart_requests.len() == before.inter_hart_requests.len(),
            forall|j: int|
                0 <= j < self.inter_hart_requests.len() ==> (#[trigger] self.inter_hart_requests[j])@.len()
                    <= MAX_NUMBER_OF_INTER_HART_REQUESTS,
        ensures
            self.wf(),
    {
        assert forall|i: int| 0 <= i < self@.inter_hart_requests.len() implies (
        #[trigger] self@.inter_hart_requests[i]).len() <= MAX_NUMBER_OF_INTER_HART_REQUESTS by {
            assert(self@.inter_hart_requests[i] == self.inter_hart_requests[i]@);
        }
    }

    /// Carries a broadcast of `request` on from the hart `from`: queues the
    /// request for every hart that it selects, in the order of their
    /// identifiers, up to the first hart that a hardware hart runs or whose
    /// queue is full.
    ///
    /// Interrupting a hardware hart is the work of the caller. After it the
    /// caller carries the broadcast on from the hart behind. What was queued
    /// stays queued, however the broadcast ends.
    pub fn broadcast_inter_hart_request(&mut self, request: InterHartRequest, from: usize) -> (step:
        InterHartBroadcastStep)
        requires
            old(self).wf(),
        ensures
            final(self).wf(),
            final(self)@ == old(self)@.broadcast_step(request, from as int),
            step == old(self)@.broadcast_outcome(request, from as int),
    {
        let ghost before = self@;
        let number_of_harts = self.confidential_harts.len();
        let mut hart_id: usize = from;
        proof {
            assert forall|j: int| 0 <= j < number_of_harts implies (
            #[trigger] self.inter_hart_requests[j])@.len()
                <= MAX_NUMBER_OF_INTER_HART_REQUESTS by {
                assert(before.inter_hart_requests[j] == self.inter_hart_requests[j]@);
            }
        }
        while hart_id < number_of_harts
            invariant
                before.wf(),
                before == old(self)@,
                from <= hart_id,
                number_of_harts == before.confidential_harts.len(),
                self.id == old(self).id,
                self.measurements == old(self).measurements,
                self.memory_protector == old(self).memory_protector,
                self.confidential_harts == old(self).confidential_harts,
                self.inter_hart_requests.len() == number_of_harts,
                before.next_stop(request, from as int) == before.next_stop(request, hart_id as int),
                forall|j: int|
                    from <= j < hart_id ==> (#[trigger] self.inter_hart_requests[j])@ == (
                    if request.spec_is_hart_selected(j as usize) {
                        before.inter_hart_requests[j].push(request)
                    } else {
                        before.inter_hart_requests[j]
                    }),
                forall|j: int|
                    from <= j < hart_id ==> !before.stops_broadcast(request, j),
                forall|j: int|
                    0 <= j < number_of_harts && (j < from || hart_id <= j) ==> (
                    #[trigger] self.inter_hart_requests[j])@ == before.inter_hart_requests[j],
                forall|j: int|
                    0 <= j < number_of_harts ==> (#[trigger] self.inter_hart_requests[j])@.len()
                        <= MAX_NUMBER_OF_INTER_HART_REQUESTS,
            decreases number_of_harts - hart_id,
        {
            if request.is_hart_selected(hart_id) {
                if self.inter_hart_requests[hart_id].len() >= MAX_NUMBER_OF_INTER_HART_REQUESTS {
                    proof {
                        assert(self@.inter_hart_requests =~= before.broadcast_step(
                            request,
                            from as int,
                        ).inter_hart_requests);
                        self.lemma_wf_by_queues(before);
                    }
                    return InterHartBroadcastStep::Finished(
                        Err(Error::ReachedMaxNumberOfRemoteHartRequests),
                    );
                }
                self.inter_hart_requests[hart_id].push(request);
                if self.confidential_harts[hart_id].is_dummy() {
                    let hardware_hart_id = self.confidential_harts[hart_id].confidential_hart_id();
                    proof {
                        assert(self@.inter_hart_requests =~= before.broadcast_step(
                            request,
                            from as int,
                        ).inter_hart_requests);
                        self.lemma_wf_by_queues(before);
                    }
                    return InterHartBroadcastStep::Notify {
                        hardware_hart_id,
                        next_hart_id: hart_id + 1,
                    };
                }
            }
            hart_id = hart_id + 1;
        }
        proof {
            assert(self@.inter_hart_requests =~= before.broadcast_step(
                request,
                from as int,
            ).inter_hart_requests);
            self.lemma_wf_by_queues(before);
        }
        InterHartBroadcastStep::Finished(Ok(()))
    }
}

} // verus!
