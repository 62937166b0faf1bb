//! The monitor's record of one physical processor core.

use vstd::prelude::*;
use crate::architecture::{HartArchitecturalState, ECALL_INSTRUCTION_LENGTH};
use crate::confidential_hart::{ConfidentialHart, ConfidentialHartView};
use crate::transformations::{
    ExposeToHypervisor, GuestLoadPageFaultRequest, GuestLoadPageFaultResult, SbiResult,
    SharePageResult,
};

verus! {

/// What a hardware hart holds, as contracts speak of it.
pub struct HardwareHartView {
    /// Identifier of the physical core.
    pub id: usize,
    /// The registers of the hypervisor's hart that runs on this core.
    pub non_confidential_hart_state: HartArchitecturalState,
    /// The confidential hart that the core runs, or a dummy.
    pub confidential_hart: ConfidentialHartView,
    /// The value that the scratch register of the core holds.
    pub mscratch: usize,
    /// The value that was in the scratch register before the one it holds.
    pub previous_mscratch: usize,
}

impl HardwareHartView {
    /// The hart after the two scratch values changed places.
    pub open spec fn swap_mscratch(self) -> HardwareHartView {
        HardwareHartView {
            mscratch: self.previous_mscratch,
            previous_mscratch: self.mscratch,
            ..self
        }
    }

    /// The hart after `transformation` was applied to the registers of the
    /// hypervisor's hart.
    pub open spec fn apply(self, transformation: ExposeToHypervisor) -> HardwareHartView {
        let state = self.non_confidential_hart_state;
        match transformation {
            ExposeToHypervisor::SbiRequest(request) => HardwareHartView {
                non_confidential_hart_state: HartArchitecturalState {
                    a0: request.a0,
                    a1: request.a1,
                    a2: request.a2,
                    a3: request.a3,
                    a4: request.a4,
                    a5: request.a5,
                    a6: request.function_id,
                    a7: request.extension_id,
                    ..state
                },
                ..self
            },
            ExposeToHypervisor::SbiResult(result) => HardwareHartView {
                non_confidential_hart_state: HartArchitecturalState {
                    a0: result.a0,
                    a1: result.a1,
                    mepc: state.mepc.wrapping_add(ECALL_INSTRUCTION_LENGTH),
                    ..state
                },
                ..self
            },
            ExposeToHypervisor::Trap { mcause, mtval, htval, mtinst } => HardwareHartView {
                non_confidential_hart_state: HartArchitecturalState {
                    mcause,
                    mtval,
                    htval,
                    mtinst,
                    ..state
                },
                ..self
            },
            ExposeToHypervisor::Resume => self,
        }
    }
}

/// One physical processor core. At every moment it holds exactly one
/// confidential hart: the one that it runs, or a dummy while it runs none.
#[derive(Debug)]
pub struct HardwareHart {
    id: usize,
    non_confidential_hart_state: HartArchitecturalState,
    confidential_hart: ConfidentialHart,
    mscratch: usize,
    previous_mscratch: usize,
}

impl View for HardwareHart {
    type V = HardwareHartView;

    closed spec fn view(&self) -> HardwareHartView {
        HardwareHartView {
            id: self.id,
            non_confidential_hart_state: self.non_confidential_hart_state,
            confidential_hart: self.confidential_hart@,
            mscratch: self.mscratch,
            previous_mscratch: self.previous_mscratch,
        }
    }
}

impl HardwareHart {
    /// The record of the core `id`, which runs no confidential hart. Its
    /// scratch register holds `mscratch`, and `firmware_mscratch` is the value
    /// that the firmware below the monitor expects there.
    pub fn init(id: usize, mscratch: usize, firmware_mscratch: usize) -> (hart: Self)
        ensures
            hart@ == (HardwareHartView {
                id,
                non_confidential_hart_state: HartArchitecturalState::spec_empty(),
                confidential_hart: ConfidentialHart::spec_dummy(id),
                mscratch,
                previous_mscratch: firmware_mscratch,
            }),
    {
        Self {
            id,
            non_confidential_hart_state: HartArchitecturalState::empty(),
            confidential_hart: ConfidentialHart::dummy(id),
            mscratch,
            previous_mscratch: firmware_mscratch,
        }
    }

    /// Identifier of the physical core.
    pub fn id(&self) -> (id: usize)
        ensures
            id == self@.id,
    {
        self.id
    }

    /// The confidential hart that the core holds.
    pub fn confidential_hart(&self) -> (hart: &ConfidentialHart)
        ensures
            hart@ == self@.confidential_hart,
    {
        &self.confidential_hart
    }

    /// The confidential hart that the core holds, to change it.
    pub(crate) fn confidential_hart_mut(&mut self) -> (hart: &mut ConfidentialHart)
        ensures
            hart@ == old(self)@.confidential_hart,
            final(self)@ == (HardwareHartView {
                confidential_hart: final(hart)@,
                ..old(self)@
            }),
    {
        &mut self.confidential_hart
    }

    /// The registers of the hypervisor's hart.
    pub fn non_confidential_hart_state(&self) -> (state: &HartArchitecturalState)
        ensures
            *state == self@.non_confidential_hart_state,
    {
        &self.non_confidential_hart_state
    }

    /// Saves the registers with which the hypervisor's hart entered the
    /// monitor.
    pub fn store_non_confidential_hart_state(&mut self, state: &HartArchitecturalState)
        ensures
            final(self)@ == (HardwareHartView { non_confidential_hart_state: *state, ..old(self)@ }),
    {
        self.non_confidential_hart_state = *state;
    }

    /// The value that the scratch register holds.
    pub fn mscratch(&self) -> (value: usize)
        ensures
            value == self@.mscratch,
    {
        self.mscratch
    }

    /// The value that was in the scratch register before the one it holds.
    pub fn previous_mscratch(&self) -> (value: usize)
        ensures
            value == self@.previous_mscratch,
    {
        self.previous_mscratch
    }

    /// Puts the value that was kept aside into the scratch register and keeps
    /// aside the one that was there. Two swaps in a row change nothing.
    pub fn swap_mscratch(&mut self)
        ensures
            final(self)@ == old(self)@.swap_mscratch(),
    {
        let current = self.mscratch;
        self.mscratch = self.previous_mscratch;
        self.previous_mscratch = current;
    }

    /// Exchanges the confidential hart that the core holds with `other`.
    pub(crate) fn swap_confidential_hart(&mut self, other: &mut ConfidentialHart)
        ensures
            final(self)@ == (HardwareHartView { confidential_hart: old(other)@, ..old(self)@ }),
            final(other)@ == old(self)@.confidential_hart,
    {
        std::mem::swap(&mut self.confidential_hart, other);
    }

    /// Applies `transformation` to the registers of the hypervisor's hart.
    pub fn apply(&mut self, transformation: ExposeToHypervisor)
        ensures
            final(self)@ == old(self)@.apply(transformation),
    {
        match transformation {
            ExposeToHypervisor::SbiRequest(request) => {
                self.non_confidential_hart_state.a0 = request.a0;
                self.non_confidential_hart_state.a1 = request.a1;
                self.non_confidential_hart_state.a2 = request.a2;
                self.non_confidential_hart_state.a3 = request.a3;
                self.non_confidential_hart_state.a4 = request.a4;
                self.non_confidential_hart_state.a5 = request.a5;
                self.non_confidential_hart_state.a6 = request.function_id;
                self.non_confidential_hart_state.a7 = request.extension_id;
            },
            ExposeToHypervisor::SbiResult(result) => {
                self.non_confidential_hart_state.a0 = result.a0;
                self.non_confidential_hart_state.a1 = result.a1;
                self.non_confidential_hart_state.mepc =
                    self.non_confidential_hart_state.mepc.wrapping_add(ECALL_INSTRUCTION_LENGTH);
            },
            ExposeToHypervisor::Trap { mcause, mtval, htval, mtinst } => {
                self.non_confidential_hart_state.mcause = mcause;
                self.non_confidential_hart_state.mtval = mtval;
                self.non_confidential_hart_state.htval = htval;
                self.non_confidential_hart_state.mtinst = mtinst;
            },
            ExposeToHypervisor::Resume => {},
        }
    }

    /// The hypervisor's answer to a call of the confidential hart, which it
    /// left in `a0` and `a1`.
    pub fn hypercall_result(&self) -> (result: SbiResult)
        ensures
            result == (SbiResult {
                a0: self@.non_confidential_hart_state.a0,
                a1: self@.non_confidential_hart_state.a1,
            }),
    {
        SbiResult {
            a0: self.non_confidential_hart_state.a0,
            a1: self.non_confidential_hart_state.a1,
        }
    }

    /// The hypervisor's answer to a request to share a page: a code in `a0`
    /// and the address of the page in `a1`.
    pub fn share_page_result(&self) -> (result: SharePageResult)
        ensures
            result == (SharePageResult {
                response_code: self@.non_confidential_hart_state.a0,
                hypervisor_page_address: self@.non_confidential_hart_state.a1,
            }),
    {
        SharePageResult {
            response_code: self.non_confidential_hart_state.a0,
            hypervisor_page_address: self.non_confidential_hart_state.a1,
        }
    }

    /// The hypervisor's answer to the load `request`, whose value it left in
    /// `a0`.
    pub fn guest_load_page_fault_result(&self, request: GuestLoadPageFaultRequest) -> (result:
        GuestLoadPageFaultResult)
        ensures
            result == (GuestLoadPageFaultResult {
                request,
                value: self@.non_confidential_hart_state.a0,
            }),
    {
        GuestLoadPageFaultResult { request, value: self.non_confidential_hart_state.a0 }
    }
}

/// Swapping the scratch values twice leaves the hart as it was.
pub proof fn lemma_swap_mscratch_twice(hart: HardwareHartView)
    ensures
        hart.swap_mscratch().swap_mscratch() == hart,
{
}

} // verus!
