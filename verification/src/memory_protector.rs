//! The address translation that isolates the memory of a confidential virtual
//! machine, as far as the control flow of the monitor sets it up.

use vstd::prelude::*;
use crate::architecture::HartArchitecturalState;
use crate::error::Error;
use crate::memory_layout::{MemoryLayout, NonConfidentialMemoryAddress};
use crate::shared_page::SharedPage;

verus! {

/// Number of bytes of the root page table of a guest's address translation.
pub const ROOT_PAGE_TABLE_SIZE: usize = 0x4000;

/// Number of bytes of the pages in which the address of a page table counts.
pub const PAGE_TABLE_GRANULE: usize = 0x1000;

/// The bits of the translation register that hold the number of the page in
/// which the root page table starts: all but the highest twenty.
pub const HGATP_PPN_MASK: usize = usize::MAX >> 20;

/// What a memory protector holds, as contracts speak of it.
pub struct ConfidentialVmMemoryProtectorView {
    /// The translation register that the hypervisor configured.
    pub hgatp: usize,
    /// The pages that the virtual machine shares with the hypervisor, oldest
    /// first.
    pub shared_pages: Seq<SharedPage>,
}

/// Describes the address translation of one confidential virtual machine.
#[derive(Debug)]
pub struct ConfidentialVmMemoryProtector {
    hgatp: usize,
    shared_pages: Vec<SharedPage>,
}

impl View for ConfidentialVmMemoryProtector {
    type V = ConfidentialVmMemoryProtectorView;

    closed spec fn view(&self) -> ConfidentialVmMemoryProtectorView {
        ConfidentialVmMemoryProtectorView { hgatp: self.hgatp, shared_pages: self.shared_pages@ }
    }
}

impl ConfidentialVmMemoryProtector {
    /// The address at which the root page table that `hgatp` names starts.
    pub open spec fn spec_root_page_table_address(hgatp: usize) -> int {
        (hgatp & HGATP_PPN_MASK) * PAGE_TABLE_GRANULE
    }

    /// Whether the root page table that `hgatp` names lies, in its whole
    /// length, in the non-confidential memory, from which the monitor copies
    /// it.
    pub open spec fn spec_is_valid(hgatp: usize, memory_layout: MemoryLayout) -> bool {
        memory_layout.spec_contains_range(
            Self::spec_root_page_table_address(hgatp),
            ROOT_PAGE_TABLE_SIZE as int,
        )
    }

    /// Builds the protector of a virtual machine whose boot hart has the
    /// registers `state`. Fails where the address translation that the
    /// hypervisor configured is not valid.
    pub fn from_vm_state(state: &HartArchitecturalState, memory_layout: &MemoryLayout) -> (result:
        Result<Self, Error>)
        ensures
            result is Ok <==> Self::spec_is_valid(state.hgatp, *memory_layout),
            result matches Ok(protector) ==> protector@ == (ConfidentialVmMemoryProtectorView {
                hgatp: state.hgatp,
                shared_pages: Seq::empty(),
            }),
            result matches Err(error) ==> error == Error::InvalidMemoryLayout,
    {
        let page_number: usize = state.hgatp & HGATP_PPN_MASK;
        let address = match page_number.checked_mul(PAGE_TABLE_GRANULE) {
            Some(address) => address,
            None => {
                return Err(Error::InvalidMemoryLayout);
            },
        };
        let first = match NonConfidentialMemoryAddress::new(address, memory_layout) {
            Ok(first) => first,
            Err(_) => {
                return Err(Error::InvalidMemoryLayout);
            },
        };
        match memory_layout.non_confidential_address_at_offset(&first, ROOT_PAGE_TABLE_SIZE - 1) {
            Ok(_) => Ok(Self { hgatp: state.hgatp, shared_pages: Vec::new() }),
            Err(_) => Err(Error::InvalidMemoryLayout),
        }
    }

    /// The translation register that the hypervisor configured.
    pub fn hgatp(&self) -> (hgatp: usize)
        ensures
            hgatp == self@.hgatp,
    {
        self.hgatp
    }

    /// Number of pages that the virtual machine shares with the hypervisor.
    pub fn number_of_shared_pages(&self) -> (number: usize)
        ensures
            number == self@.shared_pages.len(),
    {
        self.shared_pages.len()
    }

    /// Maps `shared_page` into the address space of the virtual machine.
    pub fn map_shared_page(&mut self, shared_page: SharedPage)
        ensures
            final(self)@ == (ConfidentialVmMemoryProtectorView {
                shared_pages: old(self)@.shared_pages.push(shared_page),
                ..old(self)@
            }),
    {
        self.shared_pages.push(shared_page);
    }
}

} // verus!
