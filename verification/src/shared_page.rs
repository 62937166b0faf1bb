//! A page of non-confidential memory that a confidential virtual machine
//! shares with the hypervisor.

use vstd::prelude::*;
use crate::error::Error;
use crate::memory_layout::{ConfidentialVmPhysicalAddress, MemoryLayout, NonConfidentialMemoryAddress};

verus! {

/// Sizes of the pages that the address translation of a guest can map.
#[derive(Clone, Copy, Debug, PartialEq, Eq, Structural)]
pub enum PageSize {
    Size4KiB,
    Size2MiB,
    Size1GiB,
}

impl PageSize {
    /// Number of bytes in a page of this size.
    pub open spec fn spec_in_bytes(self) -> usize {
        match self {
            PageSize::Size4KiB => 0x1000,
            PageSize::Size2MiB => 0x20_0000,
            PageSize::Size1GiB => 0x4000_0000,
        }
    }

    /// Number of bytes in a page of this size.
    pub fn in_bytes(&self) -> (bytes: usize)
        ensures
            bytes == self.spec_in_bytes(),
            bytes >= 0x1000,
    {
        match self {
            PageSize::Size4KiB => 0x1000,
            PageSize::Size2MiB => 0x20_0000,
            PageSize::Size1GiB => 0x4000_0000,
        }
    }
}

/// What a confidential hart asks for when it wants to share a page: the
/// address at which the page shall appear in its virtual machine, and the size
/// of the page.
#[derive(Clone, Copy, Debug, PartialEq, Eq, Structural)]
pub struct SharePageRequest {
    pub confidential_vm_virtual_address: ConfidentialVmPhysicalAddress,
    pub page_size: PageSize,
}

impl SharePageRequest {
    /// The address at which the page shall appear in the virtual machine.
    pub open spec fn spec_confidential_vm_virtual_address(self) -> ConfidentialVmPhysicalAddress {
        self.confidential_vm_virtual_address
    }

    /// The size of the page.
    pub open spec fn spec_page_size(self) -> PageSize {
        self.page_size
    }

    /// The request to share a page of `page_size` at `address` of the virtual
    /// machine.
    pub open spec fn spec_new(address: usize, page_size: PageSize) -> SharePageRequest {
        SharePageRequest {
            confidential_vm_virtual_address: ConfidentialVmPhysicalAddress { address },
            page_size,
        }
    }

    /// A request to share a page of `page_size` at `address` of the virtual
    /// machine.
    pub fn new(address: usize, page_size: PageSize) -> (request: Self)
        ensures
            request == Self::spec_new(address, page_size),
    {
        Self { confidential_vm_virtual_address: ConfidentialVmPhysicalAddress::new(address), page_size }
    }

    /// The address at which the page shall appear in the virtual machine.
    pub fn confidential_vm_virtual_address(&self) -> (address: ConfidentialVmPhysicalAddress)
        ensures
            address == self.spec_confidential_vm_virtual_address(),
    {
        self.confidential_vm_virtual_address
    }

    /// The size of the page.
    pub fn page_size(&self) -> (size: PageSize)
        ensures
            size == self.spec_page_size(),
    {
        self.page_size
    }
}

/// A page in the non-confidential memory together with the address at which a
/// confidential virtual machine maps it.
///
/// The page belongs to the hypervisor, which may write to it at any time. The
/// monitor therefore only ever uses the address to install a mapping and never
/// reads or writes through it.
#[derive(Debug)]
pub struct SharedPage {
    hypervisor_address: NonConfidentialMemoryAddress,
    confidential_vm_virtual_address: ConfidentialVmPhysicalAddress,
    page_size: PageSize,
}

impl SharedPage {
    /// Address of the page in the non-confidential memory.
    pub closed spec fn spec_non_confidential_address(self) -> usize {
        self.hypervisor_address.spec_usize()
    }

    /// Address at which the confidential virtual machine maps the page.
    pub closed spec fn spec_confidential_vm_virtual_address(self) -> ConfidentialVmPhysicalAddress {
        self.confidential_vm_virtual_address
    }

    /// Size of the page.
    pub closed spec fn spec_page_size(self) -> PageSize {
        self.page_size
    }

    /// The whole page lies in the non-confidential memory that `memory_layout`
    /// describes.
    pub open spec fn wf(self, memory_layout: MemoryLayout) -> bool {
        memory_layout.spec_contains_range(
            self.spec_non_confidential_address() as int,
            self.spec_page_size().spec_in_bytes() as int,
        )
    }

    /// Checks the page that the hypervisor offers at `hypervisor_address` in
    /// answer to `request`.
    ///
    /// Succeeds exactly if every byte of the page, from its first to its last,
    /// lies in the non-confidential memory.
    pub fn new(hypervisor_address: usize, request: SharePageRequest, memory_layout: &MemoryLayout) -> (result:
        Result<Self, Error>)
        ensures
            result is Ok <==> memory_layout.spec_contains_range(
                hypervisor_address as int,
                request.spec_page_size().spec_in_bytes() as int,
            ),
            result matches Ok(page) ==> {
                &&& page.spec_non_confidential_address() == hypervisor_address
                &&& page.spec_confidential_vm_virtual_address()
                    == request.spec_confidential_vm_virtual_address()
                &&& page.spec_page_size() == request.spec_page_size()
                &&& page.wf(*memory_layout)
            },
            result matches Err(error) ==> error == Error::AddressNotInNonConfidentialMemory,
    {
        let page_size = request.page_size();
        let hypervisor_address = match NonConfidentialMemoryAddress::new(
            hypervisor_address,
            memory_layout,
        ) {
            Ok(address) => address,
            Err(error) => {
                return Err(error);
            },
        };
        match memory_layout.non_confidential_address_at_offset(
            &hypervisor_address,
            page_size.in_bytes() - 1,
        ) {
            Ok(_) => {},
            Err(error) => {
                return Err(error);
            },
        }
        let confidential_vm_virtual_address = request.confidential_vm_virtual_address();
        Ok(Self { hypervisor_address, confidential_vm_virtual_address, page_size })
    }

    /// Address of the page in the non-confidential memory.
    pub fn non_confidential_address(&self) -> (address: usize)
        ensures
            address == self.spec_non_confidential_address(),
    {
        self.hypervisor_address.usize()
    }

    /// Address at which the confidential virtual machine maps the page.
    pub fn confidential_vm_virtual_address(&self) -> (address: ConfidentialVmPhysicalAddress)
        ensures
            address == self.spec_confidential_vm_virtual_address(),
    {
        self.confidential_vm_virtual_address
    }

    /// Size of the page.
    pub fn page_size(&self) -> (size: PageSize)
        ensures
            size == self.spec_page_size(),
    {
        self.page_size
    }
}

/// A page whose last byte is the last byte of the non-confidential memory is
/// accepted, and the same page moved up by one byte is not.
pub proof fn lemma_shared_page_top_boundary(memory_layout: MemoryLayout, size: PageSize)
    requires
        memory_layout.spec_start() + size.spec_in_bytes() <= memory_layout.spec_end(),
    ensures
        memory_layout.spec_contains_range(
            memory_layout.spec_end() - size.spec_in_bytes(),
            size.spec_in_bytes() as int,
        ),
        !memory_layout.spec_contains_range(
            memory_layout.spec_end() - size.spec_in_bytes() + 1,
            size.spec_in_bytes() as int,
        ),
{
}

} // verus!
