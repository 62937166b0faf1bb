//! The bounds of the memory that the untrusted hypervisor owns, and addresses
//! that were checked against them.

use vstd::prelude::*;
use crate::error::Error;

verus! {

/// Describes where the non-confidential memory lies: the half-open range of
/// addresses from `non_confidential_memory_start` up to, and without,
/// `non_confidential_memory_end`.
#[derive(Clone, Copy, Debug)]
pub struct MemoryLayout {
    non_confidential_memory_start: usize,
    non_confidential_memory_end: usize,
}

/// An address that was checked to lie in the non-confidential memory. The
/// monitor never reads or writes through it.
#[derive(Debug)]
pub struct NonConfidentialMemoryAddress {
    address: usize,
}

/// An address in the physical address space of a confidential virtual machine.
#[derive(Clone, Copy, Debug, PartialEq, Eq, Structural)]
pub struct ConfidentialVmPhysicalAddress {
    pub address: usize,
}

impl MemoryLayout {
    /// First address of the non-confidential memory.
    pub closed spec fn spec_start(self) -> usize {
        self.non_confidential_memory_start
    }

    /// First address behind the non-confidential memory.
    pub closed spec fn spec_end(self) -> usize {
        self.non_confidential_memory_end
    }

    /// Whether `address` lies in the non-confidential memory.
    pub open spec fn spec_contains(self, address: int) -> bool {
        self.spec_start() <= address < self.spec_end()
    }

    /// Whether the `size` bytes that start at `address` all lie in the
    /// non-confidential memory.
    pub open spec fn spec_contains_range(self, address: int, size: int) -> bool {
        self.spec_start() <= address && address + size <= self.spec_end()
    }

    /// The layout whose non-confidential memory starts at
    /// `non_confidential_memory_start` and ends before
    /// `non_confidential_memory_end`.
    pub fn new(non_confidential_memory_start: usize, non_confidential_memory_end: usize) -> (layout:
        Self)
        ensures
            layout.spec_start() == non_confidential_memory_start,
            layout.spec_end() == non_confidential_memory_end,
    {
        Self { non_confidential_memory_start, non_confidential_memory_end }
    }

    /// First address of the non-confidential memory.
    pub fn non_confidential_memory_start(&self) -> (start: usize)
        ensures
            start == self.spec_start(),
    {
        self.non_confidential_memory_start
    }

    /// First address behind the non-confidential memory.
    pub fn non_confidential_memory_end(&self) -> (end: usize)
        ensures
            end == self.spec_end(),
    {
        self.non_confidential_memory_end
    }

    /// Tells whether `address` lies in the non-confidential memory.
    pub fn is_in_non_confidential_range(&self, address: usize) -> (inside: bool)
        ensures
            inside == self.spec_contains(address as int),
    {
        self.non_confidential_memory_start <= address && address
            < self.non_confidential_memory_end
    }

    /// The address `offset_in_bytes` behind `address`, if it still lies in the
    /// non-confidential memory.
    pub fn non_confidential_address_at_offset(
        &self,
        address: &NonConfidentialMemoryAddress,
        offset_in_bytes: usize,
    ) -> (result: Result<NonConfidentialMemoryAddress, Error>)
        ensures
            result is Ok <==> address.spec_usize() + offset_in_bytes < self.spec_end(),
            result matches Ok(moved) ==> moved.spec_usize() == address.spec_usize()
                + offset_in_bytes,
            result matches Err(error) ==> error == Error::AddressNotInNonConfidentialMemory,
    {
        match address.address.checked_add(offset_in_bytes) {
            Some(moved) => {
                if moved < self.non_confidential_memory_end {
                    Ok(NonConfidentialMemoryAddress { address: moved })
                } else {
                    Err(Error::AddressNotInNonConfidentialMemory)
                }
            },
            None => Err(Error::AddressNotInNonConfidentialMemory),
        }
    }
}

impl NonConfidentialMemoryAddress {
    /// The address as a number.
    pub closed spec fn spec_usize(self) -> usize {
        self.address
    }

    /// Accepts `address` if it lies in the non-confidential memory that
    /// `memory_layout` describes.
    pub fn new(address: usize, memory_layout: &MemoryLayout) -> (result: Result<Self, Error>)
        ensures
            result is Ok <==> memory_layout.spec_contains(address as int),
            result matches Ok(checked) ==> checked.spec_usize() == address,
            result matches Err(error) ==> error == Error::AddressNotInNonConfidentialMemory,
    {
        if memory_layout.is_in_non_confidential_range(address) {
            Ok(Self { address })
        } else {
            Err(Error::AddressNotInNonConfidentialMemory)
        }
    }

    /// The address as a number.
    pub fn usize(&self) -> (address: usize)
        ensures
            address == self.spec_usize(),
    {
        self.address
    }
}

impl ConfidentialVmPhysicalAddress {
    /// The address as a number.
    pub open spec fn spec_usize(self) -> usize {
        self.address
    }

    /// The address `address` of a confidential virtual machine.
    pub fn new(address: usize) -> (result: Self)
        ensures
            result.spec_usize() == address,
    {
        Self { address }
    }

    /// The address as a number.
    pub fn usize(&self) -> (address: usize)
        ensures
            address == self.spec_usize(),
    {
        self.address
    }
}

} // verus!
