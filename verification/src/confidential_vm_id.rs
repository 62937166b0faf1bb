//! Identifiers of confidential virtual machines.

use vstd::prelude::*;

verus! {

/// Names one confidential virtual machine. The registry hands each identifier
/// out once and never to two machines that exist at the same time.
#[derive(Clone, Copy, Debug, PartialEq, Eq, Structural)]
pub struct ConfidentialVmId {
    id: usize,
}

impl ConfidentialVmId {
    /// The identifier as a number.
    pub closed spec fn spec_usize(self) -> usize {
        self.id
    }

    /// The identifier with the number `id`.
    pub fn new(id: usize) -> (result: Self)
        ensures
            result.spec_usize() == id,
    {
        Self { id }
    }

    /// The number names the identifier: two identifiers are the same exactly
    /// where their numbers are.
    pub proof fn lemma_number_names_the_id(self, other: ConfidentialVmId)
        ensures
            self.spec_usize() == other.spec_usize() <==> self == other,
    {
    }

    /// The identifier as a number.
    pub fn usize(&self) -> (id: usize)
        ensures
            id == self.spec_usize(),
    {
        self.id
    }
}

} // verus!
