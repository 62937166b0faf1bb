//! Recoverable errors that are handed back across the boundary between the
//! confidential and the non-confidential world.

use vstd::prelude::*;

verus! {

/// A recoverable failure. Each one is reported to the caller as a failed call
/// and never changes the state of the monitor.
#[derive(Clone, Copy, Debug, PartialEq, Eq, Structural)]
pub enum Error {
    /// The address does not lie within the non-confidential memory.
    AddressNotInNonConfidentialMemory,
    /// The description of the memory of a virtual machine is not valid.
    InvalidMemoryLayout,
    /// The registry cannot hand out another identifier.
    TooManyConfidentialVms,
    /// No confidential virtual machine has the given identifier.
    InvalidConfidentialVmId,
    /// The confidential virtual machine has no hart with the given identifier.
    InvalidHartId,
    /// The hart is currently assigned to a hardware hart.
    HartAlreadyRunning,
    /// The hart is not in the `Started` state.
    CannotSuspendNotStartedHart,
    /// The hart is not in the `Started` state.
    CannotStopNotStartedHart,
    /// The hart is not in the `Suspended` state.
    CannotStartNotSuspendedHart,
    /// The hart already waits for the result of an earlier request.
    PendingRequest,
    /// The queue of inter-hart requests of a target hart is full.
    ReachedMaxNumberOfRemoteHartRequests,
    /// The physical notification of a target hart failed.
    InterruptSendingError,
}

impl Error {
    /// The code that a failed call reports to the confidential hart.
    pub open spec fn spec_code(self) -> usize {
        match self {
            Error::AddressNotInNonConfidentialMemory => 1,
            Error::InvalidMemoryLayout => 2,
            Error::TooManyConfidentialVms => 3,
            Error::InvalidConfidentialVmId => 4,
            Error::InvalidHartId => 5,
            Error::HartAlreadyRunning => 6,
            Error::CannotSuspendNotStartedHart => 7,
            Error::CannotStopNotStartedHart => 8,
            Error::CannotStartNotSuspendedHart => 9,
            Error::PendingRequest => 10,
            Error::ReachedMaxNumberOfRemoteHartRequests => 11,
            Error::InterruptSendingError => 12,
        }
    }

    /// The code that a failed call reports to the confidential hart.
    pub fn code(&self) -> (code: usize)
        ensures
            code == self.spec_code(),
    {
        match self {
            Error::AddressNotInNonConfidentialMemory => 1,
            Error::InvalidMemoryLayout => 2,
            Error::TooManyConfidentialVms => 3,
            Error::InvalidConfidentialVmId => 4,
            Error::InvalidHartId => 5,
            Error::HartAlreadyRunning => 6,
            Error::CannotSuspendNotStartedHart => 7,
            Error::CannotStopNotStartedHart => 8,
            Error::CannotStartNotSuspendedHart => 9,
            Error::PendingRequest => 10,
            Error::ReachedMaxNumberOfRemoteHartRequests => 11,
            Error::InterruptSendingError => 12,
        }
    }
}

} // verus!
