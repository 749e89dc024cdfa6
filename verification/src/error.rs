use vstd::prelude::*;

verus! {

/// Failure reported by every fallible operation of the runtime.
#[derive(Clone, Copy, Debug, PartialEq, Eq)]
pub enum AraError {
    /// A caller-supplied value violates the documented input contract.
    InvalidArgument(&'static str),
    /// The operation is not allowed in the current lifecycle state.
    InvalidState(&'static str),
    /// The requested feature is not provided.
    Unsupported(&'static str),
    /// A host-supplied binary record is malformed.
    Abi(&'static str),
    /// An application delegate rejected the operation.
    Peer(&'static str),
}

impl AraError {
    /// Returns the static diagnostic carried by this error.
    pub fn message(&self) -> (m: &'static str)
        ensures
            m == match *self {
                AraError::InvalidArgument(s) => s,
                AraError::InvalidState(s) => s,
                AraError::Unsupported(s) => s,
                AraError::Abi(s) => s,
                AraError::Peer(s) => s,
            },
    {
        match self {
            AraError::InvalidArgument(s) => s,
            AraError::InvalidState(s) => s,
            AraError::Unsupported(s) => s,
            AraError::Abi(s) => s,
            AraError::Peer(s) => s,
        }
    }
}

} // verus!
