use vstd::prelude::*;

verus! {

/// Why a lookup produced no holidays.
#[derive(Debug, Clone, Copy, PartialEq, Eq, Structural)]
pub enum FetchError {
    /// The transport failed, or the provider answered with an error status
    /// and a body that is not a well-formed envelope.
    NetworkError,
    /// The body is not JSON, or lacks a field that the records require.
    MalformedPayload,
}

} // verus!
