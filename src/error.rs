use vstd::prelude::*;

verus! {

/// Why an operation on a DOI did not succeed.
#[derive(Debug, Clone, PartialEq, Eq)]
pub enum DoiError {
    /// The DOI is not set, but the operation needs it.
    NotSet,
    /// The resolver answered with a status code that the operation rejects.
    Rejected(u16),
    /// The request did not get an answer (network, TLS, ...); the transport's
    /// own description of the failure.
    Transport(String),
    /// The body of a JSON reply is not valid JSON.
    Parse(String),
    /// A person record holds no part of a name.
    EmptyName,
    /// The proxy URL given to the builder cannot be used.
    InvalidProxy,
}

} // verus!
