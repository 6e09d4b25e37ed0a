use vstd::prelude::*;

verus! {

/// Stable, machine-comparable kinds of failure.
#[derive(Clone, Copy, Debug, PartialEq, Eq, Structural)]
pub enum ErrorKind {
    /// TCP or HTTP failure.
    Transport,
    /// An outbound request or a broker acquire ran past its deadline.
    Timeout,
    /// A response body was not UTF-8 or not the expected JSON.
    Decode,
    /// A field that should hold a hexadecimal quantity did not.
    Hex,
    /// A transfer log lacks one of its address topics, or one is malformed.
    Topics,
    /// Checked arithmetic overflowed.
    Overflow,
    /// The message broker refused or lost a publish.
    Broker,
    /// A logic invariant was broken.
    Internal,
    /// A malformed inbound request.
    BadRequest,
}

/// The HTTP status that the inbound API answers for each kind of error.
pub open spec fn status_of(kind: ErrorKind) -> u16 {
    match kind {
        ErrorKind::BadRequest => 400,
        ErrorKind::Transport | ErrorKind::Timeout | ErrorKind::Broker => 502,
        _ => 500,
    }
}

impl ErrorKind {
    /// Maps an error to the HTTP status of the inbound API.
    pub fn http_status(&self) -> (r: u16)
        ensures
            r == status_of(*self),
    {
        match self {
            ErrorKind::BadRequest => 400,
            ErrorKind::Transport | ErrorKind::Timeout | ErrorKind::Broker => 502,
            _ => 500,
        }
    }
}

} // verus!
