use vstd::prelude::*;
use vstd::string::StringExecFns;

verus! {

/// A failure of one command call.
///
/// Every command either succeeds with a decoded confirmation or fails with
/// exactly one of these. `OutOfBounds` is raised before any network activity
/// when the strength argument falls outside the command's accepted range.
/// `TransportFailure` wraps any failure of the HTTP send step or of decoding
/// the response body, carrying the underlying cause's message when the
/// transport could supply one.
#[derive(Debug)]
pub enum Error {
    /// The strength argument fell outside the command's accepted range.
    OutOfBounds,
    /// The request could not be delivered, or the response body could not be
    /// decoded; holds the underlying cause's message when one was available.
    TransportFailure(Option<String>),
}

impl Error {
    /// The human-readable description of this error: a fixed message for a
    /// range violation, the underlying cause's message for a transport
    /// failure, or a generic fallback when no cause was attached.
    pub open spec fn message_spec(&self) -> Seq<char> {
        match self {
            Error::OutOfBounds => "strength is out of bounds"@,
            Error::TransportFailure(Some(cause)) => cause@,
            Error::TransportFailure(None) => "Unknown error"@,
        }
    }

    /// Render this error as its human-readable message.
    pub fn message(&self) -> (m: String)
        ensures
            m@ == self.message_spec(),
    {
        match self {
            Error::OutOfBounds => String::from_str("strength is out of bounds"),
            Error::TransportFailure(Some(cause)) => cause.clone(),
            Error::TransportFailure(None) => String::from_str("Unknown error"),
        }
    }

    /// Whether this error is a range violation.
    pub fn is_out_of_bounds(&self) -> (b: bool)
        ensures
            b == (self is OutOfBounds),
    {
        matches!(self, Error::OutOfBounds)
    }

    /// Whether this error came from the transport or from response decoding.
    pub fn is_transport_failure(&self) -> (b: bool)
        ensures
            b == (self is TransportFailure),
    {
        matches!(self, Error::TransportFailure(_))
    }
}

} // verus!
