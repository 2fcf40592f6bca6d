//! The ways a projection request can fail, and how each is reported.
use vstd::prelude::*;

verus! {

/// Why a projection could not be delivered.
#[derive(Debug, Clone, Copy, PartialEq, Eq, Structural)]
pub enum Failure {
    /// One of the four inputs is negative.
    InvalidInput,
    /// The chart could not be drawn or written.
    RenderingFailure,
    /// The snapshots could not be encoded as JSON.
    SerializationFailure,
}

/// The HTTP status that reports `f`: a client error for bad input, a server
/// error otherwise.
pub open spec fn status_of(f: Failure) -> u16 {
    match f {
        Failure::InvalidInput => 400,
        Failure::RenderingFailure => 500,
        Failure::SerializationFailure => 500,
    }
}

impl Failure {
    /// The HTTP status that reports this failure.
    pub fn http_status(&self) -> (r: u16)
        ensures
            r == status_of(*self),
    {
        match self {
            Failure::InvalidInput => 400,
            Failure::RenderingFailure => 500,
            Failure::SerializationFailure => 500,
        }
    }

    /// The message shown to the user for this failure.
    pub fn message(&self) -> (r: &'static str)
        ensures
            *self == Failure::InvalidInput ==> r@ == "Negative values are not allowed"@,
            *self == Failure::RenderingFailure ==> r@ == "Failed to plot summary"@,
            *self == Failure::SerializationFailure ==> r@ == "Failed to serialize to JSON"@,
    {
        match self {
            Failure::InvalidInput => "Negative values are not allowed",
            Failure::RenderingFailure => "Failed to plot summary",
            Failure::SerializationFailure => "Failed to serialize to JSON",
        }
    }
}

} // verus!
