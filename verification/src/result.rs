//! Errors of the extraction pipeline.

use vstd::prelude::*;

verus! {

/// What went wrong.
#[derive(Debug, Clone, Copy, PartialEq, Eq, Structural, Hash)]
pub enum Error {
    /// A client was configured without any endpoint.
    EmptyEndpoints,
    /// A network call failed or timed out.
    Transport,
    /// A response did not have the expected shape, or a block could not be
    /// turned into its record.
    ParseBlockFailed,
    /// A height or cursor text was not a number that fits 64 bits.
    ParseInt,
    /// A block or transaction came back that was not the one asked for.
    UnexpectedBlock,
    /// The cursor could not be written to its durable location.
    Persistence,
}

/// The class an [`Error`] belongs to; it decides how the error is handled.
#[derive(Debug, Clone, Copy, PartialEq, Eq, Structural, Hash)]
pub enum ErrorKind {
    /// Wrong configuration: fatal at construction.
    Config,
    /// Network or timeout: transient, may be retried.
    Transport,
    /// Malformed remote data: not retried for that call.
    Parse,
    /// Cursor storage: fatal, never retried.
    Persistence,
}

impl Error {
    /// The class of this error.
    pub open spec fn spec_kind(self) -> ErrorKind {
        match self {
            Error::EmptyEndpoints => ErrorKind::Config,
            Error::Transport => ErrorKind::Transport,
            Error::ParseBlockFailed => ErrorKind::Parse,
            Error::ParseInt => ErrorKind::Parse,
            Error::UnexpectedBlock => ErrorKind::Parse,
            Error::Persistence => ErrorKind::Persistence,
        }
    }

    /// The class of this error.
    #[verifier::when_used_as_spec(spec_kind)]
    pub fn kind(self) -> (k: ErrorKind)
        ensures
            k == self.spec_kind(),
    {
        match self {
            Error::EmptyEndpoints => ErrorKind::Config,
            Error::Transport => ErrorKind::Transport,
            Error::ParseBlockFailed => ErrorKind::Parse,
            Error::ParseInt => ErrorKind::Parse,
            Error::UnexpectedBlock => ErrorKind::Parse,
            Error::Persistence => ErrorKind::Persistence,
        }
    }

    /// Whether a later attempt of the same call may succeed: true of
    /// transport errors only.
    pub open spec fn spec_is_transient(self) -> bool {
        self.spec_kind() == ErrorKind::Transport
    }

    /// Whether a later attempt of the same call may succeed.
    #[verifier::when_used_as_spec(spec_is_transient)]
    pub fn is_transient(self) -> (b: bool)
        ensures
            b == self.spec_is_transient(),
    {
        self.kind() == ErrorKind::Transport
    }
}

} // verus!
