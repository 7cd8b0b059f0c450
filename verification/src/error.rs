//! What the library reports to its callers when it declines an operation.

use vstd::prelude::*;

verus! {

/// The reason an operation was declined.
#[derive(Clone, Copy, Debug, PartialEq, Eq, Structural)]
pub enum Error {
    /// A player was to be spawned while another one is alive.
    PlayerExists,
    /// The bounds of the field were asked for while there is no field.
    NoField,
    /// A field was described with a negative width or height.
    NegativeBounds,
    /// A vector of length zero was to be normalized.
    ZeroVector,
}

/// The two families of errors.
#[derive(Clone, Copy, Debug, PartialEq, Eq, Structural)]
pub enum ErrorKind {
    /// The state or the arguments break a rule of the operation. The caller
    /// is told.
    Precondition,
    /// The input has no meaningful result. Callers inside the library
    /// recover with a fixed default.
    DegenerateInput,
}

impl Error {
    /// The family of an error.
    pub open spec fn kind_of(self) -> ErrorKind {
        match self {
            Error::PlayerExists => ErrorKind::Precondition,
            Error::NoField => ErrorKind::Precondition,
            Error::NegativeBounds => ErrorKind::Precondition,
            Error::ZeroVector => ErrorKind::DegenerateInput,
        }
    }

    /// The family of this error.
    pub fn kind(&self) -> (k: ErrorKind)
        ensures
            k == self.kind_of(),
    {
        match self {
            Error::PlayerExists => ErrorKind::Precondition,
            Error::NoField => ErrorKind::Precondition,
            Error::NegativeBounds => ErrorKind::Precondition,
            Error::ZeroVector => ErrorKind::DegenerateInput,
        }
    }
}

/// The result of an operation that may be declined.
pub type Result<T> = core::result::Result<T, Error>;

} // verus!
