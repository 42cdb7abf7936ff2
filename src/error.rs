//! Errors of the platform layer.
use vstd::prelude::*;

verus! {

/// An error of this platform layer.
#[derive(Clone, Copy, Debug, PartialEq, Eq, Structural)]
pub enum Error {
    /// The requested feature is not implemented by this platform.
    Unimplemented,
    /// A coordinate lies beyond the range that the geometry accepts.
    OutOfRange,
    /// A window was built without a handler.
    MissingHandler,
    /// Every window id has been used.
    OutOfIds,
}

impl Error {
    /// A sentence that describes the error.
    pub fn message(&self) -> (r: &'static str)
        ensures
            *self == Error::Unimplemented ==> r@ == "Requested an unimplemented feature"@,
            *self == Error::OutOfRange ==> r@ == "A coordinate is out of range"@,
            *self == Error::MissingHandler ==> r@ == "The window has no handler"@,
            *self == Error::OutOfIds ==> r@ == "No window id is left"@,
    {
        proof {
            reveal_strlit("Requested an unimplemented feature");
            reveal_strlit("A coordinate is out of range");
            reveal_strlit("The window has no handler");
            reveal_strlit("No window id is left");
        }
        match self {
            Error::Unimplemented => "Requested an unimplemented feature",
            Error::OutOfRange => "A coordinate is out of range",
            Error::MissingHandler => "The window has no handler",
            Error::OutOfIds => "No window id is left",
        }
    }
}

/// An error that the shell hands to the toolkit.
#[derive(Clone, Copy, Debug, PartialEq, Eq, Structural)]
pub enum ShellError {
    /// The platform failed.
    Platform(Error),
    /// The window that a handle named is gone.
    WindowDropped,
}

} // verus!
