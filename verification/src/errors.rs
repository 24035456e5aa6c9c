//! The failures a run can surface.

use vstd::prelude::*;

verus! {

/// Everything that can go wrong in a run, each variant carrying the
/// human-readable message that the exit adapter will emit.
#[derive(Debug)]
pub enum Error {
    /// The verbosity count was out of range.
    Config { message: String },
    /// The specification document could not be produced or written out.
    SpecGeneration { message: String },
    /// The external serve collaborator failed; its message is kept verbatim.
    Service { message: String },
}

impl Error {
    /// The message carried by the error, whichever variant holds it.
    pub open spec fn message_view(&self) -> Seq<char> {
        match self {
            Error::Config { message } => message@,
            Error::SpecGeneration { message } => message@,
            Error::Service { message } => message@,
        }
    }

    /// Borrow the carried message.
    pub fn message(&self) -> (r: &String)
        ensures
            r@ == self.message_view(),
    {
        match self {
            Error::Config { message } => message,
            Error::SpecGeneration { message } => message,
            Error::Service { message } => message,
        }
    }
}

} // verus!
