//! What can go wrong with a request.

use vstd::prelude::*;

verus! {

/// Why the handler could not be set up, or why a request ended without
/// showing the complete reply.
#[derive(Clone, Copy, Debug, PartialEq, Eq, Structural)]
pub enum Error {
    /// The configuration is unusable: the trigger prefix is empty or the
    /// flush interval is zero.
    Configuration,
    /// The placeholder message could not be created; nothing was streamed.
    Placeholder,
    /// The fragment source failed before it signalled its end.
    Source,
    /// The sink rejected the final flush, the edit that carries the complete
    /// reply once the source has ended.
    FinalEdit,
}

impl Error {
    /// The text of [`Error::describe`].
    pub open spec fn description(self) -> Seq<char> {
        match self {
            Error::Configuration => "invalid configuration"@,
            Error::Placeholder => "the placeholder message could not be created"@,
            Error::Source => "the fragment source failed"@,
            Error::FinalEdit => "the final edit was rejected"@,
        }
    }

    /// A short description for logs.
    pub fn describe(&self) -> (text: &'static str)
        ensures
            text@ == self.description(),
    {
        match self {
            Error::Configuration => "invalid configuration",
            Error::Placeholder => "the placeholder message could not be created",
            Error::Source => "the fragment source failed",
            Error::FinalEdit => "the final edit was rejected",
        }
    }
}

} // verus!
