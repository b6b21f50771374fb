//! What can go wrong.

use vstd::prelude::*;

verus! {

/// Why an operation was refused.
#[derive(Clone, Copy, Debug, PartialEq, Eq, Structural)]
pub enum TraceError {
    /// The kernel tracing facility does not exist on this platform.
    Unsupported,
    /// A span was created under an identifier that already has a context.
    DuplicateSpan,
    /// A span was recorded, entered or closed that has no context.
    UnknownSpan,
}

impl TraceError {
    /// The wording of the error.
    pub open spec fn text(self) -> Seq<char> {
        match self {
            TraceError::Unsupported => "atrace does not exist on this platform"@,
            TraceError::DuplicateSpan => "span already has a context"@,
            TraceError::UnknownSpan => "span has no context"@,
        }
    }

    /// The wording of the error.
    pub fn message(&self) -> (message: String)
        ensures
            message@ == self.text(),
    {
        match self {
            TraceError::Unsupported => "atrace does not exist on this platform".to_owned(),
            TraceError::DuplicateSpan => "span already has a context".to_owned(),
            TraceError::UnknownSpan => "span has no context".to_owned(),
        }
    }
}

} // verus!
