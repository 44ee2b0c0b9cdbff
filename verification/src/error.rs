//! The library's error type.

use vstd::prelude::*;

verus! {

/// Why an overlay could not be created or updated.
#[derive(Debug)]
pub enum Error {
    /// This platform has no overlay backend.
    Unsupported,
    /// macOS: called off the main thread.
    NotMainThread,
    /// The OS refused to create or update the overlay.
    Os(String),
}

impl Error {
    /// The text shown to a user for this error.
    pub open spec fn spec_message(&self) -> Seq<char> {
        match self {
            Error::Unsupported => "colour overlays are not supported on this platform"@,
            Error::NotMainThread => "overlays must be created on the main thread"@,
            Error::Os(msg) => msg@,
        }
    }

    /// Renders the error for a user: a fixed sentence for the first two
    /// variants, the operating system's own message for `Os`.
    pub fn message(&self) -> (res: String)
        ensures
            res@ == self.spec_message(),
    {
        match self {
            Error::Unsupported => String::from_str("colour overlays are not supported on this platform"),
            Error::NotMainThread => String::from_str("overlays must be created on the main thread"),
            Error::Os(msg) => msg.clone(),
        }
    }
}

} // verus!
