use vstd::prelude::*;

verus! {

/// Why an operation of this library failed.
#[derive(Clone, Copy, Debug, PartialEq, Eq, Structural)]
pub enum Error {
    /// Every candidate source of a track failed, or a track that was looked
    /// up by its position is not part of the album.
    NotFound,
    /// A duration, a timestamp, a position or another piece of declared data
    /// does not have the form it must have.
    InvalidData,
    /// The tag writer rejected what it was given.
    Unsupported,
    /// The file system or an external program failed.
    Io,
}

impl Error {
    /// A short text for people, one per kind of failure.
    pub fn message(&self) -> (text: String)
        ensures
            text@ == match *self {
                Error::NotFound => "not found"@,
                Error::InvalidData => "invalid data"@,
                Error::Unsupported => "unsupported"@,
                Error::Io => "input or output failed"@,
            },
    {
        match self {
            Error::NotFound => String::from_str("not found"),
            Error::InvalidData => String::from_str("invalid data"),
            Error::Unsupported => String::from_str("unsupported"),
            Error::Io => String::from_str("input or output failed"),
        }
    }
}

} // verus!
