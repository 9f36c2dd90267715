use vstd::prelude::*;

verus! {

/// The failure vocabulary shared by every component of the crate.
///
/// Each variant marks one way a call across the native boundary, or the
/// preparation for such a call, can fail. All boundary failures are translated
/// into one of these at the point of the native call and returned to the
/// immediate caller; there is no retry and no partial result.
#[derive(Debug, Clone, PartialEq, Eq)]
pub enum Error {
    /// Text destined for the native boundary contains an embedded terminator
    /// (NUL) byte, so it cannot be passed as a terminator-delimited string.
    EncodingError,
    /// The native connect entrypoint returned a null handle at either
    /// indirection level.
    ConnectionFailed,
    /// The native query entrypoint returned a null result pointer.
    NoResult,
    /// The native layer ran the query but flagged failure; the message is
    /// passed through verbatim.
    QueryError(String),
    /// Strict text decoding found bytes that are not valid UTF-8.
    NonUtf8Sequence,
    /// A filesystem path has no valid textual representation for the boundary.
    PathError,
    /// The session's working directory is not writable.
    InsufficientPermissions,
    /// Creating or probing the session's working directory failed.
    IoError,
}

impl Error {
    /// A short fixed description of the variant, for callers that need to
    /// render the error as text.
    pub fn describe(&self) -> (r: &'static str)
        ensures
            r@ == spec_describe(*self),
    {
        match self {
            Error::EncodingError => "embedded terminator byte in boundary text",
            Error::ConnectionFailed => "connection failed",
            Error::NoResult => "no result",
            Error::QueryError(_) => "query error",
            Error::NonUtf8Sequence => "non UTF-8 sequence",
            Error::PathError => "invalid path",
            Error::InsufficientPermissions => "insufficient dir permissions",
            Error::IoError => "directory I/O failed",
        }
    }
}

/// The text `describe` returns for each variant.
pub open spec fn spec_describe(e: Error) -> Seq<char> {
    match e {
        Error::EncodingError => "embedded terminator byte in boundary text"@,
        Error::ConnectionFailed => "connection failed"@,
        Error::NoResult => "no result"@,
        Error::QueryError(_) => "query error"@,
        Error::NonUtf8Sequence => "non UTF-8 sequence"@,
        Error::PathError => "invalid path"@,
        Error::InsufficientPermissions => "insufficient dir permissions"@,
        Error::IoError => "directory I/O failed"@,
    }
}

} // verus!
