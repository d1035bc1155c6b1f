//! Object-store vocabulary shared by the S3 client and the archive replay:
//! object listings and the errors of fetching objects.

use vstd::prelude::*;

verus! {

/// The kind of a local I/O failure.
#[derive(Debug, Clone, Copy, PartialEq, Eq, Structural)]
pub enum IoKind {
    NotFound,
    PermissionDenied,
    Other,
}

/// Why an object could not be listed or fetched.
#[derive(Debug, Clone, PartialEq, Eq)]
pub enum EntrepotError {
    /// The store answered with a non-retryable HTTP status.
    Status { status: u16, key: String, body: String },
    /// A local file could not be read.
    Io { key: String, kind: IoKind },
    /// The connection failed.
    Transport(String),
    /// Retries ran out.
    Exhausted { attempts: u32, key: String, last: String },
    /// A listing page could not be read.
    ListParse(String),
    /// Credentials are missing.
    Credentials(String),
    /// An object's payload could not be decoded.
    Decode { key: String, reason: String },
}

/// One object of a listing.
#[derive(Debug, Clone, PartialEq, Eq)]
pub struct ObjectMeta {
    pub key: String,
    pub size: u64,
    pub etag: Option<String>,
    pub last_modified: Option<String>,
}

/// Whether an error only says that the object is not there: an HTTP 404, or
/// a local file that does not exist.
pub open spec fn is_absent(err: EntrepotError) -> bool {
    match err {
        EntrepotError::Status { status, .. } => status == 404,
        EntrepotError::Io { kind, .. } => kind == IoKind::NotFound,
        _ => false,
    }
}

/// Whether an error only says that the object is not there.
pub fn object_absent(err: &EntrepotError) -> (b: bool)
    ensures
        b == is_absent(*err),
{
    match err {
        EntrepotError::Status { status, .. } => *status == 404,
        EntrepotError::Io { kind, .. } => match kind {
            IoKind::NotFound => true,
            _ => false,
        },
        _ => false,
    }
}

} // verus!
