//! What can go wrong during a run, and what it concerns.
use vstd::prelude::*;

use crate::resource::ResourceId;

verus! {

/// Why bytes could not be carried from one representation to the other.
#[derive(Debug, Clone, Copy, PartialEq, Eq, Structural)]
pub enum FormatError {
    /// Text was required and the bytes are not UTF-8.
    NotUtf8,
    /// The bytes are not a JSON document.
    BadJson,
    /// The text is not a TOML document.
    BadToml,
    /// The parsed value has no rendering in the target format.
    Unencodable,
}

/// The kind of a failure that ends a run.
#[derive(Debug, Clone, Copy, PartialEq, Eq, Structural)]
pub enum ErrorKind {
    /// The request did not complete.
    Transport,
    /// A payload could not be transcoded.
    Format(FormatError),
    /// The local directory could not be read or written.
    Io,
    /// The appliance has nothing at a requested slot.
    NotFound,
    /// The appliance URL cannot take a route.
    BaseUrl,
}

/// What a failure concerns: the status query or one resource.
#[derive(Debug, Clone, Copy, PartialEq, Eq, Structural)]
pub enum Target {
    Status,
    Resource(ResourceId),
}

/// A failure that ends a run, with what it concerns.
#[derive(Debug, Clone, Copy, PartialEq, Eq, Structural)]
pub struct SyncError {
    pub kind: ErrorKind,
    pub target: Target,
}

impl SyncError {
    /// A failure about one resource.
    pub open spec fn spec_about(kind: ErrorKind, id: ResourceId) -> SyncError {
        SyncError { kind, target: Target::Resource(id) }
    }

    /// A failure about one resource.
    #[verifier::when_used_as_spec(spec_about)]
    pub fn about(kind: ErrorKind, id: ResourceId) -> (r: SyncError)
        ensures
            r == (SyncError { kind, target: Target::Resource(id) }),
    {
        SyncError { kind, target: Target::Resource(id) }
    }
}

} // verus!
