//! What became of each resource of a run.
use vstd::prelude::*;

use crate::resource::ResourceId;

verus! {

/// Why a resource was passed over.
#[derive(Debug, Clone, Copy, PartialEq, Eq, Structural)]
pub enum SkipReason {
    /// Its local file does not exist.
    NotFound,
}

/// The result of one resource of a run that did not fail.
#[derive(Debug, Clone, Copy, PartialEq, Eq, Structural)]
pub enum Outcome {
    /// Downloaded and written to its local path.
    Fetched(ResourceId),
    /// Read from its local path and sent to the appliance.
    Uploaded(ResourceId),
    /// Passed over.
    Skipped(ResourceId, SkipReason),
}

impl Outcome {
    /// The resource the outcome is about.
    pub open spec fn id(self) -> ResourceId {
        match self {
            Outcome::Fetched(id) => id,
            Outcome::Uploaded(id) => id,
            Outcome::Skipped(id, _) => id,
        }
    }
}

} // verus!
