//! The appliance's status document, handed on as it was decoded.
use vstd::prelude::*;

use crate::error::ErrorKind;
use crate::error::FormatError;
use crate::error::SyncError;
use crate::error::Target;
use crate::transcode::json_accepts;
use crate::transcode::json_pretty_of;
use crate::transcode::json_reformat;

verus! {

/// A failure of the status query.
pub open spec fn status_failure(kind: ErrorKind) -> SyncError {
    SyncError { kind, target: Target::Status }
}

/// The status response's JSON value, decoded and rendered again as indented
/// JSON for display, with nothing added, dropped or renamed.
pub fn render_status(body: &[u8]) -> (r: Result<Vec<u8>, SyncError>)
    ensures
        json_accepts(body@) ==> (r matches Ok(t) && t@ == json_pretty_of(body@)),
        !json_accepts(body@) ==> r == Err::<Vec<u8>, SyncError>(
            status_failure(ErrorKind::Format(FormatError::BadJson)),
        ),
{
    match json_reformat(body) {
        Ok(Ok(t)) => Ok(t),
        Ok(Err(_)) => Err(SyncError { kind: ErrorKind::Format(FormatError::Unencodable), target: Target::Status }),
        Err(_) => Err(SyncError { kind: ErrorKind::Format(FormatError::BadJson), target: Target::Status }),
    }
}

} // verus!
