//! The value records of a tracking query: one checkpoint per status event,
//! the payload that carries the ordered checkpoint list, and the response
//! envelope around it.

use vstd::prelude::*;

verus! {

/// One timestamped status event in a parcel's tracking history, exactly as
/// the remote API reports it: the timestamp and the raw status code are
/// opaque text and are never parsed further.
#[derive(Debug)]
pub struct Checkpoint {
    pub time: String,
    pub status_raw: String,
}

/// The tracking payload: the checkpoints in the order the server sent them.
/// The order is preserved exactly; nothing resorts it.
#[derive(Debug)]
pub struct TrackingData {
    pub checkpoints: Vec<Checkpoint>,
}

/// The response envelope: a single top-level object holding the payload.
#[derive(Debug)]
pub struct ApiResponse {
    pub data: TrackingData,
}

} // verus!
