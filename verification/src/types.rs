//! What the event source hands to the bridge.
use crate::json::Number;
use vstd::prelude::*;

verus! {

/// One detection of a licence plate.
#[derive(Debug, PartialEq, Eq)]
pub struct SpottedPlate {
    /// The plate id, in upper case.
    pub plate: String,
    /// The recogniser's confidence, as the JSON number that it reported.
    pub score: Number,
    pub vehicle_type: String,
    /// Where the stored picture of the vehicle can be fetched, if one was
    /// stored.
    pub image_url: Option<String>,
}

} // verus!
