//! Read-only display snapshots of block state.
//!
//! A renderer consumes these plain labels; it can observe the engine through
//! them but never mutate it.

use vstd::prelude::*;

verus! {

/// A display snapshot of a voter block: its state label, one
/// RECEIVED/SENT/INACTIVE label per event, and one TRUE/FALSE label per data
/// field.
#[derive(Clone, Copy, Debug)]
pub struct VoterInformation {
    pub ecc: &'static str,
    pub vote: &'static str,
    pub reset: &'static str,
    pub voted: &'static str,
    pub ready: &'static str,
    pub a: &'static str,
    pub b: &'static str,
    pub c: &'static str,
    pub state: &'static str,
}

} // verus!
