//! A verified runtime for networks of IEC 61499-style function blocks.
//!
//! A function block is a named unit with typed event and data ports whose
//! behaviour is governed by a small finite state machine (its execution
//! control chart).  The runtime owns a set of block instances, routes events
//! and data between them along explicitly wired connections, and advances
//! each block one transition at a time.
//!
//! Every operation of the engine carries a contract over a mathematical view
//! of the block and runtime state, so the routing rules (type-checked wiring,
//! single-slot event inputs, deterministic delivery order) are proved rather
//! than tested.

use vstd::prelude::*;

pub mod cli;
pub mod fb;
pub mod fb_impl;
pub mod run_time;

verus! {

/// How a capability-interface call or a wiring operation can fail.
///
/// Every failure is reported as a value; no engine operation panics.
/// `InputEventOccupied` is special: during event delivery it marks an
/// expected, retryable condition (fan-in contention), not a broken topology.
#[derive(Clone, Copy, Debug, PartialEq, Eq, Structural)]
pub enum FbError {
    /// An event name not declared by the addressed block.
    UnknownEvent,
    /// A data field name not declared by the addressed block.
    UnknownDataField,
    /// A supplied buffer's variant differs from the field's declared kind.
    DataKindMismatch,
    /// A block with the same instance name is already registered.
    DuplicateInstanceName,
    /// A connection would tie a block instance to itself.
    SelfConnection,
    /// The destination's single event-input slot is already pending.
    InputEventOccupied,
    /// A connection endpoint names a block that is not registered.
    UnregisteredInstanceReference,
}

/// String equality on the character sequences of two string slices.
///
/// The engine compares instance and field names frequently; this helper
/// gives those comparisons a proved meaning over the views.
pub fn str_eq(a: &str, b: &str) -> (r: bool)
    ensures
        r == (a@ == b@),
{
    let owned_a: String = a.to_owned();
    let owned_b: String = b.to_owned();
    owned_a == owned_b
}

/// Whether `s` occurs among the strings of `v`.
pub fn contains_str(v: &Vec<String>, s: &str) -> (r: bool)
    ensures
        r == v.deep_view().contains(s@),
{
    let mut i: usize = 0;
    while i < v.len()
        invariant
            i <= v@.len(),
            forall|k: int| 0 <= k < i ==> v.deep_view()[k] != s@,
        decreases v@.len() - i,
    {
        if str_eq(v[i].as_str(), s) {
            proof {
                assert(v.deep_view()[i as int] == s@);
            }
            return true;
        }
        i = i + 1;
    }
    proof {
        assert forall|k: int| 0 <= k < v.deep_view().len() implies v.deep_view()[k] != s@ by {}
    }
    false
}

} // verus!
