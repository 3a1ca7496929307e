//! Plain selector types for a front end: which block implementation to
//! exercise, in which mode, and with which pre-scripted stimulus sequence.
//!
//! These carry no parsing logic; a command-line front end maps its own
//! argument types onto them.

use vstd::prelude::*;

verus! {

/// Which engine flavour a front end runs.
#[derive(Clone, Copy, Debug, PartialEq, Eq, Structural)]
pub enum Implementation {
    PrototypeBasic,
    PrototypeSignals,
    Runtime,
}

impl Default for Implementation {
    fn default() -> (r: Self)
        ensures
            r is PrototypeBasic,
    {
        Implementation::PrototypeBasic
    }
}

/// Whether a front end replays a scripted sequence or reads commands.
#[derive(Clone, Copy, Debug, PartialEq, Eq, Structural)]
pub enum Mode {
    Sequence,
    Interactive,
}

impl Default for Mode {
    fn default() -> (r: Self)
        ensures
            r is Sequence,
    {
        Mode::Sequence
    }
}

/// A pre-scripted stimulus sequence for the voter block.
#[derive(Clone, Copy, Debug, PartialEq, Eq, Structural)]
pub enum Sequence {
    PositiveVote,
    NegativeVote,
    VotedReset,
    UnvotedReset,
}

impl Default for Sequence {
    fn default() -> (r: Self)
        ensures
            r is VotedReset,
    {
        Sequence::VotedReset
    }
}

/// The complete selection a front end hands to the engine.
#[derive(Clone, Copy, Debug)]
pub struct Args {
    pub implementation: Implementation,
    pub mode: Mode,
    pub sequence: Sequence,
}

impl Default for Args {
    fn default() -> (r: Self)
        ensures
            r.implementation is PrototypeBasic,
            r.mode is Sequence,
            r.sequence is VotedReset,
    {
        Args {
            implementation: Implementation::PrototypeBasic,
            mode: Mode::Sequence,
            sequence: Sequence::VotedReset,
        }
    }
}

} // verus!
