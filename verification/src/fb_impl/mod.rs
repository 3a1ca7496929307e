//! The concrete function blocks shipped with the engine: the majority
//! voter, the up-counter, the set/reset latch and the boolean switch, plus
//! the dispatch type that lets a runtime hold any of them.

pub mod block;
pub mod ctu;
pub mod sr;
pub mod switch;
pub mod voter;
