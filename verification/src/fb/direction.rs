//! Type-level flow directions for ports and fields.
//!
//! Tagging a port or field with [`In`] or [`Out`] at the type level keeps a
//! wiring mistake such as connecting an output to another output from even
//! compiling.

use vstd::prelude::*;

verus! {

/// Marker trait for the flow direction of a port or field.
pub trait Direction {

}

/// Marks an input-side port or field.
#[derive(Clone, Copy, Debug)]
pub struct In {

}

impl Direction for In {

}

/// Marks an output-side port or field.
#[derive(Clone, Copy, Debug)]
pub struct Out {

}

impl Direction for Out {

}

} // verus!
