//! Ports and connections between function blocks.
//!
//! A port names one endpoint of a connection: a block instance and one of
//! its fields, tagged at the type level with the flow direction.  An event
//! connection wires an output event to an input event and owns no state; a
//! data connection wires an output data field to an input data field and
//! owns the buffer that decouples snapshotting a value from delivering it.

use vstd::prelude::*;

use crate::fb::data::{DataBuffer, DataBufferView};
use crate::fb::direction::{Direction, In, Out};

verus! {

/// The outcome of one event connection during a send phase.
#[derive(Clone, Copy, Debug, PartialEq, Eq, Structural)]
pub enum Delivery {
    /// The source event was pending and the destination accepted it.
    Delivered,
    /// The source event was pending but the destination's input slot was
    /// occupied; the source stays pending for a later cycle.
    Deferred,
    /// The source event was not pending on this connection.
    Idle,
}

/// The mathematical value of a [`Port`]: the two names it holds.
pub struct PortView {
    pub fb_name: Seq<char>,
    pub fb_field: Seq<char>,
}

/// One endpoint of a connection: a block instance name and a field name,
/// tagged with the flow direction.
#[derive(Debug)]
pub struct Port<D: Direction> {
    pub _direction_marker: core::marker::PhantomData<D>,
    pub fb_name: String,
    pub fb_field: String,
}

impl<D: Direction> View for Port<D> {
    type V = PortView;

    open spec fn view(&self) -> PortView {
        PortView { fb_name: self.fb_name@, fb_field: self.fb_field@ }
    }
}

impl<D: Direction> Port<D> {
    /// A port naming the field `fb_field` of the block `fb_name`.
    pub fn new(fb_name: &str, fb_field: &str) -> (r: Self)
        ensures
            r@ == (PortView { fb_name: fb_name@, fb_field: fb_field@ }),
    {
        Port {
            _direction_marker: core::marker::PhantomData,
            fb_name: fb_name.to_owned(),
            fb_field: fb_field.to_owned(),
        }
    }
}

/// The mathematical value of an [`EventConn`].
pub struct EventConnView {
    pub from: PortView,
    pub to: PortView,
}

/// A wiring from one block's output event to another block's input event.
#[derive(Debug)]
pub struct EventConn {
    pub from: Port<Out>,
    pub to: Port<In>,
}

impl View for EventConn {
    type V = EventConnView;

    open spec fn view(&self) -> EventConnView {
        EventConnView { from: self.from@, to: self.to@ }
    }
}

impl DeepView for EventConn {
    type V = EventConnView;

    open spec fn deep_view(&self) -> EventConnView {
        self@
    }
}

/// The mathematical value of a [`DataConn`]: its two endpoints and the
/// buffered value.
pub struct DataConnView {
    pub from: PortView,
    pub to: PortView,
    pub buf: DataBufferView,
}

/// A wiring from one block's output data field to another block's input
/// data field, buffering a snapshot of the value in flight.
#[derive(Debug)]
pub struct DataConn {
    pub from: Port<Out>,
    pub to: Port<In>,
    pub buf: DataBuffer,
}

impl View for DataConn {
    type V = DataConnView;

    open spec fn view(&self) -> DataConnView {
        DataConnView { from: self.from@, to: self.to@, buf: self.buf@ }
    }
}

impl DeepView for DataConn {
    type V = DataConnView;

    open spec fn deep_view(&self) -> DataConnView {
        self@
    }
}

} // verus!
