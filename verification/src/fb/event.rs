//! Event fields of a function block.
//!
//! An event field carries a single boolean "pending" flag.  Input events are
//! received and consumed edge-style (read-and-reset); output events are sent
//! and cleared after the runtime has propagated them.

use vstd::prelude::*;

use crate::fb::direction::{Direction, In, Out};

verus! {

/// The signal carried by an event field.
pub trait EventType: Sized {
    type Inner;

    /// The current signal value, for contracts.
    spec fn value(&self) -> Self::Inner;

    /// The signal holding exactly `v`, for contracts.
    spec fn spec_make(v: Self::Inner) -> Self;

    fn get(&self) -> (r: Self::Inner)
        ensures
            r == self.value(),
    ;

    fn set(&mut self, value: Self::Inner)
        ensures
            *final(self) == Self::spec_make(value),
    ;
}

/// A plain boolean event signal: pending or not.
#[derive(Clone, Copy, Debug)]
pub struct Signal {
    pub active: bool,
}

impl EventType for Signal {
    type Inner = bool;

    open spec fn value(&self) -> bool {
        self.active
    }

    open spec fn spec_make(v: bool) -> Self {
        Signal { active: v }
    }

    fn get(&self) -> bool {
        self.active
    }

    fn set(&mut self, value: bool) {
        self.active = value;
    }
}

/// An event input or output of a function block, tagged with its direction.
#[derive(Debug)]
pub struct Event<D: Direction, T: EventType> {
    pub _direction_marker: core::marker::PhantomData<D>,
    pub signal: T,
}

impl<D: Direction> Event<D, Signal> {
    /// Whether the event is currently pending.
    pub open spec fn active(self) -> bool {
        self.signal.active
    }

    /// The same event field with its pending flag forced to `v`.
    pub open spec fn spec_with(self, v: bool) -> Self {
        Event { signal: Signal { active: v }, ..self }
    }

    /// A fresh, inactive event field.
    pub fn new() -> (r: Self)
        ensures
            !r.active(),
    {
        Event { _direction_marker: core::marker::PhantomData, signal: Signal { active: false } }
    }

    /// Reads the pending flag without consuming it.
    pub fn read(&self) -> (r: bool)
        ensures
            r == self.active(),
    {
        self.signal.get()
    }

    /// Clears the pending flag.
    pub fn reset(&mut self)
        ensures
            *final(self) == old(self).spec_with(false),
    {
        self.signal.set(false);
    }
}

impl Event<In, Signal> {
    /// Reads and consumes the pending flag: models edge-triggered consumption.
    pub fn read_and_reset(&mut self) -> (r: bool)
        ensures
            r == old(self).active(),
            *final(self) == old(self).spec_with(false),
    {
        let curr = self.signal.get();
        self.signal.set(false);
        curr
    }

    /// Marks the input event as pending.
    pub fn receive(&mut self)
        ensures
            *final(self) == old(self).spec_with(true),
    {
        self.signal.set(true);
    }
}

impl Event<Out, Signal> {
    /// Marks the output event as pending.
    pub fn send(&mut self)
        ensures
            *final(self) == old(self).spec_with(true),
    {
        self.signal.set(true);
    }
}

} // verus!
