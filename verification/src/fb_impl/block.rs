//! The closed set of block types a runtime can hold.
//!
//! The runtime owns heterogeneous block instances; [`Block`] dispatches the
//! capability interface to whichever concrete block is inside, so every
//! routing proof works from one type.

use vstd::prelude::*;

use crate::FbError;
use crate::fb::Fb;
use crate::fb::data::{DataBuffer, DataBufferView, DataKind};
use crate::fb_impl::ctu::E_CTU;
use crate::fb_impl::sr::E_SR;
use crate::fb_impl::switch::E_SWITCH;
use crate::fb_impl::voter::Voter;

verus! {

/// Any of the engine's block types, behind one capability interface.
#[derive(Debug)]
pub enum Block {
    Voter(Voter),
    Ctu(E_CTU),
    Sr(E_SR),
    Switch(E_SWITCH),
}

impl Fb for Block {
    open spec fn wf(&self) -> bool {
        match self {
            Block::Voter(fb) => fb.wf(),
            Block::Ctu(fb) => fb.wf(),
            Block::Sr(fb) => fb.wf(),
            Block::Switch(fb) => fb.wf(),
        }
    }

    open spec fn id(&self) -> Seq<char> {
        match self {
            Block::Voter(fb) => fb.id(),
            Block::Ctu(fb) => fb.id(),
            Block::Sr(fb) => fb.id(),
            Block::Switch(fb) => fb.id(),
        }
    }

    open spec fn active_in(&self) -> Option<Seq<char>> {
        match self {
            Block::Voter(fb) => fb.active_in(),
            Block::Ctu(fb) => fb.active_in(),
            Block::Sr(fb) => fb.active_in(),
            Block::Switch(fb) => fb.active_in(),
        }
    }

    open spec fn active_out(&self) -> Option<Seq<char>> {
        match self {
            Block::Voter(fb) => fb.active_out(),
            Block::Ctu(fb) => fb.active_out(),
            Block::Sr(fb) => fb.active_out(),
            Block::Switch(fb) => fb.active_out(),
        }
    }

    open spec fn has_in_event(&self, e: Seq<char>) -> bool {
        match self {
            Block::Voter(fb) => fb.has_in_event(e),
            Block::Ctu(fb) => fb.has_in_event(e),
            Block::Sr(fb) => fb.has_in_event(e),
            Block::Switch(fb) => fb.has_in_event(e),
        }
    }

    open spec fn has_out_event(&self, e: Seq<char>) -> bool {
        match self {
            Block::Voter(fb) => fb.has_out_event(e),
            Block::Ctu(fb) => fb.has_out_event(e),
            Block::Sr(fb) => fb.has_out_event(e),
            Block::Switch(fb) => fb.has_out_event(e),
        }
    }

    open spec fn with_of(&self, e: Seq<char>) -> Seq<Seq<char>> {
        match self {
            Block::Voter(fb) => fb.with_of(e),
            Block::Ctu(fb) => fb.with_of(e),
            Block::Sr(fb) => fb.with_of(e),
            Block::Switch(fb) => fb.with_of(e),
        }
    }

    open spec fn in_kind(&self, f: Seq<char>) -> Option<DataKind> {
        match self {
            Block::Voter(fb) => fb.in_kind(f),
            Block::Ctu(fb) => fb.in_kind(f),
            Block::Sr(fb) => fb.in_kind(f),
            Block::Switch(fb) => fb.in_kind(f),
        }
    }

    open spec fn out_kind(&self, f: Seq<char>) -> Option<DataKind> {
        match self {
            Block::Voter(fb) => fb.out_kind(f),
            Block::Ctu(fb) => fb.out_kind(f),
            Block::Sr(fb) => fb.out_kind(f),
            Block::Switch(fb) => fb.out_kind(f),
        }
    }

    open spec fn data_out(&self, f: Seq<char>) -> DataBufferView {
        match self {
            Block::Voter(fb) => fb.data_out(f),
            Block::Ctu(fb) => fb.data_out(f),
            Block::Sr(fb) => fb.data_out(f),
            Block::Switch(fb) => fb.data_out(f),
        }
    }

    open spec fn with_in_set(&self, e: Seq<char>) -> Block {
        match self {
            Block::Voter(fb) => Block::Voter(fb.with_in_set(e)),
            Block::Ctu(fb) => Block::Ctu(fb.with_in_set(e)),
            Block::Sr(fb) => Block::Sr(fb.with_in_set(e)),
            Block::Switch(fb) => Block::Switch(fb.with_in_set(e)),
        }
    }

    open spec fn with_out_cleared(&self) -> Block {
        match self {
            Block::Voter(fb) => Block::Voter(fb.with_out_cleared()),
            Block::Ctu(fb) => Block::Ctu(fb.with_out_cleared()),
            Block::Sr(fb) => Block::Sr(fb.with_out_cleared()),
            Block::Switch(fb) => Block::Switch(fb.with_out_cleared()),
        }
    }

    open spec fn with_data_in(&self, f: Seq<char>, v: DataBufferView) -> Block {
        match self {
            Block::Voter(fb) => Block::Voter(fb.with_data_in(f, v)),
            Block::Ctu(fb) => Block::Ctu(fb.with_data_in(f, v)),
            Block::Sr(fb) => Block::Sr(fb.with_data_in(f, v)),
            Block::Switch(fb) => Block::Switch(fb.with_data_in(f, v)),
        }
    }

    open spec fn step_state(&self) -> Block {
        match self {
            Block::Voter(fb) => Block::Voter(fb.step_state()),
            Block::Ctu(fb) => Block::Ctu(fb.step_state()),
            Block::Sr(fb) => Block::Sr(fb.step_state()),
            Block::Switch(fb) => Block::Switch(fb.step_state()),
        }
    }

    open spec fn step_changed(&self) -> bool {
        match self {
            Block::Voter(fb) => fb.step_changed(),
            Block::Ctu(fb) => fb.step_changed(),
            Block::Sr(fb) => fb.step_changed(),
            Block::Switch(fb) => fb.step_changed(),
        }
    }

    open spec fn measure(&self) -> nat {
        match self {
            Block::Voter(fb) => fb.measure(),
            Block::Ctu(fb) => fb.measure(),
            Block::Sr(fb) => fb.measure(),
            Block::Switch(fb) => fb.measure(),
        }
    }

    fn instance_name(&self) -> String {
        match self {
            Block::Voter(fb) => fb.instance_name(),
            Block::Ctu(fb) => fb.instance_name(),
            Block::Sr(fb) => fb.instance_name(),
            Block::Switch(fb) => fb.instance_name(),
        }
    }

    fn set_event_in(&mut self, event: &str) -> Result<(), FbError> {
        match self {
            Block::Voter(fb) => fb.set_event_in(event),
            Block::Ctu(fb) => fb.set_event_in(event),
            Block::Sr(fb) => fb.set_event_in(event),
            Block::Switch(fb) => fb.set_event_in(event),
        }
    }

    fn has_event_in(&self, event: &str) -> bool {
        match self {
            Block::Voter(fb) => fb.has_event_in(event),
            Block::Ctu(fb) => fb.has_event_in(event),
            Block::Sr(fb) => fb.has_event_in(event),
            Block::Switch(fb) => fb.has_event_in(event),
        }
    }

    fn has_event_out(&self, event: &str) -> bool {
        match self {
            Block::Voter(fb) => fb.has_event_out(event),
            Block::Ctu(fb) => fb.has_event_out(event),
            Block::Sr(fb) => fb.has_event_out(event),
            Block::Switch(fb) => fb.has_event_out(event),
        }
    }

    fn active_event_in(&self) -> Option<String> {
        match self {
            Block::Voter(fb) => fb.active_event_in(),
            Block::Ctu(fb) => fb.active_event_in(),
            Block::Sr(fb) => fb.active_event_in(),
            Block::Switch(fb) => fb.active_event_in(),
        }
    }

    fn active_event_out(&self) -> Option<String> {
        match self {
            Block::Voter(fb) => fb.active_event_out(),
            Block::Ctu(fb) => fb.active_event_out(),
            Block::Sr(fb) => fb.active_event_out(),
            Block::Switch(fb) => fb.active_event_out(),
        }
    }

    fn clear_event_out(&mut self) {
        match self {
            Block::Voter(fb) => fb.clear_event_out(),
            Block::Ctu(fb) => fb.clear_event_out(),
            Block::Sr(fb) => fb.clear_event_out(),
            Block::Switch(fb) => fb.clear_event_out(),
        }
    }

    fn with_for_event(&self, event: &str) -> Result<Vec<String>, FbError> {
        match self {
            Block::Voter(fb) => fb.with_for_event(event),
            Block::Ctu(fb) => fb.with_for_event(event),
            Block::Sr(fb) => fb.with_for_event(event),
            Block::Switch(fb) => fb.with_for_event(event),
        }
    }

    fn read_data_out(&self, field: &str) -> Result<DataBuffer, FbError> {
        match self {
            Block::Voter(fb) => fb.read_data_out(field),
            Block::Ctu(fb) => fb.read_data_out(field),
            Block::Sr(fb) => fb.read_data_out(field),
            Block::Switch(fb) => fb.read_data_out(field),
        }
    }

    fn write_data_in(&mut self, field: &str, buf: &DataBuffer) -> Result<(), FbError> {
        match self {
            Block::Voter(fb) => fb.write_data_in(field, buf),
            Block::Ctu(fb) => fb.write_data_in(field, buf),
            Block::Sr(fb) => fb.write_data_in(field, buf),
            Block::Switch(fb) => fb.write_data_in(field, buf),
        }
    }

    fn in_data_kind(&self, field: &str) -> Option<DataKind> {
        match self {
            Block::Voter(fb) => fb.in_data_kind(field),
            Block::Ctu(fb) => fb.in_data_kind(field),
            Block::Sr(fb) => fb.in_data_kind(field),
            Block::Switch(fb) => fb.in_data_kind(field),
        }
    }

    fn out_data_kind(&self, field: &str) -> Option<DataKind> {
        match self {
            Block::Voter(fb) => fb.out_data_kind(field),
            Block::Ctu(fb) => fb.out_data_kind(field),
            Block::Sr(fb) => fb.out_data_kind(field),
            Block::Switch(fb) => fb.out_data_kind(field),
        }
    }

    fn data_kind(&self, field: &str) -> Result<DataKind, FbError> {
        match self {
            Block::Voter(fb) => fb.data_kind(field),
            Block::Ctu(fb) => fb.data_kind(field),
            Block::Sr(fb) => fb.data_kind(field),
            Block::Switch(fb) => fb.data_kind(field),
        }
    }

    fn invoke_execution_control(&mut self) -> bool {
        match self {
            Block::Voter(fb) => fb.invoke_execution_control(),
            Block::Ctu(fb) => fb.invoke_execution_control(),
            Block::Sr(fb) => fb.invoke_execution_control(),
            Block::Switch(fb) => fb.invoke_execution_control(),
        }
    }
}

impl Block {
    /// Latching a declared input event makes an input event pending and
    /// changes nothing else that a connection can observe.
    pub proof fn lemma_with_in_set(&self, e: Seq<char>)
        ensures
            self.with_in_set(e).id() == self.id(),
            forall|x: Seq<char>|
                #![trigger self.with_in_set(e).has_in_event(x)]
                self.with_in_set(e).has_in_event(x) == self.has_in_event(x),
            forall|x: Seq<char>|
                #![trigger self.with_in_set(e).has_out_event(x)]
                self.with_in_set(e).has_out_event(x) == self.has_out_event(x),
            forall|x: Seq<char>|
                #![trigger self.with_in_set(e).in_kind(x)]
                self.with_in_set(e).in_kind(x) == self.in_kind(x),
            forall|x: Seq<char>|
                #![trigger self.with_in_set(e).out_kind(x)]
                self.with_in_set(e).out_kind(x) == self.out_kind(x),
            forall|x: Seq<char>|
                #![trigger self.with_in_set(e).with_of(x)]
                self.with_in_set(e).with_of(x) == self.with_of(x),
            forall|x: Seq<char>|
                #![trigger self.with_in_set(e).data_out(x)]
                self.with_in_set(e).data_out(x) == self.data_out(x),
            self.with_in_set(e).active_out() == self.active_out(),
            self.wf() ==> self.with_in_set(e).wf(),
            self.has_in_event(e) ==> self.with_in_set(e).active_in() is Some,
    {
    }

    /// Clearing the output events leaves no output event pending and changes
    /// nothing else that a connection can observe.
    pub proof fn lemma_with_out_cleared(&self)
        ensures
            self.with_out_cleared().id() == self.id(),
            forall|x: Seq<char>|
                #![trigger self.with_out_cleared().has_in_event(x)]
                self.with_out_cleared().has_in_event(x) == self.has_in_event(x),
            forall|x: Seq<char>|
                #![trigger self.with_out_cleared().has_out_event(x)]
                self.with_out_cleared().has_out_event(x) == self.has_out_event(x),
            forall|x: Seq<char>|
                #![trigger self.with_out_cleared().in_kind(x)]
                self.with_out_cleared().in_kind(x) == self.in_kind(x),
            forall|x: Seq<char>|
                #![trigger self.with_out_cleared().out_kind(x)]
                self.with_out_cleared().out_kind(x) == self.out_kind(x),
            forall|x: Seq<char>|
                #![trigger self.with_out_cleared().with_of(x)]
                self.with_out_cleared().with_of(x) == self.with_of(x),
            forall|x: Seq<char>|
                #![trigger self.with_out_cleared().data_out(x)]
                self.with_out_cleared().data_out(x) == self.data_out(x),
            self.with_out_cleared().active_in() == self.active_in(),
            self.with_out_cleared().active_out() is None,
            self.with_out_cleared().wf(),
    {
    }

    /// Writing an input data field changes no pending event and nothing a
    /// connection can observe.
    pub proof fn lemma_with_data_in(&self, f: Seq<char>, v: DataBufferView)
        ensures
            self.with_data_in(f, v).id() == self.id(),
            forall|x: Seq<char>|
                #![trigger self.with_data_in(f, v).has_in_event(x)]
                self.with_data_in(f, v).has_in_event(x) == self.has_in_event(x),
            forall|x: Seq<char>|
                #![trigger self.with_data_in(f, v).has_out_event(x)]
                self.with_data_in(f, v).has_out_event(x) == self.has_out_event(x),
            forall|x: Seq<char>|
                #![trigger self.with_data_in(f, v).in_kind(x)]
                self.with_data_in(f, v).in_kind(x) == self.in_kind(x),
            forall|x: Seq<char>|
                #![trigger self.with_data_in(f, v).out_kind(x)]
                self.with_data_in(f, v).out_kind(x) == self.out_kind(x),
            forall|x: Seq<char>|
                #![trigger self.with_data_in(f, v).with_of(x)]
                self.with_data_in(f, v).with_of(x) == self.with_of(x),
            forall|x: Seq<char>|
                #![trigger self.with_data_in(f, v).data_out(x)]
                self.with_data_in(f, v).data_out(x) == self.data_out(x),
            self.with_data_in(f, v).active_in() == self.active_in(),
            self.with_data_in(f, v).active_out() == self.active_out(),
            self.wf() ==> self.with_data_in(f, v).wf(),
    {
    }

    /// One chart transition changes neither a block's identity nor its
    /// declared interface, and keeps it well-formed.
    pub proof fn lemma_step_state(&self)
        ensures
            self.step_state().id() == self.id(),
            forall|x: Seq<char>|
                #![trigger self.step_state().has_in_event(x)]
                self.step_state().has_in_event(x) == self.has_in_event(x),
            forall|x: Seq<char>|
                #![trigger self.step_state().has_out_event(x)]
                self.step_state().has_out_event(x) == self.has_out_event(x),
            forall|x: Seq<char>|
                #![trigger self.step_state().in_kind(x)]
                self.step_state().in_kind(x) == self.in_kind(x),
            forall|x: Seq<char>|
                #![trigger self.step_state().out_kind(x)]
                self.step_state().out_kind(x) == self.out_kind(x),
            forall|x: Seq<char>|
                #![trigger self.step_state().with_of(x)]
                self.step_state().with_of(x) == self.with_of(x),
            self.wf() ==> self.step_state().wf(),
    {
    }

    /// Every output data field holds a value of its declared kind.
    pub proof fn lemma_data_kinds(&self)
        ensures
            forall|f: Seq<char>|
                #![trigger self.data_out(f)]
                self.out_kind(f) is Some ==> self.data_out(f).kind() == self.out_kind(f),
    {
    }

}

} // verus!
