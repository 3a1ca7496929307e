//! The set/reset latch block.
//!
//! Input events `s` (set) and `r` (reset), output event `eo`, boolean output
//! `q`.
//!
//! Priority policy: the two signals strictly alternate.  From the initial
//! state and from Reset only a set event fires a transition; from Set only a
//! reset event does.  An input that cannot fire in the current state is left
//! pending rather than consumed, so it fires as soon as the latch flips.

use vstd::prelude::*;

use crate::FbError;
use crate::fb::Fb;
use crate::fb::data::{Bool, Data, DataBuffer, DataBufferView, DataKind, DataType};
use crate::fb::direction::{In, Out};
use crate::fb::event::{Event, Signal};
use crate::str_eq;

verus! {

/// The latch's port names are pairwise distinct.
pub proof fn lemma_sr_names_distinct()
    ensures
        "s"@ != "r"@,
        "s"@ != "q"@,
        "r"@ != "q"@,
        "s"@ != "eo"@,
        "r"@ != "eo"@,
{
    reveal_strlit("s");
    reveal_strlit("r");
    reveal_strlit("eo");
    reveal_strlit("q");
    assert("s"@.len() == 1);
    assert("r"@.len() == 1);
    assert("eo"@.len() == 2);
    assert("q"@.len() == 1);
    assert("s"@[0] == 's');
    assert("r"@[0] == 'r');
    assert("q"@[0] == 'q');
}

/// The states of the latch's execution control chart.
#[derive(Clone, Copy, Debug, PartialEq, Eq, Structural)]
pub enum SrState {
    Q0,
    SetQ,
    Reset,
}

/// The set/reset latch function block.
#[allow(non_camel_case_types)]
#[derive(Debug)]
pub struct E_SR {
    pub instance_name: String,
    pub ec_state: SrState,
    pub s: Event<In, Signal>,
    pub r: Event<In, Signal>,
    pub eo: Event<Out, Signal>,
    pub q: Data<Out, Bool>,
}

impl E_SR {
    /// A fresh latch in the initial state with all events clear and `q`
    /// false.
    pub fn new(instance_name: &str) -> (r: E_SR)
        ensures
            r.wf(),
            r.id() == instance_name@,
            r.ec_state is Q0,
            !r.s.active(),
            !r.r.active(),
            !r.eo.active(),
            !r.q.value_view(),
    {
        E_SR {
            instance_name: instance_name.to_owned(),
            ec_state: SrState::Q0,
            s: Event::new(),
            r: Event::new(),
            eo: Event::new(),
            q: Data::of(false),
        }
    }
}

impl Fb for E_SR {
    open spec fn wf(&self) -> bool {
        true
    }

    open spec fn id(&self) -> Seq<char> {
        self.instance_name@
    }

    open spec fn active_in(&self) -> Option<Seq<char>> {
        if self.s.active() {
            Some("s"@)
        } else if self.r.active() {
            Some("r"@)
        } else {
            None
        }
    }

    open spec fn active_out(&self) -> Option<Seq<char>> {
        if self.eo.active() {
            Some("eo"@)
        } else {
            None
        }
    }

    open spec fn has_in_event(&self, e: Seq<char>) -> bool {
        e == "s"@ || e == "r"@
    }

    open spec fn has_out_event(&self, e: Seq<char>) -> bool {
        e == "eo"@
    }

    open spec fn with_of(&self, e: Seq<char>) -> Seq<Seq<char>> {
        if e == "eo"@ {
            seq!["q"@]
        } else {
            Seq::empty()
        }
    }

    open spec fn in_kind(&self, f: Seq<char>) -> Option<DataKind> {
        None
    }

    open spec fn out_kind(&self, f: Seq<char>) -> Option<DataKind> {
        if f == "q"@ {
            Some(DataKind::Bool)
        } else {
            None
        }
    }

    open spec fn data_out(&self, f: Seq<char>) -> DataBufferView {
        if f == "q"@ {
            self.q.buf_view()
        } else {
            DataBufferView::Unassigned
        }
    }

    open spec fn with_in_set(&self, e: Seq<char>) -> E_SR {
        if e == "s"@ {
            E_SR { s: self.s.spec_with(true), ..*self }
        } else if e == "r"@ {
            E_SR { r: self.r.spec_with(true), ..*self }
        } else {
            *self
        }
    }

    open spec fn with_out_cleared(&self) -> E_SR {
        E_SR { eo: self.eo.spec_with(false), ..*self }
    }

    open spec fn with_data_in(&self, f: Seq<char>, v: DataBufferView) -> E_SR {
        *self
    }

    open spec fn step_state(&self) -> E_SR {
        match self.ec_state {
            SrState::Q0 => {
                if self.s.active() {
                    E_SR {
                        s: self.s.spec_with(false),
                        ec_state: SrState::SetQ,
                        q: self.q.spec_with(true),
                        eo: self.eo.spec_with(true),
                        ..*self
                    }
                } else {
                    *self
                }
            },
            SrState::SetQ => {
                if self.r.active() {
                    E_SR {
                        r: self.r.spec_with(false),
                        ec_state: SrState::Reset,
                        q: self.q.spec_with(false),
                        eo: self.eo.spec_with(true),
                        ..*self
                    }
                } else {
                    *self
                }
            },
            SrState::Reset => {
                if self.s.active() {
                    E_SR {
                        s: self.s.spec_with(false),
                        ec_state: SrState::SetQ,
                        q: self.q.spec_with(true),
                        eo: self.eo.spec_with(true),
                        ..*self
                    }
                } else {
                    *self
                }
            },
        }
    }

    open spec fn step_changed(&self) -> bool {
        match self.ec_state {
            SrState::Q0 => self.s.active(),
            SrState::SetQ => self.r.active(),
            SrState::Reset => self.s.active(),
        }
    }

    open spec fn measure(&self) -> nat {
        (if self.s.active() {
            2nat
        } else {
            0nat
        }) + (if self.r.active() {
            2nat
        } else {
            0nat
        })
    }

    fn instance_name(&self) -> String {
        self.instance_name.clone()
    }

    fn set_event_in(&mut self, event: &str) -> Result<(), FbError> {
        if str_eq(event, "s") {
            self.s.receive();
            Ok(())
        } else if str_eq(event, "r") {
            self.r.receive();
            Ok(())
        } else {
            Err(FbError::UnknownEvent)
        }
    }

    fn has_event_in(&self, event: &str) -> bool {
        str_eq(event, "s") || str_eq(event, "r")
    }

    fn has_event_out(&self, event: &str) -> bool {
        str_eq(event, "eo")
    }

    fn active_event_in(&self) -> Option<String> {
        if self.s.read() {
            Some("s".to_owned())
        } else if self.r.read() {
            Some("r".to_owned())
        } else {
            None
        }
    }

    fn active_event_out(&self) -> Option<String> {
        if self.eo.read() {
            Some("eo".to_owned())
        } else {
            None
        }
    }

    fn clear_event_out(&mut self) {
        self.eo.reset();
    }

    fn with_for_event(&self, event: &str) -> (r: Result<Vec<String>, FbError>) {
        if str_eq(event, "eo") {
            let mut fields: Vec<String> = Vec::new();
            fields.push("q".to_owned());
            proof {
                assert(fields.deep_view() =~= self.with_of(event@));
            }
            Ok(fields)
        } else if str_eq(event, "s") || str_eq(event, "r") {
            let fields: Vec<String> = Vec::new();
            proof {
                lemma_sr_names_distinct();
                assert(fields.deep_view() =~= self.with_of(event@));
            }
            Ok(fields)
        } else {
            Err(FbError::UnknownEvent)
        }
    }

    fn read_data_out(&self, field: &str) -> Result<DataBuffer, FbError> {
        if str_eq(field, "q") {
            Ok(self.q.as_buf())
        } else {
            Err(FbError::UnknownDataField)
        }
    }

    fn write_data_in(&mut self, field: &str, buf: &DataBuffer) -> Result<(), FbError> {
        Err(FbError::UnknownDataField)
    }

    fn in_data_kind(&self, field: &str) -> Option<DataKind> {
        None
    }

    fn out_data_kind(&self, field: &str) -> Option<DataKind> {
        if str_eq(field, "q") {
            Some(DataKind::Bool)
        } else {
            None
        }
    }

    fn data_kind(&self, field: &str) -> Result<DataKind, FbError> {
        if str_eq(field, "q") {
            Ok(DataKind::Bool)
        } else {
            Err(FbError::UnknownDataField)
        }
    }

    fn invoke_execution_control(&mut self) -> bool {
        let mut unstable = false;
        match self.ec_state {
            SrState::Q0 => {
                if self.s.read_and_reset() {
                    self.q.write(true);
                    self.eo.send();
                    self.ec_state = SrState::SetQ;
                    unstable = true;
                }
            },
            SrState::SetQ => {
                if self.r.read_and_reset() {
                    self.q.write(false);
                    self.eo.send();
                    self.ec_state = SrState::Reset;
                    unstable = true;
                }
            },
            SrState::Reset => {
                if self.s.read_and_reset() {
                    self.q.write(true);
                    self.eo.send();
                    self.ec_state = SrState::SetQ;
                    unstable = true;
                }
            },
        }
        unstable
    }
}

impl E_SR {
    /// A latch is never more than four transitions away from stability.
    pub proof fn lemma_measure_bound(&self)
        ensures
            self.measure() <= 4,
    {
    }

    /// The documented priority policy: while the latch is set, only a reset
    /// event fires a transition and a pending set event is left untouched;
    /// in the other two states, only a set event fires and a pending reset
    /// is left untouched.  A firing transition publishes the new `q` and
    /// raises `eo`.
    pub proof fn lemma_priority_policy(&self)
        ensures
            self.ec_state is SetQ && self.r.active() ==> {
                &&& self.step_state().ec_state is Reset
                &&& !self.step_state().q.value_view()
                &&& self.step_state().eo.active()
                &&& self.step_state().s.active() == self.s.active()
            },
            self.ec_state is SetQ && !self.r.active() ==> self.step_state() == *self,
            !(self.ec_state is SetQ) && self.s.active() ==> {
                &&& self.step_state().ec_state is SetQ
                &&& self.step_state().q.value_view()
                &&& self.step_state().eo.active()
                &&& self.step_state().r.active() == self.r.active()
            },
            !(self.ec_state is SetQ) && !self.s.active() ==> self.step_state() == *self,
    {
    }
}

} // verus!
