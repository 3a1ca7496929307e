//! The boolean switch block.
//!
//! Input event `ei`, output events `eo0` and `eo1`, boolean gate input `g`.
//! An incoming event is routed to `eo0` when `g` is false and to `eo1`
//! when `g` is true.  At most one of the two gate outputs is ever pending:
//! firing one clears the other.

use vstd::prelude::*;

use crate::FbError;
use crate::fb::Fb;
use crate::fb::data::{Bool, Data, DataBuffer, DataBufferView, DataKind, DataType};
use crate::fb::direction::{In, Out};
use crate::fb::event::{Event, Signal};
use crate::str_eq;

verus! {

/// The switch's port names are pairwise distinct.
pub proof fn lemma_switch_names_distinct()
    ensures
        "eo0"@ != "eo1"@,
        "ei"@ != "g"@,
        "ei"@ != "eo0"@,
        "ei"@ != "eo1"@,
{
    reveal_strlit("ei");
    reveal_strlit("eo0");
    reveal_strlit("eo1");
    reveal_strlit("g");
    assert("ei"@.len() == 2);
    assert("eo0"@.len() == 3);
    assert("eo1"@.len() == 3);
    assert("g"@.len() == 1);
    assert("eo0"@[2] == '0');
    assert("eo1"@[2] == '1');
}

/// The states of the switch's execution control chart.
#[derive(Clone, Copy, Debug, PartialEq, Eq, Structural)]
pub enum SwitchState {
    Start,
    G0,
    G1,
}

/// The boolean switch function block.
#[allow(non_camel_case_types)]
#[derive(Debug)]
pub struct E_SWITCH {
    pub instance_name: String,
    pub ec_state: SwitchState,
    pub ei: Event<In, Signal>,
    pub eo0: Event<Out, Signal>,
    pub eo1: Event<Out, Signal>,
    pub g: Data<In, Bool>,
}

impl E_SWITCH {
    /// A fresh switch in the Start state with all events clear and `g`
    /// false.
    pub fn new(instance_name: &str) -> (r: E_SWITCH)
        ensures
            r.wf(),
            r.id() == instance_name@,
            r.ec_state is Start,
            !r.ei.active(),
            !r.eo0.active(),
            !r.eo1.active(),
            !r.g.value_view(),
    {
        E_SWITCH {
            instance_name: instance_name.to_owned(),
            ec_state: SwitchState::Start,
            ei: Event::new(),
            eo0: Event::new(),
            eo1: Event::new(),
            g: Data::of(false),
        }
    }
}

impl Fb for E_SWITCH {
    /// At most one of the two gate outputs is pending at any time.
    open spec fn wf(&self) -> bool {
        !(self.eo0.active() && self.eo1.active())
    }

    open spec fn id(&self) -> Seq<char> {
        self.instance_name@
    }

    open spec fn active_in(&self) -> Option<Seq<char>> {
        if self.ei.active() {
            Some("ei"@)
        } else {
            None
        }
    }

    open spec fn active_out(&self) -> Option<Seq<char>> {
        if self.eo0.active() {
            Some("eo0"@)
        } else if self.eo1.active() {
            Some("eo1"@)
        } else {
            None
        }
    }

    open spec fn has_in_event(&self, e: Seq<char>) -> bool {
        e == "ei"@
    }

    open spec fn has_out_event(&self, e: Seq<char>) -> bool {
        e == "eo0"@ || e == "eo1"@
    }

    open spec fn with_of(&self, e: Seq<char>) -> Seq<Seq<char>> {
        if e == "ei"@ {
            seq!["g"@]
        } else {
            Seq::empty()
        }
    }

    open spec fn in_kind(&self, f: Seq<char>) -> Option<DataKind> {
        if f == "g"@ {
            Some(DataKind::Bool)
        } else {
            None
        }
    }

    open spec fn out_kind(&self, f: Seq<char>) -> Option<DataKind> {
        None
    }

    open spec fn data_out(&self, f: Seq<char>) -> DataBufferView {
        DataBufferView::Unassigned
    }

    open spec fn with_in_set(&self, e: Seq<char>) -> E_SWITCH {
        if e == "ei"@ {
            E_SWITCH { ei: self.ei.spec_with(true), ..*self }
        } else {
            *self
        }
    }

    open spec fn with_out_cleared(&self) -> E_SWITCH {
        E_SWITCH { eo0: self.eo0.spec_with(false), eo1: self.eo1.spec_with(false), ..*self }
    }

    open spec fn with_data_in(&self, f: Seq<char>, v: DataBufferView) -> E_SWITCH {
        match v {
            DataBufferView::Bool(x) => {
                if f == "g"@ {
                    E_SWITCH { g: self.g.spec_with(x), ..*self }
                } else {
                    *self
                }
            },
            _ => *self,
        }
    }

    open spec fn step_state(&self) -> E_SWITCH {
        match self.ec_state {
            SwitchState::Start => {
                if self.ei.active() {
                    if self.g.value_view() {
                        E_SWITCH {
                            ei: self.ei.spec_with(false),
                            ec_state: SwitchState::G1,
                            eo1: self.eo1.spec_with(true),
                            eo0: self.eo0.spec_with(false),
                            ..*self
                        }
                    } else {
                        E_SWITCH {
                            ei: self.ei.spec_with(false),
                            ec_state: SwitchState::G0,
                            eo0: self.eo0.spec_with(true),
                            eo1: self.eo1.spec_with(false),
                            ..*self
                        }
                    }
                } else {
                    *self
                }
            },
            SwitchState::G0 => E_SWITCH { ec_state: SwitchState::Start, ..*self },
            SwitchState::G1 => E_SWITCH { ec_state: SwitchState::Start, ..*self },
        }
    }

    open spec fn step_changed(&self) -> bool {
        match self.ec_state {
            SwitchState::Start => self.ei.active(),
            SwitchState::G0 => true,
            SwitchState::G1 => true,
        }
    }

    open spec fn measure(&self) -> nat {
        (if self.ei.active() {
            2nat
        } else {
            0nat
        }) + (if self.ec_state is G0 || self.ec_state is G1 {
            1nat
        } else {
            0nat
        })
    }

    fn instance_name(&self) -> String {
        self.instance_name.clone()
    }

    fn set_event_in(&mut self, event: &str) -> Result<(), FbError> {
        if str_eq(event, "ei") {
            self.ei.receive();
            Ok(())
        } else {
            Err(FbError::UnknownEvent)
        }
    }

    fn has_event_in(&self, event: &str) -> bool {
        str_eq(event, "ei")
    }

    fn has_event_out(&self, event: &str) -> bool {
        str_eq(event, "eo0") || str_eq(event, "eo1")
    }

    fn active_event_in(&self) -> Option<String> {
        if self.ei.read() {
            Some("ei".to_owned())
        } else {
            None
        }
    }

    fn active_event_out(&self) -> Option<String> {
        if self.eo0.read() {
            Some("eo0".to_owned())
        } else if self.eo1.read() {
            Some("eo1".to_owned())
        } else {
            None
        }
    }

    fn clear_event_out(&mut self) {
        self.eo0.reset();
        self.eo1.reset();
    }

    fn with_for_event(&self, event: &str) -> (r: Result<Vec<String>, FbError>) {
        if str_eq(event, "ei") {
            let mut fields: Vec<String> = Vec::new();
            fields.push("g".to_owned());
            proof {
                assert(fields.deep_view() =~= self.with_of(event@));
            }
            Ok(fields)
        } else if str_eq(event, "eo0") || str_eq(event, "eo1") {
            let fields: Vec<String> = Vec::new();
            proof {
                lemma_switch_names_distinct();
                assert(fields.deep_view() =~= self.with_of(event@));
            }
            Ok(fields)
        } else {
            Err(FbError::UnknownEvent)
        }
    }

    fn read_data_out(&self, field: &str) -> Result<DataBuffer, FbError> {
        Err(FbError::UnknownDataField)
    }

    fn write_data_in(&mut self, field: &str, buf: &DataBuffer) -> Result<(), FbError> {
        if str_eq(field, "g") {
            match buf {
                DataBuffer::Bool(v) => {
                    self.g.update(*v);
                    Ok(())
                },
                _ => Err(FbError::DataKindMismatch),
            }
        } else {
            Err(FbError::UnknownDataField)
        }
    }

    fn in_data_kind(&self, field: &str) -> Option<DataKind> {
        if str_eq(field, "g") {
            Some(DataKind::Bool)
        } else {
            None
        }
    }

    fn out_data_kind(&self, field: &str) -> Option<DataKind> {
        None
    }

    fn data_kind(&self, field: &str) -> Result<DataKind, FbError> {
        if str_eq(field, "g") {
            Ok(DataKind::Bool)
        } else {
            Err(FbError::UnknownDataField)
        }
    }

    fn invoke_execution_control(&mut self) -> bool {
        let mut unstable = false;
        match self.ec_state {
            SwitchState::Start => {
                if self.ei.read_and_reset() {
                    if self.g.read() {
                        self.eo1.send();
                        self.eo0.reset();
                        self.ec_state = SwitchState::G1;
                    } else {
                        self.eo0.send();
                        self.eo1.reset();
                        self.ec_state = SwitchState::G0;
                    }
                    unstable = true;
                }
            },
            SwitchState::G0 => {
                self.ec_state = SwitchState::Start;
                unstable = true;
            },
            SwitchState::G1 => {
                self.ec_state = SwitchState::Start;
                unstable = true;
            },
        }
        unstable
    }
}

impl E_SWITCH {
    /// A switch is never more than three transitions away from stability.
    pub proof fn lemma_measure_bound(&self)
        ensures
            self.measure() <= 3,
    {
    }

    /// Exactly the well-formedness guarantee: the two gate outputs are never
    /// pending together.
    pub proof fn lemma_exclusive_outputs(&self)
        requires
            self.wf(),
        ensures
            !(self.eo0.active() && self.eo1.active()),
    {
    }

    /// An incoming event is routed by `g`: a false `g` fires `eo0`, a
    /// true `g` fires `eo1`, and the transition clears the other output, so
    /// exactly one of the two is pending afterwards.
    pub proof fn lemma_routes_by_gate(&self)
        requires
            self.ec_state is Start,
            self.ei.active(),
        ensures
            self.step_changed(),
            !self.g.value_view() ==> self.step_state().eo0.active() && !self.step_state().eo1.active(),
            self.g.value_view() ==> self.step_state().eo1.active() && !self.step_state().eo0.active(),
    {
    }
}

} // verus!
