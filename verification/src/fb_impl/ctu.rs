//! The up-counter block.
//!
//! Input events `cu` (count up) and `r` (reset), output events `cuo` and
//! `ro`, preset-value input `pv`, boolean output `q` (count reached) and
//! current-value output `cv`.  Counting saturates: once `cv` holds the
//! largest representable value, a further count-up event is consumed without
//! incrementing.

use vstd::prelude::*;

use crate::FbError;
use crate::fb::Fb;
use crate::fb::data::{Bool, Data, DataBuffer, DataBufferView, DataKind, DataType, UInt};
use crate::fb::direction::{In, Out};
use crate::fb::event::{Event, Signal};
use crate::str_eq;

verus! {

/// The counter's port names are pairwise distinct.
pub proof fn lemma_ctu_names_distinct()
    ensures
        "cu"@ != "r"@,
        "cuo"@ != "ro"@,
        "cu"@ != "cv"@,
        "cu"@ != "pv"@,
        "pv"@ != "q"@,
        "pv"@ != "cv"@,
        "q"@ != "cv"@,
{
    reveal_strlit("cu");
    reveal_strlit("r");
    reveal_strlit("cuo");
    reveal_strlit("ro");
    reveal_strlit("pv");
    reveal_strlit("q");
    reveal_strlit("cv");
    assert("cu"@.len() == 2);
    assert("r"@.len() == 1);
    assert("cuo"@.len() == 3);
    assert("ro"@.len() == 2);
    assert("pv"@.len() == 2);
    assert("q"@.len() == 1);
    assert("cv"@.len() == 2);
    assert("cu"@[1] == 'u');
    assert("cv"@[1] == 'v');
    assert("pv"@[0] == 'p');
    assert("cu"@[0] == 'c');
}

/// The states of the counter's execution control chart.
#[derive(Clone, Copy, Debug, PartialEq, Eq, Structural)]
pub enum CtuState {
    Start,
    Cu,
    R,
}

/// The up-counter function block.
#[allow(non_camel_case_types)]
#[derive(Debug)]
pub struct E_CTU {
    pub instance_name: String,
    pub ec_state: CtuState,
    pub cu: Event<In, Signal>,
    pub r: Event<In, Signal>,
    pub cuo: Event<Out, Signal>,
    pub ro: Event<Out, Signal>,
    pub pv: Data<In, UInt>,
    pub q: Data<Out, Bool>,
    pub cv: Data<Out, UInt>,
}

impl E_CTU {
    /// A fresh counter in the Start state with all events clear, a zero
    /// count and a zero preset.
    pub fn new(instance_name: &str) -> (r: E_CTU)
        ensures
            r.wf(),
            r.id() == instance_name@,
            r.ec_state is Start,
            !r.cu.active(),
            !r.r.active(),
            !r.cuo.active(),
            !r.ro.active(),
            r.pv.value_view() == 0,
            !r.q.value_view(),
            r.cv.value_view() == 0,
    {
        E_CTU {
            instance_name: instance_name.to_owned(),
            ec_state: CtuState::Start,
            cu: Event::new(),
            r: Event::new(),
            cuo: Event::new(),
            ro: Event::new(),
            pv: Data::of(0),
            q: Data::of(false),
            cv: Data::of(0),
        }
    }

    /// Zeroes the count and clears `q`.
    fn r_algorithm(&mut self)
        ensures
            *final(self) == (E_CTU {
                cv: old(self).cv.spec_with(0),
                q: old(self).q.spec_with(false),
                ..*old(self)
            }),
    {
        self.cv.write(0);
        self.q.write(false);
    }

    /// Increments the count and recomputes `q` against the preset.
    fn cu_algorithm(&mut self)
        requires
            old(self).cv.value_view() < 65535,
        ensures
            *final(self) == (E_CTU {
                cv: old(self).cv.spec_with((old(self).cv.value_view() + 1) as u16),
                q: old(self).q.spec_with(
                    old(self).cv.value_view() + 1 >= old(self).pv.value_view(),
                ),
                ..*old(self)
            }),
    {
        let cv = self.cv.read();
        self.cv.write(cv + 1);
        self.q.write(self.cv.read() >= self.pv.read());
    }

    /// Enters `state`, running its entry algorithm and firing its event.
    fn enter(&mut self, state: CtuState)
        requires
            state is Cu ==> old(self).cv.value_view() < 65535,
        ensures
            state is Start ==> *final(self) == (E_CTU { ec_state: CtuState::Start, ..*old(self) }),
            state is Cu ==> *final(self) == (E_CTU {
                ec_state: CtuState::Cu,
                cv: old(self).cv.spec_with((old(self).cv.value_view() + 1) as u16),
                q: old(self).q.spec_with(
                    old(self).cv.value_view() + 1 >= old(self).pv.value_view(),
                ),
                cuo: old(self).cuo.spec_with(true),
                ..*old(self)
            }),
            state is R ==> *final(self) == (E_CTU {
                ec_state: CtuState::R,
                cv: old(self).cv.spec_with(0),
                q: old(self).q.spec_with(false),
                ro: old(self).ro.spec_with(true),
                ..*old(self)
            }),
    {
        match state {
            CtuState::Start => {},
            CtuState::Cu => {
                self.cu_algorithm();
                self.cuo.send();
            },
            CtuState::R => {
                self.r_algorithm();
                self.ro.send();
            },
        }
        self.ec_state = state;
    }
}

impl Fb for E_CTU {
    open spec fn wf(&self) -> bool {
        true
    }

    open spec fn id(&self) -> Seq<char> {
        self.instance_name@
    }

    open spec fn active_in(&self) -> Option<Seq<char>> {
        if self.cu.active() {
            Some("cu"@)
        } else if self.r.active() {
            Some("r"@)
        } else {
            None
        }
    }

    open spec fn active_out(&self) -> Option<Seq<char>> {
        if self.cuo.active() {
            Some("cuo"@)
        } else if self.ro.active() {
            Some("ro"@)
        } else {
            None
        }
    }

    open spec fn has_in_event(&self, e: Seq<char>) -> bool {
        e == "cu"@ || e == "r"@
    }

    open spec fn has_out_event(&self, e: Seq<char>) -> bool {
        e == "cuo"@ || e == "ro"@
    }

    open spec fn with_of(&self, e: Seq<char>) -> Seq<Seq<char>> {
        if e == "cu"@ {
            seq!["pv"@]
        } else if e == "cuo"@ || e == "ro"@ {
            seq!["q"@, "cv"@]
        } else {
            Seq::empty()
        }
    }

    open spec fn in_kind(&self, f: Seq<char>) -> Option<DataKind> {
        if f == "pv"@ {
            Some(DataKind::UInt)
        } else {
            None
        }
    }

    open spec fn out_kind(&self, f: Seq<char>) -> Option<DataKind> {
        if f == "q"@ {
            Some(DataKind::Bool)
        } else if f == "cv"@ {
            Some(DataKind::UInt)
        } else {
            None
        }
    }

    open spec fn data_out(&self, f: Seq<char>) -> DataBufferView {
        if f == "q"@ {
            self.q.buf_view()
        } else if f == "cv"@ {
            self.cv.buf_view()
        } else {
            DataBufferView::Unassigned
        }
    }

    open spec fn with_in_set(&self, e: Seq<char>) -> E_CTU {
        if e == "cu"@ {
            E_CTU { cu: self.cu.spec_with(true), ..*self }
        } else if e == "r"@ {
            E_CTU { r: self.r.spec_with(true), ..*self }
        } else {
            *self
        }
    }

    open spec fn with_out_cleared(&self) -> E_CTU {
        E_CTU { cuo: self.cuo.spec_with(false), ro: self.ro.spec_with(false), ..*self }
    }

    open spec fn with_data_in(&self, f: Seq<char>, v: DataBufferView) -> E_CTU {
        match v {
            DataBufferView::UInt(x) => {
                if f == "pv"@ {
                    E_CTU { pv: self.pv.spec_with(x), ..*self }
                } else {
                    *self
                }
            },
            _ => *self,
        }
    }

    open spec fn step_state(&self) -> E_CTU {
        match self.ec_state {
            CtuState::Start => {
                if self.cu.active() && self.cv.value_view() < 65535 {
                    E_CTU {
                        cu: self.cu.spec_with(false),
                        ec_state: CtuState::Cu,
                        cv: self.cv.spec_with((self.cv.value_view() + 1) as u16),
                        q: self.q.spec_with(self.cv.value_view() + 1 >= self.pv.value_view()),
                        cuo: self.cuo.spec_with(true),
                        ..*self
                    }
                } else if self.r.active() {
                    E_CTU {
                        cu: self.cu.spec_with(false),
                        r: self.r.spec_with(false),
                        ec_state: CtuState::R,
                        cv: self.cv.spec_with(0),
                        q: self.q.spec_with(false),
                        ro: self.ro.spec_with(true),
                        ..*self
                    }
                } else if self.cu.active() {
                    E_CTU { cu: self.cu.spec_with(false), ..*self }
                } else {
                    *self
                }
            },
            CtuState::Cu => E_CTU { ec_state: CtuState::Start, ..*self },
            CtuState::R => E_CTU { ec_state: CtuState::Start, ..*self },
        }
    }

    open spec fn step_changed(&self) -> bool {
        match self.ec_state {
            CtuState::Start => self.cu.active() || self.r.active(),
            CtuState::Cu => true,
            CtuState::R => true,
        }
    }

    open spec fn measure(&self) -> nat {
        (if self.cu.active() {
            2nat
        } else {
            0nat
        }) + (if self.r.active() {
            2nat
        } else {
            0nat
        }) + (if self.ec_state is Cu || self.ec_state is R {
            1nat
        } else {
            0nat
        })
    }

    fn instance_name(&self) -> String {
        self.instance_name.clone()
    }

    fn set_event_in(&mut self, event: &str) -> Result<(), FbError> {
        if str_eq(event, "cu") {
            self.cu.receive();
            Ok(())
        } else if str_eq(event, "r") {
            self.r.receive();
            Ok(())
        } else {
            Err(FbError::UnknownEvent)
        }
    }

    fn has_event_in(&self, event: &str) -> bool {
        str_eq(event, "cu") || str_eq(event, "r")
    }

    fn has_event_out(&self, event: &str) -> bool {
        str_eq(event, "cuo") || str_eq(event, "ro")
    }

    fn active_event_in(&self) -> Option<String> {
        if self.cu.read() {
            Some("cu".to_owned())
        } else if self.r.read() {
            Some("r".to_owned())
        } else {
            None
        }
    }

    fn active_event_out(&self) -> Option<String> {
        if self.cuo.read() {
            Some("cuo".to_owned())
        } else if self.ro.read() {
            Some("ro".to_owned())
        } else {
            None
        }
    }

    fn clear_event_out(&mut self) {
        self.cuo.reset();
        self.ro.reset();
    }

    fn with_for_event(&self, event: &str) -> (r: Result<Vec<String>, FbError>) {
        if str_eq(event, "cu") {
            let mut fields: Vec<String> = Vec::new();
            fields.push("pv".to_owned());
            proof {
                assert(fields.deep_view() =~= self.with_of(event@));
            }
            Ok(fields)
        } else if str_eq(event, "cuo") || str_eq(event, "ro") {
            proof {
                lemma_ctu_names_distinct();
            }
            let mut fields: Vec<String> = Vec::new();
            fields.push("q".to_owned());
            fields.push("cv".to_owned());
            proof {
                assert(fields.deep_view() =~= self.with_of(event@));
            }
            Ok(fields)
        } else if str_eq(event, "r") {
            let fields: Vec<String> = Vec::new();
            proof {
                lemma_ctu_names_distinct();
                assert(fields.deep_view() =~= self.with_of(event@));
            }
            Ok(fields)
        } else {
            Err(FbError::UnknownEvent)
        }
    }

    fn read_data_out(&self, field: &str) -> Result<DataBuffer, FbError> {
        if str_eq(field, "q") {
            Ok(self.q.as_buf())
        } else if str_eq(field, "cv") {
            Ok(self.cv.as_buf())
        } else {
            Err(FbError::UnknownDataField)
        }
    }

    fn write_data_in(&mut self, field: &str, buf: &DataBuffer) -> Result<(), FbError> {
        if str_eq(field, "pv") {
            match buf {
                DataBuffer::UInt(v) => {
                    self.pv.update(*v);
                    Ok(())
                },
                _ => Err(FbError::DataKindMismatch),
            }
        } else {
            Err(FbError::UnknownDataField)
        }
    }

    fn in_data_kind(&self, field: &str) -> Option<DataKind> {
        if str_eq(field, "pv") {
            Some(DataKind::UInt)
        } else {
            None
        }
    }

    fn out_data_kind(&self, field: &str) -> Option<DataKind> {
        if str_eq(field, "q") {
            Some(DataKind::Bool)
        } else if str_eq(field, "cv") {
            Some(DataKind::UInt)
        } else {
            None
        }
    }

    fn data_kind(&self, field: &str) -> Result<DataKind, FbError> {
        proof {
            lemma_ctu_names_distinct();
        }
        if str_eq(field, "pv") {
            Ok(DataKind::UInt)
        } else if str_eq(field, "q") {
            Ok(DataKind::Bool)
        } else if str_eq(field, "cv") {
            Ok(DataKind::UInt)
        } else {
            Err(FbError::UnknownDataField)
        }
    }

    fn invoke_execution_control(&mut self) -> bool {
        let mut unstable = false;
        match self.ec_state {
            CtuState::Start => {
                let had_cu = self.cu.read_and_reset();
                if had_cu && self.cv.read() < 65535 {
                    self.enter(CtuState::Cu);
                    unstable = true;
                } else if self.r.read_and_reset() {
                    self.enter(CtuState::R);
                    unstable = true;
                } else if had_cu {
                    // the count-up event is consumed, but the saturated
                    // counter does not increment
                    unstable = true;
                }
            },
            CtuState::Cu => {
                self.enter(CtuState::Start);
                unstable = true;
            },
            CtuState::R => {
                self.enter(CtuState::Start);
                unstable = true;
            },
        }
        unstable
    }
}

impl E_CTU {
    /// A counter is never more than five transitions away from stability.
    pub proof fn lemma_measure_bound(&self)
        ensures
            self.measure() <= 5,
    {
    }

    /// A count-up event increments the count by exactly one and raises `q`
    /// exactly when the new count reaches the preset; at the largest
    /// representable count the event is consumed without incrementing, so
    /// the count never overflows.
    pub proof fn lemma_count_up_saturates(&self)
        requires
            self.ec_state is Start,
            self.cu.active(),
        ensures
            self.cv.value_view() < 65535 ==> {
                &&& self.step_state().cv.value_view() == self.cv.value_view() + 1
                &&& self.step_state().q.value_view() == (self.cv.value_view() + 1
                    >= self.pv.value_view())
                &&& self.step_state().cuo.active()
            },
            self.cv.value_view() == 65535 && !self.r.active() ==> {
                &&& self.step_state().cv.value_view() == self.cv.value_view()
                &&& !self.step_state().cu.active()
            },
    {
    }
}

} // verus!
