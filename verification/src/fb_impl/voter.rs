//! The three-input majority voter block.
//!
//! Input events `vote` and `reset`, output events `voted` and `ready`,
//! boolean data inputs `a`, `b`, `c` and boolean data output `state`.
//! The execution control chart cycles Ready -> Vote -> VotedPos -> Reset ->
//! Ready; a negative vote returns straight to Ready.

use vstd::prelude::*;

use crate::FbError;
use crate::cli::args::Sequence;
use crate::cli::output::VoterInformation;
use crate::fb::Fb;
use crate::fb::data::{Bool, Data, DataBuffer, DataBufferView, DataKind, DataType, toggle};
use crate::fb::direction::{In, Out};
use crate::fb::event::{Event, Signal};
use crate::str_eq;

verus! {

/// The voter's port names are pairwise distinct.
pub proof fn lemma_voter_names_distinct()
    ensures
        "vote"@ != "reset"@,
        "voted"@ != "ready"@,
        "a"@ != "b"@,
        "a"@ != "c"@,
        "b"@ != "c"@,
        "a"@ != "state"@,
        "b"@ != "state"@,
        "c"@ != "state"@,
{
    reveal_strlit("vote");
    reveal_strlit("reset");
    reveal_strlit("voted");
    reveal_strlit("ready");
    reveal_strlit("a");
    reveal_strlit("b");
    reveal_strlit("c");
    reveal_strlit("state");
    assert("vote"@.len() == 4);
    assert("reset"@.len() == 5);
    assert("a"@.len() == 1);
    assert("b"@.len() == 1);
    assert("c"@.len() == 1);
    assert("state"@.len() == 5);
    assert("voted"@[0] == 'v');
    assert("ready"@[0] == 'r');
    assert("a"@[0] == 'a');
    assert("b"@[0] == 'b');
    assert("c"@[0] == 'c');
}

/// The states of the voter's execution control chart.
#[derive(Clone, Copy, Debug, PartialEq, Eq, Structural)]
pub enum VoterState {
    Ready,
    Vote,
    VotedPos,
    Reset,
}

impl VoterState {
    /// The state's display name.
    pub open spec fn spec_str(self) -> Seq<char> {
        match self {
            VoterState::Ready => "Ready"@,
            VoterState::Vote => "Vote"@,
            VoterState::VotedPos => "VotedPos"@,
            VoterState::Reset => "Reset"@,
        }
    }

    /// The state's display name.
    pub fn as_str(&self) -> (r: &'static str)
        ensures
            r@ == self.spec_str(),
    {
        match self {
            VoterState::Ready => "Ready",
            VoterState::Vote => "Vote",
            VoterState::VotedPos => "VotedPos",
            VoterState::Reset => "Reset",
        }
    }
}

/// True exactly when at least two of the three inputs are true.
pub open spec fn majority(a: bool, b: bool, c: bool) -> bool {
    (a && b) || (b && c) || (a && c)
}

/// The two-of-three disjunction agrees with counting the true inputs.
pub proof fn lemma_majority_counts(a: bool, b: bool, c: bool)
    ensures
        majority(a, b, c) <==> (if a {
            1int
        } else {
            0int
        }) + (if b {
            1int
        } else {
            0int
        }) + (if c {
            1int
        } else {
            0int
        }) >= 2,
{
}

/// The three-input majority voter function block.
#[derive(Debug)]
pub struct Voter {
    pub instance_name: String,
    pub ecc: VoterState,
    pub vote: Event<In, Signal>,
    pub reset: Event<In, Signal>,
    pub voted: Event<Out, Signal>,
    pub ready: Event<Out, Signal>,
    pub a: Data<In, Bool>,
    pub b: Data<In, Bool>,
    pub c: Data<In, Bool>,
    pub state: Data<Out, Bool>,
}

impl Voter {
    /// A fresh voter in the Ready state with all events clear and all data
    /// false.
    pub fn new(instance_name: &str) -> (r: Voter)
        ensures
            r.wf(),
            r.id() == instance_name@,
            r.ecc is Ready,
            !r.vote.active(),
            !r.reset.active(),
            !r.voted.active(),
            !r.ready.active(),
            !r.a.value_view(),
            !r.b.value_view(),
            !r.c.value_view(),
            !r.state.value_view(),
    {
        Voter {
            instance_name: instance_name.to_owned(),
            ecc: VoterState::Ready,
            vote: Event::new(),
            reset: Event::new(),
            voted: Event::new(),
            ready: Event::new(),
            a: Data::of(false),
            b: Data::of(false),
            c: Data::of(false),
            state: Data::of(false),
        }
    }

    /// Recomputes `state` as the majority of the three inputs.
    fn vote_algorithm(&mut self)
        ensures
            *final(self) == (Voter {
                state: old(self).state.spec_with(
                    majority(
                        old(self).a.value_view(),
                        old(self).b.value_view(),
                        old(self).c.value_view(),
                    ),
                ),
                ..*old(self)
            }),
    {
        let a = self.a.read();
        let b = self.b.read();
        let c = self.c.read();
        let vote = (a && b) || (b && c) || (a && c);
        self.state.write(vote);
    }

    /// Clears `state`.
    fn reset_algorithm(&mut self)
        ensures
            *final(self) == (Voter { state: old(self).state.spec_with(false), ..*old(self) }),
    {
        self.state.write(false);
    }
}

impl Fb for Voter {
    open spec fn wf(&self) -> bool {
        true
    }

    open spec fn id(&self) -> Seq<char> {
        self.instance_name@
    }

    open spec fn active_in(&self) -> Option<Seq<char>> {
        if self.vote.active() {
            Some("vote"@)
        } else if self.reset.active() {
            Some("reset"@)
        } else {
            None
        }
    }

    open spec fn active_out(&self) -> Option<Seq<char>> {
        if self.voted.active() {
            Some("voted"@)
        } else if self.ready.active() {
            Some("ready"@)
        } else {
            None
        }
    }

    open spec fn has_in_event(&self, e: Seq<char>) -> bool {
        e == "vote"@ || e == "reset"@
    }

    open spec fn has_out_event(&self, e: Seq<char>) -> bool {
        e == "voted"@ || e == "ready"@
    }

    open spec fn with_of(&self, e: Seq<char>) -> Seq<Seq<char>> {
        if e == "vote"@ || e == "reset"@ {
            seq!["a"@, "b"@, "c"@]
        } else if e == "voted"@ || e == "ready"@ {
            seq!["state"@]
        } else {
            Seq::empty()
        }
    }

    open spec fn in_kind(&self, f: Seq<char>) -> Option<DataKind> {
        if f == "a"@ || f == "b"@ || f == "c"@ {
            Some(DataKind::Bool)
        } else {
            None
        }
    }

    open spec fn out_kind(&self, f: Seq<char>) -> Option<DataKind> {
        if f == "state"@ {
            Some(DataKind::Bool)
        } else {
            None
        }
    }

    open spec fn data_out(&self, f: Seq<char>) -> DataBufferView {
        if f == "state"@ {
            self.state.buf_view()
        } else {
            DataBufferView::Unassigned
        }
    }

    open spec fn with_in_set(&self, e: Seq<char>) -> Voter {
        if e == "vote"@ {
            Voter { vote: self.vote.spec_with(true), ..*self }
        } else if e == "reset"@ {
            Voter { reset: self.reset.spec_with(true), ..*self }
        } else {
            *self
        }
    }

    open spec fn with_out_cleared(&self) -> Voter {
        Voter { voted: self.voted.spec_with(false), ready: self.ready.spec_with(false), ..*self }
    }

    open spec fn with_data_in(&self, f: Seq<char>, v: DataBufferView) -> Voter {
        match v {
            DataBufferView::Bool(x) => {
                if f == "a"@ {
                    Voter { a: self.a.spec_with(x), ..*self }
                } else if f == "b"@ {
                    Voter { b: self.b.spec_with(x), ..*self }
                } else if f == "c"@ {
                    Voter { c: self.c.spec_with(x), ..*self }
                } else {
                    *self
                }
            },
            _ => *self,
        }
    }

    open spec fn step_state(&self) -> Voter {
        match self.ecc {
            VoterState::Ready => {
                if self.vote.active() {
                    Voter { vote: self.vote.spec_with(false), ecc: VoterState::Vote, ..*self }
                } else {
                    *self
                }
            },
            VoterState::Vote => {
                let verdict = majority(self.a.value_view(), self.b.value_view(), self.c.value_view());
                Voter {
                    state: self.state.spec_with(verdict),
                    voted: self.voted.spec_with(true),
                    ecc: if verdict {
                        VoterState::VotedPos
                    } else {
                        VoterState::Ready
                    },
                    ..*self
                }
            },
            VoterState::VotedPos => {
                if self.reset.active() {
                    Voter { reset: self.reset.spec_with(false), ecc: VoterState::Reset, ..*self }
                } else {
                    *self
                }
            },
            VoterState::Reset => {
                Voter {
                    state: self.state.spec_with(false),
                    ready: self.ready.spec_with(true),
                    ecc: VoterState::Ready,
                    ..*self
                }
            },
        }
    }

    open spec fn step_changed(&self) -> bool {
        match self.ecc {
            VoterState::Ready => self.vote.active(),
            VoterState::Vote => true,
            VoterState::VotedPos => self.reset.active(),
            VoterState::Reset => true,
        }
    }

    open spec fn measure(&self) -> nat {
        (if self.vote.active() {
            2nat
        } else {
            0nat
        }) + (if self.reset.active() {
            2nat
        } else {
            0nat
        }) + (if self.ecc is Vote || self.ecc is Reset {
            1nat
        } else {
            0nat
        })
    }

    fn instance_name(&self) -> String {
        self.instance_name.clone()
    }

    fn set_event_in(&mut self, event: &str) -> Result<(), FbError> {
        if str_eq(event, "vote") {
            self.vote.receive();
            Ok(())
        } else if str_eq(event, "reset") {
            self.reset.receive();
            Ok(())
        } else {
            Err(FbError::UnknownEvent)
        }
    }

    fn has_event_in(&self, event: &str) -> bool {
        str_eq(event, "vote") || str_eq(event, "reset")
    }

    fn has_event_out(&self, event: &str) -> bool {
        str_eq(event, "voted") || str_eq(event, "ready")
    }

    fn active_event_in(&self) -> Option<String> {
        if self.vote.read() {
            Some("vote".to_owned())
        } else if self.reset.read() {
            Some("reset".to_owned())
        } else {
            None
        }
    }

    fn active_event_out(&self) -> Option<String> {
        if self.voted.read() {
            Some("voted".to_owned())
        } else if self.ready.read() {
            Some("ready".to_owned())
        } else {
            None
        }
    }

    fn clear_event_out(&mut self) {
        self.voted.reset();
        self.ready.reset();
    }

    fn with_for_event(&self, event: &str) -> (r: Result<Vec<String>, FbError>) {
        if str_eq(event, "vote") || str_eq(event, "reset") {
            let mut fields: Vec<String> = Vec::new();
            fields.push("a".to_owned());
            fields.push("b".to_owned());
            fields.push("c".to_owned());
            proof {
                assert(fields.deep_view() =~= self.with_of(event@));
            }
            Ok(fields)
        } else if str_eq(event, "voted") || str_eq(event, "ready") {
            let mut fields: Vec<String> = Vec::new();
            fields.push("state".to_owned());
            proof {
                assert(fields.deep_view() =~= self.with_of(event@));
            }
            Ok(fields)
        } else {
            Err(FbError::UnknownEvent)
        }
    }

    fn read_data_out(&self, field: &str) -> Result<DataBuffer, FbError> {
        if str_eq(field, "state") {
            Ok(self.state.as_buf())
        } else {
            Err(FbError::UnknownDataField)
        }
    }

    fn write_data_in(&mut self, field: &str, buf: &DataBuffer) -> Result<(), FbError> {
        if str_eq(field, "a") {
            match buf {
                DataBuffer::Bool(v) => {
                    self.a.update(*v);
                    Ok(())
                },
                _ => Err(FbError::DataKindMismatch),
            }
        } else if str_eq(field, "b") {
            match buf {
                DataBuffer::Bool(v) => {
                    self.b.update(*v);
                    Ok(())
                },
                _ => Err(FbError::DataKindMismatch),
            }
        } else if str_eq(field, "c") {
            match buf {
                DataBuffer::Bool(v) => {
                    self.c.update(*v);
                    Ok(())
                },
                _ => Err(FbError::DataKindMismatch),
            }
        } else {
            Err(FbError::UnknownDataField)
        }
    }

    fn in_data_kind(&self, field: &str) -> Option<DataKind> {
        if str_eq(field, "a") || str_eq(field, "b") || str_eq(field, "c") {
            Some(DataKind::Bool)
        } else {
            None
        }
    }

    fn out_data_kind(&self, field: &str) -> Option<DataKind> {
        if str_eq(field, "state") {
            Some(DataKind::Bool)
        } else {
            None
        }
    }

    fn data_kind(&self, field: &str) -> Result<DataKind, FbError> {
        if str_eq(field, "a") || str_eq(field, "b") || str_eq(field, "c") {
            Ok(DataKind::Bool)
        } else if str_eq(field, "state") {
            Ok(DataKind::Bool)
        } else {
            Err(FbError::UnknownDataField)
        }
    }

    fn invoke_execution_control(&mut self) -> bool {
        let mut unstable = false;
        match self.ecc {
            VoterState::Ready => {
                if self.vote.read_and_reset() {
                    self.ecc = VoterState::Vote;
                    unstable = true;
                }
            },
            VoterState::Vote => {
                self.vote_algorithm();
                self.voted.send();
                if self.state.read() {
                    self.ecc = VoterState::VotedPos;
                } else {
                    self.ecc = VoterState::Ready;
                }
                unstable = true;
            },
            VoterState::VotedPos => {
                if self.reset.read_and_reset() {
                    self.ecc = VoterState::Reset;
                    unstable = true;
                }
            },
            VoterState::Reset => {
                self.reset_algorithm();
                self.ready.send();
                self.ecc = VoterState::Ready;
                unstable = true;
            },
        }
        unstable
    }
}

impl Voter {
    /// A voter is never more than five transitions away from stability.
    pub proof fn lemma_measure_bound(&self)
        ensures
            self.measure() <= 5,
    {
    }

    /// The voting transition computes exactly the two-of-three majority of
    /// the inputs, publishes it on `state`, and fires `voted`.
    pub proof fn lemma_vote_computes_majority(&self)
        requires
            self.ecc is Vote,
        ensures
            self.step_state().state.value_view() == majority(
                self.a.value_view(),
                self.b.value_view(),
                self.c.value_view(),
            ),
            self.step_state().voted.active(),
    {
    }

    /// Latches an input signal by name, refusing a second signal while one
    /// is still pending.
    pub fn receive_signal(&mut self, signal: &str) -> (r: Result<(), FbError>)
        ensures
            old(self).active_in() is Some ==> (r == Err::<(), FbError>(FbError::InputEventOccupied)
                && *final(self) == *old(self)),
            old(self).active_in() is None && old(self).has_in_event(signal@) ==> (r is Ok
                && *final(self) == old(self).with_in_set(signal@)),
            old(self).active_in() is None && !old(self).has_in_event(signal@) ==> (r == Err::<
                (),
                FbError,
            >(FbError::UnknownEvent) && *final(self) == *old(self)),
    {
        if self.vote.read() || self.reset.read() {
            return Err(FbError::InputEventOccupied);
        }
        self.set_event_in(signal)
    }

    /// Flips one of the boolean data inputs by name.
    pub fn toggle_input_data(&mut self, data: &str) -> (r: Result<(), FbError>)
        ensures
            data@ == "a"@ ==> (r is Ok && *final(self) == (Voter {
                a: old(self).a.spec_with(!old(self).a.value_view()),
                ..*old(self)
            })),
            data@ == "b"@ ==> (r is Ok && *final(self) == (Voter {
                b: old(self).b.spec_with(!old(self).b.value_view()),
                ..*old(self)
            })),
            data@ == "c"@ ==> (r is Ok && *final(self) == (Voter {
                c: old(self).c.spec_with(!old(self).c.value_view()),
                ..*old(self)
            })),
            !(data@ == "a"@ || data@ == "b"@ || data@ == "c"@) ==> (r == Err::<(), FbError>(
                FbError::UnknownDataField,
            ) && *final(self) == *old(self)),
    {
        proof {
            lemma_voter_names_distinct();
        }
        if str_eq(data, "a") {
            toggle(&mut self.a);
            Ok(())
        } else if str_eq(data, "b") {
            toggle(&mut self.b);
            Ok(())
        } else if str_eq(data, "c") {
            toggle(&mut self.c);
            Ok(())
        } else {
            Err(FbError::UnknownDataField)
        }
    }
}

/// The voter run to quiescence: one transition after another until none
/// fires.
pub open spec fn stabilize_voter(v: Voter) -> Voter
    decreases v.measure(),
    via stabilize_voter_decreases
{
    if v.step_changed() {
        stabilize_voter(v.step_state())
    } else {
        v
    }
}

#[via_fn]
proof fn stabilize_voter_decreases(v: Voter) {
}

impl Voter {
    /// Advances the execution control chart until it is stable and reports
    /// how many transitions fired; never more than the voter's distance
    /// measure, so never more than five.
    pub fn run_ecc(&mut self) -> (steps: usize)
        ensures
            *final(self) == stabilize_voter(*old(self)),
            !final(self).step_changed(),
            steps <= old(self).measure(),
            steps <= 5,
    {
        let mut steps: usize = 0;
        loop
            invariant
                steps + self.measure() <= old(self).measure(),
                old(self).measure() <= 5,
                stabilize_voter(*self) == stabilize_voter(*old(self)),
            ensures
                *self == stabilize_voter(*old(self)),
                !self.step_changed(),
                steps <= old(self).measure(),
            decreases self.measure(),
        {
            if !self.invoke_execution_control() {
                break;
            }
            steps = steps + 1;
        }
        steps
    }

    /// A display snapshot of the voter's current state.
    pub fn information(&self) -> (r: VoterInformation)
        ensures
            r.ecc@ == self.ecc.spec_str(),
            r.vote@ == (if self.vote.active() {
                "RECEIVED"@
            } else {
                "INACTIVE"@
            }),
            r.reset@ == (if self.reset.active() {
                "RECEIVED"@
            } else {
                "INACTIVE"@
            }),
            r.voted@ == (if self.voted.active() {
                "SENT"@
            } else {
                "INACTIVE"@
            }),
            r.ready@ == (if self.ready.active() {
                "SENT"@
            } else {
                "INACTIVE"@
            }),
            r.a@ == (if self.a.value_view() {
                "TRUE"@
            } else {
                "FALSE"@
            }),
            r.b@ == (if self.b.value_view() {
                "TRUE"@
            } else {
                "FALSE"@
            }),
            r.c@ == (if self.c.value_view() {
                "TRUE"@
            } else {
                "FALSE"@
            }),
            r.state@ == (if self.state.value_view() {
                "TRUE"@
            } else {
                "FALSE"@
            }),
    {
        VoterInformation {
            ecc: self.ecc.as_str(),
            vote: if self.vote.read() {
                "RECEIVED"
            } else {
                "INACTIVE"
            },
            reset: if self.reset.read() {
                "RECEIVED"
            } else {
                "INACTIVE"
            },
            voted: if self.voted.read() {
                "SENT"
            } else {
                "INACTIVE"
            },
            ready: if self.ready.read() {
                "SENT"
            } else {
                "INACTIVE"
            },
            a: if self.a.read() {
                "TRUE"
            } else {
                "FALSE"
            },
            b: if self.b.read() {
                "TRUE"
            } else {
                "FALSE"
            },
            c: if self.c.read() {
                "TRUE"
            } else {
                "FALSE"
            },
            state: if self.state.read() {
                "TRUE"
            } else {
                "FALSE"
            },
        }
    }
}

/// Replays one pre-scripted stimulus sequence on a fresh voter and returns
/// the voter in its final, stable state.
pub fn run_sequence(sequence: Sequence) -> (v: Voter)
    ensures
        !v.step_changed(),
        sequence is PositiveVote ==> v.ecc is VotedPos && v.state.value_view() && v.voted.active(),
        sequence is NegativeVote ==> v.ecc is Ready && !v.state.value_view() && v.voted.active(),
        sequence is VotedReset ==> v.ecc is Ready && !v.state.value_view() && v.ready.active(),
        sequence is UnvotedReset ==> v.ecc is Ready && !v.state.value_view()
            && !v.voted.active() && v.reset.active(),
{
    proof {
        lemma_voter_names_distinct();
    }
    let mut voter = Voter::new("voter");
    match sequence {
        Sequence::PositiveVote => {
            let _ = voter.toggle_input_data("a");
            let _ = voter.toggle_input_data("c");
            let _ = voter.receive_signal("vote");
        },
        Sequence::NegativeVote => {
            let _ = voter.toggle_input_data("a");
            let _ = voter.receive_signal("vote");
        },
        Sequence::VotedReset => {
            let _ = voter.toggle_input_data("a");
            let _ = voter.toggle_input_data("c");
            let _ = voter.receive_signal("vote");
        },
        Sequence::UnvotedReset => {
            let _ = voter.receive_signal("reset");
        },
    }
    let ghost setup = voter;
    let _ = voter.run_ecc();
    proof {
        let s1 = setup.step_state();
        let s2 = s1.step_state();
        if sequence is PositiveVote || sequence is NegativeVote || sequence is VotedReset {
            assert(stabilize_voter(setup) == stabilize_voter(s1));
            assert(stabilize_voter(s1) == stabilize_voter(s2));
            assert(stabilize_voter(s2) == s2);
        } else {
            assert(stabilize_voter(setup) == setup);
        }
    }
    if matches!(sequence, Sequence::VotedReset) {
        let _ = voter.receive_signal("reset");
        let ghost armed = voter;
        let _ = voter.run_ecc();
        proof {
            let s1 = armed.step_state();
            let s2 = s1.step_state();
            assert(stabilize_voter(armed) == stabilize_voter(s1));
            assert(stabilize_voter(s1) == stabilize_voter(s2));
            assert(stabilize_voter(s2) == s2);
        }
    }
    voter
}

} // verus!
