//! The function-block capability interface and its field primitives.
//!
//! [`Fb`] is the contract every schedulable block satisfies: identify itself,
//! accept an input event, report its pending events, hand out and take in
//! data values, and advance its execution control chart by exactly one
//! transition.  All behaviour is pinned down over spec-level observables so
//! that the runtime's routing proofs need nothing beyond this interface.

use vstd::prelude::*;

use crate::FbError;
use crate::fb::data::{DataBuffer, DataBufferView, DataKind};

pub mod data;
pub mod direction;
pub mod event;

verus! {

/// The capability interface of a function block.
///
/// The spec functions form the mathematical model of a block: its stable
/// identity, which event and data fields it declares, which events are
/// pending, the WITH-association of each event, and the functional effect of
/// each mutation (`with_in_set`, `with_out_cleared`, `with_data_in`,
/// `step_state`).  The executable methods are each pinned to that model.
///
/// A block never panics: every call with an unknown name or a mismatched
/// buffer kind returns an error value and leaves the block unchanged.
pub trait Fb: Sized {
    /// Well-formedness of the block's internal state.
    spec fn wf(&self) -> bool;

    /// The stable instance name.
    spec fn id(&self) -> Seq<char>;

    /// The pending input event, if any; ties break by field-declaration
    /// order, first declared first.
    spec fn active_in(&self) -> Option<Seq<char>>;

    /// The pending output event, if any; ties break by field-declaration
    /// order, first declared first.
    spec fn active_out(&self) -> Option<Seq<char>>;

    /// Whether `e` names a declared input event.
    spec fn has_in_event(&self, e: Seq<char>) -> bool;

    /// Whether `e` names a declared output event.
    spec fn has_out_event(&self, e: Seq<char>) -> bool;

    /// The names of the data fields WITH-associated to event `e`.
    spec fn with_of(&self, e: Seq<char>) -> Seq<Seq<char>>;

    /// The declared kind of input data field `f`, or `None` if undeclared.
    spec fn in_kind(&self, f: Seq<char>) -> Option<DataKind>;

    /// The declared kind of output data field `f`, or `None` if undeclared.
    spec fn out_kind(&self, f: Seq<char>) -> Option<DataKind>;

    /// The current value of output data field `f`.
    spec fn data_out(&self, f: Seq<char>) -> DataBufferView;

    /// The block after input event `e` is latched.
    spec fn with_in_set(&self, e: Seq<char>) -> Self;

    /// The block after all output events are cleared.
    spec fn with_out_cleared(&self) -> Self;

    /// The block after input data field `f` takes the value `v`.
    spec fn with_data_in(&self, f: Seq<char>, v: DataBufferView) -> Self;

    /// The block after one transition of its execution control chart.
    spec fn step_state(&self) -> Self;

    /// Whether one transition changes the observable state.
    spec fn step_changed(&self) -> bool;

    /// An upper bound on the transitions left until the block is stable.
    spec fn measure(&self) -> nat;

    /// The stable instance name.
    fn instance_name(&self) -> (r: String)
        ensures
            r@ == self.id(),
    ;

    /// Latches input event `event`; rejects an undeclared name.
    fn set_event_in(&mut self, event: &str) -> (r: Result<(), FbError>)
        requires
            old(self).wf(),
        ensures
            final(self).wf(),
            old(self).has_in_event(event@) ==> r is Ok && *final(self) == old(self).with_in_set(
                event@,
            ),
            !old(self).has_in_event(event@) ==> r == Err::<(), FbError>(FbError::UnknownEvent)
                && *final(self) == *old(self),
    ;

    /// Whether `event` names a declared input event.
    fn has_event_in(&self, event: &str) -> (r: bool)
        ensures
            r == self.has_in_event(event@),
    ;

    /// Whether `event` names a declared output event.
    fn has_event_out(&self, event: &str) -> (r: bool)
        ensures
            r == self.has_out_event(event@),
    ;

    /// The pending input event, if any.
    fn active_event_in(&self) -> (r: Option<String>)
        ensures
            r.deep_view() == self.active_in(),
    ;

    /// The pending output event, if any.
    fn active_event_out(&self) -> (r: Option<String>)
        ensures
            r.deep_view() == self.active_out(),
    ;

    /// Clears every output event; the runtime calls this after a delivery.
    fn clear_event_out(&mut self)
        requires
            old(self).wf(),
        ensures
            final(self).wf(),
            *final(self) == old(self).with_out_cleared(),
    ;

    /// The data fields WITH-associated to `event`; rejects an undeclared name.
    fn with_for_event(&self, event: &str) -> (r: Result<Vec<String>, FbError>)
        ensures
            self.has_in_event(event@) || self.has_out_event(event@) ==> (r matches Ok(fields)
                && fields.deep_view() == self.with_of(event@)),
            !(self.has_in_event(event@) || self.has_out_event(event@)) ==> r == Err::<
                Vec<String>,
                FbError,
            >(FbError::UnknownEvent),
    ;

    /// Reads output data field `field`; rejects an undeclared name.
    fn read_data_out(&self, field: &str) -> (r: Result<DataBuffer, FbError>)
        ensures
            self.out_kind(field@) is Some ==> (r matches Ok(buf) && buf@ == self.data_out(field@)),
            self.out_kind(field@) is None ==> r == Err::<DataBuffer, FbError>(
                FbError::UnknownDataField,
            ),
    ;

    /// Writes input data field `field` from `buf`; rejects an undeclared
    /// name or a buffer of the wrong kind.
    fn write_data_in(&mut self, field: &str, buf: &DataBuffer) -> (r: Result<(), FbError>)
        requires
            old(self).wf(),
        ensures
            final(self).wf(),
            old(self).in_kind(field@) is None ==> (r == Err::<(), FbError>(
                FbError::UnknownDataField,
            ) && *final(self) == *old(self)),
            old(self).in_kind(field@) matches Some(k) ==> (if buf@.kind() == Some(k) {
                r is Ok && *final(self) == old(self).with_data_in(field@, buf@)
            } else {
                r == Err::<(), FbError>(FbError::DataKindMismatch) && *final(self) == *old(self)
            }),
    ;

    /// The declared kind of input data field `field`, for wiring checks.
    fn in_data_kind(&self, field: &str) -> (r: Option<DataKind>)
        ensures
            r == self.in_kind(field@),
    ;

    /// The declared kind of output data field `field`, for wiring checks.
    fn out_data_kind(&self, field: &str) -> (r: Option<DataKind>)
        ensures
            r == self.out_kind(field@),
    ;

    /// The declared kind of data field `field`, input fields first; rejects
    /// an undeclared name.
    fn data_kind(&self, field: &str) -> (r: Result<DataKind, FbError>)
        ensures
            r == (match self.in_kind(field@) {
                Some(k) => Ok::<DataKind, FbError>(k),
                None => match self.out_kind(field@) {
                    Some(k) => Ok::<DataKind, FbError>(k),
                    None => Err::<DataKind, FbError>(FbError::UnknownDataField),
                },
            }),
    ;

    /// Advances the execution control chart by at most one transition and
    /// reports whether the state changed (the block is still unstable).
    ///
    /// A report of "unchanged" is literal: the block is then exactly as it
    /// was, and a pending event it did not consume stays pending.
    fn invoke_execution_control(&mut self) -> (r: bool)
        requires
            old(self).wf(),
        ensures
            final(self).wf(),
            *final(self) == old(self).step_state(),
            r == old(self).step_changed(),
            r ==> final(self).measure() < old(self).measure(),
            !r ==> *final(self) == *old(self),
    ;
}

/// Drives a block's execution control chart until it reports "unchanged".
///
/// This terminates for every well-formed block: each reported transition
/// strictly decreases the block's `measure`, so the number of invocations is
/// bounded by the measure of the starting state.
pub fn run_until_stable<B: Fb>(fb: &mut B) -> (steps: usize)
    requires
        old(fb).wf(),
        old(fb).measure() <= usize::MAX,
    ensures
        final(fb).wf(),
        !final(fb).step_changed(),
        steps <= old(fb).measure(),
{
    let mut steps: usize = 0;
    loop
        invariant
            fb.wf(),
            steps + fb.measure() <= old(fb).measure(),
            old(fb).measure() <= usize::MAX,
        ensures
            fb.wf(),
            !fb.step_changed(),
            steps <= old(fb).measure(),
        decreases fb.measure(),
    {
        if !fb.invoke_execution_control() {
            break;
        }
        steps = steps + 1;
    }
    steps
}

} // verus!
