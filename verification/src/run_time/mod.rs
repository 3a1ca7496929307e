//! The runtime: owns the block instances and the wiring, and drives the
//! step/send/receive cycle.
//!
//! Blocks are stored in registration order and addressed by their unique
//! instance name; connections hold names, never references, and are resolved
//! on each use.  One full cycle is: `step` every block once, then `send_from`
//! (snapshot associated data into connection buffers and deliver pending
//! output events into free input slots), then `read_in` (flush the buffers
//! of every block that holds a freshly latched input event).

use vstd::prelude::*;

use crate::FbError;
use crate::fb::Fb;
use crate::fb::data::DataBuffer;
use crate::fb_impl::block::Block;
use crate::run_time::connection::{DataConn, DataConnView, Delivery, EventConn, EventConnView, Port, PortView};
use crate::{contains_str, str_eq};

pub mod connection;

verus! {

/// Whether some block in `fbs` is named `n`.
pub open spec fn has_fb(fbs: Seq<Block>, n: Seq<char>) -> bool {
    exists|i: int| 0 <= i < fbs.len() && (#[trigger] fbs[i]).id() == n
}

/// The index of the block named `n`; meaningful only when `has_fb` holds
/// and names are unique.
pub open spec fn fb_idx(fbs: Seq<Block>, n: Seq<char>) -> int {
    choose|i: int| 0 <= i < fbs.len() && (#[trigger] fbs[i]).id() == n
}

/// Whether the blocks of `fbs` carry pairwise distinct instance names.
pub open spec fn distinct_ids(fbs: Seq<Block>) -> bool {
    forall|i: int, j: int|
        0 <= i < j < fbs.len() ==> (#[trigger] fbs[i]).id() != (#[trigger] fbs[j]).id()
}

/// `fb_idx` returns a valid index of a block named `n` whenever one exists.
pub proof fn lemma_fb_idx(fbs: Seq<Block>, n: Seq<char>)
    requires
        has_fb(fbs, n),
    ensures
        0 <= fb_idx(fbs, n) < fbs.len(),
        fbs[fb_idx(fbs, n)].id() == n,
{
}

/// With unique names, any index holding a block named `n` is `fb_idx`.
pub proof fn lemma_fb_idx_unique(fbs: Seq<Block>, n: Seq<char>, i: int)
    requires
        distinct_ids(fbs),
        0 <= i < fbs.len(),
        fbs[i].id() == n,
    ensures
        has_fb(fbs, n),
        fb_idx(fbs, n) == i,
{
    assert(has_fb(fbs, n));
    lemma_fb_idx(fbs, n);
}

/// Well-formedness of an event connection against the registered blocks:
/// the endpoints are two different, registered instances, the source field
/// is a declared output event and the destination field a declared input
/// event.
pub open spec fn ec_wf(fbs: Seq<Block>, c: EventConnView) -> bool {
    &&& c.from.fb_name != c.to.fb_name
    &&& has_fb(fbs, c.from.fb_name)
    &&& has_fb(fbs, c.to.fb_name)
    &&& forall|i: int|
        0 <= i < fbs.len() && (#[trigger] fbs[i]).id() == c.from.fb_name ==> fbs[i].has_out_event(
            c.from.fb_field,
        )
    &&& forall|i: int|
        0 <= i < fbs.len() && (#[trigger] fbs[i]).id() == c.to.fb_name ==> fbs[i].has_in_event(
            c.to.fb_field,
        )
}

/// Well-formedness of a data connection: endpoints as for events, the source
/// field a declared output and the destination field a declared input of one
/// common kind, and the buffer holding a value of that kind.
pub open spec fn dc_wf(fbs: Seq<Block>, c: DataConnView) -> bool {
    &&& c.from.fb_name != c.to.fb_name
    &&& has_fb(fbs, c.from.fb_name)
    &&& has_fb(fbs, c.to.fb_name)
    &&& c.buf.kind() is Some
    &&& forall|i: int|
        0 <= i < fbs.len() && (#[trigger] fbs[i]).id() == c.from.fb_name ==> fbs[i].out_kind(
            c.from.fb_field,
        ) == c.buf.kind()
    &&& forall|i: int|
        0 <= i < fbs.len() && (#[trigger] fbs[i]).id() == c.to.fb_name ==> fbs[i].in_kind(
            c.to.fb_field,
        ) == c.buf.kind()
}

/// Well-formedness of a whole runtime state, over its mathematical parts.
pub open spec fn wf_parts(
    fbs: Seq<Block>,
    ecs: Seq<EventConnView>,
    dcs: Seq<DataConnView>,
) -> bool {
    &&& distinct_ids(fbs)
    &&& forall|i: int| 0 <= i < fbs.len() ==> (#[trigger] fbs[i]).wf()
    &&& forall|i: int| 0 <= i < ecs.len() ==> ec_wf(fbs, #[trigger] ecs[i])
    &&& forall|i: int| 0 <= i < dcs.len() ==> dc_wf(fbs, #[trigger] dcs[i])
}

/// Two block sequences of equal length whose blocks agree pairwise on name
/// and declared interface satisfy the same connection invariants.
pub proof fn lemma_wf_parts_pointwise(
    fbs1: Seq<Block>,
    fbs2: Seq<Block>,
    ecs: Seq<EventConnView>,
    dcs: Seq<DataConnView>,
)
    requires
        wf_parts(fbs1, ecs, dcs),
        fbs2.len() == fbs1.len(),
        forall|i: int| 0 <= i < fbs2.len() ==> (#[trigger] fbs2[i]).wf(),
        forall|i: int| 0 <= i < fbs2.len() ==> (#[trigger] fbs2[i]).id() == fbs1[i].id(),
        forall|i: int, x: Seq<char>|
            0 <= i < fbs2.len() ==> (#[trigger] fbs2[i].has_in_event(x)) == fbs1[i].has_in_event(
                x,
            ),
        forall|i: int, x: Seq<char>|
            0 <= i < fbs2.len() ==> (#[trigger] fbs2[i].has_out_event(x)) == fbs1[i].has_out_event(
                x,
            ),
        forall|i: int, x: Seq<char>|
            0 <= i < fbs2.len() ==> (#[trigger] fbs2[i].in_kind(x)) == fbs1[i].in_kind(x),
        forall|i: int, x: Seq<char>|
            0 <= i < fbs2.len() ==> (#[trigger] fbs2[i].out_kind(x)) == fbs1[i].out_kind(x),
    ensures
        wf_parts(fbs2, ecs, dcs),
{
    assert forall|k: int| 0 <= k < ecs.len() implies ec_wf(fbs2, #[trigger] ecs[k]) by {
        assert(ec_wf(fbs1, ecs[k]));
        lemma_fb_idx(fbs1, ecs[k].from.fb_name);
        let wf_i = fb_idx(fbs1, ecs[k].from.fb_name);
        assert(fbs2[wf_i].id() == ecs[k].from.fb_name);
        lemma_fb_idx(fbs1, ecs[k].to.fb_name);
        let wt_i = fb_idx(fbs1, ecs[k].to.fb_name);
        assert(fbs2[wt_i].id() == ecs[k].to.fb_name);
        assert forall|i: int|
            0 <= i < fbs2.len() && (#[trigger] fbs2[i]).id() == ecs[k].from.fb_name implies fbs2[i].has_out_event(ecs[k].from.fb_field) by {
            assert(fbs1[i].id() == ecs[k].from.fb_name);
            assert(fbs1[i].has_out_event(ecs[k].from.fb_field));
        }
        assert forall|i: int|
            0 <= i < fbs2.len() && (#[trigger] fbs2[i]).id() == ecs[k].to.fb_name implies fbs2[i].has_in_event(ecs[k].to.fb_field) by {
            assert(fbs1[i].id() == ecs[k].to.fb_name);
            assert(fbs1[i].has_in_event(ecs[k].to.fb_field));
        }
    }
    assert forall|k: int| 0 <= k < dcs.len() implies dc_wf(fbs2, #[trigger] dcs[k]) by {
        assert(dc_wf(fbs1, dcs[k]));
        lemma_fb_idx(fbs1, dcs[k].from.fb_name);
        let wf_i = fb_idx(fbs1, dcs[k].from.fb_name);
        assert(fbs2[wf_i].id() == dcs[k].from.fb_name);
        lemma_fb_idx(fbs1, dcs[k].to.fb_name);
        let wt_i = fb_idx(fbs1, dcs[k].to.fb_name);
        assert(fbs2[wt_i].id() == dcs[k].to.fb_name);
        assert forall|i: int|
            0 <= i < fbs2.len() && (#[trigger] fbs2[i]).id() == dcs[k].from.fb_name implies fbs2[i].out_kind(dcs[k].from.fb_field) == dcs[k].buf.kind() by {
            assert(fbs1[i].id() == dcs[k].from.fb_name);
            assert(fbs1[i].out_kind(dcs[k].from.fb_field) == dcs[k].buf.kind());
        }
        assert forall|i: int|
            0 <= i < fbs2.len() && (#[trigger] fbs2[i]).id() == dcs[k].to.fb_name implies fbs2[i].in_kind(dcs[k].to.fb_field) == dcs[k].buf.kind() by {
            assert(fbs1[i].id() == dcs[k].to.fb_name);
            assert(fbs1[i].in_kind(dcs[k].to.fb_field) == dcs[k].buf.kind());
        }
    }
}

/// The predicate keeping the blocks that survive removing `name`.
pub open spec fn keeps_block(name: Seq<char>) -> spec_fn(Block) -> bool {
    |b: Block| b.id() != name
}

/// The predicate keeping the event connections that survive removing `name`.
pub open spec fn keeps_ec(name: Seq<char>) -> spec_fn(EventConnView) -> bool {
    |c: EventConnView| c.from.fb_name != name && c.to.fb_name != name
}

/// The predicate keeping the data connections that survive removing `name`.
pub open spec fn keeps_dc(name: Seq<char>) -> spec_fn(DataConnView) -> bool {
    |c: DataConnView| c.from.fb_name != name && c.to.fb_name != name
}

/// Every element of a filtered sequence occurs in the original.
proof fn lemma_filter_membership<A>(s: Seq<A>, pred: spec_fn(A) -> bool)
    ensures
        forall|i: int|
            0 <= i < s.filter(pred).len() ==> s.contains(#[trigger] s.filter(pred)[i]),
    decreases s.len(),
{
    reveal(Seq::filter);
    if s.len() == 0 {
    } else {
        let rest = s.drop_last();
        lemma_filter_membership(rest, pred);
        assert forall|i: int|
            0 <= i < s.filter(pred).len() implies s.contains(#[trigger] s.filter(pred)[i]) by {
            if i < rest.filter(pred).len() {
                assert(s.filter(pred)[i] == rest.filter(pred)[i]);
                assert(rest.contains(rest.filter(pred)[i]));
                let w = choose|w: int| 0 <= w < rest.len() && rest[w] == rest.filter(pred)[i];
                assert(s[w] == s.filter(pred)[i]);
            } else {
                assert(s.filter(pred)[i] == s.last());
                assert(s[s.len() - 1] == s.last());
            }
        }
    }
}

/// Filtering a single-element sequence keeps or drops that element.
proof fn lemma_filter_singleton<A>(x: A, pred: spec_fn(A) -> bool)
    ensures
        seq![x].filter(pred) == if pred(x) {
            seq![x]
        } else {
            Seq::<A>::empty()
        },
{
    reveal(Seq::filter);
    assert(seq![x].drop_last() =~= Seq::<A>::empty());
    assert(Seq::<A>::empty().filter(pred) =~= Seq::<A>::empty());
    if pred(x) {
        assert(seq![x].filter(pred) =~= seq![x]);
    } else {
        assert(seq![x].filter(pred) =~= Seq::<A>::empty());
    }
}

/// Removing one name keeps the remaining instance names distinct.
proof fn lemma_filter_distinct_ids(fbs: Seq<Block>, name: Seq<char>)
    requires
        distinct_ids(fbs),
    ensures
        distinct_ids(fbs.filter(keeps_block(name))),
    decreases fbs.len(),
{
    reveal(Seq::filter);
    let pred = keeps_block(name);
    if fbs.len() == 0 {
    } else {
        let rest = fbs.drop_last();
        assert forall|i: int, j: int| 0 <= i < j < rest.len() implies (#[trigger] rest[i]).id()
            != (#[trigger] rest[j]).id() by {
            assert(fbs[i].id() != fbs[j].id());
        }
        lemma_filter_distinct_ids(rest, name);
        lemma_filter_membership(rest, pred);
        if pred(fbs.last()) {
            assert(fbs.filter(pred) == rest.filter(pred).push(fbs.last()));
            assert forall|i: int, j: int|
                0 <= i < j < fbs.filter(pred).len() implies (#[trigger] fbs.filter(pred)[i]).id()
                != (#[trigger] fbs.filter(pred)[j]).id() by {
                if j < rest.filter(pred).len() {
                    assert(fbs.filter(pred)[i] == rest.filter(pred)[i]);
                    assert(fbs.filter(pred)[j] == rest.filter(pred)[j]);
                } else {
                    assert(fbs.filter(pred)[j] == fbs.last());
                    assert(fbs.filter(pred)[i] == rest.filter(pred)[i]);
                    assert(rest.contains(rest.filter(pred)[i]));
                    let w = choose|w: int|
                        0 <= w < rest.len() && rest[w] == rest.filter(pred)[i];
                    assert(fbs[w].id() != fbs[fbs.len() - 1].id());
                }
            }
        }
    }
}

/// A name other than the removed one stays registered, and the blocks of the
/// filtered sequence all come from the original.
proof fn lemma_filter_has_fb(fbs: Seq<Block>, name: Seq<char>, n: Seq<char>)
    requires
        has_fb(fbs, n),
        n != name,
    ensures
        has_fb(fbs.filter(keeps_block(name)), n),
    decreases fbs.len(),
{
    reveal(Seq::filter);
    let pred = keeps_block(name);
    let w = choose|w: int| 0 <= w < fbs.len() && (#[trigger] fbs[w]).id() == n;
    if w == fbs.len() - 1 {
        assert(pred(fbs.last()));
        assert(fbs.filter(pred) == fbs.drop_last().filter(pred).push(fbs.last()));
        let f = fbs.filter(pred);
        assert(f[f.len() - 1].id() == n);
    } else {
        let rest = fbs.drop_last();
        assert(rest[w] == fbs[w]);
        assert(has_fb(rest, n));
        lemma_filter_has_fb(rest, name, n);
        let f = rest.filter(pred);
        let v = choose|v: int| 0 <= v < f.len() && (#[trigger] f[v]).id() == n;
        if pred(fbs.last()) {
            assert(fbs.filter(pred) == f.push(fbs.last()));
            assert(fbs.filter(pred)[v].id() == n);
        } else {
            assert(fbs.filter(pred) == f);
        }
    }
}

/// Removing one block and its connections preserves the runtime invariant.
proof fn lemma_wf_parts_remove(
    fbs: Seq<Block>,
    ecs: Seq<EventConnView>,
    dcs: Seq<DataConnView>,
    name: Seq<char>,
)
    requires
        wf_parts(fbs, ecs, dcs),
    ensures
        wf_parts(
            fbs.filter(keeps_block(name)),
            ecs.filter(keeps_ec(name)),
            dcs.filter(keeps_dc(name)),
        ),
{
    let fbs2 = fbs.filter(keeps_block(name));
    let ecs2 = ecs.filter(keeps_ec(name));
    let dcs2 = dcs.filter(keeps_dc(name));
    lemma_filter_distinct_ids(fbs, name);
    lemma_filter_membership(fbs, keeps_block(name));
    lemma_filter_membership(ecs, keeps_ec(name));
    lemma_filter_membership(dcs, keeps_dc(name));
    broadcast use vstd::seq_lib::group_filter_ensures;

    assert forall|i: int| 0 <= i < fbs2.len() implies (#[trigger] fbs2[i]).wf() by {
        assert(fbs.contains(fbs2[i]));
        let w = choose|w: int| 0 <= w < fbs.len() && fbs[w] == fbs2[i];
        assert(fbs[w].wf());
    }
    assert forall|k: int| 0 <= k < ecs2.len() implies ec_wf(fbs2, #[trigger] ecs2[k]) by {
        let c = ecs2[k];
        assert(ecs.contains(c));
        let w = choose|w: int| 0 <= w < ecs.len() && ecs[w] == c;
        assert(ec_wf(fbs, c));
        assert(keeps_ec(name)(c));
        lemma_filter_has_fb(fbs, name, c.from.fb_name);
        lemma_filter_has_fb(fbs, name, c.to.fb_name);
        assert forall|i: int|
            0 <= i < fbs2.len() && (#[trigger] fbs2[i]).id() == c.from.fb_name implies fbs2[i].has_out_event(c.from.fb_field) by {
            assert(fbs.contains(fbs2[i]));
            let v = choose|v: int| 0 <= v < fbs.len() && fbs[v] == fbs2[i];
            assert(fbs[v].has_out_event(c.from.fb_field));
        }
        assert forall|i: int|
            0 <= i < fbs2.len() && (#[trigger] fbs2[i]).id() == c.to.fb_name implies fbs2[i].has_in_event(c.to.fb_field) by {
            assert(fbs.contains(fbs2[i]));
            let v = choose|v: int| 0 <= v < fbs.len() && fbs[v] == fbs2[i];
            assert(fbs[v].has_in_event(c.to.fb_field));
        }
    }
    assert forall|k: int| 0 <= k < dcs2.len() implies dc_wf(fbs2, #[trigger] dcs2[k]) by {
        let c = dcs2[k];
        assert(dcs.contains(c));
        let w = choose|w: int| 0 <= w < dcs.len() && dcs[w] == c;
        assert(dc_wf(fbs, c));
        assert(keeps_dc(name)(c));
        lemma_filter_has_fb(fbs, name, c.from.fb_name);
        lemma_filter_has_fb(fbs, name, c.to.fb_name);
        assert forall|i: int|
            0 <= i < fbs2.len() && (#[trigger] fbs2[i]).id() == c.from.fb_name implies fbs2[i].out_kind(c.from.fb_field) == c.buf.kind() by {
            assert(fbs.contains(fbs2[i]));
            let v = choose|v: int| 0 <= v < fbs.len() && fbs[v] == fbs2[i];
            assert(fbs[v].out_kind(c.from.fb_field) == c.buf.kind());
        }
        assert forall|i: int|
            0 <= i < fbs2.len() && (#[trigger] fbs2[i]).id() == c.to.fb_name implies fbs2[i].in_kind(c.to.fb_field) == c.buf.kind() by {
            assert(fbs.contains(fbs2[i]));
            let v = choose|v: int| 0 <= v < fbs.len() && fbs[v] == fbs2[i];
            assert(fbs[v].in_kind(c.to.fb_field) == c.buf.kind());
        }
    }
}

/// The data-connection buffers after the snapshot step of one event
/// connection: every data connection leaving the sending block on a field
/// associated to the sent event takes a fresh copy of that field's value.
pub open spec fn send_buffers(
    fbs: Seq<Block>,
    dcs: Seq<DataConnView>,
    c: EventConnView,
) -> Seq<DataConnView> {
    let src = fbs[fb_idx(fbs, c.from.fb_name)];
    let withs = src.with_of(c.from.fb_field);
    Seq::new(
        dcs.len(),
        |i: int|
            if dcs[i].from.fb_name == c.from.fb_name && withs.contains(dcs[i].from.fb_field) {
                DataConnView { buf: src.data_out(dcs[i].from.fb_field), ..dcs[i] }
            } else {
                dcs[i]
            },
    )
}

/// One event connection's contribution to the send phase: if the source's
/// pending output event matches the connection, the associated data is
/// snapshotted into the buffers and the event is delivered into the
/// destination's input slot if that slot is free; the source's output events
/// are cleared only on a successful delivery, so a deferred event stays
/// pending for a later cycle.
pub open spec fn send_one(fbs: Seq<Block>, dcs: Seq<DataConnView>, c: EventConnView) -> (
    Seq<Block>,
    Seq<DataConnView>,
    Delivery,
) {
    if !has_fb(fbs, c.from.fb_name) || !has_fb(fbs, c.to.fb_name) {
        (fbs, dcs, Delivery::Idle)
    } else {
        let fi = fb_idx(fbs, c.from.fb_name);
        let src = fbs[fi];
        if src.active_out() == Some(c.from.fb_field) {
            let dcs2 = send_buffers(fbs, dcs, c);
            let ti = fb_idx(fbs, c.to.fb_name);
            let dst = fbs[ti];
            if dst.active_in() is None {
                (
                    fbs.update(ti, dst.with_in_set(c.to.fb_field)).update(
                        fi,
                        src.with_out_cleared(),
                    ),
                    dcs2,
                    Delivery::Delivered,
                )
            } else {
                (fbs, dcs2, Delivery::Deferred)
            }
        } else {
            (fbs, dcs, Delivery::Idle)
        }
    }
}

/// The send phase from event connection `i` onward, in declaration order.
pub open spec fn send_phase_from(
    fbs: Seq<Block>,
    dcs: Seq<DataConnView>,
    ecs: Seq<EventConnView>,
    i: int,
) -> (Seq<Block>, Seq<DataConnView>, Seq<Delivery>)
    decreases ecs.len() - i,
{
    if i < 0 || i >= ecs.len() {
        (fbs, dcs, Seq::empty())
    } else {
        let first = send_one(fbs, dcs, ecs[i]);
        let rest = send_phase_from(first.0, first.1, ecs, i + 1);
        (rest.0, rest.1, seq![first.2] + rest.2)
    }
}

/// The whole send phase: every event connection in declaration order.
pub open spec fn send_phase(fbs: Seq<Block>, dcs: Seq<DataConnView>, ecs: Seq<EventConnView>) -> (
    Seq<Block>,
    Seq<DataConnView>,
    Seq<Delivery>,
) {
    send_phase_from(fbs, dcs, ecs, 0)
}

/// The block `dst`, named `to_name`, after flushing into it, in declaration
/// order from `j` onward, every buffered data connection that targets one of
/// the fields in `withs`.
pub open spec fn flush_from(
    dst: Block,
    to_name: Seq<char>,
    withs: Seq<Seq<char>>,
    dcs: Seq<DataConnView>,
    j: int,
) -> Block
    decreases dcs.len() - j,
{
    if j < 0 || j >= dcs.len() {
        dst
    } else {
        let c = dcs[j];
        let dst2 = if c.to.fb_name == to_name && withs.contains(c.to.fb_field) {
            dst.with_data_in(c.to.fb_field, c.buf)
        } else {
            dst
        };
        flush_from(dst2, to_name, withs, dcs, j + 1)
    }
}

/// One event connection's contribution to the receive phase: if the
/// destination holds the matching latched input event, the buffers of all
/// data connections aimed at that event's associated fields are flushed into
/// the destination's input data fields.
pub open spec fn read_one(fbs: Seq<Block>, dcs: Seq<DataConnView>, c: EventConnView) -> Seq<
    Block,
> {
    if !has_fb(fbs, c.to.fb_name) {
        fbs
    } else {
        let ti = fb_idx(fbs, c.to.fb_name);
        let dst = fbs[ti];
        if dst.active_in() == Some(c.to.fb_field) {
            fbs.update(ti, flush_from(dst, c.to.fb_name, dst.with_of(c.to.fb_field), dcs, 0))
        } else {
            fbs
        }
    }
}

/// The receive phase from event connection `i` onward.
pub open spec fn read_phase_from(
    fbs: Seq<Block>,
    dcs: Seq<DataConnView>,
    ecs: Seq<EventConnView>,
    i: int,
) -> Seq<Block>
    decreases ecs.len() - i,
{
    if i < 0 || i >= ecs.len() {
        fbs
    } else {
        read_phase_from(read_one(fbs, dcs, ecs[i]), dcs, ecs, i + 1)
    }
}

/// The whole receive phase: every event connection in declaration order.
pub open spec fn read_phase(
    fbs: Seq<Block>,
    dcs: Seq<DataConnView>,
    ecs: Seq<EventConnView>,
) -> Seq<Block> {
    read_phase_from(fbs, dcs, ecs, 0)
}

/// Snapshotting buffers changes no connection endpoint and no buffer kind,
/// so the runtime invariant survives it.
pub proof fn lemma_send_buffers_wf(
    fbs: Seq<Block>,
    ecs: Seq<EventConnView>,
    dcs: Seq<DataConnView>,
    c: EventConnView,
)
    requires
        wf_parts(fbs, ecs, dcs),
        has_fb(fbs, c.from.fb_name),
    ensures
        wf_parts(fbs, ecs, send_buffers(fbs, dcs, c)),
        send_buffers(fbs, dcs, c).len() == dcs.len(),
        forall|k: int|
            0 <= k < dcs.len() ==> (#[trigger] send_buffers(fbs, dcs, c)[k]).from == dcs[k].from
                && send_buffers(fbs, dcs, c)[k].to == dcs[k].to && send_buffers(
                fbs,
                dcs,
                c,
            )[k].buf.kind() == dcs[k].buf.kind(),
{
    let fi = fb_idx(fbs, c.from.fb_name);
    lemma_fb_idx(fbs, c.from.fb_name);
    let src = fbs[fi];
    src.lemma_data_kinds();
    let dcs2 = send_buffers(fbs, dcs, c);
    assert forall|k: int|
        0 <= k < dcs.len() implies (#[trigger] dcs2[k]).from == dcs[k].from && dcs2[k].to
        == dcs[k].to && dcs2[k].buf.kind() == dcs[k].buf.kind() by {
        assert(dc_wf(fbs, dcs[k]));
        if dcs[k].from.fb_name == c.from.fb_name && src.with_of(c.from.fb_field).contains(
            dcs[k].from.fb_field,
        ) {
            assert(fbs[fi].out_kind(dcs[k].from.fb_field) == dcs[k].buf.kind());
        }
    }
    assert forall|k: int| 0 <= k < dcs2.len() implies dc_wf(fbs, #[trigger] dcs2[k]) by {
        assert(dc_wf(fbs, dcs[k]));
    }
}

/// One send step keeps the runtime invariant and every block's identity.
pub proof fn lemma_send_one_wf(
    fbs: Seq<Block>,
    ecs: Seq<EventConnView>,
    dcs: Seq<DataConnView>,
    c: EventConnView,
)
    requires
        wf_parts(fbs, ecs, dcs),
        ec_wf(fbs, c),
    ensures
        ({
            let t = send_one(fbs, dcs, c);
            &&& wf_parts(t.0, ecs, t.1)
            &&& t.0.len() == fbs.len()
            &&& forall|i: int| 0 <= i < fbs.len() ==> (#[trigger] t.0[i]).id() == fbs[i].id()
        }),
{
    let fi = fb_idx(fbs, c.from.fb_name);
    lemma_fb_idx(fbs, c.from.fb_name);
    let ti = fb_idx(fbs, c.to.fb_name);
    lemma_fb_idx(fbs, c.to.fb_name);
    let src = fbs[fi];
    let dst = fbs[ti];
    if src.active_out() == Some(c.from.fb_field) {
        lemma_send_buffers_wf(fbs, ecs, dcs, c);
        let dcs2 = send_buffers(fbs, dcs, c);
        if dst.active_in() is None {
            assert(fi != ti);
            let fbs2 = fbs.update(ti, dst.with_in_set(c.to.fb_field)).update(
                fi,
                src.with_out_cleared(),
            );
            dst.lemma_with_in_set(c.to.fb_field);
            src.lemma_with_out_cleared();
            assert forall|i: int| 0 <= i < fbs2.len() implies (#[trigger] fbs2[i]).wf()
                && fbs2[i].id() == fbs[i].id() by {
                assert(fbs[i].wf());
            }
            assert forall|i: int, x: Seq<char>| 0 <= i < fbs2.len() implies (
            #[trigger] fbs2[i].has_in_event(x)) == fbs[i].has_in_event(x) by {}
            assert forall|i: int, x: Seq<char>| 0 <= i < fbs2.len() implies (
            #[trigger] fbs2[i].has_out_event(x)) == fbs[i].has_out_event(x) by {}
            assert forall|i: int, x: Seq<char>| 0 <= i < fbs2.len() implies (
            #[trigger] fbs2[i].in_kind(x)) == fbs[i].in_kind(x) by {}
            assert forall|i: int, x: Seq<char>| 0 <= i < fbs2.len() implies (
            #[trigger] fbs2[i].out_kind(x)) == fbs[i].out_kind(x) by {}
            lemma_wf_parts_pointwise(fbs, fbs2, ecs, dcs2);
        }
    }
}

/// Flushing buffers into a block changes neither its identity, its declared
/// interface, its pending events, nor its output data.
pub proof fn lemma_flush_from(
    dst: Block,
    to_name: Seq<char>,
    withs: Seq<Seq<char>>,
    dcs: Seq<DataConnView>,
    j: int,
)
    requires
        dst.wf(),
    ensures
        ({
            let d2 = flush_from(dst, to_name, withs, dcs, j);
            &&& d2.wf()
            &&& d2.id() == dst.id()
            &&& d2.active_in() == dst.active_in()
            &&& d2.active_out() == dst.active_out()
            &&& forall|x: Seq<char>| (#[trigger] d2.has_in_event(x)) == dst.has_in_event(x)
            &&& forall|x: Seq<char>| (#[trigger] d2.has_out_event(x)) == dst.has_out_event(x)
            &&& forall|x: Seq<char>| (#[trigger] d2.in_kind(x)) == dst.in_kind(x)
            &&& forall|x: Seq<char>| (#[trigger] d2.out_kind(x)) == dst.out_kind(x)
            &&& forall|x: Seq<char>| (#[trigger] d2.with_of(x)) == dst.with_of(x)
            &&& forall|x: Seq<char>| (#[trigger] d2.data_out(x)) == dst.data_out(x)
        }),
    decreases dcs.len() - j,
{
    if j < 0 || j >= dcs.len() {
    } else {
        let c = dcs[j];
        let dst2 = if c.to.fb_name == to_name && withs.contains(c.to.fb_field) {
            dst.with_data_in(c.to.fb_field, c.buf)
        } else {
            dst
        };
        dst.lemma_with_data_in(c.to.fb_field, c.buf);
        lemma_flush_from(dst2, to_name, withs, dcs, j + 1);
    }
}

/// One receive step keeps the runtime invariant and every block's identity.
pub proof fn lemma_read_one_wf(
    fbs: Seq<Block>,
    ecs: Seq<EventConnView>,
    dcs: Seq<DataConnView>,
    c: EventConnView,
)
    requires
        wf_parts(fbs, ecs, dcs),
    ensures
        ({
            let t = read_one(fbs, dcs, c);
            &&& wf_parts(t, ecs, dcs)
            &&& t.len() == fbs.len()
            &&& forall|i: int| 0 <= i < fbs.len() ==> (#[trigger] t[i]).id() == fbs[i].id()
        }),
{
    if has_fb(fbs, c.to.fb_name) {
        let ti = fb_idx(fbs, c.to.fb_name);
        lemma_fb_idx(fbs, c.to.fb_name);
        let dst = fbs[ti];
        if dst.active_in() == Some(c.to.fb_field) {
            let flushed = flush_from(dst, c.to.fb_name, dst.with_of(c.to.fb_field), dcs, 0);
            lemma_flush_from(dst, c.to.fb_name, dst.with_of(c.to.fb_field), dcs, 0);
            let fbs2 = fbs.update(ti, flushed);
            assert forall|i: int| 0 <= i < fbs2.len() implies (#[trigger] fbs2[i]).wf()
                && fbs2[i].id() == fbs[i].id() by {
                assert(fbs[i].wf());
            }
            assert forall|i: int, x: Seq<char>| 0 <= i < fbs2.len() implies (
            #[trigger] fbs2[i].has_in_event(x)) == fbs[i].has_in_event(x) by {}
            assert forall|i: int, x: Seq<char>| 0 <= i < fbs2.len() implies (
            #[trigger] fbs2[i].has_out_event(x)) == fbs[i].has_out_event(x) by {}
            assert forall|i: int, x: Seq<char>| 0 <= i < fbs2.len() implies (
            #[trigger] fbs2[i].in_kind(x)) == fbs[i].in_kind(x) by {}
            assert forall|i: int, x: Seq<char>| 0 <= i < fbs2.len() implies (
            #[trigger] fbs2[i].out_kind(x)) == fbs[i].out_kind(x) by {}
            lemma_wf_parts_pointwise(fbs, fbs2, ecs, dcs);
        }
    }
}

/// Fan-in contention resolves deterministically, first writer wins: when
/// two event connections aim at the same destination block, both sources
/// hold pending output events matching their connections, and the
/// destination's single input slot is free, then one send phase delivers
/// exactly the first connection's event.  The first source's output events
/// are cleared; the second delivery is deferred, so the second source keeps
/// its pending output event for a later cycle.
pub proof fn lemma_fan_in_first_writer_wins(
    fbs: Seq<Block>,
    dcs: Seq<DataConnView>,
    c1: EventConnView,
    c2: EventConnView,
)
    requires
        distinct_ids(fbs),
        has_fb(fbs, c1.from.fb_name),
        has_fb(fbs, c2.from.fb_name),
        has_fb(fbs, c1.to.fb_name),
        c2.to.fb_name == c1.to.fb_name,
        c1.from.fb_name != c1.to.fb_name,
        c2.from.fb_name != c2.to.fb_name,
        c1.from.fb_name != c2.from.fb_name,
        fbs[fb_idx(fbs, c1.from.fb_name)].active_out() == Some(c1.from.fb_field),
        fbs[fb_idx(fbs, c2.from.fb_name)].active_out() == Some(c2.from.fb_field),
        fbs[fb_idx(fbs, c1.to.fb_name)].active_in() is None,
        fbs[fb_idx(fbs, c1.to.fb_name)].has_in_event(c1.to.fb_field),
        fbs[fb_idx(fbs, c1.to.fb_name)].wf(),
    ensures
        ({
            let r = send_phase(fbs, dcs, seq![c1, c2]);
            let f1 = fb_idx(fbs, c1.from.fb_name);
            let f2 = fb_idx(fbs, c2.from.fb_name);
            let ti = fb_idx(fbs, c1.to.fb_name);
            &&& r.2 == seq![Delivery::Delivered, Delivery::Deferred]
            &&& r.0[ti] == fbs[ti].with_in_set(c1.to.fb_field)
            &&& r.0[ti].active_in() is Some
            &&& r.0[f1] == fbs[f1].with_out_cleared()
            &&& r.0[f1].active_out() is None
            &&& r.0[f2] == fbs[f2]
            &&& r.0[f2].active_out() == Some(c2.from.fb_field)
        }),
{
    let ecs = seq![c1, c2];
    let f1 = fb_idx(fbs, c1.from.fb_name);
    let f2 = fb_idx(fbs, c2.from.fb_name);
    let ti = fb_idx(fbs, c1.to.fb_name);
    lemma_fb_idx(fbs, c1.from.fb_name);
    lemma_fb_idx(fbs, c2.from.fb_name);
    lemma_fb_idx(fbs, c1.to.fb_name);
    assert(f1 != ti && f2 != ti && f1 != f2);
    let src1 = fbs[f1];
    let src2 = fbs[f2];
    let dst = fbs[ti];
    dst.lemma_with_in_set(c1.to.fb_field);
    src1.lemma_with_out_cleared();
    // first connection: the slot is free, so the event is delivered and the
    // first source's outputs are cleared
    let one1 = send_one(fbs, dcs, c1);
    let fbs1 = fbs.update(ti, dst.with_in_set(c1.to.fb_field)).update(f1, src1.with_out_cleared());
    assert(one1 == (fbs1, send_buffers(fbs, dcs, c1), Delivery::Delivered));
    // names are untouched, so the second lookup finds the same blocks
    assert forall|i: int, j: int| 0 <= i < j < fbs1.len() implies (#[trigger] fbs1[i]).id() != (
    #[trigger] fbs1[j]).id() by {
        assert(fbs[i].id() != fbs[j].id());
    }
    lemma_fb_idx_unique(fbs1, c2.from.fb_name, f2);
    lemma_fb_idx_unique(fbs1, c2.to.fb_name, ti);
    // second connection: the slot is now occupied, so delivery is deferred
    // and the second source stays pending
    let one2 = send_one(fbs1, one1.1, c2);
    assert(fbs1[f2] == src2);
    assert(fbs1[ti].active_in() is Some);
    assert(one2 == (fbs1, send_buffers(fbs1, one1.1, c2), Delivery::Deferred));
    let r = send_phase(fbs, dcs, ecs);
    assert(ecs[0] == c1 && ecs[1] == c2);
    let rest2 = send_phase_from(one2.0, one2.1, ecs, 2);
    assert(rest2 == (one2.0, one2.1, Seq::<Delivery>::empty()));
    let rest1 = send_phase_from(one1.0, one1.1, ecs, 1);
    assert(rest1 == (rest2.0, rest2.1, seq![one2.2] + rest2.2));
    assert(r == (rest1.0, rest1.1, seq![one1.2] + rest1.2));
    assert(r.0 == fbs1);
    assert(r.2 =~= seq![Delivery::Delivered, Delivery::Deferred]);
}

/// The outcome of type-checking an event wiring against the blocks `fbs`.
pub open spec fn event_wiring_check(
    fbs: Seq<Block>,
    from_name: Seq<char>,
    from_field: Seq<char>,
    to_name: Seq<char>,
    to_field: Seq<char>,
) -> Result<(), FbError> {
    if from_name == to_name {
        Err(FbError::SelfConnection)
    } else if !has_fb(fbs, from_name) || !has_fb(fbs, to_name) {
        Err(FbError::UnregisteredInstanceReference)
    } else if !fbs[fb_idx(fbs, from_name)].has_out_event(from_field) {
        Err(FbError::UnknownEvent)
    } else if !fbs[fb_idx(fbs, to_name)].has_in_event(to_field) {
        Err(FbError::UnknownEvent)
    } else {
        Ok(())
    }
}

/// The outcome of type-checking a data wiring against the blocks `fbs`.
pub open spec fn data_wiring_check(
    fbs: Seq<Block>,
    from_name: Seq<char>,
    from_field: Seq<char>,
    to_name: Seq<char>,
    to_field: Seq<char>,
) -> Result<(), FbError> {
    if from_name == to_name {
        Err(FbError::SelfConnection)
    } else if !has_fb(fbs, from_name) || !has_fb(fbs, to_name) {
        Err(FbError::UnregisteredInstanceReference)
    } else if fbs[fb_idx(fbs, from_name)].out_kind(from_field) is None || fbs[fb_idx(
        fbs,
        to_name,
    )].in_kind(to_field) is None {
        Err(FbError::UnknownDataField)
    } else if fbs[fb_idx(fbs, from_name)].out_kind(from_field) != fbs[fb_idx(fbs, to_name)].in_kind(
        to_field,
    ) {
        Err(FbError::DataKindMismatch)
    } else {
        Ok(())
    }
}

/// The engine's runtime: the registered blocks, in registration order, and
/// the declared connections, in declaration order.
#[derive(Debug)]
pub struct RunTime {
    pub fbs: Vec<Block>,
    pub event_conns: Vec<EventConn>,
    pub data_conns: Vec<DataConn>,
}

impl RunTime {
    /// Well-formedness: unique names, well-formed blocks, and connections
    /// that type-checked against the registered blocks.
    pub open spec fn wf(&self) -> bool {
        wf_parts(self.fbs@, self.event_conns.deep_view(), self.data_conns.deep_view())
    }

    /// An empty runtime: no blocks, no connections.
    pub fn new() -> (r: RunTime)
        ensures
            r.wf(),
            r.fbs@.len() == 0,
            r.event_conns@.len() == 0,
            r.data_conns@.len() == 0,
    {
        RunTime { fbs: Vec::new(), event_conns: Vec::new(), data_conns: Vec::new() }
    }

    /// The registered blocks, in registration order.
    pub fn fbs(&self) -> (r: &Vec<Block>)
        ensures
            r@ == self.fbs@,
    {
        &self.fbs
    }

    /// The declared event connections, in declaration order.
    pub fn event_conns(&self) -> (r: &Vec<EventConn>)
        ensures
            r@ == self.event_conns@,
    {
        &self.event_conns
    }

    /// The declared data connections, in declaration order.
    pub fn data_conns(&self) -> (r: &Vec<DataConn>)
        ensures
            r@ == self.data_conns@,
    {
        &self.data_conns
    }

    /// Finds the index of the block named `name`, if one is registered.
    pub fn find_fb(&self, name: &str) -> (r: Option<usize>)
        ensures
            match r {
                Some(i) => 0 <= i < self.fbs@.len() && self.fbs@[i as int].id() == name@,
                None => !has_fb(self.fbs@, name@),
            },
    {
        let n = self.fbs.len();
        let mut i: usize = 0;
        while i < n
            invariant
                n == self.fbs@.len(),
                i <= n,
                forall|k: int| 0 <= k < i ==> (#[trigger] self.fbs@[k]).id() != name@,
            decreases n - i,
        {
            let fb_name = self.fbs[i].instance_name();
            if str_eq(fb_name.as_str(), name) {
                return Some(i);
            }
            i = i + 1;
        }
        None
    }

    /// Registers a block; rejects a second block with an already-taken
    /// instance name and leaves the runtime unchanged in that case.
    pub fn add_fb(&mut self, fb: Block) -> (r: Result<(), FbError>)
        requires
            old(self).wf(),
            fb.wf(),
        ensures
            final(self).wf(),
            final(self).event_conns == old(self).event_conns,
            final(self).data_conns == old(self).data_conns,
            has_fb(old(self).fbs@, fb.id()) ==> r == Err::<(), FbError>(
                FbError::DuplicateInstanceName,
            ) && final(self).fbs == old(self).fbs,
            !has_fb(old(self).fbs@, fb.id()) ==> r is Ok && final(self).fbs@ == old(
                self,
            ).fbs@.push(fb),
    {
        let name = fb.instance_name();
        match self.find_fb(name.as_str()) {
            Some(_) => Err(FbError::DuplicateInstanceName),
            None => {
                proof {
                    let fbs1 = self.fbs@;
                    let fbs2 = self.fbs@.push(fb);
                    assert forall|i: int, j: int| 0 <= i < j < fbs2.len() implies (
                    #[trigger] fbs2[i]).id() != (#[trigger] fbs2[j]).id() by {
                        if j < fbs1.len() {
                            assert(fbs1[i].id() != fbs1[j].id());
                        } else {
                            if fbs2[i].id() == fb.id() {
                                assert(has_fb(fbs1, fb.id()));
                            }
                        }
                    }
                    assert forall|k: int|
                        0 <= k < self.event_conns.deep_view().len() implies ec_wf(
                        fbs2,
                        #[trigger] self.event_conns.deep_view()[k],
                    ) by {
                        let c = self.event_conns.deep_view()[k];
                        assert(ec_wf(fbs1, c));
                        lemma_fb_idx(fbs1, c.from.fb_name);
                        lemma_fb_idx(fbs1, c.to.fb_name);
                        assert(fbs2[fb_idx(fbs1, c.from.fb_name)].id() == c.from.fb_name);
                        assert(fbs2[fb_idx(fbs1, c.to.fb_name)].id() == c.to.fb_name);
                        assert forall|i: int|
                            0 <= i < fbs2.len() && (#[trigger] fbs2[i]).id()
                                == c.from.fb_name implies fbs2[i].has_out_event(
                            c.from.fb_field,
                        ) by {
                            if i < fbs1.len() {
                                assert(fbs1[i].has_out_event(c.from.fb_field));
                            } else {
                                assert(has_fb(fbs1, fb.id()));
                            }
                        }
                        assert forall|i: int|
                            0 <= i < fbs2.len() && (#[trigger] fbs2[i]).id()
                                == c.to.fb_name implies fbs2[i].has_in_event(c.to.fb_field) by {
                            if i < fbs1.len() {
                                assert(fbs1[i].has_in_event(c.to.fb_field));
                            } else {
                                assert(has_fb(fbs1, fb.id()));
                            }
                        }
                    }
                    assert forall|k: int|
                        0 <= k < self.data_conns.deep_view().len() implies dc_wf(
                        fbs2,
                        #[trigger] self.data_conns.deep_view()[k],
                    ) by {
                        let c = self.data_conns.deep_view()[k];
                        assert(dc_wf(fbs1, c));
                        lemma_fb_idx(fbs1, c.from.fb_name);
                        lemma_fb_idx(fbs1, c.to.fb_name);
                        assert(fbs2[fb_idx(fbs1, c.from.fb_name)].id() == c.from.fb_name);
                        assert(fbs2[fb_idx(fbs1, c.to.fb_name)].id() == c.to.fb_name);
                        assert forall|i: int|
                            0 <= i < fbs2.len() && (#[trigger] fbs2[i]).id()
                                == c.from.fb_name implies fbs2[i].out_kind(c.from.fb_field)
                            == c.buf.kind() by {
                            if i < fbs1.len() {
                                assert(fbs1[i].out_kind(c.from.fb_field) == c.buf.kind());
                            } else {
                                assert(has_fb(fbs1, fb.id()));
                            }
                        }
                        assert forall|i: int|
                            0 <= i < fbs2.len() && (#[trigger] fbs2[i]).id()
                                == c.to.fb_name implies fbs2[i].in_kind(c.to.fb_field)
                            == c.buf.kind() by {
                            if i < fbs1.len() {
                                assert(fbs1[i].in_kind(c.to.fb_field) == c.buf.kind());
                            } else {
                                assert(has_fb(fbs1, fb.id()));
                            }
                        }
                    }
                }
                self.fbs.push(fb);
                Ok(())
            },
        }
    }

    /// Unregisters the block named `name` and purges every connection that
    /// references it, so no dangling endpoint survives.  Removing an unknown
    /// name changes nothing.
    pub fn remove_fb(&mut self, name: &str)
        requires
            old(self).wf(),
        ensures
            final(self).wf(),
            final(self).fbs@ == old(self).fbs@.filter(keeps_block(name@)),
            final(self).event_conns.deep_view() == old(self).event_conns.deep_view().filter(
                keeps_ec(name@),
            ),
            final(self).data_conns.deep_view() == old(self).data_conns.deep_view().filter(
                keeps_dc(name@),
            ),
    {
        let ghost fbs0 = self.fbs@;
        let ghost ecs0 = self.event_conns.deep_view();
        let ghost dcs0 = self.data_conns.deep_view();
        let ghost ec_vec0 = self.event_conns@;
        let ghost dc_vec0 = self.data_conns@;

        let mut kept_fbs: Vec<Block> = Vec::new();
        let ghost mut t: int = 0;
        proof {
            assert(fbs0.take(0).filter(keeps_block(name@)) =~= Seq::<Block>::empty());
            assert(fbs0.subrange(0, fbs0.len() as int) =~= fbs0);
        }
        while self.fbs.len() > 0
            invariant
                0 <= t <= fbs0.len(),
                self.fbs@ == fbs0.subrange(t, fbs0.len() as int),
                kept_fbs@ == fbs0.take(t).filter(keeps_block(name@)),
                self.event_conns@ == ec_vec0,
                self.data_conns@ == dc_vec0,
            decreases self.fbs@.len(),
        {
            let b = self.fbs.remove(0);
            proof {
                assert(b == fbs0[t]);
                assert(self.fbs@ =~= fbs0.subrange(t + 1, fbs0.len() as int));
                assert(fbs0.take(t + 1) =~= fbs0.take(t) + seq![fbs0[t]]);
                Seq::filter_distributes_over_add(fbs0.take(t), seq![fbs0[t]], keeps_block(name@));
                lemma_filter_singleton(fbs0[t], keeps_block(name@));
            }
            let fb_name = b.instance_name();
            if !str_eq(fb_name.as_str(), name) {
                kept_fbs.push(b);
            }
            proof {
                assert(kept_fbs@ =~= fbs0.take(t + 1).filter(keeps_block(name@)));
                t = t + 1;
            }
        }
        self.fbs = kept_fbs;
        proof {
            assert(fbs0.take(fbs0.len() as int) =~= fbs0);
        }

        let mut kept_ecs: Vec<EventConn> = Vec::new();
        let ghost mut u: int = 0;
        proof {
            assert(ecs0.take(0).filter(keeps_ec(name@)) =~= Seq::<EventConnView>::empty());
            assert(kept_ecs.deep_view() =~= Seq::<EventConnView>::empty());
            assert(ec_vec0.subrange(0, ec_vec0.len() as int) =~= ec_vec0);
        }
        while self.event_conns.len() > 0
            invariant
                0 <= u <= ec_vec0.len(),
                ecs0 == Seq::new(ec_vec0.len(), |i: int| ec_vec0[i].deep_view()),
                self.event_conns@ == ec_vec0.subrange(u, ec_vec0.len() as int),
                kept_ecs.deep_view() == ecs0.take(u).filter(keeps_ec(name@)),
                self.fbs@ == fbs0.filter(keeps_block(name@)),
                self.data_conns@ == dc_vec0,
            decreases self.event_conns@.len(),
        {
            let ghost kept_pre = kept_ecs.deep_view();
            let c = self.event_conns.remove(0);
            proof {
                assert(c == ec_vec0[u]);
                assert(c.deep_view() == ecs0[u]);
                assert(self.event_conns@ =~= ec_vec0.subrange(u + 1, ec_vec0.len() as int));
                assert(ecs0.take(u + 1) =~= ecs0.take(u) + seq![ecs0[u]]);
                Seq::filter_distributes_over_add(ecs0.take(u), seq![ecs0[u]], keeps_ec(name@));
                lemma_filter_singleton(ecs0[u], keeps_ec(name@));
            }
            if !str_eq(c.from.fb_name.as_str(), name) && !str_eq(c.to.fb_name.as_str(), name) {
                kept_ecs.push(c);
                proof {
                    assert(kept_ecs.deep_view() =~= kept_pre.push(ecs0[u]));
                }
            }
            proof {
                assert(kept_ecs.deep_view() =~= ecs0.take(u + 1).filter(keeps_ec(name@)));
                u = u + 1;
            }
        }
        self.event_conns = kept_ecs;
        proof {
            assert(ecs0.take(ec_vec0.len() as int) =~= ecs0);
        }

        let mut kept_dcs: Vec<DataConn> = Vec::new();
        let ghost mut w: int = 0;
        proof {
            assert(dcs0.take(0).filter(keeps_dc(name@)) =~= Seq::<DataConnView>::empty());
            assert(kept_dcs.deep_view() =~= Seq::<DataConnView>::empty());
            assert(dc_vec0.subrange(0, dc_vec0.len() as int) =~= dc_vec0);
        }
        while self.data_conns.len() > 0
            invariant
                0 <= w <= dc_vec0.len(),
                dcs0 == Seq::new(dc_vec0.len(), |i: int| dc_vec0[i].deep_view()),
                self.data_conns@ == dc_vec0.subrange(w, dc_vec0.len() as int),
                kept_dcs.deep_view() == dcs0.take(w).filter(keeps_dc(name@)),
                self.fbs@ == fbs0.filter(keeps_block(name@)),
                self.event_conns.deep_view() == ecs0.filter(keeps_ec(name@)),
            decreases self.data_conns@.len(),
        {
            let ghost kept_pre = kept_dcs.deep_view();
            let c = self.data_conns.remove(0);
            proof {
                assert(c == dc_vec0[w]);
                assert(c.deep_view() == dcs0[w]);
                assert(self.data_conns@ =~= dc_vec0.subrange(w + 1, dc_vec0.len() as int));
                assert(dcs0.take(w + 1) =~= dcs0.take(w) + seq![dcs0[w]]);
                Seq::filter_distributes_over_add(dcs0.take(w), seq![dcs0[w]], keeps_dc(name@));
                lemma_filter_singleton(dcs0[w], keeps_dc(name@));
            }
            if !str_eq(c.from.fb_name.as_str(), name) && !str_eq(c.to.fb_name.as_str(), name) {
                kept_dcs.push(c);
                proof {
                    assert(kept_dcs.deep_view() =~= kept_pre.push(dcs0[w]));
                }
            }
            proof {
                assert(kept_dcs.deep_view() =~= dcs0.take(w + 1).filter(keeps_dc(name@)));
                w = w + 1;
            }
        }
        self.data_conns = kept_dcs;
        proof {
            assert(dcs0.take(dc_vec0.len() as int) =~= dcs0);
            lemma_wf_parts_remove(fbs0, ecs0, dcs0, name@);
        }
    }

    /// Wires an output event of one block to an input event of another.
    ///
    /// Both ports are checked before anything is stored: the endpoints must
    /// be two different, registered instances, and the named fields must be
    /// declared events of the right direction.  On any failure no connection
    /// is created.
    pub fn connect_event(&mut self, from: (&str, &str), to: (&str, &str)) -> (r: Result<
        (),
        FbError,
    >)
        requires
            old(self).wf(),
        ensures
            final(self).wf(),
            final(self).fbs == old(self).fbs,
            final(self).data_conns == old(self).data_conns,
            r == event_wiring_check(old(self).fbs@, from.0@, from.1@, to.0@, to.1@),
            r is Ok ==> final(self).event_conns.deep_view() == old(
                self,
            ).event_conns.deep_view().push(
                EventConnView {
                    from: PortView { fb_name: from.0@, fb_field: from.1@ },
                    to: PortView { fb_name: to.0@, fb_field: to.1@ },
                },
            ),
            r is Err ==> final(self).event_conns == old(self).event_conns,
    {
        if str_eq(from.0, to.0) {
            return Err(FbError::SelfConnection);
        }
        let fi = match self.find_fb(from.0) {
            Some(i) => i,
            None => {
                return Err(FbError::UnregisteredInstanceReference);
            },
        };
        let ti = match self.find_fb(to.0) {
            Some(i) => i,
            None => {
                return Err(FbError::UnregisteredInstanceReference);
            },
        };
        proof {
            lemma_fb_idx_unique(self.fbs@, from.0@, fi as int);
            lemma_fb_idx_unique(self.fbs@, to.0@, ti as int);
        }
        if !self.fbs[fi].has_event_out(from.1) {
            return Err(FbError::UnknownEvent);
        }
        if !self.fbs[ti].has_event_in(to.1) {
            return Err(FbError::UnknownEvent);
        }
        let conn = EventConn { from: Port::new(from.0, from.1), to: Port::new(to.0, to.1) };
        let ghost cv = conn@;
        proof {
            let fbs = self.fbs@;
            let ecs2 = self.event_conns.deep_view().push(cv);
            assert forall|i: int|
                0 <= i < fbs.len() && (#[trigger] fbs[i]).id() == cv.from.fb_name implies fbs[i].has_out_event(cv.from.fb_field) by {
                if i != fi as int {
                    assert(fbs[fi as int].id() == fbs[i].id());
                    assert(false);
                }
            }
            assert forall|i: int|
                0 <= i < fbs.len() && (#[trigger] fbs[i]).id() == cv.to.fb_name implies fbs[i].has_in_event(cv.to.fb_field) by {
                if i != ti as int {
                    assert(fbs[ti as int].id() == fbs[i].id());
                    assert(false);
                }
            }
            assert(ec_wf(fbs, cv));
            assert forall|k: int| 0 <= k < ecs2.len() implies ec_wf(fbs, #[trigger] ecs2[k]) by {
                if k < ecs2.len() - 1 {
                    assert(ec_wf(fbs, self.event_conns.deep_view()[k]));
                }
            }
        }
        self.event_conns.push(conn);
        proof {
            assert(self.event_conns.deep_view() =~= old(self).event_conns.deep_view().push(cv));
        }
        Ok(())
    }

    /// Wires an output data field of one block to an input data field of
    /// another, with the connection buffer primed from the source's current
    /// value.
    ///
    /// Both ports are checked before anything is stored; in particular the
    /// two fields' declared kinds must match exactly, otherwise the wiring
    /// fails with a kind mismatch and no connection is created.
    pub fn connect_data(&mut self, from: (&str, &str), to: (&str, &str)) -> (r: Result<
        (),
        FbError,
    >)
        requires
            old(self).wf(),
        ensures
            final(self).wf(),
            final(self).fbs == old(self).fbs,
            final(self).event_conns == old(self).event_conns,
            r == data_wiring_check(old(self).fbs@, from.0@, from.1@, to.0@, to.1@),
            r is Ok ==> final(self).data_conns.deep_view() == old(
                self,
            ).data_conns.deep_view().push(
                DataConnView {
                    from: PortView { fb_name: from.0@, fb_field: from.1@ },
                    to: PortView { fb_name: to.0@, fb_field: to.1@ },
                    buf: old(self).fbs@[fb_idx(old(self).fbs@, from.0@)].data_out(from.1@),
                },
            ),
            r is Err ==> final(self).data_conns == old(self).data_conns,
    {
        if str_eq(from.0, to.0) {
            return Err(FbError::SelfConnection);
        }
        let fi = match self.find_fb(from.0) {
            Some(i) => i,
            None => {
                return Err(FbError::UnregisteredInstanceReference);
            },
        };
        let ti = match self.find_fb(to.0) {
            Some(i) => i,
            None => {
                return Err(FbError::UnregisteredInstanceReference);
            },
        };
        proof {
            lemma_fb_idx_unique(self.fbs@, from.0@, fi as int);
            lemma_fb_idx_unique(self.fbs@, to.0@, ti as int);
        }
        let from_kind = match self.fbs[fi].out_data_kind(from.1) {
            Some(k) => k,
            None => {
                return Err(FbError::UnknownDataField);
            },
        };
        let to_kind = match self.fbs[ti].in_data_kind(to.1) {
            Some(k) => k,
            None => {
                return Err(FbError::UnknownDataField);
            },
        };
        if !crate::fb::data::kind_eq(&from_kind, &to_kind) {
            return Err(FbError::DataKindMismatch);
        }
        let buf = match self.fbs[fi].read_data_out(from.1) {
            Ok(b) => b,
            Err(_) => unreached(),
        };
        let conn = DataConn { from: Port::new(from.0, from.1), to: Port::new(to.0, to.1), buf };
        let ghost cv = conn@;
        proof {
            let fbs = self.fbs@;
            let dcs2 = self.data_conns.deep_view().push(cv);
            self.fbs@[fi as int].lemma_data_kinds();
            assert(cv.buf.kind() == fbs[fi as int].out_kind(from.1@));
            assert forall|i: int|
                0 <= i < fbs.len() && (#[trigger] fbs[i]).id() == cv.from.fb_name implies fbs[i].out_kind(cv.from.fb_field) == cv.buf.kind() by {
                if i != fi as int {
                    assert(fbs[fi as int].id() == fbs[i].id());
                    assert(false);
                }
            }
            assert forall|i: int|
                0 <= i < fbs.len() && (#[trigger] fbs[i]).id() == cv.to.fb_name implies fbs[i].in_kind(cv.to.fb_field) == cv.buf.kind() by {
                if i != ti as int {
                    assert(fbs[ti as int].id() == fbs[i].id());
                    assert(false);
                }
            }
            assert(dc_wf(fbs, cv));
            assert forall|k: int| 0 <= k < dcs2.len() implies dc_wf(fbs, #[trigger] dcs2[k]) by {
                if k < dcs2.len() - 1 {
                    assert(dc_wf(fbs, self.data_conns.deep_view()[k]));
                }
            }
        }
        self.data_conns.push(conn);
        proof {
            assert(self.data_conns.deep_view() =~= old(self).data_conns.deep_view().push(cv));
        }
        Ok(())
    }

    /// Invokes every block's execution control exactly once, in registration
    /// order, without any propagation between blocks.
    pub fn step(&mut self)
        requires
            old(self).wf(),
        ensures
            final(self).wf(),
            final(self).fbs@.len() == old(self).fbs@.len(),
            forall|i: int|
                0 <= i < old(self).fbs@.len() ==> final(self).fbs@[i] == (#[trigger] old(
                    self,
                ).fbs@[i]).step_state(),
            final(self).event_conns == old(self).event_conns,
            final(self).data_conns == old(self).data_conns,
    {
        let n = self.fbs.len();
        let mut i: usize = 0;
        while i < n
            invariant
                old(self).wf(),
                n == self.fbs@.len(),
                n == old(self).fbs@.len(),
                i <= n,
                forall|k: int|
                    0 <= k < i ==> self.fbs@[k] == (#[trigger] old(self).fbs@[k]).step_state(),
                forall|k: int| i <= k < n ==> self.fbs@[k] == old(self).fbs@[k],
                self.event_conns == old(self).event_conns,
                self.data_conns == old(self).data_conns,
            decreases n - i,
        {
            proof {
                assert(old(self).fbs@[i as int].wf());
            }
            let fb = &mut self.fbs[i];
            let _ = fb.invoke_execution_control();
            i = i + 1;
        }
        proof {
            assert forall|k: int| 0 <= k < n implies (#[trigger] self.fbs@[k]).wf()
                && self.fbs@[k].id() == old(self).fbs@[k].id() by {
                old(self).fbs@[k].lemma_step_state();
                assert(old(self).fbs@[k].wf());
            }
            assert forall|k: int, x: Seq<char>| 0 <= k < n implies (
            #[trigger] self.fbs@[k].has_in_event(x)) == old(self).fbs@[k].has_in_event(x) && (
            #[trigger] self.fbs@[k].has_out_event(x)) == old(self).fbs@[k].has_out_event(x) && (
            #[trigger] self.fbs@[k].in_kind(x)) == old(self).fbs@[k].in_kind(x) && (
            #[trigger] self.fbs@[k].out_kind(x)) == old(self).fbs@[k].out_kind(x) by {
                old(self).fbs@[k].lemma_step_state();
            }
            lemma_wf_parts_pointwise(
                old(self).fbs@,
                self.fbs@,
                self.event_conns.deep_view(),
                self.data_conns.deep_view(),
            );
        }
    }

    /// The send phase: walks every event connection in declaration order;
    /// where the source's pending output event matches, snapshots the
    /// WITH-associated data into the connection buffers and attempts
    /// delivery.  A free input slot accepts the event and the source's
    /// output events are cleared; an occupied slot defers the delivery and
    /// the source event stays pending for a later cycle.  The returned
    /// outcomes report, per connection, what happened.
    pub fn send_from(&mut self) -> (outcomes: Vec<Delivery>)
        requires
            old(self).wf(),
        ensures
            final(self).wf(),
            final(self).event_conns == old(self).event_conns,
            final(self).fbs@.len() == old(self).fbs@.len(),
            ({
                let g = send_phase(
                    old(self).fbs@,
                    old(self).data_conns.deep_view(),
                    old(self).event_conns.deep_view(),
                );
                final(self).fbs@ == g.0 && final(self).data_conns.deep_view() == g.1 && outcomes@
                    == g.2
            }),
    {
        let ghost ecs0 = old(self).event_conns.deep_view();
        let ghost g = send_phase(old(self).fbs@, old(self).data_conns.deep_view(), ecs0);
        let mut outcomes: Vec<Delivery> = Vec::new();
        let m = self.event_conns.len();
        let mut i: usize = 0;
        proof {
            assert(Seq::<Delivery>::empty() + g.2 =~= g.2);
        }
        while i < m
            invariant
                self.wf(),
                m == self.event_conns@.len(),
                self.event_conns == old(self).event_conns,
                ecs0 == old(self).event_conns.deep_view(),
                g == send_phase(old(self).fbs@, old(self).data_conns.deep_view(), ecs0),
                i <= m,
                self.fbs@.len() == old(self).fbs@.len(),
                outcomes@.len() == i,
                ({
                    let t = send_phase_from(self.fbs@, self.data_conns.deep_view(), ecs0, i as int);
                    g.0 == t.0 && g.1 == t.1 && g.2 == outcomes@ + t.2
                }),
            decreases m - i,
        {
            let ghost fbs_entry = self.fbs@;
            let ghost dcs_entry = self.data_conns.deep_view();
            let ghost outc_entry = outcomes@;
            let ghost c = ecs0[i as int];
            proof {
                assert(c == self.event_conns@[i as int].deep_view());
                assert(ec_wf(fbs_entry, c));
            }
            let from_name = self.event_conns[i].from.fb_name.clone();
            let from_field = self.event_conns[i].from.fb_field.clone();
            let to_name = self.event_conns[i].to.fb_name.clone();
            let to_field = self.event_conns[i].to.fb_field.clone();
            let fi = match self.find_fb(from_name.as_str()) {
                Some(x) => x,
                None => unreached(),
            };
            proof {
                lemma_fb_idx_unique(fbs_entry, c.from.fb_name, fi as int);
            }
            let src_ref = &self.fbs[fi];
            let src_active = src_ref.active_event_out();
            let is_match = match &src_active {
                Some(s) => str_eq(s.as_str(), from_field.as_str()),
                None => false,
            };
            if is_match {
                proof {
                    assert(fbs_entry[fi as int].active_out() == Some(c.from.fb_field));
                }
                let ghost src = fbs_entry[fi as int];
                let ghost target = send_buffers(fbs_entry, dcs_entry, c);
                let withs = match self.fbs[fi].with_for_event(from_field.as_str()) {
                    Ok(v) => v,
                    Err(_) => unreached(),
                };
                let dn = self.data_conns.len();
                let mut j: usize = 0;
                while j < dn
                    invariant
                        wf_parts(fbs_entry, ecs0, dcs_entry),
                        self.fbs@ == fbs_entry,
                        self.event_conns == old(self).event_conns,
                        ecs0 == old(self).event_conns.deep_view(),
                        dn == self.data_conns@.len(),
                        dn == dcs_entry.len(),
                        j <= dn,
                        0 <= fi < fbs_entry.len(),
                        fbs_entry[fi as int].id() == c.from.fb_name,
                        fb_idx(fbs_entry, c.from.fb_name) == fi as int,
                        src == fbs_entry[fi as int],
                        target == send_buffers(fbs_entry, dcs_entry, c),
                        withs.deep_view() == src.with_of(c.from.fb_field),
                        from_name@ == c.from.fb_name,
                        from_field@ == c.from.fb_field,
                        forall|k: int|
                            0 <= k < j ==> (#[trigger] self.data_conns.deep_view()[k]) == target[k],
                        forall|k: int|
                            j <= k < dn ==> (#[trigger] self.data_conns.deep_view()[k])
                                == dcs_entry[k],
                    decreases dn - j,
                {
                    let ghost dv_pre = self.data_conns.deep_view();
                    let ghost vec_pre = self.data_conns@;
                    let name_match = str_eq(
                        self.data_conns[j].from.fb_name.as_str(),
                        from_name.as_str(),
                    );
                    let field_in = contains_str(&withs, self.data_conns[j].from.fb_field.as_str());
                    if name_match && field_in {
                        proof {
                            assert(dv_pre[j as int] == vec_pre[j as int].deep_view());
                            assert(dcs_entry[j as int].from.fb_name == from_name@);
                            assert(dcs_entry[j as int].from.fb_field == vec_pre[j
                                as int].from.fb_field@);
                            assert(dc_wf(fbs_entry, dcs_entry[j as int]));
                            assert(fbs_entry[fi as int].out_kind(
                                dcs_entry[j as int].from.fb_field,
                            ) == dcs_entry[j as int].buf.kind());
                        }
                        let buf = match self.fbs[fi].read_data_out(
                            self.data_conns[j].from.fb_field.as_str(),
                        ) {
                            Ok(b) => b,
                            Err(_) => unreached(),
                        };
                        let dc = &mut self.data_conns[j];
                        dc.buf = buf;
                        proof {
                            assert forall|k: int| 0 <= k < dn && k != j as int implies (
                            #[trigger] self.data_conns.deep_view()[k]) == dv_pre[k] by {
                                assert(self.data_conns.deep_view()[k] == self.data_conns@[
                                    k].deep_view());
                                assert(self.data_conns@[k] == vec_pre[k]);
                                assert(dv_pre[k] == vec_pre[k].deep_view());
                            }
                            assert(self.data_conns.deep_view()[j as int] == self.data_conns@[j
                                as int].deep_view());
                            assert(self.data_conns.deep_view()[j as int] == target[j as int]);
                        }
                    }
                    j = j + 1;
                }
                proof {
                    assert(self.data_conns.deep_view() =~= target);
                }
                let ti = match self.find_fb(to_name.as_str()) {
                    Some(x) => x,
                    None => unreached(),
                };
                proof {
                    lemma_fb_idx_unique(fbs_entry, c.to.fb_name, ti as int);
                    assert(fbs_entry[fi as int].id() != fbs_entry[ti as int].id());
                    assert(fi != ti);
                }
                let dst_ref = &self.fbs[ti];
                let dst_active = dst_ref.active_event_in();
                if dst_active.is_none() {
                    proof {
                        assert(fbs_entry[ti as int].active_in() is None);
                        assert(fbs_entry[ti as int].wf());
                        assert(fbs_entry[ti as int].has_in_event(c.to.fb_field));
                    }
                    let dst = &mut self.fbs[ti];
                    let res = dst.set_event_in(to_field.as_str());
                    proof {
                        assert(res is Ok);
                        assert(self.fbs@ == fbs_entry.update(
                            ti as int,
                            fbs_entry[ti as int].with_in_set(c.to.fb_field),
                        ));
                    }
                    let source = &mut self.fbs[fi];
                    source.clear_event_out();
                    outcomes.push(Delivery::Delivered);
                    proof {
                        assert(self.fbs@ =~= fbs_entry.update(
                            ti as int,
                            fbs_entry[ti as int].with_in_set(c.to.fb_field),
                        ).update(fi as int, src.with_out_cleared()));
                    }
                } else {
                    proof {
                        assert(fbs_entry[ti as int].active_in() is Some);
                    }
                    outcomes.push(Delivery::Deferred);
                }
            } else {
                proof {
                    assert(fbs_entry[fi as int].active_out() != Some(c.from.fb_field));
                }
                outcomes.push(Delivery::Idle);
            }
            proof {
                let one = send_one(fbs_entry, dcs_entry, c);
                assert(self.fbs@ == one.0);
                assert(self.data_conns.deep_view() == one.1);
                assert(outcomes@ == outc_entry.push(one.2));
                lemma_send_one_wf(fbs_entry, ecs0, dcs_entry, c);
                let t_e = send_phase_from(fbs_entry, dcs_entry, ecs0, i as int);
                let rest = send_phase_from(one.0, one.1, ecs0, i as int + 1);
                assert(t_e == (rest.0, rest.1, seq![one.2] + rest.2));
                assert(g.2 == outc_entry + (seq![one.2] + rest.2));
                assert(outc_entry + (seq![one.2] + rest.2) =~= outcomes@ + rest.2);
            }
            i = i + 1;
        }
        proof {
            let t = send_phase_from(self.fbs@, self.data_conns.deep_view(), ecs0, m as int);
            assert(t == (self.fbs@, self.data_conns.deep_view(), Seq::<Delivery>::empty()));
            assert(outcomes@ + Seq::<Delivery>::empty() =~= outcomes@);
        }
        outcomes
    }

    /// The receive phase: walks every event connection in declaration
    /// order; where the destination holds the matching latched input event,
    /// flushes the buffer of every data connection aimed at one of that
    /// event's associated fields into the destination's input data fields.
    /// By the time a block consumes an input event, its associated data has
    /// therefore already arrived.
    pub fn read_in(&mut self)
        requires
            old(self).wf(),
        ensures
            final(self).wf(),
            final(self).event_conns == old(self).event_conns,
            final(self).data_conns == old(self).data_conns,
            final(self).fbs@.len() == old(self).fbs@.len(),
            final(self).fbs@ == read_phase(
                old(self).fbs@,
                old(self).data_conns.deep_view(),
                old(self).event_conns.deep_view(),
            ),
    {
        let ghost ecs0 = old(self).event_conns.deep_view();
        let ghost dcs0 = old(self).data_conns.deep_view();
        let ghost goal = read_phase(old(self).fbs@, dcs0, ecs0);
        let m = self.event_conns.len();
        let mut i: usize = 0;
        while i < m
            invariant
                self.wf(),
                m == self.event_conns@.len(),
                self.event_conns == old(self).event_conns,
                self.data_conns == old(self).data_conns,
                ecs0 == old(self).event_conns.deep_view(),
                dcs0 == old(self).data_conns.deep_view(),
                goal == read_phase(old(self).fbs@, dcs0, ecs0),
                i <= m,
                self.fbs@.len() == old(self).fbs@.len(),
                goal == read_phase_from(self.fbs@, dcs0, ecs0, i as int),
            decreases m - i,
        {
            let ghost fbs_entry = self.fbs@;
            let ghost c = ecs0[i as int];
            proof {
                assert(c == self.event_conns@[i as int].deep_view());
                assert(ec_wf(fbs_entry, c));
            }
            let to_name = self.event_conns[i].to.fb_name.clone();
            let to_field = self.event_conns[i].to.fb_field.clone();
            let ti = match self.find_fb(to_name.as_str()) {
                Some(x) => x,
                None => unreached(),
            };
            proof {
                lemma_fb_idx_unique(fbs_entry, c.to.fb_name, ti as int);
            }
            let dst_ref = &self.fbs[ti];
            let dst_active = dst_ref.active_event_in();
            let is_match = match &dst_active {
                Some(s) => str_eq(s.as_str(), to_field.as_str()),
                None => false,
            };
            if is_match {
                proof {
                    assert(fbs_entry[ti as int].active_in() == Some(c.to.fb_field));
                    assert(fbs_entry[ti as int].has_in_event(c.to.fb_field));
                    assert(fbs_entry[ti as int].wf());
                }
                let ghost dst0 = fbs_entry[ti as int];
                let withs = match self.fbs[ti].with_for_event(to_field.as_str()) {
                    Ok(v) => v,
                    Err(_) => unreached(),
                };
                let ghost wv = withs.deep_view();
                let dn = self.data_conns.len();
                let mut j: usize = 0;
                while j < dn
                    invariant
                        wf_parts(fbs_entry, ecs0, dcs0),
                        self.event_conns == old(self).event_conns,
                        self.data_conns == old(self).data_conns,
                        dcs0 == self.data_conns.deep_view(),
                        dn == dcs0.len(),
                        j <= dn,
                        0 <= ti < fbs_entry.len(),
                        fbs_entry[ti as int].id() == c.to.fb_name,
                        dst0 == fbs_entry[ti as int],
                        wv == dst0.with_of(c.to.fb_field),
                        withs.deep_view() == wv,
                        to_name@ == c.to.fb_name,
                        self.fbs@.len() == fbs_entry.len(),
                        forall|k: int|
                            0 <= k < fbs_entry.len() && k != ti as int ==> (#[trigger] self.fbs@[k])
                                == fbs_entry[k],
                        flush_from(dst0, c.to.fb_name, wv, dcs0, 0) == flush_from(
                            self.fbs@[ti as int],
                            c.to.fb_name,
                            wv,
                            dcs0,
                            j as int,
                        ),
                        self.fbs@[ti as int].wf(),
                        forall|x: Seq<char>|
                            (#[trigger] self.fbs@[ti as int].in_kind(x)) == dst0.in_kind(x),
                    decreases dn - j,
                {
                    let ghost cur = self.fbs@[ti as int];
                    let name_match = str_eq(
                        self.data_conns[j].to.fb_name.as_str(),
                        to_name.as_str(),
                    );
                    let field_in = contains_str(&withs, self.data_conns[j].to.fb_field.as_str());
                    proof {
                        assert(dcs0[j as int] == self.data_conns@[j as int].deep_view());
                    }
                    if name_match && field_in {
                        proof {
                            assert(dcs0[j as int].to.fb_name == c.to.fb_name);
                            assert(wv.contains(dcs0[j as int].to.fb_field));
                            assert(dc_wf(fbs_entry, dcs0[j as int]));
                            assert(fbs_entry[ti as int].in_kind(dcs0[j as int].to.fb_field)
                                == dcs0[j as int].buf.kind());
                            assert(cur.in_kind(dcs0[j as int].to.fb_field) == dcs0[j
                                as int].buf.kind());
                            assert(dcs0[j as int].buf.kind() is Some);
                        }
                        let dst = &mut self.fbs[ti];
                        let res = dst.write_data_in(
                            self.data_conns[j].to.fb_field.as_str(),
                            &self.data_conns[j].buf,
                        );
                        proof {
                            assert(res is Ok);
                            assert(self.fbs@[ti as int] == cur.with_data_in(
                                dcs0[j as int].to.fb_field,
                                dcs0[j as int].buf,
                            ));
                            cur.lemma_with_data_in(dcs0[j as int].to.fb_field, dcs0[j as int].buf);
                        }
                    } else {
                        proof {
                            assert(!(dcs0[j as int].to.fb_name == c.to.fb_name && wv.contains(
                                dcs0[j as int].to.fb_field,
                            )));
                        }
                    }
                    j = j + 1;
                }
                proof {
                    assert(flush_from(self.fbs@[ti as int], c.to.fb_name, wv, dcs0, dn as int)
                        == self.fbs@[ti as int]);
                    assert(self.fbs@ =~= read_one(fbs_entry, dcs0, c));
                }
            } else {
                proof {
                    assert(fbs_entry[ti as int].active_in() != Some(c.to.fb_field));
                    assert(read_one(fbs_entry, dcs0, c) == fbs_entry);
                }
            }
            proof {
                lemma_read_one_wf(fbs_entry, ecs0, dcs0, c);
                assert(self.fbs@ == read_one(fbs_entry, dcs0, c));
            }
            i = i + 1;
        }
        proof {
            assert(read_phase_from(self.fbs@, dcs0, ecs0, m as int) == self.fbs@);
        }
    }

    /// Clears every block's output events; the runtime uses this after all
    /// pending deliveries of a cycle are done.
    pub fn clear_out_events(&mut self)
        requires
            old(self).wf(),
        ensures
            final(self).wf(),
            final(self).fbs@.len() == old(self).fbs@.len(),
            forall|i: int|
                0 <= i < old(self).fbs@.len() ==> final(self).fbs@[i] == (#[trigger] old(
                    self,
                ).fbs@[i]).with_out_cleared(),
            final(self).event_conns == old(self).event_conns,
            final(self).data_conns == old(self).data_conns,
    {
        let n = self.fbs.len();
        let mut i: usize = 0;
        while i < n
            invariant
                old(self).wf(),
                n == self.fbs@.len(),
                n == old(self).fbs@.len(),
                i <= n,
                forall|k: int|
                    0 <= k < i ==> self.fbs@[k] == (#[trigger] old(self).fbs@[k]).with_out_cleared(),
                forall|k: int| i <= k < n ==> self.fbs@[k] == old(self).fbs@[k],
                self.event_conns == old(self).event_conns,
                self.data_conns == old(self).data_conns,
            decreases n - i,
        {
            proof {
                assert(old(self).fbs@[i as int].wf());
            }
            let fb = &mut self.fbs[i];
            fb.clear_event_out();
            i = i + 1;
        }
        proof {
            assert forall|k: int| 0 <= k < n implies (#[trigger] self.fbs@[k]).wf()
                && self.fbs@[k].id() == old(self).fbs@[k].id() by {
                old(self).fbs@[k].lemma_with_out_cleared();
            }
            assert forall|k: int, x: Seq<char>| 0 <= k < n implies (
            #[trigger] self.fbs@[k].has_in_event(x)) == old(self).fbs@[k].has_in_event(x) && (
            #[trigger] self.fbs@[k].has_out_event(x)) == old(self).fbs@[k].has_out_event(x) && (
            #[trigger] self.fbs@[k].in_kind(x)) == old(self).fbs@[k].in_kind(x) && (
            #[trigger] self.fbs@[k].out_kind(x)) == old(self).fbs@[k].out_kind(x) by {
                old(self).fbs@[k].lemma_with_out_cleared();
            }
            lemma_wf_parts_pointwise(
                old(self).fbs@,
                self.fbs@,
                self.event_conns.deep_view(),
                self.data_conns.deep_view(),
            );
        }
    }
}

} // verus!
