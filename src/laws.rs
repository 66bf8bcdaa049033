//! Laws of the shell surface handle over whole sessions of events and
//! operations.
use vstd::prelude::*;
use crate::event::{EventView, WindowState, size_of, states_of_raw};
use crate::protocol::{Operation, Request, ShellVariant, requests_for};
use crate::shell::{HandleView, NativeEvent, in_protocol, sent_for, step};

verus! {

/// An optional value as a sequence of zero or one item.
pub open spec fn opt_seq<T>(o: Option<T>) -> Seq<T> {
    match o {
        Some(x) => seq![x],
        None => Seq::empty(),
    }
}

/// A handle fed a sequence of native events, in order: its final state, the
/// events it emitted and the replies it sent.
pub open spec fn run(h: HandleView, es: Seq<NativeEvent>) -> (HandleView, Seq<EventView>, Seq<Request>)
    decreases es.len(),
{
    if es.len() == 0 {
        (h, Seq::empty(), Seq::empty())
    } else {
        let before = run(h, es.drop_last());
        let last = step(before.0, es.last());
        (last.0, before.1 + opt_seq(last.1), before.2 + opt_seq(last.2))
    }
}

/// Whether a native event is a configure notification of a toplevel.
pub open spec fn is_toplevel_configure(e: NativeEvent) -> bool {
    e is ToplevelConfigure
}

/// The last size suggested in a sequence of configure notifications.
pub open spec fn last_size(cs: Seq<NativeEvent>) -> Option<(u32, u32)>
    decreases cs.len(),
{
    if cs.len() == 0 {
        None
    } else {
        match cs.last() {
            NativeEvent::ToplevelConfigure { width, height, .. } => match size_of(width, height) {
                Some(s) => Some(s),
                None => last_size(cs.drop_last()),
            },
            _ => last_size(cs.drop_last()),
        }
    }
}

/// The states reported by the last of a sequence of configure notifications,
/// read on a protocol generation.
pub open spec fn last_states(variant: ShellVariant, cs: Seq<NativeEvent>) -> Seq<WindowState> {
    match cs.last() {
        NativeEvent::ToplevelConfigure { states, .. } => states_of_raw(variant, states@),
        _ => Seq::empty(),
    }
}

proof fn lemma_gathering(h: HandleView, cs: Seq<NativeEvent>)
    requires
        h.variant != ShellVariant::Legacy,
        !h.destroyed,
        h.pending is None,
        cs.len() > 0,
        forall|i: int| 0 <= i < cs.len() ==> is_toplevel_configure(#[trigger] cs[i]),
    ensures
        run(h, cs) == (HandleView { pending: Some((last_size(cs), last_states(h.variant, cs))), ..h }, Seq::<EventView>::empty(), Seq::<Request>::empty()),
    decreases cs.len(),
{
    let init = cs.drop_last();
    assert(is_toplevel_configure(cs[cs.len() - 1]));
    if init.len() == 0 {
        assert(run(h, init) == (h, Seq::<EventView>::empty(), Seq::<Request>::empty()));
        assert(last_size(init) == None::<(u32, u32)>);
    } else {
        assert forall|i: int| 0 <= i < init.len() implies is_toplevel_configure(#[trigger] init[i]) by {
            assert(init[i] == cs[i]);
        }
        lemma_gathering(h, init);
    }
    let before = run(h, init);
    assert(before.1 + opt_seq::<EventView>(None) =~= before.1);
    assert(before.2 + opt_seq::<Request>(None) =~= before.2);
}

/// A batch of configure notifications followed by the acknowledgment that
/// ends it makes one `Configure` event, with the last size suggested in the
/// batch and the states of its last notification, and one acknowledgment
/// sent back; nothing is left gathered.
pub proof fn configure_batch_coalesces(h: HandleView, cs: Seq<NativeEvent>, serial: u32)
    requires
        h.variant != ShellVariant::Legacy,
        !h.destroyed,
        h.pending is None,
        cs.len() > 0,
        forall|i: int| 0 <= i < cs.len() ==> is_toplevel_configure(#[trigger] cs[i]),
    ensures
        run(h, cs.push(NativeEvent::SurfaceConfigure { serial })).0 == h,
        run(h, cs.push(NativeEvent::SurfaceConfigure { serial })).1 == seq![
            EventView::Configure { new_size: last_size(cs), states: last_states(h.variant, cs) },
        ],
        run(h, cs.push(NativeEvent::SurfaceConfigure { serial })).2 == seq![
            Request::AckConfigure { serial },
        ],
{
    let es = cs.push(NativeEvent::SurfaceConfigure { serial });
    assert(es.drop_last() =~= cs);
    lemma_gathering(h, cs);
    assert(Seq::<EventView>::empty() + seq![
        EventView::Configure { new_size: last_size(cs), states: last_states(h.variant, cs) },
    ] =~= seq![EventView::Configure { new_size: last_size(cs), states: last_states(h.variant, cs) }]);
    assert(Seq::<Request>::empty() + seq![Request::AckConfigure { serial }] =~= seq![
        Request::AckConfigure { serial },
    ]);
}

/// On the legacy generation, which has no acknowledgment, each configure
/// notification is a batch of its own: it makes one `Configure` event with
/// the size it suggests and no states, and sends nothing back.
pub proof fn legacy_configure_is_one_batch(h: HandleView, edges: u32, width: i32, height: i32)
    requires
        h.variant == ShellVariant::Legacy,
        !h.destroyed,
    ensures
        run(h, seq![NativeEvent::LegacyConfigure { edges, width, height }]) == (
            h,
            seq![EventView::Configure { new_size: size_of(width, height), states: Seq::empty() }],
            Seq::<Request>::empty(),
        ),
{
    let es = seq![NativeEvent::LegacyConfigure { edges, width, height }];
    assert(es.drop_last() =~= Seq::<NativeEvent>::empty());
    assert(run(h, es.drop_last()) == (h, Seq::<EventView>::empty(), Seq::<Request>::empty()));
    assert(es.last() == NativeEvent::LegacyConfigure { edges, width, height });
    assert(Seq::<EventView>::empty() + seq![
        EventView::Configure { new_size: size_of(width, height), states: Seq::empty() },
    ] =~= seq![EventView::Configure { new_size: size_of(width, height), states: Seq::empty() }]);
    assert(Seq::<Request>::empty() + Seq::<Request>::empty() =~= Seq::<Request>::empty());
}

/// The number of `Close` events in a sequence of events.
pub open spec fn close_events(evs: Seq<EventView>) -> nat
    decreases evs.len(),
{
    if evs.len() == 0 {
        0
    } else {
        close_events(evs.drop_last()) + if evs.last() is Close { 1nat } else { 0nat }
    }
}

/// The number of close notifications in a sequence of native events.
pub open spec fn close_notifications(es: Seq<NativeEvent>) -> nat
    decreases es.len(),
{
    if es.len() == 0 {
        0
    } else {
        close_notifications(es.drop_last()) + if es.last() is ToplevelClose { 1nat } else { 0nat }
    }
}

proof fn lemma_run_keeps_identity(h: HandleView, es: Seq<NativeEvent>)
    ensures
        run(h, es).0.variant == h.variant,
        run(h, es).0.toplevel == h.toplevel,
        run(h, es).0.destroyed == h.destroyed,
    decreases es.len(),
{
    if es.len() > 0 {
        lemma_run_keeps_identity(h, es.drop_last());
    }
}

proof fn lemma_close_events_append(evs: Seq<EventView>, o: Option<EventView>)
    ensures
        close_events(evs + opt_seq(o)) == close_events(evs) + match o {
            Some(EventView::Close) => 1nat,
            _ => 0nat,
        },
{
    match o {
        Some(e) => {
            assert((evs + seq![e]).drop_last() =~= evs);
        },
        None => {
            assert(evs + Seq::<EventView>::empty() =~= evs);
        },
    }
}

/// Every close notification of a live handle's protocol becomes exactly one
/// `Close` event: as many are emitted as there were notifications.
pub proof fn one_close_per_notification(h: HandleView, es: Seq<NativeEvent>)
    requires
        !h.destroyed,
        forall|i: int| 0 <= i < es.len() ==> in_protocol(h.variant, #[trigger] es[i]),
    ensures
        close_events(run(h, es).1) == close_notifications(es),
    decreases es.len(),
{
    if es.len() > 0 {
        let init = es.drop_last();
        assert forall|i: int| 0 <= i < init.len() implies in_protocol(h.variant, #[trigger] init[i]) by {
            assert(init[i] == es[i]);
        }
        assert(in_protocol(h.variant, es[es.len() - 1]));
        one_close_per_notification(h, init);
        lemma_run_keeps_identity(h, init);
        let before = run(h, init);
        lemma_close_events_append(before.1, step(before.0, es.last()).1);
    }
}

/// Once a handle is destroyed, no native event makes it emit an event or
/// send a reply, and its state stays as it is.
pub proof fn destroyed_is_silent(h: HandleView, es: Seq<NativeEvent>)
    requires
        h.destroyed,
    ensures
        run(h, es) == (h, Seq::<EventView>::empty(), Seq::<Request>::empty()),
    decreases es.len(),
{
    if es.len() > 0 {
        destroyed_is_silent(h, es.drop_last());
        assert(Seq::<EventView>::empty() + Seq::<EventView>::empty() =~= Seq::<EventView>::empty());
        assert(Seq::<Request>::empty() + Seq::<Request>::empty() =~= Seq::<Request>::empty());
    }
}

/// The size bound that the compositor holds after a list of requests, from
/// a bound held before: the maximum bound if `max`, else the minimum one.
/// A bound of zero in both dimensions is no bound.
pub open spec fn bound_after(max: bool, prior: Option<(i32, i32)>, reqs: Seq<Request>) -> Option<(i32, i32)>
    decreases reqs.len(),
{
    if reqs.len() == 0 {
        prior
    } else {
        let before = bound_after(max, prior, reqs.drop_last());
        let set = match reqs.last() {
            Request::SetMinSize { width, height } => if max { None } else { Some((width, height)) },
            Request::SetMaxSize { width, height } => if max { Some((width, height)) } else { None },
            _ => None,
        };
        match set {
            Some((width, height)) => if width == 0 && height == 0 {
                None
            } else {
                Some((width, height))
            },
            None => before,
        }
    }
}

/// The size bound that the compositor holds after a handle of a generation
/// made a list of operations.
pub open spec fn bound_of(max: bool, variant: ShellVariant, ops: Seq<Operation>) -> Option<(i32, i32)>
    decreases ops.len(),
{
    if ops.len() == 0 {
        None
    } else {
        bound_after(max, bound_of(max, variant, ops.drop_last()), requests_for(variant, ops.last()))
    }
}

/// The operation that sets a bound: the maximum one if `max`.
pub open spec fn bound_op(max: bool, size: Option<(i32, i32)>) -> Operation {
    if max {
        Operation::SetMaxSize { size }
    } else {
        Operation::SetMinSize { size }
    }
}

proof fn lemma_legacy_never_bounds(max: bool, ops: Seq<Operation>)
    ensures
        bound_of(max, ShellVariant::Legacy, ops) == None::<(i32, i32)>,
    decreases ops.len(),
{
    if ops.len() > 0 {
        lemma_legacy_never_bounds(max, ops.drop_last());
        let reqs = requests_for(ShellVariant::Legacy, ops.last());
        if reqs.len() == 1 {
            assert(reqs.drop_last() =~= Seq::<Request>::empty());
            assert(bound_after(max, None, reqs.drop_last()) == None::<(i32, i32)>);
        }
    }
}

/// Setting a size bound to `None` clears it, whatever operations came
/// before, on every generation; clearing it again changes nothing.
pub proof fn clearing_a_bound(max: bool, variant: ShellVariant, ops: Seq<Operation>)
    ensures
        bound_of(max, variant, ops.push(bound_op(max, None))) == None::<(i32, i32)>,
        bound_of(max, variant, ops.push(bound_op(max, None)).push(bound_op(max, None)))
            == None::<(i32, i32)>,
{
    let once = ops.push(bound_op(max, None));
    let twice = once.push(bound_op(max, None));
    assert(once.drop_last() =~= ops);
    assert(twice.drop_last() =~= once);
    if variant == ShellVariant::Legacy {
        lemma_legacy_never_bounds(max, once);
        lemma_legacy_never_bounds(max, twice);
    } else {
        let reqs = requests_for(variant, bound_op(max, None));
        assert(reqs.drop_last() =~= Seq::<Request>::empty());
    }
}

/// On the legacy generation, setting an app id, a window geometry, a size
/// bound or minimizing sends nothing.
pub proof fn legacy_degrades_silently(
    h: HandleView,
    app_id: String,
    x: i32,
    y: i32,
    width: i32,
    height: i32,
    size: Option<(i32, i32)>,
)
    requires
        h.variant == ShellVariant::Legacy,
    ensures
        sent_for(h, Operation::SetAppId { app_id }) == Seq::<Request>::empty(),
        sent_for(h, Operation::SetGeometry { x, y, width, height }) == Seq::<Request>::empty(),
        sent_for(h, Operation::SetMinSize { size }) == Seq::<Request>::empty(),
        sent_for(h, Operation::SetMaxSize { size }) == Seq::<Request>::empty(),
        sent_for(h, Operation::SetMinimized) == Seq::<Request>::empty(),
{
}

} // verus!
