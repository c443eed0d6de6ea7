//! Facts about how events travel along a pipeline, proved from the definitions
//! in [`crate::channel::pipeline`].

use crate::channel::handler::{InboundHandler, OutboundHandler};
use crate::channel::message::{EmissionView, InboundEventView, MessageView, OutboundEventView};
use crate::channel::pipeline::{
    arrive, deliver_all_in, deliver_all_out, deliver_in, deliver_out, inbound_reaction, never,
    outbound_reaction, Delivery, Flow, PipelineView, Wiring,
};
use crate::transport::Instant;
use vstd::prelude::*;

verus! {

/// `f` with `prefix` put in front of its record of deliveries.
pub open spec fn with_prefix<I: InboundHandler, O: OutboundHandler>(
    prefix: Seq<Delivery>,
    f: Flow<I, O>,
) -> Flow<I, O> {
    Flow { trace: prefix + f.trace, ..f }
}

/// `f` with an empty record of deliveries.
pub open spec fn fresh<I: InboundHandler, O: OutboundHandler>(f: Flow<I, O>) -> Flow<I, O> {
    Flow { trace: Seq::empty(), ..f }
}

/// A traversal only ever appends to the record of deliveries, and nothing
/// else in it depends on what was recorded before: inbound events.
pub proof fn lemma_deliver_in_appends<I: InboundHandler, O: OutboundHandler>(
    w: Wiring,
    f: Flow<I, O>,
    link: int,
    event: InboundEventView,
    prefix: Seq<Delivery>,
)
    ensures
        deliver_in(w, with_prefix(prefix, f), link, event) == with_prefix(
            prefix,
            deliver_in(w, f, link, event),
        ),
    decreases 2 * w.ids.len() - link, 0int,
{
    if 0 <= link < w.ids.len() {
        let r = inbound_reaction::<I>(f.inbound[link], w.ids[link], w.transport, event, f.timeout);
        let d = Delivery { link, event: EmissionView::Inbound(event) };
        let f1 = Flow {
            inbound: f.inbound.update(link, r.next),
            timeout: r.timeout,
            trace: if r.observed { f.trace.push(d) } else { f.trace },
            ..f
        };
        lemma_deliver_all_in_appends(w, f1, link, r.fired, prefix);
    }
}

/// See [`lemma_deliver_in_appends`]: a batch of events fired by an inbound
/// half.
pub proof fn lemma_deliver_all_in_appends<I: InboundHandler, O: OutboundHandler>(
    w: Wiring,
    f: Flow<I, O>,
    link: int,
    fired: Seq<EmissionView>,
    prefix: Seq<Delivery>,
)
    ensures
        deliver_all_in(w, with_prefix(prefix, f), link, fired) == with_prefix(
            prefix,
            deliver_all_in(w, f, link, fired),
        ),
    decreases 2 * w.ids.len() - link - 1, fired.len() + 1,
{
    if 0 <= link < w.ids.len() && fired.len() > 0 {
        let f1 = match fired[0] {
            EmissionView::Inbound(e) => deliver_in(w, f, link + 1, e),
            EmissionView::Outbound(e) => deliver_out(w, f, link - 1, e),
        };
        match fired[0] {
            EmissionView::Inbound(e) => lemma_deliver_in_appends(w, f, link + 1, e, prefix),
            EmissionView::Outbound(e) => lemma_deliver_out_appends(w, f, link - 1, e, prefix),
        }
        lemma_deliver_all_in_appends(w, f1, link, fired.drop_first(), prefix);
    }
}

/// See [`lemma_deliver_in_appends`]: outbound events.
pub proof fn lemma_deliver_out_appends<I: InboundHandler, O: OutboundHandler>(
    w: Wiring,
    f: Flow<I, O>,
    link: int,
    event: OutboundEventView,
    prefix: Seq<Delivery>,
)
    ensures
        deliver_out(w, with_prefix(prefix, f), link, event) == with_prefix(
            prefix,
            deliver_out(w, f, link, event),
        ),
    decreases link + 1, 0int,
{
    if 0 <= link < w.ids.len() {
        let r = outbound_reaction::<O>(
            f.outbound[link],
            w.ids[link],
            w.transport,
            event,
            f.timeout,
        );
        let d = Delivery { link, event: EmissionView::Outbound(event) };
        let f1 = Flow {
            outbound: f.outbound.update(link, r.next),
            trace: if r.observed { f.trace.push(d) } else { f.trace },
            ..f
        };
        lemma_deliver_all_out_appends(w, f1, link, r.fired, prefix);
    }
}

/// See [`lemma_deliver_in_appends`]: a batch of events fired by an outbound
/// half.
pub proof fn lemma_deliver_all_out_appends<I: InboundHandler, O: OutboundHandler>(
    w: Wiring,
    f: Flow<I, O>,
    link: int,
    fired: Seq<OutboundEventView>,
    prefix: Seq<Delivery>,
)
    ensures
        deliver_all_out(w, with_prefix(prefix, f), link, fired) == with_prefix(
            prefix,
            deliver_all_out(w, f, link, fired),
        ),
    decreases link, fired.len() + 1,
{
    if 0 <= link < w.ids.len() && fired.len() > 0 {
        let f1 = deliver_out(w, f, link - 1, fired[0]);
        lemma_deliver_out_appends(w, f, link - 1, fired[0], prefix);
        lemma_deliver_all_out_appends(w, f1, link, fired.drop_first(), prefix);
    }
}

/// Events are served one after the other.  When two inbound events enter at
/// the head in order, every delivery that the first gives rise to, at every
/// handler and in either direction, is recorded before any delivery that the
/// second gives rise to; and the second is served by the handlers as the
/// first left them.
pub proof fn lemma_inbound_events_are_serialized<I: InboundHandler, O: OutboundHandler>(
    w: Wiring,
    f: Flow<I, O>,
    first: InboundEventView,
    second: InboundEventView,
)
    ensures
        ({
            let after_first = deliver_in(w, f, 0, first);
            let after_both = deliver_in(w, after_first, 0, second);
            let alone_first = deliver_in(w, fresh(f), 0, first);
            let alone_second = deliver_in(w, fresh(after_first), 0, second);
            &&& after_both.trace == f.trace + alone_first.trace + alone_second.trace
            &&& fresh(after_both) == fresh(alone_second)
        }),
{
    let after_first = deliver_in(w, f, 0, first);
    lemma_deliver_in_appends(w, fresh(f), 0, first, f.trace);
    lemma_deliver_in_appends(w, fresh(after_first), 0, second, after_first.trace);
}

/// Whether an inbound half in the state `h` takes the message `m` and passes
/// it on unchanged, keeping its state.
pub open spec fn forwards_read<I: InboundHandler>(h: I::State, w: Wiring, m: MessageView) -> bool {
    &&& I::reads(h, m.body.kind())
    &&& I::react(h, w.transport, InboundEventView::Read(m)) == (
        h,
        seq![EmissionView::Inbound(InboundEventView::Read(m))],
    )
}

/// The deliveries of the read of `m` at the links `from`, `from + 1`, … up
/// to, not including, `to`.
pub open spec fn reads_along(from: int, to: int, m: MessageView) -> Seq<Delivery> {
    Seq::new(
        if to >= from { (to - from) as nat } else { 0 },
        |k: int| Delivery { link: from + k, event: EmissionView::Inbound(InboundEventView::Read(m)) },
    )
}

/// A read that enters at `link` and meets only halves that pass it on is
/// handed to every half from `link` to the tail, once each and in order, and
/// changes nothing else.
pub proof fn lemma_forwarded_read_reaches_tail<I: InboundHandler, O: OutboundHandler>(
    w: Wiring,
    f: Flow<I, O>,
    link: int,
    m: MessageView,
)
    requires
        0 <= link <= w.ids.len(),
        f.inbound.len() == w.ids.len(),
        forall|i: int|
            link <= i < w.ids.len() ==> forwards_read::<I>(#[trigger] f.inbound[i], w, m),
    ensures
        deliver_in(w, f, link, InboundEventView::Read(m)) == (Flow {
            trace: f.trace + reads_along(link, w.ids.len() as int, m),
            ..f
        }),
    decreases w.ids.len() - link,
{
    let n = w.ids.len() as int;
    let event = InboundEventView::Read(m);
    if link < n {
        let h = f.inbound[link];
        let d = Delivery { link, event: EmissionView::Inbound(event) };
        let f1 = Flow { trace: f.trace.push(d), ..f };
        assert(f.inbound.update(link, h) =~= f.inbound);
        let fired = seq![EmissionView::Inbound(event)];
        let f2 = deliver_in(w, f1, link + 1, event);
        assert(deliver_all_in(w, f1, link, fired) == deliver_all_in(
            w,
            f2,
            link,
            fired.drop_first(),
        ));
        lemma_forwarded_read_reaches_tail(w, f1, link + 1, m);
        assert(f1.trace + reads_along(link + 1, n, m) =~= f.trace + reads_along(link, n, m));
    }
}

/// Traversal completeness.  In a pipeline whose inbound halves all pass a
/// read on, a message that enters at the head is handed to every handler
/// exactly once, front to back, the tail last; no half changes and nothing is
/// placed in the outbound channel.
pub proof fn lemma_read_traverses_every_handler<I: InboundHandler, O: OutboundHandler>(
    w: Wiring,
    f: Flow<I, O>,
    m: MessageView,
)
    requires
        f.inbound.len() == w.ids.len(),
        forall|i: int| 0 <= i < w.ids.len() ==> forwards_read::<I>(#[trigger] f.inbound[i], w, m),
    ensures
        deliver_in(w, fresh(f), 0, InboundEventView::Read(m)).trace.len() == w.ids.len(),
        forall|i: int|
            0 <= i < w.ids.len() ==> (#[trigger] deliver_in(
                w,
                fresh(f),
                0,
                InboundEventView::Read(m),
            ).trace[i]) == (Delivery {
                link: i,
                event: EmissionView::Inbound(InboundEventView::Read(m)),
            }),
        fresh(deliver_in(w, f, 0, InboundEventView::Read(m))) == fresh(f),
{
    lemma_forwarded_read_reaches_tail(w, fresh(f), 0, m);
    lemma_forwarded_read_reaches_tail(w, f, 0, m);
}

/// Traversal completeness, for a pipeline as a whole: see
/// [`lemma_read_traverses_every_handler`].  The pipeline is left exactly as
/// it was.
pub proof fn lemma_pipeline_read_traverses_every_handler<I: InboundHandler, O: OutboundHandler>(
    p: PipelineView<I, O>,
    m: MessageView,
)
    requires
        p.inbound.len() == p.ids.len(),
        forall|i: int|
            0 <= i < p.ids.len() ==> forwards_read::<I>(#[trigger] p.inbound[i], p.wiring(), m),
    ensures
        p.inbound_trace(InboundEventView::Read(m)) == reads_along(0, p.ids.len() as int, m),
        p.after_inbound(InboundEventView::Read(m)) == p,
{
    let f = p.flow(never());
    lemma_forwarded_read_reaches_tail(p.wiring(), f, 0, m);
}

/// The earlier of two instants.
pub open spec fn earlier(a: Instant, b: Instant) -> Instant {
    if a.nanos <= b.nanos {
        a
    } else {
        b
    }
}

/// Whether an inbound half in the state `h`, polled with whatever deadline,
/// keeps its state, passes the poll on, and leaves the earlier of that
/// deadline and `own`.
pub open spec fn pulls_in<I: InboundHandler>(h: I::State, w: Wiring, own: Instant) -> bool {
    forall|t: Instant| #[trigger]
        I::poll(h, w.transport, t) == (
            h,
            seq![EmissionView::Inbound(InboundEventView::PollTimeout)],
            earlier(t, own),
        )
}

/// The earliest of `t` and the instants of `owns` from `from` on.
pub open spec fn earliest(t: Instant, owns: Seq<Instant>, from: int) -> Instant
    decreases owns.len() - from,
{
    if 0 <= from < owns.len() {
        earliest(earlier(t, owns[from]), owns, from + 1)
    } else {
        t
    }
}

/// The deliveries of a poll at the links `from`, `from + 1`, … up to, not
/// including, `to`.
pub open spec fn polls_along(from: int, to: int) -> Seq<Delivery> {
    Seq::new(
        if to >= from { (to - from) as nat } else { 0 },
        |k: int|
            Delivery {
                link: from + k,
                event: EmissionView::Inbound(InboundEventView::PollTimeout),
            },
    )
}

/// The walk of a poll.  A poll that enters at `link` and meets only halves
/// that pull the deadline in to their own is handed to every half from
/// `link` to the tail, once each and in order; each is polled with the
/// deadline as the halves in front left it; and the deadline that comes out
/// is the earliest of the one that went in and the halves' own.  No half sees
/// what the halves behind it make of the deadline: that is seen only where
/// the walk ends.
pub proof fn lemma_poll_walks_the_chain<I: InboundHandler, O: OutboundHandler>(
    w: Wiring,
    f: Flow<I, O>,
    link: int,
    owns: Seq<Instant>,
)
    requires
        0 <= link <= w.ids.len(),
        f.inbound.len() == w.ids.len(),
        owns.len() == w.ids.len(),
        forall|i: int|
            link <= i < w.ids.len() ==> pulls_in::<I>(#[trigger] f.inbound[i], w, owns[i]),
    ensures
        deliver_in(w, f, link, InboundEventView::PollTimeout) == (Flow {
            timeout: earliest(f.timeout, owns, link),
            trace: f.trace + polls_along(link, w.ids.len() as int),
            ..f
        }),
    decreases w.ids.len() - link,
{
    let n = w.ids.len() as int;
    let event = InboundEventView::PollTimeout;
    if link < n {
        let h = f.inbound[link];
        assert(pulls_in::<I>(h, w, owns[link]));
        assert(I::poll(h, w.transport, f.timeout) == (
            h,
            seq![EmissionView::Inbound(event)],
            earlier(f.timeout, owns[link]),
        ));
        let d = Delivery { link, event: EmissionView::Inbound(event) };
        let f1 = Flow {
            timeout: earlier(f.timeout, owns[link]),
            trace: f.trace.push(d),
            ..f
        };
        assert(f.inbound.update(link, h) =~= f.inbound);
        let fired = seq![EmissionView::Inbound(event)];
        let f2 = deliver_in(w, f1, link + 1, event);
        assert(fired.drop_first() =~= Seq::<EmissionView>::empty());
        assert(deliver_in(w, f, link, event) == deliver_all_in(w, f1, link, fired));
        assert(deliver_all_in(w, f1, link, fired) == deliver_all_in(
            w,
            f2,
            link,
            fired.drop_first(),
        ));
        lemma_poll_walks_the_chain(w, f1, link + 1, owns);
        assert(f1.trace + polls_along(link + 1, n) =~= f.trace + polls_along(link, n));
    } else {
        assert(f.trace + polls_along(link, n) =~= f.trace);
    }
}

/// Bidirectional linkage.  When the inbound half at `link` answers an event
/// by firing a write, the write enters the outbound chain at the link in
/// front of that half, not at the tail: the traversal continues as the
/// delivery of that write to the outbound half at `link - 1`, or, from the
/// head, as its arrival at the outbound channel.
pub proof fn lemma_write_from_inbound_enters_at_same_link<I: InboundHandler, O: OutboundHandler>(
    w: Wiring,
    f: Flow<I, O>,
    link: int,
    event: InboundEventView,
    written: MessageView,
)
    requires
        0 <= link < w.ids.len(),
        inbound_reaction::<I>(f.inbound[link], w.ids[link], w.transport, event, f.timeout).fired
            == seq![EmissionView::Outbound(OutboundEventView::Write(written))],
    ensures
        ({
            let r = inbound_reaction::<I>(f.inbound[link], w.ids[link], w.transport, event, f.timeout);
            let handed = Flow {
                inbound: f.inbound.update(link, r.next),
                timeout: r.timeout,
                trace: if r.observed {
                    f.trace.push(Delivery { link, event: EmissionView::Inbound(event) })
                } else {
                    f.trace
                },
                ..f
            };
            &&& deliver_in(w, f, link, event) == deliver_out(
                w,
                handed,
                link - 1,
                OutboundEventView::Write(written),
            )
            &&& link == 0 ==> deliver_in(w, f, link, event) == arrive(
                handed,
                OutboundEventView::Write(written),
            )
        }),
{
    let r = inbound_reaction::<I>(f.inbound[link], w.ids[link], w.transport, event, f.timeout);
    let handed = Flow {
        inbound: f.inbound.update(link, r.next),
        timeout: r.timeout,
        trace: if r.observed {
            f.trace.push(Delivery { link, event: EmissionView::Inbound(event) })
        } else {
            f.trace
        },
        ..f
    };
    let fired = r.fired;
    let next = deliver_out(w, handed, link - 1, OutboundEventView::Write(written));
    assert(deliver_all_in(w, handed, link, fired) == deliver_all_in(
        w,
        next,
        link,
        fired.drop_first(),
    ));
}

} // verus!
