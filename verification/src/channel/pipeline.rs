//! The pipeline: an ordered list of handlers and the rules by which events
//! travel along it.

use crate::channel::handler::{
    Handler, InboundHandler, InboundHandlerContext, OutboundHandler, OutboundHandlerContext,
};
use crate::channel::message::{
    emission_views, outbound_views, Body, BodyView, Emission, EmissionView, InboundEvent,
    InboundEventView, Message, OutboundEvent, OutboundEventView,
};
use crate::error::{downcast_error, downcast_error_view, Error};
use crate::transport::{Instant, TaggedBytes, TaggedBytesMut, TransportContext};
use std::collections::VecDeque;
use vstd::prelude::*;

verus! {

/// An ordered list of handlers serving one connection, together with the
/// outbound channel that collects what reaches the head of the outbound
/// chain.
pub struct Pipeline<I, O> {
    ids: Vec<String>,
    inbound: Vec<I>,
    outbound: Vec<O>,
    in_ctxs: Vec<InboundHandlerContext>,
    out_ctxs: Vec<OutboundHandlerContext>,
    transport: TransportContext,
    finalized: bool,
    sent: VecDeque<TaggedBytesMut>,
    closed: bool,
}

/// The mathematical content of a [`Pipeline`].
pub struct PipelineView<I: InboundHandler, O: OutboundHandler> {
    /// The handlers' names, front to back.
    pub ids: Seq<Seq<char>>,
    /// The states of the inbound halves, front to back.
    pub inbound: Seq<I::State>,
    /// The states of the outbound halves, front to back.
    pub outbound: Seq<O::State>,
    /// The connection served.
    pub transport: TransportContext,
    /// Whether the handlers have been linked.
    pub finalized: bool,
    /// The links between the handlers, front to back; empty until the
    /// handlers have been linked.
    pub links: Seq<Link>,
    /// What waits in the outbound channel, oldest first.
    pub sent: Seq<TaggedBytes>,
    /// Whether the outbound channel has been closed.
    pub closed: bool,
}

/// What the two contexts of one handler hold: where its events go, and the
/// connection they belong to.
pub struct Link {
    /// The handler's name, as the handler's contexts carry it.
    pub id: Seq<char>,
    /// The link that is handed the inbound events this handler fires.
    pub next_in: Option<usize>,
    /// The link that is handed the outbound events this handler fires,
    /// whether it fires them from its outbound half or from its inbound
    /// half.
    pub next_out: Option<usize>,
    /// The connection, as the handler's contexts report it.
    pub transport: TransportContext,
}

/// The links of a pipeline of handlers named `ids` on the connection
/// `transport`: every context carries its handler's name, inbound events go to
/// the handler behind, outbound events to the handler in front, and every
/// context reports `transport`.
pub open spec fn linked(ids: Seq<Seq<char>>, transport: TransportContext) -> Seq<Link> {
    Seq::new(
        ids.len(),
        |i: int|
            Link {
                id: ids[i],
                next_in: next_inbound(ids.len() as int, i),
                next_out: next_outbound(i),
                transport,
            },
    )
}

/// The views of the buffers in an outbound channel, oldest first.
pub open spec fn tagged_views(s: Seq<TaggedBytesMut>) -> Seq<TaggedBytes> {
    s.map_values(|t: TaggedBytesMut| t@)
}

/// The link that receives the inbound events fired at `link` in a pipeline
/// of `n` handlers: the one behind it, if there is one.
pub open spec fn next_inbound(n: int, link: int) -> Option<usize> {
    if link + 1 < n {
        Some((link + 1) as usize)
    } else {
        None
    }
}

/// The link that receives the outbound events fired at `link`: the one in
/// front of it, if there is one.
pub open spec fn next_outbound(link: int) -> Option<usize> {
    if link > 0 {
        Some((link - 1) as usize)
    } else {
        None
    }
}

/// One observation: the handler at `link` was handed `event`.
pub struct Delivery {
    pub link: int,
    pub event: EmissionView,
}

/// The part of a pipeline that does not change while events travel: the
/// handlers' names and the connection.
pub struct Wiring {
    pub ids: Seq<Seq<char>>,
    pub transport: TransportContext,
}

/// The part of a pipeline that changes while events travel, together with the
/// deadline being polled and the record of what each handler was handed.
pub struct Flow<I: InboundHandler, O: OutboundHandler> {
    pub inbound: Seq<I::State>,
    pub outbound: Seq<O::State>,
    pub sent: Seq<TaggedBytes>,
    pub closed: bool,
    pub timeout: Instant,
    pub trace: Seq<Delivery>,
}

/// What one half does with one event.
pub struct Reaction<S, E> {
    /// The state of the half afterwards.
    pub next: S,
    /// What it fired, in order.
    pub fired: Seq<E>,
    /// The deadline afterwards.
    pub timeout: Instant,
    /// Whether the half was handed the event at all.
    pub observed: bool,
}

/// What an inbound half in the state `h`, named `id`, does with `event`.  A
/// message whose body the half does not take is not handed to it: a read
/// exception that names the half is fired in its place.
pub open spec fn inbound_reaction<I: InboundHandler>(
    h: I::State,
    id: Seq<char>,
    transport: TransportContext,
    event: InboundEventView,
    timeout: Instant,
) -> Reaction<I::State, EmissionView> {
    match event {
        InboundEventView::PollTimeout => {
            let r = I::poll(h, transport, timeout);
            Reaction { next: r.0, fired: r.1, timeout: r.2, observed: true }
        },
        InboundEventView::Read(m) => {
            if I::reads(h, m.body.kind()) {
                let r = I::react(h, transport, event);
                Reaction { next: r.0, fired: r.1, timeout, observed: true }
            } else {
                Reaction {
                    next: h,
                    fired: seq![
                        EmissionView::Inbound(
                            InboundEventView::ReadException(downcast_error_view(id)),
                        ),
                    ],
                    timeout,
                    observed: false,
                }
            }
        },
        _ => {
            let r = I::react(h, transport, event);
            Reaction { next: r.0, fired: r.1, timeout, observed: true }
        },
    }
}

/// What an outbound half in the state `h`, named `id`, does with `event`.  A
/// message whose body the half does not take is not handed to it: a write
/// exception that names the half is fired in its place.
pub open spec fn outbound_reaction<O: OutboundHandler>(
    h: O::State,
    id: Seq<char>,
    transport: TransportContext,
    event: OutboundEventView,
    timeout: Instant,
) -> Reaction<O::State, OutboundEventView> {
    match event {
        OutboundEventView::Write(m) => {
            if O::writes(h, m.body.kind()) {
                let r = O::react(h, transport, event);
                Reaction { next: r.0, fired: r.1, timeout, observed: true }
            } else {
                Reaction {
                    next: h,
                    fired: seq![OutboundEventView::WriteException(downcast_error_view(id))],
                    timeout,
                    observed: false,
                }
            }
        },
        _ => {
            let r = O::react(h, transport, event);
            Reaction { next: r.0, fired: r.1, timeout, observed: true }
        },
    }
}

/// What becomes of an outbound event that passes the head of the pipeline.
/// A write of bytes is placed in the outbound channel, unless the channel is
/// closed; a close closes the channel; everything else is dropped.
pub open spec fn arrive<I: InboundHandler, O: OutboundHandler>(
    f: Flow<I, O>,
    event: OutboundEventView,
) -> Flow<I, O> {
    match event {
        OutboundEventView::Write(m) => match m.body {
            BodyView::Bytes(b) => if f.closed {
                f
            } else {
                Flow {
                    sent: f.sent.push(
                        TaggedBytes { now: m.now, transport: m.transport, message: b },
                    ),
                    ..f
                }
            },
            BodyView::Text(_) => f,
        },
        OutboundEventView::WriteException(_) => f,
        OutboundEventView::Close => Flow { closed: true, ..f },
    }
}

/// The pipeline after `event` has been handed to the inbound half at `link`
/// and everything fired in response has been delivered.  Past the tail the
/// event is dropped.
pub open spec fn deliver_in<I: InboundHandler, O: OutboundHandler>(
    w: Wiring,
    f: Flow<I, O>,
    link: int,
    event: InboundEventView,
) -> Flow<I, O>
    decreases 2 * w.ids.len() - link, 0int,
{
    if 0 <= link < w.ids.len() {
        let r = inbound_reaction::<I>(f.inbound[link], w.ids[link], w.transport, event, f.timeout);
        let f1 = Flow {
            inbound: f.inbound.update(link, r.next),
            timeout: r.timeout,
            trace: if r.observed {
                f.trace.push(Delivery { link, event: EmissionView::Inbound(event) })
            } else {
                f.trace
            },
            ..f
        };
        deliver_all_in(w, f1, link, r.fired)
    } else {
        f
    }
}

/// The pipeline after everything in `fired`, fired by the inbound half at
/// `link`, has been delivered in order: inbound events to the link behind,
/// outbound events to the link in front.
pub open spec fn deliver_all_in<I: InboundHandler, O: OutboundHandler>(
    w: Wiring,
    f: Flow<I, O>,
    link: int,
    fired: Seq<EmissionView>,
) -> Flow<I, O>
    decreases 2 * w.ids.len() - link - 1, fired.len() + 1,
{
    if 0 <= link < w.ids.len() && fired.len() > 0 {
        let f1 = match fired[0] {
            EmissionView::Inbound(e) => deliver_in(w, f, link + 1, e),
            EmissionView::Outbound(e) => deliver_out(w, f, link - 1, e),
        };
        deliver_all_in(w, f1, link, fired.drop_first())
    } else {
        f
    }
}

/// The pipeline after `event` has been handed to the outbound half at `link`
/// and everything fired in response has been delivered.  Past the head the
/// event arrives at the outbound channel.
pub open spec fn deliver_out<I: InboundHandler, O: OutboundHandler>(
    w: Wiring,
    f: Flow<I, O>,
    link: int,
    event: OutboundEventView,
) -> Flow<I, O>
    decreases link + 1, 0int,
{
    if 0 <= link < w.ids.len() {
        let r = outbound_reaction::<O>(
            f.outbound[link],
            w.ids[link],
            w.transport,
            event,
            f.timeout,
        );
        let f1 = Flow {
            outbound: f.outbound.update(link, r.next),
            trace: if r.observed {
                f.trace.push(Delivery { link, event: EmissionView::Outbound(event) })
            } else {
                f.trace
            },
            ..f
        };
        deliver_all_out(w, f1, link, r.fired)
    } else {
        arrive(f, event)
    }
}

/// The pipeline after everything in `fired`, fired by the outbound half at
/// `link`, has been delivered in order to the link in front.
pub open spec fn deliver_all_out<I: InboundHandler, O: OutboundHandler>(
    w: Wiring,
    f: Flow<I, O>,
    link: int,
    fired: Seq<OutboundEventView>,
) -> Flow<I, O>
    decreases link, fired.len() + 1,
{
    if 0 <= link < w.ids.len() && fired.len() > 0 {
        let f1 = deliver_out(w, f, link - 1, fired[0]);
        deliver_all_out(w, f1, link, fired.drop_first())
    } else {
        f
    }
}

/// The deadline that stands for "never".
pub open spec fn never() -> Instant {
    Instant { nanos: u64::MAX }
}

impl<I: InboundHandler, O: OutboundHandler> PipelineView<I, O> {
    /// The part of this pipeline that stays as it is while events travel.
    pub open spec fn wiring(self) -> Wiring {
        Wiring { ids: self.ids, transport: self.transport }
    }

    /// This pipeline as the start of a traversal that polls `timeout`.
    pub open spec fn flow(self, timeout: Instant) -> Flow<I, O> {
        Flow {
            inbound: self.inbound,
            outbound: self.outbound,
            sent: self.sent,
            closed: self.closed,
            timeout,
            trace: Seq::empty(),
        }
    }

    /// This pipeline with its handlers and outbound channel as `f` left them.
    pub open spec fn absorb(self, f: Flow<I, O>) -> PipelineView<I, O> {
        PipelineView {
            inbound: f.inbound,
            outbound: f.outbound,
            sent: f.sent,
            closed: f.closed,
            ..self
        }
    }

    /// The traversal that `event` starts at the head of the inbound chain.
    pub open spec fn inbound_flow(self, event: InboundEventView, timeout: Instant) -> Flow<I, O> {
        deliver_in(self.wiring(), self.flow(timeout), 0, event)
    }

    /// The traversal that `event` starts at the tail of the outbound chain.
    pub open spec fn outbound_flow(self, event: OutboundEventView) -> Flow<I, O> {
        deliver_out(self.wiring(), self.flow(never()), self.ids.len() - 1, event)
    }

    /// The pipeline after `event` entered at the head of the inbound chain.
    pub open spec fn after_inbound(self, event: InboundEventView) -> PipelineView<I, O> {
        self.absorb(self.inbound_flow(event, never()))
    }

    /// The pipeline after `event` entered at the tail of the outbound chain.
    pub open spec fn after_outbound(self, event: OutboundEventView) -> PipelineView<I, O> {
        self.absorb(self.outbound_flow(event))
    }

    /// What each handler is handed, in order, when `event` enters at the head
    /// of the inbound chain.
    pub open spec fn inbound_trace(self, event: InboundEventView) -> Seq<Delivery> {
        self.inbound_flow(event, never()).trace
    }
}

impl<I: InboundHandler, O: OutboundHandler> View for Pipeline<I, O> {
    type V = PipelineView<I, O>;

    closed spec fn view(&self) -> PipelineView<I, O> {
        PipelineView {
            ids: self.ids@.map_values(|s: String| s@),
            inbound: self.inbound@.map_values(|h: I| h.state()),
            outbound: self.outbound@.map_values(|h: O| h.state()),
            transport: self.transport,
            finalized: self.finalized,
            links: Seq::new(
                self.in_ctxs@.len(),
                |i: int|
                    Link {
                        id: self.in_ctxs@[i].id@,
                        next_in: self.in_ctxs@[i].next_in,
                        next_out: self.in_ctxs@[i].next_out.next_out,
                        transport: self.in_ctxs@[i].next_out.transport_ctx,
                    },
            ),
            sent: tagged_views(self.sent@),
            closed: self.closed,
        }
    }
}

impl<I: InboundHandler, O: OutboundHandler> Pipeline<I, O> {
    /// Whether the outbound context at `link` is linked as a pipeline of `n`
    /// handlers requires, with nothing waiting on it.
    pub closed spec fn out_linked(&self, c: &OutboundHandlerContext, link: int) -> bool {
        &&& c.id@ == self.ids@[link]@
        &&& c.transport_ctx == self.transport
        &&& c.next_out == next_outbound(link)
        &&& c.fired@.len() == 0
    }

    /// The invariant of a pipeline: one name and two halves per handler, and,
    /// once linked, one pair of contexts per handler, each pointing at its
    /// neighbours.
    pub closed spec fn wf(&self) -> bool {
        let n = self.ids@.len() as int;
        &&& self.inbound@.len() == n
        &&& self.outbound@.len() == n
        &&& n < usize::MAX
        &&& self.finalized ==> {
            &&& self.in_ctxs@.len() == n
            &&& self.out_ctxs@.len() == n
            &&& forall|i: int|
                0 <= i < n ==> {
                    &&& (#[trigger] self.in_ctxs@[i]).id@ == self.ids@[i]@
                    &&& self.in_ctxs@[i].next_in == next_inbound(n, i)
                    &&& self.in_ctxs@[i].fired@.len() == 0
                    &&& self.out_linked(&self.in_ctxs@[i].next_out, i)
                }
            &&& forall|i: int| 0 <= i < n ==> self.out_linked(#[trigger] &self.out_ctxs@[i], i)
        }
        &&& !self.finalized ==> self.in_ctxs@.len() == 0 && self.out_ctxs@.len() == 0
    }

    /// The links of a linked pipeline are those that [`linked`] describes.
    proof fn lemma_links(&self)
        requires
            self.wf(),
            self.finalized,
        ensures
            self@.links == linked(self@.ids, self@.transport),
    {
        assert(self@.links =~= linked(self@.ids, self@.transport));
    }

    /// The context handed to the inbound half at `link`.
    pub closed spec fn inbound_context(&self, link: int) -> InboundHandlerContext {
        self.in_ctxs@[link]
    }

    /// The context handed to the outbound half at `link`.
    pub closed spec fn outbound_context(&self, link: int) -> OutboundHandlerContext {
        self.out_ctxs@[link]
    }

    /// In a linked pipeline, both contexts of the handler at `link` carry the
    /// handler's name and the pipeline's connection.  The inbound context
    /// points at the handler behind.  The outbound context, and the outbound
    /// context that the inbound context holds, point at the handler in front.
    /// Between events nothing waits on any of them.
    pub proof fn lemma_contexts_are_linked(&self, link: int)
        requires
            self.wf(),
            self@.finalized,
            0 <= link < self@.ids.len(),
        ensures
            self@.links[link] == (Link {
                id: self@.ids[link],
                next_in: next_inbound(self@.ids.len() as int, link),
                next_out: next_outbound(link),
                transport: self@.transport,
            }),
            self.inbound_context(link).id@ == self@.ids[link],
            self.inbound_context(link).next_in == next_inbound(self@.ids.len() as int, link),
            self.inbound_context(link).transport() == self@.transport,
            self.inbound_context(link).pending().len() == 0,
            self.inbound_context(link).next_out.same_link(&self.outbound_context(link)),
            self.outbound_context(link).id@ == self@.ids[link],
            self.outbound_context(link).next_out == next_outbound(link),
            self.outbound_context(link).transport_ctx == self@.transport,
            self.outbound_context(link).pending().len() == 0,
    {
        self.lemma_links();
        assert(self.out_linked(&self.out_ctxs@[link], link));
        assert(self.out_linked(&self.in_ctxs@[link].next_out, link));
    }

    /// A pipeline with no handlers for the connection `transport`.
    pub fn new(transport: TransportContext) -> (p: Self)
        ensures
            p.wf(),
            p@ == (PipelineView::<I, O> {
                ids: Seq::empty(),
                inbound: Seq::empty(),
                outbound: Seq::empty(),
                transport,
                finalized: false,
                links: Seq::empty(),
                sent: Seq::empty(),
                closed: false,
            }),
    {
        let p = Pipeline {
            ids: Vec::new(),
            inbound: Vec::new(),
            outbound: Vec::new(),
            in_ctxs: Vec::new(),
            out_ctxs: Vec::new(),
            transport,
            finalized: false,
            sent: VecDeque::new(),
            closed: false,
        };
        assert(p@.ids =~= Seq::empty());
        assert(p@.inbound =~= Seq::empty());
        assert(p@.outbound =~= Seq::empty());
        assert(p@.sent =~= Seq::empty());
        assert(p@.links =~= Seq::empty());
        p
    }

    /// The number of handlers.
    pub fn len(&self) -> (n: usize)
        requires
            self.wf(),
        ensures
            n == self@.ids.len(),
            n == self@.inbound.len(),
            n == self@.outbound.len(),
    {
        self.ids.len()
    }

    /// Appends a handler: it becomes the last to see inbound events and the
    /// first to see outbound ones.
    pub fn add_back<H: Handler<In = I, Out = O>>(&mut self, handler: H)
        requires
            old(self).wf(),
            !old(self)@.finalized,
            old(self)@.ids.len() + 1 < usize::MAX,
        ensures
            final(self).wf(),
            final(self)@ == (PipelineView {
                ids: old(self)@.ids.push(handler.name()),
                inbound: old(self)@.inbound.push(handler.halves().0.state()),
                outbound: old(self)@.outbound.push(handler.halves().1.state()),
                ..old(self)@
            }),
    {
        let id = handler.id();
        let (inbound, outbound) = handler.split();
        self.ids.push(id);
        self.inbound.push(inbound);
        self.outbound.push(outbound);
        assert(self@.ids =~= old(self)@.ids.push(handler.name()));
        assert(self@.inbound =~= old(self)@.inbound.push(inbound.state()));
        assert(self@.outbound =~= old(self)@.outbound.push(outbound.state()));
    }

    /// Prepends a handler: it becomes the first to see inbound events and the
    /// last to see outbound ones.
    pub fn add_front<H: Handler<In = I, Out = O>>(&mut self, handler: H)
        requires
            old(self).wf(),
            !old(self)@.finalized,
            old(self)@.ids.len() + 1 < usize::MAX,
        ensures
            final(self).wf(),
            final(self)@ == (PipelineView {
                ids: seq![handler.name()] + old(self)@.ids,
                inbound: seq![handler.halves().0.state()] + old(self)@.inbound,
                outbound: seq![handler.halves().1.state()] + old(self)@.outbound,
                ..old(self)@
            }),
    {
        let id = handler.id();
        let (inbound, outbound) = handler.split();
        self.ids.insert(0, id);
        self.inbound.insert(0, inbound);
        self.outbound.insert(0, outbound);
        assert(self@.ids =~= seq![handler.name()] + old(self)@.ids);
        assert(self@.inbound =~= seq![handler.halves().0.state()] + old(self)@.inbound);
        assert(self@.outbound =~= seq![handler.halves().1.state()] + old(self)@.outbound);
    }

    /// Links the handlers: every link gets an inbound context that points at
    /// the link behind it and an outbound context that points at the link in
    /// front of it, and the inbound context holds the outbound context of its
    /// own link, so that a write fired while reading goes to the link in
    /// front.  Every context reports the pipeline's connection.  The handlers
    /// themselves are not touched.
    pub fn finalize(&mut self)
        requires
            old(self).wf(),
            !old(self)@.finalized,
        ensures
            final(self).wf(),
            final(self)@ == (PipelineView {
                finalized: true,
                links: linked(old(self)@.ids, old(self)@.transport),
                ..old(self)@
            }),
    {
        let n = self.ids.len();
        let mut i: usize = 0;
        while i < n
            invariant
                i <= n,
                n == self.ids@.len(),
                n < usize::MAX,
                self.ids == old(self).ids,
                self.inbound == old(self).inbound,
                self.outbound == old(self).outbound,
                self.transport == old(self).transport,
                self.sent == old(self).sent,
                self.closed == old(self).closed,
                !self.finalized,
                self.in_ctxs@.len() == i,
                self.out_ctxs@.len() == i,
                forall|k: int|
                    0 <= k < i ==> {
                        &&& (#[trigger] self.in_ctxs@[k]).id@ == self.ids@[k]@
                        &&& self.in_ctxs@[k].next_in == next_inbound(n as int, k)
                        &&& self.in_ctxs@[k].fired@.len() == 0
                        &&& self.out_linked(&self.in_ctxs@[k].next_out, k)
                    },
                forall|k: int| 0 <= k < i ==> self.out_linked(#[trigger] &self.out_ctxs@[k], k),
            decreases n - i,
        {
            let next_in = if i + 1 < n { Some(i + 1) } else { None };
            let next_out = if i > 0 { Some(i - 1) } else { None };
            let embedded = OutboundHandlerContext {
                id: self.ids[i].clone(),
                transport_ctx: self.transport,
                next_out,
                fired: VecDeque::new(),
            };
            let out_ctx = OutboundHandlerContext {
                id: self.ids[i].clone(),
                transport_ctx: self.transport,
                next_out,
                fired: VecDeque::new(),
            };
            let in_ctx = InboundHandlerContext {
                id: self.ids[i].clone(),
                next_in,
                next_out: embedded,
                fired: VecDeque::new(),
            };
            self.in_ctxs.push(in_ctx);
            self.out_ctxs.push(out_ctx);
            i = i + 1;
        }
        self.finalized = true;
        proof {
            self.lemma_links();
        }
    }
}

impl<I: InboundHandler, O: OutboundHandler> Pipeline<I, O> {
    /// The changing part of this pipeline, for a traversal that polls
    /// `timeout` and has so far recorded `trace`.
    pub closed spec fn flow(&self, timeout: Instant, trace: Seq<Delivery>) -> Flow<I, O> {
        Flow {
            inbound: self.inbound@.map_values(|h: I| h.state()),
            outbound: self.outbound@.map_values(|h: O| h.state()),
            sent: tagged_views(self.sent@),
            closed: self.closed,
            timeout,
            trace,
        }
    }

    /// What passes the head of the outbound chain: see [`arrive`].
    fn arrive(
        &mut self,
        event: OutboundEvent,
        Ghost(timeout): Ghost<Instant>,
        Ghost(trace): Ghost<Seq<Delivery>>,
    )
        requires
            old(self).wf(),
            old(self).finalized,
        ensures
            final(self).wf(),
            final(self).finalized,
            final(self)@.wiring() == old(self)@.wiring(),
            final(self).flow(timeout, trace) == arrive(old(self).flow(timeout, trace), event@),
    {
        match event {
            OutboundEvent::Write(m) => {
                let Message { now, transport, body } = m;
                match body {
                    Body::Bytes(b) => {
                        if !self.closed {
                            let t = TaggedBytesMut { now, transport, message: b };
                            self.sent.push_back(t);
                            assert(tagged_views(self.sent@) =~= tagged_views(old(self).sent@).push(
                                t@,
                            ));
                        }
                    },
                    Body::Text(_) => {},
                }
            },
            OutboundEvent::WriteException(_) => {},
            OutboundEvent::Close => {
                self.closed = true;
            },
        }
    }

    /// Hands `event` to the outbound half at `link` and delivers what it
    /// fires: see [`deliver_out`].
    fn deliver_out(
        &mut self,
        link: usize,
        event: OutboundEvent,
        Ghost(timeout): Ghost<Instant>,
        Ghost(trace): Ghost<Seq<Delivery>>,
    ) -> (out: Ghost<Seq<Delivery>>)
        requires
            old(self).wf(),
            old(self).finalized,
            link < old(self)@.ids.len(),
        ensures
            final(self).wf(),
            final(self).finalized,
            final(self)@.wiring() == old(self)@.wiring(),
            final(self).flow(timeout, out@) == deliver_out(
                old(self)@.wiring(),
                old(self).flow(timeout, trace),
                link as int,
                event@,
            ),
        decreases link + 1,
    {
        let ghost w = self@.wiring();
        let ghost f0 = self.flow(timeout, trace);
        let ghost r = outbound_reaction::<O>(
            f0.outbound[link as int],
            w.ids[link as int],
            w.transport,
            event@,
            timeout,
        );
        match event {
            OutboundEvent::Write(m) => {
                if self.outbound[link].accepts(m.body.kind()) {
                    self.outbound[link].write(&mut self.out_ctxs[link], m);
                } else {
                    let e = downcast_error(self.ids[link].as_str());
                    self.out_ctxs[link].fire_write_exception(e);
                }
            },
            OutboundEvent::WriteException(e) => {
                self.outbound[link].write_exception(&mut self.out_ctxs[link], e);
            },
            OutboundEvent::Close => {
                self.outbound[link].close(&mut self.out_ctxs[link]);
            },
        }
        let mut fired: VecDeque<OutboundEvent> = VecDeque::new();
        core::mem::swap(&mut self.out_ctxs[link].fired, &mut fired);
        let ghost mut tr = if r.observed {
            trace.push(Delivery { link: link as int, event: EmissionView::Outbound(event@) })
        } else {
            trace
        };
        let ghost target = deliver_out(w, f0, link as int, event@);
        assert(outbound_views(fired@) =~= r.fired);
        assert(self.flow(timeout, trace).outbound =~= f0.outbound.update(link as int, r.next));
        while fired.len() > 0
            invariant
                self.wf(),
                self.finalized,
                self@.wiring() == w,
                link < w.ids.len(),
                deliver_all_out(
                    w,
                    self.flow(timeout, tr),
                    link as int,
                    outbound_views(fired@),
                ) == target,
            decreases fired@.len(),
        {
            let ghost before = outbound_views(fired@);
            let ghost here = self.flow(timeout, tr);
            let e = fired.pop_front().unwrap();
            assert(outbound_views(fired@) =~= before.drop_first());
            assert(deliver_all_out(w, here, link as int, before) == deliver_all_out(
                w,
                deliver_out(w, here, link - 1, before[0]),
                link as int,
                before.drop_first(),
            ));
            if link > 0 {
                let t = self.deliver_out(link - 1, e, Ghost(timeout), Ghost(tr));
                proof {
                    tr = t@;
                }
            } else {
                self.arrive(e, Ghost(timeout), Ghost(tr));
            }
        }
        Ghost(tr)
    }

    /// Hands `event` to the inbound half at `link` and delivers what it
    /// fires: see [`deliver_in`].
    fn deliver_in(
        &mut self,
        link: usize,
        event: InboundEvent,
        timeout: &mut Instant,
        Ghost(trace): Ghost<Seq<Delivery>>,
    ) -> (out: Ghost<Seq<Delivery>>)
        requires
            old(self).wf(),
            old(self).finalized,
            link <= old(self)@.ids.len(),
        ensures
            final(self).wf(),
            final(self).finalized,
            final(self)@.wiring() == old(self)@.wiring(),
            final(self).flow(*final(timeout), out@) == deliver_in(
                old(self)@.wiring(),
                old(self).flow(*old(timeout), trace),
                link as int,
                event@,
            ),
        decreases 2 * old(self)@.ids.len() - link,
    {
        if link >= self.ids.len() {
            return Ghost(trace);
        }
        let ghost w = self@.wiring();
        let ghost f0 = self.flow(*timeout, trace);
        let ghost r = inbound_reaction::<I>(
            f0.inbound[link as int],
            w.ids[link as int],
            w.transport,
            event@,
            *timeout,
        );
        match event {
            InboundEvent::TransportActive => {
                self.inbound[link].transport_active(&mut self.in_ctxs[link]);
            },
            InboundEvent::TransportInactive => {
                self.inbound[link].transport_inactive(&mut self.in_ctxs[link]);
            },
            InboundEvent::Read(m) => {
                if self.inbound[link].accepts(m.body.kind()) {
                    self.inbound[link].read(&mut self.in_ctxs[link], m);
                } else {
                    let e = downcast_error(self.ids[link].as_str());
                    self.in_ctxs[link].fire_read_exception(e);
                }
            },
            InboundEvent::ReadException(e) => {
                self.inbound[link].read_exception(&mut self.in_ctxs[link], e);
            },
            InboundEvent::ReadEof => {
                self.inbound[link].read_eof(&mut self.in_ctxs[link]);
            },
            InboundEvent::ReadTimeout(t) => {
                self.inbound[link].read_timeout(&mut self.in_ctxs[link], t);
            },
            InboundEvent::PollTimeout => {
                self.inbound[link].poll_timeout(&mut self.in_ctxs[link], timeout);
            },
        }
        let mut fired: VecDeque<Emission> = VecDeque::new();
        core::mem::swap(&mut self.in_ctxs[link].fired, &mut fired);
        let ghost mut tr = if r.observed {
            trace.push(Delivery { link: link as int, event: EmissionView::Inbound(event@) })
        } else {
            trace
        };
        let ghost target = deliver_in(w, f0, link as int, event@);
        assert(self.in_ctxs@[link as int].next_out.pending().len()
            == self.in_ctxs@[link as int].next_out.fired@.len());
        assert(emission_views(fired@) =~= r.fired);
        assert(self.flow(*timeout, trace).inbound =~= f0.inbound.update(link as int, r.next));
        while fired.len() > 0
            invariant
                self.wf(),
                self.finalized,
                self@.wiring() == w,
                link < w.ids.len(),
                w.ids.len() == old(self)@.ids.len(),
                deliver_all_in(
                    w,
                    self.flow(*timeout, tr),
                    link as int,
                    emission_views(fired@),
                ) == target,
            decreases fired@.len(),
        {
            let ghost before = emission_views(fired@);
            let em = fired.pop_front().unwrap();
            assert(emission_views(fired@) =~= before.drop_first());
            match em {
                Emission::Inbound(e) => {
                    let t = self.deliver_in(link + 1, e, timeout, Ghost(tr));
                    proof {
                        tr = t@;
                    }
                },
                Emission::Outbound(e) => {
                    if link > 0 {
                        let t = self.deliver_out(link - 1, e, Ghost(*timeout), Ghost(tr));
                        proof {
                            tr = t@;
                        }
                    } else {
                        self.arrive(e, Ghost(*timeout), Ghost(tr));
                    }
                },
            }
        }
        Ghost(tr)
    }

    /// Starts `event` at the head of the inbound chain.
    fn inject_in(&mut self, event: InboundEvent, timeout: &mut Instant)
        requires
            old(self).wf(),
            old(self)@.finalized,
        ensures
            final(self).wf(),
            final(self)@ == old(self)@.absorb(old(self)@.inbound_flow(event@, *old(timeout))),
            *final(timeout) == old(self)@.inbound_flow(event@, *old(timeout)).timeout,
    {
        let _ = self.deliver_in(0, event, timeout, Ghost(Seq::empty()));
        proof {
            old(self).lemma_links();
            self.lemma_links();
        }
    }

    /// Starts `event` at the tail of the outbound chain.
    fn inject_out(&mut self, event: OutboundEvent)
        requires
            old(self).wf(),
            old(self)@.finalized,
        ensures
            final(self).wf(),
            final(self)@ == old(self)@.after_outbound(event@),
    {
        let n = self.ids.len();
        if n > 0 {
            let _ = self.deliver_out(n - 1, event, Ghost(never()), Ghost(Seq::empty()));
        } else {
            self.arrive(event, Ghost(never()), Ghost(Seq::empty()));
        }
        proof {
            old(self).lemma_links();
            self.lemma_links();
        }
    }

    /// Tells the handlers, front to back, that the transport is up.
    pub fn transport_active(&mut self)
        requires
            old(self).wf(),
            old(self)@.finalized,
        ensures
            final(self).wf(),
            final(self)@ == old(self)@.after_inbound(InboundEventView::TransportActive),
    {
        let mut timeout = Instant::from_nanos(u64::MAX);
        self.inject_in(InboundEvent::TransportActive, &mut timeout);
    }

    /// Tells the handlers, front to back, that the transport is down.
    pub fn transport_inactive(&mut self)
        requires
            old(self).wf(),
            old(self)@.finalized,
        ensures
            final(self).wf(),
            final(self)@ == old(self)@.after_inbound(InboundEventView::TransportInactive),
    {
        let mut timeout = Instant::from_nanos(u64::MAX);
        self.inject_in(InboundEvent::TransportInactive, &mut timeout);
    }

    /// Hands an inbound message to the first handler.
    pub fn read(&mut self, message: Message)
        requires
            old(self).wf(),
            old(self)@.finalized,
        ensures
            final(self).wf(),
            final(self)@ == old(self)@.after_inbound(InboundEventView::Read(message@)),
    {
        let mut timeout = Instant::from_nanos(u64::MAX);
        self.inject_in(InboundEvent::Read(message), &mut timeout);
    }

    /// Reports a failed read to the first handler.
    pub fn read_exception(&mut self, error: Error)
        requires
            old(self).wf(),
            old(self)@.finalized,
        ensures
            final(self).wf(),
            final(self)@ == old(self)@.after_inbound(InboundEventView::ReadException(error@)),
    {
        let mut timeout = Instant::from_nanos(u64::MAX);
        self.inject_in(InboundEvent::ReadException(error), &mut timeout);
    }

    /// Tells the first handler that the peer will send no more.
    pub fn read_eof(&mut self)
        requires
            old(self).wf(),
            old(self)@.finalized,
        ensures
            final(self).wf(),
            final(self)@ == old(self)@.after_inbound(InboundEventView::ReadEof),
    {
        let mut timeout = Instant::from_nanos(u64::MAX);
        self.inject_in(InboundEvent::ReadEof, &mut timeout);
    }

    /// Tells the first handler that the deadline it asked for has passed; `now`
    /// is the time at which the driver noticed.
    pub fn handle_timeout(&mut self, now: Instant)
        requires
            old(self).wf(),
            old(self)@.finalized,
        ensures
            final(self).wf(),
            final(self)@ == old(self)@.after_inbound(InboundEventView::ReadTimeout(now)),
    {
        let mut timeout = Instant::from_nanos(u64::MAX);
        self.inject_in(InboundEvent::ReadTimeout(now), &mut timeout);
    }

    /// Walks the inbound chain from the head, letting each handler that is
    /// reached replace the deadline.
    pub fn poll_timeout(&mut self, timeout: &mut Instant)
        requires
            old(self).wf(),
            old(self)@.finalized,
        ensures
            final(self).wf(),
            final(self)@ == old(self)@.absorb(
                old(self)@.inbound_flow(InboundEventView::PollTimeout, *old(timeout)),
            ),
            *final(timeout) == old(self)@.inbound_flow(
                InboundEventView::PollTimeout,
                *old(timeout),
            ).timeout,
    {
        self.inject_in(InboundEvent::PollTimeout, timeout);
    }

    /// Hands an outbound message to the last handler.
    pub fn write(&mut self, message: Message)
        requires
            old(self).wf(),
            old(self)@.finalized,
        ensures
            final(self).wf(),
            final(self)@ == old(self)@.after_outbound(OutboundEventView::Write(message@)),
    {
        self.inject_out(OutboundEvent::Write(message));
    }

    /// Asks the handlers, back to front, to close.
    pub fn close(&mut self)
        requires
            old(self).wf(),
            old(self)@.finalized,
        ensures
            final(self).wf(),
            final(self)@ == old(self)@.after_outbound(OutboundEventView::Close),
    {
        self.inject_out(OutboundEvent::Close);
    }

    /// Takes the oldest buffer out of the outbound channel, if there is one.
    pub fn poll_transmit(&mut self) -> (t: Option<TaggedBytesMut>)
        requires
            old(self).wf(),
        ensures
            final(self).wf(),
            old(self)@.sent.len() == 0 ==> t is None && final(self)@ == old(self)@,
            old(self)@.sent.len() > 0 ==> t is Some && t->0@ == old(self)@.sent[0] && final(self)@
                == (PipelineView { sent: old(self)@.sent.drop_first(), ..old(self)@ }),
    {
        let t = self.sent.pop_front();
        if t.is_some() {
            assert(tagged_views(self.sent@) =~= tagged_views(old(self).sent@).drop_first());
        }
        t
    }

    /// Whether the outbound channel has been closed.  A closed channel takes
    /// no more writes; what it already holds can still be taken.
    pub fn is_closed(&self) -> (c: bool)
        ensures
            c == self@.closed,
    {
        self.closed
    }

    /// Whether the handlers have been linked.
    pub fn is_finalized(&self) -> (f: bool)
        ensures
            f == self@.finalized,
    {
        self.finalized
    }
}

} // verus!
