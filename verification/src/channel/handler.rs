//! Handler traits and the contexts through which handlers fire events.
//!
//! A handler never calls its neighbour.  It fires events on the context it is
//! handed; once it returns, the pipeline delivers what was fired, in the order
//! it was fired, each event to the next link in its direction.  A handler
//! therefore does not see what the links behind it make of an event.  This
//! holds of a polled deadline too: each handler is polled with the deadline
//! as the handlers in front left it, and only the caller of
//! [`crate::channel::Pipeline::poll_timeout`] sees what the whole chain made
//! of it.

use crate::channel::message::{
    emission_views, outbound_views, BodyKind, Emission, EmissionView, InboundEvent,
    InboundEventView, Message, OutboundEvent, OutboundEventView,
};
use crate::error::Error;
use crate::transport::{Instant, TransportContext};
use std::collections::VecDeque;
use vstd::prelude::*;

verus! {

/// The context handed to the outbound half of a link.
pub struct OutboundHandlerContext {
    /// The name of the handler this context belongs to.
    pub id: String,
    /// The connection the pipeline serves.
    pub transport_ctx: TransportContext,
    /// The link that receives what is fired here; none at the head.
    pub next_out: Option<usize>,
    /// What has been fired and not yet delivered.
    pub fired: VecDeque<OutboundEvent>,
}

impl OutboundHandlerContext {
    /// What has been fired on this context and not yet delivered.
    pub open spec fn pending(&self) -> Seq<OutboundEventView> {
        outbound_views(self.fired@)
    }

    /// Whether two contexts name the same handler, connection and next link.
    pub open spec fn same_link(&self, other: &Self) -> bool {
        &&& self.id@ == other.id@
        &&& self.transport_ctx == other.transport_ctx
        &&& self.next_out == other.next_out
    }

    /// The connection this pipeline serves.
    pub fn get_transport(&self) -> (t: TransportContext)
        ensures
            t == self.transport_ctx,
    {
        self.transport_ctx
    }

    fn fire(&mut self, event: OutboundEvent)
        ensures
            final(self).pending() == old(self).pending().push(event@),
            final(self).same_link(old(self)),
    {
        self.fired.push_back(event);
    }

    /// Hands a message to the link before this one, or to the outbound
    /// channel when this is the head.
    pub fn fire_write(&mut self, message: Message)
        ensures
            final(self).pending() == old(self).pending().push(OutboundEventView::Write(message@)),
            final(self).same_link(old(self)),
    {
        self.fire(OutboundEvent::Write(message));
    }

    /// Reports a failed write to the link before this one.
    pub fn fire_write_exception(&mut self, error: Error)
        ensures
            final(self).pending() == old(self).pending().push(
                OutboundEventView::WriteException(error@),
            ),
            final(self).same_link(old(self)),
    {
        self.fire(OutboundEvent::WriteException(error));
    }

    /// Asks the link before this one to close, or closes the outbound channel
    /// when this is the head.
    pub fn fire_close(&mut self)
        ensures
            final(self).pending() == old(self).pending().push(OutboundEventView::Close),
            final(self).same_link(old(self)),
    {
        self.fire(OutboundEvent::Close);
    }
}

/// The context handed to the inbound half of a link.  It holds the outbound
/// context of the same link, so that a handler can write while it reads.
pub struct InboundHandlerContext {
    /// The name of the handler this context belongs to.
    pub id: String,
    /// The link that receives the inbound events fired here; none at the tail.
    pub next_in: Option<usize>,
    /// The outbound context of the same link.
    pub next_out: OutboundHandlerContext,
    /// What has been fired and not yet delivered, in either direction.
    pub fired: VecDeque<Emission>,
}

impl InboundHandlerContext {
    /// What has been fired on this context and not yet delivered.
    pub open spec fn pending(&self) -> Seq<EmissionView> {
        emission_views(self.fired@)
    }

    /// Whether two contexts name the same handler, connection and next links.
    pub open spec fn same_link(&self, other: &Self) -> bool {
        &&& self.id@ == other.id@
        &&& self.next_in == other.next_in
        &&& self.next_out.same_link(&other.next_out)
        &&& self.next_out.pending() == other.next_out.pending()
    }

    /// The connection this pipeline serves.
    pub open spec fn transport(&self) -> TransportContext {
        self.next_out.transport_ctx
    }

    /// The connection this pipeline serves.
    pub fn get_transport(&self) -> (t: TransportContext)
        ensures
            t == self.transport(),
    {
        self.next_out.get_transport()
    }

    fn fire(&mut self, emission: Emission)
        ensures
            final(self).pending() == old(self).pending().push(emission@),
            final(self).same_link(old(self)),
    {
        self.fired.push_back(emission);
    }

    /// Tells the next link that the transport is up.
    pub fn fire_transport_active(&mut self)
        ensures
            final(self).pending() == old(self).pending().push(
                EmissionView::Inbound(InboundEventView::TransportActive),
            ),
            final(self).same_link(old(self)),
    {
        self.fire(Emission::Inbound(InboundEvent::TransportActive));
    }

    /// Tells the next link that the transport is down.
    pub fn fire_transport_inactive(&mut self)
        ensures
            final(self).pending() == old(self).pending().push(
                EmissionView::Inbound(InboundEventView::TransportInactive),
            ),
            final(self).same_link(old(self)),
    {
        self.fire(Emission::Inbound(InboundEvent::TransportInactive));
    }

    /// Hands a message to the next link.
    pub fn fire_read(&mut self, message: Message)
        ensures
            final(self).pending() == old(self).pending().push(
                EmissionView::Inbound(InboundEventView::Read(message@)),
            ),
            final(self).same_link(old(self)),
    {
        self.fire(Emission::Inbound(InboundEvent::Read(message)));
    }

    /// Reports a failed read to the next link.
    pub fn fire_read_exception(&mut self, error: Error)
        ensures
            final(self).pending() == old(self).pending().push(
                EmissionView::Inbound(InboundEventView::ReadException(error@)),
            ),
            final(self).same_link(old(self)),
    {
        self.fire(Emission::Inbound(InboundEvent::ReadException(error)));
    }

    /// Tells the next link that the peer will send no more.
    pub fn fire_read_eof(&mut self)
        ensures
            final(self).pending() == old(self).pending().push(
                EmissionView::Inbound(InboundEventView::ReadEof),
            ),
            final(self).same_link(old(self)),
    {
        self.fire(Emission::Inbound(InboundEvent::ReadEof));
    }

    /// Tells the next link that the deadline `timeout` has passed.
    pub fn fire_read_timeout(&mut self, timeout: Instant)
        ensures
            final(self).pending() == old(self).pending().push(
                EmissionView::Inbound(InboundEventView::ReadTimeout(timeout)),
            ),
            final(self).same_link(old(self)),
    {
        self.fire(Emission::Inbound(InboundEvent::ReadTimeout(timeout)));
    }

    /// Lets the next link be polled too.  The next link is polled once the
    /// calling handler has returned, with the deadline as that handler left
    /// it; what the links behind make of the deadline is seen by the caller
    /// of [`crate::channel::Pipeline::poll_timeout`], not by the handler.
    pub fn fire_poll_timeout(&mut self)
        ensures
            final(self).pending() == old(self).pending().push(
                EmissionView::Inbound(InboundEventView::PollTimeout),
            ),
            final(self).same_link(old(self)),
    {
        self.fire(Emission::Inbound(InboundEvent::PollTimeout));
    }

    /// Starts a write at the link before this one.
    pub fn fire_write(&mut self, message: Message)
        ensures
            final(self).pending() == old(self).pending().push(
                EmissionView::Outbound(OutboundEventView::Write(message@)),
            ),
            final(self).same_link(old(self)),
    {
        self.fire(Emission::Outbound(OutboundEvent::Write(message)));
    }

    /// Reports a failed write to the link before this one.
    pub fn fire_write_exception(&mut self, error: Error)
        ensures
            final(self).pending() == old(self).pending().push(
                EmissionView::Outbound(OutboundEventView::WriteException(error@)),
            ),
            final(self).same_link(old(self)),
    {
        self.fire(Emission::Outbound(OutboundEvent::WriteException(error)));
    }

    /// Starts a close at the link before this one.
    pub fn fire_close(&mut self)
        ensures
            final(self).pending() == old(self).pending().push(
                EmissionView::Outbound(OutboundEventView::Close),
            ),
            final(self).same_link(old(self)),
    {
        self.fire(Emission::Outbound(OutboundEvent::Close));
    }
}

/// The inbound half of a handler.
///
/// A half has a state: what of it decides how it behaves.  `react` and
/// `poll` say, as mathematics, what the half does with an event in a given
/// state: the state it moves to and what it fires.  Each method promises to
/// do exactly that.  A half that passes an event on unchanged fires that same
/// event and keeps its state.
pub trait InboundHandler: Sized {
    /// What of this half decides how it behaves.
    type State;

    /// The state this half is in.  Unless an implementation says otherwise,
    /// nothing is known of it.
    open spec fn state(&self) -> Self::State {
        arbitrary()
    }

    /// Whether a half in this state takes messages with a body of the given
    /// kind.  Unless an implementation says otherwise, it takes every kind.
    open spec fn reads(state: Self::State, kind: BodyKind) -> bool {
        true
    }

    /// The state after `event` and what is fired in response, on a connection
    /// described by `transport`.  Not consulted for `PollTimeout`.  Unless an
    /// implementation says otherwise, the event is passed on.
    open spec fn react(
        state: Self::State,
        transport: TransportContext,
        event: InboundEventView,
    ) -> (Self::State, Seq<EmissionView>) {
        (state, forwarded(event))
    }

    /// The state after being polled with the deadline `timeout`, what is
    /// fired in response, and the deadline this half leaves behind.  Unless
    /// an implementation says otherwise, the poll is passed on and the
    /// deadline is left as it was.
    open spec fn poll(state: Self::State, transport: TransportContext, timeout: Instant) -> (
        Self::State,
        Seq<EmissionView>,
        Instant,
    ) {
        (state, forwarded(InboundEventView::PollTimeout), timeout)
    }

    fn accepts(&self, kind: BodyKind) -> (b: bool)
        ensures
            b == Self::reads(self.state(), kind),
    ;

    fn transport_active(&mut self, ctx: &mut InboundHandlerContext)
        ensures
            final(self).state() == Self::react(
                old(self).state(),
                old(ctx).transport(),
                InboundEventView::TransportActive,
            ).0,
            final(ctx).pending() == old(ctx).pending() + Self::react(
                old(self).state(),
                old(ctx).transport(),
                InboundEventView::TransportActive,
            ).1,
            final(ctx).same_link(old(ctx)),
    ;

    fn transport_inactive(&mut self, ctx: &mut InboundHandlerContext)
        ensures
            final(self).state() == Self::react(
                old(self).state(),
                old(ctx).transport(),
                InboundEventView::TransportInactive,
            ).0,
            final(ctx).pending() == old(ctx).pending() + Self::react(
                old(self).state(),
                old(ctx).transport(),
                InboundEventView::TransportInactive,
            ).1,
            final(ctx).same_link(old(ctx)),
    ;

    fn read(&mut self, ctx: &mut InboundHandlerContext, message: Message)
        requires
            Self::reads(old(self).state(), message@.body.kind()),
        ensures
            final(self).state() == Self::react(
                old(self).state(),
                old(ctx).transport(),
                InboundEventView::Read(message@),
            ).0,
            final(ctx).pending() == old(ctx).pending() + Self::react(
                old(self).state(),
                old(ctx).transport(),
                InboundEventView::Read(message@),
            ).1,
            final(ctx).same_link(old(ctx)),
    ;

    fn read_exception(&mut self, ctx: &mut InboundHandlerContext, error: Error)
        ensures
            final(self).state() == Self::react(
                old(self).state(),
                old(ctx).transport(),
                InboundEventView::ReadException(error@),
            ).0,
            final(ctx).pending() == old(ctx).pending() + Self::react(
                old(self).state(),
                old(ctx).transport(),
                InboundEventView::ReadException(error@),
            ).1,
            final(ctx).same_link(old(ctx)),
    ;

    fn read_eof(&mut self, ctx: &mut InboundHandlerContext)
        ensures
            final(self).state() == Self::react(
                old(self).state(),
                old(ctx).transport(),
                InboundEventView::ReadEof,
            ).0,
            final(ctx).pending() == old(ctx).pending() + Self::react(
                old(self).state(),
                old(ctx).transport(),
                InboundEventView::ReadEof,
            ).1,
            final(ctx).same_link(old(ctx)),
    ;

    fn read_timeout(&mut self, ctx: &mut InboundHandlerContext, timeout: Instant)
        ensures
            final(self).state() == Self::react(
                old(self).state(),
                old(ctx).transport(),
                InboundEventView::ReadTimeout(timeout),
            ).0,
            final(ctx).pending() == old(ctx).pending() + Self::react(
                old(self).state(),
                old(ctx).transport(),
                InboundEventView::ReadTimeout(timeout),
            ).1,
            final(ctx).same_link(old(ctx)),
    ;

    fn poll_timeout(&mut self, ctx: &mut InboundHandlerContext, timeout: &mut Instant)
        ensures
            final(self).state() == Self::poll(
                old(self).state(),
                old(ctx).transport(),
                *old(timeout),
            ).0,
            final(ctx).pending() == old(ctx).pending() + Self::poll(
                old(self).state(),
                old(ctx).transport(),
                *old(timeout),
            ).1,
            *final(timeout) == Self::poll(old(self).state(), old(ctx).transport(), *old(timeout)).2,
            final(ctx).same_link(old(ctx)),
    ;
}

/// The outbound half of a handler.  See [`InboundHandler`] for how its
/// behaviour is stated.
pub trait OutboundHandler: Sized {
    /// What of this half decides how it behaves.
    type State;

    /// The state this half is in.  Unless an implementation says otherwise,
    /// nothing is known of it.
    open spec fn state(&self) -> Self::State {
        arbitrary()
    }

    /// Whether a half in this state takes messages with a body of the given
    /// kind.  Unless an implementation says otherwise, it takes every kind.
    open spec fn writes(state: Self::State, kind: BodyKind) -> bool {
        true
    }

    /// The state after `event` and what is fired in response, on a connection
    /// described by `transport`.  Unless an implementation says otherwise, the
    /// event is passed on.
    open spec fn react(
        state: Self::State,
        transport: TransportContext,
        event: OutboundEventView,
    ) -> (Self::State, Seq<OutboundEventView>) {
        (state, forwarded_out(event))
    }

    fn accepts(&self, kind: BodyKind) -> (b: bool)
        ensures
            b == Self::writes(self.state(), kind),
    ;

    fn write(&mut self, ctx: &mut OutboundHandlerContext, message: Message)
        requires
            Self::writes(old(self).state(), message@.body.kind()),
        ensures
            final(self).state() == Self::react(
                old(self).state(),
                old(ctx).transport_ctx,
                OutboundEventView::Write(message@),
            ).0,
            final(ctx).pending() == old(ctx).pending() + Self::react(
                old(self).state(),
                old(ctx).transport_ctx,
                OutboundEventView::Write(message@),
            ).1,
            final(ctx).same_link(old(ctx)),
    ;

    fn write_exception(&mut self, ctx: &mut OutboundHandlerContext, error: Error)
        ensures
            final(self).state() == Self::react(
                old(self).state(),
                old(ctx).transport_ctx,
                OutboundEventView::WriteException(error@),
            ).0,
            final(ctx).pending() == old(ctx).pending() + Self::react(
                old(self).state(),
                old(ctx).transport_ctx,
                OutboundEventView::WriteException(error@),
            ).1,
            final(ctx).same_link(old(ctx)),
    ;

    fn close(&mut self, ctx: &mut OutboundHandlerContext)
        ensures
            final(self).state() == Self::react(
                old(self).state(),
                old(ctx).transport_ctx,
                OutboundEventView::Close,
            ).0,
            final(ctx).pending() == old(ctx).pending() + Self::react(
                old(self).state(),
                old(ctx).transport_ctx,
                OutboundEventView::Close,
            ).1,
            final(ctx).same_link(old(ctx)),
    ;
}

/// A handler: a name, an inbound half and an outbound half.
pub trait Handler: Sized {
    type In: InboundHandler;

    type Out: OutboundHandler;

    /// The handler's name.  Unless an implementation says otherwise, nothing
    /// is known of it.
    open spec fn name(&self) -> Seq<char> {
        arbitrary()
    }

    /// The two halves this handler splits into.  Unless an implementation
    /// says otherwise, nothing is known of them.
    open spec fn halves(self) -> (Self::In, Self::Out) {
        arbitrary()
    }

    fn id(&self) -> (s: String)
        ensures
            s@ == self.name(),
    ;

    fn split(self) -> (r: (Self::In, Self::Out))
        ensures
            r == self.halves(),
    ;
}

/// What a half fires when it passes an inbound event on unchanged.
pub open spec fn forwarded(event: InboundEventView) -> Seq<EmissionView> {
    seq![EmissionView::Inbound(event)]
}

/// What a half fires when it passes an outbound event on unchanged.
pub open spec fn forwarded_out(event: OutboundEventView) -> Seq<OutboundEventView> {
    seq![event]
}

} // verus!
