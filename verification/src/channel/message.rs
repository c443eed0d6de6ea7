//! The carrier that travels along a pipeline, and the events that handlers
//! receive and fire.

use crate::buf::contents;
use crate::error::{Error, ErrorView};
use crate::transport::{Instant, TaggedBytes, TaggedBytesMut, TransportContext};
use bytes::BytesMut;
use vstd::prelude::*;

verus! {

/// What a message carries.
pub enum Body {
    /// Raw bytes, framed or not.
    Bytes(BytesMut),
    /// Decoded text.
    Text(String),
}

/// Which variant of [`Body`] a message carries.
#[derive(Debug, Clone, Copy, PartialEq, Eq, Hash, Structural)]
pub enum BodyKind {
    Bytes,
    Text,
}

/// The mathematical content of a [`Body`].
pub enum BodyView {
    Bytes(Seq<u8>),
    Text(Seq<char>),
}

impl BodyView {
    pub open spec fn kind(self) -> BodyKind {
        match self {
            BodyView::Bytes(_) => BodyKind::Bytes,
            BodyView::Text(_) => BodyKind::Text,
        }
    }
}

impl View for Body {
    type V = BodyView;

    open spec fn view(&self) -> BodyView {
        match self {
            Body::Bytes(b) => BodyView::Bytes(contents(*b)),
            Body::Text(s) => BodyView::Text(s@),
        }
    }
}

impl Body {
    /// Which variant this is.
    pub fn kind(&self) -> (k: BodyKind)
        ensures
            k == self@.kind(),
    {
        match self {
            Body::Bytes(_) => BodyKind::Bytes,
            Body::Text(_) => BodyKind::Text,
        }
    }
}

/// The carrier handed from handler to handler: a body, the time the driver
/// saw the event that gave rise to it, and the connection it belongs to.
pub struct Message {
    pub now: Instant,
    pub transport: TransportContext,
    pub body: Body,
}

/// The mathematical content of a [`Message`].
pub struct MessageView {
    pub now: Instant,
    pub transport: TransportContext,
    pub body: BodyView,
}

impl View for Message {
    type V = MessageView;

    open spec fn view(&self) -> MessageView {
        MessageView { now: self.now, transport: self.transport, body: self.body@ }
    }
}

impl MessageView {
    /// The message a tagged buffer becomes when it enters a pipeline.
    pub open spec fn of_tagged(t: TaggedBytes) -> MessageView {
        MessageView { now: t.now, transport: t.transport, body: BodyView::Bytes(t.message) }
    }
}

impl Message {
    /// Wraps a tagged buffer, keeping its time and connection.
    pub fn from_tagged(t: TaggedBytesMut) -> (m: Message)
        ensures
            m@ == MessageView::of_tagged(t@),
    {
        Message { now: t.now, transport: t.transport, body: Body::Bytes(t.message) }
    }

    /// A text message.
    pub fn text(now: Instant, transport: TransportContext, text: String) -> (m: Message)
        ensures
            m@ == (MessageView { now, transport, body: BodyView::Text(text@) }),
    {
        Message { now, transport, body: Body::Text(text) }
    }

    /// A message of raw bytes.
    pub fn bytes(now: Instant, transport: TransportContext, bytes: BytesMut) -> (m: Message)
        ensures
            m@ == (MessageView { now, transport, body: BodyView::Bytes(contents(bytes)) }),
    {
        Message { now, transport, body: Body::Bytes(bytes) }
    }
}

/// An event that travels from the head of a pipeline toward its tail.
pub enum InboundEvent {
    TransportActive,
    TransportInactive,
    Read(Message),
    ReadException(Error),
    ReadEof,
    ReadTimeout(Instant),
    PollTimeout,
}

/// The mathematical content of an [`InboundEvent`].
pub enum InboundEventView {
    TransportActive,
    TransportInactive,
    Read(MessageView),
    ReadException(ErrorView),
    ReadEof,
    ReadTimeout(Instant),
    PollTimeout,
}

impl View for InboundEvent {
    type V = InboundEventView;

    open spec fn view(&self) -> InboundEventView {
        match self {
            InboundEvent::TransportActive => InboundEventView::TransportActive,
            InboundEvent::TransportInactive => InboundEventView::TransportInactive,
            InboundEvent::Read(m) => InboundEventView::Read(m@),
            InboundEvent::ReadException(e) => InboundEventView::ReadException(e@),
            InboundEvent::ReadEof => InboundEventView::ReadEof,
            InboundEvent::ReadTimeout(t) => InboundEventView::ReadTimeout(*t),
            InboundEvent::PollTimeout => InboundEventView::PollTimeout,
        }
    }
}

/// An event that travels from the tail of a pipeline toward its head.
pub enum OutboundEvent {
    Write(Message),
    WriteException(Error),
    Close,
}

/// The mathematical content of an [`OutboundEvent`].
pub enum OutboundEventView {
    Write(MessageView),
    WriteException(ErrorView),
    Close,
}

impl View for OutboundEvent {
    type V = OutboundEventView;

    open spec fn view(&self) -> OutboundEventView {
        match self {
            OutboundEvent::Write(m) => OutboundEventView::Write(m@),
            OutboundEvent::WriteException(e) => OutboundEventView::WriteException(e@),
            OutboundEvent::Close => OutboundEventView::Close,
        }
    }
}

/// Something a handler fired on its context: an event for the next link in
/// one of the two directions.
pub enum Emission {
    Inbound(InboundEvent),
    Outbound(OutboundEvent),
}

/// The mathematical content of an [`Emission`].
pub enum EmissionView {
    Inbound(InboundEventView),
    Outbound(OutboundEventView),
}

impl View for Emission {
    type V = EmissionView;

    open spec fn view(&self) -> EmissionView {
        match self {
            Emission::Inbound(e) => EmissionView::Inbound(e@),
            Emission::Outbound(e) => EmissionView::Outbound(e@),
        }
    }
}

/// The views of a sequence of emissions, in order.
pub open spec fn emission_views(s: Seq<Emission>) -> Seq<EmissionView> {
    s.map_values(|e: Emission| e@)
}

/// The views of a sequence of outbound events, in order.
pub open spec fn outbound_views(s: Seq<OutboundEvent>) -> Seq<OutboundEventView> {
    s.map_values(|e: OutboundEvent| e@)
}

} // verus!
