//! A stack of the handlers that come with the library, with a place for the
//! application's own.
//!
//! A [`Pipeline`](crate::channel::Pipeline) holds halves of one type.  The
//! types here are that one type for a pipeline that mixes the built-in
//! handlers with a handler of the application: a sum of their halves, each
//! event handed to the half that is there.

use crate::channel::handler::{
    Handler, InboundHandler, InboundHandlerContext, OutboundHandler, OutboundHandlerContext,
};
use crate::channel::message::{
    BodyKind, EmissionView, InboundEventView, Message, OutboundEventView,
};
use crate::codec::byte_to_message_decoder::{
    ByteToMessageCodec, ByteToMessageDecoder, ByteToMessageEncoder, DecoderState, MessageDecoder,
};
use crate::codec::string_codec::{StringCodec, StringDecoder, StringEncoder};
use crate::error::Error;
use crate::transport::async_transport_tcp::{
    AsyncTransportTcp, AsyncTransportTcpDecoder, AsyncTransportTcpEncoder,
};
use crate::transport::async_transport_udp::{
    AsyncTransportUdp, AsyncTransportUdpDecoder, AsyncTransportUdpEncoder,
};
use crate::transport::{Instant, TransportContext};
use vstd::prelude::*;

verus! {

/// The inbound half of one of the built-in handlers, with a frame decoder of
/// type `D`, or of the application's handler, of type `U`.
pub enum InboundStage<D, U> {
    Tcp(AsyncTransportTcpDecoder),
    Udp(AsyncTransportUdpDecoder),
    Codec(ByteToMessageDecoder<D>),
    Text(StringDecoder),
    User(U),
}

/// The state of an [`InboundStage`]: the state of the half that is there.
pub enum InboundStageState<D: MessageDecoder, U: InboundHandler> {
    Tcp(AsyncTransportTcpDecoder),
    Udp(AsyncTransportUdpDecoder),
    Codec(DecoderState<D>),
    Text(StringDecoder),
    User(U::State),
}

/// The outbound half of one of the built-in handlers, or of the
/// application's handler, of type `U`.
pub enum OutboundStage<U> {
    Tcp(AsyncTransportTcpEncoder),
    Udp(AsyncTransportUdpEncoder),
    Codec(ByteToMessageEncoder),
    Text(StringEncoder),
    User(U),
}

/// The state of an [`OutboundStage`]: the state of the half that is there.
pub enum OutboundStageState<U: OutboundHandler> {
    Tcp(AsyncTransportTcpEncoder),
    Udp(AsyncTransportUdpEncoder),
    Codec(ByteToMessageEncoder),
    Text(StringEncoder),
    User(U::State),
}

/// One of the built-in handlers, with a frame decoder of type `D`, or the
/// application's handler, of type `H`.
pub enum Stage<D, H> {
    Tcp(AsyncTransportTcp),
    Udp(AsyncTransportUdp),
    Codec(ByteToMessageCodec<D>),
    Text(StringCodec),
    User(H),
}

impl<D: MessageDecoder, U: InboundHandler> InboundHandler for InboundStage<D, U> {
    type State = InboundStageState<D, U>;

    open spec fn state(&self) -> InboundStageState<D, U> {
        match self {
            InboundStage::Tcp(h) => InboundStageState::Tcp(h.state()),
            InboundStage::Udp(h) => InboundStageState::Udp(h.state()),
            InboundStage::Codec(h) => InboundStageState::Codec(h.state()),
            InboundStage::Text(h) => InboundStageState::Text(h.state()),
            InboundStage::User(h) => InboundStageState::User(h.state()),
        }
    }

    open spec fn reads(state: Self::State, kind: BodyKind) -> bool {
        match state {
            InboundStageState::Tcp(s) => AsyncTransportTcpDecoder::reads(s, kind),
            InboundStageState::Udp(s) => AsyncTransportUdpDecoder::reads(s, kind),
            InboundStageState::Codec(s) => ByteToMessageDecoder::<D>::reads(s, kind),
            InboundStageState::Text(s) => StringDecoder::reads(s, kind),
            InboundStageState::User(s) => U::reads(s, kind),
        }
    }

    /// The half that is there reacts, and stays where it is.
    open spec fn react(
        state: Self::State,
        transport: TransportContext,
        event: InboundEventView,
    ) -> (Self::State, Seq<EmissionView>) {
        match state {
            InboundStageState::Tcp(s) => {
                let r = AsyncTransportTcpDecoder::react(s, transport, event);
                (InboundStageState::Tcp(r.0), r.1)
            },
            InboundStageState::Udp(s) => {
                let r = AsyncTransportUdpDecoder::react(s, transport, event);
                (InboundStageState::Udp(r.0), r.1)
            },
            InboundStageState::Codec(s) => {
                let r = ByteToMessageDecoder::<D>::react(s, transport, event);
                (InboundStageState::Codec(r.0), r.1)
            },
            InboundStageState::Text(s) => {
                let r = StringDecoder::react(s, transport, event);
                (InboundStageState::Text(r.0), r.1)
            },
            InboundStageState::User(s) => {
                let r = U::react(s, transport, event);
                (InboundStageState::User(r.0), r.1)
            },
        }
    }

    /// The half that is there is polled, and stays where it is.
    open spec fn poll(state: Self::State, transport: TransportContext, timeout: Instant) -> (
        Self::State,
        Seq<EmissionView>,
        Instant,
    ) {
        match state {
            InboundStageState::Tcp(s) => {
                let r = AsyncTransportTcpDecoder::poll(s, transport, timeout);
                (InboundStageState::Tcp(r.0), r.1, r.2)
            },
            InboundStageState::Udp(s) => {
                let r = AsyncTransportUdpDecoder::poll(s, transport, timeout);
                (InboundStageState::Udp(r.0), r.1, r.2)
            },
            InboundStageState::Codec(s) => {
                let r = ByteToMessageDecoder::<D>::poll(s, transport, timeout);
                (InboundStageState::Codec(r.0), r.1, r.2)
            },
            InboundStageState::Text(s) => {
                let r = StringDecoder::poll(s, transport, timeout);
                (InboundStageState::Text(r.0), r.1, r.2)
            },
            InboundStageState::User(s) => {
                let r = U::poll(s, transport, timeout);
                (InboundStageState::User(r.0), r.1, r.2)
            },
        }
    }

    fn accepts(&self, kind: BodyKind) -> (b: bool) {
        match self {
            InboundStage::Tcp(h) => h.accepts(kind),
            InboundStage::Udp(h) => h.accepts(kind),
            InboundStage::Codec(h) => h.accepts(kind),
            InboundStage::Text(h) => h.accepts(kind),
            InboundStage::User(h) => h.accepts(kind),
        }
    }

    fn transport_active(&mut self, ctx: &mut InboundHandlerContext) {
        match self {
            InboundStage::Tcp(h) => h.transport_active(ctx),
            InboundStage::Udp(h) => h.transport_active(ctx),
            InboundStage::Codec(h) => h.transport_active(ctx),
            InboundStage::Text(h) => h.transport_active(ctx),
            InboundStage::User(h) => h.transport_active(ctx),
        }
    }

    fn transport_inactive(&mut self, ctx: &mut InboundHandlerContext) {
        match self {
            InboundStage::Tcp(h) => h.transport_inactive(ctx),
            InboundStage::Udp(h) => h.transport_inactive(ctx),
            InboundStage::Codec(h) => h.transport_inactive(ctx),
            InboundStage::Text(h) => h.transport_inactive(ctx),
            InboundStage::User(h) => h.transport_inactive(ctx),
        }
    }

    fn read(&mut self, ctx: &mut InboundHandlerContext, message: Message) {
        match self {
            InboundStage::Tcp(h) => h.read(ctx, message),
            InboundStage::Udp(h) => h.read(ctx, message),
            InboundStage::Codec(h) => h.read(ctx, message),
            InboundStage::Text(h) => h.read(ctx, message),
            InboundStage::User(h) => h.read(ctx, message),
        }
    }

    fn read_exception(&mut self, ctx: &mut InboundHandlerContext, error: Error) {
        match self {
            InboundStage::Tcp(h) => h.read_exception(ctx, error),
            InboundStage::Udp(h) => h.read_exception(ctx, error),
            InboundStage::Codec(h) => h.read_exception(ctx, error),
            InboundStage::Text(h) => h.read_exception(ctx, error),
            InboundStage::User(h) => h.read_exception(ctx, error),
        }
    }

    fn read_eof(&mut self, ctx: &mut InboundHandlerContext) {
        match self {
            InboundStage::Tcp(h) => h.read_eof(ctx),
            InboundStage::Udp(h) => h.read_eof(ctx),
            InboundStage::Codec(h) => h.read_eof(ctx),
            InboundStage::Text(h) => h.read_eof(ctx),
            InboundStage::User(h) => h.read_eof(ctx),
        }
    }

    fn read_timeout(&mut self, ctx: &mut InboundHandlerContext, timeout: Instant) {
        match self {
            InboundStage::Tcp(h) => h.read_timeout(ctx, timeout),
            InboundStage::Udp(h) => h.read_timeout(ctx, timeout),
            InboundStage::Codec(h) => h.read_timeout(ctx, timeout),
            InboundStage::Text(h) => h.read_timeout(ctx, timeout),
            InboundStage::User(h) => h.read_timeout(ctx, timeout),
        }
    }

    fn poll_timeout(&mut self, ctx: &mut InboundHandlerContext, timeout: &mut Instant) {
        match self {
            InboundStage::Tcp(h) => h.poll_timeout(ctx, timeout),
            InboundStage::Udp(h) => h.poll_timeout(ctx, timeout),
            InboundStage::Codec(h) => h.poll_timeout(ctx, timeout),
            InboundStage::Text(h) => h.poll_timeout(ctx, timeout),
            InboundStage::User(h) => h.poll_timeout(ctx, timeout),
        }
    }
}

impl<U: OutboundHandler> OutboundHandler for OutboundStage<U> {
    type State = OutboundStageState<U>;

    open spec fn state(&self) -> OutboundStageState<U> {
        match self {
            OutboundStage::Tcp(h) => OutboundStageState::Tcp(h.state()),
            OutboundStage::Udp(h) => OutboundStageState::Udp(h.state()),
            OutboundStage::Codec(h) => OutboundStageState::Codec(h.state()),
            OutboundStage::Text(h) => OutboundStageState::Text(h.state()),
            OutboundStage::User(h) => OutboundStageState::User(h.state()),
        }
    }

    open spec fn writes(state: Self::State, kind: BodyKind) -> bool {
        match state {
            OutboundStageState::Tcp(s) => AsyncTransportTcpEncoder::writes(s, kind),
            OutboundStageState::Udp(s) => AsyncTransportUdpEncoder::writes(s, kind),
            OutboundStageState::Codec(s) => ByteToMessageEncoder::writes(s, kind),
            OutboundStageState::Text(s) => StringEncoder::writes(s, kind),
            OutboundStageState::User(s) => U::writes(s, kind),
        }
    }

    /// The half that is there reacts, and stays where it is.
    open spec fn react(
        state: Self::State,
        transport: TransportContext,
        event: OutboundEventView,
    ) -> (Self::State, Seq<OutboundEventView>) {
        match state {
            OutboundStageState::Tcp(s) => {
                let r = AsyncTransportTcpEncoder::react(s, transport, event);
                (OutboundStageState::Tcp(r.0), r.1)
            },
            OutboundStageState::Udp(s) => {
                let r = AsyncTransportUdpEncoder::react(s, transport, event);
                (OutboundStageState::Udp(r.0), r.1)
            },
            OutboundStageState::Codec(s) => {
                let r = ByteToMessageEncoder::react(s, transport, event);
                (OutboundStageState::Codec(r.0), r.1)
            },
            OutboundStageState::Text(s) => {
                let r = StringEncoder::react(s, transport, event);
                (OutboundStageState::Text(r.0), r.1)
            },
            OutboundStageState::User(s) => {
                let r = U::react(s, transport, event);
                (OutboundStageState::User(r.0), r.1)
            },
        }
    }

    fn accepts(&self, kind: BodyKind) -> (b: bool) {
        match self {
            OutboundStage::Tcp(h) => h.accepts(kind),
            OutboundStage::Udp(h) => h.accepts(kind),
            OutboundStage::Codec(h) => h.accepts(kind),
            OutboundStage::Text(h) => h.accepts(kind),
            OutboundStage::User(h) => h.accepts(kind),
        }
    }

    fn write(&mut self, ctx: &mut OutboundHandlerContext, message: Message) {
        match self {
            OutboundStage::Tcp(h) => h.write(ctx, message),
            OutboundStage::Udp(h) => h.write(ctx, message),
            OutboundStage::Codec(h) => h.write(ctx, message),
            OutboundStage::Text(h) => h.write(ctx, message),
            OutboundStage::User(h) => h.write(ctx, message),
        }
    }

    fn write_exception(&mut self, ctx: &mut OutboundHandlerContext, error: Error) {
        match self {
            OutboundStage::Tcp(h) => h.write_exception(ctx, error),
            OutboundStage::Udp(h) => h.write_exception(ctx, error),
            OutboundStage::Codec(h) => h.write_exception(ctx, error),
            OutboundStage::Text(h) => h.write_exception(ctx, error),
            OutboundStage::User(h) => h.write_exception(ctx, error),
        }
    }

    fn close(&mut self, ctx: &mut OutboundHandlerContext) {
        match self {
            OutboundStage::Tcp(h) => h.close(ctx),
            OutboundStage::Udp(h) => h.close(ctx),
            OutboundStage::Codec(h) => h.close(ctx),
            OutboundStage::Text(h) => h.close(ctx),
            OutboundStage::User(h) => h.close(ctx),
        }
    }
}

impl<D: MessageDecoder, H: Handler> Handler for Stage<D, H> {
    type In = InboundStage<D, H::In>;

    type Out = OutboundStage<H::Out>;

    open spec fn name(&self) -> Seq<char> {
        match self {
            Stage::Tcp(h) => h.name(),
            Stage::Udp(h) => h.name(),
            Stage::Codec(h) => h.name(),
            Stage::Text(h) => h.name(),
            Stage::User(h) => h.name(),
        }
    }

    open spec fn halves(self) -> (Self::In, Self::Out) {
        match self {
            Stage::Tcp(h) => (InboundStage::Tcp(h.halves().0), OutboundStage::Tcp(h.halves().1)),
            Stage::Udp(h) => (InboundStage::Udp(h.halves().0), OutboundStage::Udp(h.halves().1)),
            Stage::Codec(h) => (
                InboundStage::Codec(h.halves().0),
                OutboundStage::Codec(h.halves().1),
            ),
            Stage::Text(h) => (InboundStage::Text(h.halves().0), OutboundStage::Text(h.halves().1)),
            Stage::User(h) => (InboundStage::User(h.halves().0), OutboundStage::User(h.halves().1)),
        }
    }

    fn id(&self) -> (s: String) {
        match self {
            Stage::Tcp(h) => h.id(),
            Stage::Udp(h) => h.id(),
            Stage::Codec(h) => h.id(),
            Stage::Text(h) => h.id(),
            Stage::User(h) => h.id(),
        }
    }

    fn split(self) -> (r: (Self::In, Self::Out)) {
        match self {
            Stage::Tcp(h) => {
                let (i, o) = h.split();
                (InboundStage::Tcp(i), OutboundStage::Tcp(o))
            },
            Stage::Udp(h) => {
                let (i, o) = h.split();
                (InboundStage::Udp(i), OutboundStage::Udp(o))
            },
            Stage::Codec(h) => {
                let (i, o) = h.split();
                (InboundStage::Codec(i), OutboundStage::Codec(o))
            },
            Stage::Text(h) => {
                let (i, o) = h.split();
                (InboundStage::Text(i), OutboundStage::Text(o))
            },
            Stage::User(h) => {
                let (i, o) = h.split();
                (InboundStage::User(i), OutboundStage::User(o))
            },
        }
    }
}

} // verus!
