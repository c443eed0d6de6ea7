//! The handler that stands between a datagram socket and the rest of a pipeline.

use crate::channel::handler::{
    forwarded, forwarded_out, Handler, InboundHandler, InboundHandlerContext, OutboundHandler,
    OutboundHandlerContext,
};
use crate::channel::message::{
    BodyKind, EmissionView, InboundEventView, Message, MessageView, OutboundEventView,
};
use crate::error::{Error, ErrorKind, ErrorView};
use crate::transport::{Instant, TransportContext};
use vstd::prelude::*;
use vstd::string::StringExecFns;

verus! {

/// The error for a datagram that names no peer.
pub open spec fn not_connected() -> ErrorView {
    ErrorView { kind: ErrorKind::NotConnected, message: "Transport endpoint is not connected"@ }
}

/// The inbound half of [`AsyncTransportUdp`]: what the driver read travels on unchanged.
pub struct AsyncTransportUdpDecoder {}

/// The outbound half of [`AsyncTransportUdp`].  A datagram that names no peer is answered
/// with a write exception, whatever the state of the writer.  Otherwise, while
/// the writer is open, a write is passed on toward the outbound channel; once
/// it is closed, writes are dropped.  A close closes the writer and is passed
/// on, so that the channel closes too; closing again changes nothing more.
pub struct AsyncTransportUdpEncoder {
    pub writer_open: bool,
}

/// The first handler of a pipeline over a datagram socket.
pub struct AsyncTransportUdp {
    pub decoder: AsyncTransportUdpDecoder,
    pub encoder: AsyncTransportUdpEncoder,
}

impl AsyncTransportUdp {
    /// A handler whose writer is open.
    pub fn new() -> (h: Self)
        ensures
            h == (AsyncTransportUdp {
                decoder: AsyncTransportUdpDecoder {  },
                encoder: AsyncTransportUdpEncoder { writer_open: true },
            }),
    {
        AsyncTransportUdp {
            decoder: AsyncTransportUdpDecoder {  },
            encoder: AsyncTransportUdpEncoder { writer_open: true },
        }
    }
}

impl InboundHandler for AsyncTransportUdpDecoder {
    type State = AsyncTransportUdpDecoder;

    open spec fn state(&self) -> AsyncTransportUdpDecoder {
        *self
    }

    open spec fn reads(state: Self::State, kind: BodyKind) -> bool {
        kind == BodyKind::Bytes
    }

    open spec fn react(
        state: Self::State,
        transport: TransportContext,
        event: InboundEventView,
    ) -> (Self::State, Seq<EmissionView>) {
        (state, forwarded(event))
    }

    open spec fn poll(state: Self::State, transport: TransportContext, timeout: Instant) -> (
        Self::State,
        Seq<EmissionView>,
        Instant,
    ) {
        (state, forwarded(InboundEventView::PollTimeout), timeout)
    }

    fn accepts(&self, kind: BodyKind) -> (b: bool) {
        kind == BodyKind::Bytes
    }

    fn transport_active(&mut self, ctx: &mut InboundHandlerContext) {
        ctx.fire_transport_active();
    }

    fn transport_inactive(&mut self, ctx: &mut InboundHandlerContext) {
        ctx.fire_transport_inactive();
    }

    fn read(&mut self, ctx: &mut InboundHandlerContext, message: Message) {
        ctx.fire_read(message);
    }

    fn read_exception(&mut self, ctx: &mut InboundHandlerContext, error: Error) {
        ctx.fire_read_exception(error);
    }

    fn read_eof(&mut self, ctx: &mut InboundHandlerContext) {
        ctx.fire_read_eof();
    }

    fn read_timeout(&mut self, ctx: &mut InboundHandlerContext, timeout: Instant) {
        ctx.fire_read_timeout(timeout);
    }

    fn poll_timeout(&mut self, ctx: &mut InboundHandlerContext, timeout: &mut Instant) {
        ctx.fire_poll_timeout();
    }
}

impl OutboundHandler for AsyncTransportUdpEncoder {
    type State = AsyncTransportUdpEncoder;

    open spec fn state(&self) -> AsyncTransportUdpEncoder {
        *self
    }

    open spec fn writes(state: Self::State, kind: BodyKind) -> bool {
        kind == BodyKind::Bytes
    }

    open spec fn react(
        state: Self::State,
        transport: TransportContext,
        event: OutboundEventView,
    ) -> (Self::State, Seq<OutboundEventView>) {
        match event {
            OutboundEventView::Write(m) => {
                if m.transport.peer_addr is None {
                    (state, seq![OutboundEventView::WriteException(not_connected())])
                } else if state.writer_open {
                    (state, forwarded_out(event))
                } else {
                    (state, Seq::empty())
                }
            },
            OutboundEventView::WriteException(_) => (state, forwarded_out(event)),
            OutboundEventView::Close => (
                AsyncTransportUdpEncoder { writer_open: false },
                forwarded_out(event),
            ),
        }
    }

    fn accepts(&self, kind: BodyKind) -> (b: bool) {
        kind == BodyKind::Bytes
    }

    fn write(&mut self, ctx: &mut OutboundHandlerContext, message: Message) {
        if message.transport.peer_addr.is_none() {
            let err = Error::new(
                ErrorKind::NotConnected,
                String::from_str("Transport endpoint is not connected"),
            );
            ctx.fire_write_exception(err);
        } else if self.writer_open {
            ctx.fire_write(message);
        }
    }

    fn write_exception(&mut self, ctx: &mut OutboundHandlerContext, error: Error) {
        ctx.fire_write_exception(error);
    }

    fn close(&mut self, ctx: &mut OutboundHandlerContext) {
        self.writer_open = false;
        ctx.fire_close();
    }
}

impl Handler for AsyncTransportUdp {
    type In = AsyncTransportUdpDecoder;

    type Out = AsyncTransportUdpEncoder;

    open spec fn name(&self) -> Seq<char> {
        "AsyncTransportUdp"@
    }

    open spec fn halves(self) -> (Self::In, Self::Out) {
        (self.decoder, self.encoder)
    }

    fn id(&self) -> (s: String) {
        String::from_str("AsyncTransportUdp")
    }

    fn split(self) -> (r: (Self::In, Self::Out)) {
        (self.decoder, self.encoder)
    }
}

/// A datagram without a peer cannot be sent, and saying so is all that
/// happens: whatever its state, the outbound half answers the write with one
/// write exception of kind `NotConnected`, fires nothing else, and is left as
/// it was, so the pipeline goes on.
pub proof fn lemma_write_without_peer_is_refused(
    encoder: AsyncTransportUdpEncoder,
    transport: TransportContext,
    message: MessageView,
)
    requires
        message.transport.peer_addr is None,
    ensures
        AsyncTransportUdpEncoder::react(encoder, transport, OutboundEventView::Write(message)) == (
            encoder,
            seq![OutboundEventView::WriteException(not_connected())],
        ),
        not_connected().kind == ErrorKind::NotConnected,
{
}

/// Closing is idempotent.  A close closes the writer and is passed on; a
/// second close leaves the half as the first left it; and a half whose writer
/// is closed fires nothing for a write that names a peer.
pub proof fn lemma_close_is_idempotent(
    encoder: AsyncTransportUdpEncoder,
    transport: TransportContext,
    message: MessageView,
)
    requires
        message.transport.peer_addr is Some,
    ensures
        ({
            let closed = AsyncTransportUdpEncoder::react(
                encoder,
                transport,
                OutboundEventView::Close,
            ).0;
            &&& !closed.writer_open
            &&& AsyncTransportUdpEncoder::react(encoder, transport, OutboundEventView::Close).1
                == seq![OutboundEventView::Close]
            &&& AsyncTransportUdpEncoder::react(closed, transport, OutboundEventView::Close).0
                == closed
            &&& AsyncTransportUdpEncoder::react(
                closed,
                transport,
                OutboundEventView::Write(message),
            ) == (closed, Seq::<OutboundEventView>::empty())
        }),
{
}

} // verus!
