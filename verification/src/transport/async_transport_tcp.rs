//! The handler that stands between a byte stream and the rest of a pipeline.

use crate::channel::handler::{
    forwarded, forwarded_out, Handler, InboundHandler, InboundHandlerContext, OutboundHandler,
    OutboundHandlerContext,
};
use crate::channel::message::{
    BodyKind, EmissionView, InboundEventView, Message, MessageView, OutboundEventView,
};
use crate::error::Error;
use crate::transport::{Instant, TransportContext};
use vstd::prelude::*;
use vstd::string::StringExecFns;

verus! {

/// The inbound half of [`AsyncTransportTcp`]: what the driver read travels on unchanged.
pub struct AsyncTransportTcpDecoder {}

/// The outbound half of [`AsyncTransportTcp`].  While the writer is open, a write is passed
/// on toward the outbound channel; once it is closed, writes are dropped.  A
/// close closes the writer and is passed on, so that the channel closes too;
/// closing again changes nothing more.
pub struct AsyncTransportTcpEncoder {
    pub writer_open: bool,
}

/// The first handler of a pipeline over a byte stream.
pub struct AsyncTransportTcp {
    pub decoder: AsyncTransportTcpDecoder,
    pub encoder: AsyncTransportTcpEncoder,
}

impl AsyncTransportTcp {
    /// A handler whose writer is open.
    pub fn new() -> (h: Self)
        ensures
            h == (AsyncTransportTcp {
                decoder: AsyncTransportTcpDecoder {  },
                encoder: AsyncTransportTcpEncoder { writer_open: true },
            }),
    {
        AsyncTransportTcp {
            decoder: AsyncTransportTcpDecoder {  },
            encoder: AsyncTransportTcpEncoder { writer_open: true },
        }
    }
}

impl InboundHandler for AsyncTransportTcpDecoder {
    type State = AsyncTransportTcpDecoder;

    open spec fn state(&self) -> AsyncTransportTcpDecoder {
        *self
    }

    open spec fn reads(state: Self::State, kind: BodyKind) -> bool {
        kind == BodyKind::Bytes
    }

    open spec fn react(
        state: Self::State,
        transport: TransportContext,
        event: InboundEventView,
    ) -> (Self::State, Seq<EmissionView>) {
        (state, forwarded(event))
    }

    open spec fn poll(state: Self::State, transport: TransportContext, timeout: Instant) -> (
        Self::State,
        Seq<EmissionView>,
        Instant,
    ) {
        (state, forwarded(InboundEventView::PollTimeout), timeout)
    }

    fn accepts(&self, kind: BodyKind) -> (b: bool) {
        kind == BodyKind::Bytes
    }

    fn transport_active(&mut self, ctx: &mut InboundHandlerContext) {
        ctx.fire_transport_active();
    }

    fn transport_inactive(&mut self, ctx: &mut InboundHandlerContext) {
        ctx.fire_transport_inactive();
    }

    fn read(&mut self, ctx: &mut InboundHandlerContext, message: Message) {
        ctx.fire_read(message);
    }

    fn read_exception(&mut self, ctx: &mut InboundHandlerContext, error: Error) {
        ctx.fire_read_exception(error);
    }

    fn read_eof(&mut self, ctx: &mut InboundHandlerContext) {
        ctx.fire_read_eof();
    }

    fn read_timeout(&mut self, ctx: &mut InboundHandlerContext, timeout: Instant) {
        ctx.fire_read_timeout(timeout);
    }

    fn poll_timeout(&mut self, ctx: &mut InboundHandlerContext, timeout: &mut Instant) {
        ctx.fire_poll_timeout();
    }
}

impl OutboundHandler for AsyncTransportTcpEncoder {
    type State = AsyncTransportTcpEncoder;

    open spec fn state(&self) -> AsyncTransportTcpEncoder {
        *self
    }

    open spec fn writes(state: Self::State, kind: BodyKind) -> bool {
        kind == BodyKind::Bytes
    }

    open spec fn react(
        state: Self::State,
        transport: TransportContext,
        event: OutboundEventView,
    ) -> (Self::State, Seq<OutboundEventView>) {
        match event {
            OutboundEventView::Write(m) => {
                if state.writer_open {
                    (state, forwarded_out(event))
                } else {
                    (state, Seq::empty())
                }
            },
            OutboundEventView::WriteException(_) => (state, forwarded_out(event)),
            OutboundEventView::Close => (
                AsyncTransportTcpEncoder { writer_open: false },
                forwarded_out(event),
            ),
        }
    }

    fn accepts(&self, kind: BodyKind) -> (b: bool) {
        kind == BodyKind::Bytes
    }

    fn write(&mut self, ctx: &mut OutboundHandlerContext, message: Message) {
        if self.writer_open {
            ctx.fire_write(message);
        }
    }

    fn write_exception(&mut self, ctx: &mut OutboundHandlerContext, error: Error) {
        ctx.fire_write_exception(error);
    }

    fn close(&mut self, ctx: &mut OutboundHandlerContext) {
        self.writer_open = false;
        ctx.fire_close();
    }
}

impl Handler for AsyncTransportTcp {
    type In = AsyncTransportTcpDecoder;

    type Out = AsyncTransportTcpEncoder;

    open spec fn name(&self) -> Seq<char> {
        "AsyncTransportTcp"@
    }

    open spec fn halves(self) -> (Self::In, Self::Out) {
        (self.decoder, self.encoder)
    }

    fn id(&self) -> (s: String) {
        String::from_str("AsyncTransportTcp")
    }

    fn split(self) -> (r: (Self::In, Self::Out)) {
        (self.decoder, self.encoder)
    }
}

/// Closing is idempotent.  A close closes the writer and is passed on; a
/// second close leaves the half as the first left it; and a half whose writer
/// is closed fires nothing for a write.
pub proof fn lemma_close_is_idempotent(
    encoder: AsyncTransportTcpEncoder,
    transport: TransportContext,
    message: MessageView,
)
    ensures
        ({
            let closed = AsyncTransportTcpEncoder::react(
                encoder,
                transport,
                OutboundEventView::Close,
            ).0;
            &&& !closed.writer_open
            &&& AsyncTransportTcpEncoder::react(encoder, transport, OutboundEventView::Close).1
                == seq![OutboundEventView::Close]
            &&& AsyncTransportTcpEncoder::react(closed, transport, OutboundEventView::Close).0
                == closed
            &&& AsyncTransportTcpEncoder::react(
                closed,
                transport,
                OutboundEventView::Write(message),
            ) == (closed, Seq::<OutboundEventView>::empty())
        }),
{
}

} // verus!
