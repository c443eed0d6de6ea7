//! Cutting a stream of bytes into frames.

pub mod line_based_frame_decoder;
pub mod line_laws;

pub use line_based_frame_decoder::{LineBasedFrameDecoder, TerminatorType};

use crate::buf::contents;
use crate::channel::handler::{
    forwarded, forwarded_out, Handler, InboundHandler, InboundHandlerContext, OutboundHandler,
    OutboundHandlerContext,
};
use crate::channel::message::{
    Body, BodyKind, BodyView, EmissionView, InboundEventView, Message, MessageView,
    OutboundEventView,
};
use crate::error::{Error, ErrorView};
use crate::transport::{Instant, TransportContext};
use bytes::BytesMut;
use core::ops::Deref;
use vstd::prelude::*;
use vstd::slice::slice_to_vec;

verus! {

/// What one call of a decoder does.
pub struct Decoded<D> {
    /// The decoder afterwards.
    pub next: D,
    /// The buffer afterwards.
    pub rest: Seq<u8>,
    /// A frame, the wish for more bytes, or an error.
    pub outcome: Result<Option<Seq<u8>>, ErrorView>,
}

/// Cuts one frame at a time off the front of a buffer.
///
/// `decoded` says, as mathematics, what a call does; `decode` promises to do
/// exactly that.  A call that yields a frame must shorten the buffer, so that
/// decoding a buffer to exhaustion ends.
pub trait MessageDecoder: Sized {
    /// The decoder's name.  Unless an implementation says otherwise, nothing
    /// is known of it.
    open spec fn name(&self) -> Seq<char> {
        arbitrary()
    }

    /// What a call on the buffer `buf` does.  Unless an implementation says
    /// otherwise, it asks for more bytes and touches nothing.
    open spec fn decoded(&self, buf: Seq<u8>) -> Decoded<Self> {
        Decoded { next: *self, rest: buf, outcome: Ok(None) }
    }

    fn id(&self) -> (s: String)
        ensures
            s@ == self.name(),
    ;

    fn decode(&mut self, buf: &mut BytesMut) -> (r: Result<Option<BytesMut>, Error>)
        ensures
            *final(self) == old(self).decoded(contents(*old(buf))).next,
            contents(*final(buf)) == old(self).decoded(contents(*old(buf))).rest,
            match r {
                Ok(Some(frame)) => old(self).decoded(contents(*old(buf))).outcome == Ok::<
                    Option<Seq<u8>>,
                    ErrorView,
                >(Some(contents(frame))),
                Ok(None) => old(self).decoded(contents(*old(buf))).outcome == Ok::<
                    Option<Seq<u8>>,
                    ErrorView,
                >(None),
                Err(e) => old(self).decoded(contents(*old(buf))).outcome == Err::<
                    Option<Seq<u8>>,
                    ErrorView,
                >(e@),
            },
            r matches Ok(Some(_)) ==> contents(*final(buf)).len() < contents(*old(buf)).len(),
    ;
}

/// The event by which a frame cut from a message travels on: a read of the
/// frame, with the time and connection of the message it was cut from.
pub open spec fn frame_read(
    now: Instant,
    transport: TransportContext,
    frame: Seq<u8>,
) -> EmissionView {
    EmissionView::Inbound(
        InboundEventView::Read(MessageView { now, transport, body: BodyView::Bytes(frame) }),
    )
}

/// What decoding a buffer to exhaustion comes to.
pub struct Decoding<D> {
    /// The decoder afterwards.
    pub decoder: D,
    /// What is fired, in order.
    pub fired: Seq<EmissionView>,
    /// What is left in the buffer.
    pub rest: Seq<u8>,
}

/// Decoding `buf` to exhaustion with `d`.  Every frame is fired as a read.
/// Decoding stops when the decoder asks for more bytes, or at the first
/// error, which is fired as a read exception.  What the last call left in
/// the buffer is what is left.
pub open spec fn decode_all<D: MessageDecoder>(
    d: D,
    buf: Seq<u8>,
    now: Instant,
    transport: TransportContext,
) -> Decoding<D>
    decreases buf.len(),
{
    let r = d.decoded(buf);
    match r.outcome {
        Ok(Some(frame)) => {
            if r.rest.len() < buf.len() {
                let more = decode_all(r.next, r.rest, now, transport);
                Decoding {
                    decoder: more.decoder,
                    fired: seq![frame_read(now, transport, frame)] + more.fired,
                    rest: more.rest,
                }
            } else {
                Decoding {
                    decoder: r.next,
                    fired: seq![frame_read(now, transport, frame)],
                    rest: r.rest,
                }
            }
        },
        Ok(None) => Decoding { decoder: r.next, fired: Seq::empty(), rest: r.rest },
        Err(e) => Decoding {
            decoder: r.next,
            fired: seq![EmissionView::Inbound(InboundEventView::ReadException(e))],
            rest: r.rest,
        },
    }
}

/// The inbound half of [`ByteToMessageCodec`].  It keeps what the decoder
/// left of the bytes read so far, and decodes it again together with the
/// bytes of the next read.
pub struct ByteToMessageDecoder<D> {
    pub transport_active: bool,
    pub message_decoder: D,
    pub rest: Vec<u8>,
}

/// The state of a [`ByteToMessageDecoder`].
pub struct DecoderState<D> {
    /// Whether the transport is up.
    pub transport_active: bool,
    /// The decoder.
    pub message_decoder: D,
    /// The bytes that were read and are not yet part of a frame.
    pub rest: Seq<u8>,
}

/// The outbound half of [`ByteToMessageCodec`]: it passes everything on.
pub struct ByteToMessageEncoder {}

/// A handler that cuts inbound bytes into frames with a [`MessageDecoder`]
/// and leaves outbound traffic alone.
pub struct ByteToMessageCodec<D> {
    pub decoder: ByteToMessageDecoder<D>,
    pub encoder: ByteToMessageEncoder,
}

impl<D: MessageDecoder> ByteToMessageCodec<D> {
    /// A codec around `message_decoder`.  It holds no bytes, and decodes
    /// nothing until it has been told that the transport is up.
    pub fn new(message_decoder: D) -> (c: Self)
        ensures
            c.decoder.state() == (DecoderState {
                transport_active: false,
                message_decoder,
                rest: Seq::empty(),
            }),
    {
        ByteToMessageCodec {
            decoder: ByteToMessageDecoder {
                transport_active: false,
                message_decoder,
                rest: Vec::new(),
            },
            encoder: ByteToMessageEncoder {  },
        }
    }
}

impl<D: MessageDecoder> InboundHandler for ByteToMessageDecoder<D> {
    type State = DecoderState<D>;

    open spec fn state(&self) -> DecoderState<D> {
        DecoderState {
            transport_active: self.transport_active,
            message_decoder: self.message_decoder,
            rest: self.rest@,
        }
    }

    open spec fn reads(state: Self::State, kind: BodyKind) -> bool {
        kind == BodyKind::Bytes
    }

    /// While the transport is up, a read of bytes is appended to what was
    /// left of earlier reads, and the whole is decoded to exhaustion: the
    /// frames are fired, and what decoding left is kept for the next read.
    /// While the transport is down, a read is dropped.
    open spec fn react(
        state: Self::State,
        transport: TransportContext,
        event: InboundEventView,
    ) -> (Self::State, Seq<EmissionView>) {
        match event {
            InboundEventView::TransportActive => (
                DecoderState { transport_active: true, ..state },
                forwarded(event),
            ),
            InboundEventView::TransportInactive => (
                DecoderState { transport_active: false, ..state },
                forwarded(event),
            ),
            InboundEventView::Read(m) => match m.body {
                BodyView::Bytes(b) => if state.transport_active {
                    let r = decode_all(state.message_decoder, state.rest + b, m.now, m.transport);
                    (
                        DecoderState {
                            transport_active: true,
                            message_decoder: r.decoder,
                            rest: r.rest,
                        },
                        r.fired,
                    )
                } else {
                    (state, Seq::empty())
                },
                BodyView::Text(_) => (state, Seq::empty()),
            },
            _ => (state, forwarded(event)),
        }
    }

    open spec fn poll(state: Self::State, transport: TransportContext, timeout: Instant) -> (
        Self::State,
        Seq<EmissionView>,
        Instant,
    ) {
        (state, forwarded(InboundEventView::PollTimeout), timeout)
    }

    fn accepts(&self, kind: BodyKind) -> (b: bool) {
        kind == BodyKind::Bytes
    }

    fn transport_active(&mut self, ctx: &mut InboundHandlerContext) {
        self.transport_active = true;
        ctx.fire_transport_active();
    }

    fn transport_inactive(&mut self, ctx: &mut InboundHandlerContext) {
        self.transport_active = false;
        ctx.fire_transport_inactive();
    }

    fn read(&mut self, ctx: &mut InboundHandlerContext, message: Message) {
        let Message { now, transport, body } = message;
        let bytes = match body {
            Body::Bytes(b) => b,
            Body::Text(_) => {
                return ;
            },
        };
        if !self.transport_active {
            return ;
        }
        let mut buf = BytesMut::from(self.rest.as_slice());
        buf.extend_from_slice(BytesMut::deref(&bytes));
        let ghost target = decode_all(old(self).message_decoder, contents(buf), now, transport);
        let ghost mut done: Seq<EmissionView> = Seq::empty();
        loop
            invariant_except_break
                ctx.pending() == old(ctx).pending() + done,
                target.decoder == decode_all(
                    self.message_decoder,
                    contents(buf),
                    now,
                    transport,
                ).decoder,
                target.rest == decode_all(self.message_decoder, contents(buf), now, transport).rest,
                target.fired == done + decode_all(
                    self.message_decoder,
                    contents(buf),
                    now,
                    transport,
                ).fired,
            invariant
                self.transport_active,
                ctx.same_link(old(ctx)),
            ensures
                self.transport_active,
                ctx.same_link(old(ctx)),
                self.message_decoder == target.decoder,
                contents(buf) == target.rest,
                ctx.pending() == old(ctx).pending() + target.fired,
            decreases contents(buf).len(),
        {
            match self.message_decoder.decode(&mut buf) {
                Ok(Some(frame)) => {
                    ctx.fire_read(Message { now, transport, body: Body::Bytes(frame) });
                    proof {
                        let here = seq![frame_read(now, transport, contents(frame))];
                        assert(old(ctx).pending() + done + here =~= old(ctx).pending() + (done
                            + here));
                        done = done + here;
                    }
                },
                Ok(None) => {
                    assert(done + Seq::<EmissionView>::empty() =~= done);
                    break ;
                },
                Err(err) => {
                    ctx.fire_read_exception(err);
                    proof {
                        let here = seq![
                            EmissionView::Inbound(InboundEventView::ReadException(err@)),
                        ];
                        assert(old(ctx).pending() + done + here =~= old(ctx).pending() + (done
                            + here));
                    }
                    break ;
                },
            }
        }
        self.rest = slice_to_vec(BytesMut::deref(&buf));
    }

    fn read_exception(&mut self, ctx: &mut InboundHandlerContext, error: Error) {
        ctx.fire_read_exception(error);
    }

    fn read_eof(&mut self, ctx: &mut InboundHandlerContext) {
        ctx.fire_read_eof();
    }

    fn read_timeout(&mut self, ctx: &mut InboundHandlerContext, timeout: Instant) {
        ctx.fire_read_timeout(timeout);
    }

    fn poll_timeout(&mut self, ctx: &mut InboundHandlerContext, timeout: &mut Instant) {
        ctx.fire_poll_timeout();
    }
}

impl OutboundHandler for ByteToMessageEncoder {
    type State = ByteToMessageEncoder;

    open spec fn state(&self) -> ByteToMessageEncoder {
        *self
    }

    open spec fn writes(state: Self::State, kind: BodyKind) -> bool {
        kind == BodyKind::Bytes
    }

    open spec fn react(
        state: Self::State,
        transport: TransportContext,
        event: OutboundEventView,
    ) -> (Self::State, Seq<OutboundEventView>) {
        (state, forwarded_out(event))
    }

    fn accepts(&self, kind: BodyKind) -> (b: bool) {
        kind == BodyKind::Bytes
    }

    fn write(&mut self, ctx: &mut OutboundHandlerContext, message: Message) {
        ctx.fire_write(message);
    }

    fn write_exception(&mut self, ctx: &mut OutboundHandlerContext, error: Error) {
        ctx.fire_write_exception(error);
    }

    fn close(&mut self, ctx: &mut OutboundHandlerContext) {
        ctx.fire_close();
    }
}

impl<D: MessageDecoder> Handler for ByteToMessageCodec<D> {
    type In = ByteToMessageDecoder<D>;

    type Out = ByteToMessageEncoder;

    open spec fn name(&self) -> Seq<char> {
        self.decoder.message_decoder.name()
    }

    open spec fn halves(self) -> (Self::In, Self::Out) {
        (self.decoder, self.encoder)
    }

    fn id(&self) -> (s: String) {
        self.decoder.message_decoder.id()
    }

    fn split(self) -> (r: (Self::In, Self::Out)) {
        (self.decoder, self.encoder)
    }
}

} // verus!
