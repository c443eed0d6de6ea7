//! The handler that turns frames of bytes into text and text into bytes.

use crate::channel::handler::{
    forwarded, forwarded_out, Handler, InboundHandler, InboundHandlerContext, OutboundHandler,
    OutboundHandlerContext,
};
use crate::channel::message::{
    Body, BodyKind, BodyView, EmissionView, InboundEventView, Message, MessageView,
    OutboundEventView,
};
use crate::error::{Error, ErrorKind, ErrorView};
use crate::transport::{Instant, TransportContext};
use bytes::BytesMut;
use core::ops::Deref;
use vstd::prelude::*;
use vstd::string::StringExecFns;
use vstd::utf8::{decode_utf8, encode_utf8, valid_utf8};

verus! {

/// The error for a frame that is not UTF-8.
pub open spec fn invalid_utf8() -> ErrorView {
    ErrorView { kind: ErrorKind::InvalidData, message: "invalid utf-8 sequence"@ }
}

/// `core::str::from_utf8`.  The standard library accepts exactly the
/// well-formed UTF-8 sequences, and the text it returns is the one those bytes
/// encode.  What was wrong with a rejected sequence is not reported.
#[verifier::external_body]
fn str_from_utf8(bytes: &[u8]) -> (r: Option<&str>)
    ensures
        r is Some <==> valid_utf8(bytes@),
        r matches Some(s) ==> s@ == decode_utf8(bytes@) && encode_utf8(s@) == bytes@,
{
    match core::str::from_utf8(bytes) {
        Ok(s) => Some(s),
        Err(_) => None,
    }
}

/// The inbound half of [`StringCodec`]: bytes become text.
pub struct StringDecoder {}

/// The outbound half of [`StringCodec`]: text becomes bytes.
pub struct StringEncoder {}

/// A handler that reads frames of bytes as UTF-8 text and writes text as its
/// UTF-8 bytes.  Nothing is replaced or repaired: a frame that is not
/// well-formed UTF-8 is answered with a read exception.
pub struct StringCodec {
    pub decoder: StringDecoder,
    pub encoder: StringEncoder,
}

impl StringCodec {
    pub fn new() -> (c: Self)
        ensures
            c == (StringCodec { decoder: StringDecoder {  }, encoder: StringEncoder {  } }),
    {
        StringCodec { decoder: StringDecoder {  }, encoder: StringEncoder {  } }
    }
}

impl InboundHandler for StringDecoder {
    type State = StringDecoder;

    open spec fn state(&self) -> StringDecoder {
        *self
    }

    open spec fn reads(state: Self::State, kind: BodyKind) -> bool {
        kind == BodyKind::Bytes
    }

    open spec fn react(
        state: Self::State,
        transport: TransportContext,
        event: InboundEventView,
    ) -> (Self::State, Seq<EmissionView>) {
        match event {
            InboundEventView::Read(m) => match m.body {
                BodyView::Bytes(b) => if valid_utf8(b) {
                    (
                        state,
                        forwarded(
                            InboundEventView::Read(
                                MessageView { body: BodyView::Text(decode_utf8(b)), ..m },
                            ),
                        ),
                    )
                } else {
                    (state, forwarded(InboundEventView::ReadException(invalid_utf8())))
                },
                BodyView::Text(_) => (state, Seq::empty()),
            },
            _ => (state, forwarded(event)),
        }
    }

    open spec fn poll(state: Self::State, transport: TransportContext, timeout: Instant) -> (
        Self::State,
        Seq<EmissionView>,
        Instant,
    ) {
        (state, forwarded(InboundEventView::PollTimeout), timeout)
    }

    fn accepts(&self, kind: BodyKind) -> (b: bool) {
        kind == BodyKind::Bytes
    }

    fn transport_active(&mut self, ctx: &mut InboundHandlerContext) {
        ctx.fire_transport_active();
    }

    fn transport_inactive(&mut self, ctx: &mut InboundHandlerContext) {
        ctx.fire_transport_inactive();
    }

    fn read(&mut self, ctx: &mut InboundHandlerContext, message: Message) {
        let Message { now, transport, body } = message;
        match body {
            Body::Bytes(b) => {
                match str_from_utf8(BytesMut::deref(&b)) {
                    Some(text) => {
                        ctx.fire_read(
                            Message { now, transport, body: Body::Text(text.to_owned()) },
                        );
                    },
                    None => {
                        ctx.fire_read_exception(
                            Error::new(
                                ErrorKind::InvalidData,
                                String::from_str("invalid utf-8 sequence"),
                            ),
                        );
                    },
                }
            },
            Body::Text(_) => {},
        }
    }

    fn read_exception(&mut self, ctx: &mut InboundHandlerContext, error: Error) {
        ctx.fire_read_exception(error);
    }

    fn read_eof(&mut self, ctx: &mut InboundHandlerContext) {
        ctx.fire_read_eof();
    }

    fn read_timeout(&mut self, ctx: &mut InboundHandlerContext, timeout: Instant) {
        ctx.fire_read_timeout(timeout);
    }

    fn poll_timeout(&mut self, ctx: &mut InboundHandlerContext, timeout: &mut Instant) {
        ctx.fire_poll_timeout();
    }
}

impl OutboundHandler for StringEncoder {
    type State = StringEncoder;

    open spec fn state(&self) -> StringEncoder {
        *self
    }

    open spec fn writes(state: Self::State, kind: BodyKind) -> bool {
        kind == BodyKind::Text
    }

    open spec fn react(
        state: Self::State,
        transport: TransportContext,
        event: OutboundEventView,
    ) -> (Self::State, Seq<OutboundEventView>) {
        match event {
            OutboundEventView::Write(m) => match m.body {
                BodyView::Text(s) => (
                    state,
                    forwarded_out(
                        OutboundEventView::Write(
                            MessageView { body: BodyView::Bytes(encode_utf8(s)), ..m },
                        ),
                    ),
                ),
                BodyView::Bytes(_) => (state, Seq::empty()),
            },
            _ => (state, forwarded_out(event)),
        }
    }

    fn accepts(&self, kind: BodyKind) -> (b: bool) {
        kind == BodyKind::Text
    }

    fn write(&mut self, ctx: &mut OutboundHandlerContext, message: Message) {
        let Message { now, transport, body } = message;
        match body {
            Body::Text(text) => {
                let bytes = BytesMut::from(text.as_str().as_bytes());
                ctx.fire_write(Message { now, transport, body: Body::Bytes(bytes) });
            },
            Body::Bytes(_) => {},
        }
    }

    fn write_exception(&mut self, ctx: &mut OutboundHandlerContext, error: Error) {
        ctx.fire_write_exception(error);
    }

    fn close(&mut self, ctx: &mut OutboundHandlerContext) {
        ctx.fire_close();
    }
}

impl Handler for StringCodec {
    type In = StringDecoder;

    type Out = StringEncoder;

    open spec fn name(&self) -> Seq<char> {
        "StringCodec"@
    }

    open spec fn halves(self) -> (Self::In, Self::Out) {
        (self.decoder, self.encoder)
    }

    fn id(&self) -> (s: String) {
        String::from_str("StringCodec")
    }

    fn split(self) -> (r: (Self::In, Self::Out)) {
        (self.decoder, self.encoder)
    }
}

} // verus!
