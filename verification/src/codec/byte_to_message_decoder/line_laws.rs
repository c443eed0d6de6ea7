//! Feeding a line decoder in pieces.
//!
//! A stream reaches a codec in reads whose boundaries mean nothing.  A
//! [`ByteToMessageDecoder`] keeps what its decoder left of one read and
//! decodes it again with the next.  The facts here say that, around a
//! [`LineBasedFrameDecoder`], the frames it fires therefore do not depend on
//! where the stream was cut.

use crate::channel::handler::InboundHandler;
use crate::channel::message::{BodyView, EmissionView, InboundEventView, MessageView};
use crate::codec::byte_to_message_decoder::line_based_frame_decoder::{
    ends_line, first_line_end, frame_too_long, has_line, is_first_line_end,
    lemma_first_line_end_unique, terminator_len, LineBasedFrameDecoder, TerminatorType,
};
use crate::codec::byte_to_message_decoder::{
    decode_all, frame_read, ByteToMessageDecoder, DecoderState, Decoding, MessageDecoder,
};
use crate::transport::{Instant, TransportContext};
use vstd::prelude::*;

verus! {

/// The pieces of `s` between terminators, where a terminator is a line feed
/// together with the carriage return in front of it, if there is one.  The
/// last piece is what follows the last terminator; it is empty when `s` ends
/// with a terminator.
pub open spec fn split_lines(s: Seq<u8>) -> Seq<Seq<u8>>
    decreases s.len(),
{
    let p = first_line_end(s, TerminatorType::BOTH);
    if has_line(s, TerminatorType::BOTH) && 0 <= p < s.len() {
        seq![s.subrange(0, p + 1 - terminator_len(s, TerminatorType::BOTH, p))] + split_lines(
            s.subrange(p + 1, s.len() as int),
        )
    } else {
        seq![s]
    }
}

/// What decoding to exhaustion yields.
pub struct Drained {
    /// The frames, in order.
    pub frames: Seq<Seq<u8>>,
    /// What is left in the buffer.
    pub rest: Seq<u8>,
    /// Whether decoding ended with an error.
    pub failed: bool,
}

/// Calling `d` on `buf` until it asks for more bytes or fails.
pub open spec fn drain(d: LineBasedFrameDecoder, buf: Seq<u8>) -> Drained
    decreases buf.len(),
{
    let r = d.decoded(buf);
    match r.outcome {
        Ok(Some(frame)) => {
            if r.rest.len() < buf.len() {
                let more = drain(d, r.rest);
                Drained { frames: seq![frame] + more.frames, rest: more.rest, failed: more.failed }
            } else {
                Drained { frames: seq![frame], rest: r.rest, failed: false }
            }
        },
        Ok(None) => Drained { frames: Seq::empty(), rest: r.rest, failed: false },
        Err(_) => Drained { frames: Seq::empty(), rest: r.rest, failed: true },
    }
}

/// Feeding `chunks` one after the other to a buffer that holds `rest`: each
/// chunk is appended and the buffer is decoded to exhaustion.  Feeding stops
/// at the first error.
pub open spec fn feed(d: LineBasedFrameDecoder, rest: Seq<u8>, chunks: Seq<Seq<u8>>) -> Drained
    decreases chunks.len(),
{
    if chunks.len() == 0 {
        Drained { frames: Seq::empty(), rest, failed: false }
    } else {
        let x = drain(d, rest + chunks[0]);
        if x.failed {
            x
        } else {
            let y = feed(d, x.rest, chunks.drop_first());
            Drained { frames: x.frames + y.frames, rest: y.rest, failed: y.failed }
        }
    }
}

/// The chunks joined into one sequence.
pub open spec fn concat(chunks: Seq<Seq<u8>>) -> Seq<u8>
    decreases chunks.len(),
{
    if chunks.len() == 0 {
        Seq::empty()
    } else {
        chunks[0] + concat(chunks.drop_first())
    }
}

/// The first line of a buffer is not changed by what is appended to it.
pub proof fn lemma_first_line_survives_append(
    s: Seq<u8>,
    c: Seq<u8>,
    t: TerminatorType,
    p: int,
)
    requires
        is_first_line_end(s, t, p),
    ensures
        is_first_line_end(s + c, t, p),
        terminator_len(s + c, t, p) == terminator_len(s, t, p),
        (s + c).subrange(p + 1, (s + c).len() as int) == s.subrange(p + 1, s.len() as int) + c,
        forall|k: int| 0 <= k <= p + 1 ==> (s + c).subrange(0, k) == #[trigger] s.subrange(0, k),
{
    assert forall|q: int| 0 <= q < p implies !ends_line(s + c, t, q) by {
        assert(!ends_line(s, t, q));
    }
}

/// Appending a chunk to a buffer and decoding to exhaustion yields the lines
/// that the buffer alone yields, followed by what its remainder and the chunk
/// yield together.
pub proof fn lemma_drain_append(d: LineBasedFrameDecoder, s: Seq<u8>, c: Seq<u8>)
    requires
        !drain(d, s).failed,
    ensures
        drain(d, s + c) == (Drained {
            frames: drain(d, s).frames + drain(d, drain(d, s).rest + c).frames,
            rest: drain(d, drain(d, s).rest + c).rest,
            failed: drain(d, drain(d, s).rest + c).failed,
        }),
    decreases s.len(),
{
    let t = d.terminator_type;
    if has_line(s, t) {
        let p = first_line_end(s, t);
        lemma_first_line_survives_append(s, c, t, p);
        lemma_first_line_end_unique(s + c, t, p);
        let tail = s.subrange(p + 1, s.len() as int);
        lemma_drain_append(d, tail, c);
        let x = drain(d, tail);
        let y = drain(d, x.rest + c);
        assert(seq![d.frame(s, p)] + (x.frames + y.frames) =~= (seq![d.frame(s, p)] + x.frames)
            + y.frames);
    }
}

/// Feeding chunks to a buffer yields what decoding the whole stream at once
/// yields.
pub proof fn lemma_feed_is_drain(d: LineBasedFrameDecoder, s: Seq<u8>, chunks: Seq<Seq<u8>>)
    requires
        !drain(d, s).failed,
        !feed(d, drain(d, s).rest, chunks).failed,
    ensures
        drain(d, s + concat(chunks)) == (Drained {
            frames: drain(d, s).frames + feed(d, drain(d, s).rest, chunks).frames,
            rest: feed(d, drain(d, s).rest, chunks).rest,
            failed: false,
        }),
    decreases chunks.len(),
{
    let x = drain(d, s);
    if chunks.len() == 0 {
        lemma_drain_rest_is_drained(d, s);
    } else {
        let c = chunks[0];
        let more = chunks.drop_first();
        let x1 = drain(d, x.rest + c);
        let y1 = feed(d, x1.rest, more);
        lemma_drain_append(d, s, c);
        lemma_feed_is_drain(d, s + c, more);
        assert(s + concat(chunks) =~= (s + c) + concat(more));
        assert((x.frames + x1.frames) + y1.frames =~= x.frames + (x1.frames + y1.frames));
    }
}

/// What decoding to exhaustion leaves behind holds no complete line.
pub proof fn lemma_drain_rest_is_drained(d: LineBasedFrameDecoder, s: Seq<u8>)
    requires
        !drain(d, s).failed,
    ensures
        !has_line(drain(d, s).rest, d.terminator_type),
        drain(d, s).rest.len() <= d.max_length,
        drain(d, drain(d, s).rest) == (Drained {
            frames: Seq::empty(),
            rest: drain(d, s).rest,
            failed: false,
        }),
    decreases s.len(),
{
    let t = d.terminator_type;
    if has_line(s, t) {
        let p = first_line_end(s, t);
        lemma_drain_rest_is_drained(d, s.subrange(p + 1, s.len() as int));
    }
}

/// With `\n` and `\r\n` as terminators and the terminator stripped, decoding
/// a stream to exhaustion yields its pieces between terminators, all but the
/// last, and leaves the last piece in the buffer.
pub proof fn lemma_drain_is_split(d: LineBasedFrameDecoder, s: Seq<u8>)
    requires
        d.terminator_type == TerminatorType::BOTH,
        d.strip_delimiter,
        !drain(d, s).failed,
    ensures
        drain(d, s).frames.push(drain(d, s).rest) == split_lines(s),
    decreases s.len(),
{
    let t = TerminatorType::BOTH;
    if has_line(s, t) {
        let p = first_line_end(s, t);
        let tail = s.subrange(p + 1, s.len() as int);
        lemma_drain_is_split(d, tail);
    }
}

/// Feeding a stream to an empty buffer in chunks, with `\n` and `\r\n` as
/// terminators and the terminator stripped, yields the pieces of the whole
/// stream between terminators, all but the last, and leaves the last piece in
/// the buffer, if no chunk leaves the buffer longer than the maximum without a
/// terminator in it.
pub proof fn lemma_feeding_yields_the_lines(d: LineBasedFrameDecoder, chunks: Seq<Seq<u8>>)
    requires
        d.terminator_type == TerminatorType::BOTH,
        d.strip_delimiter,
        !feed(d, Seq::empty(), chunks).failed,
    ensures
        feed(d, Seq::empty(), chunks).frames.push(feed(d, Seq::empty(), chunks).rest)
            == split_lines(concat(chunks)),
{
    let empty = Seq::<u8>::empty();
    assert(drain(d, empty) == (Drained { frames: Seq::empty(), rest: empty, failed: false }));
    lemma_feed_is_drain(d, empty, chunks);
    assert(empty + concat(chunks) =~= concat(chunks));
    assert(Seq::<Seq<u8>>::empty() + feed(d, empty, chunks).frames =~= feed(
        d,
        empty,
        chunks,
    ).frames);
    lemma_drain_is_split(d, concat(chunks));
}

/// A buffer no longer than the maximum is decoded to exhaustion without
/// error, and what is left of it is no longer than it was.
pub proof fn lemma_drain_within_limit(d: LineBasedFrameDecoder, buf: Seq<u8>)
    requires
        buf.len() <= d.max_length,
    ensures
        !drain(d, buf).failed,
        drain(d, buf).rest.len() <= buf.len(),
    decreases buf.len(),
{
    let t = d.terminator_type;
    if has_line(buf, t) {
        let p = first_line_end(buf, t);
        lemma_drain_within_limit(d, buf.subrange(p + 1, buf.len() as int));
    }
}

/// A stream that, together with what the buffer holds, is no longer than the
/// maximum is fed without error, however it is cut.
pub proof fn lemma_feed_within_limit(
    d: LineBasedFrameDecoder,
    rest: Seq<u8>,
    chunks: Seq<Seq<u8>>,
)
    requires
        rest.len() + concat(chunks).len() <= d.max_length,
    ensures
        !feed(d, rest, chunks).failed,
    decreases chunks.len(),
{
    if chunks.len() > 0 {
        lemma_drain_within_limit(d, rest + chunks[0]);
        lemma_feed_within_limit(d, drain(d, rest + chunks[0]).rest, chunks.drop_first());
    }
}

/// The reads by which `frames` travel on, in order.
pub open spec fn frame_reads(
    frames: Seq<Seq<u8>>,
    now: Instant,
    transport: TransportContext,
) -> Seq<EmissionView> {
    frames.map_values(|frame: Seq<u8>| frame_read(now, transport, frame))
}

/// Decoding a buffer to exhaustion in a codec around a line decoder fires
/// one read per line that [`drain`] yields, followed by a read exception when
/// decoding ended with a line that was too long, and leaves what [`drain`]
/// leaves.
pub proof fn lemma_codec_fires_the_drained_lines(
    d: LineBasedFrameDecoder,
    buf: Seq<u8>,
    now: Instant,
    transport: TransportContext,
)
    ensures
        decode_all(d, buf, now, transport) == (Decoding {
            decoder: d,
            fired: frame_reads(drain(d, buf).frames, now, transport) + if drain(d, buf).failed {
                seq![EmissionView::Inbound(InboundEventView::ReadException(frame_too_long()))]
            } else {
                Seq::<EmissionView>::empty()
            },
            rest: drain(d, buf).rest,
        }),
    decreases buf.len(),
{
    let t = d.terminator_type;
    let none = Seq::<EmissionView>::empty();
    if has_line(buf, t) {
        let p = first_line_end(buf, t);
        let rest = buf.subrange(p + 1, buf.len() as int);
        lemma_codec_fires_the_drained_lines(d, rest, now, transport);
        let more = drain(d, rest);
        let tail = if more.failed {
            seq![EmissionView::Inbound(InboundEventView::ReadException(frame_too_long()))]
        } else {
            none
        };
        let first = seq![frame_read(now, transport, d.frame(buf, p))];
        assert(frame_reads(seq![d.frame(buf, p)] + more.frames, now, transport) =~= first
            + frame_reads(more.frames, now, transport));
        assert(first + (frame_reads(more.frames, now, transport) + tail) =~= (first + frame_reads(
            more.frames,
            now,
            transport,
        )) + tail);
    } else if buf.len() > d.max_length {
        assert(frame_reads(Seq::empty(), now, transport) + seq![
            EmissionView::Inbound(InboundEventView::ReadException(frame_too_long())),
        ] =~= seq![EmissionView::Inbound(InboundEventView::ReadException(frame_too_long()))]);
    } else {
        assert(frame_reads(Seq::empty(), now, transport) + none =~= none);
    }
}

/// A codec around a line decoder.
pub type LineCodec = ByteToMessageDecoder<LineBasedFrameDecoder>;

/// The bytes of the frame that `e` hands on; nothing, where `e` is not a
/// read of bytes.
pub open spec fn frame_of(e: EmissionView) -> Seq<u8> {
    match e {
        EmissionView::Inbound(InboundEventView::Read(m)) => match m.body {
            BodyView::Bytes(b) => b,
            BodyView::Text(_) => Seq::empty(),
        },
        _ => Seq::empty(),
    }
}

/// The bytes that the message `m` carries; nothing, where it carries text.
pub open spec fn bytes_of(m: MessageView) -> Seq<u8> {
    match m.body {
        BodyView::Bytes(b) => b,
        BodyView::Text(_) => Seq::empty(),
    }
}

/// The bytes of each of `messages`, in order.
pub open spec fn chunks_of(messages: Seq<MessageView>) -> Seq<Seq<u8>> {
    messages.map_values(|m: MessageView| bytes_of(m))
}

/// What a codec in `state` fires for reads of `messages`, one after the
/// other, and the state it is in afterwards.
pub open spec fn read_all(
    state: DecoderState<LineBasedFrameDecoder>,
    transport: TransportContext,
    messages: Seq<MessageView>,
) -> (DecoderState<LineBasedFrameDecoder>, Seq<EmissionView>)
    decreases messages.len(),
{
    if messages.len() == 0 {
        (state, Seq::empty())
    } else {
        let r = LineCodec::react(state, transport, InboundEventView::Read(messages[0]));
        let more = read_all(r.0, transport, messages.drop_first());
        (more.0, r.1 + more.1)
    }
}

/// Reads are fed.  While the transport is up, what a codec around a line
/// decoder fires for a run of reads of bytes is what [`feed`] yields for
/// their bytes, starting from what the codec held: every frame is fired as a
/// read and nothing else is fired, and the codec keeps what [`feed`] leaves.
pub proof fn lemma_reads_fire_the_fed_frames(
    state: DecoderState<LineBasedFrameDecoder>,
    transport: TransportContext,
    messages: Seq<MessageView>,
)
    requires
        state.transport_active,
        forall|i: int| 0 <= i < messages.len() ==> (#[trigger] messages[i]).body is Bytes,
        !feed(state.message_decoder, state.rest, chunks_of(messages)).failed,
    ensures
        ({
            let fed = feed(state.message_decoder, state.rest, chunks_of(messages));
            let r = read_all(state, transport, messages);
            &&& r.0 == (DecoderState { rest: fed.rest, ..state })
            &&& r.1.len() == fed.frames.len()
            &&& r.1.map_values(|e: EmissionView| frame_of(e)) == fed.frames
            &&& forall|i: int|
                0 <= i < r.1.len() ==> (#[trigger] r.1[i]) matches EmissionView::Inbound(
                    InboundEventView::Read(_),
                )
        }),
    decreases messages.len(),
{
    let d = state.message_decoder;
    let chunks = chunks_of(messages);
    if messages.len() == 0 {
        assert(read_all(state, transport, messages).1.map_values(|e: EmissionView| frame_of(e))
            =~= Seq::<Seq<u8>>::empty());
    } else {
        let m = messages[0];
        let b = bytes_of(m);
        assert(chunks[0] == b);
        assert(chunks.drop_first() =~= chunks_of(messages.drop_first()));
        let x = drain(d, state.rest + b);
        lemma_codec_fires_the_drained_lines(d, state.rest + b, m.now, m.transport);
        let r = LineCodec::react(state, transport, InboundEventView::Read(m));
        let here = frame_reads(x.frames, m.now, m.transport);
        assert(here + Seq::<EmissionView>::empty() =~= here);
        assert(r.1 == here);
        assert(r.0 == (DecoderState { rest: x.rest, ..state }));
        lemma_reads_fire_the_fed_frames(r.0, transport, messages.drop_first());
        let more = read_all(r.0, transport, messages.drop_first());
        let y = feed(d, x.rest, chunks.drop_first());
        assert(here.map_values(|e: EmissionView| frame_of(e)) =~= x.frames);
        assert((here + more.1).map_values(|e: EmissionView| frame_of(e)) =~= x.frames
            + y.frames);
    }
}

/// Chunking does not matter.  Take a codec around a line decoder that takes
/// `\n` and `\r\n` and strips them, with the transport up and nothing held.
/// Hand it a stream as reads of bytes, cut in any way.  If no read leaves the
/// codec holding more than the maximum without a terminator, the frames it
/// fires, followed by what it holds at the end, are exactly the pieces of the
/// whole stream between terminators: every piece that a terminator follows is
/// fired once, in order, and the piece after the last terminator is held.
pub proof fn lemma_chunking_does_not_change_lines(
    state: DecoderState<LineBasedFrameDecoder>,
    transport: TransportContext,
    messages: Seq<MessageView>,
)
    requires
        state.transport_active,
        state.rest.len() == 0,
        state.message_decoder.terminator_type == TerminatorType::BOTH,
        state.message_decoder.strip_delimiter,
        forall|i: int| 0 <= i < messages.len() ==> (#[trigger] messages[i]).body is Bytes,
        !feed(state.message_decoder, Seq::empty(), chunks_of(messages)).failed,
    ensures
        ({
            let r = read_all(state, transport, messages);
            r.1.map_values(|e: EmissionView| frame_of(e)).push(r.0.rest) == split_lines(
                concat(chunks_of(messages)),
            )
        }),
{
    assert(state.rest =~= Seq::<u8>::empty());
    lemma_reads_fire_the_fed_frames(state, transport, messages);
    lemma_feeding_yields_the_lines(state.message_decoder, chunks_of(messages));
}

} // verus!
