use bytes::BytesMut;
use retty::codec::byte_to_message_decoder::{LineBasedFrameDecoder, MessageDecoder, TerminatorType};
use retty::error::ErrorKind;

fn decode_once(
    decoder: &mut LineBasedFrameDecoder,
    input: &[u8],
) -> (Result<Option<Vec<u8>>, ErrorKind>, Vec<u8>) {
    let mut buf = BytesMut::from(input);
    let outcome = match decoder.decode(&mut buf) {
        Ok(Some(frame)) => Ok(Some(frame.to_vec())),
        Ok(None) => Ok(None),
        Err(e) => Err(e.kind()),
    };
    (outcome, buf.to_vec())
}

/// Appends each chunk to one buffer and decodes it to exhaustion.
fn feed(decoder: &mut LineBasedFrameDecoder, chunks: &[&[u8]]) -> (Vec<Vec<u8>>, Vec<u8>) {
    let mut buf = BytesMut::new();
    let mut frames = Vec::new();
    for chunk in chunks {
        buf.extend_from_slice(chunk);
        while let Some(frame) = decoder.decode(&mut buf).expect("no line is too long") {
            frames.push(frame.to_vec());
        }
    }
    (frames, buf.to_vec())
}

/// The pieces of `s` between `\n` or `\r\n`, the last one included.
fn split(s: &[u8]) -> Vec<Vec<u8>> {
    let mut pieces = Vec::new();
    let mut start = 0;
    for i in 0..s.len() {
        if s[i] == b'\n' {
            let end = if i > start && s[i - 1] == b'\r' { i - 1 } else { i };
            pieces.push(s[start..end].to_vec());
            start = i + 1;
        }
    }
    pieces.push(s[start..].to_vec());
    pieces
}

#[test]
fn a_new_decoder_holds_what_it_was_given() {
    let d = LineBasedFrameDecoder::new(8192, true, TerminatorType::BOTH);
    assert_eq!(d.max_length, 8192);
    assert!(d.strip_delimiter);
    assert_eq!(d.terminator_type, TerminatorType::BOTH);
    assert_eq!(d.id(), "LineBasedFrameDecoder");
}

#[test]
fn both_prefers_carriage_return_line_feed() {
    let mut d = LineBasedFrameDecoder::new(64, true, TerminatorType::BOTH);
    assert_eq!(decode_once(&mut d, b"ab\r\ncd"), (Ok(Some(b"ab".to_vec())), b"cd".to_vec()));
    assert_eq!(decode_once(&mut d, b"ab\ncd\r\n"), (Ok(Some(b"ab".to_vec())), b"cd\r\n".to_vec()));
    assert_eq!(decode_once(&mut d, b"\r\r\nx"), (Ok(Some(b"\r".to_vec())), b"x".to_vec()));
}

#[test]
fn newline_leaves_a_carriage_return_in_the_frame() {
    let mut d = LineBasedFrameDecoder::new(64, true, TerminatorType::NEWLINE);
    assert_eq!(decode_once(&mut d, b"ab\r\ncd"), (Ok(Some(b"ab\r".to_vec())), b"cd".to_vec()));
}

#[test]
fn carriage_newline_skips_a_lone_line_feed() {
    let mut d = LineBasedFrameDecoder::new(64, true, TerminatorType::CarriageNewline);
    assert_eq!(decode_once(&mut d, b"a\nb\r\nc"), (Ok(Some(b"a\nb".to_vec())), b"c".to_vec()));
    assert_eq!(decode_once(&mut d, b"\nabc"), (Ok(None), b"\nabc".to_vec()));
}

#[test]
fn without_stripping_the_terminator_stays_in_the_frame() {
    let mut both = LineBasedFrameDecoder::new(64, false, TerminatorType::BOTH);
    assert_eq!(decode_once(&mut both, b"ab\r\ncd"), (Ok(Some(b"ab\r\n".to_vec())), b"cd".to_vec()));
    assert_eq!(decode_once(&mut both, b"ab\ncd"), (Ok(Some(b"ab\n".to_vec())), b"cd".to_vec()));
    let mut crlf = LineBasedFrameDecoder::new(64, false, TerminatorType::CarriageNewline);
    assert_eq!(decode_once(&mut crlf, b"ab\r\ncd"), (Ok(Some(b"ab\r\n".to_vec())), b"cd".to_vec()));
}

#[test]
fn an_empty_line_is_an_empty_frame() {
    let mut d = LineBasedFrameDecoder::new(64, true, TerminatorType::BOTH);
    assert_eq!(decode_once(&mut d, b"\nrest"), (Ok(Some(Vec::new())), b"rest".to_vec()));
    assert_eq!(decode_once(&mut d, b"\r\n"), (Ok(Some(Vec::new())), Vec::new()));
}

#[test]
fn a_buffer_without_terminator_waits_up_to_the_maximum() {
    let mut d = LineBasedFrameDecoder::new(4, true, TerminatorType::BOTH);
    assert_eq!(decode_once(&mut d, b""), (Ok(None), Vec::new()));
    assert_eq!(decode_once(&mut d, b"abc"), (Ok(None), b"abc".to_vec()));
    assert_eq!(decode_once(&mut d, b"abcd"), (Ok(None), b"abcd".to_vec()));
}

#[test]
fn a_buffer_without_terminator_past_the_maximum_is_discarded() {
    let mut d = LineBasedFrameDecoder::new(4, true, TerminatorType::BOTH);
    assert_eq!(decode_once(&mut d, b"abcde"), (Err(ErrorKind::FrameTooLong), Vec::new()));
    let mut buf = BytesMut::from(&b"abcde"[..]);
    let error = d.decode(&mut buf).unwrap_err();
    assert_eq!(error.message(), "frame too long");
    assert_eq!(error.to_string(), "frame too long");
}

#[test]
fn a_terminated_line_is_returned_however_long() {
    let mut d = LineBasedFrameDecoder::new(2, true, TerminatorType::BOTH);
    assert_eq!(decode_once(&mut d, b"abcdef\nx"), (Ok(Some(b"abcdef".to_vec())), b"x".to_vec()));
}

#[test]
fn chunking_does_not_change_the_lines() {
    let stream = b"alpha\r\nbeta\n\ngamma\r\r\ndelta";
    let whole = split(stream);
    let chunkings: Vec<Vec<&[u8]>> = vec![
        vec![&stream[..]],
        vec![&stream[..6], &stream[6..]],
        vec![&stream[..7], &stream[7..13], &stream[13..]],
        stream.chunks(1).collect(),
        stream.chunks(3).collect(),
        vec![&stream[..0], &stream[..], &stream[..0]],
    ];
    for chunks in chunkings {
        let mut d = LineBasedFrameDecoder::new(64, true, TerminatorType::BOTH);
        let (mut frames, rest) = feed(&mut d, &chunks);
        frames.push(rest);
        assert_eq!(frames, whole);
    }
    assert_eq!(whole.len(), 5);
    assert_eq!(whole[3], b"gamma\r".to_vec());
    assert_eq!(whole[4], b"delta".to_vec());
}

#[test]
fn a_stream_that_ends_with_a_terminator_leaves_nothing_behind() {
    let mut d = LineBasedFrameDecoder::new(64, true, TerminatorType::BOTH);
    let (frames, rest) = feed(&mut d, &[&b"one\r"[..], &b"\ntwo\n"[..]]);
    assert_eq!(frames, vec![b"one".to_vec(), b"two".to_vec()]);
    assert!(rest.is_empty());
    assert_eq!(split(b"one\r\ntwo\n"), vec![b"one".to_vec(), b"two".to_vec(), Vec::new()]);
}
