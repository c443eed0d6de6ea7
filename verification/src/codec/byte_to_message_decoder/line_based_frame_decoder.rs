//! A decoder that cuts a stream of bytes into lines.

use crate::buf::contents;
use crate::codec::byte_to_message_decoder::{Decoded, MessageDecoder};
use crate::error::{Error, ErrorKind, ErrorView};
use bytes::{Buf, BytesMut};
use core::ops::Deref;
use vstd::prelude::*;
use vstd::string::StringExecFns;

verus! {

/// Which byte sequences end a line.
#[derive(Debug, Clone, Copy, PartialEq, Eq, Hash, Structural)]
pub enum TerminatorType {
    /// `\n` and `\r\n`; where a `\n` follows a `\r`, the two together end
    /// the line.
    BOTH,
    /// `\n` only.
    NEWLINE,
    /// `\r\n` only.
    CarriageNewline,
}

/// Line feed.
pub const LF: u8 = 10;

/// Carriage return.
pub const CR: u8 = 13;

/// Whether the byte at `p` is a line feed that ends a line under `t`.
pub open spec fn ends_line(buf: Seq<u8>, t: TerminatorType, p: int) -> bool {
    &&& 0 <= p < buf.len()
    &&& buf[p] == LF
    &&& t == TerminatorType::CarriageNewline ==> p > 0 && buf[p - 1] == CR
}

/// Whether `p` is where the first line of `buf` ends.
pub open spec fn is_first_line_end(buf: Seq<u8>, t: TerminatorType, p: int) -> bool {
    &&& ends_line(buf, t, p)
    &&& forall|q: int| 0 <= q < p ==> !ends_line(buf, t, q)
}

/// Whether `buf` holds a complete line.
pub open spec fn has_line(buf: Seq<u8>, t: TerminatorType) -> bool {
    exists|p: int| is_first_line_end(buf, t, p)
}

/// The index of the line feed that ends the first line of `buf`.
pub open spec fn first_line_end(buf: Seq<u8>, t: TerminatorType) -> int {
    choose|p: int| is_first_line_end(buf, t, p)
}

/// The length of the terminator whose line feed is at `p`: two where a
/// carriage return in front of it belongs to the terminator, else one.
pub open spec fn terminator_len(buf: Seq<u8>, t: TerminatorType, p: int) -> int {
    if t != TerminatorType::NEWLINE && p > 0 && buf[p - 1] == CR {
        2
    } else {
        1
    }
}

/// The error for a line that outgrew the maximum.
pub open spec fn frame_too_long() -> ErrorView {
    ErrorView { kind: ErrorKind::FrameTooLong, message: "frame too long"@ }
}

/// A decoder that yields one line per call.
#[derive(Debug, Clone, Copy, PartialEq, Eq, Structural)]
pub struct LineBasedFrameDecoder {
    /// How long a buffer without a terminator may grow.
    pub max_length: usize,
    /// Whether the terminator is left out of the frame.
    pub strip_delimiter: bool,
    /// Which terminators are recognised.
    pub terminator_type: TerminatorType,
}

impl LineBasedFrameDecoder {
    /// A decoder with the given limit, stripping rule and terminators.
    pub fn new(max_length: usize, strip_delimiter: bool, terminator_type: TerminatorType) -> (d:
        Self)
        ensures
            d == (LineBasedFrameDecoder { max_length, strip_delimiter, terminator_type }),
    {
        LineBasedFrameDecoder { max_length, strip_delimiter, terminator_type }
    }

    /// The frame cut from `buf` when its first line ends at `p`.
    pub open spec fn frame(&self, buf: Seq<u8>, p: int) -> Seq<u8> {
        if self.strip_delimiter {
            buf.subrange(0, p + 1 - terminator_len(buf, self.terminator_type, p))
        } else {
            buf.subrange(0, p + 1)
        }
    }

    /// What one call does to `buf`.  With a complete line in the buffer, the
    /// line is cut off and returned, with or without its terminator, however
    /// long it is.  Without one, the buffer is left alone while it is no
    /// longer than the maximum, and discarded with an error once it is.
    pub open spec fn line(&self, buf: Seq<u8>) -> Decoded<Self> {
        if has_line(buf, self.terminator_type) {
            let p = first_line_end(buf, self.terminator_type);
            Decoded {
                next: *self,
                rest: buf.subrange(p + 1, buf.len() as int),
                outcome: Ok(Some(self.frame(buf, p))),
            }
        } else if buf.len() > self.max_length {
            Decoded { next: *self, rest: Seq::empty(), outcome: Err(frame_too_long()) }
        } else {
            Decoded { next: *self, rest: buf, outcome: Ok(None) }
        }
    }

    /// Finds the line feed that ends the first line of `buf`.
    fn find_end_of_line(&self, buf: &[u8]) -> (r: Option<usize>)
        ensures
            match r {
                Some(p) => is_first_line_end(buf@, self.terminator_type, p as int),
                None => !has_line(buf@, self.terminator_type),
            },
    {
        let only_after_cr = match self.terminator_type {
            TerminatorType::CarriageNewline => true,
            _ => false,
        };
        let mut i: usize = 0;
        while i < buf.len()
            invariant
                i <= buf@.len(),
                only_after_cr == (self.terminator_type == TerminatorType::CarriageNewline),
                forall|q: int| 0 <= q < i ==> !ends_line(buf@, self.terminator_type, q),
            decreases buf@.len() - i,
        {
            if buf[i] == LF && (!only_after_cr || (i > 0 && buf[i - 1] == CR)) {
                return Some(i);
            }
            i = i + 1;
        }
        None
    }
}

/// The end of the first line is unique.
pub proof fn lemma_first_line_end_unique(buf: Seq<u8>, t: TerminatorType, p: int)
    requires
        is_first_line_end(buf, t, p),
    ensures
        has_line(buf, t),
        first_line_end(buf, t) == p,
{
    let q = first_line_end(buf, t);
    if q < p {
        assert(!ends_line(buf, t, q));
    } else if p < q {
        assert(!ends_line(buf, t, p));
    }
}

impl MessageDecoder for LineBasedFrameDecoder {
    open spec fn name(&self) -> Seq<char> {
        "LineBasedFrameDecoder"@
    }

    open spec fn decoded(&self, buf: Seq<u8>) -> Decoded<Self> {
        self.line(buf)
    }

    fn id(&self) -> (s: String) {
        String::from_str("LineBasedFrameDecoder")
    }

    fn decode(&mut self, buf: &mut BytesMut) -> (r: Result<Option<BytesMut>, Error>) {
        let len = buf.len();
        let found = self.find_end_of_line(BytesMut::deref(buf));
        match found {
            Some(p) => {
                proof {
                    lemma_first_line_end_unique(contents(*buf), self.terminator_type, p as int);
                }
                let frame = if self.strip_delimiter {
                    let two = match self.terminator_type {
                        TerminatorType::NEWLINE => false,
                        _ => p > 0 && BytesMut::deref(buf)[p - 1] == CR,
                    };
                    let delimiter: usize = if two { 2 } else { 1 };
                    let frame = buf.split_to(p + 1 - delimiter);
                    buf.advance(delimiter);
                    frame
                } else {
                    buf.split_to(p + 1)
                };
                Ok(Some(frame))
            },
            None => {
                if len > self.max_length {
                    buf.clear();
                    Err(Error::new(ErrorKind::FrameTooLong, String::from_str("frame too long")))
                } else {
                    Ok(None)
                }
            },
        }
    }
}

} // verus!
