//! What the rest of the crate knows about `bytes::BytesMut`.
//!
//! The buffer type itself is opaque to the verifier.  Its contents are named by
//! [`contents`], and every operation the crate uses is given a contract over
//! that name.  None of these contracts is proved here: they restate the
//! documented behaviour of the `bytes` crate.

use bytes::{Buf, BytesMut};
use core::ops::Deref;
use vstd::prelude::*;

verus! {

/// `bytes::BytesMut`, a growable byte buffer that can be split in O(1).
#[verifier::external_type_specification]
#[verifier::external_body]
pub struct ExBytesMut(BytesMut);

/// The bytes held by a buffer, first to last.
pub uninterp spec fn contents(b: BytesMut) -> Seq<u8>;

/// `BytesMut::new` returns a buffer that holds nothing.
pub assume_specification[ BytesMut::new ]() -> (b: BytesMut)
    ensures
        contents(b) == Seq::<u8>::empty(),
;

/// `BytesMut::len` is the number of bytes held.
pub assume_specification[ BytesMut::len ](b: &BytesMut) -> (n: usize)
    ensures
        n == contents(*b).len(),
;

/// `BytesMut::split_to` hands out the first `at` bytes and keeps the rest.
/// It panics when `at` exceeds the length, which the precondition rules out.
pub assume_specification[ BytesMut::split_to ](b: &mut BytesMut, at: usize) -> (head: BytesMut)
    requires
        at <= contents(*old(b)).len(),
    ensures
        contents(head) == contents(*old(b)).subrange(0, at as int),
        contents(*final(b)) == contents(*old(b)).subrange(
            at as int,
            contents(*old(b)).len() as int,
        ),
;

/// `BytesMut::clear` drops every byte.
pub assume_specification[ BytesMut::clear ](b: &mut BytesMut)
    ensures
        contents(*final(b)) == Seq::<u8>::empty(),
;

/// `BytesMut::extend_from_slice` appends the slice to the buffer.
pub assume_specification[ BytesMut::extend_from_slice ](b: &mut BytesMut, extend: &[u8])
    ensures
        contents(*final(b)) == contents(*old(b)) + extend@,
;

/// `Buf::advance` on a `BytesMut` drops the first `cnt` bytes.
/// It panics when `cnt` exceeds the length, which the precondition rules out.
pub assume_specification[ <BytesMut as Buf>::advance ](b: &mut BytesMut, cnt: usize)
    requires
        cnt <= contents(*old(b)).len(),
    ensures
        contents(*final(b)) == contents(*old(b)).subrange(
            cnt as int,
            contents(*old(b)).len() as int,
        ),
;

/// `Deref::deref` on a `BytesMut` borrows the bytes held as a slice.
pub assume_specification<'a>[ <BytesMut as Deref>::deref ](b: &'a BytesMut) -> (s: &'a [u8])
    ensures
        s@ == contents(*b),
;

/// `BytesMut::from(&[u8])` copies the slice into a new buffer.
pub assume_specification<'a>[ <BytesMut as From<&'a [u8]>>::from ](src: &'a [u8]) -> (b: BytesMut)
    ensures
        contents(b) == src@,
;

} // verus!
