//! The identifier codec: the fixed-width tag in front of every wire unit.
use crate::buffer::{
    be16, be32, from_be16, from_be32, get_u16, get_u32, get_u8, in_contents, lemma_be16_read,
    lemma_be32_read, max_len, out_contents, put_u16, put_u32, put_u8, remaining,
};
use bytes::{Bytes, BytesMut};
use vstd::prelude::*;

verus! {

/// A fixed-width identifier value, written in front of each payload.
pub trait PacketId: Sized {
    /// The number of bytes of the encoding.
    spec fn width() -> nat;

    /// The encoding of this identifier.
    spec fn encoding(self) -> Seq<u8>;

    /// The identifier whose encoding starts `b` (which holds at least `width()` bytes).
    spec fn decoding(b: Seq<u8>) -> Self;

    /// The encoding has the fixed width, and reading it back gives the identifier,
    /// whatever follows it.
    proof fn lemma_codec(self, rest: Seq<u8>)
        ensures
            self.encoding().len() == Self::width(),
            Self::decoding(self.encoding() + rest) == self,
    ;

    /// Appends the encoding of this identifier.
    fn put_id(&self, buf: &mut BytesMut)
        requires
            out_contents(*old(buf)).len() + Self::width() <= max_len(),
        ensures
            out_contents(*final(buf)) == out_contents(*old(buf)) + self.encoding(),
    ;

    /// Reads an identifier, or nothing when fewer than `width()` bytes are left.
    fn get_id(buf: &mut Bytes) -> (r: Option<Self>)
        ensures
            in_contents(*old(buf)).len() < Self::width() ==> r is None && *final(buf) == *old(buf),
            in_contents(*old(buf)).len() >= Self::width() ==> r == Some(
                Self::decoding(in_contents(*old(buf))),
            ) && in_contents(*final(buf)) == in_contents(*old(buf)).skip(Self::width() as int),
    ;

    /// Whether two identifiers are the same value.
    fn same(&self, other: &Self) -> (r: bool)
        ensures
            r == (*self == *other),
    ;
}

impl PacketId for u8 {
    open spec fn width() -> nat {
        1
    }

    open spec fn encoding(self) -> Seq<u8> {
        seq![self]
    }

    open spec fn decoding(b: Seq<u8>) -> u8 {
        b[0]
    }

    proof fn lemma_codec(self, rest: Seq<u8>) {
        assert((seq![self] + rest)[0] == self);
    }

    fn put_id(&self, buf: &mut BytesMut) {
        put_u8(buf, *self);
        assert(out_contents(*old(buf)).push(*self) =~= out_contents(*old(buf)) + seq![*self]);
    }

    fn get_id(buf: &mut Bytes) -> (r: Option<u8>) {
        if remaining(buf) < 1 {
            None
        } else {
            Some(get_u8(buf))
        }
    }

    fn same(&self, other: &u8) -> (r: bool) {
        *self == *other
    }
}

impl PacketId for u16 {
    open spec fn width() -> nat {
        2
    }

    open spec fn encoding(self) -> Seq<u8> {
        be16(self)
    }

    open spec fn decoding(b: Seq<u8>) -> u16 {
        from_be16(b)
    }

    proof fn lemma_codec(self, rest: Seq<u8>) {
        lemma_be16_read(self, rest);
    }

    fn put_id(&self, buf: &mut BytesMut) {
        put_u16(buf, *self);
    }

    fn get_id(buf: &mut Bytes) -> (r: Option<u16>) {
        if remaining(buf) < 2 {
            None
        } else {
            Some(get_u16(buf))
        }
    }

    fn same(&self, other: &u16) -> (r: bool) {
        *self == *other
    }
}

impl PacketId for u32 {
    open spec fn width() -> nat {
        4
    }

    open spec fn encoding(self) -> Seq<u8> {
        be32(self)
    }

    open spec fn decoding(b: Seq<u8>) -> u32 {
        from_be32(b)
    }

    proof fn lemma_codec(self, rest: Seq<u8>) {
        lemma_be32_read(self, rest);
    }

    fn put_id(&self, buf: &mut BytesMut) {
        put_u32(buf, *self);
    }

    fn get_id(buf: &mut Bytes) -> (r: Option<u32>) {
        if remaining(buf) < 4 {
            None
        } else {
            Some(get_u32(buf))
        }
    }

    fn same(&self, other: &u32) -> (r: bool) {
        *self == *other
    }
}

} // verus!
