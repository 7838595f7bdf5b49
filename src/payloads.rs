//! Two payload types in the usual idioms: a text with a 2-byte length in front, and
//! a fixed layout of a 4-byte integer and an 8-byte floating-point value.
use crate::buffer::{
    as_slice, be16, be32, be64, from_be16, from_be32, from_be64, get_u16, get_u32, get_u64,
    in_contents, lemma_be16_read, lemma_be32_read, lemma_be64_read, out_contents,
    put_slice, put_u16, put_u32, put_u64, remaining, split_to,
};
use crate::packet::Packet;
use crate::union::{Cons, Single};
use bytes::{Bytes, BytesMut};
use vstd::prelude::*;
use vstd::utf8::{decode_utf8, encode_utf8, encode_utf8_decode_utf8, encode_utf8_valid_utf8, valid_utf8};

verus! {

/// The largest text length, in bytes, that the 2-byte length field can hold.
pub const MAX_TEXT_BYTES: usize = 0xffff;

/// Why a payload could not be decoded.
#[derive(Clone, Copy, Debug, PartialEq, Eq, Structural)]
pub enum PayloadError {
    /// Fewer bytes are left than the payload needs.
    Truncated,
    /// The text bytes are not valid UTF-8.
    InvalidText,
}

/// A text payload, bound to identifier 0.
#[derive(Debug, PartialEq, Eq)]
pub struct TextPacket(pub String);

/// A payload of a 32-bit count and a 64-bit floating-point value, bound to
/// identifier 1; the value is held as its IEEE 754 bit pattern.
#[derive(Clone, Copy, Debug, PartialEq, Eq, Structural)]
pub struct PairPacket(pub u32, pub u64);

impl View for TextPacket {
    type V = Seq<char>;

    open spec fn view(&self) -> Seq<char> {
        self.0@
    }
}

impl View for PairPacket {
    type V = (u32, u64);

    open spec fn view(&self) -> (u32, u64) {
        (self.0, self.1)
    }
}

/// Relies on `std::str::from_utf8`: text exactly when the bytes are valid UTF-8,
/// and then the text is made of those bytes.
#[verifier::external_body]
fn str_from_utf8(v: &[u8]) -> (r: Option<&str>)
    ensures
        r is Some <==> valid_utf8(v@),
        r is Some ==> encode_utf8(r->0@) == v@,
{
    match std::str::from_utf8(v) {
        Ok(s) => Some(s),
        Err(_) => None,
    }
}

impl Packet for TextPacket {
    type Error = PayloadError;

    type IdType = u8;

    const ID: u8 = 0;

    open spec fn valid(&self) -> bool {
        encode_utf8(self.0@).len() <= MAX_TEXT_BYTES
    }

    open spec fn encode(self) -> Seq<u8> {
        be16(encode_utf8(self.0@).len() as u16) + encode_utf8(self.0@)
    }

    open spec fn decode(b: Seq<u8>) -> (Result<Seq<char>, PayloadError>, nat) {
        if b.len() < 2 {
            (Err(PayloadError::Truncated), 0)
        } else {
            let n = from_be16(b) as int;
            if b.len() < 2 + n {
                (Err(PayloadError::Truncated), 2)
            } else if valid_utf8(b.subrange(2, 2 + n)) {
                (Ok(decode_utf8(b.subrange(2, 2 + n))), (2 + n) as nat)
            } else {
                (Err(PayloadError::InvalidText), (2 + n) as nat)
            }
        }
    }

    proof fn lemma_round_trip(self, rest: Seq<u8>) {
        let text = encode_utf8(self.0@);
        let n = text.len() as u16;
        let b = self.encode() + rest;
        assert(b =~= be16(n) + (text + rest));
        lemma_be16_read(n, text + rest);
        assert(b.subrange(2, 2 + text.len() as int) =~= text);
        encode_utf8_valid_utf8(self.0@);
        encode_utf8_decode_utf8(self.0@);
    }

    fn serialize(self, buf: &mut BytesMut) {
        let bytes: &[u8] = self.0.as_str().as_bytes();
        put_u16(buf, bytes.len() as u16);
        put_slice(buf, bytes);
        assert(out_contents(*final(buf)) =~= out_contents(*old(buf)) + self.encode());
    }

    fn deserialize(buf: &mut Bytes) -> (r: Result<TextPacket, PayloadError>) {
        if remaining(buf) < 2 {
            return Err(PayloadError::Truncated);
        }
        let n = get_u16(buf) as usize;
        if remaining(buf) < n {
            return Err(PayloadError::Truncated);
        }
        let ghost start = in_contents(*old(buf));
        let chunk = split_to(buf, n);
        assert(in_contents(chunk) =~= start.subrange(2, 2 + n));
        assert(in_contents(*buf) =~= start.skip(2 + n));
        match str_from_utf8(as_slice(&chunk)) {
            Some(s) => {
                proof {
                    encode_utf8_decode_utf8(s@);
                }
                Ok(TextPacket(s.to_owned()))
            },
            None => Err(PayloadError::InvalidText),
        }
    }
}

impl Packet for PairPacket {
    type Error = PayloadError;

    type IdType = u8;

    const ID: u8 = 1;

    open spec fn valid(&self) -> bool {
        true
    }

    open spec fn encode(self) -> Seq<u8> {
        be32(self.0) + be64(self.1)
    }

    open spec fn decode(b: Seq<u8>) -> (Result<(u32, u64), PayloadError>, nat) {
        if b.len() < 12 {
            (Err(PayloadError::Truncated), 0)
        } else {
            (Ok((from_be32(b), from_be64(b.skip(4)))), 12)
        }
    }

    proof fn lemma_round_trip(self, rest: Seq<u8>) {
        let b = self.encode() + rest;
        assert(b =~= be32(self.0) + (be64(self.1) + rest));
        lemma_be32_read(self.0, be64(self.1) + rest);
        assert(b.skip(4) =~= be64(self.1) + rest);
        lemma_be64_read(self.1, rest);
    }

    fn serialize(self, buf: &mut BytesMut) {
        put_u32(buf, self.0);
        put_u64(buf, self.1);
        assert(out_contents(*final(buf)) =~= out_contents(*old(buf)) + self.encode());
    }

    fn deserialize(buf: &mut Bytes) -> (r: Result<PairPacket, PayloadError>) {
        if remaining(buf) < 12 {
            return Err(PayloadError::Truncated);
        }
        let ghost start = in_contents(*old(buf));
        let count = get_u32(buf);
        assert(in_contents(*buf) =~= start.skip(4));
        let value = get_u64(buf);
        assert(in_contents(*buf) =~= start.skip(12));
        Ok(PairPacket(count, value))
    }
}

/// The union of the text payload (identifier 0) and the pair payload (identifier 1).
pub type Packets = Cons<TextPacket, Single<PairPacket>>;

impl From<TextPacket> for Packets {
    fn from(p: TextPacket) -> (r: Packets)
        ensures
            r == Packets::Head(p),
    {
        Cons::Head(p)
    }
}

impl vstd::std_specs::convert::FromSpecImpl<TextPacket> for Packets {
    open spec fn obeys_from_spec() -> bool {
        true
    }

    open spec fn from_spec(p: TextPacket) -> Packets {
        Cons::Head(p)
    }
}

impl From<PairPacket> for Packets {
    fn from(p: PairPacket) -> (r: Packets)
        ensures
            r == Packets::Tail(Single::Only(p)),
    {
        Cons::Tail(Single::Only(p))
    }
}

impl vstd::std_specs::convert::FromSpecImpl<PairPacket> for Packets {
    open spec fn obeys_from_spec() -> bool {
        true
    }

    open spec fn from_spec(p: PairPacket) -> Packets {
        Cons::Tail(Single::Only(p))
    }
}

} // verus!
