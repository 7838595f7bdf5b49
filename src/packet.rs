//! The capability that each payload type provides to take part in a union.
use crate::buffer::{in_contents, max_len, out_contents};
use crate::id::PacketId;
use bytes::{Bytes, BytesMut};
use vstd::prelude::*;

verus! {

/// A result with its success value replaced by that value's model.
pub open spec fn view_result<T: View, E>(r: Result<T, E>) -> Result<T::V, E> {
    match r {
        Ok(v) => Ok(v@),
        Err(e) => Err(e),
    }
}

/// A payload type bound to one identifier, with its own codec and error type.
pub trait Packet: Sized + View {
    /// What decoding this payload can fail with.
    type Error;

    /// The identifier type shared by the packets of one protocol.
    type IdType: PacketId;

    /// The identifier this payload type is bound to.
    const ID: Self::IdType;

    /// Which in-memory values the codec can write.
    spec fn valid(&self) -> bool;

    /// The bytes written for this value.
    spec fn encode(self) -> Seq<u8>;

    /// What decoding the front of `b` gives, as a model, and how many bytes it reads.
    spec fn decode(b: Seq<u8>) -> (Result<Self::V, Self::Error>, nat);

    /// Decoding what was written for a valid value gives that value back and reads
    /// exactly its bytes, whatever follows.
    proof fn lemma_round_trip(self, rest: Seq<u8>)
        requires
            self.valid(),
        ensures
            Self::decode(self.encode() + rest) == (
                Ok::<Self::V, Self::Error>(self@),
                self.encode().len(),
            ),
    ;

    /// Consumes the value and appends its encoding.
    fn serialize(self, buf: &mut BytesMut)
        requires
            self.valid(),
            out_contents(*old(buf)).len() + self.encode().len() <= max_len(),
        ensures
            out_contents(*final(buf)) == out_contents(*old(buf)) + self.encode(),
    ;

    /// Reads a value from the front of `buf`, moving past exactly the bytes it reads.
    fn deserialize(buf: &mut Bytes) -> (r: Result<Self, Self::Error>)
        ensures
            view_result(r) == Self::decode(in_contents(*old(buf))).0,
            Self::decode(in_contents(*old(buf))).1 <= in_contents(*old(buf)).len(),
            in_contents(*final(buf)) == in_contents(*old(buf)).skip(
                Self::decode(in_contents(*old(buf))).1 as int,
            ),
            r is Ok ==> r->Ok_0.valid(),
    ;
}

} // verus!
