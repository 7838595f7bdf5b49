//! The dispatcher: a closed set of packet types as a type-level list, with one
//! wire encoding (identifier, then payload) and one decoder for the whole set.
use crate::buffer::{in_contents, max_len, out_contents};
use crate::id::PacketId;
use crate::packet::{view_result, Packet};
use bytes::{Bytes, BytesMut};
use vstd::prelude::*;

verus! {

/// A closed set of packet types, each value holding exactly one payload.
pub trait PacketUnion: Sized + View {
    /// The payload error type shared by every member.
    type Error;

    /// The identifier type shared by every member.
    type IdType: PacketId;

    /// Whether some member is bound to `id`.
    spec fn binds(id: Self::IdType) -> bool;

    /// Whether no two members share an identifier.
    spec fn distinct() -> bool;

    /// Whether the held payload is valid for its codec.
    spec fn valid(&self) -> bool;

    /// The identifier of the member that this value holds.
    spec fn spec_id(&self) -> Self::IdType;

    /// The payload bytes of the held value.
    spec fn payload(self) -> Seq<u8>;

    /// What decoding the payload of the member bound to `id` from the front of `b`
    /// gives, and how many bytes it reads.
    spec fn decode_payload(id: Self::IdType, b: Seq<u8>) -> (Result<Self::V, Self::Error>, nat);

    /// A valid value is held by a bound member, and decoding its payload under its
    /// identifier gives it back and reads exactly its bytes.
    proof fn lemma_payload_round_trip(self, rest: Seq<u8>)
        requires
            self.valid(),
            Self::distinct(),
        ensures
            Self::binds(self.spec_id()),
            Self::decode_payload(self.spec_id(), self.payload() + rest) == (
                Ok::<Self::V, Self::Error>(self@),
                self.payload().len(),
            ),
    ;

    /// Whether some member is bound to `id`.
    fn is_bound(id: &Self::IdType) -> (r: bool)
        ensures
            r == Self::binds(*id),
    ;

    /// Whether no two members share an identifier: a set for which this is false
    /// is misconfigured.
    fn ids_distinct() -> (r: bool)
        ensures
            r == Self::distinct(),
    ;

    /// The identifier of the member that this value holds.
    fn packet_id(&self) -> (r: Self::IdType)
        ensures
            r == self.spec_id(),
    ;

    /// Consumes the value and appends its payload bytes.
    fn write_payload(self, buf: &mut BytesMut)
        requires
            self.valid(),
            out_contents(*old(buf)).len() + self.payload().len() <= max_len(),
        ensures
            out_contents(*final(buf)) == out_contents(*old(buf)) + self.payload(),
    ;

    /// Decodes the payload of the member bound to `id`; nothing, and nothing read,
    /// when no member is bound to it.
    fn read_payload(id: &Self::IdType, buf: &mut Bytes) -> (r: Option<Result<Self, Self::Error>>)
        ensures
            !Self::binds(*id) ==> r is None && *final(buf) == *old(buf),
            Self::binds(*id) ==> {
                let (res, n) = Self::decode_payload(*id, in_contents(*old(buf)));
                &&& r is Some
                &&& view_result(r->0) == res
                &&& n <= in_contents(*old(buf)).len()
                &&& in_contents(*final(buf)) == in_contents(*old(buf)).skip(n as int)
            },
    ;
}

/// A set of one packet type.
#[derive(Debug, PartialEq, Eq)]
pub enum Single<P> {
    Only(P),
}

/// A set made of the packet type `P` and the set `R`.
#[derive(Debug, PartialEq, Eq)]
pub enum Cons<P, R> {
    Head(P),
    Tail(R),
}

impl<P: View> View for Single<P> {
    type V = Single<P::V>;

    open spec fn view(&self) -> Single<P::V> {
        match self {
            Single::Only(p) => Single::Only(p@),
        }
    }
}

impl<P: View, R: View> View for Cons<P, R> {
    type V = Cons<P::V, R::V>;

    open spec fn view(&self) -> Cons<P::V, R::V> {
        match self {
            Cons::Head(p) => Cons::Head(p@),
            Cons::Tail(r) => Cons::Tail(r@),
        }
    }
}

impl<P: Packet> PacketUnion for Single<P> {
    type Error = P::Error;

    type IdType = P::IdType;

    open spec fn binds(id: P::IdType) -> bool {
        id == P::ID
    }

    open spec fn distinct() -> bool {
        true
    }

    open spec fn valid(&self) -> bool {
        match self {
            Single::Only(p) => p.valid(),
        }
    }

    open spec fn spec_id(&self) -> P::IdType {
        P::ID
    }

    open spec fn payload(self) -> Seq<u8> {
        match self {
            Single::Only(p) => p.encode(),
        }
    }

    open spec fn decode_payload(id: P::IdType, b: Seq<u8>) -> (Result<Self::V, P::Error>, nat) {
        let (res, n) = P::decode(b);
        (
            match res {
                Ok(p) => Ok(Single::Only(p)),
                Err(e) => Err(e),
            },
            n,
        )
    }

    proof fn lemma_payload_round_trip(self, rest: Seq<u8>) {
        match self {
            Single::Only(p) => p.lemma_round_trip(rest),
        }
    }

    fn is_bound(id: &P::IdType) -> (r: bool) {
        id.same(&P::ID)
    }

    fn ids_distinct() -> (r: bool) {
        true
    }

    fn packet_id(&self) -> (r: P::IdType) {
        P::ID
    }

    fn write_payload(self, buf: &mut BytesMut) {
        match self {
            Single::Only(p) => p.serialize(buf),
        }
    }

    fn read_payload(id: &P::IdType, buf: &mut Bytes) -> (r: Option<Result<Self, P::Error>>) {
        if id.same(&P::ID) {
            match P::deserialize(buf) {
                Ok(p) => Some(Ok(Single::Only(p))),
                Err(e) => Some(Err(e)),
            }
        } else {
            None
        }
    }
}

impl<P: Packet, R: PacketUnion<Error = P::Error, IdType = P::IdType>> PacketUnion for Cons<P, R> {
    type Error = P::Error;

    type IdType = P::IdType;

    open spec fn binds(id: P::IdType) -> bool {
        id == P::ID || R::binds(id)
    }

    open spec fn distinct() -> bool {
        !R::binds(P::ID) && R::distinct()
    }

    open spec fn valid(&self) -> bool {
        match self {
            Cons::Head(p) => p.valid(),
            Cons::Tail(r) => r.valid(),
        }
    }

    open spec fn spec_id(&self) -> P::IdType {
        match self {
            Cons::Head(_) => P::ID,
            Cons::Tail(r) => r.spec_id(),
        }
    }

    open spec fn payload(self) -> Seq<u8> {
        match self {
            Cons::Head(p) => p.encode(),
            Cons::Tail(r) => r.payload(),
        }
    }

    open spec fn decode_payload(id: P::IdType, b: Seq<u8>) -> (Result<Self::V, P::Error>, nat) {
        if id == P::ID {
            let (res, n) = P::decode(b);
            (
                match res {
                    Ok(p) => Ok(Cons::Head(p)),
                    Err(e) => Err(e),
                },
                n,
            )
        } else {
            let (res, n) = R::decode_payload(id, b);
            (
                match res {
                    Ok(r) => Ok(Cons::Tail(r)),
                    Err(e) => Err(e),
                },
                n,
            )
        }
    }

    proof fn lemma_payload_round_trip(self, rest: Seq<u8>) {
        match self {
            Cons::Head(p) => p.lemma_round_trip(rest),
            Cons::Tail(r) => r.lemma_payload_round_trip(rest),
        }
    }

    fn is_bound(id: &P::IdType) -> (r: bool) {
        id.same(&P::ID) || R::is_bound(id)
    }

    fn ids_distinct() -> (r: bool) {
        !R::is_bound(&P::ID) && R::ids_distinct()
    }

    fn packet_id(&self) -> (r: P::IdType) {
        match self {
            Cons::Head(_) => P::ID,
            Cons::Tail(r) => r.packet_id(),
        }
    }

    fn write_payload(self, buf: &mut BytesMut) {
        match self {
            Cons::Head(p) => p.serialize(buf),
            Cons::Tail(r) => r.write_payload(buf),
        }
    }

    fn read_payload(id: &P::IdType, buf: &mut Bytes) -> (r: Option<Result<Self, P::Error>>) {
        if id.same(&P::ID) {
            match P::deserialize(buf) {
                Ok(p) => Some(Ok(Cons::Head(p))),
                Err(e) => Some(Err(e)),
            }
        } else {
            match R::read_payload(id, buf) {
                Some(Ok(r)) => Some(Ok(Cons::Tail(r))),
                Some(Err(e)) => Some(Err(e)),
                None => None,
            }
        }
    }
}

} // verus!
