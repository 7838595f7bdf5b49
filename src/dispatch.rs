//! Writing and reading whole wire units: an identifier followed by its payload.
use crate::buffer::{in_contents, max_len, out_contents};
use crate::id::PacketId;
use crate::packet::{view_result, Packet};
use crate::union::{Cons, PacketUnion};
use bytes::{Bytes, BytesMut};
use vstd::prelude::*;

verus! {

/// The width of the identifier of the union `U`.
pub open spec fn id_width<U: PacketUnion>() -> nat {
    <U::IdType as PacketId>::width()
}

/// The wire unit of a value: its identifier's encoding, then its payload bytes.
pub open spec fn wire<U: PacketUnion>(v: U) -> Seq<u8> {
    v.spec_id().encoding() + v.payload()
}

/// What decoding a wire unit from the front of `b` gives, and how many bytes it
/// reads, where `b` holds at least an identifier: the raw identifier when no
/// member is bound to it, else what that member's payload decoder gives.
pub open spec fn decode_unit<U: PacketUnion>(b: Seq<u8>) -> (
    Result<Result<U::V, U::Error>, U::IdType>,
    nat,
) {
    let id = <U::IdType as PacketId>::decoding(b);
    let w = id_width::<U>();
    if U::binds(id) {
        let (res, n) = U::decode_payload(id, b.skip(w as int));
        (Ok(res), w + n)
    } else {
        (Err(id), w)
    }
}

/// A decoding outcome with its payload replaced by the payload's model.
pub open spec fn view_outcome<U: PacketUnion>(r: Result<Result<U, U::Error>, U::IdType>) -> Result<
    Result<U::V, U::Error>,
    U::IdType,
> {
    match r {
        Ok(res) => Ok(view_result(res)),
        Err(id) => Err(id),
    }
}

/// Appends the wire unit of `packet`: its identifier, then its payload.
pub fn serialize<U: PacketUnion>(packet: U, buf: &mut BytesMut)
    requires
        packet.valid(),
        out_contents(*old(buf)).len() + wire(packet).len() <= max_len(),
    ensures
        out_contents(*final(buf)) == out_contents(*old(buf)) + wire(packet),
{
    let id = packet.packet_id();
    proof {
        id.lemma_codec(Seq::empty());
    }
    id.put_id(buf);
    packet.write_payload(buf);
    assert(out_contents(*final(buf)) =~= out_contents(*old(buf)) + wire(packet));
}

/// Reads one wire unit from a buffer that holds at least an identifier: `Err` with
/// the raw identifier when no member is bound to it, else `Ok` with what the
/// member's payload decoder gives.
pub fn deserialize<U: PacketUnion>(buf: &mut Bytes) -> (r: Result<Result<U, U::Error>, U::IdType>)
    requires
        in_contents(*old(buf)).len() >= id_width::<U>(),
    ensures
        ({
            let (res, n) = decode_unit::<U>(in_contents(*old(buf)));
            &&& view_outcome(r) == res
            &&& n <= in_contents(*old(buf)).len()
            &&& in_contents(*final(buf)) == in_contents(*old(buf)).skip(n as int)
        }),
{
    match try_deserialize::<U>(buf) {
        Some(r) => r,
        None => vstd::pervasive::unreached(),
    }
}

/// Reads one wire unit, or nothing (and nothing read) when the buffer is shorter
/// than an identifier; otherwise as `deserialize`.
pub fn try_deserialize<U: PacketUnion>(buf: &mut Bytes) -> (r: Option<
    Result<Result<U, U::Error>, U::IdType>,
>)
    ensures
        in_contents(*old(buf)).len() < id_width::<U>() ==> r is None && *final(buf) == *old(buf),
        in_contents(*old(buf)).len() >= id_width::<U>() ==> {
            let (res, n) = decode_unit::<U>(in_contents(*old(buf)));
            &&& r is Some
            &&& view_outcome(r->0) == res
            &&& n <= in_contents(*old(buf)).len()
            &&& in_contents(*final(buf)) == in_contents(*old(buf)).skip(n as int)
        },
{
    match <U::IdType as PacketId>::get_id(buf) {
        Some(id) => {
            match U::read_payload(&id, buf) {
                Some(res) => {
                    assert(in_contents(*buf) =~= in_contents(*old(buf)).skip(
                        decode_unit::<U>(in_contents(*old(buf))).1 as int,
                    ));
                    Some(Ok(res))
                },
                None => Some(Err(id)),
            }
        },
        None => None,
    }
}

/// Round trip: decoding the wire unit of a valid value of a union whose members
/// have distinct identifiers gives `Ok(Ok(value))`, reads exactly the unit, and
/// leaves whatever followed it.
pub proof fn lemma_round_trip<U: PacketUnion>(v: U, rest: Seq<u8>)
    requires
        v.valid(),
        U::distinct(),
    ensures
        wire(v).len() >= id_width::<U>(),
        decode_unit::<U>(wire(v) + rest) == (
            Ok::<Result<U::V, U::Error>, U::IdType>(Ok(v@)),
            wire(v).len(),
        ),
        (wire(v) + rest).skip(wire(v).len() as int) == rest,
{
    let id = v.spec_id();
    let w = id_width::<U>();
    id.lemma_codec(v.payload() + rest);
    assert(wire(v) + rest =~= id.encoding() + (v.payload() + rest));
    assert((wire(v) + rest).skip(w as int) =~= v.payload() + rest);
    v.lemma_payload_round_trip(rest);
    assert((wire(v) + rest).skip(wire(v).len() as int) =~= rest);
}

/// Identifier fidelity: a wire unit starts with exactly the encoding of the held
/// member's identifier, whatever the payload.
pub proof fn lemma_id_fidelity<U: PacketUnion>(v: U)
    ensures
        wire(v).len() >= id_width::<U>(),
        wire(v).take(id_width::<U>() as int) == v.spec_id().encoding(),
{
    v.spec_id().lemma_codec(Seq::empty());
    assert(wire(v).take(id_width::<U>() as int) =~= v.spec_id().encoding());
}

/// Unknown identifiers: when no member is bound to `id`, decoding gives `Err(id)`
/// and reads only the identifier, whatever follows it.
pub proof fn lemma_unknown_id<U: PacketUnion>(id: U::IdType, rest: Seq<u8>)
    requires
        !U::binds(id),
    ensures
        decode_unit::<U>(id.encoding() + rest) == (
            Err::<Result<U::V, U::Error>, U::IdType>(id),
            id_width::<U>(),
        ),
{
    id.lemma_codec(rest);
}

/// Payload results pass through: under a bound identifier, decoding gives `Ok` of
/// exactly what that member's payload decoder gives on the bytes that follow.
pub proof fn lemma_payload_passthrough<U: PacketUnion>(id: U::IdType, rest: Seq<u8>)
    requires
        U::binds(id),
    ensures
        decode_unit::<U>(id.encoding() + rest) == (
            Ok::<Result<U::V, U::Error>, U::IdType>(U::decode_payload(id, rest).0),
            id_width::<U>() + U::decode_payload(id, rest).1,
        ),
{
    id.lemma_codec(rest);
    assert((id.encoding() + rest).skip(id_width::<U>() as int) =~= rest);
}

/// A payload error passes through unchanged: under the identifier of the first
/// member, an error of that member's own decoder is the inner error of the union.
pub proof fn lemma_error_passthrough<P: Packet, R: PacketUnion<Error = P::Error, IdType = P::IdType>>(
    rest: Seq<u8>,
    e: P::Error,
)
    requires
        P::decode(rest).0 == Err::<P::V, P::Error>(e),
    ensures
        decode_unit::<Cons<P, R>>(P::ID.encoding() + rest).0 == Ok::<
            Result<Cons<P::V, R::V>, P::Error>,
            P::IdType,
        >(Err(e)),
{
    lemma_payload_passthrough::<Cons<P, R>>(P::ID, rest);
}

} // verus!
