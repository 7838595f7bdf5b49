use puppeteer::payloads::{Packets, PairPacket, PayloadError, TextPacket};
use puppeteer::{deserialize, serialize, try_deserialize};
use puppeteer::{Bytes, BytesMut, Cons, Packet, PacketId, PacketUnion, Single};

fn pair(count: u32, value: f64) -> PairPacket {
    PairPacket(count, value.to_bits())
}

fn encode(p: Packets) -> Vec<u8> {
    let mut buf = BytesMut::new();
    serialize(p, &mut buf);
    buf.to_vec()
}

#[test]
fn pair_round_trip_then_unknown_id() {
    let mut buf = BytesMut::new();
    serialize(Packets::from(pair(123, 3.553)), &mut buf);
    let bytes = buf.to_vec();
    let decoded = deserialize::<Packets>(&mut Bytes::from(bytes.clone()));
    assert_eq!(decoded, Ok(Ok(Packets::from(pair(123, 3.553)))));
    match decoded {
        Ok(Ok(Cons::Tail(Single::Only(PairPacket(count, bits))))) => {
            assert_eq!(count, 123);
            assert_eq!(f64::from_bits(bits), 3.553);
        }
        _ => panic!("expected the pair payload"),
    }

    let mut corrupted = bytes;
    corrupted[0] = 99;
    assert_eq!(deserialize::<Packets>(&mut Bytes::from(corrupted)), Err(99));
}

#[test]
fn text_round_trip() {
    let bytes = encode(Packets::from(TextPacket("héllo".to_string())));
    let mut input = Bytes::from(bytes);
    assert_eq!(
        deserialize::<Packets>(&mut input),
        Ok(Ok(Cons::Head(TextPacket("héllo".to_string()))))
    );
    assert!(input.is_empty());
}

#[test]
fn empty_text_round_trip() {
    let bytes = encode(Packets::from(TextPacket(String::new())));
    assert_eq!(bytes, vec![0, 0, 0]);
    assert_eq!(
        deserialize::<Packets>(&mut Bytes::from(bytes)),
        Ok(Ok(Cons::Head(TextPacket(String::new()))))
    );
}

#[test]
fn longest_text_round_trip() {
    let text = "a".repeat(0xffff);
    let bytes = encode(Packets::from(TextPacket(text.clone())));
    assert_eq!(bytes.len(), 1 + 2 + 0xffff);
    assert_eq!(&bytes[..3], &[0, 0xff, 0xff]);
    assert_eq!(
        deserialize::<Packets>(&mut Bytes::from(bytes)),
        Ok(Ok(Cons::Head(TextPacket(text))))
    );
}

#[test]
fn wire_layout_is_identifier_then_payload() {
    let text = encode(Packets::from(TextPacket("hi".to_string())));
    assert_eq!(text, vec![0, 0, 2, b'h', b'i']);

    let numbers = encode(Packets::from(PairPacket(0x01020304, 0x1112131415161718)));
    assert_eq!(
        numbers,
        vec![1, 1, 2, 3, 4, 0x11, 0x12, 0x13, 0x14, 0x15, 0x16, 0x17, 0x18]
    );
}

#[test]
fn identifier_does_not_depend_on_payload() {
    for count in [0u32, 7, u32::MAX] {
        assert_eq!(encode(Packets::from(pair(count, -1.5)))[0], 1);
    }
    for text in ["", "x", "longer text"] {
        assert_eq!(encode(Packets::from(TextPacket(text.to_string())))[0], 0);
    }
}

#[test]
fn unknown_id_leaves_trailing_bytes_unparsed() {
    let mut input = Bytes::from(vec![99u8, 0, 2, b'h', b'i']);
    assert_eq!(deserialize::<Packets>(&mut input), Err(99));
    assert_eq!(input.to_vec(), vec![0, 2, b'h', b'i']);
}

#[test]
fn truncated_payload_error_passes_through() {
    let payload = vec![0u8, 5, b'a', b'b'];
    let own = TextPacket::deserialize(&mut Bytes::from(payload.clone()));
    assert_eq!(own, Err(PayloadError::Truncated));

    let mut unit = vec![0u8];
    unit.extend_from_slice(&payload);
    assert_eq!(
        deserialize::<Packets>(&mut Bytes::from(unit)),
        Ok(Err(PayloadError::Truncated))
    );
}

#[test]
fn short_pair_payload_is_truncated() {
    let mut input = Bytes::from(vec![1u8, 0, 0, 0, 7]);
    assert_eq!(
        deserialize::<Packets>(&mut input),
        Ok(Err(PayloadError::Truncated))
    );
    assert_eq!(input.to_vec(), vec![0, 0, 0, 7]);
}

#[test]
fn invalid_text_error_passes_through() {
    let payload = vec![0u8, 2, 0xff, 0xfe];
    let own = TextPacket::deserialize(&mut Bytes::from(payload.clone()));
    assert_eq!(own, Err(PayloadError::InvalidText));

    let mut unit = vec![0u8];
    unit.extend_from_slice(&payload);
    assert_eq!(
        deserialize::<Packets>(&mut Bytes::from(unit)),
        Ok(Err(PayloadError::InvalidText))
    );
}

#[test]
fn cursor_stops_after_each_unit() {
    let mut bytes = encode(Packets::from(TextPacket("ab".to_string())));
    bytes.extend(encode(Packets::from(pair(5, 0.25))));
    bytes.extend_from_slice(&[42, 43]);
    let mut input = Bytes::from(bytes);

    assert_eq!(
        deserialize::<Packets>(&mut input),
        Ok(Ok(Packets::from(TextPacket("ab".to_string()))))
    );
    assert_eq!(input.len(), 13 + 2);
    assert_eq!(
        deserialize::<Packets>(&mut input),
        Ok(Ok(Packets::from(pair(5, 0.25))))
    );
    assert_eq!(input.to_vec(), vec![42, 43]);
}

#[test]
fn empty_buffer_yields_nothing() {
    let mut input = Bytes::new();
    assert_eq!(try_deserialize::<Packets>(&mut input), None);
    let mut short = Bytes::from(vec![99u8]);
    assert_eq!(try_deserialize::<Packets>(&mut short), Some(Err(99)));
    assert!(short.is_empty());
}

#[test]
fn wider_identifiers_are_big_endian() {
    let mut buf = BytesMut::new();
    0x1234u16.put_id(&mut buf);
    0x0a0b0c0du32.put_id(&mut buf);
    7u8.put_id(&mut buf);
    assert_eq!(buf.to_vec(), vec![0x12, 0x34, 0x0a, 0x0b, 0x0c, 0x0d, 7]);

    let mut input = buf.freeze();
    assert_eq!(u16::get_id(&mut input), Some(0x1234));
    assert_eq!(u32::get_id(&mut input), Some(0x0a0b0c0d));
    assert_eq!(u16::get_id(&mut input), None);
    assert_eq!(input.len(), 1);
    assert_eq!(u8::get_id(&mut input), Some(7));
    assert_eq!(u8::get_id(&mut input), None);
}

#[test]
fn distinct_identifiers_are_checked() {
    assert!(Packets::ids_distinct());
    assert!(Packets::is_bound(&0));
    assert!(Packets::is_bound(&1));
    assert!(!Packets::is_bound(&99));
    assert!(!<Cons<TextPacket, Single<TextPacket>>>::ids_distinct());
    assert!(<Single<PairPacket>>::ids_distinct());
    assert!(<Cons<PairPacket, Single<TextPacket>>>::ids_distinct());
}

#[test]
fn packet_ids_and_conversions() {
    assert_eq!(TextPacket::ID, 0);
    assert_eq!(PairPacket::ID, 1);
    assert_eq!(
        Packets::from(PairPacket(3, 4)),
        Cons::Tail(Single::Only(PairPacket(3, 4)))
    );
    assert_eq!(
        Packets::from(TextPacket("t".to_string())),
        Cons::Head(TextPacket("t".to_string()))
    );
    assert_eq!(Packets::from(PairPacket(3, 4)).packet_id(), 1);
}

#[test]
fn first_declared_member_wins_on_shared_identifier() {
    let mut buf = BytesMut::new();
    serialize(
        <Cons<TextPacket, Single<TextPacket>>>::Tail(Single::Only(TextPacket("z".to_string()))),
        &mut buf,
    );
    assert_eq!(
        deserialize::<Cons<TextPacket, Single<TextPacket>>>(&mut buf.freeze()),
        Ok(Ok(Cons::Head(TextPacket("z".to_string()))))
    );
}
