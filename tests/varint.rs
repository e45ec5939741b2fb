use bytes::BytesMut;
use krpc::varint::{encode_varint, try_decode_varint, varint_bytes, DecodedVarint};
use proptest::arbitrary::any;
use proptest::test_runner::{Config, TestCaseError, TestRunner};

fn runner() -> TestRunner {
    TestRunner::new(Config {
        failure_persistence: None,
        ..Config::default()
    })
}

#[test]
fn test_try_decode_varint() {
    assert_eq!(try_decode_varint(&[]), DecodedVarint::NotEnough);
    assert_eq!(
        try_decode_varint(&[0]),
        DecodedVarint::Decoded { value: 0, bytes: 1 }
    );
    assert_eq!(
        try_decode_varint(&[0b01111111]),
        DecodedVarint::Decoded {
            value: 0b01111111,
            bytes: 1,
        }
    );
    assert_eq!(try_decode_varint(&[0b10000001]), DecodedVarint::NotEnough);
    assert_eq!(
        try_decode_varint(&[0b10000000, 0b00000001]),
        DecodedVarint::Decoded {
            value: 0b10000000,
            bytes: 2,
        }
    );
    assert_eq!(
        try_decode_varint(&[0b11111111, 0b11111111, 0b11111111, 0b11111111, 0b00001111]),
        DecodedVarint::Decoded {
            value: 0xFFFFFFFF,
            bytes: 5,
        }
    );
    assert_eq!(
        try_decode_varint(&[0b11111111, 0b11111111, 0b11111111, 0b11111111, 0b01111111]),
        DecodedVarint::Decoded {
            value: 0xFFFFFFFF,
            bytes: 5,
        }
    );
    assert_eq!(
        try_decode_varint(&[0b11111111, 0b11111111, 0b11111111, 0b11111111, 0b11111111, 0,]),
        DecodedVarint::Invalid
    );
    assert_eq!(
        try_decode_varint(&[0b11111111, 0b11111111, 0b11111111, 0b11111111, 0b11111111]),
        DecodedVarint::Invalid
    );
}

#[test]
fn varint_test_varint_framed_roundtrip() {
    runner()
        .run(&any::<u32>(), |value| {
            let mut buf = BytesMut::new();
            encode_varint(&mut buf, value);
            let bytes = buf.len();
            let decoded = try_decode_varint(&buf);

            let expected = DecodedVarint::Decoded { value, bytes };
            if expected != decoded {
                return Err(TestCaseError::fail(format!(
                    "i = {}, buf = {:?}",
                    value, buf
                )));
            }
            Ok(())
        })
        .unwrap();
}

#[test]
fn varint_encodings_of_known_values() {
    assert_eq!(varint_bytes(0), vec![0x00]);
    assert_eq!(varint_bytes(1), vec![0x01]);
    assert_eq!(varint_bytes(127), vec![0x7F]);
    assert_eq!(varint_bytes(128), vec![0x80, 0x01]);
    assert_eq!(varint_bytes(300), vec![0xAC, 0x02]);
    assert_eq!(varint_bytes(16384), vec![0x80, 0x80, 0x01]);
    assert_eq!(varint_bytes(u32::MAX), vec![0xFF, 0xFF, 0xFF, 0xFF, 0x0F]);
}

#[test]
fn varint_encode_appends_after_existing_bytes() {
    let mut buf = BytesMut::new();
    buf.extend_from_slice(&[9, 9]);
    encode_varint(&mut buf, 300);
    assert_eq!(&buf[..], &[9, 9, 0xAC, 0x02]);
}

#[test]
fn varint_decode_stops_at_first_terminator() {
    assert_eq!(
        try_decode_varint(&[0xAC, 0x02, 0x7F, 0x01]),
        DecodedVarint::Decoded { value: 300, bytes: 2 }
    );
}

#[test]
fn varint_fifth_byte_high_bits_are_dropped() {
    // 0x7F in the fifth byte carries bits past the 32nd; they are discarded.
    assert_eq!(
        try_decode_varint(&[0x80, 0x80, 0x80, 0x80, 0x7F]),
        DecodedVarint::Decoded { value: 0xF000_0000, bytes: 5 }
    );
}

#[test]
fn varint_five_continuation_bytes_are_invalid() {
    assert_eq!(
        try_decode_varint(&[0x80, 0x80, 0x80, 0x80, 0x80, 0x01]),
        DecodedVarint::Invalid
    );
    assert_eq!(
        try_decode_varint(&[0x80, 0x80, 0x80, 0x80]),
        DecodedVarint::NotEnough
    );
}

#[test]
fn varint_strict_prefixes_need_more_bytes() {
    for value in [0u32, 127, 128, 300, 16384, 2_097_152, 268_435_456, u32::MAX] {
        let encoded = varint_bytes(value);
        for cut in 0..encoded.len() {
            assert_eq!(try_decode_varint(&encoded[..cut]), DecodedVarint::NotEnough);
        }
        let mut extended = encoded.clone();
        extended.extend_from_slice(&[1, 2, 3]);
        assert_eq!(
            try_decode_varint(&extended),
            DecodedVarint::Decoded { value, bytes: encoded.len() }
        );
    }
}
