use bytes::BytesMut;
use krpc::codec::{FrameError, VarintFramedCodec};
use proptest::arbitrary::any;
use proptest::test_runner::{Config, TestCaseError, TestRunner};

#[test]
fn codec_test_varint_framed_roundtrip() {
    let mut runner = TestRunner::new(Config {
        failure_persistence: None,
        ..Config::default()
    });
    runner
        .run(&any::<Vec<u8>>(), |v| {
            let mut codec = VarintFramedCodec;
            let mut buffer = BytesMut::new();

            codec.encode(v.clone(), &mut buffer).unwrap();

            // Incomplete
            let len = buffer.len();
            let tail = buffer.split_off(len / 2);
            let result = codec
                .decode(&mut buffer)
                .map_err(|e| TestCaseError::fail(format!("{:?}", e)))?;
            assert!(result.is_none());

            // Complete. The halves are joined by copying: `unsplit` on an
            // inline buffer trips a pointer check inside bytes 0.4.
            buffer.extend_from_slice(&tail);
            let result = codec
                .decode(&mut buffer)
                .map_err(|e| TestCaseError::fail(format!("{:?}", e)))?
                .unwrap();
            assert_eq!(v, result.into_iter().collect::<Vec<u8>>());

            Ok(())
        })
        .unwrap();
}

#[test]
fn codec_encodes_length_then_payload() {
    let mut codec = VarintFramedCodec;
    let mut buffer = BytesMut::new();
    codec.encode(vec![1, 2, 3], &mut buffer).unwrap();
    assert_eq!(&buffer[..], &[3, 1, 2, 3]);

    let mut empty = BytesMut::new();
    codec.encode(Vec::new(), &mut empty).unwrap();
    assert_eq!(&empty[..], &[0]);

    let mut long = BytesMut::new();
    codec.encode(vec![7u8; 200], &mut long).unwrap();
    assert_eq!(&long[..2], &[0xC8, 0x01]);
    assert_eq!(long.len(), 202);
}

#[test]
fn codec_decode_leaves_the_remainder() {
    let mut codec = VarintFramedCodec;
    let mut buffer = BytesMut::new();
    buffer.extend_from_slice(&[2, 10, 20, 1, 30, 5]);
    let first = codec.decode(&mut buffer).unwrap().unwrap();
    assert_eq!(&first[..], &[10, 20]);
    assert_eq!(&buffer[..], &[1, 30, 5]);
    let second = codec.decode(&mut buffer).unwrap().unwrap();
    assert_eq!(&second[..], &[30]);
    assert_eq!(&buffer[..], &[5]);
    assert!(codec.decode(&mut buffer).unwrap().is_none());
    assert_eq!(&buffer[..], &[5]);
}

#[test]
fn codec_empty_payload_frame() {
    let mut codec = VarintFramedCodec;
    let mut buffer = BytesMut::new();
    assert!(codec.decode(&mut buffer).unwrap().is_none());
    buffer.extend_from_slice(&[0]);
    let frame = codec.decode(&mut buffer).unwrap().unwrap();
    assert!(frame.is_empty());
    assert!(buffer.is_empty());
}

#[test]
fn codec_invalid_length_prefix_is_an_error() {
    let mut codec = VarintFramedCodec;
    let mut buffer = BytesMut::new();
    buffer.extend_from_slice(&[0xFF, 0xFF, 0xFF, 0xFF, 0xFF, 0x01]);
    assert_eq!(codec.decode(&mut buffer).unwrap_err(), FrameError::InvalidLength);
    assert_eq!(buffer.len(), 6);
}

#[test]
fn codec_every_cut_before_completion_waits() {
    let mut codec = VarintFramedCodec;
    let payload: Vec<u8> = (0..150u32).map(|i| i as u8).collect();
    let mut encoded = BytesMut::new();
    codec.encode(payload.clone(), &mut encoded).unwrap();
    for cut in 0..encoded.len() {
        let mut part = BytesMut::new();
        part.extend_from_slice(&encoded[..cut]);
        assert!(codec.decode(&mut part).unwrap().is_none());
        assert_eq!(part.len(), cut);
        part.extend_from_slice(&encoded[cut..]);
        let frame = codec.decode(&mut part).unwrap().unwrap();
        assert_eq!(&frame[..], &payload[..]);
        assert!(part.is_empty());
    }
}
