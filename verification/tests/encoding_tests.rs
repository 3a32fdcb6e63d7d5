use base64::Engine;
use base64::engine::general_purpose::STANDARD;
use pixoo64::encoding::base64_encode_bytes;
use pixoo64::encoding::serialize_frame;
use pixoo64::frame::FRAME_BYTES;
use pixoo64::frame::color_test;
use pixoo64::Frame;
use pixoo64::Rgb;

#[test]
fn encode_matches_rfc_test_vectors() {
    assert_eq!(base64_encode_bytes(b""), b"");
    assert_eq!(base64_encode_bytes(b"f"), b"Zg==");
    assert_eq!(base64_encode_bytes(b"fo"), b"Zm8=");
    assert_eq!(base64_encode_bytes(b"foo"), b"Zm9v");
    assert_eq!(base64_encode_bytes(b"foob"), b"Zm9vYg==");
    assert_eq!(base64_encode_bytes(b"fooba"), b"Zm9vYmE=");
    assert_eq!(base64_encode_bytes(b"foobar"), b"Zm9vYmFy");
}

#[test]
fn encode_agrees_with_the_standard_engine() {
    let samples: Vec<Vec<u8>> = vec![
        vec![],
        vec![0],
        vec![255],
        vec![0, 255],
        vec![1, 2, 3, 4, 5, 6, 7, 8, 9],
        (0u16..=255).map(|b| b as u8).collect(),
    ];
    for sample in samples {
        let ours = base64_encode_bytes(&sample);
        let theirs = STANDARD.encode(&sample).into_bytes();
        assert_eq!(ours, theirs);
    }
}

#[test]
fn frame_encoding_round_trips_through_standard_base64() {
    let mut gradient = Frame::default();
    color_test(&mut gradient);

    let mut all_max = Frame::default();
    all_max.fill(Rgb { r: 255, g: 255, b: 255 });

    let mut patterned = Frame::default();
    let raw: Vec<u8> = (0..FRAME_BYTES).map(|i| (i % 253) as u8).collect();
    patterned.fill_with_bytes(&raw);

    for frame in [Frame::default(), gradient, all_max, patterned] {
        let text = serialize_frame(&frame);
        let decoded = STANDARD.decode(&text).unwrap();
        assert_eq!(decoded, frame.as_bytes());
    }
}

#[test]
fn frame_encoding_has_no_padding_and_fixed_length() {
    let frame = Frame::default();
    let text = serialize_frame(&frame);
    // 12288 bytes is a whole number of three-byte groups: 16384 chars, no '='.
    assert_eq!(text.len(), 16384);
    assert!(!text.contains(&b'='));
    assert!(text.is_ascii());
}
