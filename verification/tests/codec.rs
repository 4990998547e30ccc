//! Tests of the wire codec: round trips, exact frame bytes, and rejection of
//! malformed frames.

use control_channel::codec::DecodingError;
use control_channel::message::Message;

#[test]
fn round_trip_timeline() {
    let m = Message::Timeline { offset_percentage_bits: 0.3f32.to_bits() };
    let frame = m.encode().unwrap();
    let back = Message::decode(frame.as_slice()).unwrap();
    assert_eq!(back, m);
}

#[test]
fn round_trip_bag_and_buffer() {
    let m = Message::BagAndBuffer {
        bag_duration_bits: 10.0f32.to_bits(),
        buffer_length_bits: 2.0f32.to_bits(),
    };
    let frame = m.encode().unwrap();
    let back = Message::decode(frame.as_slice()).unwrap();
    assert_eq!(back, m);
}

#[test]
fn round_trip_labeling_tool() {
    let m = Message::LabelingTool {
        category: String::from("Dynamic Object"),
        description: String::from("a pedestrian crossing"),
    };
    let frame = m.encode().unwrap();
    let back = Message::decode(frame.as_slice()).unwrap();
    assert_eq!(back, m);
}

#[test]
fn round_trip_labeling_tool_empty_strings() {
    let m = Message::LabelingTool { category: String::new(), description: String::new() };
    let frame = m.encode().unwrap();
    let back = Message::decode(frame.as_slice()).unwrap();
    assert_eq!(back, m);
}

#[test]
fn round_trip_labeling_tool_multibyte_utf8() {
    let m = Message::LabelingTool {
        category: String::from("catégorie"),
        description: String::from("Fußgänger ✓"),
    };
    let frame = m.encode().unwrap();
    let back = Message::decode(frame.as_slice()).unwrap();
    assert_eq!(back, m);
}

#[test]
fn timeline_frame_exact_bytes() {
    // Tag 0, then the little-endian IEEE-754 bits of 0.25 (0x3E800000).
    let m = Message::Timeline { offset_percentage_bits: 0.25f32.to_bits() };
    let frame = m.encode().unwrap();
    assert_eq!(frame, vec![0, 0, 0, 0, 0x00, 0x00, 0x80, 0x3E]);
}

#[test]
fn bag_and_buffer_frame_exact_bytes() {
    // Tag 1, bits of 10.0 (0x41200000), bits of 2.0 (0x40000000), little-endian.
    let m = Message::BagAndBuffer {
        bag_duration_bits: 10.0f32.to_bits(),
        buffer_length_bits: 2.0f32.to_bits(),
    };
    let frame = m.encode().unwrap();
    assert_eq!(frame, vec![1, 0, 0, 0, 0x00, 0x00, 0x20, 0x41, 0x00, 0x00, 0x00, 0x40]);
}

#[test]
fn labeling_frame_exact_bytes() {
    // Tag 2, then each string as a little-endian u64 byte length and UTF-8.
    let m = Message::LabelingTool { category: String::from("ab"), description: String::new() };
    let frame = m.encode().unwrap();
    let expected = vec![
        2, 0, 0, 0, // tag
        2, 0, 0, 0, 0, 0, 0, 0, // category length
        b'a', b'b', // category bytes
        0, 0, 0, 0, 0, 0, 0, 0, // description length
    ];
    assert_eq!(frame, expected);
}

#[test]
fn disconnect_frame_exact_bytes() {
    let frame = Message::Disconnect.encode().unwrap();
    assert_eq!(frame, vec![3, 0, 0, 0]);
}

#[test]
fn decode_rejects_empty_input() {
    assert_eq!(Message::decode(&[]), Err(DecodingError));
}

#[test]
fn decode_rejects_truncated_tag() {
    assert_eq!(Message::decode(&[0, 0, 0]), Err(DecodingError));
}

#[test]
fn decode_rejects_truncated_payload() {
    // A Timeline frame cut one byte short.
    assert_eq!(Message::decode(&[0, 0, 0, 0, 0x00, 0x00, 0x80]), Err(DecodingError));
}

#[test]
fn decode_rejects_unknown_tag() {
    assert_eq!(Message::decode(&[9, 0, 0, 0, 1, 2, 3, 4]), Err(DecodingError));
}

#[test]
fn decode_rejects_trailing_bytes() {
    let mut frame = Message::Disconnect.encode().unwrap();
    frame.push(0);
    assert_eq!(Message::decode(frame.as_slice()), Err(DecodingError));
}

#[test]
fn decode_rejects_string_length_past_end() {
    // Tag 2 with a category length prefix far beyond the frame.
    let bytes = vec![2, 0, 0, 0, 0xFF, 0xFF, 0xFF, 0xFF, 0xFF, 0xFF, 0xFF, 0xFF];
    assert_eq!(Message::decode(bytes.as_slice()), Err(DecodingError));
}

#[test]
fn decode_rejects_invalid_utf8() {
    // Tag 2, category of one byte 0xFF (not UTF-8), empty description.
    let bytes = vec![
        2, 0, 0, 0, // tag
        1, 0, 0, 0, 0, 0, 0, 0, // category length
        0xFF, // not valid UTF-8
        0, 0, 0, 0, 0, 0, 0, 0, // description length
    ];
    assert_eq!(Message::decode(bytes.as_slice()), Err(DecodingError));
}

#[test]
fn decode_multibyte_utf8_from_raw_bytes() {
    // A hand-built frame whose category holds a two-byte UTF-8 scalar; the
    // decoded string must be the decoded characters, not the raw bytes.
    let bytes = vec![
        2, 0, 0, 0, // tag
        2, 0, 0, 0, 0, 0, 0, 0, // category length
        0xC3, 0xA9, // "é"
        0, 0, 0, 0, 0, 0, 0, 0, // description length
    ];
    let m = Message::decode(bytes.as_slice()).unwrap();
    assert_eq!(
        m,
        Message::LabelingTool { category: String::from("é"), description: String::new() }
    );
}
