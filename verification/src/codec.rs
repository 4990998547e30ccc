//! The wire codec: one frame is the self-describing binary serialization of
//! exactly one [`Message`].
//!
//! A frame starts with the variant tag as a little-endian `u32`, followed by
//! the fields in declaration order: each numeric field as a little-endian
//! 32-bit value, each string field as a little-endian `u64` byte length
//! followed by that many bytes of UTF-8.  The codec itself adds no outer
//! length prefix; framing relies on the transport delivering one complete
//! frame per read.

use vstd::bytes::*;
use vstd::prelude::*;
use vstd::utf8::*;

use crate::message::Message;
use crate::message::MessageView;

verus! {

/// Wire tag of `Message::Timeline`.
pub const TAG_TIMELINE: u32 = 0;

/// Wire tag of `Message::BagAndBuffer`.
pub const TAG_BAG_AND_BUFFER: u32 = 1;

/// Wire tag of `Message::LabelingTool`.
pub const TAG_LABELING_TOOL: u32 = 2;

/// Wire tag of `Message::Disconnect`.
pub const TAG_DISCONNECT: u32 = 3;

/// A message could not be represented as a frame.  This can only happen to a
/// string field whose UTF-8 encoding does not fit the 64-bit length prefix,
/// which no string held in memory reaches; `Message::encode` proves it never
/// returns this error.
#[derive(Clone, Copy, Debug, PartialEq, Eq)]
pub struct EncodingError;

/// The bytes handed to `Message::decode` are not a well-formed frame: the
/// caller can distinguish a bad frame from a closed connection.
#[derive(Clone, Copy, Debug, PartialEq, Eq)]
pub struct DecodingError;

/// The wire form of one string field: a little-endian `u64` byte length,
/// then the UTF-8 encoding of the characters.
pub open spec fn spec_encode_str(s: Seq<char>) -> Seq<u8> {
    spec_u64_to_le_bytes(encode_utf8(s).len() as u64) + encode_utf8(s)
}

/// The frame encoding a message: variant tag, then the fields in order.
pub open spec fn spec_encode(m: MessageView) -> Seq<u8> {
    match m {
        MessageView::Timeline { offset_percentage_bits } => spec_u32_to_le_bytes(TAG_TIMELINE)
            + spec_u32_to_le_bytes(offset_percentage_bits),
        MessageView::BagAndBuffer { bag_duration_bits, buffer_length_bits } => spec_u32_to_le_bytes(
            TAG_BAG_AND_BUFFER,
        ) + spec_u32_to_le_bytes(bag_duration_bits) + spec_u32_to_le_bytes(buffer_length_bits),
        MessageView::LabelingTool { category, description } => spec_u32_to_le_bytes(
            TAG_LABELING_TOOL,
        ) + spec_encode_str(category) + spec_encode_str(description),
        MessageView::Disconnect => spec_u32_to_le_bytes(TAG_DISCONNECT),
    }
}

/// Whether a message can be put on the wire faithfully: every string field's
/// UTF-8 encoding must fit its 64-bit length prefix.  Every message whose
/// strings exist in memory satisfies this.
pub open spec fn fits_wire(m: MessageView) -> bool {
    match m {
        MessageView::LabelingTool { category, description } => encode_utf8(category).len()
            <= u64::MAX && encode_utf8(description).len() <= u64::MAX,
        _ => true,
    }
}

/// Decoding of the field bytes of a `LabelingTool` frame (everything after
/// the tag): two length-prefixed UTF-8 strings, with nothing left over.
pub open spec fn spec_decode_labeling(rest: Seq<u8>) -> Option<MessageView> {
    if rest.len() < 8 {
        None
    } else {
        let n1 = spec_u64_from_le_bytes(rest.subrange(0, 8)) as int;
        if rest.len() < 8 + n1 {
            None
        } else {
            let b1 = rest.subrange(8, 8 + n1);
            let rest2 = rest.subrange(8 + n1, rest.len() as int);
            if rest2.len() < 8 {
                None
            } else {
                let n2 = spec_u64_from_le_bytes(rest2.subrange(0, 8)) as int;
                if rest2.len() != 8 + n2 {
                    None
                } else {
                    let b2 = rest2.subrange(8, rest2.len() as int);
                    if valid_utf8(b1) && valid_utf8(b2) {
                        Some(
                            MessageView::LabelingTool {
                                category: decode_utf8(b1),
                                description: decode_utf8(b2),
                            },
                        )
                    } else {
                        None
                    }
                }
            }
        }
    }
}

/// The message a frame decodes to, or `None` when the bytes are not exactly
/// one well-formed frame.
pub open spec fn spec_decode(data: Seq<u8>) -> Option<MessageView> {
    if data.len() < 4 {
        None
    } else {
        let tag = spec_u32_from_le_bytes(data.subrange(0, 4));
        let rest = data.subrange(4, data.len() as int);
        if tag == TAG_TIMELINE {
            if rest.len() == 4 {
                Some(MessageView::Timeline { offset_percentage_bits: spec_u32_from_le_bytes(rest) })
            } else {
                None
            }
        } else if tag == TAG_BAG_AND_BUFFER {
            if rest.len() == 8 {
                Some(
                    MessageView::BagAndBuffer {
                        bag_duration_bits: spec_u32_from_le_bytes(rest.subrange(0, 4)),
                        buffer_length_bits: spec_u32_from_le_bytes(rest.subrange(4, 8)),
                    },
                )
            } else {
                None
            }
        } else if tag == TAG_LABELING_TOOL {
            spec_decode_labeling(rest)
        } else if tag == TAG_DISCONNECT {
            if rest.len() == 0 {
                Some(MessageView::Disconnect)
            } else {
                None
            }
        } else {
            None
        }
    }
}

/// Round trip: decoding the encoding of any message that fits the wire gives
/// back exactly that message, for every variant, empty strings included.
pub proof fn lemma_round_trip(m: MessageView)
    requires
        fits_wire(m),
    ensures
        spec_decode(spec_encode(m)) == Some(m),
{
    lemma_auto_spec_u32_to_from_le_bytes();
    lemma_auto_spec_u64_to_from_le_bytes();
    let data = spec_encode(m);
    match m {
        MessageView::Timeline { offset_percentage_bits } => {
            assert(data.subrange(0, 4) =~= spec_u32_to_le_bytes(TAG_TIMELINE));
            assert(data.subrange(4, data.len() as int) =~= spec_u32_to_le_bytes(
                offset_percentage_bits,
            ));
        },
        MessageView::BagAndBuffer { bag_duration_bits, buffer_length_bits } => {
            let rest = data.subrange(4, data.len() as int);
            assert(data.subrange(0, 4) =~= spec_u32_to_le_bytes(TAG_BAG_AND_BUFFER));
            assert(rest.subrange(0, 4) =~= spec_u32_to_le_bytes(bag_duration_bits));
            assert(rest.subrange(4, 8) =~= spec_u32_to_le_bytes(buffer_length_bits));
        },
        MessageView::LabelingTool { category, description } => {
            broadcast use encode_utf8_valid_utf8, encode_utf8_decode_utf8;

            let b1 = encode_utf8(category);
            let b2 = encode_utf8(description);
            let n1 = b1.len() as int;
            let n2 = b2.len() as int;
            assert((n1 as u64) as int == n1);
            assert((n2 as u64) as int == n2);
            assert(data.subrange(0, 4) =~= spec_u32_to_le_bytes(TAG_LABELING_TOOL));
            let rest = data.subrange(4, data.len() as int);
            assert(rest =~= spec_u64_to_le_bytes(n1 as u64) + b1 + spec_u64_to_le_bytes(n2 as u64)
                + b2);
            assert(rest.subrange(0, 8) =~= spec_u64_to_le_bytes(n1 as u64));
            assert(rest.subrange(8, 8 + n1) =~= b1);
            let rest2 = rest.subrange(8 + n1, rest.len() as int);
            assert(rest2 =~= spec_u64_to_le_bytes(n2 as u64) + b2);
            assert(rest2.subrange(0, 8) =~= spec_u64_to_le_bytes(n2 as u64));
            assert(rest2.subrange(8, rest2.len() as int) =~= b2);
        },
        MessageView::Disconnect => {
            assert(data.subrange(0, 4) =~= spec_u32_to_le_bytes(TAG_DISCONNECT));
            assert(data.subrange(4, data.len() as int).len() == 0);
        },
    }
}

/// A frame decodes to at most one message, and only to one that fits the
/// wire: decoding inverts encoding on the side of the bytes as well.
pub proof fn lemma_decode_inverts(data: Seq<u8>, m: MessageView)
    requires
        spec_decode(data) == Some(m),
    ensures
        fits_wire(m),
        spec_encode(m) == data,
{
    lemma_auto_spec_u32_to_from_le_bytes();
    lemma_auto_spec_u64_to_from_le_bytes();
    let tag = spec_u32_from_le_bytes(data.subrange(0, 4));
    let rest = data.subrange(4, data.len() as int);
    if tag == TAG_TIMELINE {
        assert(spec_encode(m) =~= data.subrange(0, 4) + rest);
        assert(data.subrange(0, 4) + rest =~= data);
    } else if tag == TAG_BAG_AND_BUFFER {
        assert(rest.subrange(0, 4) + rest.subrange(4, 8) =~= rest);
        assert(spec_encode(m) =~= data.subrange(0, 4) + rest.subrange(0, 4) + rest.subrange(4, 8));
        assert(data.subrange(0, 4) + rest.subrange(0, 4) + rest.subrange(4, 8) =~= data);
    } else if tag == TAG_LABELING_TOOL {
        broadcast use decode_utf8_encode_utf8;

        let n1 = spec_u64_from_le_bytes(rest.subrange(0, 8)) as int;
        let b1 = rest.subrange(8, 8 + n1);
        let rest2 = rest.subrange(8 + n1, rest.len() as int);
        let n2 = spec_u64_from_le_bytes(rest2.subrange(0, 8)) as int;
        let b2 = rest2.subrange(8, rest2.len() as int);
        assert(encode_utf8(decode_utf8(b1)) == b1);
        assert(encode_utf8(decode_utf8(b2)) == b2);
        assert(spec_encode_str(decode_utf8(b1)) =~= rest.subrange(0, 8) + b1);
        assert(spec_encode_str(decode_utf8(b2)) =~= rest2.subrange(0, 8) + b2);
        assert(spec_encode(m) =~= data.subrange(0, 4) + rest.subrange(0, 8) + b1 + rest2.subrange(
            0,
            8,
        ) + b2);
        assert(data.subrange(0, 4) + rest.subrange(0, 8) + b1 + rest2.subrange(0, 8) + b2 =~= data);
    } else {
        assert(tag == TAG_DISCONNECT);
        assert(spec_encode(m) =~= data.subrange(0, 4));
        assert(data.subrange(0, 4) =~= data);
    }
}

/// Two different messages never share a frame: encoding is injective on
/// messages that fit the wire.
pub proof fn lemma_encoding_injective(m1: MessageView, m2: MessageView)
    requires
        fits_wire(m1),
        fits_wire(m2),
        spec_encode(m1) == spec_encode(m2),
    ensures
        m1 == m2,
{
    lemma_round_trip(m1);
    lemma_round_trip(m2);
}

/// Relies on `String::from_utf8` of std: it returns `Ok` exactly when the
/// bytes are valid UTF-8, and then the returned string is their UTF-8
/// decoding (equivalently, its UTF-8 encoding is the input unchanged).
#[verifier::external_body]
fn bytes_to_string(bytes: Vec<u8>) -> (r: Option<String>)
    ensures
        r is Some <==> valid_utf8(bytes@),
        r matches Some(s) ==> encode_utf8(s@) == bytes@,
{
    String::from_utf8(bytes).ok()
}

/// Appends the wire form of one string field: length prefix, then UTF-8.
fn push_string_field(out: &mut Vec<u8>, s: &String)
    ensures
        final(out)@ == old(out)@ + spec_encode_str(s@),
        encode_utf8(s@).len() <= u64::MAX,
{
    let bytes = s.as_str().as_bytes_vec();
    let len64: u64 = bytes.len() as u64;
    let mut prefix = u64_to_le_bytes(len64);
    out.append(&mut prefix);
    let mut payload = bytes;
    out.append(&mut payload);
    proof {
        assert(out@ =~= old(out)@ + spec_encode_str(s@));
    }
}

impl Message {
    /// Serializes the message into one frame.  Encoding is total over all
    /// four variants: the result is always `Ok`, and holds exactly the frame
    /// [`spec_encode`] describes.
    pub fn encode(&self) -> (r: Result<Vec<u8>, EncodingError>)
        ensures
            r is Ok,
            r matches Ok(data) ==> data@ == spec_encode(self@),
            fits_wire(self@),
    {
        match self {
            Message::Timeline { offset_percentage_bits } => {
                let mut out = u32_to_le_bytes(TAG_TIMELINE);
                let mut field = u32_to_le_bytes(*offset_percentage_bits);
                out.append(&mut field);
                proof {
                    assert(out@ =~= spec_encode(self@));
                }
                Ok(out)
            },
            Message::BagAndBuffer { bag_duration_bits, buffer_length_bits } => {
                let mut out = u32_to_le_bytes(TAG_BAG_AND_BUFFER);
                let mut field1 = u32_to_le_bytes(*bag_duration_bits);
                let mut field2 = u32_to_le_bytes(*buffer_length_bits);
                out.append(&mut field1);
                out.append(&mut field2);
                proof {
                    assert(out@ =~= spec_encode(self@));
                }
                Ok(out)
            },
            Message::LabelingTool { category, description } => {
                let mut out = u32_to_le_bytes(TAG_LABELING_TOOL);
                push_string_field(&mut out, category);
                push_string_field(&mut out, description);
                proof {
                    assert(out@ =~= spec_encode(self@));
                }
                Ok(out)
            },
            Message::Disconnect => Ok(u32_to_le_bytes(TAG_DISCONNECT)),
        }
    }

    /// Deserializes one frame.  Succeeds exactly on the bytes that are the
    /// frame of some message, and then returns that message; anything
    /// malformed or truncated is a `DecodingError`.
    pub fn decode(data: &[u8]) -> (r: Result<Message, DecodingError>)
        ensures
            r matches Ok(m) ==> spec_decode(data@) == Some(m@),
            r is Err ==> spec_decode(data@) is None,
    {
        proof {
            lemma_auto_spec_u32_to_from_le_bytes();
        }
        if data.len() < 4 {
            return Err(DecodingError);
        }
        let tag = u32_from_le_bytes(vstd::slice::slice_subrange(data, 0, 4));
        let rest = vstd::slice::slice_subrange(data, 4, data.len());
        if tag == TAG_TIMELINE {
            if rest.len() != 4 {
                return Err(DecodingError);
            }
            let bits = u32_from_le_bytes(rest);
            Ok(Message::Timeline { offset_percentage_bits: bits })
        } else if tag == TAG_BAG_AND_BUFFER {
            if rest.len() != 8 {
                return Err(DecodingError);
            }
            let d = u32_from_le_bytes(vstd::slice::slice_subrange(rest, 0, 4));
            let l = u32_from_le_bytes(vstd::slice::slice_subrange(rest, 4, 8));
            Ok(Message::BagAndBuffer { bag_duration_bits: d, buffer_length_bits: l })
        } else if tag == TAG_LABELING_TOOL {
            decode_labeling_fields(rest)
        } else if tag == TAG_DISCONNECT {
            if rest.len() != 0 {
                return Err(DecodingError);
            }
            Ok(Message::Disconnect)
        } else {
            Err(DecodingError)
        }
    }
}

/// Parses the field bytes of a `LabelingTool` frame (everything after the
/// tag): two length-prefixed UTF-8 strings, with nothing left over.
fn decode_labeling_fields(rest: &[u8]) -> (r: Result<Message, DecodingError>)
    ensures
        r matches Ok(m) ==> spec_decode_labeling(rest@) == Some(m@),
        r is Err ==> spec_decode_labeling(rest@) is None,
{
    proof {
        lemma_auto_spec_u64_to_from_le_bytes();
    }
    if rest.len() < 8 {
        return Err(DecodingError);
    }
    let n1u = u64_from_le_bytes(vstd::slice::slice_subrange(rest, 0, 8));
    if n1u > (rest.len() - 8) as u64 {
        return Err(DecodingError);
    }
    let n1 = n1u as usize;
    let b1 = vstd::slice::slice_subrange(rest, 8, 8 + n1);
    let rest2 = vstd::slice::slice_subrange(rest, 8 + n1, rest.len());
    if rest2.len() < 8 {
        return Err(DecodingError);
    }
    let n2u = u64_from_le_bytes(vstd::slice::slice_subrange(rest2, 0, 8));
    if n2u != (rest2.len() - 8) as u64 {
        return Err(DecodingError);
    }
    let b2 = vstd::slice::slice_subrange(rest2, 8, rest2.len());
    let category = match bytes_to_string(vstd::slice::slice_to_vec(b1)) {
        Some(s) => s,
        None => {
            return Err(DecodingError);
        },
    };
    let description = match bytes_to_string(vstd::slice::slice_to_vec(b2)) {
        Some(s) => s,
        None => {
            return Err(DecodingError);
        },
    };
    proof {
        broadcast use encode_utf8_decode_utf8;

        assert(decode_utf8(b1@) == category@);
        assert(decode_utf8(b2@) == description@);
    }
    Ok(Message::LabelingTool { category, description })
}

} // verus!
