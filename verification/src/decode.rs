//! Message decoder: raw MIDI bytes to a typed message, or a decode
//! failure carrying the offending bytes.
//!
//! The wire format is the Control Change subset of channel messages:
//! a status byte `0xBn` (n = channel - 1) followed by the controller
//! number and the 7-bit value. Note On / Note Off and the other channel
//! voice messages are recognised so that they can be told apart and
//! ignored; System messages and running status are out of scope and
//! fail to decode.

use vstd::prelude::*;

verus! {

/// A typed MIDI message, alive for one dispatch step.
///
/// `channel` is the human-facing channel number, 1 to 16. `Other`
/// keeps only the status byte of a recognised channel voice message
/// that this library does not act on.
#[derive(Clone, Copy, Debug, PartialEq, Eq, Structural)]
pub enum DecodedMessage {
    NoteOff { channel: u8, key: u8, velocity: u8 },
    NoteOn { channel: u8, key: u8, velocity: u8 },
    ControlChange { channel: u8, controller: u8, value: u8 },
    Other { status: u8 },
}

/// A decode failure. `Malformed` carries the offending bytes for
/// diagnostics; the message is dropped and processing goes on.
#[derive(Debug)]
pub enum DecodeError {
    Malformed { bytes: Vec<u8> },
}

impl DecodeError {
    /// The bytes that failed to decode, kept for diagnostics.
    pub open spec fn offending(self) -> Seq<u8> {
        match self {
            DecodeError::Malformed { bytes } => bytes@,
        }
    }
}

/// Every field of a decoded message is in its MIDI range: channels
/// 1 to 16, data bytes 7-bit.
pub open spec fn message_valid(m: DecodedMessage) -> bool {
    match m {
        DecodedMessage::NoteOff { channel, key, velocity } => 1 <= channel <= 16 && key < 128
            && velocity < 128,
        DecodedMessage::NoteOn { channel, key, velocity } => 1 <= channel <= 16 && key < 128
            && velocity < 128,
        DecodedMessage::ControlChange { channel, controller, value } => 1 <= channel <= 16
            && controller < 128 && value < 128,
        DecodedMessage::Other { status } => 0x80 <= status < 0xF0,
    }
}

/// What a byte sequence decodes to: `Some` of the typed message, or
/// `None` where the sequence is malformed (empty, no status byte, a
/// System status byte, the wrong length for its kind, or a data byte
/// with the high bit set).
pub open spec fn decode_spec(bytes: Seq<u8>) -> Option<DecodedMessage> {
    if bytes.len() == 0 {
        None
    } else {
        let kind = bytes[0] as int / 16;
        let channel = ((bytes[0] as int % 16) + 1) as u8;
        if kind == 8 && bytes.len() == 3 && bytes[1] < 128 && bytes[2] < 128 {
            Some(DecodedMessage::NoteOff { channel, key: bytes[1], velocity: bytes[2] })
        } else if kind == 9 && bytes.len() == 3 && bytes[1] < 128 && bytes[2] < 128 {
            Some(DecodedMessage::NoteOn { channel, key: bytes[1], velocity: bytes[2] })
        } else if kind == 11 && bytes.len() == 3 && bytes[1] < 128 && bytes[2] < 128 {
            Some(
                DecodedMessage::ControlChange {
                    channel,
                    controller: bytes[1],
                    value: bytes[2],
                },
            )
        } else if (kind == 10 || kind == 14) && bytes.len() == 3 && bytes[1] < 128 && bytes[2]
            < 128 {
            Some(DecodedMessage::Other { status: bytes[0] })
        } else if (kind == 12 || kind == 13) && bytes.len() == 2 && bytes[1] < 128 {
            Some(DecodedMessage::Other { status: bytes[0] })
        } else {
            None
        }
    }
}

/// Decode a raw MIDI event. Total over arbitrary input: a malformed
/// sequence comes back unchanged inside the error, never a panic.
pub fn decode(bytes: Vec<u8>) -> (r: Result<DecodedMessage, DecodeError>)
    ensures
        r is Ok <==> decode_spec(bytes@) is Some,
        r matches Ok(m) ==> decode_spec(bytes@) == Some(m) && message_valid(m),
        r matches Err(DecodeError::Malformed { bytes: offending }) ==> offending@ == bytes@,
{
    if bytes.len() == 0 {
        return Err(DecodeError::Malformed { bytes });
    }
    let status: u8 = bytes[0];
    if status < 0x80 || status >= 0xF0 {
        return Err(DecodeError::Malformed { bytes });
    }
    let kind: u8 = status / 16;
    let channel: u8 = status % 16 + 1;
    if kind == 12 || kind == 13 {
        if bytes.len() == 2 && bytes[1] < 128 {
            return Ok(DecodedMessage::Other { status });
        }
        return Err(DecodeError::Malformed { bytes });
    }
    if bytes.len() != 3 || bytes[1] >= 128 || bytes[2] >= 128 {
        return Err(DecodeError::Malformed { bytes });
    }
    if kind == 8 {
        Ok(DecodedMessage::NoteOff { channel, key: bytes[1], velocity: bytes[2] })
    } else if kind == 9 {
        Ok(DecodedMessage::NoteOn { channel, key: bytes[1], velocity: bytes[2] })
    } else if kind == 11 {
        Ok(DecodedMessage::ControlChange { channel, controller: bytes[1], value: bytes[2] })
    } else {
        Ok(DecodedMessage::Other { status })
    }
}

/// The encoding of a valid Control Change: `0xBn cc vv` with
/// n = channel - 1.
pub open spec fn encode_cc_spec(channel: int, controller: int, value: int) -> Seq<u8> {
    seq![(0xB0 + (channel - 1)) as u8, controller as u8, value as u8]
}

/// Encode a Control Change message as raw bytes that decode back to
/// the same (channel, controller, value), with no loss.
pub fn encode_control_change(channel: u8, controller: u8, value: u8) -> (r: Vec<u8>)
    requires
        1 <= channel <= 16,
        controller < 128,
        value < 128,
    ensures
        r@ == encode_cc_spec(channel as int, controller as int, value as int),
        decode_spec(r@) == Some(DecodedMessage::ControlChange { channel, controller, value }),
{
    let status: u8 = 0xB0 + (channel - 1);
    let mut out: Vec<u8> = Vec::new();
    out.push(status);
    out.push(controller);
    out.push(value);
    proof {
        assert(out@ =~= encode_cc_spec(channel as int, controller as int, value as int));
        lemma_control_change_round_trip(channel as int, controller as int, value as int);
    }
    out
}

/// Round trip: encoding any valid Control Change and decoding the
/// bytes yields back exactly the same channel, controller number and
/// value.
pub proof fn lemma_control_change_round_trip(channel: int, controller: int, value: int)
    requires
        1 <= channel <= 16,
        0 <= controller < 128,
        0 <= value < 128,
    ensures
        decode_spec(encode_cc_spec(channel, controller, value)) == Some(
            DecodedMessage::ControlChange {
                channel: channel as u8,
                controller: controller as u8,
                value: value as u8,
            },
        ),
{
    let bytes = encode_cc_spec(channel, controller, value);
    assert(bytes[0] == (0xB0 + (channel - 1)) as u8);
    assert(bytes[0] as int / 16 == 11);
    assert((bytes[0] as int % 16) + 1 == channel);
}

/// Totality over malformed input: any byte sequence that is empty or
/// does not begin with a channel-message status byte fails to decode,
/// whatever its length; `decode` then returns `Malformed` and never
/// panics.
pub proof fn lemma_invalid_status_malformed(bytes: Seq<u8>)
    requires
        bytes.len() == 0 || bytes[0] < 0x80 || bytes[0] >= 0xF0,
    ensures
        decode_spec(bytes) is None,
{
}

} // verus!
