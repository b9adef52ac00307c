use std::convert::TryFrom;

use twister_midi::{decode, encode_control_change, ControlIdentifier, DecodeError, DecodedMessage};

#[test]
fn decodes_control_change_verbatim() {
    let r = decode(vec![0xB0, 0x00, 0x7F]);
    assert_eq!(
        r.unwrap(),
        DecodedMessage::ControlChange { channel: 1, controller: 0, value: 127 }
    );
    let r = decode(vec![0xB5, 0x0A, 0x40]);
    assert_eq!(
        r.unwrap(),
        DecodedMessage::ControlChange { channel: 6, controller: 10, value: 64 }
    );
    let r = decode(vec![0xBF, 0x7F, 0x00]);
    assert_eq!(
        r.unwrap(),
        DecodedMessage::ControlChange { channel: 16, controller: 127, value: 0 }
    );
}

#[test]
fn decodes_note_messages() {
    let r = decode(vec![0x90, 60, 100]);
    assert_eq!(r.unwrap(), DecodedMessage::NoteOn { channel: 1, key: 60, velocity: 100 });
    let r = decode(vec![0x83, 60, 0]);
    assert_eq!(r.unwrap(), DecodedMessage::NoteOff { channel: 4, key: 60, velocity: 0 });
}

#[test]
fn decodes_other_channel_messages_by_status() {
    assert_eq!(decode(vec![0xA0, 1, 2]).unwrap(), DecodedMessage::Other { status: 0xA0 });
    assert_eq!(decode(vec![0xE7, 0, 64]).unwrap(), DecodedMessage::Other { status: 0xE7 });
    assert_eq!(decode(vec![0xC5, 10]).unwrap(), DecodedMessage::Other { status: 0xC5 });
    assert_eq!(decode(vec![0xD2, 99]).unwrap(), DecodedMessage::Other { status: 0xD2 });
}

#[test]
fn rejects_malformed_sequences_with_offending_bytes() {
    let cases: Vec<Vec<u8>> = vec![
        vec![],                  // empty
        vec![0xFF],              // system status byte, out of scope
        vec![0xF0, 1, 2],        // system exclusive, out of scope
        vec![0x34],              // data byte where a status byte is owed
        vec![0x34, 0x35, 0x36],  // no status byte, full length
        vec![0xB0],              // truncated control change
        vec![0xB0, 0x00],        // truncated control change
        vec![0xB0, 0x80, 0x00],  // data byte with the high bit set
        vec![0xB0, 0x00, 0xFF],  // data byte with the high bit set
        vec![0x90, 60],          // truncated note on
        vec![0xC0],              // truncated program change
        vec![0xB0, 0, 0, 0],     // too long
    ];
    for bytes in cases {
        let expected = bytes.clone();
        match decode(bytes) {
            Err(DecodeError::Malformed { bytes: offending }) => {
                assert_eq!(offending, expected);
            }
            Ok(m) => panic!("decoded {:?} from {:?}", m, expected),
        }
    }
}

#[test]
fn no_panic_on_any_short_sequence_with_invalid_status() {
    // Totality over all byte sequences of length 0 to 3 whose first
    // byte is not a channel-message status byte.
    for a in (0u8..=0x7F).chain(0xF0..=0xFF) {
        assert!(decode(vec![a]).is_err());
        assert!(decode(vec![a, 0]).is_err());
        assert!(decode(vec![a, 0, 0]).is_err());
    }
    assert!(decode(vec![]).is_err());
}

#[test]
fn round_trip_control_change() {
    for channel in 1u8..=16 {
        for &controller in &[0u8, 1, 15, 64, 127] {
            for &value in &[0u8, 1, 64, 126, 127] {
                let bytes = encode_control_change(channel, controller, value);
                assert_eq!(
                    decode(bytes).unwrap(),
                    DecodedMessage::ControlChange { channel, controller, value }
                );
            }
        }
    }
}

#[test]
fn encoding_matches_the_wire_format() {
    assert_eq!(encode_control_change(1, 0, 127), vec![0xB0, 0x00, 0x7F]);
    assert_eq!(encode_control_change(16, 127, 0), vec![0xBF, 0x7F, 0x00]);
}

#[test]
fn agrees_with_wmidi_on_control_change() {
    for bytes in [vec![0xB0u8, 0x00, 0x7F], vec![0xB5, 0x0A, 0x40], vec![0xBF, 0x7F, 0x00]] {
        let theirs = match wmidi::MidiMessage::try_from(&bytes[..]).unwrap() {
            wmidi::MidiMessage::ControlChange(ch, cc, vv) => {
                (ch.number(), u8::from(cc), u8::from(vv))
            }
            t => panic!("wmidi decoded {:?}", t),
        };
        match decode(bytes).unwrap() {
            DecodedMessage::ControlChange { channel, controller, value } => {
                assert_eq!(theirs, (channel, controller, value));
            }
            o => panic!("decoded {:?}", o),
        }
    }
}

#[test]
fn agrees_with_wmidi_on_malformed_control_change() {
    for bytes in [vec![0xB0u8, 0x80, 0x00], vec![0xB0], vec![0x34]] {
        assert!(wmidi::MidiMessage::try_from(&bytes[..]).is_err());
        assert!(decode(bytes).is_err());
    }
}

#[test]
fn grid_controller_numbers_match_wmidi_control_functions() {
    // The hardware's grid sends the first sixteen controller numbers,
    // named in wmidi by their standard control functions.
    let pairs: Vec<(ControlIdentifier, wmidi::ControlFunction)> = vec![
        (ControlIdentifier::ZeroZero, wmidi::ControlFunction::BANK_SELECT),
        (ControlIdentifier::ZeroOne, wmidi::ControlFunction::MODULATION_WHEEL),
        (ControlIdentifier::ZeroTwo, wmidi::ControlFunction::BREATH_CONTROLLER),
        (ControlIdentifier::ZeroThree, wmidi::ControlFunction::UNDEFINED_3),
        (ControlIdentifier::OneZero, wmidi::ControlFunction::FOOT_CONTROLLER),
        (ControlIdentifier::OneOne, wmidi::ControlFunction::PORTAMENTO_TIME),
        (ControlIdentifier::OneTwo, wmidi::ControlFunction::DATA_ENTRY_MSB),
        (ControlIdentifier::OneThree, wmidi::ControlFunction::CHANNEL_VOLUME),
        (ControlIdentifier::TwoZero, wmidi::ControlFunction::BALANCE),
        (ControlIdentifier::TwoOne, wmidi::ControlFunction::UNDEFINED_9),
        (ControlIdentifier::TwoTwo, wmidi::ControlFunction::PAN),
        (ControlIdentifier::TwoThree, wmidi::ControlFunction::EXPRESSION_CONTROLLER),
        (ControlIdentifier::ThreeZero, wmidi::ControlFunction::EFFECT_CONTROL_1),
        (ControlIdentifier::ThreeOne, wmidi::ControlFunction::EFFECT_CONTROL_2),
        (ControlIdentifier::ThreeTwo, wmidi::ControlFunction::UNDEFINED_14),
        (ControlIdentifier::ThreeThree, wmidi::ControlFunction::UNDEFINED_15),
    ];
    for (control, function) in pairs {
        assert_eq!(control.controller_number(), u8::from(function));
    }
}
