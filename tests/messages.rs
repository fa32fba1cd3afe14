use midimon::messages::{classify, MidiMessage, Status};

#[test]
fn classify_is_total() {
    for b in 0..=255u8 {
        let s = classify(b);
        if s != Status::Error {
            let selector = if b >= 0xF0 { b } else { b & 0xF0 };
            assert_eq!(s.value(), selector);
            assert_eq!(Status::from_selector(selector), s);
        }
    }
}

#[test]
fn classify_known_bytes() {
    assert_eq!(classify(0x80), Status::NoteOff);
    assert_eq!(classify(0x9F), Status::NoteOn);
    assert_eq!(classify(0xA3), Status::PolyKeyPressure);
    assert_eq!(classify(0xB0), Status::ControlChange);
    assert_eq!(classify(0xC5), Status::ProgramChange);
    assert_eq!(classify(0xD1), Status::ChannelPressure);
    assert_eq!(classify(0xEF), Status::PitchBend);
    assert_eq!(classify(0xF0), Status::SystemExclusive);
    assert_eq!(classify(0xF2), Status::SongPositionPointer);
    assert_eq!(classify(0xF7), Status::EndOfExclusive);
    assert_eq!(classify(0xF8), Status::TimingClock);
    assert_eq!(classify(0xFF), Status::SystemReset);
}

#[test]
fn classify_reserved_bytes_are_errors() {
    for b in [0x00u8, 0x3C, 0x7F, 0xF4, 0xF5, 0xF9, 0xFD] {
        assert_eq!(classify(b), Status::Error);
    }
}

#[test]
fn status_of_message() {
    let msg = MidiMessage::from_array(&[0x93, 60, 100]);
    assert_eq!(msg.status(), Status::NoteOn);
    assert_eq!(MidiMessage::from_vec(vec![0xFE]).status(), Status::ActiveSensing);
}

#[test]
fn channel_of_channel_messages() {
    for b in 0x80..=0xEFu8 {
        assert_eq!(MidiMessage::from_vec(vec![b]).channel(), Some(b & 0x0F));
    }
}

#[test]
fn channel_of_system_messages() {
    for b in 0xF0..=0xFFu8 {
        assert_eq!(MidiMessage::from_vec(vec![b]).channel(), None);
    }
}

#[test]
fn data_bytes() {
    let msg = MidiMessage::from_array(&[0xB0, 7, 64]);
    assert_eq!(msg.data, vec![0xB0, 7, 64]);
    assert_eq!(msg.data(0), 0xB0);
    assert_eq!(msg.data(1), 7);
    assert_eq!(msg.data(2), 64);
}

#[test]
fn data_as_u16_bounds() {
    assert_eq!(MidiMessage::from_array(&[0xE0, 0x00, 0x00]).data_as_u16(), 0);
    assert_eq!(MidiMessage::from_array(&[0xE0, 0x7F, 0x7F]).data_as_u16(), 16383);
    assert_eq!(MidiMessage::from_array(&[0xE0, 0x00, 0x40]).data_as_u16(), 0x2000);
    assert_eq!(MidiMessage::from_array(&[0xF2, 0x05, 0x01]).data_as_u16(), 133);
}

#[test]
fn note_names() {
    let name = |n: u8| MidiMessage::from_array(&[0x90, n, 100]).note_name();
    assert_eq!(name(60), Some(String::from("C3")));
    assert_eq!(name(0), Some(String::from("C-2")));
    assert_eq!(name(72), Some(String::from("C4")));
    assert_eq!(name(61), Some(String::from("C#3")));
    assert_eq!(name(23), Some(String::from("B-1")));
    assert_eq!(name(127), Some(String::from("G8")));
    assert_eq!(
        MidiMessage::from_array(&[0x85, 69, 0]).note_name(),
        Some(String::from("A3"))
    );
    assert_eq!(
        MidiMessage::from_array(&[0xA0, 70, 1]).note_name(),
        Some(String::from("A#3"))
    );
}

#[test]
fn note_name_absent_for_other_statuses() {
    assert_eq!(MidiMessage::from_array(&[0xB0, 60, 1]).note_name(), None);
    assert_eq!(MidiMessage::from_array(&[0xF8]).note_name(), None);
}

#[test]
fn cc_names() {
    let name = |n: u8| MidiMessage::from_array(&[0xB0, n, 0]).cc_name();
    assert_eq!(name(7), Some(String::from("Volume")));
    assert_eq!(name(3), Some(String::new()));
    assert_eq!(name(0), Some(String::from("Bank Select MSB")));
    assert_eq!(name(64), Some(String::from("Sustain Pedal")));
    assert_eq!(name(127), Some(String::from("Poly Mode")));
    assert_eq!(MidiMessage::from_array(&[0x90, 7, 0]).cc_name(), None);
}

#[test]
fn status_names() {
    assert_eq!(Status::NoteOn.name(), "Note On");
    assert_eq!(Status::SongPositionPointer.to_string(), "Song Position Pointer");
    assert_eq!(Status::EndOfExclusive.name(), "End of Exclusive");
    assert_eq!(Status::Error.to_string(), "Error or unknown");
}
