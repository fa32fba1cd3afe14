use midimon::config::{port_selected, IgnoreCategory};
use midimon::messages::Status;
use midimon::monitor::{
    can_render, display_default, display_min, display_min_hex, display_raw, on_receive, render,
    required_length, should_display, DisplayFormat, MessageFilter, MessageIgnore, ReceiveArgs,
};

fn args(format: DisplayFormat, ignore: MessageIgnore, channel: Option<u8>) -> ReceiveArgs {
    ReceiveArgs {
        port_id: 0,
        format,
        ignore,
        filter: MessageFilter { channel },
    }
}

#[test]
fn ignored_note_on_is_dropped() {
    let mut ignore = MessageIgnore::none();
    ignore.note = true;
    let filter = MessageFilter { channel: None };
    assert!(!should_display(&[0x90, 60, 100], &ignore, &filter));
    assert!(!should_display(&[0x80, 60, 0], &ignore, &filter));
    assert!(should_display(&[0xB0, 7, 64], &ignore, &filter));
}

#[test]
fn nothing_ignored_shows_everything() {
    let ignore = MessageIgnore::none();
    let filter = MessageFilter { channel: None };
    for b in 0..=255u8 {
        assert!(should_display(&[b, 0, 0], &ignore, &filter));
    }
}

#[test]
fn channel_filter_keeps_one_channel() {
    let ignore = MessageIgnore::none();
    let filter = MessageFilter { channel: Some(5) };
    assert!(!should_display(&[0x91, 60, 100], &ignore, &filter));
    assert!(should_display(&[0x94, 60, 100], &ignore, &filter));
}

#[test]
fn channel_filter_and_system_messages() {
    let ignore = MessageIgnore::none();
    // The system-exclusive byte is compared by its low nibble, as channel 1.
    assert!(!should_display(&[0xF0, 1, 0xF7], &ignore, &MessageFilter { channel: Some(5) }));
    assert!(should_display(&[0xF0, 1, 0xF7], &ignore, &MessageFilter { channel: Some(1) }));
    assert!(should_display(&[0xF8], &ignore, &MessageFilter { channel: Some(5) }));
    assert!(should_display(&[0xF2, 0, 0], &ignore, &MessageFilter { channel: Some(5) }));
}

#[test]
fn ignore_wins_over_channel_filter() {
    let mut ignore = MessageIgnore::none();
    ignore.control_change = true;
    let filter = MessageFilter { channel: Some(1) };
    assert!(!should_display(&[0xB0, 7, 64], &ignore, &filter));
}

#[test]
fn default_pitch_bend_centre() {
    assert_eq!(
        display_default(0, 0, &[0xE0, 0x00, 0x40]),
        "  (0)    0.000000  Pitch Bend             Ch: 1  Val:    0"
    );
}

#[test]
fn default_pitch_bend_lowest() {
    assert_eq!(
        display_default(0, 5, &[0xEF, 0x00, 0x00]),
        "  (0)    0.000005  Pitch Bend             Ch:16  Val:-8192"
    );
}

#[test]
fn default_note_on() {
    assert_eq!(
        display_default(2, 1234567, &[0x90, 60, 100]),
        "  (2)    1.234567  Note On                Ch: 1  Note: 60  Vel:100    C3"
    );
}

#[test]
fn default_control_change() {
    assert_eq!(
        display_default(0, 0, &[0xB2, 7, 64]),
        "  (0)    0.000000  Control Change         Ch: 3  No:    7  Val: 64    Volume"
    );
}

#[test]
fn default_song_position_and_wide_time() {
    assert_eq!(
        display_default(3, 12345678901, &[0xF2, 1, 2]),
        "  (3)  12345.678901  Song Position Pointer    1    2"
    );
}

#[test]
fn default_realtime_has_no_data() {
    assert_eq!(
        display_default(0, 0, &[0xF8]),
        "  (0)    0.000000  Timing Clock           "
    );
}

#[test]
fn default_unrecognized_lists_bytes() {
    assert_eq!(
        display_default(0, 0, &[0xF4]),
        "  (0)    0.000000  Error or unknown       [244]"
    );
}

#[test]
fn raw_format() {
    assert_eq!(display_raw(1, 1500000, &[0xF8]), "  (1)    1.500000   [248]");
    assert_eq!(
        display_raw(0, 0, &[0x90, 60, 127]),
        "  (0)    0.000000   [144, 60, 127]"
    );
}

#[test]
fn min_format() {
    assert_eq!(display_min(&[0x90, 60, 127]), "144, 60, 127");
    assert_eq!(display_min(&[0xF8]), "248");
}

#[test]
fn min_hex_format() {
    assert_eq!(display_min_hex(&[0x90, 60, 127]), "0x90, 0x3C, 0x7F");
    assert_eq!(display_min_hex(&[0x00, 0x0A]), "0x00, 0x0A");
}

#[test]
fn render_follows_format() {
    let m = [0x90, 60, 127];
    assert_eq!(render(DisplayFormat::Min, 0, 0, &m), "144, 60, 127");
    assert_eq!(render(DisplayFormat::MinHex, 0, 0, &m), "0x90, 0x3C, 0x7F");
    assert_eq!(render(DisplayFormat::Raw, 0, 0, &m), "  (0)    0.000000   [144, 60, 127]");
}

#[test]
fn on_receive_shows_or_drops() {
    let mut ignore = MessageIgnore::none();
    ignore.note = true;
    let a = args(DisplayFormat::MinHex, ignore, None);
    assert_eq!(on_receive(0, &[0x90, 60, 100], &a), None);
    assert_eq!(on_receive(0, &[0xB0, 7, 64], &a), Some(String::from("0xB0, 0x07, 0x40")));
    let b = args(DisplayFormat::Min, MessageIgnore::none(), Some(5));
    assert_eq!(on_receive(0, &[0x91, 60, 100], &b), None);
    assert_eq!(on_receive(0, &[0x94, 60, 100], &b), Some(String::from("148, 60, 100")));
}

#[test]
fn ignore_categories_expand() {
    let mut ignore = MessageIgnore::none();
    ignore.ignore_category(IgnoreCategory::Realtime);
    assert!(ignore.ignores(Status::TimingClock));
    assert!(ignore.ignores(Status::Start));
    assert!(ignore.ignores(Status::SystemReset));
    assert!(!ignore.ignores(Status::SystemExclusive));
    assert!(!ignore.ignores(Status::NoteOn));

    let mut ignore = MessageIgnore::none();
    ignore.ignore_category(IgnoreCategory::Transport);
    assert!(ignore.ignores(Status::Stop));
    assert!(!ignore.ignores(Status::TimingClock));

    let mut ignore = MessageIgnore::none();
    ignore.ignore_category(IgnoreCategory::System);
    assert!(ignore.ignores(Status::SongSelect));
    assert!(ignore.ignores(Status::ActiveSensing));
    assert!(!ignore.ignores(Status::EndOfExclusive));
    assert!(!ignore.ignores(Status::ControlChange));

    let mut ignore = MessageIgnore::none();
    ignore.ignore_category(IgnoreCategory::Note);
    assert!(ignore.ignores(Status::NoteOff));
    assert!(ignore.ignores(Status::NoteOn));
    assert!(!ignore.ignores(Status::PolyKeyPressure));
}

#[test]
fn option_names() {
    assert_eq!(IgnoreCategory::from_name("realtime"), Some(IgnoreCategory::Realtime));
    assert_eq!(IgnoreCategory::from_name("at"), Some(IgnoreCategory::ChannelPressure));
    assert_eq!(IgnoreCategory::from_name("bogus"), None);
    assert_eq!(DisplayFormat::from_name("min-hex"), DisplayFormat::MinHex);
    assert_eq!(DisplayFormat::from_name("raw"), DisplayFormat::Raw);
    assert_eq!(DisplayFormat::from_name("default"), DisplayFormat::Default);
    assert_eq!(DisplayFormat::from_name("other"), DisplayFormat::Default);
}

#[test]
fn port_selection() {
    assert!(port_selected(None, 7));
    assert!(port_selected(Some(3), 3));
    assert!(!port_selected(Some(3), 2));
    assert!(port_selected(Some(3), 259));
}

#[test]
fn render_needs_the_data_bytes() {
    assert_eq!(required_length(Status::NoteOn), 3);
    assert_eq!(required_length(Status::ProgramChange), 2);
    assert_eq!(required_length(Status::TimingClock), 1);
    assert!(can_render(DisplayFormat::Default, &[0x90, 60, 100]));
    assert!(!can_render(DisplayFormat::Default, &[0x90, 60]));
    assert!(can_render(DisplayFormat::Min, &[0x90, 60]));
    assert!(!can_render(DisplayFormat::Raw, &[]));
}

#[test]
fn ignore_summary_labels() {
    assert!(MessageIgnore::none().ignored_labels().is_empty());
    let mut ignore = MessageIgnore::none();
    ignore.ignore_category(IgnoreCategory::Note);
    ignore.ignore_category(IgnoreCategory::Transport);
    assert_eq!(
        ignore.ignored_labels(),
        vec![
            String::from("Note Off, Note On"),
            String::from("Start"),
            String::from("Continue"),
            String::from("Stop"),
        ]
    );
}
