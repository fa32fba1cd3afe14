//! Per-message decisions of the monitor: which messages to show, and how.
use vstd::prelude::*;

use crate::messages::{
    cc_name_text, classify, classify_spec, combine_14, note_name_text, MidiMessage, Status,
    CHANNEL_MASK,
};
use crate::text::{
    decimal_text, hex_byte_text, pad_left, pad_right, push_decimal, push_decimal_padded,
    push_decimal_zero_padded, push_hex_byte, push_pad_left, push_pad_right, push_signed_padded,
    signed_text, zero_pad,
};

verus! {

/// Display format options.
#[derive(Debug, Copy, Clone, PartialEq, Eq, Structural)]
pub enum DisplayFormat {
    Default,
    Raw,
    Min,
    MinHex,
}

/// Ignore flags for certain message types.
#[derive(Debug, Copy, Clone, PartialEq, Eq, Structural)]
pub struct MessageIgnore {
    pub note: bool,
    pub poly_pressure: bool,
    pub control_change: bool,
    pub program_change: bool,
    pub channel_pressure: bool,
    pub pitch_bend: bool,
    pub sysex: bool,
    pub mtc_frame: bool,
    pub song_pos_pointer: bool,
    pub song_select: bool,
    pub tune_request: bool,
    pub clock: bool,
    pub start: bool,
    pub continue_: bool,
    pub stop: bool,
    pub sensing: bool,
    pub reset: bool,
}

/// Filter to show only certain message types.
#[derive(Debug, Copy, Clone, PartialEq, Eq, Structural)]
pub struct MessageFilter {
    /// The only channel (1-based) to show, if any.
    pub channel: Option<u8>,
}

/// What the receive callback needs to decide on and render each message.
#[derive(Debug, Copy, Clone)]
pub struct ReceiveArgs {
    pub port_id: usize,
    pub format: DisplayFormat,
    pub ignore: MessageIgnore,
    pub filter: MessageFilter,
}

impl MessageIgnore {
    /// Whether messages of status `s` are suppressed.
    pub open spec fn ignores_spec(&self, s: Status) -> bool {
        match s {
            Status::NoteOff | Status::NoteOn => self.note,
            Status::PolyKeyPressure => self.poly_pressure,
            Status::ControlChange => self.control_change,
            Status::ProgramChange => self.program_change,
            Status::ChannelPressure => self.channel_pressure,
            Status::PitchBend => self.pitch_bend,
            Status::SystemExclusive => self.sysex,
            Status::MtcQuarterFrame => self.mtc_frame,
            Status::SongPositionPointer => self.song_pos_pointer,
            Status::SongSelect => self.song_select,
            Status::TuneRequest => self.tune_request,
            Status::TimingClock => self.clock,
            Status::Start => self.start,
            Status::Continue => self.continue_,
            Status::Stop => self.stop,
            Status::ActiveSensing => self.sensing,
            Status::SystemReset => self.reset,
            Status::EndOfExclusive | Status::Error => false,
        }
    }

    /// Returns a set that suppresses nothing.
    pub fn none() -> (r: MessageIgnore)
        ensures
            forall|s: Status| !r.ignores_spec(s),
    {
        MessageIgnore {
            note: false,
            poly_pressure: false,
            control_change: false,
            program_change: false,
            channel_pressure: false,
            pitch_bend: false,
            sysex: false,
            mtc_frame: false,
            song_pos_pointer: false,
            song_select: false,
            tune_request: false,
            clock: false,
            start: false,
            continue_: false,
            stop: false,
            sensing: false,
            reset: false,
        }
    }

    /// Returns whether messages of status `s` are suppressed.
    pub fn ignores(&self, s: Status) -> (r: bool)
        ensures
            r == self.ignores_spec(s),
    {
        match s {
            Status::NoteOff | Status::NoteOn => self.note,
            Status::PolyKeyPressure => self.poly_pressure,
            Status::ControlChange => self.control_change,
            Status::ProgramChange => self.program_change,
            Status::ChannelPressure => self.channel_pressure,
            Status::PitchBend => self.pitch_bend,
            Status::SystemExclusive => self.sysex,
            Status::MtcQuarterFrame => self.mtc_frame,
            Status::SongPositionPointer => self.song_pos_pointer,
            Status::SongSelect => self.song_select,
            Status::TuneRequest => self.tune_request,
            Status::TimingClock => self.clock,
            Status::Start => self.start,
            Status::Continue => self.continue_,
            Status::Stop => self.stop,
            Status::ActiveSensing => self.sensing,
            Status::SystemReset => self.reset,
            Status::EndOfExclusive | Status::Error => false,
        }
    }
}

impl MessageFilter {
    /// A channel filter names a channel from 1 on.
    pub open spec fn wf(&self) -> bool {
        self.channel matches Some(c) ==> c >= 1
    }

    /// Whether the filter drops a message whose leading byte is `status_byte`.
    /// Leading bytes up to and including the system-exclusive one are compared
    /// by their low nibble; the later system bytes always pass.
    pub open spec fn drops_spec(&self, status_byte: u8) -> bool {
        match self.channel {
            Some(c) => status_byte <= 0xF0 && (status_byte & CHANNEL_MASK) != c - 1,
            None => false,
        }
    }
}

/// Whether a message whose leading byte is `status_byte` is shown: its status is
/// not suppressed, and the channel filter does not drop it.
pub open spec fn should_display_spec(
    status_byte: u8,
    ignore: MessageIgnore,
    filter: MessageFilter,
) -> bool {
    !ignore.ignores_spec(classify_spec(status_byte)) && !filter.drops_spec(status_byte)
}

/// Returns whether a message passes the ignore set and the channel filter.
pub fn should_display(message: &[u8], ignore: &MessageIgnore, filter: &MessageFilter) -> (r: bool)
    requires
        message@.len() >= 1,
        filter.wf(),
    ensures
        r == should_display_spec(message@[0], *ignore, *filter),
{
    let status_byte = message[0];
    if ignore.ignores(classify(status_byte)) {
        return false;
    }
    if let Some(channel) = filter.channel {
        if status_byte <= 0xF0 && (status_byte & CHANNEL_MASK) != channel - 1 {
            return false;
        }
    }
    true
}

/// How many bytes a message of status `s` must hold to be rendered in the
/// default format.
pub open spec fn required_len(s: Status) -> nat {
    match s {
        Status::NoteOff | Status::NoteOn | Status::PolyKeyPressure | Status::ControlChange
        | Status::PitchBend | Status::SongPositionPointer => 3,
        Status::ProgramChange | Status::ChannelPressure | Status::MtcQuarterFrame
        | Status::SongSelect => 2,
        _ => 1,
    }
}

/// A timestamp in microseconds as seconds with six decimals, right-aligned
/// in ten columns.
pub open spec fn timestamp_text(timestamp: u64) -> Seq<char> {
    pad_left(
        decimal_text((timestamp / 1_000_000) as nat) + "."@ + zero_pad(
            decimal_text((timestamp % 1_000_000) as nat),
            6,
        ),
        10,
    )
}

/// The bytes in decimal, separated by commas.
pub open spec fn decimal_list_text(bytes: Seq<u8>) -> Seq<char>
    decreases bytes.len(),
{
    if bytes.len() == 0 {
        Seq::empty()
    } else if bytes.len() == 1 {
        decimal_text(bytes[0] as nat)
    } else {
        decimal_list_text(bytes.drop_last()) + ", "@ + decimal_text(bytes.last() as nat)
    }
}

/// The bytes as `0x`-prefixed upper-case hexadecimal, separated by commas.
pub open spec fn hex_list_text(bytes: Seq<u8>) -> Seq<char>
    decreases bytes.len(),
{
    if bytes.len() == 0 {
        Seq::empty()
    } else if bytes.len() == 1 {
        "0x"@ + hex_byte_text(bytes[0])
    } else {
        hex_list_text(bytes.drop_last()) + ", "@ + "0x"@ + hex_byte_text(bytes.last())
    }
}

/// The bytes as a bracketed list, in decimal.
pub open spec fn bracket_list_text(bytes: Seq<u8>) -> Seq<char> {
    "["@ + decimal_list_text(bytes) + "]"@
}

/// The 1-based channel of a channel message, right-aligned in two columns.
pub open spec fn channel_column(status_byte: u8) -> Seq<char> {
    "Ch:"@ + pad_left(decimal_text(((status_byte & CHANNEL_MASK) + 1) as nat), 2)
}

/// A data byte in decimal, right-aligned in three columns.
pub open spec fn byte_column(b: u8) -> Seq<char> {
    pad_left(decimal_text(b as nat), 3)
}

/// The pitch bend of two data bytes, centred on zero.
pub open spec fn pitch_bend_value(low: u8, high: u8) -> int {
    combine_14(low, high) as int - 0x2000
}

/// The data column of the default format.
pub open spec fn data_text(m: Seq<u8>) -> Seq<char> {
    match classify_spec(m[0]) {
        Status::NoteOff | Status::NoteOn => channel_column(m[0]) + "  Note:"@ + byte_column(m[1])
            + "  Vel:"@ + byte_column(m[2]) + "    "@ + note_name_text(m[1]),
        Status::PolyKeyPressure => channel_column(m[0]) + "  Note:"@ + byte_column(m[1])
            + "  Val:"@ + byte_column(m[2]) + "    "@ + note_name_text(m[1]),
        Status::ControlChange => channel_column(m[0]) + "  No:  "@ + byte_column(m[1])
            + "  Val:"@ + byte_column(m[2]) + "    "@ + cc_name_text(m[1]),
        Status::ProgramChange | Status::ChannelPressure => channel_column(m[0]) + "  Val:"@
            + byte_column(m[1]),
        Status::PitchBend => channel_column(m[0]) + "  Val:"@ + pad_left(
            signed_text(pitch_bend_value(m[1], m[2])),
            5,
        ),
        Status::MtcQuarterFrame | Status::SongSelect => byte_column(m[1]),
        Status::SongPositionPointer => byte_column(m[1]) + "  "@ + byte_column(m[2]),
        Status::TuneRequest | Status::TimingClock | Status::Start | Status::Continue
        | Status::Stop | Status::ActiveSensing | Status::SystemReset => Seq::empty(),
        _ => bracket_list_text(m),
    }
}

/// A line of the default format: port, time, status name and data.
pub open spec fn default_line(port_id: usize, timestamp: u64, m: Seq<u8>) -> Seq<char> {
    "  ("@ + decimal_text(port_id as nat) + ")  "@ + timestamp_text(timestamp) + "  "@
        + pad_right(classify_spec(m[0]).name_text(), 21) + "  "@ + data_text(m)
}

/// A line of the raw format: port, time and the bytes uninterpreted.
pub open spec fn raw_line(port_id: usize, timestamp: u64, m: Seq<u8>) -> Seq<char> {
    "  ("@ + decimal_text(port_id as nat) + ")  "@ + timestamp_text(timestamp) + "   "@
        + bracket_list_text(m)
}

/// The line that `format` renders for a message.
pub open spec fn line_text(
    format: DisplayFormat,
    port_id: usize,
    timestamp: u64,
    m: Seq<u8>,
) -> Seq<char> {
    match format {
        DisplayFormat::Default => default_line(port_id, timestamp, m),
        DisplayFormat::Raw => raw_line(port_id, timestamp, m),
        DisplayFormat::Min => decimal_list_text(m),
        DisplayFormat::MinHex => hex_list_text(m),
    }
}

fn push_timestamp(out: &mut String, timestamp: u64)
    ensures
        final(out)@ == old(out)@ + timestamp_text(timestamp),
{
    let mut t = String::new();
    push_decimal(&mut t, timestamp / 1_000_000);
    t.append(".");
    push_decimal_zero_padded(&mut t, timestamp % 1_000_000, 6);
    assert(t@ =~= decimal_text((timestamp / 1_000_000) as nat) + "."@ + zero_pad(
        decimal_text((timestamp % 1_000_000) as nat),
        6,
    ));
    push_pad_left(out, t.as_str(), 10);
}

fn push_decimal_list(out: &mut String, bytes: &[u8])
    ensures
        final(out)@ == old(out)@ + decimal_list_text(bytes@),
{
    let mut i: usize = 0;
    while i < bytes.len()
        invariant
            i <= bytes@.len(),
            out@ == old(out)@ + decimal_list_text(bytes@.subrange(0, i as int)),
        decreases bytes@.len() - i,
    {
        if i > 0 {
            out.append(", ");
        }
        push_decimal(out, bytes[i] as u64);
        let ghost next = bytes@.subrange(0, i + 1);
        assert(next.drop_last() =~= bytes@.subrange(0, i as int));
        i = i + 1;
        assert(out@ =~= old(out)@ + decimal_list_text(bytes@.subrange(0, i as int)));
    }
    assert(bytes@.subrange(0, i as int) =~= bytes@);
}

fn push_hex_list(out: &mut String, bytes: &[u8])
    ensures
        final(out)@ == old(out)@ + hex_list_text(bytes@),
{
    let mut i: usize = 0;
    while i < bytes.len()
        invariant
            i <= bytes@.len(),
            out@ == old(out)@ + hex_list_text(bytes@.subrange(0, i as int)),
        decreases bytes@.len() - i,
    {
        if i > 0 {
            out.append(", ");
        }
        out.append("0x");
        push_hex_byte(out, bytes[i]);
        let ghost next = bytes@.subrange(0, i + 1);
        assert(next.drop_last() =~= bytes@.subrange(0, i as int));
        i = i + 1;
        assert(out@ =~= old(out)@ + hex_list_text(bytes@.subrange(0, i as int)));
    }
    assert(bytes@.subrange(0, i as int) =~= bytes@);
}

fn push_bracket_list(out: &mut String, bytes: &[u8])
    ensures
        final(out)@ == old(out)@ + bracket_list_text(bytes@),
{
    out.append("[");
    push_decimal_list(out, bytes);
    out.append("]");
    assert(out@ =~= old(out)@ + bracket_list_text(bytes@));
}

/// Displays a message in min format: its bytes in decimal, separated by commas.
pub fn display_min(message: &[u8]) -> (r: String)
    ensures
        r@ == decimal_list_text(message@),
{
    let mut out = String::new();
    push_decimal_list(&mut out, message);
    assert(out@ =~= decimal_list_text(message@));
    out
}

/// Displays a message in min hex format: its bytes as `0x`-prefixed two-digit
/// upper-case hexadecimal, separated by commas.
pub fn display_min_hex(message: &[u8]) -> (r: String)
    ensures
        r@ == hex_list_text(message@),
{
    let mut out = String::new();
    push_hex_list(&mut out, message);
    assert(out@ =~= hex_list_text(message@));
    out
}

/// Displays a message in raw format: port, time and the bytes uninterpreted.
pub fn display_raw(port_id: usize, timestamp: u64, message: &[u8]) -> (r: String)
    ensures
        r@ == raw_line(port_id, timestamp, message@),
{
    let mut out = String::new();
    out.append("  (");
    push_decimal(&mut out, port_id as u64);
    out.append(")  ");
    push_timestamp(&mut out, timestamp);
    out.append("   ");
    push_bracket_list(&mut out, message);
    assert(out@ =~= raw_line(port_id, timestamp, message@));
    out
}

fn push_channel_column(out: &mut String, status_byte: u8)
    requires
        status_byte < 0xF0,
    ensures
        final(out)@ == old(out)@ + channel_column(status_byte),
{
    out.append("Ch:");
    let channel = status_byte & CHANNEL_MASK;
    assert(status_byte & CHANNEL_MASK <= 0x0F) by (bit_vector);
    push_decimal_padded(out, (channel + 1) as u64, 2);
    assert(out@ =~= old(out)@ + channel_column(status_byte));
}

fn push_byte_column(out: &mut String, b: u8)
    ensures
        final(out)@ == old(out)@ + byte_column(b),
{
    push_decimal_padded(out, b as u64, 3);
}

/// Returns the data column of the default format.
fn data_column(msg: &MidiMessage) -> (r: String)
    requires
        msg.wf(),
        msg.data@.len() >= required_len(msg.status_spec()),
    ensures
        r@ == data_text(msg.data@),
{
    let m = &msg.data;
    let mut out = String::new();
    let status = msg.status();
    proof {
        lemma_classify_channel(m@[0]);
    }
    match status {
        Status::NoteOff | Status::NoteOn | Status::PolyKeyPressure => {
            push_channel_column(&mut out, m[0]);
            out.append("  Note:");
            push_byte_column(&mut out, m[1]);
            if status == Status::PolyKeyPressure {
                out.append("  Val:");
            } else {
                out.append("  Vel:");
            }
            push_byte_column(&mut out, m[2]);
            out.append("    ");
            let name = msg.note_name();
            if let Some(name) = name {
                out.append(name.as_str());
            }
        },
        Status::ControlChange => {
            push_channel_column(&mut out, m[0]);
            out.append("  No:  ");
            push_byte_column(&mut out, m[1]);
            out.append("  Val:");
            push_byte_column(&mut out, m[2]);
            out.append("    ");
            let name = msg.cc_name();
            if let Some(name) = name {
                out.append(name.as_str());
            }
        },
        Status::ProgramChange | Status::ChannelPressure => {
            push_channel_column(&mut out, m[0]);
            out.append("  Val:");
            push_byte_column(&mut out, m[1]);
        },
        Status::PitchBend => {
            push_channel_column(&mut out, m[0]);
            out.append("  Val:");
            let value = msg.data_as_u16() as i64 - 0x2000;
            push_signed_padded(&mut out, value, 5);
        },
        Status::MtcQuarterFrame | Status::SongSelect => {
            push_byte_column(&mut out, m[1]);
        },
        Status::SongPositionPointer => {
            push_byte_column(&mut out, m[1]);
            out.append("  ");
            push_byte_column(&mut out, m[2]);
        },
        Status::TuneRequest | Status::TimingClock | Status::Start | Status::Continue
        | Status::Stop | Status::ActiveSensing | Status::SystemReset => {},
        _ => {
            push_bracket_list(&mut out, m.as_slice());
        },
    }
    assert(out@ =~= data_text(m@));
    out
}

/// Channel statuses come from leading bytes below the system range.
proof fn lemma_classify_channel(b: u8)
    ensures
        classify_spec(b).is_channel_message() ==> b < 0xF0,
{
}

/// Displays a message in default format: port, time, status name and the data
/// that its status carries.
pub fn display_default(port_id: usize, timestamp: u64, message: &[u8]) -> (r: String)
    requires
        message@.len() >= 1,
        message@.len() >= required_len(classify_spec(message@[0])),
    ensures
        r@ == default_line(port_id, timestamp, message@),
{
    let msg = MidiMessage::from_array(message);
    let mut out = String::new();
    out.append("  (");
    push_decimal(&mut out, port_id as u64);
    out.append(")  ");
    push_timestamp(&mut out, timestamp);
    out.append("  ");
    push_pad_right(&mut out, msg.status().name(), 21);
    out.append("  ");
    let data = data_column(&msg);
    out.append(data.as_str());
    assert(out@ =~= default_line(port_id, timestamp, message@));
    out
}

/// Whether a message can be rendered in `format`: the default format reads the
/// data bytes that the message's status carries.
pub open spec fn renderable(format: DisplayFormat, m: Seq<u8>) -> bool {
    m.len() >= 1 && (format == DisplayFormat::Default ==> m.len() >= required_len(
        classify_spec(m[0]),
    ))
}

/// Returns how many bytes a message of status `s` must hold to be rendered in
/// the default format.
pub fn required_length(s: Status) -> (r: usize)
    ensures
        r == required_len(s),
{
    match s {
        Status::NoteOff | Status::NoteOn | Status::PolyKeyPressure | Status::ControlChange
        | Status::PitchBend | Status::SongPositionPointer => 3,
        Status::ProgramChange | Status::ChannelPressure | Status::MtcQuarterFrame
        | Status::SongSelect => 2,
        _ => 1,
    }
}

/// Returns whether a message can be rendered in `format`.
pub fn can_render(format: DisplayFormat, message: &[u8]) -> (r: bool)
    ensures
        r == renderable(format, message@),
{
    if message.len() == 0 {
        return false;
    }
    match format {
        DisplayFormat::Default => message.len() >= required_length(classify(message[0])),
        _ => true,
    }
}

/// Renders a message in `format`.
pub fn render(format: DisplayFormat, port_id: usize, timestamp: u64, message: &[u8]) -> (r: String)
    requires
        renderable(format, message@),
    ensures
        r@ == line_text(format, port_id, timestamp, message@),
{
    match format {
        DisplayFormat::Default => display_default(port_id, timestamp, message),
        DisplayFormat::Raw => display_raw(port_id, timestamp, message),
        DisplayFormat::Min => display_min(message),
        DisplayFormat::MinHex => display_min_hex(message),
    }
}

/// Receive callback: the line to show for a message, or `None` where the
/// ignore set or the channel filter suppresses it.
pub fn on_receive(timestamp: u64, message: &[u8], args: &ReceiveArgs) -> (r: Option<String>)
    requires
        message@.len() >= 1,
        args.filter.wf(),
        should_display_spec(message@[0], args.ignore, args.filter) ==> renderable(
            args.format,
            message@,
        ),
    ensures
        r is Some <==> should_display_spec(message@[0], args.ignore, args.filter),
        r matches Some(line) ==> line@ == line_text(
            args.format,
            args.port_id,
            timestamp,
            message@,
        ),
{
    if !should_display(message, &args.ignore, &args.filter) {
        return None;
    }
    Some(render(args.format, args.port_id, timestamp, message))
}

} // verus!
