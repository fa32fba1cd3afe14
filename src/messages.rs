//! MIDI message definitions and conversions.
use vstd::prelude::*;

use crate::text::{decimal_text, push_decimal, signed_text};

verus! {

/// Mask that keeps the kind nibble of a channel status byte.
pub const STATUS_MASK: u8 = 0xF0;

/// Mask that keeps the channel nibble of a channel status byte.
pub const CHANNEL_MASK: u8 = 0x0F;

/// Message status.
#[derive(Debug, Clone, Copy, PartialEq, Eq, Structural)]
pub enum Status {
    // Channel messages
    NoteOff,
    NoteOn,
    PolyKeyPressure,
    ControlChange,
    ProgramChange,
    ChannelPressure,
    PitchBend,
    // System common messages
    MtcQuarterFrame,
    SongPositionPointer,
    SongSelect,
    TuneRequest,
    EndOfExclusive,
    // System realtime messages
    TimingClock,
    Start,
    Continue,
    Stop,
    ActiveSensing,
    SystemReset,
    // System exclusive messages
    SystemExclusive,
    /// A reserved or undefined status byte.
    Error,
}

/// The byte that selects the status: the whole byte for system messages,
/// the upper nibble for channel messages.
pub open spec fn selector(status_byte: u8) -> u8 {
    if status_byte >= 0xF0 {
        status_byte
    } else {
        status_byte & STATUS_MASK
    }
}

/// The status that a selector byte stands for.
pub open spec fn status_of_selector(s: u8) -> Status {
    if s == 0x80 {
        Status::NoteOff
    } else if s == 0x90 {
        Status::NoteOn
    } else if s == 0xA0 {
        Status::PolyKeyPressure
    } else if s == 0xB0 {
        Status::ControlChange
    } else if s == 0xC0 {
        Status::ProgramChange
    } else if s == 0xD0 {
        Status::ChannelPressure
    } else if s == 0xE0 {
        Status::PitchBend
    } else if s == 0xF0 {
        Status::SystemExclusive
    } else if s == 0xF1 {
        Status::MtcQuarterFrame
    } else if s == 0xF2 {
        Status::SongPositionPointer
    } else if s == 0xF3 {
        Status::SongSelect
    } else if s == 0xF6 {
        Status::TuneRequest
    } else if s == 0xF7 {
        Status::EndOfExclusive
    } else if s == 0xF8 {
        Status::TimingClock
    } else if s == 0xFA {
        Status::Start
    } else if s == 0xFB {
        Status::Continue
    } else if s == 0xFC {
        Status::Stop
    } else if s == 0xFE {
        Status::ActiveSensing
    } else if s == 0xFF {
        Status::SystemReset
    } else {
        Status::Error
    }
}

/// The status of a message whose leading byte is `status_byte`.
pub open spec fn classify_spec(status_byte: u8) -> Status {
    status_of_selector(selector(status_byte))
}

/// The channel (0-based) of a message whose leading byte is `status_byte`.
pub open spec fn channel_spec(status_byte: u8) -> Option<u8> {
    if status_byte >= 0xF0 {
        None
    } else {
        Some(status_byte & CHANNEL_MASK)
    }
}

impl Status {
    /// The selector byte of a status (zero for `Error`).
    pub open spec fn spec_value(self) -> u8 {
        match self {
            Status::NoteOff => 0x80,
            Status::NoteOn => 0x90,
            Status::PolyKeyPressure => 0xA0,
            Status::ControlChange => 0xB0,
            Status::ProgramChange => 0xC0,
            Status::ChannelPressure => 0xD0,
            Status::PitchBend => 0xE0,
            Status::MtcQuarterFrame => 0xF1,
            Status::SongPositionPointer => 0xF2,
            Status::SongSelect => 0xF3,
            Status::TuneRequest => 0xF6,
            Status::EndOfExclusive => 0xF7,
            Status::TimingClock => 0xF8,
            Status::Start => 0xFA,
            Status::Continue => 0xFB,
            Status::Stop => 0xFC,
            Status::ActiveSensing => 0xFE,
            Status::SystemReset => 0xFF,
            Status::SystemExclusive => 0xF0,
            Status::Error => 0x00,
        }
    }

    /// Whether messages of this status carry a channel.
    pub open spec fn is_channel_message(self) -> bool {
        match self {
            Status::NoteOff | Status::NoteOn | Status::PolyKeyPressure | Status::ControlChange
            | Status::ProgramChange | Status::ChannelPressure | Status::PitchBend => true,
            _ => false,
        }
    }

    /// Whether this is a system-common, system-realtime or system-exclusive status.
    pub open spec fn is_system_message(self) -> bool {
        !self.is_channel_message() && self != Status::Error
    }

    /// Whether messages of this status name a note in their first data byte.
    pub open spec fn has_note(self) -> bool {
        self == Status::NoteOff || self == Status::NoteOn || self == Status::PolyKeyPressure
    }

    /// The human-readable name of a status.
    pub open spec fn name_text(self) -> Seq<char> {
        match self {
            Status::NoteOff => "Note Off"@,
            Status::NoteOn => "Note On"@,
            Status::PolyKeyPressure => "Poly Key Pressure"@,
            Status::ControlChange => "Control Change"@,
            Status::ProgramChange => "Program Change"@,
            Status::ChannelPressure => "Channel Pressure"@,
            Status::PitchBend => "Pitch Bend"@,
            Status::SystemExclusive => "System Exclusive"@,
            Status::MtcQuarterFrame => "MTC Quarter Frame"@,
            Status::SongPositionPointer => "Song Position Pointer"@,
            Status::SongSelect => "Song Select"@,
            Status::TuneRequest => "Tune Request"@,
            Status::EndOfExclusive => "End of Exclusive"@,
            Status::TimingClock => "Timing Clock"@,
            Status::Start => "Start"@,
            Status::Continue => "Continue"@,
            Status::Stop => "Stop"@,
            Status::ActiveSensing => "Active Sensing"@,
            Status::SystemReset => "System Reset"@,
            Status::Error => "Error or unknown"@,
        }
    }

    /// Returns the selector byte of a status (zero for `Error`).
    pub fn value(&self) -> (r: u8)
        ensures
            r == self.spec_value(),
    {
        match self {
            Status::NoteOff => 0x80,
            Status::NoteOn => 0x90,
            Status::PolyKeyPressure => 0xA0,
            Status::ControlChange => 0xB0,
            Status::ProgramChange => 0xC0,
            Status::ChannelPressure => 0xD0,
            Status::PitchBend => 0xE0,
            Status::MtcQuarterFrame => 0xF1,
            Status::SongPositionPointer => 0xF2,
            Status::SongSelect => 0xF3,
            Status::TuneRequest => 0xF6,
            Status::EndOfExclusive => 0xF7,
            Status::TimingClock => 0xF8,
            Status::Start => 0xFA,
            Status::Continue => 0xFB,
            Status::Stop => 0xFC,
            Status::ActiveSensing => 0xFE,
            Status::SystemReset => 0xFF,
            Status::SystemExclusive => 0xF0,
            Status::Error => 0x00,
        }
    }

    /// Returns the status that a selector byte stands for; `Error` where none does.
    pub fn from_selector(s: u8) -> (r: Status)
        ensures
            r == status_of_selector(s),
    {
        match s {
            0x80 => Status::NoteOff,
            0x90 => Status::NoteOn,
            0xA0 => Status::PolyKeyPressure,
            0xB0 => Status::ControlChange,
            0xC0 => Status::ProgramChange,
            0xD0 => Status::ChannelPressure,
            0xE0 => Status::PitchBend,
            0xF0 => Status::SystemExclusive,
            0xF1 => Status::MtcQuarterFrame,
            0xF2 => Status::SongPositionPointer,
            0xF3 => Status::SongSelect,
            0xF6 => Status::TuneRequest,
            0xF7 => Status::EndOfExclusive,
            0xF8 => Status::TimingClock,
            0xFA => Status::Start,
            0xFB => Status::Continue,
            0xFC => Status::Stop,
            0xFE => Status::ActiveSensing,
            0xFF => Status::SystemReset,
            _ => Status::Error,
        }
    }

    /// Returns the human-readable name of a status.
    pub fn name(&self) -> (r: &'static str)
        ensures
            r@ == self.name_text(),
    {
        match self {
            Status::NoteOff => "Note Off",
            Status::NoteOn => "Note On",
            Status::PolyKeyPressure => "Poly Key Pressure",
            Status::ControlChange => "Control Change",
            Status::ProgramChange => "Program Change",
            Status::ChannelPressure => "Channel Pressure",
            Status::PitchBend => "Pitch Bend",
            Status::SystemExclusive => "System Exclusive",
            Status::MtcQuarterFrame => "MTC Quarter Frame",
            Status::SongPositionPointer => "Song Position Pointer",
            Status::SongSelect => "Song Select",
            Status::TuneRequest => "Tune Request",
            Status::EndOfExclusive => "End of Exclusive",
            Status::TimingClock => "Timing Clock",
            Status::Start => "Start",
            Status::Continue => "Continue",
            Status::Stop => "Stop",
            Status::ActiveSensing => "Active Sensing",
            Status::SystemReset => "System Reset",
            Status::Error => "Error or unknown",
        }
    }

    /// Returns the human-readable name of a status as an owned string.
    pub fn to_string(&self) -> (r: String)
        ensures
            r@ == self.name_text(),
    {
        String::from_str(self.name())
    }
}

/// Returns the status of a message whose leading byte is `status_byte`.
/// Every byte value has exactly one status; reserved ones give `Error`.
pub fn classify(status_byte: u8) -> (r: Status)
    ensures
        r == classify_spec(status_byte),
{
    let s = if status_byte >= 0xF0 {
        status_byte
    } else {
        status_byte & STATUS_MASK
    };
    Status::from_selector(s)
}

/// Every byte value has exactly one status: the one whose selector it carries,
/// or `Error` where no status has that selector.
pub proof fn lemma_classify_total(b: u8)
    ensures
        classify_spec(b) != Status::Error ==> classify_spec(b).spec_value() == selector(b),
        classify_spec(b) == Status::Error ==> forall|s: Status|
            s != Status::Error ==> #[trigger] s.spec_value() != selector(b),
        classify_spec(b).is_channel_message() <==> 0x80 <= b < 0xF0,
        classify_spec(b) != Status::Error ==> (channel_spec(b) is None
            <==> classify_spec(b).is_system_message()),
{
    assert(0x80 <= b < 0xF0 ==> ((b & 0xF0) == 0x80 || (b & 0xF0) == 0x90 || (b & 0xF0) == 0xA0
        || (b & 0xF0) == 0xB0 || (b & 0xF0) == 0xC0 || (b & 0xF0) == 0xD0 || (b & 0xF0) == 0xE0))
        by (bit_vector);
    assert(b < 0x80 ==> (b & 0xF0) < 0x80) by (bit_vector);
    assert(b < 0xF0 ==> (b & 0xF0) & 0x0F == 0) by (bit_vector);
}

/// The name of a pitch class, counted in semitones from C.
pub open spec fn pitch_class_text(k: nat) -> Seq<char> {
    if k == 0 {
        "C"@
    } else if k == 1 {
        "C#"@
    } else if k == 2 {
        "D"@
    } else if k == 3 {
        "D#"@
    } else if k == 4 {
        "E"@
    } else if k == 5 {
        "F"@
    } else if k == 6 {
        "F#"@
    } else if k == 7 {
        "G"@
    } else if k == 8 {
        "G#"@
    } else if k == 9 {
        "A"@
    } else if k == 10 {
        "A#"@
    } else {
        "B"@
    }
}

/// The name of a note number: its pitch class and its octave, note 60 being C3.
pub open spec fn note_name_text(note: u8) -> Seq<char> {
    pitch_class_text((note % 12) as nat) + signed_text(note / 12 - 2)
}

/// The name of a controller number; empty for controllers without a common name.
pub open spec fn cc_name_text(controller: u8) -> Seq<char> {
    if controller == 0 {
        "Bank Select MSB"@
    } else if controller == 1 {
        "Mod Wheel"@
    } else if controller == 2 {
        "Breath Control"@
    } else if controller == 4 {
        "Foot Pedal"@
    } else if controller == 5 {
        "Portamento Time"@
    } else if controller == 6 {
        "Data Entry"@
    } else if controller == 7 {
        "Volume"@
    } else if controller == 8 {
        "Balance"@
    } else if controller == 10 {
        "Pan"@
    } else if controller == 11 {
        "Expression"@
    } else if controller == 32 {
        "Bank Select LSB"@
    } else if controller == 64 {
        "Sustain Pedal"@
    } else if controller == 65 {
        "Portamento"@
    } else if controller == 71 {
        "Timbre"@
    } else if controller == 72 {
        "Release Time"@
    } else if controller == 73 {
        "Attack Time"@
    } else if controller == 74 {
        "Brightness"@
    } else if controller == 91 {
        "Reverb Level"@
    } else if controller == 93 {
        "Chorus Level"@
    } else if controller == 120 {
        "All Sound Off"@
    } else if controller == 121 {
        "All Controllers Off"@
    } else if controller == 122 {
        "Local Control"@
    } else if controller == 123 {
        "All Notes Off"@
    } else if controller == 124 {
        "Omni Mode Off"@
    } else if controller == 125 {
        "Omni Mode On"@
    } else if controller == 126 {
        "Mono Mode"@
    } else if controller == 127 {
        "Poly Mode"@
    } else {
        ""@
    }
}

/// Two data bytes combined into one value: `low | (high << 7)`.
pub open spec fn combine_14(low: u8, high: u8) -> u16 {
    (low as u16) | ((high as u16) << 7u16)
}

fn pitch_class_str(k: u8) -> (r: &'static str)
    ensures
        r@ == pitch_class_text(k as nat),
{
    match k {
        0 => "C",
        1 => "C#",
        2 => "D",
        3 => "D#",
        4 => "E",
        5 => "F",
        6 => "F#",
        7 => "G",
        8 => "G#",
        9 => "A",
        10 => "A#",
        _ => "B",
    }
}

fn cc_name_str(controller: u8) -> (r: &'static str)
    ensures
        r@ == cc_name_text(controller),
{
    match controller {
        0 => "Bank Select MSB",
        1 => "Mod Wheel",
        2 => "Breath Control",
        4 => "Foot Pedal",
        5 => "Portamento Time",
        6 => "Data Entry",
        7 => "Volume",
        8 => "Balance",
        10 => "Pan",
        11 => "Expression",
        32 => "Bank Select LSB",
        64 => "Sustain Pedal",
        65 => "Portamento",
        71 => "Timbre",
        72 => "Release Time",
        73 => "Attack Time",
        74 => "Brightness",
        91 => "Reverb Level",
        93 => "Chorus Level",
        120 => "All Sound Off",
        121 => "All Controllers Off",
        122 => "Local Control",
        123 => "All Notes Off",
        124 => "Omni Mode Off",
        125 => "Omni Mode On",
        126 => "Mono Mode",
        127 => "Poly Mode",
        _ => "",
    }
}

/// Representation of the MIDI message.
#[derive(Debug, Clone)]
pub struct MidiMessage {
    /// Message data.
    pub data: Vec<u8>,
}

impl MidiMessage {
    /// A message has at least its status byte.
    pub open spec fn wf(&self) -> bool {
        self.data@.len() >= 1
    }

    /// The status of the message.
    pub open spec fn status_spec(&self) -> Status {
        classify_spec(self.data@[0])
    }

    /// Returns the message status.
    pub fn status(&self) -> (r: Status)
        requires
            self.wf(),
        ensures
            r == self.status_spec(),
    {
        classify(self.data[0])
    }

    /// Returns the message channel (0-based) or `None` for system messages.
    pub fn channel(&self) -> (r: Option<u8>)
        requires
            self.wf(),
        ensures
            r == channel_spec(self.data@[0]),
            0x80 <= self.data@[0] < 0xF0 ==> r == Some((self.data@[0] & CHANNEL_MASK) as u8),
            self.data@[0] >= 0xF0 ==> r is None,
    {
        let status_byte = self.data[0];
        if status_byte >= 0xF0 {
            None
        } else {
            Some(status_byte & CHANNEL_MASK)
        }
    }

    /// Returns a specific message data byte.
    pub fn data(&self, index: usize) -> (r: u8)
        requires
            index < self.data@.len(),
        ensures
            r == self.data@[index as int],
    {
        self.data[index]
    }

    /// Returns the message data as 14-bit value.
    pub fn data_as_u16(&self) -> (r: u16)
        requires
            self.data@.len() >= 3,
        ensures
            r == combine_14(self.data@[1], self.data@[2]),
            self.data@[1] < 0x80 ==> r == self.data@[1] + 0x80 * self.data@[2],
            self.data@[1] < 0x80 && self.data@[2] < 0x80 ==> r < 0x4000,
    {
        let low = self.data[1];
        let high = self.data[2];
        proof {
            lemma_combine_14(low, high);
        }
        low as u16 | ((high as u16) << 7u16)
    }

    /// Creates a new message from an array
    pub fn from_array(data: &[u8]) -> (r: MidiMessage)
        ensures
            r.data@ == data@,
    {
        let mut v: Vec<u8> = Vec::with_capacity(data.len());
        let mut i: usize = 0;
        while i < data.len()
            invariant
                i <= data@.len(),
                v@ == data@.subrange(0, i as int),
            decreases data@.len() - i,
        {
            v.push(data[i]);
            i = i + 1;
            assert(v@ =~= data@.subrange(0, i as int));
        }
        assert(v@ =~= data@);
        MidiMessage { data: v }
    }

    /// Creates a new message from a `Vec`.
    pub fn from_vec(data: Vec<u8>) -> (r: MidiMessage)
        ensures
            r.data@ == data@,
    {
        MidiMessage { data }
    }

    /// Returns the note name for *Note Off*, *Note On* and *Poly Key Pressure* messages.
    ///
    /// Note no 60 is referred as C3.
    pub fn note_name(&self) -> (r: Option<String>)
        requires
            self.wf(),
            self.status_spec().has_note() ==> self.data@.len() >= 2,
        ensures
            r is Some <==> self.status_spec().has_note(),
            r matches Some(s) ==> s@ == note_name_text(self.data@[1]),
    {
        match self.status() {
            Status::NoteOff | Status::NoteOn | Status::PolyKeyPressure => {
                let note = self.data(1);
                let octave = note / 12;
                let mut s = String::from_str(pitch_class_str(note % 12));
                if octave < 2 {
                    s.append("-");
                    push_decimal(&mut s, (2 - octave) as u64);
                } else {
                    push_decimal(&mut s, (octave - 2) as u64);
                }
                assert(s@ =~= note_name_text(note));
                Some(s)
            },
            _ => None,
        }
    }

    /// Returns the name for most common control change messages.
    ///
    /// An empty string is returned for other controller numbers
    pub fn cc_name(&self) -> (r: Option<String>)
        requires
            self.wf(),
            self.status_spec() == Status::ControlChange ==> self.data@.len() >= 2,
        ensures
            r is Some <==> self.status_spec() == Status::ControlChange,
            r matches Some(s) ==> s@ == cc_name_text(self.data@[1]),
    {
        match self.status() {
            Status::ControlChange => Some(String::from_str(cc_name_str(self.data(1)))),
            _ => None,
        }
    }
}

/// Combining two 7-bit bytes is adding the high one times 128 to the low one.
pub proof fn lemma_combine_14(low: u8, high: u8)
    ensures
        low < 0x80 ==> combine_14(low, high) == low + 0x80 * high,
        low < 0x80 && high < 0x80 ==> combine_14(low, high) < 0x4000,
{
    let l = low as u16;
    let h = high as u16;
    assert(l < 0x80 && h < 0x100 ==> (l | (h << 7u16)) == l + h * 0x80) by (bit_vector);
    assert(l < 0x80 && h < 0x80 ==> (l | (h << 7u16)) < 0x4000) by (bit_vector);
}

} // verus!
