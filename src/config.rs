//! Configuration of the monitor: option names, composite ignore categories
//! and the summary of what is ignored.
use vstd::prelude::*;

use crate::messages::Status;
use crate::monitor::{DisplayFormat, MessageIgnore};

verus! {

/// A message type, or a group of them, that can be ignored.
#[derive(Debug, Copy, Clone, PartialEq, Eq, Structural)]
pub enum IgnoreCategory {
    Note,
    PolyPressure,
    ControlChange,
    ProgramChange,
    ChannelPressure,
    PitchBend,
    Sysex,
    Clock,
    Sensing,
    /// Every system-realtime message.
    Realtime,
    /// Start, Continue and Stop.
    Transport,
    /// Every system message.
    System,
}

/// Whether two strings hold the same characters.
fn same_text(a: &str, b: &str) -> (r: bool)
    ensures
        r == (a@ == b@),
{
    String::from_str(a) == String::from_str(b)
}

/// Whether `s` is a system-realtime status.
pub open spec fn is_realtime(s: Status) -> bool {
    s == Status::TimingClock || s == Status::Start || s == Status::Continue || s == Status::Stop
        || s == Status::ActiveSensing || s == Status::SystemReset
}

impl IgnoreCategory {
    /// The option name of a category.
    pub open spec fn name_text(self) -> Seq<char> {
        match self {
            IgnoreCategory::Note => "note"@,
            IgnoreCategory::PolyPressure => "polyat"@,
            IgnoreCategory::ControlChange => "cc"@,
            IgnoreCategory::ProgramChange => "pc"@,
            IgnoreCategory::ChannelPressure => "at"@,
            IgnoreCategory::PitchBend => "pb"@,
            IgnoreCategory::Sysex => "sysex"@,
            IgnoreCategory::Clock => "clock"@,
            IgnoreCategory::Sensing => "sensing"@,
            IgnoreCategory::Realtime => "realtime"@,
            IgnoreCategory::Transport => "transport"@,
            IgnoreCategory::System => "system"@,
        }
    }

    /// Whether ignoring this category suppresses messages of status `s`.
    pub open spec fn covers(self, s: Status) -> bool {
        match self {
            IgnoreCategory::Note => s == Status::NoteOff || s == Status::NoteOn,
            IgnoreCategory::PolyPressure => s == Status::PolyKeyPressure,
            IgnoreCategory::ControlChange => s == Status::ControlChange,
            IgnoreCategory::ProgramChange => s == Status::ProgramChange,
            IgnoreCategory::ChannelPressure => s == Status::ChannelPressure,
            IgnoreCategory::PitchBend => s == Status::PitchBend,
            IgnoreCategory::Sysex => s == Status::SystemExclusive,
            IgnoreCategory::Clock => s == Status::TimingClock,
            IgnoreCategory::Sensing => s == Status::ActiveSensing,
            IgnoreCategory::Realtime => is_realtime(s),
            IgnoreCategory::Transport => s == Status::Start || s == Status::Continue || s
                == Status::Stop,
            IgnoreCategory::System => s == Status::SystemExclusive || s == Status::MtcQuarterFrame
                || s == Status::SongPositionPointer || s == Status::SongSelect || s
                == Status::TuneRequest || is_realtime(s),
        }
    }

    /// Returns the category with the option name `name`, if any.
    pub fn from_name(name: &str) -> (r: Option<IgnoreCategory>)
        ensures
            r matches Some(c) ==> c.name_text() == name@,
            r is None ==> forall|c: IgnoreCategory| #[trigger] c.name_text() != name@,
    {
        if same_text(name, "note") {
            Some(IgnoreCategory::Note)
        } else if same_text(name, "polyat") {
            Some(IgnoreCategory::PolyPressure)
        } else if same_text(name, "cc") {
            Some(IgnoreCategory::ControlChange)
        } else if same_text(name, "pc") {
            Some(IgnoreCategory::ProgramChange)
        } else if same_text(name, "at") {
            Some(IgnoreCategory::ChannelPressure)
        } else if same_text(name, "pb") {
            Some(IgnoreCategory::PitchBend)
        } else if same_text(name, "sysex") {
            Some(IgnoreCategory::Sysex)
        } else if same_text(name, "clock") {
            Some(IgnoreCategory::Clock)
        } else if same_text(name, "sensing") {
            Some(IgnoreCategory::Sensing)
        } else if same_text(name, "realtime") {
            Some(IgnoreCategory::Realtime)
        } else if same_text(name, "transport") {
            Some(IgnoreCategory::Transport)
        } else if same_text(name, "system") {
            Some(IgnoreCategory::System)
        } else {
            None
        }
    }
}

impl DisplayFormat {
    /// The option name of a format.
    pub open spec fn name_text(self) -> Seq<char> {
        match self {
            DisplayFormat::Default => "default"@,
            DisplayFormat::Raw => "raw"@,
            DisplayFormat::Min => "min"@,
            DisplayFormat::MinHex => "min-hex"@,
        }
    }

    /// Returns the format with the option name `name`; `Default` for any other name.
    pub fn from_name(name: &str) -> (r: DisplayFormat)
        ensures
            r != DisplayFormat::Default ==> r.name_text() == name@,
            r == DisplayFormat::Default ==> forall|f: DisplayFormat|
                f != DisplayFormat::Default ==> #[trigger] f.name_text() != name@,
    {
        if same_text(name, "raw") {
            DisplayFormat::Raw
        } else if same_text(name, "min") {
            DisplayFormat::Min
        } else if same_text(name, "min-hex") {
            DisplayFormat::MinHex
        } else {
            DisplayFormat::Default
        }
    }
}

impl MessageIgnore {
    /// The set after also ignoring `category`.
    pub open spec fn with_category(self, category: IgnoreCategory) -> MessageIgnore {
        match category {
            IgnoreCategory::Note => MessageIgnore { note: true, ..self },
            IgnoreCategory::PolyPressure => MessageIgnore { poly_pressure: true, ..self },
            IgnoreCategory::ControlChange => MessageIgnore { control_change: true, ..self },
            IgnoreCategory::ProgramChange => MessageIgnore { program_change: true, ..self },
            IgnoreCategory::ChannelPressure => MessageIgnore { channel_pressure: true, ..self },
            IgnoreCategory::PitchBend => MessageIgnore { pitch_bend: true, ..self },
            IgnoreCategory::Sysex => MessageIgnore { sysex: true, ..self },
            IgnoreCategory::Clock => MessageIgnore { clock: true, ..self },
            IgnoreCategory::Sensing => MessageIgnore { sensing: true, ..self },
            IgnoreCategory::Realtime => MessageIgnore {
                clock: true,
                start: true,
                continue_: true,
                stop: true,
                sensing: true,
                reset: true,
                ..self
            },
            IgnoreCategory::Transport => MessageIgnore {
                start: true,
                continue_: true,
                stop: true,
                ..self
            },
            IgnoreCategory::System => MessageIgnore {
                sysex: true,
                mtc_frame: true,
                song_pos_pointer: true,
                song_select: true,
                tune_request: true,
                clock: true,
                start: true,
                continue_: true,
                stop: true,
                sensing: true,
                reset: true,
                ..self
            },
        }
    }

    /// Suppresses, from now on, every status that `category` covers.
    pub fn ignore_category(&mut self, category: IgnoreCategory)
        ensures
            *final(self) == old(self).with_category(category),
    {
        let current = *self;
        *self = match category {
            IgnoreCategory::Note => MessageIgnore { note: true, ..current },
            IgnoreCategory::PolyPressure => MessageIgnore { poly_pressure: true, ..current },
            IgnoreCategory::ControlChange => MessageIgnore { control_change: true, ..current },
            IgnoreCategory::ProgramChange => MessageIgnore { program_change: true, ..current },
            IgnoreCategory::ChannelPressure => MessageIgnore { channel_pressure: true, ..current },
            IgnoreCategory::PitchBend => MessageIgnore { pitch_bend: true, ..current },
            IgnoreCategory::Sysex => MessageIgnore { sysex: true, ..current },
            IgnoreCategory::Clock => MessageIgnore { clock: true, ..current },
            IgnoreCategory::Sensing => MessageIgnore { sensing: true, ..current },
            IgnoreCategory::Realtime => MessageIgnore {
                clock: true,
                start: true,
                continue_: true,
                stop: true,
                sensing: true,
                reset: true,
                ..current
            },
            IgnoreCategory::Transport => MessageIgnore {
                start: true,
                continue_: true,
                stop: true,
                ..current
            },
            IgnoreCategory::System => MessageIgnore {
                sysex: true,
                mtc_frame: true,
                song_pos_pointer: true,
                song_select: true,
                tune_request: true,
                clock: true,
                start: true,
                continue_: true,
                stop: true,
                sensing: true,
                reset: true,
                ..current
            },
        };
    }
}

/// Ignoring a category suppresses exactly the statuses that it covers, on top
/// of those already suppressed.
pub proof fn lemma_with_category(ignore: MessageIgnore, category: IgnoreCategory)
    ensures
        forall|s: Status|
            #[trigger] ignore.with_category(category).ignores_spec(s) == (ignore.ignores_spec(s)
                || category.covers(s)),
{
    assert forall|s: Status|
        #[trigger] ignore.with_category(category).ignores_spec(s) == (ignore.ignores_spec(s)
            || category.covers(s)) by {
        lemma_with_category_at(ignore, category, s);
    }
}

#[verifier::rlimit(100)]
proof fn lemma_with_category_at(ignore: MessageIgnore, category: IgnoreCategory, s: Status)
    ensures
        ignore.with_category(category).ignores_spec(s) == (ignore.ignores_spec(s)
            || category.covers(s)),
{
    match category {
        IgnoreCategory::Note => {},
        IgnoreCategory::PolyPressure => {},
        IgnoreCategory::ControlChange => {},
        IgnoreCategory::ProgramChange => {},
        IgnoreCategory::ChannelPressure => {},
        IgnoreCategory::PitchBend => {},
        IgnoreCategory::Sysex => {},
        IgnoreCategory::Clock => {},
        IgnoreCategory::Sensing => {},
        IgnoreCategory::Realtime => {},
        IgnoreCategory::Transport => {},
        IgnoreCategory::System => {},
    }
}

/// `label` alone where `on` holds, else nothing.
pub open spec fn label_if(on: bool, label: Seq<char>) -> Seq<Seq<char>> {
    if on {
        seq![label]
    } else {
        Seq::empty()
    }
}

/// The texts of a list of strings.
pub open spec fn texts(v: Seq<String>) -> Seq<Seq<char>> {
    v.map_values(|s: String| s@)
}

fn push_label(v: &mut Vec<String>, on: bool, label: &str)
    ensures
        texts(final(v)@) == texts(old(v)@) + label_if(on, label@),
{
    if on {
        v.push(String::from_str(label));
    }
    assert(texts(v@) =~= texts(old(v)@) + label_if(on, label@));
}

impl MessageIgnore {
    /// The names of the ignored message types, in a fixed order.
    pub open spec fn labels(self) -> Seq<Seq<char>> {
        label_if(self.note, "Note Off, Note On"@) + label_if(self.poly_pressure, "Poly Key Pressure"@)
            + label_if(self.control_change, "Control Change"@) + label_if(
            self.program_change,
            "Program Change"@,
        ) + label_if(self.pitch_bend, "Pitch Bend"@) + label_if(self.sysex, "Sysex"@) + label_if(
            self.mtc_frame,
            "MTC Quarter Frame"@,
        ) + label_if(self.song_pos_pointer, "Song Pos Pointer"@) + label_if(
            self.song_select,
            "Song Select"@,
        ) + label_if(self.tune_request, "Tune Request"@) + label_if(self.clock, "Clock"@)
            + label_if(self.start, "Start"@) + label_if(self.continue_, "Continue"@) + label_if(
            self.stop,
            "Stop"@,
        ) + label_if(self.sensing, "Active Sensing"@) + label_if(self.reset, "Reset"@)
    }

    /// Returns the names of the ignored message types, for the startup summary.
    pub fn ignored_labels(&self) -> (r: Vec<String>)
        ensures
            texts(r@) == self.labels(),
    {
        let mut v: Vec<String> = Vec::new();
        assert(texts(v@) =~= Seq::empty());
        push_label(&mut v, self.note, "Note Off, Note On");
        push_label(&mut v, self.poly_pressure, "Poly Key Pressure");
        push_label(&mut v, self.control_change, "Control Change");
        push_label(&mut v, self.program_change, "Program Change");
        push_label(&mut v, self.pitch_bend, "Pitch Bend");
        push_label(&mut v, self.sysex, "Sysex");
        push_label(&mut v, self.mtc_frame, "MTC Quarter Frame");
        push_label(&mut v, self.song_pos_pointer, "Song Pos Pointer");
        push_label(&mut v, self.song_select, "Song Select");
        push_label(&mut v, self.tune_request, "Tune Request");
        push_label(&mut v, self.clock, "Clock");
        push_label(&mut v, self.start, "Start");
        push_label(&mut v, self.continue_, "Continue");
        push_label(&mut v, self.stop, "Stop");
        push_label(&mut v, self.sensing, "Active Sensing");
        push_label(&mut v, self.reset, "Reset");
        assert(texts(v@) =~= self.labels());
        v
    }
}

/// Whether the port at `index` is monitored: every port when none is chosen,
/// else the one whose index, as a byte, is the chosen one.
pub fn port_selected(port: Option<u8>, index: usize) -> (r: bool)
    ensures
        r == match port {
            Some(p) => p == index as u8,
            None => true,
        },
{
    match port {
        Some(p) => p == index as u8,
        None => true,
    }
}

} // verus!
