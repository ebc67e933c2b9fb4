//! Text for the cells of a row, as a terminal shows them: fixed-width fields with ANSI
//! colour escapes.

use crate::module::{Column, Effect, Note, VolEffect};
use vstd::prelude::*;

verus! {

/// The character of a digit below 16, in upper-case hexadecimal.
pub open spec fn spec_digit(d: int) -> char {
    if d == 0 {
        '0'
    }     else if d == 1 {
        '1'
    }     else if d == 2 {
        '2'
    }     else if d == 3 {
        '3'
    }     else if d == 4 {
        '4'
    }     else if d == 5 {
        '5'
    }     else if d == 6 {
        '6'
    }     else if d == 7 {
        '7'
    }     else if d == 8 {
        '8'
    }     else if d == 9 {
        '9'
    }     else if d == 10 {
        'A'
    }     else if d == 11 {
        'B'
    }     else if d == 12 {
        'C'
    }     else if d == 13 {
        'D'
    }     else if d == 14 {
        'E'
    } else {
        'F'
    }
}

/// A number in decimal, without leading zeros.
pub open spec fn spec_decimal(n: int) -> Seq<char>
    decreases n,
{
    if n < 10 {
        seq![spec_digit(n)]
    } else {
        spec_decimal(n / 10).push(spec_digit(n % 10))
    }
}

/// A byte in decimal, with a leading zero where it has one digit.
pub open spec fn spec_decimal2(v: u8) -> Seq<char> {
    if v < 10 {
        seq!['0', spec_digit(v as int)]
    } else {
        spec_decimal(v as int)
    }
}

/// A byte in two hexadecimal digits.
pub open spec fn spec_hex2(v: u8) -> Seq<char> {
    seq![spec_digit(v as int / 16), spec_digit(v as int % 16)]
}

/// A byte in hexadecimal, without a leading zero.
pub open spec fn spec_hex(v: u8) -> Seq<char> {
    if v < 16 {
        seq![spec_digit(v as int)]
    } else {
        spec_hex2(v)
    }
}

/// The name of a semitone within its octave.
pub open spec fn spec_note_name(semitone: int) -> Seq<char> {
    if semitone == 0 {
        "C-"@
    }     else if semitone == 1 {
        "C#"@
    }     else if semitone == 2 {
        "D-"@
    }     else if semitone == 3 {
        "D#"@
    }     else if semitone == 4 {
        "E-"@
    }     else if semitone == 5 {
        "F-"@
    }     else if semitone == 6 {
        "F#"@
    }     else if semitone == 7 {
        "G-"@
    }     else if semitone == 8 {
        "G#"@
    }     else if semitone == 9 {
        "A-"@
    }     else if semitone == 10 {
        "A#"@
    } else {
        "B-"@
    }
}

/// The text of a note cell: three characters for an empty cell, a fade, a cut and an off,
/// else the note's name and the number of its octave.
pub open spec fn spec_format_note(note: Note) -> Seq<char> {
    match note {
        Note::Empty => "..."@,
        Note::On(n) => spec_note_name(n as int % 12) + spec_decimal(n as int / 12),
        Note::Fade => "~~~"@,
        Note::Cut => "^^^"@,
        Note::Off => "==="@,
    }
}

/// The text of a volume cell: a letter for the effect and its parameter in decimal.
pub open spec fn spec_format_vol(vol: VolEffect) -> Seq<char> {
    match vol {
        VolEffect::FineVolSlideUp(value) => "a"@ + spec_decimal2(value),
        VolEffect::FineVolSlideDown(value) => "b"@ + spec_decimal2(value),
        VolEffect::VolSlideUp(value) => "c"@ + spec_decimal2(value),
        VolEffect::VolSlideDown(value) => "d"@ + spec_decimal2(value),
        VolEffect::PortaDown(value) => "e"@ + spec_decimal2(value),
        VolEffect::PortaUp(value) => "f"@ + spec_decimal2(value),
        VolEffect::TonePorta(value) => "g"@ + spec_decimal2(value),
        VolEffect::VibratoDepth(value) => "h"@ + spec_decimal2(value),
        VolEffect::SetPan(value) => "p"@ + spec_decimal2(value),
        VolEffect::Volume(value) => "\x1b[92mv"@ + spec_decimal2(value),
        VolEffect::Empty => " \x1b[37m.."@,
    }
}

/// The text of an effect cell: a colour, the effect's letter and its parameter in
/// hexadecimal.
pub open spec fn spec_format_effect(effect: Effect) -> Seq<char> {
    match effect {
        Effect::Empty(value) => if value != 0 {
            "\x1b[37m."@ + spec_hex2(value)
        } else {
            "\x1b[37m..."@
        },
        Effect::SetSpeed(value) => "\x1b[91mA"@ + spec_hex2(value),
        Effect::PosJump(value) => "\x1b[91mB"@ + spec_hex2(value),
        Effect::PatBreak(value) => "\x1b[91mC"@ + spec_hex2(value),
        Effect::VolSlide(value) => "\x1b[92mD"@ + spec_hex2(value),
        Effect::PortaDown(value) => "\x1b[93mE"@ + spec_hex2(value),
        Effect::PortaUp(value) => "\x1b[93mF"@ + spec_hex2(value),
        Effect::TonePorta(value) => "\x1b[93mG"@ + spec_hex2(value),
        Effect::Vibrato(value) => "\x1b[93mH"@ + spec_hex2(value),
        Effect::Tremor(value) => "\x1b[97mI"@ + spec_hex2(value),
        Effect::Arpeggio(value) => "\x1b[97mJ"@ + spec_hex2(value),
        Effect::VolSlideVibrato(value) => "\x1b[92mK"@ + spec_hex2(value),
        Effect::VolSlideTonePorta(value) => "\x1b[92mL"@ + spec_hex2(value),
        Effect::SetChanVol(value) => "\x1b[92mM"@ + spec_hex2(value),
        Effect::ChanVolSlide(value) => "\x1b[92mN"@ + spec_hex2(value),
        Effect::SampleOffset(value) => "\x1b[97mO"@ + spec_hex2(value),
        Effect::PanSlide(value) => "\x1b[96mP"@ + spec_hex2(value),
        Effect::Retrig(value) => "\x1b[97mQ"@ + spec_hex2(value),
        Effect::Tremolo(value) => "\x1b[92mR"@ + spec_hex2(value),
        Effect::DecTempo(value) => "\x1b[91mT"@ + spec_hex2(value),
        Effect::IncTempo(value) => "\x1b[91mT"@ + spec_hex2(value),
        Effect::SetTempo(value) => "\x1b[91mT"@ + spec_hex2(value),
        Effect::FineVibrato(value) => "\x1b[93mU"@ + spec_hex2(value),
        Effect::SetGlobalVol(value) => "\x1b[91mV"@ + spec_hex2(value),
        Effect::GlobalVolSlide(value) => "\x1b[91mW"@ + spec_hex2(value),
        Effect::FineSetPan(value) => "\x1b[96mX"@ + spec_hex2(value),
        Effect::Panbrello(value) => "\x1b[96mY"@ + spec_hex2(value),
        Effect::MIDIMacro(value) => "\x1b[97mZ"@ + spec_hex2(value),
        Effect::GlissandoControl(on) => if on {
            "\x1b[97mS11"@
        } else {
            "\x1b[97mS10"@
        },
        Effect::SetFinetune(value) => "\x1b[97mS2"@ + spec_hex(value),
        Effect::SetVibratoWaveform(value) => "\x1b[97mS3"@ + spec_hex(value),
        Effect::SetTremoloWaveform(value) => "\x1b[97mS4"@ + spec_hex(value),
        Effect::SetPanbrelloWaveform(value) => "\x1b[97mS5"@ + spec_hex(value),
        Effect::FinePatternDelay(value) => "\x1b[97mS6"@ + spec_hex(value),
        Effect::SetPan(value) => "\x1b[97mS8"@ + spec_hex(value),
        Effect::SoundControl(value) => "\x1b[97mS9"@ + spec_hex(value),
        Effect::HighOffset(value) => "\x1b[97mSA"@ + spec_hex(value),
        Effect::PatLoop(value) => "\x1b[97mSB"@ + spec_hex(value),
        Effect::NoteCut(value) => "\x1b[97mSC"@ + spec_hex(value),
        Effect::NoteDelay(value) => "\x1b[97mSD"@ + spec_hex(value),
        Effect::PatDelay(value) => "\x1b[97mSE"@ + spec_hex(value),
        Effect::SetActiveMacro(value) => "\x1b[97mSF"@ + spec_hex(value),
        Effect::PastNoteCut => "\x1b[97mS70"@,
        Effect::PastNoteOff => "\x1b[97mS71"@,
        Effect::PastNoteFade => "\x1b[97mS72"@,
        Effect::NNANoteCut => "\x1b[97mS73"@,
        Effect::NNANoteContinue => "\x1b[97mS74"@,
        Effect::NNANoteOff => "\x1b[97mS75"@,
        Effect::NNANoteFade => "\x1b[97mS76"@,
        Effect::VolEnvOff => "\x1b[97mS77"@,
        Effect::VolEnvOn => "\x1b[97mS78"@,
        Effect::PanEnvOff => "\x1b[97mS79"@,
        Effect::PanEnvOn => "\x1b[97mS7A"@,
        Effect::PitchEnvOff => "\x1b[97mS7B"@,
        Effect::PitchEnvOn => "\x1b[97mS7C"@,
        Effect::PatLoopStart => "SB0"@,
    }
}

/// The text of an instrument cell: two dots for none, else the number in decimal.
pub open spec fn spec_format_instrument(instrument: u8) -> Seq<char> {
    if instrument == 0 {
        "\x1b[37m.."@
    } else {
        "\x1b[96m"@ + spec_decimal2(instrument)
    }
}

/// The text of a column: the note, the instrument, the volume and the effect, with a
/// space between them.
pub open spec fn spec_format_col(col: Column) -> Seq<char> {
    "\x1b[0m\x1b[97m"@ + spec_format_note(col.note) + " "@ + spec_format_instrument(col.instrument)
        + " "@ + spec_format_vol(col.vol) + " "@ + spec_format_effect(col.effect)
}

/// The text of one digit below 16.
pub fn digit(d: u8) -> (s: &'static str)
    requires
        d < 16,
    ensures
        s@ =~= seq![spec_digit(d as int)],
{
    match d {
        0 => {
            proof {
                reveal_strlit("0");
            }
            "0"
        },
        1 => {
            proof {
                reveal_strlit("1");
            }
            "1"
        },
        2 => {
            proof {
                reveal_strlit("2");
            }
            "2"
        },
        3 => {
            proof {
                reveal_strlit("3");
            }
            "3"
        },
        4 => {
            proof {
                reveal_strlit("4");
            }
            "4"
        },
        5 => {
            proof {
                reveal_strlit("5");
            }
            "5"
        },
        6 => {
            proof {
                reveal_strlit("6");
            }
            "6"
        },
        7 => {
            proof {
                reveal_strlit("7");
            }
            "7"
        },
        8 => {
            proof {
                reveal_strlit("8");
            }
            "8"
        },
        9 => {
            proof {
                reveal_strlit("9");
            }
            "9"
        },
        10 => {
            proof {
                reveal_strlit("A");
            }
            "A"
        },
        11 => {
            proof {
                reveal_strlit("B");
            }
            "B"
        },
        12 => {
            proof {
                reveal_strlit("C");
            }
            "C"
        },
        13 => {
            proof {
                reveal_strlit("D");
            }
            "D"
        },
        14 => {
            proof {
                reveal_strlit("E");
            }
            "E"
        },
        _ => {
            proof {
                reveal_strlit("F");
            }
            "F"
        },
    }
}

/// The text of a byte in decimal.
pub fn decimal(v: u8) -> (s: String)
    ensures
        s@ == spec_decimal(v as int),
{
    let mut s = String::new();
    if v >= 100 {
        s.append(digit(v / 100));
        s.append(digit((v / 10) % 10));
        s.append(digit(v % 10));
        assert(spec_decimal(v as int / 100) =~= seq![spec_digit(v as int / 100)]);
        assert(spec_decimal(v as int / 10) =~= seq![
            spec_digit(v as int / 100),
            spec_digit((v as int / 10) % 10),
        ]);
        assert(s@ =~= spec_decimal(v as int));
    } else if v >= 10 {
        s.append(digit(v / 10));
        s.append(digit(v % 10));
        assert(spec_decimal(v as int / 10) =~= seq![spec_digit(v as int / 10)]);
        assert(s@ =~= spec_decimal(v as int));
    } else {
        s.append(digit(v));
        assert(s@ =~= spec_decimal(v as int));
    }
    s
}

/// The text of a byte in decimal, two digits wide at least.
pub fn decimal2(v: u8) -> (s: String)
    ensures
        s@ == spec_decimal2(v),
{
    if v < 10 {
        let mut s = String::new();
        s.append(digit(0));
        s.append(digit(v));
        assert(s@ =~= spec_decimal2(v));
        s
    } else {
        decimal(v)
    }
}

/// The text of a byte in two hexadecimal digits.
pub fn hex2(v: u8) -> (s: String)
    ensures
        s@ == spec_hex2(v),
{
    let mut s = String::new();
    s.append(digit(v / 16));
    s.append(digit(v % 16));
    assert(s@ =~= spec_hex2(v));
    s
}

/// The text of a byte in hexadecimal.
pub fn hex(v: u8) -> (s: String)
    ensures
        s@ == spec_hex(v),
{
    if v < 16 {
        let mut s = String::new();
        s.append(digit(v));
        assert(s@ =~= spec_hex(v));
        s
    } else {
        hex2(v)
    }
}

/// A label followed by digits.
pub fn labelled(label: &str, digits: String) -> (s: String)
    ensures
        s@ == label@ + digits@,
{
    let mut s = String::from_str(label);
    s.append(digits.as_str());
    s
}

/// The name of a semitone within its octave.
pub fn note_name(semitone: u8) -> (s: &'static str)
    requires
        semitone < 12,
    ensures
        s@ == spec_note_name(semitone as int),
{
    match semitone {
        0 => "C-",
        1 => "C#",
        2 => "D-",
        3 => "D#",
        4 => "E-",
        5 => "F-",
        6 => "F#",
        7 => "G-",
        8 => "G#",
        9 => "A-",
        10 => "A#",
        _ => "B-",
    }
}

/// The text of a note cell.
pub fn format_note(note: Note) -> (s: String)
    ensures
        s@ == spec_format_note(note),
{
    match note {
        Note::Empty => String::from_str("..."),
        Note::On(n) => labelled(note_name(n % 12), decimal(n / 12)),
        Note::Fade => String::from_str("~~~"),
        Note::Cut => String::from_str("^^^"),
        Note::Off => String::from_str("==="),
    }
}

/// The text of a volume cell.
pub fn format_vol(vol: &VolEffect) -> (s: String)
    ensures
        s@ == spec_format_vol(*vol),
{
    match vol {
        VolEffect::FineVolSlideUp(value) => labelled("a", decimal2(*value)),
        VolEffect::FineVolSlideDown(value) => labelled("b", decimal2(*value)),
        VolEffect::VolSlideUp(value) => labelled("c", decimal2(*value)),
        VolEffect::VolSlideDown(value) => labelled("d", decimal2(*value)),
        VolEffect::PortaDown(value) => labelled("e", decimal2(*value)),
        VolEffect::PortaUp(value) => labelled("f", decimal2(*value)),
        VolEffect::TonePorta(value) => labelled("g", decimal2(*value)),
        VolEffect::VibratoDepth(value) => labelled("h", decimal2(*value)),
        VolEffect::SetPan(value) => labelled("p", decimal2(*value)),
        VolEffect::Volume(value) => labelled("\x1b[92mv", decimal2(*value)),
        VolEffect::Empty => String::from_str(" \x1b[37m.."),
    }
}

/// The text of an effect cell.
pub fn format_effect(effect: &Effect) -> (s: String)
    ensures
        s@ == spec_format_effect(*effect),
{
    match effect {
        Effect::Empty(value) => if *value != 0 {
            labelled("\x1b[37m.", hex2(*value))
        } else {
            String::from_str("\x1b[37m...")
        },
        Effect::SetSpeed(value) => labelled("\x1b[91mA", hex2(*value)),
        Effect::PosJump(value) => labelled("\x1b[91mB", hex2(*value)),
        Effect::PatBreak(value) => labelled("\x1b[91mC", hex2(*value)),
        Effect::VolSlide(value) => labelled("\x1b[92mD", hex2(*value)),
        Effect::PortaDown(value) => labelled("\x1b[93mE", hex2(*value)),
        Effect::PortaUp(value) => labelled("\x1b[93mF", hex2(*value)),
        Effect::TonePorta(value) => labelled("\x1b[93mG", hex2(*value)),
        Effect::Vibrato(value) => labelled("\x1b[93mH", hex2(*value)),
        Effect::Tremor(value) => labelled("\x1b[97mI", hex2(*value)),
        Effect::Arpeggio(value) => labelled("\x1b[97mJ", hex2(*value)),
        Effect::VolSlideVibrato(value) => labelled("\x1b[92mK", hex2(*value)),
        Effect::VolSlideTonePorta(value) => labelled("\x1b[92mL", hex2(*value)),
        Effect::SetChanVol(value) => labelled("\x1b[92mM", hex2(*value)),
        Effect::ChanVolSlide(value) => labelled("\x1b[92mN", hex2(*value)),
        Effect::SampleOffset(value) => labelled("\x1b[97mO", hex2(*value)),
        Effect::PanSlide(value) => labelled("\x1b[96mP", hex2(*value)),
        Effect::Retrig(value) => labelled("\x1b[97mQ", hex2(*value)),
        Effect::Tremolo(value) => labelled("\x1b[92mR", hex2(*value)),
        Effect::DecTempo(value) => labelled("\x1b[91mT", hex2(*value)),
        Effect::IncTempo(value) => labelled("\x1b[91mT", hex2(*value)),
        Effect::SetTempo(value) => labelled("\x1b[91mT", hex2(*value)),
        Effect::FineVibrato(value) => labelled("\x1b[93mU", hex2(*value)),
        Effect::SetGlobalVol(value) => labelled("\x1b[91mV", hex2(*value)),
        Effect::GlobalVolSlide(value) => labelled("\x1b[91mW", hex2(*value)),
        Effect::FineSetPan(value) => labelled("\x1b[96mX", hex2(*value)),
        Effect::Panbrello(value) => labelled("\x1b[96mY", hex2(*value)),
        Effect::MIDIMacro(value) => labelled("\x1b[97mZ", hex2(*value)),
        Effect::GlissandoControl(on) => if *on {
            String::from_str("\x1b[97mS11")
        } else {
            String::from_str("\x1b[97mS10")
        },
        Effect::SetFinetune(value) => labelled("\x1b[97mS2", hex(*value)),
        Effect::SetVibratoWaveform(value) => labelled("\x1b[97mS3", hex(*value)),
        Effect::SetTremoloWaveform(value) => labelled("\x1b[97mS4", hex(*value)),
        Effect::SetPanbrelloWaveform(value) => labelled("\x1b[97mS5", hex(*value)),
        Effect::FinePatternDelay(value) => labelled("\x1b[97mS6", hex(*value)),
        Effect::SetPan(value) => labelled("\x1b[97mS8", hex(*value)),
        Effect::SoundControl(value) => labelled("\x1b[97mS9", hex(*value)),
        Effect::HighOffset(value) => labelled("\x1b[97mSA", hex(*value)),
        Effect::PatLoop(value) => labelled("\x1b[97mSB", hex(*value)),
        Effect::NoteCut(value) => labelled("\x1b[97mSC", hex(*value)),
        Effect::NoteDelay(value) => labelled("\x1b[97mSD", hex(*value)),
        Effect::PatDelay(value) => labelled("\x1b[97mSE", hex(*value)),
        Effect::SetActiveMacro(value) => labelled("\x1b[97mSF", hex(*value)),
        Effect::PastNoteCut => String::from_str("\x1b[97mS70"),
        Effect::PastNoteOff => String::from_str("\x1b[97mS71"),
        Effect::PastNoteFade => String::from_str("\x1b[97mS72"),
        Effect::NNANoteCut => String::from_str("\x1b[97mS73"),
        Effect::NNANoteContinue => String::from_str("\x1b[97mS74"),
        Effect::NNANoteOff => String::from_str("\x1b[97mS75"),
        Effect::NNANoteFade => String::from_str("\x1b[97mS76"),
        Effect::VolEnvOff => String::from_str("\x1b[97mS77"),
        Effect::VolEnvOn => String::from_str("\x1b[97mS78"),
        Effect::PanEnvOff => String::from_str("\x1b[97mS79"),
        Effect::PanEnvOn => String::from_str("\x1b[97mS7A"),
        Effect::PitchEnvOff => String::from_str("\x1b[97mS7B"),
        Effect::PitchEnvOn => String::from_str("\x1b[97mS7C"),
        Effect::PatLoopStart => String::from_str("SB0"),
    }
}

/// The text of an instrument cell.
pub fn format_instrument(instrument: u8) -> (s: String)
    ensures
        s@ == spec_format_instrument(instrument),
{
    if instrument == 0 {
        String::from_str("\x1b[37m..")
    } else {
        labelled("\x1b[96m", decimal2(instrument))
    }
}

/// The text of a column.
pub fn format_col(col: &Column) -> (s: String)
    ensures
        s@ == spec_format_col(*col),
{
    let mut s = String::from_str("\x1b[0m\x1b[97m");
    s.append(format_note(col.note).as_str());
    s.append(" ");
    s.append(format_instrument(col.instrument).as_str());
    s.append(" ");
    s.append(format_vol(&col.vol).as_str());
    s.append(" ");
    s.append(format_effect(&col.effect).as_str());
    s
}

} // verus!
