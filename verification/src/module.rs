//! The read-only data of a tracker module: samples, patterns, the playlist and the
//! settings that playback starts from.

use crate::lut::NOTE_COUNT;
use vstd::prelude::*;

verus! {

/// Number of columns in every row, and of voices in a player.
pub const CHANNEL_COUNT: usize = 64;

/// Playlist entry that stands for no pattern and is stepped over.
pub const PLAYLIST_SKIP: u8 = 254;

/// Playlist entry that ends the song.
pub const PLAYLIST_END: u8 = 255;

/// Number of playlist positions that a byte can name.
pub const POSITION_COUNT: usize = 256;

/// Largest number of rows a pattern may hold, so that a 16-bit row index reaches each of
/// them and leaves one value free.
pub const MAX_ROWS: usize = 0xFFFF;

/// The dialect a module is played in.
#[derive(Clone, Copy, Debug, PartialEq, Eq, Structural)]
pub enum PlaybackMode {
    MOD,
    /// Scream Tracker 3, with the variant of the format that the file declares.
    S3M(u8),
    IT,
    ITSample,
}

/// How a sample repeats.
#[derive(Clone, Copy, Debug, PartialEq, Eq, Structural)]
pub enum LoopType {
    /// The sample plays through once.
    Disabled,
    /// At the loop's end playback goes back by the loop's length.
    Forward,
    /// At the loop's end playback turns round, and again at its start.
    PingPong,
}

/// The note cell of a column.
#[derive(Clone, Copy, Debug, PartialEq, Eq, Structural)]
pub enum Note {
    Empty,
    /// A semitone below `NOTE_COUNT`.
    On(u8),
    Fade,
    Cut,
    Off,
}

/// The volume cell of a column.
#[derive(Clone, Copy, Debug, PartialEq, Eq, Structural)]
pub enum VolEffect {
    Empty,
    FineVolSlideUp(u8),
    FineVolSlideDown(u8),
    VolSlideUp(u8),
    VolSlideDown(u8),
    PortaDown(u8),
    PortaUp(u8),
    TonePorta(u8),
    VibratoDepth(u8),
    SetPan(u8),
    Volume(u8),
}

/// The effect cell of a column, with its parameter.
#[derive(Clone, Copy, Debug, PartialEq, Eq, Structural)]
pub enum Effect {
    /// No effect; the parameter is kept because some dialects remember it.
    Empty(u8),
    SetSpeed(u8),
    PosJump(u8),
    PatBreak(u8),
    VolSlide(u8),
    PortaDown(u8),
    PortaUp(u8),
    TonePorta(u8),
    Vibrato(u8),
    Tremor(u8),
    Arpeggio(u8),
    VolSlideVibrato(u8),
    VolSlideTonePorta(u8),
    SetChanVol(u8),
    ChanVolSlide(u8),
    SampleOffset(u8),
    PanSlide(u8),
    Retrig(u8),
    Tremolo(u8),
    GlissandoControl(bool),
    SetFinetune(u8),
    SetVibratoWaveform(u8),
    SetTremoloWaveform(u8),
    SetPanbrelloWaveform(u8),
    FinePatternDelay(u8),
    PastNoteCut,
    PastNoteOff,
    PastNoteFade,
    NNANoteCut,
    NNANoteContinue,
    NNANoteOff,
    NNANoteFade,
    VolEnvOff,
    VolEnvOn,
    PanEnvOff,
    PanEnvOn,
    PitchEnvOff,
    PitchEnvOn,
    SetPan(u8),
    SoundControl(u8),
    HighOffset(u8),
    PatLoopStart,
    PatLoop(u8),
    NoteCut(u8),
    NoteDelay(u8),
    PatDelay(u8),
    SetActiveMacro(u8),
    DecTempo(u8),
    IncTempo(u8),
    SetTempo(u8),
    FineVibrato(u8),
    SetGlobalVol(u8),
    GlobalVolSlide(u8),
    FineSetPan(u8),
    Panbrello(u8),
    MIDIMacro(u8),
}

/// One cell of a row: what one channel is told at that row.
#[derive(Clone, Copy, Debug, PartialEq, Eq, Structural)]
pub struct Column {
    pub note: Note,
    /// Zero for none, else the sample's index plus one.
    pub instrument: u8,
    pub vol: VolEffect,
    pub effect: Effect,
}

/// One row of a pattern: a column for each channel.
pub type Row = [Column; 64];

/// A sample slot.
#[derive(Clone, Debug)]
pub struct Sample {
    /// Signed 16-bit PCM.
    pub audio: Vec<i16>,
    pub loop_start: u32,
    /// One past the last looped frame; zero for no loop.
    pub loop_end: u32,
    pub loop_type: LoopType,
    /// Frequency in Hz at which semitone 60 plays the sample.
    pub base_frequency: u32,
    pub default_volume: u8,
    pub global_volume: u8,
}

/// A parsed module.
#[derive(Clone, Debug)]
pub struct Module {
    pub mode: PlaybackMode,
    pub samples: Vec<Sample>,
    pub patterns: Vec<Vec<Row>>,
    pub playlist: Vec<u8>,
    pub initial_tempo: u8,
    pub initial_speed: u8,
    pub initial_global_volume: u8,
    pub mixing_volume: u8,
    pub linear_freq_slides: bool,
    pub fast_volume_slides: bool,
}

/// A note names a semitone only below `NOTE_COUNT`.
pub open spec fn note_valid(note: Note) -> bool {
    match note {
        Note::On(n) => (n as int) < NOTE_COUNT as int,
        _ => true,
    }
}

/// Every note of the row is valid.
pub open spec fn row_valid(row: Row) -> bool {
    forall|i: int| 0 <= i < CHANNEL_COUNT as int ==> note_valid(#[trigger] row[i].note)
}

/// A pattern has at least one row, no more than `MAX_ROWS`, and only valid rows.
pub open spec fn pattern_valid(rows: Seq<Row>) -> bool {
    &&& 0 < rows.len() <= MAX_ROWS as int
    &&& forall|r: int| 0 <= r < rows.len() ==> row_valid(#[trigger] rows[r])
}

/// A playlist entry is a marker or the index of a pattern that exists.
pub open spec fn playlist_entry_valid(entry: u8, pattern_count: int) -> bool {
    entry == PLAYLIST_SKIP || entry == PLAYLIST_END || (entry as int) < pattern_count
}

impl Column {
    /// A column that tells its channel nothing.
    pub fn empty() -> (c: Column)
        ensures
            c == (Column { note: Note::Empty, instrument: 0, vol: VolEffect::Empty, effect: Effect::Empty(0) }),
    {
        Column { note: Note::Empty, instrument: 0, vol: VolEffect::Empty, effect: Effect::Empty(0) }
    }
}

impl PlaybackMode {
    /// Whether the mode is one of the two Impulse Tracker dialects.
    pub open spec fn spec_is_it(self) -> bool {
        self == PlaybackMode::IT || self == PlaybackMode::ITSample
    }

    /// Whether the mode is a Scream Tracker 3 dialect.
    pub open spec fn spec_is_s3m(self) -> bool {
        self is S3M
    }

    #[verifier::when_used_as_spec(spec_is_it)]
    pub fn is_it(self) -> (b: bool)
        ensures
            b == self.spec_is_it(),
    {
        match self {
            PlaybackMode::IT => true,
            PlaybackMode::ITSample => true,
            _ => false,
        }
    }

    #[verifier::when_used_as_spec(spec_is_s3m)]
    pub fn is_s3m(self) -> (b: bool)
        ensures
            b == self.spec_is_s3m(),
    {
        match self {
            PlaybackMode::S3M(_) => true,
            _ => false,
        }
    }
}

impl Module {
    /// What playback asks of a module: the playlist starts with a pattern, names only
    /// patterns that exist, and every pattern is valid.
    pub open spec fn valid(&self) -> bool {
        &&& self.playlist@.len() > 0
        &&& self.playlist@[0] != PLAYLIST_SKIP
        &&& self.playlist@[0] != PLAYLIST_END
        &&& forall|i: int|
            0 <= i < self.playlist@.len() ==> playlist_entry_valid(
                #[trigger] self.playlist@[i],
                self.patterns@.len() as int,
            )
        &&& forall|p: int|
            0 <= p < self.patterns@.len() ==> pattern_valid(#[trigger] self.patterns@[p]@)
    }

    /// The playlist entry at a position. Past the playlist's end, and past the last position
    /// that a byte can name, the song is over.
    pub open spec fn spec_playlist_entry(&self, position: int) -> u8 {
        if 0 <= position < self.playlist@.len() && position < POSITION_COUNT as int {
            self.playlist@[position]
        } else {
            PLAYLIST_END
        }
    }

    /// The playlist entry at a position.
    pub fn playlist_entry(&self, position: usize) -> (entry: u8)
        ensures
            entry == self.spec_playlist_entry(position as int),
    {
        if position < self.playlist.len() && position < POSITION_COUNT {
            self.playlist[position]
        } else {
            PLAYLIST_END
        }
    }

    /// The first position at or after the given one whose entry is not a skip marker.
    pub open spec fn spec_skip_markers(&self, position: int) -> int
        decreases POSITION_COUNT as int - position,
    {
        if 0 <= position < POSITION_COUNT as int && self.spec_playlist_entry(position)
            == PLAYLIST_SKIP {
            self.spec_skip_markers(position + 1)
        } else {
            position
        }
    }

    /// Steps over skip markers, from a position on.
    pub fn skip_markers(&self, position: usize) -> (landed: usize)
        requires
            position <= POSITION_COUNT,
        ensures
            landed == self.spec_skip_markers(position as int),
            position <= landed <= POSITION_COUNT,
            self.spec_playlist_entry(landed as int) != PLAYLIST_SKIP,
    {
        let mut at = position;
        while at < POSITION_COUNT && self.playlist_entry(at) == PLAYLIST_SKIP
            invariant
                position <= at <= POSITION_COUNT,
                self.spec_skip_markers(at as int) == self.spec_skip_markers(position as int),
            decreases POSITION_COUNT - at,
        {
            at += 1;
        }
        at
    }

    /// Tests whether the module is valid.
    pub fn is_valid(&self) -> (b: bool)
        ensures
            b == self.valid(),
    {
        if self.playlist.len() == 0 {
            return false;
        }
        if self.playlist[0] == PLAYLIST_SKIP || self.playlist[0] == PLAYLIST_END {
            return false;
        }
        let mut i: usize = 0;
        while i < self.playlist.len()
            invariant
                i <= self.playlist@.len(),
                forall|k: int|
                    0 <= k < i ==> playlist_entry_valid(
                        #[trigger] self.playlist@[k],
                        self.patterns@.len() as int,
                    ),
            decreases self.playlist@.len() - i,
        {
            let entry = self.playlist[i];
            if !(entry == PLAYLIST_SKIP || entry == PLAYLIST_END || (entry as usize)
                < self.patterns.len()) {
                return false;
            }
            i += 1;
        }
        let mut p: usize = 0;
        while p < self.patterns.len()
            invariant
                p <= self.patterns@.len(),
                forall|k: int| 0 <= k < p ==> pattern_valid(#[trigger] self.patterns@[k]@),
            decreases self.patterns@.len() - p,
        {
            if !pattern_is_valid(&self.patterns[p]) {
                return false;
            }
            p += 1;
        }
        true
    }
}

/// Tests whether a note is valid.
pub fn note_is_valid(note: Note) -> (b: bool)
    ensures
        b == note_valid(note),
{
    match note {
        Note::On(n) => (n as usize) < NOTE_COUNT,
        _ => true,
    }
}

/// Tests whether every note of a row is valid.
pub fn row_is_valid(row: &Row) -> (b: bool)
    ensures
        b == row_valid(*row),
{
    let mut i: usize = 0;
    while i < CHANNEL_COUNT
        invariant
            i <= CHANNEL_COUNT,
            forall|k: int| 0 <= k < i ==> note_valid(#[trigger] row[k].note),
        decreases CHANNEL_COUNT - i,
    {
        if !note_is_valid(row[i].note) {
            return false;
        }
        i += 1;
    }
    true
}

/// Tests whether a pattern is valid.
pub fn pattern_is_valid(rows: &Vec<Row>) -> (b: bool)
    ensures
        b == pattern_valid(rows@),
{
    if rows.len() == 0 || rows.len() > MAX_ROWS {
        return false;
    }
    let mut r: usize = 0;
    while r < rows.len()
        invariant
            r <= rows@.len(),
            forall|k: int| 0 <= k < r ==> row_valid(#[trigger] rows@[k]),
        decreases rows@.len() - r,
    {
        if !row_is_valid(&rows[r]) {
            return false;
        }
        r += 1;
    }
    true
}

} // verus!
