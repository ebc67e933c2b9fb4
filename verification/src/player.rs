//! The player: 64 voices, the row and tick scheduler, the dispatch of effects, and the mix.

use crate::channel::{
    has_memory, slide_volume, spec_slide_volume, Channel, Interpolation, MAX_VOLUME,
};
use crate::module::{
    row_valid, Column, Effect, Module, PlaybackMode, Row, CHANNEL_COUNT, PLAYLIST_END,
};
use vstd::prelude::*;

verus! {

/// Row index of a player that has not entered its first row yet.
pub const ROW_NOT_STARTED: u16 = 0xFFFF;

/// Highest global volume of the Impulse Tracker dialects.
pub const MAX_GLOBAL_VOLUME_IT: u8 = 128;

/// Highest global volume of the other dialects.
pub const MAX_GLOBAL_VOLUME: u8 = 64;

/// A player over a module that it reads and never changes.
pub struct Player<'a> {
    pub module: &'a Module,
    /// Output frames per second.
    pub samplerate: u32,
    pub interpolation: Interpolation,
    pub global_volume: u8,
    /// Place in the playlist.
    pub current_position: u8,
    pub current_pattern: u8,
    /// Row of the pattern, or `ROW_NOT_STARTED`.
    pub current_row: u16,
    pub current_tempo: u8,
    /// Ticks per row.
    pub current_speed: u8,
    /// Output frames since the last tick.
    pub tick_counter: u32,
    /// Ticks since the row was entered.
    pub ticks_passed: u8,
    pub channels: Vec<Channel>,
    /// Whether the song has ended; a finished player gives silence.
    pub finished: bool,
    /// Whether an effect was met that the module's dialect keeps no memory for, and that was
    /// therefore left out.
    pub unsupported_effect: bool,
}

/// What a player holds besides its module and its output settings.
pub struct PlayerState {
    pub global_volume: u8,
    pub current_position: u8,
    pub current_pattern: u8,
    pub current_row: u16,
    pub current_tempo: u8,
    pub current_speed: u8,
    pub tick_counter: u32,
    pub ticks_passed: u8,
    pub channels: Seq<Channel>,
    pub finished: bool,
    pub unsupported_effect: bool,
}

/// The highest global volume of a dialect.
pub open spec fn spec_max_global_volume(mode: PlaybackMode) -> u8 {
    if mode.spec_is_it() {
        MAX_GLOBAL_VOLUME_IT
    } else {
        MAX_GLOBAL_VOLUME
    }
}

/// The highest global volume of a dialect.
pub fn max_global_volume(mode: &PlaybackMode) -> (max: u8)
    ensures
        max == spec_max_global_volume(*mode),
{
    match mode {
        PlaybackMode::S3M(_) => 64,
        PlaybackMode::IT => 128,
        PlaybackMode::ITSample => 128,
        _ => 64,
    }
}

/// The length of a tick in output frames: the sample rate times 2.5 over the tempo,
/// rounded down. A tempo of zero, and a length past `u32`, give the largest `u32`.
pub open spec fn spec_samples_per_tick(samplerate: u32, tempo: u8) -> u32 {
    if tempo == 0 {
        u32::MAX
    } else {
        let frames = (5 * samplerate as int) / (2 * tempo as int);
        if frames > u32::MAX as int {
            u32::MAX
        } else {
            frames as u32
        }
    }
}

/// The length of a tick in output frames.
pub fn samples_per_tick(samplerate: u32, tempo: u8) -> (frames: u32)
    ensures
        frames == spec_samples_per_tick(samplerate, tempo),
{
    if tempo == 0 {
        u32::MAX
    } else {
        let frames: u64 = (5 * (samplerate as u64)) / (2 * (tempo as u64));
        if frames > u32::MAX as u64 {
            u32::MAX
        } else {
            frames as u32
        }
    }
}

/// A place in the song: a playlist position, the pattern there, and a row of it.
pub struct Cursor {
    pub position: u8,
    pub pattern: u8,
    pub row: u16,
}

/// An integer cut to the range of `i32`.
pub open spec fn clamp_i32(v: int) -> i32 {
    if v < i32::MIN as int {
        i32::MIN
    } else if v > i32::MAX as int {
        i32::MAX
    } else {
        v as i32
    }
}

/// The row that a pattern break names: in MOD and Scream Tracker 3 the parameter's nibbles
/// are two decimal digits, elsewhere the parameter is the row.
pub open spec fn spec_break_row(mode: PlaybackMode, value: u8) -> u8 {
    if mode == PlaybackMode::MOD || mode.spec_is_s3m() {
        (value as int % 16 + (value as int / 16) * 10) as u8
    } else {
        value
    }
}

/// The row that a pattern break names.
pub fn break_row(mode: PlaybackMode, value: u8) -> (row: u8)
    ensures
        row == spec_break_row(mode, value),
{
    match mode {
        PlaybackMode::MOD => value % 16 + (value / 16) * 10,
        PlaybackMode::S3M(_) => value % 16 + (value / 16) * 10,
        _ => value,
    }
}

/// The position that the last position jump among the first columns of a row names.
pub open spec fn spec_pos_jump(row: Row, columns: int) -> Option<u8>
    decreases columns,
{
    if columns <= 0 {
        None
    } else {
        match row[columns - 1].effect {
            Effect::PosJump(position) => Some(position),
            _ => spec_pos_jump(row, columns - 1),
        }
    }
}

/// The row that the last pattern break among the first columns of a row names.
pub open spec fn spec_pat_break(row: Row, mode: PlaybackMode, columns: int) -> Option<u8>
    decreases columns,
{
    if columns <= 0 {
        None
    } else {
        match row[columns - 1].effect {
            Effect::PatBreak(value) => Some(spec_break_row(mode, value)),
            _ => spec_pat_break(row, mode, columns - 1),
        }
    }
}

/// Where the song stands after a row, or `None` where it is over.
///
/// Without a jump or a break the next row of the pattern follows. A position jump goes to
/// the first row at the position it names. A pattern break goes to the row it names at the
/// next position, counted from the jump's position where there is one too, and back at the
/// start of the playlist where the next position ends the song. Skip markers are stepped
/// over. A row past the pattern's end becomes the first row at the position after it. The
/// song is over where the end marker, or the end of the playlist, is reached.
pub open spec fn spec_next_cursor(
    module: &Module,
    position: u8,
    row: u16,
    jump: Option<u8>,
    pat_break: Option<u8>,
) -> Option<Cursor> {
    let start: int = match pat_break {
        Some(_) => {
            let base: int = match jump {
                Some(p) => p as int,
                None => position as int,
            };
            if module.spec_playlist_entry(base + 1) == PLAYLIST_END {
                0
            } else {
                base + 1
            }
        },
        None => match jump {
            Some(p) => p as int,
            None => position as int,
        },
    };
    let wanted: int = match pat_break {
        Some(to) => to as int,
        None => match jump {
            Some(_) => 0,
            None => row as int + 1,
        },
    };
    let landed = module.spec_skip_markers(start);
    let pattern = module.spec_playlist_entry(landed);
    if pattern == PLAYLIST_END {
        None
    } else if wanted < module.patterns@[pattern as int]@.len() {
        Some(Cursor { position: landed as u8, pattern, row: wanted as u16 })
    } else {
        let after = module.spec_skip_markers(landed + 1);
        let following = module.spec_playlist_entry(after);
        if following == PLAYLIST_END {
            None
        } else {
            Some(Cursor { position: after as u8, pattern: following, row: 0 })
        }
    }
}

/// Where the song stands after a row, or `None` where it is over.
pub fn next_cursor(
    module: &Module,
    position: u8,
    row: u16,
    jump: Option<u8>,
    pat_break: Option<u8>,
) -> (next: Option<Cursor>)
    requires
        module.valid(),
    ensures
        next == spec_next_cursor(module, position, row, jump, pat_break),
        match next {
            Some(c) => (c.pattern as int) < module.patterns@.len() && (c.row as int)
                < module.patterns@[c.pattern as int]@.len(),
            None => true,
        },
{
    let base: usize = match jump {
        Some(p) => p as usize,
        None => position as usize,
    };
    let start: usize = match pat_break {
        Some(_) => if module.playlist_entry(base + 1) == PLAYLIST_END {
            0
        } else {
            base + 1
        },
        None => base,
    };
    let wanted: usize = match pat_break {
        Some(to) => to as usize,
        None => match jump {
            Some(_) => 0,
            None => row as usize + 1,
        },
    };
    let landed = module.skip_markers(start);
    let pattern = module.playlist_entry(landed);
    if pattern == PLAYLIST_END {
        return None;
    }
    if wanted < module.patterns[pattern as usize].len() {
        return Some(Cursor { position: landed as u8, pattern, row: wanted as u16 });
    }
    let after = module.skip_markers(landed + 1);
    let following = module.playlist_entry(after);
    if following == PLAYLIST_END {
        None
    } else {
        Some(Cursor { position: after as u8, pattern: following, row: 0 })
    }
}

/// Whether an effect keeps its parameter in a memory that the dialect has to name.
pub open spec fn spec_needs_memory(effect: Effect) -> bool {
    effect is PortaUp || effect is PortaDown || effect is VolSlide || effect is VolSlideVibrato
        || effect is VolSlideTonePorta || effect is Retrig
}

/// Whether an effect keeps its parameter in a memory that the dialect has to name.
pub fn needs_memory(effect: Effect) -> (b: bool)
    ensures
        b == spec_needs_memory(effect),
{
    match effect {
        Effect::PortaUp(_) => true,
        Effect::PortaDown(_) => true,
        Effect::VolSlide(_) => true,
        Effect::VolSlideVibrato(_) => true,
        Effect::VolSlideTonePorta(_) => true,
        Effect::Retrig(_) => true,
        _ => false,
    }
}

/// Whether an effect ends the tick for the columns after it: a tone portamento, alone or
/// with a volume slide, on the first tick of a row.
pub open spec fn spec_tick_stops(effect: Effect, ticks_passed: u8) -> bool {
    (effect is TonePorta || effect is VolSlideTonePorta) && ticks_passed == 0
}

/// Whether an effect ends the tick for the columns after it.
pub fn tick_stops(effect: Effect, ticks_passed: u8) -> (b: bool)
    ensures
        b == spec_tick_stops(effect, ticks_passed),
{
    match effect {
        Effect::TonePorta(_) => ticks_passed == 0,
        Effect::VolSlideTonePorta(_) => ticks_passed == 0,
        _ => false,
    }
}

/// One voice in the mix: the frame times the module's mixing volume, the global volume
/// and two, and two again outside the Impulse Tracker dialects, held in `i32`.
pub open spec fn spec_voice(frame: i16, module: &Module, global_volume: u8) -> i32 {
    let headroom: int = if module.mode.spec_is_it() {
        2
    } else {
        4
    };
    clamp_i32(frame as int * (module.mixing_volume as int * global_volume as int * headroom))
}

/// One voice in the mix.
pub fn voice(frame: i16, module: &Module, global_volume: u8) -> (out: i32)
    ensures
        out == spec_voice(frame, module, global_volume),
{
    let headroom: i64 = if module.mode.is_it() {
        2
    } else {
        4
    };
    assert(0 <= module.mixing_volume as int * global_volume as int <= 65025) by (nonlinear_arith)
        requires
            0 <= module.mixing_volume as int <= 255,
            0 <= global_volume as int <= 255,
    ;
    let volumes: i64 = (module.mixing_volume as i64) * (global_volume as i64);
    let gain: i64 = volumes * headroom;
    assert(-32768 * 260100 <= frame as int * gain as int <= 32767 * 260100) by (nonlinear_arith)
        requires
            -32768 <= frame as int <= 32767,
            0 <= gain as int <= 260100,
    ;
    let full: i64 = (frame as i64) * gain;
    if full > i32::MAX as i64 {
        i32::MAX
    } else if full < i32::MIN as i64 {
        i32::MIN
    } else {
        full as i32
    }
}

/// The sum of two frames, held in `i32`.
pub fn saturating_sum(a: i32, b: i32) -> (sum: i32)
    ensures
        sum == clamp_i32(a as int + b as int),
{
    let full: i64 = a as i64 + b as i64;
    if full > i32::MAX as i64 {
        i32::MAX
    } else if full < i32::MIN as i64 {
        i32::MIN
    } else {
        full as i32
    }
}

/// The mix of the first voices: their sum in channel order, held in `i32` after each one.
pub open spec fn spec_mix(channels: Seq<Channel>, module: &Module, global_volume: u8, voices: int) -> i32
    decreases voices,
{
    if voices <= 0 {
        0
    } else {
        clamp_i32(
            spec_mix(channels, module, global_volume, voices - 1) as int + spec_voice(
                channels[voices - 1].spec_output(module),
                module,
                global_volume,
            ) as int,
        )
    }
}

impl PlayerState {
    /// The state of a player made from a module.
    pub open spec fn spec_initial(module: &Module) -> PlayerState {
        PlayerState {
            global_volume: if module.initial_global_volume > spec_max_global_volume(module.mode) {
                spec_max_global_volume(module.mode)
            } else {
                module.initial_global_volume
            },
            current_position: 0,
            current_pattern: module.playlist@[0],
            current_row: ROW_NOT_STARTED,
            current_tempo: module.initial_tempo,
            current_speed: module.initial_speed,
            tick_counter: 0,
            ticks_passed: 0,
            channels: Seq::new(CHANNEL_COUNT as nat, |i: int| Channel::spec_new()),
            finished: false,
            unsupported_effect: false,
        }
    }

    /// What every operation keeps. There are 64 well-formed channels, the global volume is
    /// at most the dialect's highest, and a player that has not finished stands on a pattern
    /// that exists and, once started, on a row of it.
    pub open spec fn wf(self, module: &Module) -> bool {
        &&& self.channels.len() == CHANNEL_COUNT
        &&& forall|i: int| 0 <= i < CHANNEL_COUNT as int ==> (#[trigger] self.channels[i]).wf()
        &&& self.global_volume <= spec_max_global_volume(module.mode)
        &&& !self.finished ==> {
            &&& (self.current_pattern as int) < module.patterns@.len()
            &&& self.current_row != ROW_NOT_STARTED ==> (self.current_row as int)
                < module.patterns@[self.current_pattern as int]@.len()
        }
    }

    /// The state after the row has been left for the next one. A player that has not
    /// started enters row 0 of its pattern. Else the row is searched for a position jump and
    /// a pattern break, the song moves as `spec_next_cursor` says or is over, and the tick
    /// count starts again.
    pub open spec fn spec_advance_row(self, module: &Module) -> PlayerState {
        if self.current_row == ROW_NOT_STARTED {
            PlayerState { current_row: 0, ticks_passed: 0, ..self }
        } else {
            let row = module.patterns@[self.current_pattern as int]@[self.current_row as int];
            match spec_next_cursor(
                module,
                self.current_position,
                self.current_row,
                spec_pos_jump(row, CHANNEL_COUNT as int),
                spec_pat_break(row, module.mode, CHANNEL_COUNT as int),
            ) {
                Some(c) => PlayerState {
                    current_position: c.position,
                    current_pattern: c.pattern,
                    current_row: c.row,
                    ticks_passed: 0,
                    ..self
                },
                None => PlayerState { finished: true, ticks_passed: 0, ..self },
            }
        }
    }

    /// The state after an effect has been looked at on entry to its row: the speed, the
    /// tempo, or a global volume that is not above the dialect's highest is set.
    pub open spec fn spec_row_settings(self, module: &Module, effect: Effect) -> PlayerState {
        match effect {
            Effect::SetSpeed(speed) => PlayerState { current_speed: speed, ..self },
            Effect::SetTempo(tempo) => PlayerState { current_tempo: tempo, ..self },
            Effect::SetGlobalVol(volume) => if volume <= spec_max_global_volume(module.mode) {
                PlayerState { global_volume: volume, ..self }
            } else {
                self
            },
            _ => self,
        }
    }

    /// The state after one column of a row has been entered.
    pub open spec fn spec_play_column(self, module: &Module, col: Column, index: int) -> PlayerState {
        let s = self.spec_row_settings(module, col.effect);
        PlayerState {
            channels: s.channels.update(index, s.channels[index].spec_play_column(module, col)),
            ..s
        }
    }

    /// The state after the columns of a row from an index on have been entered, in order.
    pub open spec fn spec_play_columns(self, module: &Module, row: Row, from: int) -> PlayerState
        decreases CHANNEL_COUNT as int - from,
    {
        if from >= CHANNEL_COUNT as int || from < 0 {
            self
        } else {
            self.spec_play_column(module, row[from], from).spec_play_columns(module, row, from + 1)
        }
    }

    /// The state after the current row has been entered.
    pub open spec fn spec_play_row(self, module: &Module) -> PlayerState {
        self.spec_play_columns(
            module,
            module.patterns@[self.current_pattern as int]@[self.current_row as int],
            0,
        )
    }

    /// The state after one tick of one column: the channel runs its effect, a global
    /// volume slide runs with the parameter that the channel keeps for it, and an effect
    /// that needs a memory which the dialect does not name is marked as left out.
    pub open spec fn spec_tick_column(self, module: &Module, col: Column, index: int) -> PlayerState {
        let channel = self.channels[index].spec_tick_column(module, col, self.ticks_passed);
        let s = PlayerState {
            channels: self.channels.update(index, channel),
            unsupported_effect: self.unsupported_effect || (spec_needs_memory(col.effect)
                && !has_memory(module.mode)),
            ..self
        };
        if col.effect is GlobalVolSlide {
            s.spec_global_vol_slide(module, channel.global_volume_memory)
        } else {
            s
        }
    }

    /// The state after one tick of the columns of a row from an index on, in order, up to
    /// and with the first that ends the tick.
    pub open spec fn spec_tick_columns(self, module: &Module, row: Row, from: int) -> PlayerState
        decreases CHANNEL_COUNT as int - from,
    {
        if from >= CHANNEL_COUNT as int || from < 0 {
            self
        } else {
            let s = self.spec_tick_column(module, row[from], from);
            if spec_tick_stops(row[from].effect, self.ticks_passed) {
                s
            } else {
                s.spec_tick_columns(module, row, from + 1)
            }
        }
    }

    /// The state after one tick of the current row; before the first row nothing happens.
    pub open spec fn spec_process_tick(self, module: &Module) -> PlayerState {
        if self.current_row == ROW_NOT_STARTED {
            self
        } else {
            self.spec_tick_columns(
                module,
                module.patterns@[self.current_pattern as int]@[self.current_row as int],
                0,
            )
        }
    }

    /// The state after a tick boundary: the tick count goes up, and where it reaches the
    /// speed the row is left, the next one entered, unless the song is over; then the tick
    /// runs.
    pub open spec fn spec_tick(self, module: &Module) -> PlayerState {
        if self.ticks_passed as int + 1 >= self.current_speed as int {
            let advanced = self.spec_advance_row(module);
            if advanced.finished {
                advanced
            } else {
                advanced.spec_play_row(module).spec_process_tick(module)
            }
        } else {
            PlayerState { ticks_passed: (self.ticks_passed + 1) as u8, ..self }.spec_process_tick(
                module,
            )
        }
    }

    /// The channels after each has moved on by one output frame.
    pub open spec fn spec_moved_channels(self, module: &Module, samplerate: u32) -> Seq<Channel> {
        Seq::new(self.channels.len(), |i: int| self.channels[i].spec_moved(module, samplerate))
    }

    /// Whether the output frame that is being made is the last of its tick: with it, as
    /// many frames have been made since the last tick as a tick is long. A tick of length
    /// zero ends with every frame.
    pub open spec fn spec_tick_due(self, samplerate: u32) -> bool {
        self.tick_counter as int + 1 >= spec_samples_per_tick(samplerate, self.current_tempo) as int
    }

    /// The state after one output frame. A finished player does not change. Else every
    /// channel moves on, and the frame counter goes up, or, on the last frame of a tick,
    /// back to zero while the tick boundary is passed.
    pub open spec fn spec_process(self, module: &Module, samplerate: u32) -> PlayerState {
        if self.finished {
            self
        } else {
            let moved = PlayerState {
                channels: self.spec_moved_channels(module, samplerate),
                ..self
            };
            if self.spec_tick_due(samplerate) {
                PlayerState { tick_counter: 0, ..moved }.spec_tick(module)
            } else {
                PlayerState { tick_counter: (self.tick_counter + 1) as u32, ..moved }
            }
        }
    }

    /// The state after a number of output frames.
    pub open spec fn spec_run(self, module: &Module, samplerate: u32, frames: int) -> PlayerState
        decreases frames,
    {
        if frames <= 0 {
            self
        } else {
            self.spec_run(module, samplerate, frames - 1).spec_process(module, samplerate)
        }
    }

    /// The output frame: silence from a finished player, else the mix of the channels after
    /// they have moved, at the global volume before any effect of this frame.
    pub open spec fn spec_output(self, module: &Module, samplerate: u32) -> i32 {
        if self.finished {
            0
        } else {
            spec_mix(
                self.spec_moved_channels(module, samplerate),
                module,
                self.global_volume,
                CHANNEL_COUNT as int,
            )
        }
    }

    /// The state after a global volume slide on one tick: the global volume slides as a
    /// channel's does, under the dialect's highest global volume.
    pub open spec fn spec_global_vol_slide(self, module: &Module, value: u8) -> PlayerState {
        PlayerState {
            global_volume: spec_slide_volume(
                self.global_volume,
                value,
                self.ticks_passed,
                module.fast_volume_slides,
                spec_max_global_volume(module.mode),
            ),
            ..self
        }
    }
}

impl<'a> View for Player<'a> {
    type V = PlayerState;

    open spec fn view(&self) -> PlayerState {
        PlayerState {
            global_volume: self.global_volume,
            current_position: self.current_position,
            current_pattern: self.current_pattern,
            current_row: self.current_row,
            current_tempo: self.current_tempo,
            current_speed: self.current_speed,
            tick_counter: self.tick_counter,
            ticks_passed: self.ticks_passed,
            channels: self.channels@,
            finished: self.finished,
            unsupported_effect: self.unsupported_effect,
        }
    }
}

impl<'a> Player<'a> {
    /// What every operation keeps: the module is valid, the sample rate is not zero, and the
    /// state is well-formed for the module.
    pub open spec fn wf(&self) -> bool {
        &&& self.module.valid()
        &&& self.samplerate > 0
        &&& self@.wf(self.module)
    }

    /// Whether two players have the same module and the same output settings.
    pub open spec fn same_setup(&self, other: &Player<'a>) -> bool {
        &&& self.module == other.module
        &&& self.samplerate == other.samplerate
        &&& self.interpolation == other.interpolation
    }

    /// A player at the start of a module's playlist, with linear interpolation.
    pub fn from_module(module: &'a Module, samplerate: u32) -> (player: Player<'a>)
        requires
            module.valid(),
            samplerate > 0,
        ensures
            player@ == PlayerState::spec_initial(module),
            player.module == module,
            player.samplerate == samplerate,
            player.interpolation == Interpolation::Linear,
            player.wf(),
    {
        let max = max_global_volume(&module.mode);
        let mut channels: Vec<Channel> = Vec::with_capacity(CHANNEL_COUNT);
        let mut i: usize = 0;
        while i < CHANNEL_COUNT
            invariant
                i <= CHANNEL_COUNT,
                channels@.len() == i,
                forall|k: int| 0 <= k < i ==> #[trigger] channels@[k] == Channel::spec_new(),
            decreases CHANNEL_COUNT - i,
        {
            channels.push(Channel::new());
            i += 1;
        }
        assert(channels@ =~= Seq::new(CHANNEL_COUNT as nat, |i: int| Channel::spec_new()));
        Player {
            module,
            samplerate,
            interpolation: Interpolation::Linear,
            global_volume: if module.initial_global_volume > max {
                max
            } else {
                module.initial_global_volume
            },
            current_position: 0,
            current_pattern: module.playlist[0],
            current_row: ROW_NOT_STARTED,
            current_tempo: module.initial_tempo,
            current_speed: module.initial_speed,
            tick_counter: 0,
            ticks_passed: 0,
            channels,
            finished: false,
            unsupported_effect: false,
        }
    }

    /// Global volume slide: moves the global volume by the parameter's nibbles and keeps it
    /// at or under the dialect's highest.
    pub fn global_vol_slide(&mut self, value: u8)
        ensures
            final(self)@ == old(self)@.spec_global_vol_slide(old(self).module, value),
            final(self).same_setup(old(self)),
            final(self).global_volume <= spec_max_global_volume(old(self).module.mode),
    {
        self.global_volume = slide_volume(
            self.global_volume,
            value,
            self.ticks_passed,
            self.module.fast_volume_slides,
            max_global_volume(&self.module.mode),
        );
    }

    /// Leaves the row for the next one, or ends the song.
    pub fn advance_row(&mut self)
        requires
            old(self).wf(),
            !old(self).finished,
        ensures
            final(self)@ == old(self)@.spec_advance_row(old(self).module),
            final(self).same_setup(old(self)),
            final(self).wf(),
    {
        let module = self.module;
        if self.current_row == ROW_NOT_STARTED {
            self.current_row = 0;
            self.ticks_passed = 0;
            return ;
        }
        let row = &module.patterns[self.current_pattern as usize][self.current_row as usize];
        let mut jump: Option<u8> = None;
        let mut pat_break: Option<u8> = None;
        let mut i: usize = 0;
        while i < CHANNEL_COUNT
            invariant
                i <= CHANNEL_COUNT,
                jump == spec_pos_jump(*row, i as int),
                pat_break == spec_pat_break(*row, module.mode, i as int),
            decreases CHANNEL_COUNT - i,
        {
            match row[i].effect {
                Effect::PosJump(position) => {
                    jump = Some(position);
                },
                Effect::PatBreak(value) => {
                    pat_break = Some(break_row(module.mode, value));
                },
                _ => {},
            }
            i += 1;
        }
        self.ticks_passed = 0;
        match next_cursor(module, self.current_position, self.current_row, jump, pat_break) {
            Some(cursor) => {
                self.current_position = cursor.position;
                self.current_pattern = cursor.pattern;
                self.current_row = cursor.row;
            },
            None => {
                self.finished = true;
            },
        }
    }

    /// Enters the current row: every channel takes its column, in column order.
    pub fn play_row(&mut self)
        requires
            old(self).wf(),
            !old(self).finished,
            old(self).current_row != ROW_NOT_STARTED,
        ensures
            final(self)@ == old(self)@.spec_play_row(old(self).module),
            final(self).same_setup(old(self)),
            final(self).wf(),
            !final(self).finished,
            final(self).current_row == old(self).current_row,
            final(self).current_pattern == old(self).current_pattern,
            final(self).ticks_passed == old(self).ticks_passed,
    {
        let module = self.module;
        let row = &module.patterns[self.current_pattern as usize][self.current_row as usize];
        assert(row_valid(*row));
        let max = max_global_volume(&module.mode);
        let mut i: usize = 0;
        while i < CHANNEL_COUNT
            invariant
                i <= CHANNEL_COUNT,
                self.same_setup(old(self)),
                self.wf(),
                module == self.module,
                row_valid(*row),
                max == spec_max_global_volume(module.mode),
                !self.finished,
                self.current_row == old(self).current_row,
                self.current_pattern == old(self).current_pattern,
                self.ticks_passed == old(self).ticks_passed,
                self@.spec_play_columns(module, *row, i as int) == old(self)@.spec_play_columns(
                    module,
                    *row,
                    0,
                ),
            decreases CHANNEL_COUNT - i,
        {
            let col = row[i];
            let ghost before = self@;
            match col.effect {
                Effect::SetSpeed(speed) => {
                    self.current_speed = speed;
                },
                Effect::SetTempo(tempo) => {
                    self.current_tempo = tempo;
                },
                Effect::SetGlobalVol(volume) => {
                    if volume <= max {
                        self.global_volume = volume;
                    }
                },
                _ => {},
            }
            let channel = &mut self.channels[i];
            channel.play_column(module, col);
            assert(self@ == before.spec_play_column(module, col, i as int));
            i += 1;
        }
    }

    /// Runs one tick of the current row: every channel runs its column's effect, in column
    /// order, until one ends the tick.
    pub fn process_tick(&mut self)
        requires
            old(self).wf(),
            !old(self).finished,
        ensures
            final(self)@ == old(self)@.spec_process_tick(old(self).module),
            final(self).same_setup(old(self)),
            final(self).wf(),
    {
        if self.current_row == ROW_NOT_STARTED {
            return ;
        }
        let module = self.module;
        let row = &module.patterns[self.current_pattern as usize][self.current_row as usize];
        assert(row_valid(*row));
        let ticks_passed = self.ticks_passed;
        let routed = module.mode.is_s3m() || module.mode.is_it();
        let mut i: usize = 0;
        while i < CHANNEL_COUNT
            invariant
                i <= CHANNEL_COUNT,
                self.same_setup(old(self)),
                self.wf(),
                module == self.module,
                row_valid(*row),
                routed == has_memory(module.mode),
                ticks_passed == self.ticks_passed,
                old(self).current_row != ROW_NOT_STARTED,
                *row == module.patterns@[old(self).current_pattern as int]@[old(
                    self,
                ).current_row as int],
                self@.spec_tick_columns(module, *row, i as int) == old(self)@.spec_tick_columns(
                    module,
                    *row,
                    0,
                ),
            decreases CHANNEL_COUNT - i,
        {
            let col = row[i];
            let ghost before = self@;
            let channel = &mut self.channels[i];
            channel.tick_column(module, col, ticks_passed);
            if needs_memory(col.effect) && !routed {
                self.unsupported_effect = true;
            }
            match col.effect {
                Effect::GlobalVolSlide(_) => {
                    let value = self.channels[i].global_volume_memory;
                    self.global_vol_slide(value);
                },
                _ => {},
            }
            assert(self@ == before.spec_tick_column(module, col, i as int));
            if tick_stops(col.effect, ticks_passed) {
                assert(before.spec_tick_columns(module, *row, i as int) == self@);
                return ;
            }
            i += 1;
        }
    }

    /// Passes a tick boundary.
    pub fn tick(&mut self)
        requires
            old(self).wf(),
            !old(self).finished,
        ensures
            final(self)@ == old(self)@.spec_tick(old(self).module),
            final(self).same_setup(old(self)),
            final(self).wf(),
    {
        if self.ticks_passed as u16 + 1 >= self.current_speed as u16 {
            self.advance_row();
            if self.finished {
                return ;
            }
            self.play_row();
        } else {
            self.ticks_passed = self.ticks_passed + 1;
        }
        self.process_tick();
    }

    /// Produces one output frame. The voices are mixed first; then the frame is counted,
    /// and where it is the last of its tick, the tick boundary is passed: the row may be
    /// left for the next, and the effects of the tick run.
    pub fn process(&mut self) -> (out: i32)
        requires
            old(self).wf(),
        ensures
            final(self)@ == old(self)@.spec_process(old(self).module, old(self).samplerate),
            out == old(self)@.spec_output(old(self).module, old(self).samplerate),
            final(self).same_setup(old(self)),
            final(self).wf(),
            forall|i: int|
                0 <= i < CHANNEL_COUNT as int ==> (#[trigger] final(self).channels@[i]).volume
                    <= MAX_VOLUME,
            final(self).global_volume <= spec_max_global_volume(old(self).module.mode),
    {
        if self.finished {
            return 0;
        }
        let module = self.module;
        let samplerate = self.samplerate;
        let interpolation = self.interpolation;
        let global_volume = self.global_volume;
        let ghost moved = old(self)@.spec_moved_channels(module, samplerate);
        let mut out: i32 = 0;
        let mut i: usize = 0;
        while i < CHANNEL_COUNT
            invariant
                i <= CHANNEL_COUNT,
                samplerate > 0,
                self.channels@.len() == CHANNEL_COUNT,
                moved == old(self)@.spec_moved_channels(module, samplerate),
                old(self)@.channels.len() == CHANNEL_COUNT,
                forall|k: int| 0 <= k < i ==> #[trigger] self.channels@[k] == moved[k],
                forall|k: int|
                    i <= k < CHANNEL_COUNT as int ==> #[trigger] self.channels@[k] == old(
                        self,
                    )@.channels[k],
                forall|k: int| 0 <= k < CHANNEL_COUNT as int ==> (#[trigger] self.channels@[k]).wf(),
                out == spec_mix(moved, module, global_volume, i as int),
                self.same_setup(old(self)),
                self.global_volume == old(self).global_volume,
                self.current_position == old(self).current_position,
                self.current_pattern == old(self).current_pattern,
                self.current_row == old(self).current_row,
                self.current_tempo == old(self).current_tempo,
                self.current_speed == old(self).current_speed,
                self.tick_counter == old(self).tick_counter,
                self.ticks_passed == old(self).ticks_passed,
                self.finished == old(self).finished,
                self.unsupported_effect == old(self).unsupported_effect,
            decreases CHANNEL_COUNT - i,
        {
            let channel = &mut self.channels[i];
            let mut frame: i16 = 0;
            if channel.playing {
                frame = channel.process(module, samplerate, interpolation);
            }
            let one = voice(frame, module, global_volume);
            out = saturating_sum(out, one);
            i += 1;
        }
        assert(self.channels@ =~= moved);
        if self.tick_counter as u64 + 1 >= samples_per_tick(samplerate, self.current_tempo) as u64 {
            self.tick_counter = 0;
            self.tick();
        } else {
            self.tick_counter = self.tick_counter + 1;
        }
        out
    }

    /// Fills a buffer with output frames, one call of `process` each.
    pub fn fill(&mut self, out: &mut [i32])
        requires
            old(self).wf(),
        ensures
            final(self)@ == old(self)@.spec_run(
                old(self).module,
                old(self).samplerate,
                old(out)@.len() as int,
            ),
            final(out)@.len() == old(out)@.len(),
            forall|k: int|
                0 <= k < old(out)@.len() ==> #[trigger] final(out)@[k] == old(self)@.spec_run(
                    old(self).module,
                    old(self).samplerate,
                    k,
                ).spec_output(old(self).module, old(self).samplerate),
            final(self).same_setup(old(self)),
            final(self).wf(),
    {
        let mut i: usize = 0;
        while i < out.len()
            invariant
                i <= out@.len(),
                self.wf(),
                self.same_setup(old(self)),
                out@.len() == old(out)@.len(),
                self@ == old(self)@.spec_run(old(self).module, old(self).samplerate, i as int),
                forall|k: int|
                    0 <= k < i ==> #[trigger] out@[k] == old(self)@.spec_run(
                        old(self).module,
                        old(self).samplerate,
                        k,
                    ).spec_output(old(self).module, old(self).samplerate),
            decreases out@.len() - i,
        {
            let frame = self.process();
            out[i] = frame;
            i += 1;
        }
    }
}

impl PlayerState {
    /// Whether two states stand at the same place in the song, with the same speed and
    /// tempo, and have both not finished or both finished.
    pub open spec fn same_place(self, other: PlayerState) -> bool {
        &&& self.current_position == other.current_position
        &&& self.current_pattern == other.current_pattern
        &&& self.current_row == other.current_row
        &&& self.current_speed == other.current_speed
        &&& self.current_tempo == other.current_tempo
        &&& self.finished == other.finished
    }
}

/// The effects of a tick move neither the place in the song nor the counters, the speed or
/// the tempo.
pub proof fn lemma_tick_columns_keep_place(s: PlayerState, module: &Module, row: Row, from: int)
    ensures
        s.spec_tick_columns(module, row, from).same_place(s),
        s.spec_tick_columns(module, row, from).tick_counter == s.tick_counter,
        s.spec_tick_columns(module, row, from).ticks_passed == s.ticks_passed,
    decreases CHANNEL_COUNT as int - from,
{
    if 0 <= from < CHANNEL_COUNT as int {
        let next = s.spec_tick_column(module, row[from], from);
        if !spec_tick_stops(row[from].effect, s.ticks_passed) {
            lemma_tick_columns_keep_place(next, module, row, from + 1);
        }
    }
}

/// A frame that is not the last of its tick moves the voices and counts itself, and
/// nothing else.
pub proof fn lemma_frame_within_a_tick(s: PlayerState, module: &Module, samplerate: u32)
    requires
        !s.finished,
        !s.spec_tick_due(samplerate),
    ensures
        s.spec_process(module, samplerate).same_place(s),
        s.spec_process(module, samplerate).tick_counter == s.tick_counter + 1,
        s.spec_process(module, samplerate).ticks_passed == s.ticks_passed,
        s.spec_process(module, samplerate).global_volume == s.global_volume,
{
}

/// The last frame of a tick that is not the last tick of its row counts the tick and
/// starts the frame counter again; the place in the song, the speed and the tempo stay.
pub proof fn lemma_frame_ends_a_tick(s: PlayerState, module: &Module, samplerate: u32)
    requires
        !s.finished,
        s.spec_tick_due(samplerate),
        s.ticks_passed as int + 1 < s.current_speed as int,
    ensures
        s.spec_process(module, samplerate).same_place(s),
        s.spec_process(module, samplerate).tick_counter == 0,
        s.spec_process(module, samplerate).ticks_passed == s.ticks_passed + 1,
{
    let moved = PlayerState {
        tick_counter: 0,
        channels: s.spec_moved_channels(module, samplerate),
        ..s
    };
    let counted = PlayerState { ticks_passed: (s.ticks_passed + 1) as u8, ..moved };
    assert(s.spec_process(module, samplerate) == counted.spec_process_tick(module));
    if counted.current_row != ROW_NOT_STARTED {
        lemma_tick_columns_keep_place(
            counted,
            module,
            module.patterns@[counted.current_pattern as int]@[counted.current_row as int],
            0,
        );
    }
}

/// A tick lasts as many frames as `spec_samples_per_tick` says, and a row as many ticks as
/// the speed. From the first frame of a row on, that is from a state whose two counters
/// are zero, a player stays on the row for the speed times the tick length in frames: after
/// any smaller number of frames it stands at the same place with the same speed and tempo,
/// and its counters are the quotient and the remainder of the number of frames by the tick
/// length.
pub proof fn lemma_row_length(s: PlayerState, module: &Module, samplerate: u32, frames: int)
    requires
        !s.finished,
        s.tick_counter == 0,
        s.ticks_passed == 0,
        0 <= frames < s.current_speed as int * spec_samples_per_tick(samplerate, s.current_tempo) as int,
    ensures
        s.spec_run(module, samplerate, frames).same_place(s),
        s.spec_run(module, samplerate, frames).ticks_passed as int == frames / (
        spec_samples_per_tick(samplerate, s.current_tempo) as int),
        s.spec_run(module, samplerate, frames).tick_counter as int == frames % (
        spec_samples_per_tick(samplerate, s.current_tempo) as int),
    decreases frames,
{
    let length = spec_samples_per_tick(samplerate, s.current_tempo) as int;
    let speed = s.current_speed as int;
    assert(length > 0) by (nonlinear_arith)
        requires
            0 <= frames < speed * length,
            speed >= 0,
            length >= 0,
    ;
    if frames > 0 {
        lemma_row_length(s, module, samplerate, frames - 1);
        let before = s.spec_run(module, samplerate, frames - 1);
        let ticks = (frames - 1) / length;
        let rest = (frames - 1) % length;
        assert(frames - 1 == ticks * length + rest && 0 <= rest < length) by (nonlinear_arith)
            requires
                ticks == (frames - 1) / length,
                rest == (frames - 1) % length,
                length > 0,
        ;
        if rest + 1 < length {
            lemma_frame_within_a_tick(before, module, samplerate);
            assert(frames / length == ticks && frames % length == rest + 1) by (nonlinear_arith)
                requires
                    frames == ticks * length + (rest + 1),
                    0 <= rest + 1 < length,
            ;
        } else {
            assert((ticks + 1) * length == ticks * length + length) by (nonlinear_arith);
            assert(ticks + 1 < speed) by (nonlinear_arith)
                requires
                    frames == (ticks + 1) * length,
                    frames < speed * length,
                    length > 0,
            ;
            lemma_frame_ends_a_tick(before, module, samplerate);
            assert(frames / length == ticks + 1 && frames % length == 0) by (nonlinear_arith)
                requires
                    frames == (ticks + 1) * length + 0,
                    length > 0,
            ;
        }
    } else {
        assert(0int / length == 0 && 0int % length == 0) by (nonlinear_arith)
            requires
                length > 0,
        ;
    }
}

/// The frame after the last of a row leaves the row: after the speed times the tick
/// length in frames, the player stands where `spec_advance_row` leads from the row, or
/// has finished, and both counters are zero again.
pub proof fn lemma_row_end(s: PlayerState, module: &Module, samplerate: u32)
    requires
        !s.finished,
        s.tick_counter == 0,
        s.ticks_passed == 0,
        s.current_speed > 0,
        spec_samples_per_tick(samplerate, s.current_tempo) > 0,
    ensures
        ({
            let frames = s.current_speed as int * spec_samples_per_tick(
                samplerate,
                s.current_tempo,
            ) as int;
            let after = s.spec_run(module, samplerate, frames);
            let left = s.spec_advance_row(module);
            &&& after.current_position == left.current_position
            &&& after.current_pattern == left.current_pattern
            &&& after.current_row == left.current_row
            &&& after.finished == left.finished
            &&& after.ticks_passed == 0
            &&& after.tick_counter == 0
        }),
{
    let length = spec_samples_per_tick(samplerate, s.current_tempo) as int;
    let speed = s.current_speed as int;
    let frames = speed * length;
    assert(frames - 1 == (speed - 1) * length + (length - 1) && 0 <= frames - 1 < frames)
        by (nonlinear_arith)
        requires
            frames == speed * length,
            speed > 0,
            length > 0,
    ;
    lemma_row_length(s, module, samplerate, frames - 1);
    let before = s.spec_run(module, samplerate, frames - 1);
    assert((frames - 1) / length == speed - 1 && (frames - 1) % length == length - 1)
        by (nonlinear_arith)
        requires
            frames - 1 == (speed - 1) * length + (length - 1),
            length > 0,
    ;
    let moved = PlayerState {
        tick_counter: 0,
        channels: before.spec_moved_channels(module, samplerate),
        ..before
    };
    assert(s.spec_run(module, samplerate, frames) == moved.spec_tick(module));
    let advanced = moved.spec_advance_row(module);
    let left = s.spec_advance_row(module);
    assert(advanced.current_position == left.current_position);
    assert(advanced.current_pattern == left.current_pattern);
    assert(advanced.current_row == left.current_row);
    assert(advanced.finished == left.finished);
    if !advanced.finished {
        let row = module.patterns@[advanced.current_pattern as int]@[advanced.current_row as int];
        lemma_play_columns_keep_place(advanced, module, row, 0);
        let entered = advanced.spec_play_row(module);
        lemma_tick_columns_keep_place(
            entered,
            module,
            module.patterns@[entered.current_pattern as int]@[entered.current_row as int],
            0,
        );
    }
}

/// Entering a row moves neither the place in the song nor the counters.
pub proof fn lemma_play_columns_keep_place(s: PlayerState, module: &Module, row: Row, from: int)
    ensures
        s.spec_play_columns(module, row, from).current_position == s.current_position,
        s.spec_play_columns(module, row, from).current_pattern == s.current_pattern,
        s.spec_play_columns(module, row, from).current_row == s.current_row,
        s.spec_play_columns(module, row, from).finished == s.finished,
        s.spec_play_columns(module, row, from).tick_counter == s.tick_counter,
        s.spec_play_columns(module, row, from).ticks_passed == s.ticks_passed,
    decreases CHANNEL_COUNT as int - from,
{
    if 0 <= from < CHANNEL_COUNT as int {
        lemma_play_columns_keep_place(
            s.spec_play_column(module, row[from], from),
            module,
            row,
            from + 1,
        );
    }
}

} // verus!
