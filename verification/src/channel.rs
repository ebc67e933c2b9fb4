//! One voice: its oscillator, its volume, its effect memories, and the effects that act on
//! them tick by tick.

use crate::fixed_point::{
    clamp_i16, fix_add, fix_diff, fix_div, fix_from_int, fix_mul, fix_of_int, fix_product,
    fix_quotient, fix_sub, fix_sum, fix_to_int, fix_whole, sfix_div, sfix_from_int, sfix_mul,
    sfix_to_i16, ONE,
};
use crate::lut::{
    fine_linear_down, fine_linear_up, lemma_linear_down_lowers, lemma_linear_up_raises,
    linear_down, linear_up, pitch, FINE_LINEAR_DOWN, FINE_LINEAR_UP, LINEAR_DOWN, LINEAR_UP,
    NOTE_COUNT, PITCH_TABLE,
};
use crate::module::{
    note_valid, Column, Effect, LoopType, Module, Note, PlaybackMode, Sample, VolEffect,
};
use vstd::arithmetic::div_mod::{lemma_div_denominator, lemma_div_multiples_vanish};
use vstd::prelude::*;

verus! {

/// The base of the Amiga period conversion: a period is this constant divided by a
/// frequency in Hz.
pub const PERIOD: u32 = 14317056;

/// Highest channel volume.
pub const MAX_VOLUME: u8 = 64;

/// Frequency in Hz that a fresh channel starts with.
pub const DEFAULT_FREQUENCY: u32 = 8363;

/// The state of one voice. Frequencies and the position are unsigned Q32.32 bit patterns.
#[derive(Clone, Copy, Debug, PartialEq, Eq, Structural)]
pub struct Channel {
    pub current_sample_index: u8,
    pub playing: bool,
    /// Frequency in Hz.
    pub freq: u64,
    /// Frequency of the note itself, which an arpeggio comes back to.
    pub base_freq: u64,
    pub current_note: u8,
    /// Place in the sample, in frames.
    pub position: u64,
    /// Whether a ping-pong loop is on its way back.
    pub backwards: bool,
    pub porta_memory: u8,
    /// Note that a tone portamento slides to.
    pub last_note: u8,
    pub offset_memory: u8,
    pub volume_memory: u8,
    pub global_volume_memory: u8,
    pub retrigger_memory: u8,
    pub retrigger_ticks: u8,
    pub arpeggio_memory: u8,
    pub arpeggio_selector: u8,
    /// Whether an arpeggio has moved the frequency away from the note's own.
    pub arpeggio_state: bool,
    /// The one memory that Scream Tracker 3 shares between its effects.
    pub s3m_effect_memory: u8,
    pub volume: u8,
}

/// The memory that an effect keeps its last parameter in, outside Scream Tracker 3.
#[derive(Clone, Copy, Debug, PartialEq, Eq, Structural)]
pub enum MemorySlot {
    Porta,
    Volume,
    Retrigger,
}

/// The three speeds of a pitch slide, told apart by the parameter's high nibble.
#[derive(Clone, Copy, Debug, PartialEq, Eq, Structural)]
pub enum SlideKind {
    /// High nibble 0xE: a quarter unit per low-nibble step, once per row.
    ExtraFine,
    /// High nibble 0xF: one unit per low-nibble step, once per row.
    Fine,
    /// Any other parameter: the whole parameter, on every tick but the first.
    Regular,
}

/// Whether the dialect says where effects keep their parameters.
pub open spec fn has_memory(mode: PlaybackMode) -> bool {
    mode.spec_is_s3m() || mode.spec_is_it()
}

pub open spec fn spec_slide_kind(value: u8) -> SlideKind {
    if value / 16 == 14 {
        SlideKind::ExtraFine
    } else if value / 16 == 15 {
        SlideKind::Fine
    } else {
        SlideKind::Regular
    }
}

/// Whether a pitch slide of this parameter acts on this tick of the row.
pub open spec fn slide_applies(value: u8, ticks_passed: u8) -> bool {
    match spec_slide_kind(value) {
        SlideKind::Regular => ticks_passed > 0,
        _ => ticks_passed == 0,
    }
}

/// The factor of one step of an upward linear slide.
pub open spec fn up_multiplier(value: u8) -> u64 {
    match spec_slide_kind(value) {
        SlideKind::ExtraFine => FINE_LINEAR_UP[value as int % 16],
        SlideKind::Fine => LINEAR_UP[value as int % 16],
        SlideKind::Regular => LINEAR_UP[value as int],
    }
}

/// The factor of one step of a downward linear slide.
pub open spec fn down_multiplier(value: u8) -> u64 {
    match spec_slide_kind(value) {
        SlideKind::ExtraFine => FINE_LINEAR_DOWN[value as int % 16],
        SlideKind::Fine => LINEAR_DOWN[value as int % 16],
        SlideKind::Regular => LINEAR_DOWN[value as int],
    }
}

/// The size of one step of an Amiga slide, in period units.
pub open spec fn period_step(value: u8) -> int {
    match spec_slide_kind(value) {
        SlideKind::ExtraFine => value as int % 16,
        SlideKind::Fine => 4 * (value as int % 16),
        SlideKind::Regular => 4 * value as int,
    }
}

/// The period of a frequency in whole Hz.
pub open spec fn spec_period(freq: u32) -> int
    recommends
        freq > 0,
{
    PERIOD as int / freq as int
}

/// The period of a Q32.32 frequency: that of its whole part, where a frequency below 1 Hz
/// counts as 1 Hz and no period is below 1.
pub open spec fn spec_amiga_period(freq: u64) -> u32 {
    let whole = fix_whole(freq);
    if whole == 0 {
        PERIOD
    } else if whole > PERIOD {
        1
    } else {
        (PERIOD as int / whole as int) as u32
    }
}

/// The Q32.32 frequency of a period: the period base divided by the period, rounded down
/// to a multiple of 2^-32.
pub open spec fn spec_freq_from_period(period: u32) -> u64
    recommends
        period > 0,
{
    ((PERIOD as int * ONE as int) / (period as int)) as u64
}

/// The frequency after one step of an upward slide.
pub open spec fn spec_slide_up(freq: u64, linear: bool, value: u8) -> u64 {
    if linear {
        fix_product(freq, up_multiplier(value))
    } else {
        let period = spec_amiga_period(freq) as int;
        let step = period_step(value);
        spec_freq_from_period(
            if period > step {
                (period - step) as u32
            } else {
                1
            },
        )
    }
}

/// The frequency after one step of a downward slide.
pub open spec fn spec_slide_down(freq: u64, linear: bool, value: u8) -> u64 {
    if linear {
        fix_product(freq, down_multiplier(value))
    } else {
        spec_freq_from_period((spec_amiga_period(freq) as int + period_step(value)) as u32)
    }
}

/// The frequency at which a sample with the given base frequency plays a semitone.
pub open spec fn spec_note_freq(index: int, base_frequency: u32) -> u64
    recommends
        0 <= index < PITCH_TABLE@.len(),
{
    fix_product(PITCH_TABLE[index], fix_of_int(base_frequency))
}

/// The period of a frequency given in whole Hz.
pub fn period(freq: u32) -> (p: u32)
    requires
        freq > 0,
    ensures
        p as int == spec_period(freq),
        p <= PERIOD,
{
    proof {
        assert(PERIOD as int / freq as int <= PERIOD as int) by (nonlinear_arith)
            requires
                freq > 0,
        ;
    }
    PERIOD / freq
}

/// The frequency of a period.
pub fn freq_from_period(period: u32) -> (freq: u64)
    requires
        period > 0,
    ensures
        freq == spec_freq_from_period(period),
{
    let base = fix_from_int(PERIOD);
    let divisor = fix_from_int(period);
    proof {
        let p = PERIOD as int;
        let d = period as int;
        let one = ONE as int;
        assert(base as int == p * one);
        assert(divisor as int == d * one);
        assert((p * one * one) / (d * one) == (p * one) / d) by {
            lemma_div_denominator(p * one * one, one, d);
            lemma_div_multiples_vanish(p * one, one);
            assert(d * one == one * d) by (nonlinear_arith);
            assert((p * one) * one == p * one * one) by (nonlinear_arith);
        }
        assert(0 <= (p * one) / d <= p * one) by (nonlinear_arith)
            requires
                d >= 1,
                p * one >= 0,
        ;
    }
    fix_div(base, divisor)
}

/// The period of a Q32.32 frequency.
pub fn amiga_period(freq: u64) -> (p: u32)
    ensures
        p == spec_amiga_period(freq),
        1 <= p <= PERIOD,
{
    let whole = fix_to_int(freq);
    if whole == 0 {
        PERIOD
    } else if whole > PERIOD {
        1
    } else {
        proof {
            assert(PERIOD as int / whole as int >= 1) by (nonlinear_arith)
                requires
                    0 < whole <= PERIOD,
            ;
        }
        period(whole)
    }
}

/// Tells the speed of a pitch slide from its parameter.
pub fn slide_kind(value: u8) -> (kind: SlideKind)
    ensures
        kind == spec_slide_kind(value),
{
    if value / 16 == 14 {
        SlideKind::ExtraFine
    } else if value / 16 == 15 {
        SlideKind::Fine
    } else {
        SlideKind::Regular
    }
}

/// The frequency at which a sample with the given base frequency plays a semitone.
pub fn note_freq(index: usize, base_frequency: u32) -> (freq: u64)
    requires
        index < PITCH_TABLE@.len(),
    ensures
        freq == spec_note_freq(index as int, base_frequency),
{
    fix_mul(pitch(index), fix_from_int(base_frequency))
}

impl Channel {
    /// What every operation keeps: the volume is at most `MAX_VOLUME`, the arpeggio selector
    /// is one of its three phases, and both notes are semitones.
    pub open spec fn wf(&self) -> bool {
        &&& self.volume <= MAX_VOLUME
        &&& self.arpeggio_selector < 3
        &&& (self.current_note as int) < NOTE_COUNT as int
        &&& (self.last_note as int) < NOTE_COUNT as int
    }

    /// A silent channel at full volume and the default frequency.
    pub open spec fn spec_new() -> Channel {
        Channel {
            current_sample_index: 0,
            playing: false,
            freq: fix_of_int(DEFAULT_FREQUENCY),
            base_freq: fix_of_int(DEFAULT_FREQUENCY),
            current_note: 0,
            position: 0,
            backwards: false,
            porta_memory: 0,
            last_note: 0,
            offset_memory: 0,
            volume_memory: 0,
            global_volume_memory: 0,
            retrigger_memory: 0,
            retrigger_ticks: 0,
            arpeggio_memory: 0,
            arpeggio_selector: 0,
            arpeggio_state: false,
            s3m_effect_memory: 0,
            volume: MAX_VOLUME,
        }
    }

    /// A silent channel at full volume and the default frequency.
    pub fn new() -> (c: Channel)
        ensures
            c == Channel::spec_new(),
            c.wf(),
    {
        let freq = fix_from_int(DEFAULT_FREQUENCY);
        Channel {
            current_sample_index: 0,
            playing: false,
            freq,
            base_freq: freq,
            current_note: 0,
            position: 0,
            backwards: false,
            porta_memory: 0,
            last_note: 0,
            offset_memory: 0,
            volume_memory: 0,
            global_volume_memory: 0,
            retrigger_memory: 0,
            retrigger_ticks: 0,
            arpeggio_memory: 0,
            arpeggio_selector: 0,
            arpeggio_state: false,
            s3m_effect_memory: 0,
            volume: MAX_VOLUME,
        }
    }

    /// The parameter that the dialect keeps for an effect: Scream Tracker 3 has one memory
    /// for all of them, the Impulse Tracker dialects one per slot.
    pub open spec fn spec_memory(self, mode: PlaybackMode, slot: MemorySlot) -> u8 {
        if mode.spec_is_s3m() {
            self.s3m_effect_memory
        } else {
            match slot {
                MemorySlot::Porta => self.porta_memory,
                MemorySlot::Volume => self.volume_memory,
                MemorySlot::Retrigger => self.retrigger_memory,
            }
        }
    }

    /// The channel with a parameter put into the memory that the dialect keeps for an effect.
    pub open spec fn spec_with_memory(self, mode: PlaybackMode, slot: MemorySlot, value: u8) -> Channel {
        if mode.spec_is_s3m() {
            Channel { s3m_effect_memory: value, ..self }
        } else {
            match slot {
                MemorySlot::Porta => Channel { porta_memory: value, ..self },
                MemorySlot::Volume => Channel { volume_memory: value, ..self },
                MemorySlot::Retrigger => Channel { retrigger_memory: value, ..self },
            }
        }
    }

    /// The parameter an effect runs with: its own where that is not zero, else the
    /// remembered one.
    pub open spec fn spec_effective(self, mode: PlaybackMode, slot: MemorySlot, value: u8) -> u8 {
        if value != 0 {
            value
        } else {
            self.spec_memory(mode, slot)
        }
    }

    /// The channel after an effect has stored its parameter: a zero parameter stores nothing.
    pub open spec fn spec_remember(self, mode: PlaybackMode, slot: MemorySlot, value: u8) -> Channel {
        if value != 0 {
            self.spec_with_memory(mode, slot, value)
        } else {
            self
        }
    }

    /// Stores a parameter that is not zero, and returns the parameter to run with.
    pub fn recall(&mut self, mode: PlaybackMode, slot: MemorySlot, value: u8) -> (effective: u8)
        requires
            has_memory(mode),
        ensures
            *final(self) == old(self).spec_remember(mode, slot, value),
            effective == old(self).spec_effective(mode, slot, value),
    {
        if value != 0 {
            if mode.is_s3m() {
                self.s3m_effect_memory = value;
            } else {
                match slot {
                    MemorySlot::Porta => self.porta_memory = value,
                    MemorySlot::Volume => self.volume_memory = value,
                    MemorySlot::Retrigger => self.retrigger_memory = value,
                }
            }
            value
        } else if mode.is_s3m() {
            self.s3m_effect_memory
        } else {
            match slot {
                MemorySlot::Porta => self.porta_memory,
                MemorySlot::Volume => self.volume_memory,
                MemorySlot::Retrigger => self.retrigger_memory,
            }
        }
    }

    /// The channel after a portamento up on one tick. In a dialect without effect memory
    /// nothing happens. Else the parameter is stored or recalled, and on the ticks of its
    /// kind the frequency takes one step up.
    pub open spec fn spec_porta_up(self, mode: PlaybackMode, linear: bool, ticks_passed: u8, value: u8) -> Channel {
        if !has_memory(mode) {
            self
        } else {
            let v = self.spec_effective(mode, MemorySlot::Porta, value);
            let c = self.spec_remember(mode, MemorySlot::Porta, value);
            if slide_applies(v, ticks_passed) {
                Channel { freq: spec_slide_up(c.freq, linear, v), ..c }
            } else {
                c
            }
        }
    }

    /// The channel after a portamento down on one tick; as `spec_porta_up`, with a step down.
    pub open spec fn spec_porta_down(self, mode: PlaybackMode, linear: bool, ticks_passed: u8, value: u8) -> Channel {
        if !has_memory(mode) {
            self
        } else {
            let v = self.spec_effective(mode, MemorySlot::Porta, value);
            let c = self.spec_remember(mode, MemorySlot::Porta, value);
            if slide_applies(v, ticks_passed) {
                Channel { freq: spec_slide_down(c.freq, linear, v), ..c }
            } else {
                c
            }
        }
    }

    /// Portamento up: slides the frequency up, linearly or in Amiga periods.
    pub fn porta_up(&mut self, mode: PlaybackMode, linear: bool, ticks_passed: u8, value: u8)
        ensures
            *final(self) == old(self).spec_porta_up(mode, linear, ticks_passed, value),
            old(self).wf() ==> final(self).wf(),
    {
        if !(mode.is_s3m() || mode.is_it()) {
            return ;
        }
        let v = self.recall(mode, MemorySlot::Porta, value);
        let kind = slide_kind(v);
        let applies = match kind {
            SlideKind::Regular => ticks_passed > 0,
            _ => ticks_passed == 0,
        };
        if !applies {
            return ;
        }
        if linear {
            let factor = match kind {
                SlideKind::ExtraFine => fine_linear_up(v % 16),
                SlideKind::Fine => linear_up(v % 16),
                SlideKind::Regular => linear_up(v),
            };
            self.freq = fix_mul(self.freq, factor);
        } else {
            let step: u32 = match kind {
                SlideKind::ExtraFine => (v % 16) as u32,
                SlideKind::Fine => 4 * ((v % 16) as u32),
                SlideKind::Regular => 4 * (v as u32),
            };
            let period = amiga_period(self.freq);
            let slid = if period > step {
                period - step
            } else {
                1
            };
            self.freq = freq_from_period(slid);
        }
    }

    /// Portamento down: slides the frequency down, linearly or in Amiga periods.
    pub fn porta_down(&mut self, mode: PlaybackMode, linear: bool, ticks_passed: u8, value: u8)
        ensures
            *final(self) == old(self).spec_porta_down(mode, linear, ticks_passed, value),
            old(self).wf() ==> final(self).wf(),
    {
        if !(mode.is_s3m() || mode.is_it()) {
            return ;
        }
        let v = self.recall(mode, MemorySlot::Porta, value);
        let kind = slide_kind(v);
        let applies = match kind {
            SlideKind::Regular => ticks_passed > 0,
            _ => ticks_passed == 0,
        };
        if !applies {
            return ;
        }
        if linear {
            let factor = match kind {
                SlideKind::ExtraFine => fine_linear_down(v % 16),
                SlideKind::Fine => linear_down(v % 16),
                SlideKind::Regular => linear_down(v),
            };
            self.freq = fix_mul(self.freq, factor);
        } else {
            let step: u32 = match kind {
                SlideKind::ExtraFine => (v % 16) as u32,
                SlideKind::Fine => 4 * ((v % 16) as u32),
                SlideKind::Regular => 4 * (v as u32),
            };
            let period = amiga_period(self.freq);
            self.freq = freq_from_period(period + step);
        }
    }

    /// The channel after a tone portamento on one tick. The parameter is stored or
    /// recalled, a note in the column becomes the target, and the frequency takes one step
    /// towards the target's frequency without passing it. A channel whose sample does not
    /// exist stops.
    pub open spec fn spec_tone_portamento(self, module: &Module, note: Note, linear: bool, value: u8) -> Channel {
        let v = if value != 0 {
            value
        } else {
            self.porta_memory
        };
        let target = match note {
            Note::On(key) => key,
            _ => self.last_note,
        };
        let c = Channel { porta_memory: v, last_note: target, ..self };
        if (c.current_sample_index as int) < module.samples@.len() {
            let wanted = spec_note_freq(
                target as int,
                module.samples@[c.current_sample_index as int].base_frequency,
            );
            Channel { freq: spec_glide(c.freq, wanted, linear, v), ..c }
        } else {
            Channel { playing: false, ..c }
        }
    }

    /// Tone portamento: slides the frequency towards the last note named, and never
    /// starts that note anew.
    pub fn tone_portamento(&mut self, module: &Module, note: Note, linear: bool, value: u8)
        requires
            old(self).wf(),
            note_valid(note),
        ensures
            *final(self) == old(self).spec_tone_portamento(module, note, linear, value),
            final(self).wf(),
    {
        let v = if value != 0 {
            value
        } else {
            self.porta_memory
        };
        self.porta_memory = v;
        match note {
            Note::On(key) => {
                self.last_note = key;
            },
            _ => {},
        }
        let index = self.current_sample_index as usize;
        if index < module.samples.len() {
            let wanted = note_freq(self.last_note as usize, module.samples[index].base_frequency);
            self.freq = glide(self.freq, wanted, linear, v);
        } else {
            self.playing = false;
        }
    }

    /// The channel after a volume slide on one tick. In a dialect without effect memory
    /// nothing happens.
    pub open spec fn spec_vol_slide(self, module: &Module, value: u8, ticks_passed: u8) -> Channel {
        if !has_memory(module.mode) {
            self
        } else {
            let v = self.spec_effective(module.mode, MemorySlot::Volume, value);
            let c = self.spec_remember(module.mode, MemorySlot::Volume, value);
            Channel {
                volume: spec_slide_volume(
                    c.volume,
                    v,
                    ticks_passed,
                    module.fast_volume_slides,
                    MAX_VOLUME,
                ),
                ..c
            }
        }
    }

    /// Volume slide: moves the volume by the parameter's nibbles and keeps it at or under
    /// `MAX_VOLUME`.
    pub fn vol_slide(&mut self, module: &Module, value: u8, ticks_passed: u8)
        ensures
            *final(self) == old(self).spec_vol_slide(module, value, ticks_passed),
            old(self).wf() ==> final(self).wf(),
            has_memory(module.mode) ==> final(self).volume <= MAX_VOLUME,
    {
        if !(module.mode.is_s3m() || module.mode.is_it()) {
            return ;
        }
        let v = self.recall(module.mode, MemorySlot::Volume, value);
        self.volume = slide_volume(
            self.volume,
            v,
            ticks_passed,
            module.fast_volume_slides,
            MAX_VOLUME,
        );
    }

    /// The channel after a retrigger on one tick. In a dialect without effect memory
    /// nothing happens. Else the high nibble changes the volume, the tick count goes up by
    /// one, and when it has reached the low nibble the sample starts again from its first
    /// frame and the count from zero.
    pub open spec fn spec_retrigger(self, mode: PlaybackMode, value: u8) -> Channel {
        if !has_memory(mode) {
            self
        } else {
            let v = self.spec_effective(mode, MemorySlot::Retrigger, value);
            let c = self.spec_remember(mode, MemorySlot::Retrigger, value);
            let volume = spec_retrigger_volume(c.volume, v / 16);
            if c.retrigger_ticks as int + 1 >= v as int % 16 {
                Channel { volume, position: 0, retrigger_ticks: 0, ..c }
            } else {
                Channel { volume, retrigger_ticks: (c.retrigger_ticks + 1) as u8, ..c }
            }
        }
    }

    /// Retrigger: restarts the sample every few ticks, changing the volume as it goes.
    pub fn retrigger(&mut self, mode: PlaybackMode, value: u8)
        requires
            old(self).wf(),
        ensures
            *final(self) == old(self).spec_retrigger(mode, value),
            final(self).wf(),
    {
        if !(mode.is_s3m() || mode.is_it()) {
            return ;
        }
        let v = self.recall(mode, MemorySlot::Retrigger, value);
        self.volume = retrigger_volume(self.volume, v / 16);
        if self.retrigger_ticks >= 254 || self.retrigger_ticks + 1 >= v % 16 {
            self.position = 0;
            self.retrigger_ticks = 0;
        } else {
            self.retrigger_ticks = self.retrigger_ticks + 1;
        }
    }

    /// The channel after an arpeggio on one tick. The parameter is stored or recalled and
    /// the selector moves on. In its first phase the frequency is the note's own, in the
    /// second and third that of the note raised by the high and by the low nibble. A channel
    /// whose sample does not exist stops in those two phases.
    pub open spec fn spec_arpeggio(self, module: &Module, value: u8) -> Channel {
        let v = if value != 0 {
            value
        } else {
            self.arpeggio_memory
        };
        let c = Channel {
            arpeggio_memory: v,
            arpeggio_selector: ((self.arpeggio_selector as int + 1) % 3) as u8,
            arpeggio_state: true,
            ..self
        };
        if self.arpeggio_selector == 0 {
            Channel { freq: self.base_freq, ..c }
        } else if (self.current_sample_index as int) < module.samples@.len() {
            let offset = if self.arpeggio_selector == 1 {
                v as int / 16
            } else {
                v as int % 16
            };
            Channel {
                freq: spec_note_freq(
                    self.current_note as int + offset,
                    module.samples@[self.current_sample_index as int].base_frequency,
                ),
                ..c
            }
        } else {
            Channel { playing: false, ..c }
        }
    }

    /// Arpeggio: cycles the frequency through the note and two notes above it.
    pub fn arpeggio(&mut self, module: &Module, value: u8)
        requires
            old(self).wf(),
        ensures
            *final(self) == old(self).spec_arpeggio(module, value),
            final(self).wf(),
    {
        let v = if value != 0 {
            value
        } else {
            self.arpeggio_memory
        };
        self.arpeggio_memory = v;
        let selector = self.arpeggio_selector;
        self.arpeggio_selector = (selector + 1) % 3;
        self.arpeggio_state = true;
        let index = self.current_sample_index as usize;
        if selector == 0 {
            self.freq = self.base_freq;
        } else if index < module.samples.len() {
            let offset = if selector == 1 {
                v / 16
            } else {
                v % 16
            };
            self.freq = note_freq(
                self.current_note as usize + offset as usize,
                module.samples[index].base_frequency,
            );
        } else {
            self.playing = false;
        }
    }

    /// The channel after the volume cell of a row: only a set volume acts, and the volume
    /// is held at or under `MAX_VOLUME`.
    pub open spec fn spec_volume_column(self, vol: VolEffect) -> Channel {
        match vol {
            VolEffect::Volume(v) => Channel {
                volume: if v > MAX_VOLUME {
                    MAX_VOLUME
                } else {
                    v
                },
                ..self
            },
            _ => self,
        }
    }

    /// The channel after the effect cell of a row has been looked at on entry. An arpeggio
    /// starts its cycle anew. A channel that an arpeggio moved on an earlier row goes back to
    /// the note's own frequency, unless Scream Tracker 3 goes on with a portamento.
    pub open spec fn spec_row_effect(self, mode: PlaybackMode, effect: Effect) -> Channel {
        let c = if effect is Arpeggio {
            Channel { arpeggio_selector: 0, ..self }
        } else {
            self
        };
        if c.arpeggio_state {
            if mode.spec_is_s3m() && (effect is PortaUp || effect is PortaDown) {
                Channel { arpeggio_state: false, ..c }
            } else {
                Channel { freq: c.base_freq, arpeggio_state: false, ..c }
            }
        } else {
            c
        }
    }

    /// The channel after the instrument cell of a row: an instrument selects its sample,
    /// and where the row sets no volume and the sample exists, its default volume, held at or
    /// under `MAX_VOLUME`.
    pub open spec fn spec_instrument(self, module: &Module, instrument: u8, vol: VolEffect) -> Channel {
        if instrument == 0 {
            self
        } else {
            let index = (instrument - 1) as u8;
            if vol is Empty && (index as int) < module.samples@.len() {
                let volume = module.samples@[index as int].default_volume;
                Channel {
                    current_sample_index: index,
                    volume: if volume > MAX_VOLUME {
                        MAX_VOLUME
                    } else {
                        volume
                    },
                    ..self
                }
            } else {
                Channel { current_sample_index: index, ..self }
            }
        }
    }

    /// The channel after a note has been started. The position is the start of the sample,
    /// or 256 frames times the parameter of a sample offset, which is stored or recalled.
    /// With a sample that exists the voice plays the note at its frequency; with none it is
    /// silent.
    pub open spec fn spec_trigger(self, module: &Module, key: u8, effect: Effect) -> Channel {
        let c = match effect {
            Effect::SampleOffset(offset) => {
                let kept = if offset != 0 {
                    offset
                } else {
                    self.offset_memory
                };
                Channel { offset_memory: kept, position: fix_of_int((kept as int * 256) as u32), ..self }
            },
            _ => Channel { position: 0, ..self },
        };
        if (c.current_sample_index as int) < module.samples@.len() {
            let freq = spec_note_freq(
                key as int,
                module.samples@[c.current_sample_index as int].base_frequency,
            );
            Channel { playing: true, current_note: key, base_freq: freq, freq, ..c }
        } else {
            Channel { playing: false, ..c }
        }
    }

    /// The channel after the note cell of a row. A note starts, unless the row holds a tone
    /// portamento in either cell; a cut and an off silence the voice.
    pub open spec fn spec_note(self, module: &Module, col: Column) -> Channel {
        match col.note {
            Note::On(key) => if col.effect is TonePorta || col.vol is TonePorta {
                self
            } else {
                self.spec_trigger(module, key, col.effect)
            },
            Note::Cut => Channel { playing: false, ..self },
            Note::Off => Channel { playing: false, ..self },
            _ => self,
        }
    }

    /// The channel after a row has been entered with this column: first the volume cell,
    /// then the effect cell, the instrument and the note.
    pub open spec fn spec_play_column(self, module: &Module, col: Column) -> Channel {
        self.spec_volume_column(col.vol).spec_row_effect(module.mode, col.effect).spec_instrument(
            module,
            col.instrument,
            col.vol,
        ).spec_note(module, col)
    }

    /// Enters a row with this channel's column.
    pub fn play_column(&mut self, module: &Module, col: Column)
        requires
            old(self).wf(),
            note_valid(col.note),
        ensures
            *final(self) == old(self).spec_play_column(module, col),
            final(self).wf(),
    {
        match col.vol {
            VolEffect::Volume(v) => {
                self.volume = if v > MAX_VOLUME {
                    MAX_VOLUME
                } else {
                    v
                };
            },
            _ => {},
        }
        let mut porta = false;
        match col.effect {
            Effect::Arpeggio(_) => {
                self.arpeggio_selector = 0;
            },
            Effect::PortaUp(_) => {
                porta = true;
            },
            Effect::PortaDown(_) => {
                porta = true;
            },
            _ => {},
        }
        if self.arpeggio_state {
            if !(module.mode.is_s3m() && porta) {
                self.freq = self.base_freq;
            }
            self.arpeggio_state = false;
        }
        if col.instrument != 0 {
            self.current_sample_index = col.instrument - 1;
            let index = self.current_sample_index as usize;
            let unset = match col.vol {
                VolEffect::Empty => true,
                _ => false,
            };
            if unset && index < module.samples.len() {
                let volume = module.samples[index].default_volume;
                self.volume = if volume > MAX_VOLUME {
                    MAX_VOLUME
                } else {
                    volume
                };
            }
        }
        let glides = match col.effect {
            Effect::TonePorta(_) => true,
            _ => match col.vol {
                VolEffect::TonePorta(_) => true,
                _ => false,
            },
        };
        match col.note {
            Note::On(key) => {
                if !glides {
                    self.trigger(module, key, col.effect);
                }
            },
            Note::Cut => {
                self.playing = false;
            },
            Note::Off => {
                self.playing = false;
            },
            _ => {},
        }
    }

    /// Starts a note.
    pub fn trigger(&mut self, module: &Module, key: u8, effect: Effect)
        requires
            old(self).wf(),
            (key as int) < NOTE_COUNT as int,
        ensures
            *final(self) == old(self).spec_trigger(module, key, effect),
            final(self).wf(),
    {
        match effect {
            Effect::SampleOffset(offset) => {
                if offset != 0 {
                    self.offset_memory = offset;
                }
                self.position = fix_from_int((self.offset_memory as u32) * 256);
            },
            _ => {
                self.position = 0;
            },
        }
        let index = self.current_sample_index as usize;
        if index < module.samples.len() {
            let freq = note_freq(key as usize, module.samples[index].base_frequency);
            self.playing = true;
            self.current_note = key;
            self.base_freq = freq;
            self.freq = freq;
        } else {
            self.playing = false;
        }
    }

    /// The channel after one tick of its column's effect. A tone portamento waits for the
    /// second tick of the row. A vibrato and an empty effect leave their parameter, where it
    /// is not zero, in the memory of Scream Tracker 3. A global volume slide stores its
    /// parameter, where it is not zero, in the channel.
    pub open spec fn spec_tick_column(self, module: &Module, col: Column, ticks_passed: u8) -> Channel {
        let linear = module.linear_freq_slides;
        match col.effect {
            Effect::PortaUp(v) => self.spec_porta_up(module.mode, linear, ticks_passed, v),
            Effect::PortaDown(v) => self.spec_porta_down(module.mode, linear, ticks_passed, v),
            Effect::TonePorta(v) => if ticks_passed == 0 {
                self
            } else {
                self.spec_tone_portamento(module, col.note, linear, v)
            },
            Effect::VolSlideTonePorta(v) => {
                let c = self.spec_vol_slide(module, v, ticks_passed);
                if ticks_passed == 0 {
                    c
                } else {
                    c.spec_tone_portamento(module, col.note, linear, 0)
                }
            },
            Effect::VolSlideVibrato(v) => self.spec_vol_slide(module, v, ticks_passed),
            Effect::VolSlide(v) => self.spec_vol_slide(module, v, ticks_passed),
            Effect::Retrig(v) => self.spec_retrigger(module.mode, v),
            Effect::Arpeggio(v) => self.spec_arpeggio(module, v),
            Effect::Vibrato(v) => self.spec_note_parameter(module.mode, v),
            Effect::Empty(v) => self.spec_note_parameter(module.mode, v),
            Effect::GlobalVolSlide(v) => if v != 0 {
                Channel { global_volume_memory: v, ..self }
            } else {
                self
            },
            _ => self,
        }
    }

    /// The channel after Scream Tracker 3 has taken note of a parameter that is not zero.
    pub open spec fn spec_note_parameter(self, mode: PlaybackMode, value: u8) -> Channel {
        if value != 0 && mode.spec_is_s3m() {
            Channel { s3m_effect_memory: value, ..self }
        } else {
            self
        }
    }

    /// Runs one tick of this channel's column.
    pub fn tick_column(&mut self, module: &Module, col: Column, ticks_passed: u8)
        requires
            old(self).wf(),
            note_valid(col.note),
        ensures
            *final(self) == old(self).spec_tick_column(module, col, ticks_passed),
            final(self).wf(),
    {
        let linear = module.linear_freq_slides;
        match col.effect {
            Effect::PortaUp(v) => {
                self.porta_up(module.mode, linear, ticks_passed, v);
            },
            Effect::PortaDown(v) => {
                self.porta_down(module.mode, linear, ticks_passed, v);
            },
            Effect::TonePorta(v) => {
                if ticks_passed > 0 {
                    self.tone_portamento(module, col.note, linear, v);
                }
            },
            Effect::VolSlideTonePorta(v) => {
                self.vol_slide(module, v, ticks_passed);
                if ticks_passed > 0 {
                    self.tone_portamento(module, col.note, linear, 0);
                }
            },
            Effect::VolSlideVibrato(v) => {
                self.vol_slide(module, v, ticks_passed);
            },
            Effect::VolSlide(v) => {
                self.vol_slide(module, v, ticks_passed);
            },
            Effect::Retrig(v) => {
                self.retrigger(module.mode, v);
            },
            Effect::Arpeggio(v) => {
                self.arpeggio(module, v);
            },
            Effect::Vibrato(v) => {
                if v != 0 && module.mode.is_s3m() {
                    self.s3m_effect_memory = v;
                }
            },
            Effect::Empty(v) => {
                if v != 0 && module.mode.is_s3m() {
                    self.s3m_effect_memory = v;
                }
            },
            Effect::GlobalVolSlide(v) => {
                if v != 0 {
                    self.global_volume_memory = v;
                }
            },
            _ => {},
        }
    }

    /// The channel after its position has moved by one output frame: back by the step in
    /// the backward leg of a ping-pong loop, unless it has come to the loop's start, where
    /// it turns; forward by the step otherwise.
    pub open spec fn spec_advance(self, sample: &Sample, step: u64) -> Channel {
        if self.backwards {
            if fix_whole(self.position) <= sample.loop_start {
                Channel { backwards: false, ..self }
            } else {
                Channel { position: fix_diff(self.position, step), ..self }
            }
        } else {
            Channel { position: fix_sum(self.position, step), ..self }
        }
    }

    /// Whether the position has gone past the last looped frame.
    pub open spec fn spec_past_loop_end(self, sample: &Sample) -> bool {
        sample.loop_end > 0 && fix_whole(self.position) as int > sample.loop_end as int - 1
    }

    /// The channel after loop handling: past the loop's end a forward loop goes back by
    /// the loop's length, and a ping-pong loop turns round and takes the step back.
    pub open spec fn spec_wrap(self, sample: &Sample, step: u64) -> Channel {
        if self.spec_past_loop_end(sample) {
            match sample.loop_type {
                LoopType::Forward => Channel {
                    position: fix_diff(self.position, fix_of_int(spec_loop_length(sample))),
                    ..self
                },
                LoopType::PingPong => Channel {
                    backwards: true,
                    position: fix_diff(self.position, step),
                    ..self
                },
                LoopType::Disabled => self,
            }
        } else {
            self
        }
    }

    /// Whether the voice has nothing left to play at its position: the position is outside
    /// the audio, or the sample does not loop and the position is on its last frame.
    pub open spec fn spec_runs_out(self, sample: &Sample) -> bool {
        let whole = fix_whole(self.position) as int;
        whole >= sample.audio@.len() || (sample.loop_type == LoopType::Disabled && whole
            >= sample.audio@.len() - 1)
    }

    /// Whether the channel has a sample with audio to play.
    pub open spec fn spec_audible(self, module: &Module) -> bool {
        &&& (self.current_sample_index as int) < module.samples@.len()
        &&& self.playing
        &&& module.samples@[self.current_sample_index as int].audio@.len() > 0
    }

    /// The channel after one output frame, before the frame is read: the position is
    /// advanced, the loop is handled, and a voice that has run out is stopped.
    pub open spec fn spec_moved(self, module: &Module, samplerate: u32) -> Channel
        recommends
            samplerate > 0,
    {
        if self.spec_audible(module) {
            let sample = &module.samples@[self.current_sample_index as int];
            let step = spec_step(self.freq, samplerate);
            let c = self.spec_advance(sample, step).spec_wrap(sample, step);
            if c.spec_runs_out(sample) {
                Channel { playing: false, backwards: false, ..c }
            } else {
                c
            }
        } else {
            self
        }
    }

    /// The frame that the channel gives after it has moved: silence unless it still plays,
    /// else the frame at its position, scaled by the channel's and the sample's volume.
    pub open spec fn spec_output(self, module: &Module) -> i16 {
        if self.spec_audible(module) {
            let sample = &module.samples@[self.current_sample_index as int];
            spec_scale(
                sample.audio@[fix_whole(self.position) as int],
                self.volume,
                sample.global_volume,
            )
        } else {
            0
        }
    }

    /// Produces one frame: moves the position on by the frequency over the sample rate,
    /// handles the loop, and reads the frame there. Every interpolation reads the nearest
    /// frame.
    pub fn process(&mut self, module: &Module, samplerate: u32, interpolation: Interpolation) -> (out: i16)
        requires
            samplerate > 0,
        ensures
            *final(self) == old(self).spec_moved(module, samplerate),
            out == final(self).spec_output(module),
            final(self).playing && final(self).spec_audible(module) ==> (fix_whole(
                final(self).position,
            ) as int) < module.samples@[final(self).current_sample_index as int].audio@.len(),
            old(self).wf() ==> final(self).wf(),
    {
        let index = self.current_sample_index as usize;
        if index >= module.samples.len() {
            return 0;
        }
        let sample = &module.samples[index];
        if !self.playing || sample.audio.len() == 0 {
            return 0;
        }
        let step = fix_div(self.freq, fix_from_int(samplerate));
        if self.backwards {
            if fix_to_int(self.position) <= sample.loop_start {
                self.backwards = false;
            } else {
                self.position = fix_sub(self.position, step);
            }
        } else {
            self.position = fix_add(self.position, step);
        }
        if sample.loop_end > 0 && fix_to_int(self.position) > sample.loop_end - 1 {
            match sample.loop_type {
                LoopType::Forward => {
                    self.position = fix_sub(self.position, fix_from_int(loop_length(sample)));
                },
                LoopType::PingPong => {
                    self.backwards = true;
                    self.position = fix_sub(self.position, step);
                },
                LoopType::Disabled => {},
            }
        }
        let whole = fix_to_int(self.position) as usize;
        let unlooped = match sample.loop_type {
            LoopType::Disabled => true,
            _ => false,
        };
        if whole >= sample.audio.len() || (unlooped && whole >= sample.audio.len() - 1) {
            self.playing = false;
            self.backwards = false;
            return 0;
        }
        scale(sample.audio[whole], self.volume, sample.global_volume)
    }
}

/// How the frames between the stored ones are made up.
#[derive(Clone, Copy, Debug, PartialEq, Eq, Structural)]
pub enum Interpolation {
    Nearest,
    Linear,
    Sinc16,
    Sinc32,
    Sinc64,
    Sinc64Fast,
}

impl Default for Interpolation {
    /// The nearest frame, with no frames made up.
    fn default() -> (interpolation: Interpolation)
        ensures
            interpolation == Interpolation::Nearest,
    {
        Interpolation::Nearest
    }
}

/// The position's step per output frame: the frequency over the sample rate.
pub open spec fn spec_step(freq: u64, samplerate: u32) -> u64
    recommends
        samplerate > 0,
{
    fix_quotient(freq, fix_of_int(samplerate))
}

/// The length of a sample's loop in frames; zero where the loop's start lies past its end.
pub open spec fn spec_loop_length(sample: &Sample) -> u32 {
    if sample.loop_end >= sample.loop_start {
        (sample.loop_end - sample.loop_start) as u32
    } else {
        0
    }
}

/// The length of a sample's loop in frames.
pub fn loop_length(sample: &Sample) -> (len: u32)
    ensures
        len == spec_loop_length(sample),
{
    if sample.loop_end >= sample.loop_start {
        sample.loop_end - sample.loop_start
    } else {
        0
    }
}

/// A frame scaled by a channel volume and a sample volume, each counted in 64ths: the
/// product of the three over 4096, rounded towards minus infinity and held in `i16`.
pub open spec fn spec_scale(raw: i16, volume: u8, global_volume: u8) -> i16 {
    clamp_i16((raw as int * volume as int * global_volume as int) / 4096)
}

/// Scales a frame by a channel volume and a sample volume, in signed Q32.32.
pub fn scale(raw: i16, volume: u8, global_volume: u8) -> (out: i16)
    ensures
        out == spec_scale(raw, volume, global_volume),
{
    let full = sfix_from_int(64);
    let v = sfix_div(sfix_from_int(volume as i32), full);
    let g = sfix_div(sfix_from_int(global_volume as i32), full);
    let by_volume = sfix_mul(sfix_from_int(raw as i32), v);
    let scaled = sfix_mul(by_volume, g);
    proof {
        let r = raw as int;
        let a = volume as int;
        let b = global_volume as int;
        assert(v as int == a * 0x400_0000);
        assert(g as int == b * 0x400_0000);
        assert((r * 0x1_0000_0000) * (a * 0x400_0000) == (r * a * 0x400_0000) * 0x1_0000_0000)
            by (nonlinear_arith);
        assert(-32768 * 255 <= r * a <= 32767 * 255) by (nonlinear_arith)
            requires
                -32768 <= r <= 32767,
                0 <= a <= 255,
        ;
        assert(by_volume as int == r * a * 0x400_0000);
        assert((r * a * 0x400_0000) * (b * 0x400_0000) == (r * a * b * 0x10_0000)
            * 0x1_0000_0000) by (nonlinear_arith);
        assert(-32768 * 255 * 255 <= r * a * b <= 32767 * 255 * 255) by (nonlinear_arith)
            requires
                -32768 * 255 <= r * a <= 32767 * 255,
                0 <= b <= 255,
        ;
        assert(scaled as int == r * a * b * 0x10_0000);
        assert((r * a * b * 0x10_0000) / 0x1_0000_0000 == (r * a * b) / 4096);
    }
    sfix_to_i16(scaled)
}

/// A volume after a slide of one tick. A low nibble of 0xF under a high nibble that is not
/// zero is a fine slide up, a high nibble of 0xF over a low nibble that is not zero a fine
/// slide down: both act on the first tick of a row only. A low nibble of zero is a regular
/// slide up, anything else a regular slide down: both act on every tick but the first, and
/// on the first too where slides are fast. The result is held between zero and the ceiling.
pub open spec fn spec_slide_volume(volume: u8, value: u8, ticks_passed: u8, fast: bool, ceiling: u8) -> u8 {
    let up = value as int / 16;
    let down = value as int % 16;
    let regular = ticks_passed > 0 || fast;
    let moved = if down == 15 && up > 0 {
        if ticks_passed == 0 {
            volume as int + up
        } else {
            volume as int
        }
    } else if up == 15 && down > 0 {
        if ticks_passed == 0 {
            volume as int - down
        } else {
            volume as int
        }
    } else if down == 0 {
        if regular {
            volume as int + up
        } else {
            volume as int
        }
    } else {
        if regular {
            volume as int - down
        } else {
            volume as int
        }
    };
    if moved < 0 {
        0
    } else if moved > ceiling as int {
        ceiling
    } else {
        moved as u8
    }
}

/// Slides a volume by one tick and holds it between zero and the ceiling.
pub fn slide_volume(volume: u8, value: u8, ticks_passed: u8, fast: bool, ceiling: u8) -> (r: u8)
    ensures
        r == spec_slide_volume(volume, value, ticks_passed, fast, ceiling),
        r <= ceiling,
{
    let up: u16 = (value / 16) as u16;
    let down: u16 = (value % 16) as u16;
    let regular = ticks_passed > 0 || fast;
    let start: u16 = volume as u16;
    let mut rise: u16 = 0;
    let mut fall: u16 = 0;
    if down == 15 && up > 0 {
        if ticks_passed == 0 {
            rise = up;
        }
    } else if up == 15 && down > 0 {
        if ticks_passed == 0 {
            fall = down;
        }
    } else if down == 0 {
        if regular {
            rise = up;
        }
    } else {
        if regular {
            fall = down;
        }
    }
    let moved: u16 = if fall > start {
        0
    } else {
        start + rise - fall
    };
    if moved > ceiling as u16 {
        ceiling
    } else {
        moved as u8
    }
}

/// A volume after the volume change of a retrigger. Operations 1 to 5 take 1, 2, 4, 8 and
/// 16 away, 6 and 7 scale to two thirds and to a half; 9 to 0xD add 1, 2, 4, 8 and 16, 0xE
/// and 0xF scale to three halves and to the double; 0 and 8 change nothing. The result is
/// held between zero and `MAX_VOLUME`.
pub open spec fn spec_retrigger_volume(volume: u8, operation: u8) -> u8 {
    let v = volume as int;
    let changed = if operation == 1 {
        v - 1
    } else if operation == 2 {
        v - 2
    } else if operation == 3 {
        v - 4
    } else if operation == 4 {
        v - 8
    } else if operation == 5 {
        v - 16
    } else if operation == 6 {
        (v * 2) / 3
    } else if operation == 7 {
        v / 2
    } else if operation == 9 {
        v + 1
    } else if operation == 10 {
        v + 2
    } else if operation == 11 {
        v + 4
    } else if operation == 12 {
        v + 8
    } else if operation == 13 {
        v + 16
    } else if operation == 14 {
        (v * 3) / 2
    } else if operation == 15 {
        v * 2
    } else {
        v
    };
    if changed < 0 {
        0
    } else if changed > MAX_VOLUME as int {
        MAX_VOLUME
    } else {
        changed as u8
    }
}

/// Applies the volume change of a retrigger.
pub fn retrigger_volume(volume: u8, operation: u8) -> (r: u8)
    ensures
        r == spec_retrigger_volume(volume, operation),
        r <= MAX_VOLUME,
{
    let v: u16 = volume as u16;
    let changed: u16 = match operation {
        1 => v.saturating_sub(1),
        2 => v.saturating_sub(2),
        3 => v.saturating_sub(4),
        4 => v.saturating_sub(8),
        5 => v.saturating_sub(16),
        6 => (v * 2) / 3,
        7 => v / 2,
        9 => v + 1,
        10 => v + 2,
        11 => v + 4,
        12 => v + 8,
        13 => v + 16,
        14 => (v * 3) / 2,
        15 => v * 2,
        _ => v,
    };
    if changed > MAX_VOLUME as u16 {
        MAX_VOLUME
    } else {
        changed as u8
    }
}

/// The frequency after one tick of a glide towards a wanted frequency. A linear glide
/// multiplies by the slide factor of the parameter, an Amiga glide moves the period by four
/// times the parameter; neither passes the target.
pub open spec fn spec_glide(freq: u64, wanted: u64, linear: bool, value: u8) -> u64 {
    if linear {
        if freq < wanted {
            let raised = fix_product(freq, LINEAR_UP[value as int]);
            if raised > wanted {
                wanted
            } else {
                raised
            }
        } else if freq > wanted {
            let lowered = fix_product(freq, LINEAR_DOWN[value as int]);
            if lowered < wanted {
                wanted
            } else {
                lowered
            }
        } else {
            freq
        }
    } else {
        spec_freq_from_period(spec_glide_period(freq, wanted, value))
    }
}

/// The period after one tick of an Amiga glide: the period of the frequency moved by four
/// times the parameter towards the period of the wanted frequency, and no further.
pub open spec fn spec_glide_period(freq: u64, wanted: u64, value: u8) -> u32 {
    let target = spec_amiga_period(wanted);
    let current = spec_amiga_period(freq);
    let step = 4 * value as int;
    if freq < wanted {
        if current - step < target {
            target
        } else {
            (current - step) as u32
        }
    } else if freq > wanted {
        if current + step > target {
            target
        } else {
            (current + step) as u32
        }
    } else {
        target
    }
}

/// Moves a frequency one tick towards a wanted frequency.
pub fn glide(freq: u64, wanted: u64, linear: bool, value: u8) -> (r: u64)
    ensures
        r == spec_glide(freq, wanted, linear, value),
{
    if linear {
        if freq < wanted {
            let raised = fix_mul(freq, linear_up(value));
            if raised > wanted {
                wanted
            } else {
                raised
            }
        } else if freq > wanted {
            let lowered = fix_mul(freq, linear_down(value));
            if lowered < wanted {
                wanted
            } else {
                lowered
            }
        } else {
            freq
        }
    } else {
        let target = amiga_period(wanted);
        let current = amiga_period(freq);
        let step: u32 = 4 * (value as u32);
        let period = if freq < wanted {
            if current < step || current - step < target {
                target
            } else {
                current - step
            }
        } else if freq > wanted {
            if current + step > target {
                target
            } else {
                current + step
            }
        } else {
            target
        };
        freq_from_period(period)
    }
}

/// Whether the parameter of a volume slide is a fine slide, up or down.
pub open spec fn spec_fine_volume_slide(value: u8) -> bool {
    (value % 16 == 15 && value / 16 > 0) || (value / 16 == 15 && value % 16 > 0)
}

/// The frequency of an arpeggio phase: the note's own frequency, the note raised by the
/// high nibble, the note raised by the low nibble.
pub open spec fn spec_arpeggio_freq(c: Channel, module: &Module, value: u8, phase: int) -> u64 {
    let base = module.samples@[c.current_sample_index as int].base_frequency;
    if phase == 0 {
        c.base_freq
    } else if phase == 1 {
        spec_note_freq(c.current_note as int + value as int / 16, base)
    } else {
        spec_note_freq(c.current_note as int + value as int % 16, base)
    }
}

/// An arpeggio that goes on with parameter zero cycles through its three frequencies:
/// over three ticks in a row the channel takes the note's own frequency, that of the note
/// raised by the high nibble of the remembered parameter and that of the note raised by the
/// low nibble, each once, starting with the phase that the selector is in.
pub proof fn lemma_arpeggio_cycle(c: Channel, module: &Module)
    requires
        c.wf(),
        (c.current_sample_index as int) < module.samples@.len(),
    ensures
        ({
            let v = c.arpeggio_memory;
            let first = c.spec_arpeggio(module, 0);
            let second = first.spec_arpeggio(module, 0);
            let third = second.spec_arpeggio(module, 0);
            let phase = c.arpeggio_selector as int;
            &&& first.freq == spec_arpeggio_freq(c, module, v, phase)
            &&& second.freq == spec_arpeggio_freq(c, module, v, (phase + 1) % 3)
            &&& third.freq == spec_arpeggio_freq(c, module, v, (phase + 2) % 3)
            &&& third.arpeggio_selector == c.arpeggio_selector
            &&& third.arpeggio_memory == v
        }),
{
}

/// A product with a factor of at least one is at least the other factor, and a product
/// with a factor of at most one is at most the other factor.
pub proof fn lemma_product_order(a: u64, factor: u64)
    ensures
        factor >= ONE ==> fix_product(a, factor) >= a,
        factor <= ONE ==> fix_product(a, factor) <= a,
{
    let one = ONE as int;
    if factor >= ONE {
        assert((a as int * factor as int) / one >= a as int) by (nonlinear_arith)
            requires
                factor as int >= one,
                a as int >= 0,
                one == 0x1_0000_0000,
        ;
    }
    if factor <= ONE {
        assert(0 <= (a as int * factor as int) / one <= a as int) by (nonlinear_arith)
            requires
                0 <= factor as int <= one,
                a as int >= 0,
                one == 0x1_0000_0000,
        ;
    }
}

/// A linear glide moves towards the wanted frequency and never past it: from below the
/// frequency does not fall and stays at or under the target, from above it does not rise and
/// stays at or over the target, and on the target it stays.
pub proof fn lemma_linear_glide_monotone(freq: u64, wanted: u64, value: u8)
    ensures
        freq <= wanted ==> freq <= spec_glide(freq, wanted, true, value) <= wanted,
        freq >= wanted ==> wanted <= spec_glide(freq, wanted, true, value) <= freq,
{
    lemma_linear_up_raises(value);
    lemma_linear_down_lowers(value);
    lemma_product_order(freq, LINEAR_UP[value as int]);
    lemma_product_order(freq, LINEAR_DOWN[value as int]);
}

/// With linear slides, a tone portamento on a channel whose sample exists moves the
/// frequency towards the frequency of the target note and never past it.
pub proof fn lemma_tone_portamento_monotone(c: Channel, module: &Module, note: Note, value: u8)
    requires
        (c.current_sample_index as int) < module.samples@.len(),
    ensures
        ({
            let after = c.spec_tone_portamento(module, note, true, value);
            let wanted = spec_note_freq(
                after.last_note as int,
                module.samples@[c.current_sample_index as int].base_frequency,
            );
            &&& c.freq <= wanted ==> c.freq <= after.freq <= wanted
            &&& c.freq >= wanted ==> wanted <= after.freq <= c.freq
        }),
{
    let after = c.spec_tone_portamento(module, note, true, value);
    let wanted = spec_note_freq(
        after.last_note as int,
        module.samples@[c.current_sample_index as int].base_frequency,
    );
    lemma_linear_glide_monotone(c.freq, wanted, after.porta_memory);
}

/// An Amiga glide moves the period towards the period of the wanted frequency and never
/// past it.
pub proof fn lemma_amiga_glide_period_monotone(freq: u64, wanted: u64, value: u8)
    ensures
        ({
            let target = spec_amiga_period(wanted);
            let current = spec_amiga_period(freq);
            let after = spec_glide_period(freq, wanted, value);
            &&& freq < wanted && target <= current ==> target <= after <= current
            &&& freq > wanted && target >= current ==> current <= after <= target
            &&& freq == wanted ==> after == target
        }),
{
}

/// A forward loop keeps the position inside the loop exactly when the advanced position
/// lies at or after the loop's start and less than one loop length past its end: after a
/// frame that did not stop the voice, the whole part of the position is at or after the
/// start and before the end of the loop if and only if that holds.
pub proof fn lemma_forward_loop_position(c: Channel, module: &Module, samplerate: u32)
    requires
        samplerate > 0,
        c.spec_audible(module),
        module.samples@[c.current_sample_index as int].loop_type == LoopType::Forward,
        module.samples@[c.current_sample_index as int].loop_end > 0,
    ensures
        ({
            let sample = &module.samples@[c.current_sample_index as int];
            let start = sample.loop_start as int;
            let end = sample.loop_end as int;
            let advanced = fix_whole(
                c.spec_advance(sample, spec_step(c.freq, samplerate)).position,
            ) as int;
            let after = c.spec_moved(module, samplerate);
            after.playing ==> ((start <= fix_whole(after.position) < end) <==> (start <= advanced
                < end + (end - start)))
        }),
{
    let sample = &module.samples@[c.current_sample_index as int];
    let step = spec_step(c.freq, samplerate);
    let moved = c.spec_advance(sample, step);
    let wrapped = moved.spec_wrap(sample, step);
    let length = spec_loop_length(sample) as int;
    if moved.spec_past_loop_end(sample) {
        assert(moved.position as int >= sample.loop_end as int * ONE as int);
        assert(wrapped.position as int == moved.position as int - length * ONE as int);
        assert(fix_whole(wrapped.position) as int == fix_whole(moved.position) as int - length);
    }
}

/// A forward loop keeps a position that is inside the loop inside it, where the step of one
/// frame is no longer than the loop.
pub proof fn lemma_forward_loop_invariant(c: Channel, module: &Module, samplerate: u32)
    requires
        samplerate > 0,
        c.spec_audible(module),
        !c.backwards,
        module.samples@[c.current_sample_index as int].loop_type == LoopType::Forward,
        module.samples@[c.current_sample_index as int].loop_end > 0,
        module.samples@[c.current_sample_index as int].loop_start <= fix_whole(c.position)
            < module.samples@[c.current_sample_index as int].loop_end,
        spec_step(c.freq, samplerate) <= fix_of_int(
            spec_loop_length(&module.samples@[c.current_sample_index as int]),
        ),
    ensures
        ({
            let sample = &module.samples@[c.current_sample_index as int];
            let after = c.spec_moved(module, samplerate);
            after.playing ==> sample.loop_start <= fix_whole(after.position) < sample.loop_end
        }),
{
    lemma_forward_loop_position(c, module, samplerate);
}

/// A ping-pong loop turns exactly at its boundaries. Over a loop that holds at least one
/// frame, a frame that did not stop the voice changes the direction if and only if the
/// voice was going back and had come to the loop's start, or was going forward and its
/// advanced position went past the loop's last frame.
pub proof fn lemma_ping_pong_turns(c: Channel, module: &Module, samplerate: u32)
    requires
        samplerate > 0,
        c.spec_audible(module),
        module.samples@[c.current_sample_index as int].loop_type == LoopType::PingPong,
        module.samples@[c.current_sample_index as int].loop_start
            < module.samples@[c.current_sample_index as int].loop_end,
    ensures
        ({
            let sample = &module.samples@[c.current_sample_index as int];
            let step = spec_step(c.freq, samplerate);
            let after = c.spec_moved(module, samplerate);
            after.playing ==> ((after.backwards != c.backwards) <==> (if c.backwards {
                fix_whole(c.position) <= sample.loop_start
            } else {
                fix_whole(fix_sum(c.position, step)) as int > sample.loop_end as int - 1
            }))
        }),
{
    let sample = &module.samples@[c.current_sample_index as int];
    let step = spec_step(c.freq, samplerate);
    if c.backwards && fix_whole(c.position) > sample.loop_start {
        assert(fix_diff(c.position, step) <= c.position);
    }
}

/// A voice that still plays after a frame stands on a frame of its sample: no read goes
/// outside the audio.
pub proof fn lemma_position_in_audio(c: Channel, module: &Module, samplerate: u32)
    requires
        samplerate > 0,
    ensures
        ({
            let after = c.spec_moved(module, samplerate);
            after.spec_audible(module) ==> (fix_whole(after.position) as int)
                < module.samples@[after.current_sample_index as int].audio@.len()
        }),
{
}

/// Pitch slides keep to their ticks: a fine or an extra-fine slide changes the frequency
/// on the first tick of a row only, a regular slide on every tick but the first; on the
/// ticks of its kind the frequency takes exactly one step.
pub proof fn lemma_porta_tick_phase(c: Channel, mode: PlaybackMode, linear: bool, ticks_passed: u8, value: u8)
    requires
        has_memory(mode),
    ensures
        ({
            let v = c.spec_effective(mode, MemorySlot::Porta, value);
            let up = c.spec_porta_up(mode, linear, ticks_passed, value);
            let down = c.spec_porta_down(mode, linear, ticks_passed, value);
            let fine = spec_slide_kind(v) != SlideKind::Regular;
            &&& fine && ticks_passed > 0 ==> up.freq == c.freq && down.freq == c.freq
            &&& !fine && ticks_passed == 0 ==> up.freq == c.freq && down.freq == c.freq
            &&& fine == (ticks_passed == 0) ==> up.freq == spec_slide_up(c.freq, linear, v)
                && down.freq == spec_slide_down(c.freq, linear, v)
        }),
{
}

/// Volume slides keep to their ticks: a fine slide changes the volume on the first tick of
/// a row only, and a regular slide, where slides are not fast, on every tick but the first.
pub proof fn lemma_volume_slide_tick_phase(volume: u8, value: u8, ticks_passed: u8, ceiling: u8)
    requires
        volume <= ceiling,
    ensures
        spec_fine_volume_slide(value) && ticks_passed > 0 ==> spec_slide_volume(
            volume,
            value,
            ticks_passed,
            false,
            ceiling,
        ) == volume,
        !spec_fine_volume_slide(value) && ticks_passed == 0 ==> spec_slide_volume(
            volume,
            value,
            ticks_passed,
            false,
            ceiling,
        ) == volume,
        spec_fine_volume_slide(value) ==> spec_slide_volume(volume, value, ticks_passed, true, ceiling)
            == spec_slide_volume(volume, value, ticks_passed, false, ceiling),
{
}

/// With fast slides a regular volume slide takes on the first tick of a row the step that
/// it takes on every other tick.
pub proof fn lemma_fast_volume_slide(volume: u8, value: u8, ticks_passed: u8, ceiling: u8)
    requires
        !spec_fine_volume_slide(value),
        ticks_passed > 0,
    ensures
        spec_slide_volume(volume, value, 0, true, ceiling) == spec_slide_volume(
            volume,
            value,
            ticks_passed,
            false,
            ceiling,
        ),
        spec_slide_volume(volume, value, 0, true, ceiling) == spec_slide_volume(
            volume,
            value,
            ticks_passed,
            true,
            ceiling,
        ),
{
}

} // verus!
