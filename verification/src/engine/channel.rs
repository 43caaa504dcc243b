//! The state of one channel: how notes and effects change it, and what it
//! adds to a frame of audio.

use crate::engine::effects::clamped_volume;
use crate::engine::effects::Effect;
use crate::engine::effects::RowCommand;
use crate::engine::effects::SubEffect;
use crate::engine::effects::MAX_VOLUME;
use crate::bytereader::signed8;
use crate::song::Note;
use crate::song::Sample;
use vstd::arithmetic::div_mod::lemma_mod_decreases;
use vstd::prelude::*;

verus! {

/// Where a channel sits between the speakers when nothing has moved it:
/// 0 is hard left, 255 hard right.
pub const CENTRE_PANNING: u8 = 128;

/// One quarter of the bits of a playback position or step count whole
/// samples; the lower thirty-two count fractions of a sample.
pub const FRACTION_BITS: u32 = 32;

/// One whole sample as a playback position.
pub const ONE_SAMPLE: u64 = 0x1_0000_0000;

/// Ten times the frequency in hertz of the clock that periods divide.
pub const CLOCK_TENTHS: u64 = 70_937_892;

/// Half a wave of the vibrato, in steps of one sixty-fourth of a turn.
pub const VIBRATO_WAVE: [u8; 32] = [
    0, 24, 49, 74, 97, 120, 141, 161, 180, 197, 212, 224, 235, 244, 250, 253, 255, 253, 250, 244,
    235, 224, 212, 197, 180, 161, 141, 120, 97, 74, 49, 24,
];

/// What one channel of the song is doing.
#[derive(Debug, Clone, Copy, PartialEq, Eq, Structural)]
pub struct ChannelState {
    /// The active instrument, counted from 0.
    pub sample_index: usize,
    pub volume: u8,
    /// The period that sounds.
    pub period: u16,
    /// The effect of the current row and its argument.
    pub effect: u8,
    pub effect_arg: u8,
    pub panning: u8,
    /// Where in the instrument's data playback stands, in fractions of a
    /// sample.
    pub position_in_sample: u64,
    /// How far playback moves with each output frame, in fractions of a
    /// sample.
    pub sample_step: u64,
    /// The period of the note, which slides move and which arpeggio and
    /// vibrato play around.
    pub base_period: u16,
    /// The period that a tone portamento slides to; 0 before any was named.
    pub target_period: u16,
    /// The loop of the active instrument, in bytes.
    pub repeat_offset: u32,
    pub repeat_length: u32,
    pub arp_counter: u8,
    /// Where in its wave the vibrato stands, in sixty-fourths of a turn.
    pub vibrato_phase: u8,
}

/// How far a vibrato of depth `depth` at phase `phase` moves the period.
pub open spec fn vibrato_delta(phase: u8, depth: u8) -> int {
    (VIBRATO_WAVE@[phase as int % 32] * depth) / 128
}

/// The period of `base` with the vibrato of depth `depth` at phase `phase`:
/// above the base in the first half of a turn, below it in the second.
pub open spec fn vibrato_period(base: u16, phase: u8, depth: u8) -> u16 {
    if phase % 64 < 32 {
        base.saturating_add(vibrato_delta(phase, depth) as u16)
    } else {
        base.saturating_sub(vibrato_delta(phase, depth) as u16)
    }
}

/// The period one step of `step` nearer to `target` than `from`, and never
/// beyond it.
pub open spec fn slide_toward(from: u16, target: u16, step: u16) -> u16 {
    if from > target {
        if from - step > target {
            (from - step) as u16
        } else {
            target
        }
    } else if from + step < target {
        (from + step) as u16
    } else {
        target
    }
}

/// The step of a playback position per output frame for a period at a
/// sample rate: the clock divided by twice the period and by the rate.
pub open spec fn playback_step(period: u16, sample_rate: u32) -> u64 {
    ((CLOCK_TENTHS * ONE_SAMPLE) / (20 * period * sample_rate)) as u64
}

impl ChannelState {
    /// A channel before the first note.
    pub open spec fn initial() -> ChannelState {
        ChannelState {
            sample_index: 0,
            volume: MAX_VOLUME,
            period: 0,
            effect: 0,
            effect_arg: 0,
            panning: CENTRE_PANNING,
            position_in_sample: 0,
            sample_step: 0,
            base_period: 0,
            target_period: 0,
            repeat_offset: 0,
            repeat_length: 0,
            arp_counter: 0,
            vibrato_phase: 0,
        }
    }

    /// Whether the volume lies in its range.
    pub open spec fn wf(self) -> bool {
        self.volume <= MAX_VOLUME
    }

    /// The channel after a note has named instrument `reference`. 0 names
    /// none and changes nothing. An instrument of the song becomes the
    /// active one and hands over its volume and its loop. A reference
    /// behind the last instrument becomes the active one too, and has
    /// neither data nor loop.
    pub open spec fn with_instrument(self, reference: u8, samples: Seq<Sample>) -> ChannelState {
        if reference == 0 {
            self
        } else if reference - 1 < samples.len() {
            ChannelState {
                sample_index: (reference - 1) as usize,
                volume: clamped_volume(samples[reference - 1].volume),
                repeat_offset: samples[reference - 1].repeat_offset,
                repeat_length: samples[reference - 1].repeat_length,
                ..self
            }
        } else {
            ChannelState {
                sample_index: (reference - 1) as usize,
                repeat_offset: 0,
                repeat_length: 0,
                ..self
            }
        }
    }

    /// Whether `note` names the pitch that a tone portamento slides to,
    /// rather than a pitch to start at: it carries the effect and a period,
    /// and the channel has a pitch to slide from.
    pub open spec fn names_target(self, note: Note) -> bool {
        note.period != 0 && note.effect == 0x3 && self.base_period != 0
    }

    /// The channel after the first tick of a row has shown it `note`. The
    /// note's instrument, if any, becomes active and its effect that of the
    /// row. A period that a tone portamento slides to is kept as the target.
    /// Any other period starts the note: playback and the phases of
    /// arpeggio and vibrato start over at the new pitch.
    pub open spec fn triggered(self, note: Note, samples: Seq<Sample>) -> ChannelState {
        let heard = ChannelState {
            effect: note.effect,
            effect_arg: note.argument,
            ..self.with_instrument(note.sample, samples)
        };
        if note.period == 0 {
            heard
        } else if self.names_target(note) {
            ChannelState { target_period: note.period, ..heard }
        } else {
            ChannelState {
                position_in_sample: 0,
                sample_step: 0,
                base_period: note.period,
                period: note.period,
                arp_counter: 0,
                vibrato_phase: 0,
                ..heard
            }
        }
    }

    /// The channel after `effect` has been applied at tick `tick` of a row.
    pub open spec fn applied(self, effect: Effect, tick: u8) -> ChannelState {
        match effect {
            Effect::Arpeggio { x, y } => {
                if x == 0 && y == 0 {
                    self
                } else if tick == 0 {
                    ChannelState { period: self.base_period, ..self }
                } else if tick == 1 {
                    ChannelState { period: self.base_period, arp_counter: 1, ..self }
                } else {
                    let offset = if self.arp_counter % 3 == 1 {
                        x
                    } else if self.arp_counter % 3 == 2 {
                        y
                    } else {
                        0
                    };
                    ChannelState {
                        period: self.base_period.saturating_add(offset as u16),
                        arp_counter: self.arp_counter.wrapping_add(1),
                        ..self
                    }
                }
            },
            Effect::PortamentoUp(step) => {
                if tick > 0 {
                    ChannelState {
                        period: self.base_period.saturating_sub(step),
                        base_period: self.base_period.saturating_sub(step),
                        ..self
                    }
                } else {
                    self
                }
            },
            Effect::PortamentoDown(step) => {
                if tick > 0 {
                    ChannelState {
                        period: self.base_period.saturating_add(step),
                        base_period: self.base_period.saturating_add(step),
                        ..self
                    }
                } else {
                    self
                }
            },
            Effect::TonePortamento(step) => {
                if tick > 0 && self.target_period != 0 {
                    ChannelState {
                        period: slide_toward(self.base_period, self.target_period, step),
                        base_period: slide_toward(self.base_period, self.target_period, step),
                        ..self
                    }
                } else {
                    self
                }
            },
            Effect::Vibrato { speed, depth } => {
                if tick > 0 {
                    ChannelState {
                        period: vibrato_period(self.base_period, self.vibrato_phase, depth),
                        vibrato_phase: ((self.vibrato_phase + speed) % 64) as u8,
                        ..self
                    }
                } else {
                    self
                }
            },
            Effect::VolumeSlide { slide_up, slide_down } => {
                if tick == 0 {
                    self
                } else if slide_up > 0 {
                    ChannelState {
                        volume: clamped_volume(self.volume.saturating_add(slide_up)),
                        ..self
                    }
                } else if slide_down > 0 {
                    ChannelState {
                        volume: clamped_volume(self.volume.saturating_sub(slide_down)),
                        ..self
                    }
                } else {
                    self
                }
            },
            Effect::SetVolume(volume) => {
                if tick == 0 {
                    ChannelState { volume: clamped_volume(volume), ..self }
                } else {
                    self
                }
            },
            Effect::ExtendedEffect(SubEffect::FinePortamentoUp(step)) => {
                if tick == 0 {
                    ChannelState { period: self.base_period.saturating_sub(step), ..self }
                } else {
                    self
                }
            },
            Effect::ExtendedEffect(SubEffect::FinePortamentoDown(step)) => {
                if tick == 0 {
                    ChannelState { period: self.base_period.saturating_add(step), ..self }
                } else {
                    self
                }
            },
            Effect::ExtendedEffect(SubEffect::RetriggerNote(ticks)) => {
                if ticks != 0 && tick % ticks == 0 {
                    ChannelState { position_in_sample: 0, ..self }
                } else {
                    self
                }
            },
            Effect::PositionJump(_) => self,
            Effect::PatternBreak(_) => self,
            Effect::SetSpeed(_) => self,
            Effect::SetTempo(_) => self,
        }
    }

    /// What `effect` asks of the sequencer at tick `tick` of a row: jumps,
    /// speed and tempo are asked for at the first tick, and nothing else is
    /// asked for at all.
    pub open spec fn asked(effect: Effect, tick: u8) -> Option<RowCommand> {
        if tick != 0 {
            None
        } else {
            match effect {
                Effect::PositionJump(position) => Some(RowCommand::PositionJump(position)),
                Effect::PatternBreak(row) => Some(RowCommand::PatternBreak(row)),
                Effect::SetSpeed(speed) => Some(RowCommand::SetSpeed(speed)),
                Effect::SetTempo(tempo) => Some(RowCommand::SetTempo(tempo)),
                _ => None,
            }
        }
    }

    /// The channel after the effect of its row has been applied at tick
    /// `tick`. A code that stands for no effect changes nothing.
    pub open spec fn after_effect(self, tick: u8) -> ChannelState {
        match Effect::decoded(self.effect, self.effect_arg) {
            Some(effect) => self.applied(effect, tick),
            None => self,
        }
    }

    /// What the effect of the channel's row asks of the sequencer at tick
    /// `tick`.
    pub open spec fn command(self, tick: u8) -> Option<RowCommand> {
        match Effect::decoded(self.effect, self.effect_arg) {
            Some(effect) => ChannelState::asked(effect, tick),
            None => None,
        }
    }

    /// The channel with its step set for the period that sounds. Without a
    /// period, or without a sample rate, the step stays as it is.
    pub open spec fn with_step(self, sample_rate: u32) -> ChannelState {
        if self.period != 0 && sample_rate != 0 {
            ChannelState { sample_step: playback_step(self.period, sample_rate), ..self }
        } else {
            self
        }
    }

    /// The channel after one tick: shown `note` if the tick is the first of
    /// its row, then the effect applied, then the step set.
    pub open spec fn ticked(
        self,
        note: Note,
        samples: Seq<Sample>,
        tick: u8,
        sample_rate: u32,
    ) -> ChannelState {
        let sounding = if tick == 0 {
            self.triggered(note, samples)
        } else {
            self
        };
        sounding.after_effect(tick).with_step(sample_rate)
    }
}

impl ChannelState {
    /// Makes `reference`, if it is not 0, the active instrument.
    fn set_instrument(&mut self, reference: u8, samples: &Vec<Sample>)
        ensures
            *final(self) == old(self).with_instrument(reference, samples@),
    {
        if reference != 0 {
            let index = (reference - 1) as usize;
            self.sample_index = index;
            if index < samples.len() {
                let sample = &samples[index];
                self.volume = if sample.volume <= MAX_VOLUME {
                    sample.volume
                } else {
                    MAX_VOLUME
                };
                self.repeat_offset = sample.repeat_offset;
                self.repeat_length = sample.repeat_length;
            } else {
                self.repeat_offset = 0;
                self.repeat_length = 0;
            }
        }
    }

    /// Shows the channel the note of a new row.
    pub fn trigger(&mut self, note: &Note, samples: &Vec<Sample>)
        ensures
            *final(self) == old(self).triggered(*note, samples@),
            old(self).wf() ==> final(self).wf(),
    {
        let names_target = note.period != 0 && note.effect == 0x3 && self.base_period != 0;
        self.set_instrument(note.sample, samples);
        self.effect = note.effect;
        self.effect_arg = note.argument;
        if note.period != 0 {
            if names_target {
                self.target_period = note.period;
            } else {
                self.position_in_sample = 0;
                self.sample_step = 0;
                self.base_period = note.period;
                self.period = note.period;
                self.arp_counter = 0;
                self.vibrato_phase = 0;
            }
        }
    }

    /// Applies the effect of the channel's row at tick `tick`, and returns
    /// what the effect asks of the sequencer. A code that stands for no
    /// effect is passed over.
    pub fn process_effects(&mut self, tick: u8) -> (command: Option<RowCommand>)
        ensures
            *final(self) == old(self).after_effect(tick),
            command == old(self).command(tick),
            old(self).wf() ==> final(self).wf(),
    {
        let effect = match Effect::from_effect_and_arg_bytes(self.effect, self.effect_arg) {
            Some(effect) => effect,
            None => {
                return None;
            },
        };
        match effect {
            Effect::Arpeggio { x, y } => {
                if x != 0 || y != 0 {
                    if tick == 0 {
                        self.period = self.base_period;
                    } else if tick == 1 {
                        self.arp_counter = 1;
                        self.period = self.base_period;
                    } else {
                        let phase = self.arp_counter % 3;
                        let offset = if phase == 1 {
                            x
                        } else if phase == 2 {
                            y
                        } else {
                            0
                        };
                        self.period = self.base_period.saturating_add(offset as u16);
                        self.arp_counter = self.arp_counter.wrapping_add(1);
                    }
                }
                None
            },
            Effect::PortamentoUp(step) => {
                if tick > 0 {
                    self.period = self.base_period.saturating_sub(step);
                    self.base_period = self.period;
                }
                None
            },
            Effect::PortamentoDown(step) => {
                if tick > 0 {
                    self.period = self.base_period.saturating_add(step);
                    self.base_period = self.period;
                }
                None
            },
            Effect::TonePortamento(step) => {
                if tick > 0 && self.target_period != 0 {
                    let target = self.target_period;
                    let from = self.base_period;
                    let slid = if from > target {
                        if from - target > step {
                            from - step
                        } else {
                            target
                        }
                    } else if target - from > step {
                        from + step
                    } else {
                        target
                    };
                    self.period = slid;
                    self.base_period = slid;
                }
                None
            },
            Effect::Vibrato { speed, depth } => {
                if tick > 0 {
                    let phase = self.vibrato_phase;
                    let wave = VIBRATO_WAVE[(phase % 32) as usize];
                    assert(wave * depth <= 255 * 15) by (nonlinear_arith)
                        requires
                            wave <= 255,
                            depth <= 15,
                    ;
                    let delta = (wave as u16 * depth as u16) / 128;
                    self.period = if phase % 64 < 32 {
                        self.base_period.saturating_add(delta)
                    } else {
                        self.base_period.saturating_sub(delta)
                    };
                    self.vibrato_phase = ((phase as u16 + speed as u16) % 64) as u8;
                }
                None
            },
            Effect::VolumeSlide { slide_up, slide_down } => {
                if tick > 0 {
                    if slide_up > 0 {
                        let raised = self.volume.saturating_add(slide_up);
                        self.volume = if raised <= MAX_VOLUME {
                            raised
                        } else {
                            MAX_VOLUME
                        };
                    } else if slide_down > 0 {
                        let lowered = self.volume.saturating_sub(slide_down);
                        self.volume = if lowered <= MAX_VOLUME {
                            lowered
                        } else {
                            MAX_VOLUME
                        };
                    }
                }
                None
            },
            Effect::PositionJump(position) => {
                if tick == 0 {
                    Some(RowCommand::PositionJump(position))
                } else {
                    None
                }
            },
            Effect::SetVolume(volume) => {
                if tick == 0 {
                    self.volume = volume;
                }
                None
            },
            Effect::PatternBreak(row) => {
                if tick == 0 {
                    Some(RowCommand::PatternBreak(row))
                } else {
                    None
                }
            },
            Effect::ExtendedEffect(sub_effect) => {
                match sub_effect {
                    SubEffect::FinePortamentoUp(step) => {
                        if tick == 0 {
                            self.period = self.base_period.saturating_sub(step);
                        }
                    },
                    SubEffect::FinePortamentoDown(step) => {
                        if tick == 0 {
                            self.period = self.base_period.saturating_add(step);
                        }
                    },
                    SubEffect::RetriggerNote(ticks) => {
                        if ticks != 0 && tick % ticks == 0 {
                            self.position_in_sample = 0;
                        }
                    },
                }
                None
            },
            Effect::SetSpeed(speed) => {
                if tick == 0 {
                    Some(RowCommand::SetSpeed(speed))
                } else {
                    None
                }
            },
            Effect::SetTempo(tempo) => {
                if tick == 0 {
                    Some(RowCommand::SetTempo(tempo))
                } else {
                    None
                }
            },
        }
    }

    /// Sets the step for the period that sounds.
    pub fn update_step(&mut self, sample_rate: u32)
        ensures
            *final(self) == old(self).with_step(sample_rate),
            old(self).wf() ==> final(self).wf(),
    {
        if self.period != 0 && sample_rate != 0 {
            let period = self.period as u64;
            let rate = sample_rate as u64;
            assert(0 < period * rate <= 0xffff * 0xffff_ffff) by (nonlinear_arith)
                requires
                    0 < period <= 0xffff,
                    0 < rate <= 0xffff_ffff,
            ;
            assert(20 * self.period * sample_rate == 20 * (period * rate)) by (nonlinear_arith)
                requires
                    period == self.period,
                    rate == sample_rate,
            ;
            self.sample_step = (CLOCK_TENTHS * ONE_SAMPLE) / (20 * (period * rate));
        }
    }
}

/// The value of an output lane at full scale: the loudest sample at the
/// highest volume, panned wholly to one side.
pub const FULL_SCALE: i32 = 2_088_960;

impl ChannelState {
    /// The channel after the effect of its row has been applied at each of
    /// the ticks from 0 to `ticks - 1` in turn.
    pub open spec fn after_effects(self, ticks: nat) -> ChannelState
        decreases ticks,
    {
        if ticks == 0 {
            self
        } else {
            self.after_effects((ticks - 1) as nat).after_effect(((ticks - 1) % 256) as u8)
        }
    }

    /// The playback position where the next sample is taken: the position
    /// itself, or, where it has run past the end of a loop, the place in
    /// the loop that it has come round to.
    pub open spec fn cursor(self) -> u64 {
        if self.repeat_length > 0 && self.position_in_sample / ONE_SAMPLE >= self.repeat_offset
            + self.repeat_length {
            (self.repeat_offset * ONE_SAMPLE + (self.position_in_sample - self.repeat_offset
                * ONE_SAMPLE) % (self.repeat_length * ONE_SAMPLE)) as u64
        } else {
            self.position_in_sample
        }
    }

    /// The sample of `data` under the cursor, read as a signed byte; silence
    /// behind the end of the data.
    pub open spec fn level(self, data: Seq<u8>) -> int {
        let index = self.cursor() / ONE_SAMPLE;
        if index < data.len() {
            signed8(data[index as int] as int)
        } else {
            0
        }
    }

    /// What the channel adds to the left lane: the sample scaled by the
    /// volume and by how far the channel sits to the left.
    pub open spec fn left_share(self, data: Seq<u8>) -> int {
        self.level(data) * clamped_volume(self.volume) * (255 - self.panning)
    }

    /// What the channel adds to the right lane.
    pub open spec fn right_share(self, data: Seq<u8>) -> int {
        self.level(data) * clamped_volume(self.volume) * self.panning
    }

    /// The channel after one output frame: the cursor moved on by one step.
    /// A position that cannot grow any more stays where it is.
    pub open spec fn advanced(self) -> ChannelState {
        ChannelState {
            position_in_sample: self.cursor().saturating_add(self.sample_step),
            ..self
        }
    }

    /// Takes the sample for one output frame from `data`, returns what it
    /// adds to the left and to the right lane, and moves playback on.
    pub fn mix(&mut self, data: &Vec<u8>) -> (shares: (i32, i32))
        ensures
            shares.0 == old(self).left_share(data@),
            shares.1 == old(self).right_share(data@),
            -FULL_SCALE <= shares.0 <= FULL_SCALE,
            -FULL_SCALE <= shares.1 <= FULL_SCALE,
            *final(self) == old(self).advanced(),
            old(self).wf() ==> final(self).wf(),
    {
        let whole = self.position_in_sample / ONE_SAMPLE;
        let cursor = if self.repeat_length > 0 && whole >= self.repeat_offset as u64
            + self.repeat_length as u64 {
            let start = self.repeat_offset as u64 * ONE_SAMPLE;
            let span = self.repeat_length as u64 * ONE_SAMPLE;
            proof {
                lemma_mod_decreases((self.position_in_sample - start) as nat, span as nat);
            }
            start + (self.position_in_sample - start) % span
        } else {
            self.position_in_sample
        };
        let index = cursor / ONE_SAMPLE;
        let level: i32 = if index < data.len() as u64 {
            let byte = data[index as usize];
            if byte < 0x80 {
                byte as i32
            } else {
                byte as i32 - 0x100
            }
        } else {
            0
        };
        let volume: i32 = if self.volume <= MAX_VOLUME {
            self.volume as i32
        } else {
            MAX_VOLUME as i32
        };
        assert(-128 * 64 <= level * volume <= 128 * 64) by (nonlinear_arith)
            requires
                -128 <= level <= 127,
                0 <= volume <= 64,
        ;
        let scaled = level * volume;
        let right_weight = self.panning as i32;
        let left_weight = 255 - right_weight;
        assert(-FULL_SCALE <= scaled * left_weight <= FULL_SCALE) by (nonlinear_arith)
            requires
                -128 * 64 <= scaled <= 128 * 64,
                0 <= left_weight <= 255,
        ;
        assert(-FULL_SCALE <= scaled * right_weight <= FULL_SCALE) by (nonlinear_arith)
            requires
                -128 * 64 <= scaled <= 128 * 64,
                0 <= right_weight <= 255,
        ;
        self.position_in_sample = cursor.saturating_add(self.sample_step);
        (scaled * left_weight, scaled * right_weight)
    }
}

/// An arpeggio without offsets is no effect at all: it changes nothing of
/// its channel at any tick, and so nothing over any number of ticks.
pub proof fn lemma_empty_arpeggio_is_idle(state: ChannelState, ticks: nat)
    requires
        state.effect == 0,
        state.effect_arg == 0,
    ensures
        forall|tick: u8| state.after_effect(tick) == state && state.command(tick) is None,
        state.after_effects(ticks) == state,
    decreases ticks,
{
    if ticks > 0 {
        lemma_empty_arpeggio_is_idle(state, (ticks - 1) as nat);
    }
}

/// No effect takes the volume out of its range: from 0 to 64 it stays,
/// however many ticks an effect is applied for.
pub proof fn lemma_volume_stays_in_range(state: ChannelState, ticks: nat)
    requires
        state.wf(),
    ensures
        forall|tick: u8| state.after_effect(tick).wf(),
        state.after_effects(ticks).wf(),
    decreases ticks,
{
    if ticks > 0 {
        lemma_volume_stays_in_range(state, (ticks - 1) as nat);
        lemma_volume_stays_in_range(state.after_effects((ticks - 1) as nat), 0);
    }
}

/// A volume slide that moves the volume, and a volume that is set, leave
/// the volume in its range wherever it was before.
pub proof fn lemma_volume_effects_clamp(state: ChannelState, tick: u8)
    requires
        state.effect == 0xA || state.effect == 0xC,
    ensures
        state.after_effect(tick).volume <= MAX_VOLUME || state.after_effect(tick) == state,
{
}

/// A note leaves the volume in its range.
pub proof fn lemma_trigger_keeps_volume(state: ChannelState, note: Note, samples: Seq<Sample>)
    requires
        state.wf(),
    ensures
        state.triggered(note, samples).wf(),
{
}

impl Default for ChannelState {
    fn default() -> (state: ChannelState)
        ensures
            state == ChannelState::initial(),
    {
        ChannelState {
            sample_index: 0,
            volume: MAX_VOLUME,
            period: 0,
            effect: 0,
            effect_arg: 0,
            panning: CENTRE_PANNING,
            position_in_sample: 0,
            sample_step: 0,
            base_period: 0,
            target_period: 0,
            repeat_offset: 0,
            repeat_length: 0,
            arp_counter: 0,
            vibrato_phase: 0,
        }
    }
}

} // verus!
