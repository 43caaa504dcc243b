//! The effect commands of notes and their decoding.

use vstd::prelude::*;

verus! {

/// The highest volume of a channel.
pub const MAX_VOLUME: u8 = 64;

/// The highest argument that sets the speed; a higher one sets the tempo.
pub const MAX_SPEED: u8 = 0x1F;

/// The effects that are reached through the extended effect code.
#[derive(Debug, Clone, Copy, PartialEq, Eq, Structural)]
pub enum SubEffect {
    /// Lowers the period once, at the first tick of the row.
    FinePortamentoUp(u16),
    /// Raises the period once, at the first tick of the row.
    FinePortamentoDown(u16),
    /// Restarts the sample every so many ticks.
    RetriggerNote(u8),
}

/// A decoded effect command, its payload taken out of the argument and held
/// to its range.
#[derive(Debug, Clone, Copy, PartialEq, Eq, Structural)]
pub enum Effect {
    Arpeggio { x: u8, y: u8 },
    PortamentoUp(u16),
    PortamentoDown(u16),
    TonePortamento(u16),
    Vibrato { speed: u8, depth: u8 },
    VolumeSlide { slide_up: u8, slide_down: u8 },
    /// The position in the order table to go to.
    PositionJump(u8),
    /// The volume to set, at most 64.
    SetVolume(u8),
    /// The row of the next pattern to go to.
    PatternBreak(u8),
    ExtendedEffect(SubEffect),
    /// Ticks per row.
    SetSpeed(u8),
    /// Beats per minute.
    SetTempo(u8),
}

/// What an effect asks of the sequencer rather than of its channel.
#[derive(Debug, Clone, Copy, PartialEq, Eq, Structural)]
pub enum RowCommand {
    /// Go on, when the row is over, at this position of the order table.
    PositionJump(u8),
    /// Go on, when the row is over, at this row of the next pattern.
    PatternBreak(u8),
    /// Play so many ticks in each row.
    SetSpeed(u8),
    /// Play at so many beats per minute.
    SetTempo(u8),
}

/// The upper and the lower four bits of a byte.
pub open spec fn nibbles(x: u8) -> (u8, u8) {
    (x / 16, x % 16)
}

/// Splits a byte into its upper and its lower four bits.
pub fn split_nibbles(x: u8) -> (halves: (u8, u8))
    ensures
        halves == nibbles(x),
{
    let high = (x & 0xF0) >> 4;
    let low = x & 0x0F;
    assert(high == x / 16 && low == x % 16) by (bit_vector)
        requires
            high == (x & 0xF0) >> 4,
            low == x & 0x0F,
    ;
    (high, low)
}

/// The position that a position jump with argument `arg` goes to. The order
/// table has 128 entries; an argument beyond them starts the song over.
pub open spec fn jump_position(arg: u8) -> u8 {
    if arg < 128 {
        arg
    } else {
        0
    }
}

/// The row that a pattern break with argument `arg` goes to. The argument
/// holds the row as two decimal digits; a row beyond the sixty-four of a
/// pattern is taken as the first.
pub open spec fn break_row(arg: u8) -> u8 {
    let row = nibbles(arg).0 * 10 + nibbles(arg).1;
    if row < 64 {
        row as u8
    } else {
        0
    }
}

/// The volume that a set-volume with argument `arg` sets.
pub open spec fn clamped_volume(arg: u8) -> u8 {
    if arg <= MAX_VOLUME {
        arg
    } else {
        MAX_VOLUME
    }
}

impl SubEffect {
    /// The extended effect that sub-code `code` with argument `arg` stands
    /// for, if any.
    pub open spec fn decoded(code: u8, arg: u8) -> Option<SubEffect> {
        if code == 0x1 {
            Some(SubEffect::FinePortamentoUp(arg as u16))
        } else if code == 0x2 {
            Some(SubEffect::FinePortamentoDown(arg as u16))
        } else if code == 0x9 {
            Some(SubEffect::RetriggerNote(arg))
        } else {
            None
        }
    }
}

impl Effect {
    /// The effect that code `effect` with argument `arg` stands for, if any.
    pub open spec fn decoded(effect: u8, arg: u8) -> Option<Effect> {
        if effect == 0x0 {
            Some(Effect::Arpeggio { x: nibbles(arg).0, y: nibbles(arg).1 })
        } else if effect == 0x1 {
            Some(Effect::PortamentoUp(arg as u16))
        } else if effect == 0x2 {
            Some(Effect::PortamentoDown(arg as u16))
        } else if effect == 0x3 {
            Some(Effect::TonePortamento(arg as u16))
        } else if effect == 0x4 {
            Some(Effect::Vibrato { speed: nibbles(arg).0, depth: nibbles(arg).1 })
        } else if effect == 0xA {
            Some(Effect::VolumeSlide { slide_up: nibbles(arg).0, slide_down: nibbles(arg).1 })
        } else if effect == 0xB {
            Some(Effect::PositionJump(jump_position(arg)))
        } else if effect == 0xC {
            Some(Effect::SetVolume(clamped_volume(arg)))
        } else if effect == 0xD {
            Some(Effect::PatternBreak(break_row(arg)))
        } else if effect == 0xE {
            match SubEffect::decoded(nibbles(arg).0, nibbles(arg).1) {
                Some(sub) => Some(Effect::ExtendedEffect(sub)),
                None => None,
            }
        } else if effect == 0xF {
            if arg <= MAX_SPEED {
                Some(Effect::SetSpeed(arg))
            } else {
                Some(Effect::SetTempo(arg))
            }
        } else {
            None
        }
    }

    /// Whether the payload lies in the range of its effect.
    pub open spec fn wf(self) -> bool {
        match self {
            Effect::Arpeggio { x, y } => x < 16 && y < 16,
            Effect::PortamentoUp(step) => step < 256,
            Effect::PortamentoDown(step) => step < 256,
            Effect::TonePortamento(step) => step < 256,
            Effect::Vibrato { speed, depth } => speed < 16 && depth < 16,
            Effect::VolumeSlide { slide_up, slide_down } => slide_up < 16 && slide_down < 16,
            Effect::PositionJump(position) => position < 128,
            Effect::SetVolume(volume) => volume <= MAX_VOLUME,
            Effect::PatternBreak(row) => row < 64,
            Effect::ExtendedEffect(sub) => match sub {
                SubEffect::FinePortamentoUp(step) => step < 16,
                SubEffect::FinePortamentoDown(step) => step < 16,
                SubEffect::RetriggerNote(ticks) => ticks < 16,
            },
            Effect::SetSpeed(speed) => speed <= MAX_SPEED,
            Effect::SetTempo(tempo) => tempo > MAX_SPEED,
        }
    }

    /// Decodes an effect code and its argument. A code or an extended
    /// sub-code that stands for no effect gives nothing.
    pub fn from_effect_and_arg_bytes(effect: u8, arg: u8) -> (decoded: Option<Effect>)
        ensures
            decoded == Effect::decoded(effect, arg),
            decoded matches Some(e) ==> e.wf(),
    {
        let (high, low) = split_nibbles(arg);
        if effect == 0x0 {
            Some(Effect::Arpeggio { x: high, y: low })
        } else if effect == 0x1 {
            Some(Effect::PortamentoUp(arg as u16))
        } else if effect == 0x2 {
            Some(Effect::PortamentoDown(arg as u16))
        } else if effect == 0x3 {
            Some(Effect::TonePortamento(arg as u16))
        } else if effect == 0x4 {
            Some(Effect::Vibrato { speed: high, depth: low })
        } else if effect == 0xA {
            Some(Effect::VolumeSlide { slide_up: high, slide_down: low })
        } else if effect == 0xB {
            Some(
                Effect::PositionJump(
                    if arg < 128 {
                        arg
                    } else {
                        0
                    },
                ),
            )
        } else if effect == 0xC {
            Some(
                Effect::SetVolume(
                    if arg <= MAX_VOLUME {
                        arg
                    } else {
                        MAX_VOLUME
                    },
                ),
            )
        } else if effect == 0xD {
            let row = high * 10 + low;
            Some(
                Effect::PatternBreak(
                    if row < 64 {
                        row
                    } else {
                        0
                    },
                ),
            )
        } else if effect == 0xE {
            if high == 0x1 {
                Some(Effect::ExtendedEffect(SubEffect::FinePortamentoUp(low as u16)))
            } else if high == 0x2 {
                Some(Effect::ExtendedEffect(SubEffect::FinePortamentoDown(low as u16)))
            } else if high == 0x9 {
                Some(Effect::ExtendedEffect(SubEffect::RetriggerNote(low)))
            } else {
                None
            }
        } else if effect == 0xF {
            if arg <= MAX_SPEED {
                Some(Effect::SetSpeed(arg))
            } else {
                Some(Effect::SetTempo(arg))
            }
        } else {
            None
        }
    }
}

} // verus!
