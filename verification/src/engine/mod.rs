//! Playback of a decoded song.

use crate::engine::mod_engine::ModEngine;
use crate::engine::mod_engine::Sequencer;
use crate::engine::mod_engine::TICK_MICROS_PER_BEAT;
use crate::song::Song;
use vstd::prelude::*;

pub mod channel;
pub mod effects;
pub mod mixer;
pub mod mod_engine;

verus! {

/// A player, whatever the family of formats that its song comes from.
#[derive(Debug)]
pub enum Engine {
    /// The player of modules, in all their dialects.
    Mod(ModEngine),
}

impl View for Engine {
    type V = Sequencer;

    open spec fn view(&self) -> Sequencer {
        match self {
            Engine::Mod(engine) => engine@,
        }
    }
}

impl Engine {
    /// The song that is played.
    pub open spec fn spec_song(&self) -> Song {
        match self {
            Engine::Mod(engine) => engine.spec_song(),
        }
    }

    /// A player at the start of `song`, with no output set up.
    pub fn new(song: Song) -> (engine: Engine)
        requires
            song.wf(),
        ensures
            engine.spec_song() == song,
            engine@ == Sequencer::initial(song),
            engine@.wf(song),
    {
        Engine::Mod(ModEngine::new(song))
    }

    /// The song that is played.
    pub fn song(&self) -> (song: &Song)
        ensures
            *song == self.spec_song(),
            song.wf(),
            self@.wf(*song),
    {
        match self {
            Engine::Mod(engine) => engine.song(),
        }
    }

    /// Plays one tick. On a song that is over nothing moves.
    pub fn next_tick(&mut self)
        ensures
            final(self).spec_song() == old(self).spec_song(),
            final(self)@ == old(self)@.next_tick(old(self).spec_song()),
            final(self)@.wf(final(self).spec_song()),
            final(self)@.looping == old(self)@.looping,
    {
        match self {
            Engine::Mod(engine) => engine.next_tick(),
        }
    }

    /// Whether the song is over. A song that loops never is.
    pub fn is_finished(&self) -> (finished: bool)
        ensures
            finished == self@.finished(),
            self@.looping ==> !finished,
    {
        match self {
            Engine::Mod(engine) => engine.is_finished(),
        }
    }

    /// Fills `buffer` with interleaved output frames and moves playback on
    /// by as many frames as fit the buffer. The sequencer does not move.
    pub fn get_audio_buffer(&mut self, buffer: &mut Vec<i32>)
        ensures
            final(self).spec_song() == old(self).spec_song(),
            final(self)@ == old(self)@.rendered(
                old(self).spec_song(),
                old(self)@.frames_in(old(buffer)@.len() as int),
            ),
            final(buffer)@ == old(self)@.filled(old(self).spec_song(), old(buffer)@),
            final(buffer)@.len() == old(buffer)@.len(),
    {
        match self {
            Engine::Mod(engine) => engine.get_audio_buffer(buffer),
        }
    }

    /// Fills `buffer`, counts its frames as rendered, and plays the ticks
    /// that the frames rendered since the last tick have paid for.
    pub fn render(&mut self, buffer: &mut Vec<i32>)
        ensures
            final(self).spec_song() == old(self).spec_song(),
            final(self)@ == old(self)@.rendered(
                old(self).spec_song(),
                old(self)@.frames_in(old(buffer)@.len() as int),
            ).counting(old(self)@.frames_in(old(buffer)@.len() as int)).caught_up(
                old(self).spec_song(),
            ),
            final(buffer)@ == old(self)@.filled(old(self).spec_song(), old(buffer)@),
            final(self)@.looping == old(self)@.looping,
    {
        match self {
            Engine::Mod(engine) => engine.render(buffer),
        }
    }

    /// Output frames rendered since the last tick.
    pub fn samples_since_tick(&self) -> (frames: usize)
        ensures
            frames == self@.samples_since_tick,
    {
        match self {
            Engine::Mod(engine) => engine.samples_since_tick(),
        }
    }

    /// Sets the count of output frames rendered since the last tick.
    pub fn set_samples_since_tick(&mut self, value: usize)
        ensures
            final(self).spec_song() == old(self).spec_song(),
            final(self)@ == (Sequencer { samples_since_tick: value, ..old(self)@ }),
    {
        match self {
            Engine::Mod(engine) => engine.set_samples_since_tick(value),
        }
    }

    /// Output frames in one tick.
    pub fn samples_per_tick(&self) -> (frames: usize)
        ensures
            frames == self@.samples_per_tick(),
    {
        match self {
            Engine::Mod(engine) => engine.samples_per_tick(),
        }
    }

    /// Output frames per second.
    pub fn sample_rate(&self) -> (rate: u32)
        ensures
            rate == self@.sample_rate,
    {
        match self {
            Engine::Mod(engine) => engine.sample_rate(),
        }
    }

    /// Sets the output frames per second, and with them the length of a
    /// tick in frames.
    pub fn set_sample_rate(&mut self, value: u32)
        ensures
            final(self).spec_song() == old(self).spec_song(),
            final(self)@ == (Sequencer { sample_rate: value, ..old(self)@ }),
    {
        match self {
            Engine::Mod(engine) => engine.set_sample_rate(value),
        }
    }

    /// Lanes of an output frame.
    pub fn channel_count(&self) -> (lanes: u16)
        ensures
            lanes == self@.channel_count,
    {
        match self {
            Engine::Mod(engine) => engine.channel_count(),
        }
    }

    /// Sets the lanes of an output frame.
    pub fn set_channel_count(&mut self, value: u16)
        ensures
            final(self).spec_song() == old(self).spec_song(),
            final(self)@ == (Sequencer { channel_count: value, ..old(self)@ }),
    {
        match self {
            Engine::Mod(engine) => engine.set_channel_count(value),
        }
    }

    /// Says whether the song starts over behind its last position, which it
    /// does unless told otherwise. A song that is over starts over when it
    /// is told to loop.
    pub fn set_looping(&mut self, value: bool)
        ensures
            final(self).spec_song() == old(self).spec_song(),
            final(self)@ == (Sequencer {
                looping: value,
                current_pattern: if value && old(self)@.finished() {
                    0
                } else {
                    old(self)@.current_pattern
                },
                ..old(self)@
            }),
    {
        match self {
            Engine::Mod(engine) => engine.set_looping(value),
        }
    }

    /// How long a tick lasts, in microseconds.
    pub fn tick_duration(&self) -> (micros: u32)
        ensures
            micros == TICK_MICROS_PER_BEAT / self@.tempo as u32,
    {
        match self {
            Engine::Mod(engine) => engine.tick_duration(),
        }
    }
}

} // verus!
