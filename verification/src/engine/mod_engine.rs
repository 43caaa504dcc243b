//! The player of modules: a sequencer that walks the order table row by
//! row and tick by tick, and a mixer that renders its channels.

pub use crate::engine::channel::ChannelState;
use crate::engine::effects::Effect;
use crate::engine::effects::RowCommand;
use crate::engine::effects::MAX_SPEED;
use crate::engine::channel::FULL_SCALE;
use crate::engine::mixer::channels_after_frame;
use crate::engine::mixer::channels_after_frames;
use crate::engine::mixer::clamped;
use crate::engine::mixer::frame_lanes;
use crate::engine::mixer::lemma_rendered_lanes_len;
use crate::engine::mixer::mixed_left;
use crate::engine::mixer::mixed_right;
use crate::engine::mixer::rendered_lanes;
use crate::song::Note;
use crate::song::PCMData;
use crate::song::Song;
use crate::song::ORDER_TABLE_LEN;
use crate::song::ROWS_PER_PATTERN;
use vstd::arithmetic::div_mod::lemma_div_is_ordered_by_denominator;
use vstd::arithmetic::div_mod::lemma_fundamental_div_mod_converse;
use vstd::prelude::*;

verus! {

/// Ticks in a row before a song says otherwise.
pub const INITIAL_SPEED: u8 = 6;

/// Beats per minute before a song says otherwise.
pub const INITIAL_TEMPO: u16 = 125;

/// Microseconds that a tick lasts at one beat per minute.
pub const TICK_MICROS_PER_BEAT: u32 = 2_500_000;

/// The output frames in one tick: two and a half seconds' worth of them,
/// divided by the tempo and rounded down.
pub open spec fn frames_per_tick(sample_rate: u32, tempo: u16) -> int {
    (sample_rate * 5) / (tempo * 2)
}

/// Whether the effect of `note` asks nothing of the sequencer: it is no
/// jump, no break, and sets neither speed nor tempo.
pub open spec fn asks_nothing(note: Note) -> bool {
    match Effect::decoded(note.effect, note.argument) {
        Some(effect) => ChannelState::asked(effect, 0) is None,
        None => true,
    }
}

/// Whether no effect in pattern `pattern` of `song` asks anything of the
/// sequencer.
pub open spec fn is_plain_pattern(song: Song, pattern: int) -> bool {
    forall|row: int, channel: int|
        0 <= row < ROWS_PER_PATTERN && 0 <= channel < song.metadata.channel_count
            ==> asks_nothing(#[trigger] song.note(pattern, row, channel))
}

/// The state of playback: where in the song the sequencer stands, how fast
/// it goes, what each channel does, and the clock of the audio output.
pub struct Sequencer {
    /// The position in the order table; 128, behind its last entry, once a
    /// song that does not loop is over.
    pub current_pattern: usize,
    pub current_row: usize,
    pub tick: u8,
    /// Ticks per row. At 0 a row lasts one tick, as at 1.
    pub speed: u8,
    /// Beats per minute.
    pub tempo: u16,
    /// Whether the song starts over behind the last position.
    pub looping: bool,
    /// Where a position jump of this row goes when the row is over.
    pub pending_position: Option<u8>,
    /// Where a pattern break of this row goes when the row is over.
    pub pending_row: Option<u8>,
    pub channels: Seq<ChannelState>,
    /// Output frames per second; 0 while no output is set up.
    pub sample_rate: u32,
    /// Lanes of an output frame.
    pub channel_count: u16,
    /// Output frames rendered since the last tick.
    pub samples_since_tick: usize,
}

impl Sequencer {
    /// The state in which playback of `song` begins.
    pub open spec fn initial(song: Song) -> Sequencer {
        Sequencer {
            current_pattern: 0,
            current_row: 0,
            tick: 0,
            speed: INITIAL_SPEED,
            tempo: INITIAL_TEMPO,
            looping: true,
            pending_position: None,
            pending_row: None,
            channels: Seq::new(
                song.metadata.channel_count as nat,
                |i: int| ChannelState::initial(),
            ),
            sample_rate: 0,
            channel_count: 0,
            samples_since_tick: 0,
        }
    }

    /// Whether the state is one that playback of `song` can be in.
    pub open spec fn wf(self, song: Song) -> bool {
        &&& self.current_row < ROWS_PER_PATTERN
        &&& self.current_pattern <= ORDER_TABLE_LEN
        &&& self.looping ==> self.current_pattern < ORDER_TABLE_LEN
        &&& self.tick == 0 || self.tick < self.speed
        &&& self.tempo > MAX_SPEED
        &&& self.pending_position is Some ==> self.pending_position->0 < ORDER_TABLE_LEN
        &&& self.pending_row is Some ==> self.pending_row->0 < ROWS_PER_PATTERN
        &&& self.channels.len() == song.metadata.channel_count
        &&& forall|i: int| 0 <= i < self.channels.len() ==> (#[trigger] self.channels[i]).wf()
    }

    /// The output frames in one tick.
    pub open spec fn samples_per_tick(self) -> int {
        frames_per_tick(self.sample_rate, self.tempo)
    }

    /// Whether the song is over: the position has gone behind the last
    /// entry of the order table and has not started over.
    pub open spec fn finished(self) -> bool {
        self.current_pattern >= ORDER_TABLE_LEN
    }

    /// The pattern that the order table names at the current position.
    pub open spec fn playing(self, song: Song) -> int {
        song.metadata.pattern_table@[self.current_pattern as int] as int
    }

    /// The note that the current row holds for `channel`.
    pub open spec fn note_for(self, song: Song, channel: int) -> Note {
        song.note(self.playing(song), self.current_row as int, channel)
    }

    /// Channel `channel` as its effect finds it at this tick: shown the
    /// note of the row if the tick is the first.
    pub open spec fn sounding(self, song: Song, channel: int) -> ChannelState {
        if self.tick == 0 {
            self.channels[channel].triggered(
                self.note_for(song, channel),
                song.metadata.samples@,
            )
        } else {
            self.channels[channel]
        }
    }

    /// The channels after this tick.
    pub open spec fn ticked_channels(self, song: Song) -> Seq<ChannelState> {
        Seq::new(
            self.channels.len(),
            |i: int| self.sounding(song, i).after_effect(self.tick).with_step(self.sample_rate),
        )
    }

    /// The state after the sequencer has done what `command` asks. Jumps
    /// wait for the end of the row; speed and tempo hold at once, and with
    /// the tempo the length of a tick.
    pub open spec fn obeying(self, command: Option<RowCommand>) -> Sequencer {
        match command {
            Some(RowCommand::PositionJump(position)) => Sequencer {
                pending_position: Some(position),
                ..self
            },
            Some(RowCommand::PatternBreak(row)) => Sequencer { pending_row: Some(row), ..self },
            Some(RowCommand::SetSpeed(speed)) => Sequencer { speed, ..self },
            Some(RowCommand::SetTempo(tempo)) => Sequencer { tempo: tempo as u16, ..self },
            None => self,
        }
    }

    /// The state after the sequencer has done, in the order of the
    /// channels, what the effects of the first `count` channels ask at this
    /// tick of `playing`.
    pub open spec fn obeying_channels(self, playing: Sequencer, song: Song, count: nat) -> Sequencer
        decreases count,
    {
        if count == 0 {
            self
        } else {
            self.obeying_channels(playing, song, (count - 1) as nat).obeying(
                playing.sounding(song, count - 1).command(playing.tick),
            )
        }
    }

    /// The position behind `position`: the next entry of the order table,
    /// and behind the last entry the first again where the song loops, or
    /// the end of the song where it does not.
    pub open spec fn settled(self, position: int) -> usize {
        if position < ORDER_TABLE_LEN {
            position as usize
        } else if self.looping {
            0
        } else {
            ORDER_TABLE_LEN
        }
    }

    /// The state at the start of the row that follows the current one. A
    /// jump or a break that waits is taken: the jump names the position,
    /// and the break the row of the position that follows. Otherwise the
    /// next row follows, and the next position behind the last row.
    pub open spec fn at_next_row(self) -> Sequencer {
        let jumping = self.pending_position is Some || self.pending_row is Some;
        let position = if jumping {
            match self.pending_position {
                Some(position) => position as int,
                None => self.current_pattern + 1,
            }
        } else if self.current_row + 1 == ROWS_PER_PATTERN {
            self.current_pattern + 1
        } else {
            self.current_pattern as int
        };
        let row = if jumping {
            match self.pending_row {
                Some(row) => row as usize,
                None => 0,
            }
        } else if self.current_row + 1 == ROWS_PER_PATTERN {
            0
        } else {
            (self.current_row + 1) as usize
        };
        Sequencer {
            current_pattern: self.settled(position),
            current_row: if self.settled(position) == ORDER_TABLE_LEN {
                0
            } else {
                row
            },
            tick: 0,
            pending_position: None,
            pending_row: None,
            ..self
        }
    }

    /// The state after `ticks` ticks.
    pub open spec fn after_ticks(self, song: Song, ticks: nat) -> Sequencer
        decreases ticks,
    {
        if ticks == 0 {
            self
        } else {
            self.after_ticks(song, (ticks - 1) as nat).next_tick(song)
        }
    }

    /// The state after the sequencer has done what the effects of all
    /// channels ask at this tick.
    pub open spec fn obeyed(self, song: Song) -> Sequencer {
        self.obeying_channels(self, song, self.channels.len())
    }

    /// The ticks that the current row lasts, seen from its first tick: as
    /// many as the speed says once the effects of the row have had their
    /// say, and one where it says none.
    pub open spec fn row_ticks(self, song: Song) -> nat {
        if self.obeyed(song).speed == 0 {
            1
        } else {
            self.obeyed(song).speed as nat
        }
    }

    /// The state after the ticks that the rendered frames have paid for
    /// have been played: as long as a tick's worth of frames has been
    /// rendered since the last tick, a tick is played and its frames, at
    /// the length that it began with, are taken off the count. While a
    /// tick has no frames at all, none is played.
    pub open spec fn caught_up(self, song: Song) -> Sequencer
        decreases self.samples_since_tick,
    {
        if self.samples_per_tick() <= 0 || self.samples_since_tick < self.samples_per_tick() {
            self
        } else {
            (Sequencer {
                samples_since_tick: (self.samples_since_tick - self.samples_per_tick()) as usize,
                ..self.next_tick(song)
            }).caught_up(song)
        }
    }

    /// The state with `frames` more frames counted as rendered since the
    /// last tick. The count stops at the highest number that it can hold.
    pub open spec fn counting(self, frames: nat) -> Sequencer {
        Sequencer {
            samples_since_tick: if self.samples_since_tick + frames > usize::MAX {
                usize::MAX
            } else {
                (self.samples_since_tick + frames) as usize
            },
            ..self
        }
    }

    /// The frames that fit a buffer of `places` places: none while the
    /// output has no lanes.
    pub open spec fn frames_in(self, places: int) -> nat {
        if self.channel_count == 0 {
            0
        } else {
            (places / self.channel_count as int) as nat
        }
    }

    /// The state after `frames` output frames have been rendered: playback
    /// of every channel has moved on, and nothing else has.
    pub open spec fn rendered(self, song: Song, frames: nat) -> Sequencer {
        Sequencer { channels: channels_after_frames(self.channels, song, frames), ..self }
    }

    /// What a buffer holds after it has been filled: the lanes of as many
    /// frames as fit it, frame after frame, and behind them what it held
    /// before.
    pub open spec fn filled(self, song: Song, buffer: Seq<i32>) -> Seq<i32> {
        let frames = self.frames_in(buffer.len() as int);
        rendered_lanes(self.channels, song, self.channel_count as int, frames) + buffer.subrange(
            frames * self.channel_count,
            buffer.len() as int,
        )
    }

    /// The state after one tick. On a song that is over nothing moves.
    /// Otherwise every channel is shown its note if the tick is the first
    /// of its row, has its effect applied and its step set; the sequencer
    /// does what the effects ask; and the tick counter moves on, into the
    /// next row when it reaches the speed.
    pub open spec fn next_tick(self, song: Song) -> Sequencer {
        if self.finished() {
            self
        } else {
            let played = Sequencer {
                channels: self.ticked_channels(song),
                ..self.obeying_channels(self, song, self.channels.len())
            };
            if played.tick + 1 >= played.speed {
                played.at_next_row()
            } else {
                Sequencer { tick: (played.tick + 1) as u8, ..played }
            }
        }
    }
}

/// What the effects of a tick ask of the sequencer touches nothing but
/// speed, tempo and the jumps that wait; it leaves a tempo and waiting jumps
/// in their ranges; and behind the first tick of a row nothing is asked.
pub proof fn lemma_obeying_channels(state: Sequencer, playing: Sequencer, song: Song, count: nat)
    ensures
        state.obeying_channels(playing, song, count) == (Sequencer {
            speed: state.obeying_channels(playing, song, count).speed,
            tempo: state.obeying_channels(playing, song, count).tempo,
            pending_position: state.obeying_channels(playing, song, count).pending_position,
            pending_row: state.obeying_channels(playing, song, count).pending_row,
            ..state
        }),
        playing.tick != 0 ==> state.obeying_channels(playing, song, count) == state,
        state.tempo > MAX_SPEED ==> state.obeying_channels(playing, song, count).tempo
            > MAX_SPEED,
        (state.pending_position is Some ==> state.pending_position->0 < ORDER_TABLE_LEN) ==> {
            let obeyed = state.obeying_channels(playing, song, count);
            obeyed.pending_position is Some ==> obeyed.pending_position->0 < ORDER_TABLE_LEN
        },
        (state.pending_row is Some ==> state.pending_row->0 < ROWS_PER_PATTERN) ==> {
            let obeyed = state.obeying_channels(playing, song, count);
            obeyed.pending_row is Some ==> obeyed.pending_row->0 < ROWS_PER_PATTERN
        },
    decreases count,
{
    if count > 0 {
        lemma_obeying_channels(state, playing, song, (count - 1) as nat);
    }
}

/// Playback stays in states that it can be in: a tick takes such a state of
/// a song whose parts fit together to another such state. In particular no
/// tick takes the volume of a channel out of its range.
pub proof fn lemma_next_tick_keeps_wf(state: Sequencer, song: Song)
    requires
        song.wf(),
        state.wf(song),
    ensures
        state.next_tick(song).wf(song),
{
    if !state.finished() {
        lemma_obeying_channels(state, state, song, state.channels.len());
        let ticked = state.ticked_channels(song);
        assert forall|i: int| 0 <= i < ticked.len() implies (#[trigger] ticked[i]).wf() by {
            crate::engine::channel::lemma_trigger_keeps_volume(
                state.channels[i],
                state.note_for(song, i),
                song.metadata.samples@,
            );
            crate::engine::channel::lemma_volume_stays_in_range(state.sounding(song, i), 0);
        }
    }
}

/// Within a row only the tick counter and the channels move: from the
/// first tick of a row on, and for fewer ticks than the row lasts, the
/// sequencer stays in the row, with the speed, the tempo and the jumps that
/// the effects of the row have asked for at its first tick.
pub proof fn lemma_ticks_within_row(state: Sequencer, song: Song, ticks: nat)
    requires
        song.wf(),
        state.wf(song),
        !state.finished(),
        state.tick == 0,
        1 <= ticks < state.row_ticks(song),
    ensures
        state.after_ticks(song, ticks).wf(song),
        state.after_ticks(song, ticks) == (Sequencer {
            tick: ticks as u8,
            channels: state.after_ticks(song, ticks).channels,
            ..state.obeyed(song)
        }),
    decreases ticks,
{
    lemma_obeying_channels(state, state, song, state.channels.len());
    if ticks == 1 {
        lemma_next_tick_keeps_wf(state, song);
        assert(state.after_ticks(song, 0) == state);
    } else {
        lemma_ticks_within_row(state, song, (ticks - 1) as nat);
        let earlier = state.after_ticks(song, (ticks - 1) as nat);
        lemma_next_tick_keeps_wf(earlier, song);
        lemma_obeying_channels(earlier, earlier, song, earlier.channels.len());
    }
}

/// A row lasts as many ticks as the speed says, and one where the speed
/// says none: that many ticks from the first tick of a row on, the
/// sequencer stands at the first tick of the row that follows.
pub proof fn lemma_row_lasts_its_ticks(state: Sequencer, song: Song)
    requires
        song.wf(),
        state.wf(song),
        !state.finished(),
        state.tick == 0,
    ensures
        state.after_ticks(song, state.row_ticks(song)) == (Sequencer {
            channels: state.after_ticks(song, state.row_ticks(song)).channels,
            ..state.obeyed(song)
        }).at_next_row(),
{
    let ticks = state.row_ticks(song);
    lemma_obeying_channels(state, state, song, state.channels.len());
    if ticks == 1 {
        assert(state.after_ticks(song, 0) == state);
    } else {
        lemma_ticks_within_row(state, song, (ticks - 1) as nat);
        let earlier = state.after_ticks(song, (ticks - 1) as nat);
        lemma_obeying_channels(earlier, earlier, song, earlier.channels.len());
    }
}

/// Ticks add up: playing some ticks and then some more is playing them all.
pub proof fn lemma_ticks_add_up(state: Sequencer, song: Song, first: nat, more: nat)
    ensures
        state.after_ticks(song, first + more) == state.after_ticks(song, first).after_ticks(
            song,
            more,
        ),
    decreases more,
{
    if more > 0 {
        lemma_ticks_add_up(state, song, first, (more - 1) as nat);
    }
}

/// Playback stays in states that it can be in, however many ticks are
/// played.
pub proof fn lemma_ticks_keep_wf(state: Sequencer, song: Song, ticks: nat)
    requires
        song.wf(),
        state.wf(song),
    ensures
        state.after_ticks(song, ticks).wf(song),
    decreases ticks,
{
    if ticks > 0 {
        lemma_ticks_keep_wf(state, song, (ticks - 1) as nat);
        lemma_next_tick_keeps_wf(state.after_ticks(song, (ticks - 1) as nat), song);
    }
}

/// Where no effect of the row asks anything of the sequencer, the
/// sequencer is left as it is.
proof fn lemma_plain_row_asks_nothing(state: Sequencer, song: Song, count: nat)
    requires
        song.wf(),
        state.wf(song),
        !state.finished(),
        count <= state.channels.len(),
        is_plain_pattern(song, state.playing(song)),
    ensures
        state.obeying_channels(state, song, count) == state,
    decreases count,
{
    if count > 0 {
        lemma_plain_row_asks_nothing(state, song, (count - 1) as nat);
        assert(asks_nothing(song.note(state.playing(song), state.current_row as int, count - 1)));
    }
}

/// In a pattern without jumps, breaks and changes of speed, rows follow
/// each other at the pace of the speed: `rows * speed` ticks from the first
/// tick of the pattern on, the sequencer stands at the first tick of row
/// `rows`.
proof fn lemma_plain_rows(state: Sequencer, song: Song, rows: nat)
    requires
        song.wf(),
        state.wf(song),
        !state.finished(),
        state.tick == 0,
        state.current_row == 0,
        state.speed >= 1,
        state.pending_position is None,
        state.pending_row is None,
        is_plain_pattern(song, state.playing(song)),
        rows < ROWS_PER_PATTERN,
    ensures
        state.after_ticks(song, rows * state.speed as nat) == (Sequencer {
            current_row: rows as usize,
            channels: state.after_ticks(song, rows * state.speed as nat).channels,
            ..state
        }),
    decreases rows,
{
    let speed = state.speed as nat;
    if rows == 0 {
        assert(rows * speed == 0) by (nonlinear_arith)
            requires
                rows == 0,
        ;
    } else {
        lemma_plain_rows(state, song, (rows - 1) as nat);
        let ticks = (rows - 1) as nat * speed;
        assert(rows * speed == ticks + speed) by (nonlinear_arith)
            requires
                ticks == (rows - 1) * speed,
                rows >= 1,
        ;
        let row = state.after_ticks(song, ticks);
        lemma_ticks_keep_wf(state, song, ticks);
        lemma_plain_row_asks_nothing(row, song, row.channels.len());
        lemma_row_lasts_its_ticks(row, song);
        lemma_ticks_add_up(state, song, ticks, speed);
    }
}

/// A pattern without jumps, breaks and changes of speed lasts sixty-four
/// rows of as many ticks as the speed says: that many ticks from its first
/// tick on, the sequencer stands at the first tick of the first row of the
/// position that follows, at the same speed and tempo.
pub proof fn lemma_plain_pattern_lasts_its_rows(state: Sequencer, song: Song)
    requires
        song.wf(),
        state.wf(song),
        !state.finished(),
        state.tick == 0,
        state.current_row == 0,
        state.speed >= 1,
        state.pending_position is None,
        state.pending_row is None,
        is_plain_pattern(song, state.playing(song)),
    ensures
        state.after_ticks(song, ROWS_PER_PATTERN as nat * state.speed as nat) == (Sequencer {
            current_pattern: state.settled(state.current_pattern + 1),
            channels: state.after_ticks(
                song,
                ROWS_PER_PATTERN as nat * state.speed as nat,
            ).channels,
            ..state
        }),
{
    let speed = state.speed as nat;
    let ticks = 63 * speed;
    lemma_plain_rows(state, song, 63);
    let row = state.after_ticks(song, ticks);
    lemma_ticks_keep_wf(state, song, ticks);
    lemma_plain_row_asks_nothing(row, song, row.channels.len());
    lemma_row_lasts_its_ticks(row, song);
    lemma_ticks_add_up(state, song, ticks, speed);
    assert(ROWS_PER_PATTERN as nat * speed == ticks + speed);
}

/// Puts `state` in the place of channel `index`.
fn put_channel(channels: &mut Vec<ChannelState>, index: usize, state: ChannelState)
    requires
        index < old(channels)@.len(),
    ensures
        final(channels)@ == old(channels)@.update(index as int, state),
    no_unwind
{
    channels[index] = state;
}

/// Holds a mixed level to full scale.
fn clamp_level(level: i64) -> (held: i32)
    ensures
        held == clamped(level as int),
{
    if level > FULL_SCALE as i64 {
        FULL_SCALE
    } else if level < -(FULL_SCALE as i64) {
        -FULL_SCALE
    } else {
        level as i32
    }
}

/// The player of a module: the song, and the state of its playback.
#[derive(Debug)]
pub struct ModEngine {
    song: Song,
    current_row: usize,
    current_pattern: usize,
    tick: u8,
    speed: u8,
    tempo: u16,
    looping: bool,
    pending_position: Option<u8>,
    pending_row: Option<u8>,
    channels: Vec<ChannelState>,
    sample_rate: u32,
    channel_count: u16,
    samples_since_tick: usize,
}

impl View for ModEngine {
    type V = Sequencer;

    closed spec fn view(&self) -> Sequencer {
        Sequencer {
            current_pattern: self.current_pattern,
            current_row: self.current_row,
            tick: self.tick,
            speed: self.speed,
            tempo: self.tempo,
            looping: self.looping,
            pending_position: self.pending_position,
            pending_row: self.pending_row,
            channels: self.channels@,
            sample_rate: self.sample_rate,
            channel_count: self.channel_count,
            samples_since_tick: self.samples_since_tick,
        }
    }
}

impl ModEngine {
    #[verifier::type_invariant]
    spec fn consistent(self) -> bool {
        self.song.wf() && self@.wf(self.song)
    }

    /// The song that is played.
    pub closed spec fn spec_song(&self) -> Song {
        self.song
    }

    /// A player at the start of `song`, with no output set up.
    pub fn new(song: Song) -> (engine: ModEngine)
        requires
            song.wf(),
        ensures
            engine.spec_song() == song,
            engine@ == Sequencer::initial(song),
            engine@.wf(song),
    {
        let mut channels: Vec<ChannelState> = Vec::with_capacity(
            song.metadata.channel_count as usize,
        );
        let mut index: u8 = 0;
        while index < song.metadata.channel_count
            invariant
                index <= song.metadata.channel_count,
                channels@.len() == index,
                forall|i: int| 0 <= i < index ==> channels@[i] == ChannelState::initial(),
            decreases song.metadata.channel_count - index,
        {
            channels.push(ChannelState::default());
            index = index + 1;
        }
        assert(channels@ =~= Sequencer::initial(song).channels);
        ModEngine {
            song,
            current_row: 0,
            current_pattern: 0,
            tick: 0,
            speed: INITIAL_SPEED,
            tempo: INITIAL_TEMPO,
            looping: true,
            pending_position: None,
            pending_row: None,
            channels,
            sample_rate: 0,
            channel_count: 0,
            samples_since_tick: 0,
        }
    }

    /// The song that is played.
    pub fn song(&self) -> (song: &Song)
        ensures
            *song == self.spec_song(),
            song.wf(),
            self@.wf(*song),
    {
        proof {
            use_type_invariant(self);
        }
        &self.song
    }

    /// The position in the order table.
    pub fn current_pattern(&self) -> (position: usize)
        ensures
            position == self@.current_pattern,
    {
        self.current_pattern
    }

    /// The row in the pattern.
    pub fn current_row(&self) -> (row: usize)
        ensures
            row == self@.current_row,
    {
        self.current_row
    }

    /// The tick in the row.
    pub fn tick(&self) -> (tick: u8)
        ensures
            tick == self@.tick,
    {
        self.tick
    }

    /// Ticks per row.
    pub fn speed(&self) -> (speed: u8)
        ensures
            speed == self@.speed,
    {
        self.speed
    }

    /// Beats per minute.
    pub fn tempo(&self) -> (tempo: u16)
        ensures
            tempo == self@.tempo,
    {
        self.tempo
    }

    /// What each channel of the song is doing.
    pub fn channels(&self) -> (channels: &Vec<ChannelState>)
        ensures
            channels@ == self@.channels,
    {
        &self.channels
    }

    /// Whether the song starts over behind its last position.
    pub fn looping(&self) -> (looping: bool)
        ensures
            looping == self@.looping,
    {
        self.looping
    }

    /// Whether the song is over. A song that loops never is.
    pub fn is_finished(&self) -> (finished: bool)
        ensures
            finished == self@.finished(),
            self@.looping ==> !finished,
    {
        proof {
            use_type_invariant(self);
        }
        self.current_pattern >= ORDER_TABLE_LEN
    }

    /// Does what an effect asks of the sequencer.
    fn obey(&mut self, command: Option<RowCommand>)
        requires
            old(self).tick == 0 || command is None,
            command matches Some(RowCommand::PositionJump(position)) ==> position
                < ORDER_TABLE_LEN,
            command matches Some(RowCommand::PatternBreak(row)) ==> row < ROWS_PER_PATTERN,
            command matches Some(RowCommand::SetTempo(tempo)) ==> tempo > MAX_SPEED,
        ensures
            final(self).song == old(self).song,
            final(self)@ == old(self)@.obeying(command),
    {
        proof {
            use_type_invariant(&*self);
        }
        match command {
            Some(RowCommand::PositionJump(position)) => {
                self.pending_position = Some(position);
            },
            Some(RowCommand::PatternBreak(row)) => {
                self.pending_row = Some(row);
            },
            Some(RowCommand::SetSpeed(speed)) => {
                self.speed = speed;
            },
            Some(RowCommand::SetTempo(tempo)) => {
                self.tempo = tempo as u16;
            },
            None => {},
        }
    }

    /// Moves to the start of the row that follows the current one.
    fn advance_row(&mut self)
        requires
            !old(self)@.finished(),
        ensures
            final(self).song == old(self).song,
            final(self)@ == old(self)@.at_next_row(),
    {
        proof {
            use_type_invariant(&*self);
        }
        let jumping = self.pending_position.is_some() || self.pending_row.is_some();
        let mut position = self.current_pattern;
        let mut row = self.current_row + 1;
        if jumping {
            position = match self.pending_position {
                Some(position) => position as usize,
                None => position + 1,
            };
            row = match self.pending_row {
                Some(row) => row as usize,
                None => 0,
            };
        } else if row == ROWS_PER_PATTERN {
            position = position + 1;
            row = 0;
        }
        if position >= ORDER_TABLE_LEN {
            if self.looping {
                position = 0;
            } else {
                position = ORDER_TABLE_LEN;
                row = 0;
            }
        }
        self.tick = 0;
        self.pending_position = None;
        self.pending_row = None;
        self.current_row = row;
        self.current_pattern = position;
    }

    /// Plays one tick. On a song that is over nothing moves.
    pub fn next_tick(&mut self)
        ensures
            final(self).spec_song() == old(self).spec_song(),
            final(self)@ == old(self)@.next_tick(old(self).spec_song()),
            final(self)@.wf(final(self).spec_song()),
            final(self)@.looping == old(self)@.looping,
    {
        proof {
            use_type_invariant(&*self);
        }
        if self.current_pattern >= ORDER_TABLE_LEN {
            return ;
        }
        let ghost before = self@;
        let ghost song = self.song;
        proof {
            crate::song::lemma_highest_entry_bounds(song.metadata.pattern_table@);
        }
        let playing = self.song.metadata.pattern_table[self.current_pattern] as usize;
        assert(song.pattern_wf(playing as int));
        let tick = self.tick;
        let count = self.channels.len();
        let mut index: usize = 0;
        while index < count
            invariant
                index <= count,
                count == before.channels.len(),
                self.song == song,
                song.wf(),
                before.wf(song),
                !before.finished(),
                before == old(self)@,
                tick == before.tick,
                self.tick == before.tick,
                self.current_row == before.current_row,
                self.current_pattern == before.current_pattern,
                self.sample_rate == before.sample_rate,
                self.looping == before.looping,
                playing == before.playing(song),
                playing < song.patterns@.len(),
                song.pattern_wf(playing as int),
                self.channels@.len() == count,
                forall|i: int|
                    0 <= i < index ==> #[trigger] self.channels@[i] == before.ticked_channels(
                        song,
                    )[i],
                forall|i: int|
                    index <= i < count ==> #[trigger] self.channels@[i] == before.channels[i],
                (Sequencer { channels: before.channels, ..self@ }) == before.obeying_channels(
                    before,
                    song,
                    index as nat,
                ),
            decreases count - index,
        {
            proof {
                use_type_invariant(&*self);
            }
            let note = self.song.patterns[playing][self.current_row][index];
            let mut channel = self.channels[index];
            if tick == 0 {
                channel.trigger(&note, &self.song.metadata.samples);
            }
            assert(channel == before.sounding(song, index as int));
            assert(channel.wf());
            let command = channel.process_effects(tick);
            channel.update_step(self.sample_rate);
            put_channel(&mut self.channels, index, channel);
            self.obey(command);
            index = index + 1;
        }
        assert(self.channels@ =~= before.ticked_channels(song));
        proof {
            use_type_invariant(&*self);
        }
        if self.tick + 1 >= self.speed {
            self.advance_row();
        } else {
            self.tick = self.tick + 1;
        }
        proof {
            use_type_invariant(&*self);
        }
    }

    /// Mixes one output frame from all channels and moves their playback
    /// on. Returns the left and the right lane, held to full scale.
    fn mix_frame(&mut self) -> (levels: (i32, i32))
        ensures
            final(self).song == old(self).song,
            final(self)@ == (Sequencer {
                channels: channels_after_frame(old(self)@.channels, old(self).song),
                ..old(self)@
            }),
            levels.0 == clamped(mixed_left(old(self)@.channels, old(self).song)),
            levels.1 == clamped(mixed_right(old(self)@.channels, old(self).song)),
    {
        proof {
            use_type_invariant(&*self);
        }
        let ghost before = self@;
        let ghost song = self.song;
        let count = self.channels.len();
        let mut left: i64 = 0;
        let mut right: i64 = 0;
        let mut index: usize = 0;
        while index < count
            invariant
                index <= count,
                count == before.channels.len(),
                count <= 255,
                self.song == song,
                before == old(self)@,
                (Sequencer { channels: before.channels, ..self@ }) == before,
                self.channels@.len() == count,
                forall|i: int|
                    0 <= i < index ==> #[trigger] self.channels@[i] == channels_after_frame(
                        before.channels,
                        song,
                    )[i],
                forall|i: int|
                    index <= i < count ==> #[trigger] self.channels@[i] == before.channels[i],
                left == mixed_left(before.channels.subrange(0, index as int), song),
                right == mixed_right(before.channels.subrange(0, index as int), song),
                FULL_SCALE == 2_088_960,
                -2_088_960 * index <= left <= 2_088_960 * index,
                -2_088_960 * index <= right <= 2_088_960 * index,
            decreases count - index,
        {
            proof {
                use_type_invariant(&*self);
                assert(before.channels.subrange(0, index + 1).drop_last()
                    == before.channels.subrange(0, index as int));
            }
            let mut channel = self.channels[index];
            if channel.sample_index < self.song.samples.len() {
                match &self.song.samples[channel.sample_index] {
                    PCMData::U8(data) => {
                        let (left_share, right_share) = channel.mix(data);
                        left = left + left_share as i64;
                        right = right + right_share as i64;
                        put_channel(&mut self.channels, index, channel);
                    },
                    PCMData::U16(_) => {},
                }
            }
            index = index + 1;
        }
        assert(before.channels.subrange(0, count as int) == before.channels);
        assert(self.channels@ =~= channels_after_frame(before.channels, song));
        (clamp_level(left), clamp_level(right))
    }

    /// Fills `buffer` with interleaved output frames and moves playback on
    /// by as many frames as fit the buffer. Each frame has one place for
    /// each lane of the output: the first holds the left mix, the second
    /// the right mix, any further one silence. A lane at full scale holds
    /// `FULL_SCALE`. Places behind the last whole frame stay as they were,
    /// and so does all of the buffer while the output has no lanes. The
    /// sequencer does not move: ticks are for the caller to play.
    pub fn get_audio_buffer(&mut self, buffer: &mut Vec<i32>)
        ensures
            final(self).spec_song() == old(self).spec_song(),
            final(self)@ == old(self)@.rendered(
                old(self).spec_song(),
                old(self)@.frames_in(old(buffer)@.len() as int),
            ),
            final(buffer)@ == old(self)@.filled(old(self).spec_song(), old(buffer)@),
            final(buffer)@.len() == old(buffer)@.len(),
    {
        proof {
            use_type_invariant(&*self);
        }
        let ghost before = self@;
        let ghost song = self.song;
        let ghost held = buffer@;
        let lanes = self.channel_count as usize;
        let places = buffer.len();
        if lanes == 0 {
            assert(buffer@ =~= before.filled(song, held));
            return ;
        }
        let mut base: usize = 0;
        let ghost mut frame: nat = 0;
        while lanes <= places - base
            invariant
                lanes == before.channel_count,
                lanes > 0,
                places == held.len(),
                buffer@.len() == places,
                base <= places,
                base == frame * lanes,
                self.song == song,
                before == old(self)@,
                self@ == before.rendered(song, frame),
                buffer@.subrange(0, base as int) == rendered_lanes(
                    before.channels,
                    song,
                    lanes as int,
                    frame,
                ),
                buffer@.subrange(base as int, places as int) == held.subrange(
                    base as int,
                    places as int,
                ),
            decreases places - base,
        {
            let (left, right) = self.mix_frame();
            let ghost levels = frame_lanes(
                channels_after_frames(before.channels, song, frame),
                song,
                lanes as int,
            );
            let ghost filled_before = buffer@;
            let mut lane: usize = 0;
            while lane < lanes
                invariant
                    lane <= lanes,
                    base + lanes <= places,
                    buffer@.len() == places,
                    filled_before.len() == places,
                    levels.len() == lanes,
                    levels[0] == left,
                    lanes > 1 ==> levels[1] == right,
                    forall|l: int| 2 <= l < lanes ==> levels[l] == 0,
                    buffer@.subrange(0, base as int) == filled_before.subrange(0, base as int),
                    buffer@.subrange(base as int, base + lane) == levels.subrange(0, lane as int),
                    buffer@.subrange(base + lane, places as int) == filled_before.subrange(
                        base + lane,
                        places as int,
                    ),
                decreases lanes - lane,
            {
                let level = if lane == 0 {
                    left
                } else if lane == 1 {
                    right
                } else {
                    0
                };
                let ghost earlier = buffer@;
                buffer[base + lane] = level;
                proof {
                    assert(buffer@ == earlier.update(base + lane, level));
                    assert(buffer@.subrange(0, base as int) =~= earlier.subrange(0, base as int));
                    assert(buffer@.subrange(base as int, base + lane + 1) =~= levels.subrange(
                        0,
                        lane + 1,
                    )) by {
                        assert forall|k: int| 0 <= k < lane + 1 implies #[trigger] buffer@.subrange(
                            base as int,
                            base + lane + 1,
                        )[k] == levels[k] by {
                            if k < lane {
                                assert(earlier.subrange(base as int, base + lane)[k] == levels[k]);
                            }
                        }
                    }
                    assert(buffer@.subrange(base + lane + 1, places as int)
                        =~= filled_before.subrange(base + lane + 1, places as int)) by {
                        assert forall|k: int| 0 <= k < places - (base + lane + 1) implies
                            #[trigger] buffer@.subrange(base + lane + 1, places as int)[k]
                            == filled_before.subrange(base + lane + 1, places as int)[k] by {
                            assert(earlier.subrange(base + lane, places as int)[k + 1]
                                == filled_before.subrange(base + lane, places as int)[k + 1]);
                        }
                    }
                }
                lane = lane + 1;
            }
            proof {
                assert(levels.subrange(0, lanes as int) == levels);
                assert(buffer@.subrange(0, base + lanes) =~= buffer@.subrange(0, base as int)
                    + buffer@.subrange(base as int, base + lanes));
                assert((frame + 1) * lanes == frame * lanes + lanes) by (nonlinear_arith);
                assert(buffer@.subrange(base + lanes, places as int) =~= held.subrange(
                    base + lanes,
                    places as int,
                )) by {
                    assert forall|k: int| 0 <= k < places - (base + lanes) implies #[trigger] buffer@.subrange(
                        base + lanes,
                        places as int,
                    )[k] == held.subrange(base + lanes, places as int)[k] by {
                        assert(filled_before.subrange(base as int, places as int)[k + lanes]
                            == held.subrange(base as int, places as int)[k + lanes]);
                    }
                }
                frame = frame + 1;
            }
            base = base + lanes;
        }
        proof {
            lemma_fundamental_div_mod_converse(
                places as int,
                lanes as int,
                frame as int,
                places - base,
            );
            assert(frame == before.frames_in(held.len() as int));
            lemma_rendered_lanes_len(before.channels, song, lanes as int, frame);
            assert(buffer@ =~= buffer@.subrange(0, base as int) + buffer@.subrange(
                base as int,
                places as int,
            ));
        }
    }

    /// Fills `buffer` as `get_audio_buffer` does, counts its frames as
    /// rendered, and plays the ticks that the frames rendered since the
    /// last tick have paid for. This is all that an audio output has to
    /// call.
    pub fn render(&mut self, buffer: &mut Vec<i32>)
        ensures
            final(self).spec_song() == old(self).spec_song(),
            final(self)@ == old(self)@.rendered(
                old(self).spec_song(),
                old(self)@.frames_in(old(buffer)@.len() as int),
            ).counting(old(self)@.frames_in(old(buffer)@.len() as int)).caught_up(
                old(self).spec_song(),
            ),
            final(buffer)@ == old(self)@.filled(old(self).spec_song(), old(buffer)@),
            final(self)@.looping == old(self)@.looping,
    {
        let ghost song = self.song;
        self.get_audio_buffer(buffer);
        proof {
            use_type_invariant(&*self);
        }
        let frames = if self.channel_count == 0 {
            0
        } else {
            buffer.len() / self.channel_count as usize
        };
        self.samples_since_tick = self.samples_since_tick.saturating_add(frames);
        let ghost counted = self@;
        loop
            invariant
                self.song == song,
                self@.caught_up(song) == counted.caught_up(song),
                self.looping == counted.looping,
            ensures
                self.song == song,
                self@ == counted.caught_up(song),
                self.looping == counted.looping,
            decreases self.samples_since_tick,
        {
            let per_tick = self.samples_per_tick();
            let since = self.samples_since_tick;
            if per_tick == 0 || since < per_tick {
                break ;
            }
            self.next_tick();
            proof {
                use_type_invariant(&*self);
            }
            self.samples_since_tick = since - per_tick;
        }
    }

    /// Output frames rendered since the last tick.
    pub fn samples_since_tick(&self) -> (frames: usize)
        ensures
            frames == self@.samples_since_tick,
    {
        self.samples_since_tick
    }

    /// Output frames in one tick.
    pub fn samples_per_tick(&self) -> (frames: usize)
        ensures
            frames == self@.samples_per_tick(),
    {
        proof {
            use_type_invariant(self);
            lemma_div_is_ordered_by_denominator(self.sample_rate * 5, 64, self.tempo * 2);
        }
        ((self.sample_rate as u64 * 5) / (self.tempo as u64 * 2)) as usize
    }

    /// Sets the count of output frames rendered since the last tick.
    pub fn set_samples_since_tick(&mut self, value: usize)
        ensures
            final(self).spec_song() == old(self).spec_song(),
            final(self)@ == (Sequencer { samples_since_tick: value, ..old(self)@ }),
    {
        proof {
            use_type_invariant(&*self);
        }
        self.samples_since_tick = value;
    }

    /// Sets the output frames per second, and with them the length of a
    /// tick in frames.
    pub fn set_sample_rate(&mut self, value: u32)
        ensures
            final(self).spec_song() == old(self).spec_song(),
            final(self)@ == (Sequencer { sample_rate: value, ..old(self)@ }),
    {
        proof {
            use_type_invariant(&*self);
        }
        self.sample_rate = value;
    }

    /// Sets the lanes of an output frame.
    pub fn set_channel_count(&mut self, value: u16)
        ensures
            final(self).spec_song() == old(self).spec_song(),
            final(self)@ == (Sequencer { channel_count: value, ..old(self)@ }),
    {
        proof {
            use_type_invariant(&*self);
        }
        self.channel_count = value;
    }

    /// Says whether the song starts over behind its last position, which it
    /// does unless told otherwise. A song that is over starts over when it
    /// is told to loop.
    pub fn set_looping(&mut self, value: bool)
        ensures
            final(self).spec_song() == old(self).spec_song(),
            final(self)@ == (Sequencer {
                looping: value,
                current_pattern: if value && old(self)@.finished() {
                    0
                } else {
                    old(self)@.current_pattern
                },
                ..old(self)@
            }),
    {
        proof {
            use_type_invariant(&*self);
        }
        if value && self.current_pattern >= ORDER_TABLE_LEN {
            self.current_pattern = 0;
        }
        self.looping = value;
    }

    /// Output frames per second.
    pub fn sample_rate(&self) -> (rate: u32)
        ensures
            rate == self@.sample_rate,
    {
        self.sample_rate
    }

    /// Lanes of an output frame.
    pub fn channel_count(&self) -> (lanes: u16)
        ensures
            lanes == self@.channel_count,
    {
        self.channel_count
    }

    /// How long a tick lasts, in microseconds: two and a half seconds
    /// divided by the tempo, rounded down.
    pub fn tick_duration(&self) -> (micros: u32)
        ensures
            micros == TICK_MICROS_PER_BEAT / self@.tempo as u32,
    {
        proof {
            use_type_invariant(self);
        }
        TICK_MICROS_PER_BEAT / self.tempo as u32
    }
}

} // verus!
