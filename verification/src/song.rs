//! The parts of a decoded module.

use crate::tracker::Tracker;
use vstd::prelude::*;

verus! {

/// Why a module could not be loaded.
#[derive(Debug, PartialEq, Eq)]
pub enum SongError {
    /// The file could not be opened, or its name does not mark it as a module.
    Io(String),
    /// The content is truncated or malformed: `expected` bytes were wanted at
    /// byte `offset` and could not be had as asked.
    Read { offset: usize, expected: usize },
}

impl SongError {
    /// The byte offset that a read fault names.
    pub open spec fn offset(self) -> int {
        match self {
            SongError::Read { offset, .. } => offset as int,
            SongError::Io(_) => 0,
        }
    }
}

/// One cell of a pattern: what a single channel is told to do on one row.
#[derive(Clone, Copy, Debug, PartialEq, Eq, Structural)]
pub struct Note {
    /// Instrument reference, 1-based; 0 keeps the channel's instrument.
    pub sample: u8,
    /// Twelve-bit pitch divider; 0 triggers no new pitch.
    pub period: u16,
    /// Four-bit effect code.
    pub effect: u8,
    /// Eight-bit effect argument.
    pub argument: u8,
}

impl Note {
    /// The documented ranges of the subfields.
    pub open spec fn wf(self) -> bool {
        self.period < 4096 && self.effect < 16
    }
}

/// The notes of one row, one per channel.
pub type Line = Vec<Note>;

/// The sixty-four rows of one pattern.
pub type Pattern = Vec<Line>;

/// The sample data of one instrument.
#[derive(Debug)]
pub enum PCMData {
    /// Eight-bit samples, each byte one sample.
    U8(Vec<u8>),
    /// Sixteen-bit samples.
    U16(Vec<u16>),
}

/// What the header says of one instrument. Lengths and offsets are in bytes.
#[derive(Debug)]
pub struct Sample {
    pub name: String,
    pub length: u32,
    /// Pitch bias, from -7 to 7.
    pub finetune: i8,
    /// Default volume; the format means it to lie in 0..=64.
    pub volume: u8,
    pub repeat_offset: u32,
    /// Length of the loop; 0 where the instrument does not loop.
    pub repeat_length: u32,
}

/// What the header says of the whole module.
#[derive(Debug)]
pub struct SongMetadata {
    pub name: String,
    /// One more than the highest entry of the order table.
    pub pattern_count: u16,
    pub channel_count: u8,
    /// Instrument `i` of a note is entry `i - 1`.
    pub samples: Vec<Sample>,
    /// The order in which patterns are played, as stored.
    pub pattern_table: Vec<u8>,
    /// The four-character tag; empty in the layout of fifteen instruments.
    pub format: String,
    pub end_jump: i8,
    pub tracker: Tracker,
}

/// A decoded module: header, patterns, and the sample data of each
/// instrument in the order of the header.
#[derive(Debug)]
pub struct Song {
    pub metadata: SongMetadata,
    pub patterns: Vec<Pattern>,
    pub samples: Vec<PCMData>,
}

/// Rows in a pattern.
pub const ROWS_PER_PATTERN: usize = 64;

/// Entries in the order table.
pub const ORDER_TABLE_LEN: usize = 128;

/// The highest entry of `table`; 0 where it has none.
pub open spec fn highest_entry(table: Seq<u8>) -> int
    decreases table.len(),
{
    if table.len() == 0 {
        0
    } else if table.last() > highest_entry(table.drop_last()) {
        table.last() as int
    } else {
        highest_entry(table.drop_last())
    }
}

/// The highest entry is a byte, and no entry lies above it.
pub proof fn lemma_highest_entry_bounds(table: Seq<u8>)
    ensures
        0 <= highest_entry(table) <= 255,
        forall|i: int| 0 <= i < table.len() ==> table[i] <= highest_entry(table),
    decreases table.len(),
{
    if table.len() > 0 {
        lemma_highest_entry_bounds(table.drop_last());
        assert forall|i: int| 0 <= i < table.len() implies table[i] <= highest_entry(table) by {
            if i < table.len() - 1 {
                assert(table.drop_last()[i] == table[i]);
            }
        }
    }
}

/// The highest entry of an order table; 0 where it has none.
pub fn highest_entry_of(table: &Vec<u8>) -> (entry: u8)
    ensures
        entry == highest_entry(table@),
{
    let mut entry: u8 = 0;
    let mut index: usize = 0;
    while index < table.len()
        invariant
            index <= table@.len(),
            entry == highest_entry(table@.subrange(0, index as int)),
        decreases table@.len() - index,
    {
        assert(table@.subrange(0, index + 1).drop_last() == table@.subrange(0, index as int));
        if table[index] > entry {
            entry = table[index];
        }
        index = index + 1;
    }
    assert(table@.subrange(0, index as int) == table@);
    entry
}

impl PCMData {
    /// Whether this is eight-bit data of `length` bytes.
    pub open spec fn is_bytes_of_len(&self, length: int) -> bool {
        self matches PCMData::U8(bytes) && bytes@.len() == length
    }
}

impl Song {
    /// Whether pattern `p` has sixty-four rows of one note per channel.
    pub open spec fn pattern_wf(&self, p: int) -> bool {
        &&& self.patterns@[p]@.len() == ROWS_PER_PATTERN
        &&& forall|r: int|
            0 <= r < ROWS_PER_PATTERN ==> (#[trigger] self.patterns@[p]@[r])@.len()
                == self.metadata.channel_count
    }

    /// Whether the parts of the song fit together: the order table has its
    /// 128 entries, there is one pattern for each number up to the highest
    /// entry, every pattern has sixty-four rows of one note per channel, and
    /// every instrument has eight-bit sample data of the length that its
    /// header gives.
    pub open spec fn wf(&self) -> bool {
        &&& self.metadata.pattern_table@.len() == ORDER_TABLE_LEN
        &&& self.metadata.pattern_count == highest_entry(self.metadata.pattern_table@) + 1
        &&& self.patterns@.len() == self.metadata.pattern_count
        &&& forall|p: int| 0 <= p < self.patterns@.len() ==> #[trigger] self.pattern_wf(p)
        &&& self.samples@.len() == self.metadata.samples@.len()
        &&& forall|i: int|
            0 <= i < self.samples@.len() ==> (#[trigger] self.samples@[i]).is_bytes_of_len(
                self.metadata.samples@[i].length as int,
            )
    }

    /// Whether pattern `p` has sixty-four rows of one note per channel.
    fn pattern_is_well_formed(&self, p: usize) -> (ok: bool)
        requires
            p < self.patterns@.len(),
        ensures
            ok == self.pattern_wf(p as int),
    {
        let pattern = &self.patterns[p];
        if pattern.len() != ROWS_PER_PATTERN {
            return false;
        }
        let mut row: usize = 0;
        while row < ROWS_PER_PATTERN
            invariant
                row <= ROWS_PER_PATTERN,
                p < self.patterns@.len(),
                *pattern == self.patterns@[p as int],
                pattern@.len() == ROWS_PER_PATTERN,
                forall|r: int|
                    0 <= r < row ==> (#[trigger] pattern@[r])@.len()
                        == self.metadata.channel_count,
            decreases ROWS_PER_PATTERN - row,
        {
            if pattern[row].len() != self.metadata.channel_count as usize {
                return false;
            }
            row = row + 1;
        }
        true
    }

    /// Whether the parts of the song fit together. A song that a file was
    /// decoded into always is; one put together by hand need not be.
    pub fn is_well_formed(&self) -> (ok: bool)
        ensures
            ok == self.wf(),
    {
        if self.metadata.pattern_table.len() != ORDER_TABLE_LEN {
            return false;
        }
        if self.metadata.pattern_count != highest_entry_of(&self.metadata.pattern_table) as u16
            + 1 {
            return false;
        }
        if self.patterns.len() != self.metadata.pattern_count as usize {
            return false;
        }
        let mut p: usize = 0;
        while p < self.patterns.len()
            invariant
                p <= self.patterns@.len(),
                forall|q: int| 0 <= q < p ==> #[trigger] self.pattern_wf(q),
            decreases self.patterns@.len() - p,
        {
            if !self.pattern_is_well_formed(p) {
                return false;
            }
            p = p + 1;
        }
        if self.samples.len() != self.metadata.samples.len() {
            return false;
        }
        let mut i: usize = 0;
        while i < self.samples.len()
            invariant
                i <= self.samples@.len(),
                self.samples@.len() == self.metadata.samples@.len(),
                forall|j: int|
                    0 <= j < i ==> (#[trigger] self.samples@[j]).is_bytes_of_len(
                        self.metadata.samples@[j].length as int,
                    ),
            decreases self.samples@.len() - i,
        {
            match &self.samples[i] {
                PCMData::U8(bytes) => {
                    if bytes.len() != self.metadata.samples[i].length as usize {
                        return false;
                    }
                },
                PCMData::U16(_) => {
                    return false;
                },
            }
            i = i + 1;
        }
        true
    }

    /// The note of channel `channel` on row `row` of pattern `pattern`.
    pub open spec fn note(&self, pattern: int, row: int, channel: int) -> Note {
        self.patterns@[pattern]@[row]@[channel]
    }
}

} // verus!
