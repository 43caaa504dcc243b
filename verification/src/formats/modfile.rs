//! The decoder of the module format: what a file holds, part by part, and
//! the functions that read each part.

use crate::bytereader::text_value;
use crate::bytereader::utf8_text;
use crate::bytereader::u16_value;
use crate::bytereader::ByteReader;
use crate::bytereader::Cursor;
use crate::bytereader::Encoding;
use crate::song::Line;
use crate::song::Note;
use crate::song::PCMData;
use crate::song::Pattern;
use crate::song::Sample;
use crate::bytereader::signed8;
use crate::song::highest_entry;
use crate::song::highest_entry_of;
use crate::song::lemma_highest_entry_bounds;
use crate::song::Song;
use crate::song::SongError;
use crate::song::SongMetadata;
use crate::song::ORDER_TABLE_LEN;
use crate::song::ROWS_PER_PATTERN;
use crate::formats::tags::detect_sample_count;
use crate::formats::tags::instrument_count;
use crate::formats::tags::is_printable;
use crate::formats::tags::lemma_unprintable_tag_is_old_layout;
use crate::formats::tags::lookup_tag;
use crate::formats::tags::tag_layout;
use crate::formats::tags::KNOWN_TAGS;
use crate::tracker::Tracker;
use vstd::arithmetic::div_mod::lemma_div_multiples_vanish;
use vstd::prelude::*;
use vstd::slice::slice_to_vec;
use vstd::string::StringExecFns;
use vstd::string::StringSliceAdditionalSpecFns;
use vstd::utf8::decode_utf8;
use vstd::utf8::encode_utf8_decode_utf8;
use vstd::utf8::valid_utf8;

verus! {

/// Bytes of one note in a pattern.
pub const NOTE_LEN: usize = 4;

/// Bytes of one instrument record in the header.
pub const SAMPLE_RECORD_LEN: usize = 30;

/// Bytes of an instrument's name.
pub const SAMPLE_NAME_LEN: usize = 22;

/// The upper four bits of a byte.
pub open spec fn high_nibble(byte: u8) -> int {
    byte as int / 16
}

/// The lower four bits of a byte.
pub open spec fn low_nibble(byte: u8) -> int {
    byte as int % 16
}

/// The note that four bytes of pattern data hold. The instrument's upper
/// half comes from the first byte and its lower half from the third; the
/// period is the lower half of the first byte followed by the second byte;
/// the effect is the lower half of the third byte, its argument the fourth.
pub open spec fn note_value(bytes: Seq<u8>) -> Note {
    Note {
        sample: (high_nibble(bytes[0]) * 16 + high_nibble(bytes[2])) as u8,
        period: (low_nibble(bytes[0]) * 256 + bytes[1]) as u16,
        effect: low_nibble(bytes[2]) as u8,
        argument: bytes[3],
    }
}

/// The four bytes that hold `note` in pattern data.
pub open spec fn note_bytes(note: Note) -> Seq<u8> {
    seq![
        ((note.sample / 16) * 16 + note.period / 256) as u8,
        (note.period % 256) as u8,
        ((note.sample % 16) * 16 + note.effect) as u8,
        note.argument,
    ]
}

/// Packing a note whose fields lie in their ranges and unpacking the bytes
/// gives the note back.
pub proof fn lemma_note_survives_packing(note: Note)
    requires
        note.wf(),
    ensures
        note_bytes(note).len() == NOTE_LEN,
        note_value(note_bytes(note)) == note,
{
}

/// Unpacking four bytes gives a note whose fields lie in their ranges, and
/// packing that note gives the bytes back: notes in range and groups of four
/// bytes correspond one to one.
pub proof fn lemma_bytes_survive_unpacking(bytes: Seq<u8>)
    requires
        bytes.len() == NOTE_LEN,
    ensures
        note_value(bytes).wf(),
        note_bytes(note_value(bytes)) == bytes,
{
    assert(note_bytes(note_value(bytes)) =~= bytes);
}

/// The note stored at `offset` of `data`.
pub open spec fn note_at(data: Seq<u8>, offset: int) -> Note {
    note_value(data.subrange(offset, offset + NOTE_LEN))
}

/// Decodes the next four bytes as a note.
pub fn read_note(reader: &mut ByteReader) -> (note: Result<Note, SongError>)
    ensures
        match note {
            Ok(n) => old(reader)@.has(NOTE_LEN as int) && n == note_value(
                old(reader)@.peek(NOTE_LEN as int),
            ) && final(reader)@ == old(reader)@.skip(NOTE_LEN as int),
            Err(fault) => !old(reader)@.has(NOTE_LEN as int) && fault == old(reader)@.fault(
                NOTE_LEN as int,
            ) && final(reader)@ == old(reader)@,
        },
{
    let bytes = reader.read_bytes(NOTE_LEN)?;
    let b0 = bytes[0];
    let b1 = bytes[1];
    let b2 = bytes[2];
    let b3 = bytes[3];
    let sample: u8 = (b0 & 0xF0) | ((b2 & 0xF0) >> 4);
    let period: u16 = (((b0 & 0x0F) as u16) << 8) | (b1 as u16);
    let effect: u8 = b2 & 0x0F;
    assert(sample == (b0 / 16) * 16 + b2 / 16) by (bit_vector)
        requires
            sample == (b0 & 0xF0) | ((b2 & 0xF0) >> 4),
    ;
    assert(period == (b0 % 16) as u16 * 256 + b1 as u16) by (bit_vector)
        requires
            period == (((b0 & 0x0F) as u16) << 8) | (b1 as u16),
    ;
    assert(effect == b2 % 16) by (bit_vector)
        requires
            effect == b2 & 0x0F,
    ;
    Ok(Note { sample, period, effect, argument: b3 })
}

/// Bytes of one pattern of `channels` channels.
pub open spec fn pattern_len(channels: int) -> int {
    ROWS_PER_PATTERN * channels * NOTE_LEN
}

/// Whether `pattern` is the pattern of `channels` channels stored at
/// `offset` of `data`: sixty-four rows, row after row, and in each row one
/// note per channel.
pub open spec fn pattern_matches(pattern: Pattern, data: Seq<u8>, offset: int, channels: int) -> bool {
    &&& pattern@.len() == ROWS_PER_PATTERN
    &&& forall|r: int| 0 <= r < ROWS_PER_PATTERN ==> (#[trigger] pattern@[r])@.len() == channels
    &&& forall|r: int, c: int|
        0 <= r < ROWS_PER_PATTERN && 0 <= c < channels ==> #[trigger] pattern@[r]@[c] == note_at(
            data,
            offset + (r * channels + c) * NOTE_LEN,
        )
}

/// The fault of a run of notes that the data ends in: it names the first
/// note that is not wholly there.
pub open spec fn short_note_fault(cursor: Cursor) -> SongError {
    cursor.skip(NOTE_LEN * (cursor.remaining() / NOTE_LEN as int)).fault(NOTE_LEN as int)
}

/// Decodes one pattern of `channel_count` channels. Where the data ends
/// before the pattern does, the reader stays at the first note that is not
/// wholly there.
pub fn read_pattern(reader: &mut ByteReader, channel_count: u8) -> (pattern: Result<
    Pattern,
    SongError,
>)
    ensures
        match pattern {
            Ok(p) => old(reader)@.has(pattern_len(channel_count as int))
                && pattern_matches(
                p,
                old(reader)@.data,
                old(reader)@.position as int,
                channel_count as int,
            ) && final(reader)@ == old(reader)@.skip(pattern_len(channel_count as int)),
            Err(fault) => !old(reader)@.has(pattern_len(channel_count as int)) && fault
                == short_note_fault(old(reader)@) && final(reader)@ == old(reader)@.at(
                fault.offset(),
            ),
        },
{
    let ghost start = reader@;
    let ghost channels = channel_count as int;
    proof {
        reader.lemma_in_bounds();
    }
    let mut pattern: Pattern = Vec::with_capacity(ROWS_PER_PATTERN);
    let mut row: usize = 0;
    while row < ROWS_PER_PATTERN
        invariant
            row <= ROWS_PER_PATTERN,
            channels == channel_count,
            start == old(reader)@,
            start.wf(),
            start.has((row * channels * NOTE_LEN) as int),
            reader@ == start.skip((row * channels * NOTE_LEN) as int),
            pattern@.len() == row,
            forall|r: int| 0 <= r < row ==> (#[trigger] pattern@[r])@.len() == channels,
            forall|r: int, c: int|
                0 <= r < row && 0 <= c < channels ==> #[trigger] pattern@[r]@[c] == note_at(
                    start.data,
                    start.position + (r * channels + c) * NOTE_LEN,
                ),
        decreases ROWS_PER_PATTERN - row,
    {
        let ghost row_start = row * channels;
        let mut line: Line = Vec::with_capacity(channel_count as usize);
        let mut channel: u8 = 0;
        while channel < channel_count
            invariant
                row < ROWS_PER_PATTERN,
                channel <= channel_count,
                channels == channel_count,
                start == old(reader)@,
                row_start == row * channels,
                start.wf(),
                start.has(((row_start + channel) * NOTE_LEN) as int),
                reader@ == start.skip(((row_start + channel) * NOTE_LEN) as int),
                line@.len() == channel,
                forall|c: int|
                    0 <= c < channel ==> #[trigger] line@[c] == note_at(
                        start.data,
                        start.position + (row_start + c) * NOTE_LEN,
                    ),
            decreases channel_count - channel,
        {
            match read_note(reader) {
                Ok(note) => {
                    line.push(note);
                },
                Err(fault) => {
                    proof {
                        let k = row_start + channel;
                        assert((row + 1) * channels <= ROWS_PER_PATTERN * channels)
                            by (nonlinear_arith)
                            requires
                                row + 1 <= ROWS_PER_PATTERN,
                                channels >= 0,
                        ;
                        assert((row + 1) * channels == row * channels + channels)
                            by (nonlinear_arith);
                        assert(start.remaining() / NOTE_LEN as int == k);
                    }
                    return Err(fault);
                },
            }
            channel = channel + 1;
        }
        pattern.push(line);
        proof {
            assert((row + 1) * channels == row * channels + channels) by (nonlinear_arith);
        }
        row = row + 1;
    }
    Ok(pattern)
}

/// The finetune that a header byte holds in its lower half: three bits of
/// magnitude under one bit of sign.
pub open spec fn finetune_value(byte: u8) -> int {
    let magnitude = byte as int % 8;
    if (byte as int / 8) % 2 == 1 {
        -magnitude
    } else {
        magnitude
    }
}

/// The loop length in bytes for a stored count of words. A stored count of
/// one word is how the format writes "no loop".
pub open spec fn loop_length(words: int) -> int {
    if words == 1 {
        0
    } else {
        2 * words
    }
}

/// Whether an instrument record can be read at the cursor: its thirty bytes
/// are there and its name is text.
pub open spec fn sample_readable(cursor: Cursor) -> bool {
    cursor.has(SAMPLE_RECORD_LEN as int) && valid_utf8(cursor.peek(SAMPLE_NAME_LEN as int))
}

/// Whether `sample` is what the thirty bytes of `record` say: name, length
/// in words, finetune, volume, loop start in words, loop length in words.
pub open spec fn sample_matches(sample: Sample, record: Seq<u8>, encoding: Encoding) -> bool {
    &&& sample.name@ == text_value(record.subrange(0, 22))
    &&& sample.length == 2 * u16_value(encoding, record.subrange(22, 24))
    &&& sample.finetune == finetune_value(record[24])
    &&& sample.volume == record[25]
    &&& sample.repeat_offset == 2 * u16_value(encoding, record.subrange(26, 28))
    &&& sample.repeat_length == loop_length(u16_value(encoding, record.subrange(28, 30)))
}

/// The fault of an instrument record that cannot be read: that of its first
/// field that is not there, or of its name where that is no text.
pub open spec fn sample_fault(cursor: Cursor) -> SongError {
    if !(cursor.has(22) && valid_utf8(cursor.peek(22))) {
        cursor.fault(22)
    } else if !cursor.has(24) {
        cursor.skip(22).fault(2)
    } else if !cursor.has(25) {
        cursor.skip(24).fault(1)
    } else if !cursor.has(26) {
        cursor.skip(25).fault(1)
    } else if !cursor.has(28) {
        cursor.skip(26).fault(2)
    } else {
        cursor.skip(28).fault(2)
    }
}

/// The finetune in the lower half of `byte`.
fn decode_finetune(byte: u8) -> (finetune: i8)
    ensures
        finetune == finetune_value(byte),
        -7 <= finetune <= 7,
{
    let raw = byte & 0x0F;
    let magnitude = raw & 0b0111;
    let negative = (raw & 0b1000) != 0;
    assert(magnitude == byte % 8 && negative == ((byte / 8) % 2 == 1)) by (bit_vector)
        requires
            raw == byte & 0x0F,
            magnitude == raw & 0b0111,
            negative == ((raw & 0b1000) != 0),
    ;
    if negative {
        -(magnitude as i8)
    } else {
        magnitude as i8
    }
}

/// Decodes one instrument record of the header. Where it cannot be read,
/// the reader stays at the field that the fault names.
pub fn read_sample(reader: &mut ByteReader) -> (sample: Result<Sample, SongError>)
    ensures
        match sample {
            Ok(s) => sample_readable(old(reader)@) && sample_matches(
                s,
                old(reader)@.peek(SAMPLE_RECORD_LEN as int),
                old(reader)@.encoding,
            ) && final(reader)@ == old(reader)@.skip(SAMPLE_RECORD_LEN as int),
            Err(fault) => !sample_readable(old(reader)@) && fault == sample_fault(old(reader)@)
                && final(reader)@ == old(reader)@.at(fault.offset()),
        },
{
    let ghost start = reader@;
    let ghost record = start.peek(SAMPLE_RECORD_LEN as int);
    proof {
        reader.lemma_in_bounds();
    }
    let name = reader.read_str(SAMPLE_NAME_LEN)?;
    let length_words = reader.read_u16()?;
    let finetune_byte = reader.read_u8()?;
    let volume = reader.read_u8()?;
    let repeat_offset_words = reader.read_u16()?;
    let repeat_length_words = reader.read_u16()?;
    proof {
        assert(start.peek(22) == record.subrange(0, 22));
        assert(start.skip(22).peek(2) == record.subrange(22, 24));
        assert(start.skip(24).peek(1)[0] == record[24]);
        assert(start.skip(25).peek(1)[0] == record[25]);
        assert(start.skip(26).peek(2) == record.subrange(26, 28));
        assert(start.skip(28).peek(2) == record.subrange(28, 30));
    }
    let repeat_length: u32 = if repeat_length_words == 1 {
        0
    } else {
        repeat_length_words as u32 * 2
    };
    Ok(
        Sample {
            name,
            length: length_words as u32 * 2,
            finetune: decode_finetune(finetune_byte),
            volume,
            repeat_offset: repeat_offset_words as u32 * 2,
            repeat_length,
        },
    )
}

/// Bytes of the header that are there whatever the layout: title, played
/// length, end jump and the order table.
pub const FIXED_HEADER_LEN: usize = 150;

/// Bytes of one pattern of a single channel.
pub const CHANNEL_PATTERN_LEN: usize = 256;

/// Bytes of the tag in the layout of thirty-one instruments.
pub const TAG_LEN: usize = 4;

/// The sum of `lengths`.
pub open spec fn total(lengths: Seq<int>) -> int
    decreases lengths.len(),
{
    if lengths.len() == 0 {
        0
    } else {
        total(lengths.drop_last()) + lengths.last()
    }
}

/// The lengths in bytes that the instruments' headers give, in order.
pub open spec fn sample_lengths(samples: Seq<Sample>) -> Seq<int> {
    Seq::new(samples.len(), |i: int| samples[i].length as int)
}

/// Bytes of everything in a file but its patterns: the fixed header, one
/// record for each instrument, the tag where the layout has one, and the
/// sample data.
pub open spec fn size_without_patterns(lengths: Seq<int>) -> int {
    FIXED_HEADER_LEN + SAMPLE_RECORD_LEN * lengths.len() + (if lengths.len() == 31 {
        TAG_LEN as int
    } else {
        0
    }) + total(lengths)
}

/// The channel count derived from a file's size: the bytes left for
/// patterns, divided by the patterns and by the bytes of one pattern of one
/// channel, rounded down and taken as a byte. A file too small for what its
/// header declares has no room for any channel.
pub open spec fn guessed_channels(file_size: int, lengths: Seq<int>, pattern_count: int) -> int {
    let space = file_size - size_without_patterns(lengths);
    if space < 0 {
        0
    } else {
        (space / (pattern_count * pattern_len(1))) % 256
    }
}

/// A file that holds exactly `channels` channels in each of its patterns is
/// guessed to have that many.
pub proof fn lemma_guess_recovers_channels(
    file_size: int,
    lengths: Seq<int>,
    pattern_count: int,
    channels: int,
)
    requires
        pattern_count >= 1,
        0 <= channels <= 255,
        file_size == size_without_patterns(lengths) + pattern_count * pattern_len(channels),
    ensures
        guessed_channels(file_size, lengths, pattern_count) == channels,
{
    let unit = pattern_count * pattern_len(1);
    assert(unit > 0) by (nonlinear_arith)
        requires
            unit == pattern_count * pattern_len(1),
            pattern_len(1) == 256,
            pattern_count >= 1,
    ;
    assert(pattern_count * pattern_len(channels) == unit * channels) by (nonlinear_arith)
        requires
            unit == pattern_count * pattern_len(1),
            pattern_len(1) == 256,
            pattern_len(channels) == 64 * channels * 4,
    ;
    assert(unit * channels >= 0) by (nonlinear_arith)
        requires
            unit > 0,
            channels >= 0,
    ;
    lemma_div_multiples_vanish(channels, unit);
}

/// The sum of the first `count + 1` lengths is that of the first `count`
/// and one more.
pub proof fn lemma_total_step(lengths: Seq<int>, count: int)
    requires
        0 <= count < lengths.len(),
    ensures
        total(lengths.subrange(0, count + 1)) == total(lengths.subrange(0, count))
            + lengths[count],
{
    assert(lengths.subrange(0, count + 1).drop_last() == lengths.subrange(0, count));
}

/// Guesses the channel count of a module without a telling tag from the
/// size of its file.
pub fn guess_channel_count(file_size: usize, sample_meta: &Vec<Sample>, pattern_count: u16) -> (channels:
    u8)
    requires
        pattern_count >= 1,
    ensures
        channels == guessed_channels(
            file_size as int,
            sample_lengths(sample_meta@),
            pattern_count as int,
        ),
{
    let ghost lengths = sample_lengths(sample_meta@);
    let sample_count = sample_meta.len();
    let mut sample_pcm_size: u128 = 0;
    let mut index: usize = 0;
    while index < sample_count
        invariant
            index <= sample_count,
            sample_count == sample_meta@.len(),
            lengths == sample_lengths(sample_meta@),
            sample_pcm_size == total(lengths.subrange(0, index as int)),
            sample_pcm_size <= index * 0xffff_ffff,
        decreases sample_count - index,
    {
        proof {
            lemma_total_step(lengths, index as int);
        }
        sample_pcm_size = sample_pcm_size + sample_meta[index].length as u128;
        index = index + 1;
    }
    assert(lengths.subrange(0, sample_count as int) == lengths);
    let format_size: u128 = if sample_count == 31 {
        TAG_LEN as u128
    } else {
        0
    };
    let other: u128 = FIXED_HEADER_LEN as u128 + SAMPLE_RECORD_LEN as u128 * sample_count as u128
        + format_size + sample_pcm_size;
    if (file_size as u128) < other {
        return 0;
    }
    let pattern_data_left: u128 = file_size as u128 - other;
    let channel_pattern_len = CHANNEL_PATTERN_LEN as u128;
    assert(channel_pattern_len == pattern_len(1));
    let unit: u128 = pattern_count as u128 * channel_pattern_len;
    ((pattern_data_left / unit) % 256) as u8
}

/// The channel count and the tracker of a module: what the table says of
/// its tag, and for a tag that the table does not hold the count guessed
/// from the file's size, with no tracker named.
pub open spec fn song_layout(
    tag: Seq<char>,
    file_size: int,
    lengths: Seq<int>,
    pattern_count: int,
) -> (u8, Tracker) {
    match tag_layout(tag) {
        Some(layout) => layout,
        None => (guessed_channels(file_size, lengths, pattern_count) as u8, Tracker::Generic),
    }
}

/// The tag `2CHN` means two channels of FastTracker, whatever the size of
/// the file, its instruments and its patterns are.
pub proof fn lemma_two_channel_tag(file_size: int, lengths: Seq<int>, pattern_count: int)
    ensures
        song_layout("2CHN"@, file_size, lengths, pattern_count) == (2u8, Tracker::FastTracker),
{
    reveal_strlit("M.K.");
    reveal_strlit("M!K!");
    reveal_strlit("FLT4");
    reveal_strlit("FLT8");
    reveal_strlit("CD81");
    reveal_strlit("OCTA");
    reveal_strlit("2CHN");
    assert("2CHN"@[0] == '2');
    assert("M.K."@[0] == 'M' && "M!K!"@[0] == 'M');
    assert("FLT4"@[0] == 'F' && "FLT8"@[0] == 'F');
    assert("CD81"@[0] == 'C' && "OCTA"@[0] == 'O');
}

/// Tells the channel count and the tracker of a module from its tag, and
/// from the size of its file where the tag does not tell. Only then does
/// the number of patterns matter, and only then must there be one.
pub fn identify_format_and_channels(
    tag: &str,
    file_size: usize,
    sample_metadata: &Vec<Sample>,
    pattern_count: u16,
) -> (layout: (u8, Tracker))
    requires
        tag_layout(tag@) is None ==> pattern_count >= 1,
    ensures
        layout == song_layout(
            tag@,
            file_size as int,
            sample_lengths(sample_metadata@),
            pattern_count as int,
        ),
{
    match lookup_tag(tag) {
        Some(layout) => layout,
        None => (guess_channel_count(file_size, sample_metadata, pattern_count), Tracker::Generic),
    }
}

/// The cursor at instrument record `i` of a header whose records begin at
/// `start`.
pub open spec fn sample_cursor(start: Cursor, i: int) -> Cursor {
    start.skip(SAMPLE_RECORD_LEN * i)
}

/// Whether `count` instrument records can be read from `start` on.
pub open spec fn samples_readable(start: Cursor, count: int) -> bool {
    forall|i: int| 0 <= i < count ==> sample_readable(#[trigger] sample_cursor(start, i))
}

/// Whether `samples` are what the records from `start` on say.
pub open spec fn samples_match(samples: Seq<Sample>, start: Cursor) -> bool {
    forall|i: int|
        0 <= i < samples.len() ==> sample_matches(
            #[trigger] samples[i],
            sample_cursor(start, i).peek(SAMPLE_RECORD_LEN as int),
            start.encoding,
        )
}

/// Whether `fault` is the fault of reading `count` instrument records from
/// `start` on: that of the first record that cannot be read.
pub open spec fn is_samples_fault(start: Cursor, count: int, fault: SongError) -> bool {
    exists|i: int|
        0 <= i < count && samples_readable(start, i) && !sample_readable(
            #[trigger] sample_cursor(start, i),
        ) && fault == sample_fault(sample_cursor(start, i))
}

/// Decodes `count` instrument records. Where one cannot be read, the reader
/// stays at the field that the fault names.
pub fn read_samples(reader: &mut ByteReader, count: usize) -> (samples: Result<
    Vec<Sample>,
    SongError,
>)
    ensures
        match samples {
            Ok(list) => samples_readable(old(reader)@, count as int) && list@.len() == count
                && samples_match(list@, old(reader)@) && final(reader)@ == old(reader)@.skip(
                SAMPLE_RECORD_LEN * count,
            ),
            Err(fault) => is_samples_fault(old(reader)@, count as int, fault) && final(reader)@
                == old(reader)@.at(fault.offset()),
        },
{
    let ghost start = reader@;
    proof {
        reader.lemma_in_bounds();
    }
    let mut samples: Vec<Sample> = Vec::with_capacity(count);
    let mut index: usize = 0;
    while index < count
        invariant
            index <= count,
            start == old(reader)@,
            start.wf(),
            reader@ == sample_cursor(start, index as int),
            samples_readable(start, index as int),
            samples@.len() == index,
            samples_match(samples@, start),
        decreases count - index,
    {
        match read_sample(reader) {
            Ok(sample) => {
                samples.push(sample);
            },
            Err(fault) => {
                return Err(fault);
            },
        }
        index = index + 1;
    }
    Ok(samples)
}

/// Whether `patterns` are the patterns of `channels` channels stored one
/// after the other from `offset` of `data` on.
pub open spec fn patterns_match(
    patterns: Seq<Pattern>,
    data: Seq<u8>,
    offset: int,
    channels: int,
) -> bool {
    forall|p: int|
        0 <= p < patterns.len() ==> pattern_matches(
            #[trigger] patterns[p],
            data,
            offset + p * pattern_len(channels),
            channels,
        )
}

/// Decodes `count` patterns of `channel_count` channels. Where the data
/// ends before the patterns do, the reader stays at the first note that is
/// not wholly there.
pub fn read_patterns(reader: &mut ByteReader, count: u16, channel_count: u8) -> (patterns: Result<
    Vec<Pattern>,
    SongError,
>)
    ensures
        match patterns {
            Ok(list) => old(reader)@.has(count * pattern_len(channel_count as int))
                && list@.len() == count && patterns_match(
                list@,
                old(reader)@.data,
                old(reader)@.position as int,
                channel_count as int,
            ) && final(reader)@ == old(reader)@.skip(count * pattern_len(channel_count as int)),
            Err(fault) => !old(reader)@.has(count * pattern_len(channel_count as int)) && fault
                == short_note_fault(old(reader)@) && final(reader)@ == old(reader)@.at(
                fault.offset(),
            ),
        },
{
    let ghost start = reader@;
    let ghost size = pattern_len(channel_count as int);
    proof {
        reader.lemma_in_bounds();
    }
    let mut patterns: Vec<Pattern> = Vec::with_capacity(count as usize);
    let mut index: u16 = 0;
    while index < count
        invariant
            index <= count,
            start == old(reader)@,
            start.wf(),
            size == pattern_len(channel_count as int),
            start.has(index * size),
            reader@ == start.skip(index * size),
            patterns@.len() == index,
            patterns_match(patterns@, start.data, start.position as int, channel_count as int),
        decreases count - index,
    {
        proof {
            assert((index + 1) * size == index * size + size) by (nonlinear_arith);
            assert(index * size >= 0) by (nonlinear_arith)
                requires
                    index >= 0,
                    size >= 0,
            ;
        }
        match read_pattern(reader, channel_count) {
            Ok(pattern) => {
                patterns.push(pattern);
            },
            Err(fault) => {
                proof {
                    assert((index + 1) * size <= count * size) by (nonlinear_arith)
                        requires
                            index + 1 <= count,
                            size >= 0,
                    ;
                    let done = index * size;
                    let notes = index * (64 * channel_count);
                    assert(done == 4 * notes) by (nonlinear_arith)
                        requires
                            done == index * size,
                            notes == index * (64 * channel_count),
                            size == 64 * channel_count * 4,
                    ;
                    assert((start.remaining() - done) / 4 == start.remaining() / 4 - notes);
                }
                return Err(fault);
            },
        }
        index = index + 1;
    }
    Ok(patterns)
}

/// Where the sample data of instrument `i` begins, counted from where the
/// sample data of the first begins.
pub open spec fn data_offset(lengths: Seq<int>, i: int) -> int {
    total(lengths.subrange(0, i))
}

/// Whether `blocks` are the sample data stored one block after the other
/// from `start` on, each as long as `lengths` says.
pub open spec fn sample_data_matches(blocks: Seq<PCMData>, start: Cursor, lengths: Seq<int>) -> bool {
    forall|i: int|
        0 <= i < blocks.len() ==> (#[trigger] blocks[i] matches PCMData::U8(bytes) && bytes@.len()
            == lengths[i] && bytes@ == start.skip(data_offset(lengths, i)).peek(lengths[i]))
}

/// Whether `fault` is the fault of reading blocks of `lengths` from `start`
/// on: that of the first block that is not wholly there.
pub open spec fn is_sample_data_fault(start: Cursor, lengths: Seq<int>, fault: SongError) -> bool {
    exists|i: int|
        0 <= i < lengths.len() && start.has(data_offset(lengths, i)) && !start.has(
            #[trigger] data_offset(lengths, i + 1),
        ) && fault == start.skip(data_offset(lengths, i)).fault(lengths[i])
}

/// Reads the sample data of each instrument, as long as its header says.
/// Where a block is not wholly there, the reader stays at its beginning.
pub fn read_sample_data(reader: &mut ByteReader, sample_metadata: &Vec<Sample>) -> (blocks: Result<
    Vec<PCMData>,
    SongError,
>)
    ensures
        match blocks {
            Ok(list) => old(reader)@.has(total(sample_lengths(sample_metadata@))) && list@.len()
                == sample_metadata@.len() && sample_data_matches(
                list@,
                old(reader)@,
                sample_lengths(sample_metadata@),
            ) && final(reader)@ == old(reader)@.skip(total(sample_lengths(sample_metadata@))),
            Err(fault) => !old(reader)@.has(total(sample_lengths(sample_metadata@)))
                && is_sample_data_fault(old(reader)@, sample_lengths(sample_metadata@), fault)
                && final(reader)@ == old(reader)@.at(fault.offset()),
        },
{
    let ghost start = reader@;
    let ghost lengths = sample_lengths(sample_metadata@);
    proof {
        reader.lemma_in_bounds();
    }
    let count = sample_metadata.len();
    let mut blocks: Vec<PCMData> = Vec::with_capacity(count);
    let mut index: usize = 0;
    while index < count
        invariant
            index <= count,
            count == sample_metadata@.len(),
            start == old(reader)@,
            start.wf(),
            lengths == sample_lengths(sample_metadata@),
            0 <= data_offset(lengths, index as int),
            start.has(data_offset(lengths, index as int)),
            reader@ == start.skip(data_offset(lengths, index as int)),
            blocks@.len() == index,
            sample_data_matches(blocks@, start, lengths),
        decreases count - index,
    {
        proof {
            lemma_total_step(lengths, index as int);
        }
        let length = sample_metadata[index].length as usize;
        match reader.read_bytes(length) {
            Ok(bytes) => {
                blocks.push(PCMData::U8(slice_to_vec(bytes)));
            },
            Err(fault) => {
                proof {
                    lemma_total_grows(lengths, index as int + 1, count as int);
                    assert(lengths.subrange(0, count as int) == lengths);
                    assert(!start.has(data_offset(lengths, index + 1)));
                }
                return Err(fault);
            },
        }
        index = index + 1;
    }
    assert(lengths.subrange(0, count as int) == lengths);
    Ok(blocks)
}

/// Sums of lengths that are not negative grow with the number of lengths
/// summed.
pub proof fn lemma_total_grows(lengths: Seq<int>, fewer: int, more: int)
    requires
        0 <= fewer <= more <= lengths.len(),
        forall|i: int| 0 <= i < lengths.len() ==> lengths[i] >= 0,
    ensures
        total(lengths.subrange(0, fewer)) <= total(lengths.subrange(0, more)),
    decreases more - fewer,
{
    if fewer < more {
        lemma_total_grows(lengths, fewer, more - 1);
        lemma_total_step(lengths, more - 1);
    }
}

/// Bytes of a module's title.
pub const TITLE_LEN: usize = 20;

/// Where newer modules carry their tag.
pub const TAG_OFFSET: usize = 1080;

/// Bytes between the instrument records and the patterns, the tag left
/// aside: played length, end jump and the order table.
pub const TRAILER_LEN: usize = 130;

/// The cursor at the start of a file. Modules are big-endian throughout.
pub open spec fn file_cursor(data: Seq<u8>) -> Cursor {
    Cursor { data, position: 0, encoding: Encoding::BigEndian }
}

/// The tag of a file: the four bytes where newer modules carry their tag,
/// read as text, character for character. A file that ends before them, or
/// holds there what is no text, has no tag.
pub open spec fn tag_text(data: Seq<u8>) -> Option<Seq<char>> {
    let tag = file_cursor(data).at(TAG_OFFSET as int);
    if tag.has(TAG_LEN as int) && valid_utf8(tag.peek(TAG_LEN as int)) {
        Some(decode_utf8(tag.peek(TAG_LEN as int)))
    } else {
        None
    }
}

/// The number of instruments in the header of a file: what its tag says,
/// and 15, the older layout, where it has no tag.
pub open spec fn module_instruments(data: Seq<u8>) -> int {
    match tag_text(data) {
        Some(tag) => instrument_count(tag),
        None => 15,
    }
}

/// The tag kept with a song: that of the file in the layout of thirty-one
/// instruments, none in the older layout.
pub open spec fn module_format(data: Seq<u8>) -> Seq<char> {
    match tag_text(data) {
        Some(tag) => if instrument_count(tag) == 31 {
            tag
        } else {
            Seq::empty()
        },
        None => Seq::empty(),
    }
}

/// Bytes of the tag in the header of a file: four in the layout of
/// thirty-one instruments, none in the older layout.
pub open spec fn module_tag_len(data: Seq<u8>) -> int {
    if module_instruments(data) == 31 {
        TAG_LEN as int
    } else {
        0
    }
}

/// Whether the title of a file can be read.
pub open spec fn title_readable(data: Seq<u8>) -> bool {
    file_cursor(data).has(TITLE_LEN as int) && valid_utf8(file_cursor(data).peek(TITLE_LEN as int))
}

/// Where the instrument records of a file begin.
pub open spec fn samples_start(data: Seq<u8>) -> Cursor {
    file_cursor(data).at(TITLE_LEN as int)
}

/// Where played length, end jump and order table of a file begin.
pub open spec fn trailer_start(data: Seq<u8>) -> Cursor {
    samples_start(data).skip(SAMPLE_RECORD_LEN * module_instruments(data))
}

/// The order table of a file.
pub open spec fn order_table(data: Seq<u8>) -> Seq<u8> {
    trailer_start(data).skip(2).peek(ORDER_TABLE_LEN as int)
}

/// The number of patterns of a file: one more than the highest entry of its
/// order table.
pub open spec fn module_patterns(data: Seq<u8>) -> int {
    highest_entry(order_table(data)) + 1
}

/// Where the patterns of a file begin: behind the order table, and behind
/// the tag in the layout that has one.
pub open spec fn patterns_start(data: Seq<u8>) -> Cursor {
    trailer_start(data).skip(TRAILER_LEN + module_tag_len(data))
}

/// The lengths in bytes of the instruments of a file: twice the word count
/// in each record.
pub open spec fn module_lengths(data: Seq<u8>) -> Seq<int> {
    Seq::new(
        module_instruments(data) as nat,
        |i: int|
            2 * u16_value(
                Encoding::BigEndian,
                sample_cursor(samples_start(data), i).peek(SAMPLE_RECORD_LEN as int).subrange(
                    22,
                    24,
                ),
            ),
    )
}

/// The channel count and the tracker of a file.
pub open spec fn module_layout(data: Seq<u8>) -> (u8, Tracker) {
    song_layout(
        module_format(data),
        data.len() as int,
        module_lengths(data),
        module_patterns(data),
    )
}

/// Bytes of all patterns of a file.
pub open spec fn patterns_len(data: Seq<u8>) -> int {
    module_patterns(data) * pattern_len(module_layout(data).0 as int)
}

/// Where the sample data of a file begins.
pub open spec fn data_start(data: Seq<u8>) -> Cursor {
    patterns_start(data).skip(patterns_len(data))
}

/// Whether a file can be read as a module: title and instrument names are
/// text, and the file is long enough for its header, for the patterns that
/// its order table asks for and for the sample data that its instruments
/// declare.
pub open spec fn module_readable(data: Seq<u8>) -> bool {
    &&& title_readable(data)
    &&& samples_readable(samples_start(data), module_instruments(data))
    &&& trailer_start(data).has(TRAILER_LEN as int)
    &&& patterns_start(data).has(patterns_len(data))
    &&& data_start(data).has(total(module_lengths(data)))
}

/// Whether `fault` is the fault of a file that cannot be read as a module:
/// that of the first part, in the order of the file, that cannot be read.
pub open spec fn is_module_fault(data: Seq<u8>, fault: SongError) -> bool {
    if !title_readable(data) {
        fault == file_cursor(data).fault(TITLE_LEN as int)
    } else if !samples_readable(samples_start(data), module_instruments(data)) {
        is_samples_fault(samples_start(data), module_instruments(data), fault)
    } else if !trailer_start(data).has(1) {
        fault == trailer_start(data).fault(1)
    } else if !trailer_start(data).has(2) {
        fault == trailer_start(data).skip(1).fault(1)
    } else if !trailer_start(data).has(TRAILER_LEN as int) {
        fault == trailer_start(data).skip(2).fault(ORDER_TABLE_LEN as int)
    } else if !patterns_start(data).has(patterns_len(data)) {
        fault == short_note_fault(patterns_start(data))
    } else {
        is_sample_data_fault(data_start(data), module_lengths(data), fault)
    }
}

/// Whether `song` is what the file `data` holds.
pub open spec fn decodes(data: Seq<u8>, song: Song) -> bool {
    &&& song.metadata.name@ == text_value(file_cursor(data).peek(TITLE_LEN as int))
    &&& song.metadata.samples@.len() == module_instruments(data)
    &&& samples_match(song.metadata.samples@, samples_start(data))
    &&& song.metadata.end_jump == signed8(trailer_start(data).skip(1).peek(1)[0] as int)
    &&& song.metadata.pattern_table@ == order_table(data)
    &&& song.metadata.pattern_count == module_patterns(data)
    &&& song.metadata.format@ == module_format(data)
    &&& (song.metadata.channel_count, song.metadata.tracker) == module_layout(data)
    &&& song.patterns@.len() == module_patterns(data)
    &&& patterns_match(
        song.patterns@,
        data,
        patterns_start(data).position as int,
        module_layout(data).0 as int,
    )
    &&& song.samples@.len() == module_instruments(data)
    &&& sample_data_matches(song.samples@, data_start(data), module_lengths(data))
}

/// A file that carries the tag `2CHN` is laid out for thirty-one
/// instruments, and has two channels of FastTracker whatever else it holds.
pub proof fn lemma_two_channel_module(data: Seq<u8>)
    requires
        tag_text(data) == Some("2CHN"@),
    ensures
        module_instruments(data) == 31,
        module_format(data) == "2CHN"@,
        module_layout(data) == (2u8, Tracker::FastTracker),
{
    assert("2CHN"@ == KNOWN_TAGS@[5]@);
    lemma_two_channel_tag(data.len() as int, module_lengths(data), module_patterns(data));
}

/// A file that ends before its tag would has no tag: it is laid out for
/// fifteen instruments and keeps no tag.
pub proof fn lemma_short_module_is_untagged(data: Seq<u8>)
    requires
        data.len() < TAG_OFFSET + TAG_LEN,
    ensures
        tag_text(data) is None,
        module_instruments(data) == 15,
        module_format(data) == Seq::<char>::empty(),
        module_tag_len(data) == 0,
{
}

/// A file whose four bytes in the place of a tag hold a character that is
/// not printable ASCII, such as the NUL of an empty note, is laid out for
/// fifteen instruments and keeps no tag.
pub proof fn lemma_unprintable_tag_module(data: Seq<u8>, i: int)
    requires
        tag_text(data) is Some,
        0 <= i < tag_text(data)->Some_0.len(),
        !is_printable(tag_text(data)->Some_0[i]),
    ensures
        module_instruments(data) == 15,
        module_format(data) == Seq::<char>::empty(),
        module_tag_len(data) == 0,
{
    lemma_unprintable_tag_is_old_layout(tag_text(data)->Some_0, i);
}

/// Whether `tag` is the tag `text`, or no tag as `text` is none.
pub open spec fn tag_matches(tag: Option<String>, text: Option<Seq<char>>) -> bool {
    match tag {
        Some(tag) => text == Some(tag@),
        None => text is None,
    }
}

/// Looks at the tag of the file without moving the reader.
fn peek_tag(reader: &mut ByteReader) -> (tag: Option<String>)
    ensures
        final(reader)@ == old(reader)@,
        tag_matches(tag, tag_text(old(reader)@.data)),
{
    proof {
        reader.lemma_in_bounds();
    }
    let origin = reader.position();
    if reader.seek(TAG_OFFSET).is_err() {
        return None;
    }
    let tag = match reader.read_bytes(TAG_LEN) {
        Ok(bytes) => match utf8_text(bytes) {
            Some(text) => {
                proof {
                    encode_utf8_decode_utf8(text@);
                }
                Some(String::from_str(text))
            },
            None => None,
        },
        Err(_) => None,
    };
    let restored = reader.seek(origin);
    assert(restored is Ok);
    tag
}

/// Decodes a whole module file. Any part that cannot be read fails the
/// whole: no song is returned for part of a file.
pub fn parse(data: Vec<u8>) -> (song: Result<Song, SongError>)
    ensures
        match song {
            Ok(song) => module_readable(data@) && decodes(data@, song) && song.wf(),
            Err(fault) => !module_readable(data@) && is_module_fault(data@, fault),
        },
{
    let mut reader = ByteReader::new(data.as_slice(), Encoding::BigEndian);
    let (sample_count, format) = match peek_tag(&mut reader) {
        Some(tag) => if detect_sample_count(tag.as_str()) == 31 {
            (31, tag)
        } else {
            (15, String::new())
        },
        None => (15, String::new()),
    };
    let title = reader.read_str(TITLE_LEN)?;
    let sample_metadata = read_samples(&mut reader, sample_count)?;
    reader.read_u8()?;
    let end_jump = reader.read_i8()?;
    let pattern_table = slice_to_vec(reader.read_bytes(ORDER_TABLE_LEN)?);
    proof {
        lemma_highest_entry_bounds(pattern_table@);
    }
    let pattern_count = highest_entry_of(&pattern_table) as u16 + 1;
    if sample_count == 31 {
        let skipped = reader.seek(reader.position() + TAG_LEN);
        assert(skipped is Ok);
    }
    proof {
        assert(sample_lengths(sample_metadata@) =~= module_lengths(data@));
    }
    let (channel_count, tracker) = identify_format_and_channels(
        format.as_str(),
        data.len(),
        &sample_metadata,
        pattern_count,
    );
    let patterns = read_patterns(&mut reader, pattern_count, channel_count)?;
    let samples = read_sample_data(&mut reader, &sample_metadata)?;
    let metadata = SongMetadata {
        name: title,
        samples: sample_metadata,
        pattern_table,
        pattern_count,
        channel_count,
        end_jump,
        format,
        tracker,
    };
    Ok(Song { metadata, patterns, samples })
}

} // verus!
