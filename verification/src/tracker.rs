//! Tracker dialects, and the names of notes for diagnostics.

use vstd::prelude::*;
use vstd::string::StringExecFns;

verus! {

/// The historical dialects of the format that a module can be told to come
/// from.
#[derive(Debug, Clone, Copy, PartialEq, Eq, Structural)]
pub enum Tracker {
    Generic,
    ProTracker,
    NoiseTracker,
    FastTracker,
    TakeTracker,
    Startrekker,
    Falcon,
    Oktalyzer,
    UltimateSoundTracker,
    /// A four-channel tag that several trackers wrote.
    FastOrNoiseTracker,
}

impl Tracker {
    /// The dialect's name as shown to a user.
    pub open spec fn label(self) -> Seq<char> {
        match self {
            Tracker::Generic => "Generic"@,
            Tracker::ProTracker => "ProTracker"@,
            Tracker::TakeTracker => "TakeTracker"@,
            Tracker::FastTracker => "FastTracker"@,
            Tracker::NoiseTracker => "NoiseTracker"@,
            Tracker::Startrekker => "Startrekker"@,
            Tracker::Falcon => "Falcon"@,
            Tracker::Oktalyzer => "Oktalyzer"@,
            Tracker::UltimateSoundTracker => "Ultimate SoundTracker"@,
            Tracker::FastOrNoiseTracker => "FastTracker/NoiseTracker/ProTracker"@,
        }
    }

    /// The dialect's name as shown to a user.
    pub fn name(&self) -> (name: &'static str)
        ensures
            name@ == self.label(),
    {
        match self {
            Tracker::Generic => "Generic",
            Tracker::ProTracker => "ProTracker",
            Tracker::TakeTracker => "TakeTracker",
            Tracker::FastTracker => "FastTracker",
            Tracker::NoiseTracker => "NoiseTracker",
            Tracker::Startrekker => "Startrekker",
            Tracker::Falcon => "Falcon",
            Tracker::Oktalyzer => "Oktalyzer",
            Tracker::UltimateSoundTracker => "Ultimate SoundTracker",
            Tracker::FastOrNoiseTracker => "FastTracker/NoiseTracker/ProTracker",
        }
    }
}

/// Periods of seven octaves of twelve notes at no finetune, highest first.
pub const PROTRACKER_PERIODS: [u16; 84] = [
    3424, 3232, 3048, 2880, 2712, 2560, 2416, 2280, 2152, 2032, 1920, 1812, 1712, 1616, 1524, 1440,
    1356, 1280, 1208, 1140, 1076, 1016, 960, 906, 856, 808, 762, 720, 678, 640, 604, 570, 538, 508,
    480, 453, 428, 404, 381, 360, 339, 320, 302, 285, 269, 254, 240, 226, 214, 202, 190, 180, 170,
    160, 151, 143, 135, 127, 120, 113, 107, 101, 95, 90, 85, 80, 75, 71, 67, 63, 60, 56, 53, 50,
    47, 45, 42, 40, 37, 35, 33, 31, 30, 28,
];

/// Periods of twelve notes in each of sixteen finetune rows.
pub const PROTRACKER_TUNED_PERIODS: [u16; 192] = [
    1712, 1616, 1524, 1440, 1356, 1280, 1208, 1140, 1076, 1016, 960, 907, 1700, 1604, 1514, 1430,
    1348, 1274, 1202, 1134, 1070, 1010, 954, 900, 1688, 1592, 1504, 1418, 1340, 1264, 1194, 1126,
    1064, 1004, 948, 894, 1676, 1582, 1492, 1408, 1330, 1256, 1184, 1118, 1056, 996, 940, 888,
    1664, 1570, 1482, 1398, 1320, 1246, 1176, 1110, 1048, 990, 934, 882, 1652, 1558, 1472, 1388,
    1310, 1238, 1168, 1102, 1040, 982, 926, 874, 1640, 1548, 1460, 1378, 1302, 1228, 1160, 1094,
    1032, 974, 920, 868, 1628, 1536, 1450, 1368, 1292, 1220, 1150, 1086, 1026, 968, 914, 862, 1814,
    1712, 1616, 1524, 1440, 1356, 1280, 1208, 1140, 1076, 1016, 960, 1800, 1700, 1604, 1514, 1430,
    1350, 1272, 1202, 1134, 1070, 1010, 954, 1788, 1688, 1592, 1504, 1418, 1340, 1264, 1194, 1126,
    1064, 1004, 948, 1774, 1676, 1582, 1492, 1408, 1330, 1256, 1184, 1118, 1056, 996, 940, 1762,
    1664, 1570, 1482, 1398, 1320, 1246, 1176, 1110, 1048, 988, 934, 1750, 1652, 1558, 1472, 1388,
    1310, 1238, 1168, 1102, 1040, 982, 926, 1736, 1640, 1548, 1460, 1378, 1302, 1228, 1160, 1094,
    1032, 974, 920, 1724, 1628, 1536, 1450, 1368, 1292, 1220, 1150, 1086, 1026, 968, 914,
];

/// The table that a period is looked up in: the plain one at finetune 0, the
/// finetuned one otherwise.
pub open spec fn period_table(finetune: i8) -> Seq<u16> {
    if finetune == 0 {
        PROTRACKER_PERIODS@
    } else {
        PROTRACKER_TUNED_PERIODS@
    }
}

/// How far two periods lie apart.
pub open spec fn distance(a: int, b: int) -> int {
    if a >= b {
        a - b
    } else {
        b - a
    }
}

/// Whether `index` is the entry of `table` that a lookup of `period` lands
/// on: the first of the entries nearest to `period`. Where no entry is nearer
/// to `period` than 65535 is, the lookup stays on entry 0.
pub open spec fn is_nearest(table: Seq<u16>, period: u16, index: int) -> bool {
    let bound = distance(0xffff, period as int);
    if forall|j: int| 0 <= j < table.len() ==> distance(table[j] as int, period as int) >= bound {
        index == 0
    } else {
        &&& 0 <= index < table.len()
        &&& forall|j: int|
            0 <= j < table.len() ==> distance(table[index] as int, period as int) <= distance(
                #[trigger] table[j] as int,
                period as int,
            )
        &&& forall|j: int|
            0 <= j < index ==> distance(table[index] as int, period as int) < distance(
                #[trigger] table[j] as int,
                period as int,
            )
    }
}

/// The twelve note names of an octave.
pub open spec fn note_names() -> Seq<Seq<char>> {
    seq![
        "C-"@,
        "C#"@,
        "D-"@,
        "D#"@,
        "E-"@,
        "F-"@,
        "F#"@,
        "G-"@,
        "G#"@,
        "A-"@,
        "A#"@,
        "B-"@,
    ]
}

/// The decimal digit for `digit`, which lies below ten.
pub open spec fn digit_char(digit: int) -> char {
    ('0' as int + digit) as char
}

/// `number`, which lies below one hundred, written in decimal.
pub open spec fn decimal_text(number: int) -> Seq<char> {
    if number < 10 {
        seq![digit_char(number)]
    } else {
        seq![digit_char(number / 10), digit_char(number % 10)]
    }
}

/// The name shown for entry `index` of a period table: the note of its
/// column, then the number of its row counted from two.
pub open spec fn note_label(index: int) -> Seq<char> {
    note_names()[index % 12] + decimal_text(index / 12 + 2)
}

/// The first entry of `table` nearest to `period`.
fn nearest_index(table: &[u16], period: u16) -> (index: usize)
    requires
        table@.len() > 0,
    ensures
        is_nearest(table@, period, index as int),
        index < table@.len(),
{
    let mut best: u16 = u16::MAX;
    let mut index: usize = 0;
    let mut i: usize = 0;
    while i < table.len()
        invariant
            i <= table@.len(),
            index < table@.len(),
            forall|j: int|
                0 <= j < i ==> distance(best as int, period as int) <= distance(
                    #[trigger] table@[j] as int,
                    period as int,
                ),
            best == 0xffff && index == 0 || index < i && best == table@[index as int]
                && distance(best as int, period as int) < distance(0xffff, period as int),
            best != 0xffff || index != 0 ==> forall|j: int|
                0 <= j < index ==> distance(best as int, period as int) < distance(
                    #[trigger] table@[j] as int,
                    period as int,
                ),
        decreases table@.len() - i,
    {
        let entry = table[i];
        if gap(entry, period) < gap(best, period) {
            best = entry;
            index = i;
        }
        i = i + 1;
    }
    index
}

/// How far two periods lie apart.
fn gap(a: u16, b: u16) -> (d: u16)
    ensures
        d == distance(a as int, b as int),
{
    if a >= b {
        a - b
    } else {
        b - a
    }
}

/// The name of one of the twelve notes.
fn note_name(column: usize) -> (name: &'static str)
    requires
        column < 12,
    ensures
        name@ == note_names()[column as int],
{
    if column == 0 {
        "C-"
    } else if column == 1 {
        "C#"
    } else if column == 2 {
        "D-"
    } else if column == 3 {
        "D#"
    } else if column == 4 {
        "E-"
    } else if column == 5 {
        "F-"
    } else if column == 6 {
        "F#"
    } else if column == 7 {
        "G-"
    } else if column == 8 {
        "G#"
    } else if column == 9 {
        "A-"
    } else if column == 10 {
        "A#"
    } else {
        "B-"
    }
}

/// One decimal digit as text.
fn digit_text(digit: usize) -> (text: &'static str)
    requires
        digit < 10,
    ensures
        text@ == seq![digit_char(digit as int)],
{
    proof {
        reveal_strlit("0");
        reveal_strlit("1");
        reveal_strlit("2");
        reveal_strlit("3");
        reveal_strlit("4");
        reveal_strlit("5");
        reveal_strlit("6");
        reveal_strlit("7");
        reveal_strlit("8");
        reveal_strlit("9");
    }
    let text = if digit == 0 {
        "0"
    } else if digit == 1 {
        "1"
    } else if digit == 2 {
        "2"
    } else if digit == 3 {
        "3"
    } else if digit == 4 {
        "4"
    } else if digit == 5 {
        "5"
    } else if digit == 6 {
        "6"
    } else if digit == 7 {
        "7"
    } else if digit == 8 {
        "8"
    } else {
        "9"
    };
    assert(text@ =~= seq![digit_char(digit as int)]);
    text
}

/// The name of the note whose period lies nearest to `period`, for
/// diagnostics. A period of 0 carries no pitch and has no name.
pub fn protracker_period_to_note(period: u16, finetune: i8) -> (note: Option<String>)
    ensures
        period == 0 <==> note is None,
        note matches Some(name) ==> exists|index: int|
            is_nearest(period_table(finetune), period, index) && name@ == note_label(index),
{
    if period == 0 {
        return None;
    }
    let index = if finetune == 0 {
        nearest_index(PROTRACKER_PERIODS.as_slice(), period)
    } else {
        nearest_index(PROTRACKER_TUNED_PERIODS.as_slice(), period)
    };
    let row = index / 12 + 2;
    let mut name = String::from_str(note_name(index % 12));
    if row >= 10 {
        name.append(digit_text(row / 10));
        name.append(digit_text(row % 10));
    } else {
        name.append(digit_text(row));
    }
    proof {
        assert(name@ =~= note_label(index as int));
    }
    Some(name)
}

} // verus!
