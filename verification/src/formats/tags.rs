//! The tags of module files, and what they say of a file's layout.

use crate::tracker::Tracker;
use vstd::prelude::*;
use vstd::string::StrSliceExecFns;

verus! {

/// Whether two texts hold the same characters.
fn same_text(a: &str, b: &str) -> (same: bool)
    ensures
        same == (a@ == b@),
{
    let len = a.unicode_len();
    if len != b.unicode_len() {
        return false;
    }
    let mut i: usize = 0;
    while i < len
        invariant
            i <= len,
            len == a@.len(),
            len == b@.len(),
            forall|j: int| 0 <= j < i ==> a@[j] == b@[j],
        decreases len - i,
    {
        if a.get_char(i) != b.get_char(i) {
            return false;
        }
        i = i + 1;
    }
    assert(a@ =~= b@);
    true
}

/// Whether a character is a decimal digit.
pub open spec fn is_digit(c: char) -> bool {
    '0' <= c <= '9'
}

/// Whether a character is printable ASCII.
pub open spec fn is_printable(c: char) -> bool {
    32 <= c as int <= 126
}

/// The number that the first two characters of `tag` spell.
pub open spec fn leading_number(tag: Seq<char>) -> int {
    (tag[0] as int - '0' as int) * 10 + (tag[1] as int - '0' as int)
}

/// Whether `tag` is a multi-channel tag: two digits that spell an even
/// number from 10 to 32, then `CH`.
pub open spec fn is_even_channel_tag(tag: Seq<char>) -> bool {
    &&& tag.len() == 4
    &&& is_digit(tag[0])
    &&& is_digit(tag[1])
    &&& tag[2] == 'C'
    &&& tag[3] == 'H'
    &&& 10 <= leading_number(tag) <= 32
    &&& leading_number(tag) % 2 == 0
}

/// The channel count of a multi-channel tag, if `tag` is one.
fn even_channel_tag(tag: &str) -> (channels: Option<u8>)
    ensures
        channels is Some <==> is_even_channel_tag(tag@),
        channels matches Some(n) ==> n == leading_number(tag@),
{
    if tag.unicode_len() != 4 {
        return None;
    }
    let tens = tag.get_char(0);
    let ones = tag.get_char(1);
    if tens < '0' || tens > '9' || ones < '0' || ones > '9' {
        return None;
    }
    if tag.get_char(2) != 'C' || tag.get_char(3) != 'H' {
        return None;
    }
    let number = (tens as u32 - '0' as u32) * 10 + (ones as u32 - '0' as u32);
    if 10 <= number && number <= 32 && number % 2 == 0 {
        Some(number as u8)
    } else {
        None
    }
}

/// The tags that mark the layout of thirty-one instruments for certain.
pub const KNOWN_TAGS: [&'static str; 30] = [
    "M.K.", "M!K!", "FLT4", "FLT8", "CD81", "2CHN", "4CHN", "6CHN", "8CHN", "10CH", "12CH",
    "14CH", "16CH", "18CH", "20CH", "22CH", "24CH", "26CH", "28CH", "30CH", "32CH", "11CH",
    "13CH", "15CH", "TDZ1", "TDZ2", "TDZ3", "5CHN", "7CHN", "9CHN",
];

/// Whether `tag` is one of the known tags.
pub open spec fn is_known_tag(tag: Seq<char>) -> bool {
    exists|i: int| 0 <= i < KNOWN_TAGS@.len() && tag == (#[trigger] KNOWN_TAGS@[i])@
}

/// Whether `tag` could be a tag that is not known: every character of it is
/// printable ASCII.
pub open spec fn is_plausible_tag(tag: Seq<char>) -> bool {
    forall|i: int| 0 <= i < tag.len() ==> is_printable(#[trigger] tag[i])
}

/// The number of instruments in the header of a module that carries `tag`
/// where newer modules carry their tag: 31 for a known or a plausible tag,
/// and 15, the older layout without a tag, for anything else.
pub open spec fn instrument_count(tag: Seq<char>) -> int {
    if is_known_tag(tag) || is_plausible_tag(tag) {
        31
    } else {
        15
    }
}

/// Every known tag is four characters of printable ASCII.
pub proof fn lemma_known_tags_are_printable(tag: Seq<char>)
    requires
        is_known_tag(tag),
    ensures
        tag.len() == 4,
        is_plausible_tag(tag),
{
    reveal_strlit("M.K.");
    reveal_strlit("M!K!");
    reveal_strlit("FLT4");
    reveal_strlit("FLT8");
    reveal_strlit("CD81");
    reveal_strlit("2CHN");
    reveal_strlit("4CHN");
    reveal_strlit("6CHN");
    reveal_strlit("8CHN");
    reveal_strlit("10CH");
    reveal_strlit("12CH");
    reveal_strlit("14CH");
    reveal_strlit("16CH");
    reveal_strlit("18CH");
    reveal_strlit("20CH");
    reveal_strlit("22CH");
    reveal_strlit("24CH");
    reveal_strlit("26CH");
    reveal_strlit("28CH");
    reveal_strlit("30CH");
    reveal_strlit("32CH");
    reveal_strlit("11CH");
    reveal_strlit("13CH");
    reveal_strlit("15CH");
    reveal_strlit("TDZ1");
    reveal_strlit("TDZ2");
    reveal_strlit("TDZ3");
    reveal_strlit("5CHN");
    reveal_strlit("7CHN");
    reveal_strlit("9CHN");
    let i = choose|i: int| 0 <= i < KNOWN_TAGS@.len() && tag == (#[trigger] KNOWN_TAGS@[i])@;
    assert(0 <= i < 30);
    assert(is_printable(tag[0]) && is_printable(tag[1]) && is_printable(tag[2]) && is_printable(
        tag[3],
    ));
}

/// A tag that holds a character which is not printable ASCII, such as the
/// NUL of padding, means the older layout of fifteen instruments.
pub proof fn lemma_unprintable_tag_is_old_layout(tag: Seq<char>, i: int)
    requires
        0 <= i < tag.len(),
        !is_printable(tag[i]),
    ensures
        instrument_count(tag) == 15,
{
    if is_known_tag(tag) {
        lemma_known_tags_are_printable(tag);
    }
}

/// Whether `tag` is one of the known tags.
fn known_tag(tag: &str) -> (known: bool)
    ensures
        known == is_known_tag(tag@),
{
    let mut i: usize = 0;
    while i < 30
        invariant
            i <= 30,
            forall|j: int| 0 <= j < i ==> tag@ != (#[trigger] KNOWN_TAGS@[j])@,
        decreases 30 - i,
    {
        if same_text(tag, KNOWN_TAGS[i]) {
            return true;
        }
        i = i + 1;
    }
    false
}

/// Whether every character of `tag` is printable ASCII.
fn plausible_tag(tag: &str) -> (plausible: bool)
    ensures
        plausible == is_plausible_tag(tag@),
{
    let len = tag.unicode_len();
    let mut i: usize = 0;
    while i < len
        invariant
            i <= len,
            len == tag@.len(),
            forall|j: int| 0 <= j < i ==> is_printable(#[trigger] tag@[j]),
        decreases len - i,
    {
        let c = tag.get_char(i);
        if c < ' ' || c > '~' {
            return false;
        }
        i = i + 1;
    }
    true
}

/// Tells from the tag how many instruments the header holds.
pub fn detect_sample_count(format_tag: &str) -> (count: usize)
    ensures
        count == instrument_count(format_tag@),
{
    if known_tag(format_tag) || plausible_tag(format_tag) {
        31
    } else {
        15
    }
}

/// What the table of tags says of `tag`: the number of channels and the
/// tracker, or nothing where the table does not hold the tag.
pub open spec fn tag_layout(tag: Seq<char>) -> Option<(u8, Tracker)> {
    if tag == "M.K."@ || tag == "M!K!"@ {
        Some((4u8, Tracker::ProTracker))
    } else if tag == "FLT4"@ {
        Some((4u8, Tracker::Startrekker))
    } else if tag == "FLT8"@ {
        Some((8u8, Tracker::Startrekker))
    } else if tag == "CD81"@ {
        Some((8u8, Tracker::Falcon))
    } else if tag == "OCTA"@ {
        Some((8u8, Tracker::Oktalyzer))
    } else if tag == "2CHN"@ {
        Some((2u8, Tracker::FastTracker))
    } else if tag == "4CHN"@ {
        Some((4u8, Tracker::FastOrNoiseTracker))
    } else if tag == "6CHN"@ {
        Some((6u8, Tracker::FastTracker))
    } else if tag == "8CHN"@ {
        Some((8u8, Tracker::FastTracker))
    } else if tag == "TDZ1"@ {
        Some((1u8, Tracker::TakeTracker))
    } else if tag == "TDZ2"@ {
        Some((2u8, Tracker::TakeTracker))
    } else if tag == "TDZ3"@ {
        Some((3u8, Tracker::TakeTracker))
    } else if tag == "5CHN"@ {
        Some((5u8, Tracker::TakeTracker))
    } else if tag == "7CHN"@ {
        Some((7u8, Tracker::TakeTracker))
    } else if tag == "9CHN"@ {
        Some((9u8, Tracker::TakeTracker))
    } else if tag == "11CH"@ {
        Some((11u8, Tracker::TakeTracker))
    } else if tag == "13CH"@ {
        Some((13u8, Tracker::TakeTracker))
    } else if tag == "15CH"@ {
        Some((15u8, Tracker::TakeTracker))
    } else if is_even_channel_tag(tag) {
        Some((leading_number(tag) as u8, Tracker::FastTracker))
    } else {
        None
    }
}

/// The table holds every known tag: none of them is left to the guess from
/// the file's size.
pub proof fn lemma_known_tags_have_layout(tag: Seq<char>)
    requires
        is_known_tag(tag),
    ensures
        tag_layout(tag) is Some,
{
    reveal_strlit("10CH");
    reveal_strlit("12CH");
    reveal_strlit("14CH");
    reveal_strlit("16CH");
    reveal_strlit("18CH");
    reveal_strlit("20CH");
    reveal_strlit("22CH");
    reveal_strlit("24CH");
    reveal_strlit("26CH");
    reveal_strlit("28CH");
    reveal_strlit("30CH");
    reveal_strlit("32CH");
    let i = choose|i: int| 0 <= i < KNOWN_TAGS@.len() && tag == (#[trigger] KNOWN_TAGS@[i])@;
    assert(0 <= i < 30);
}

/// A multi-channel tag is given the channel count that its digits spell.
pub proof fn lemma_even_channel_tag_layout(tag: Seq<char>)
    requires
        is_even_channel_tag(tag),
    ensures
        tag_layout(tag) == Some((leading_number(tag) as u8, Tracker::FastTracker)),
{
    reveal_strlit("M.K.");
    reveal_strlit("M!K!");
    reveal_strlit("FLT4");
    reveal_strlit("FLT8");
    reveal_strlit("CD81");
    reveal_strlit("OCTA");
    reveal_strlit("2CHN");
    reveal_strlit("4CHN");
    reveal_strlit("6CHN");
    reveal_strlit("8CHN");
    reveal_strlit("TDZ1");
    reveal_strlit("TDZ2");
    reveal_strlit("TDZ3");
    reveal_strlit("5CHN");
    reveal_strlit("7CHN");
    reveal_strlit("9CHN");
    reveal_strlit("11CH");
    reveal_strlit("13CH");
    reveal_strlit("15CH");
}

/// Looks `tag` up in the table of tags.
pub fn lookup_tag(tag: &str) -> (layout: Option<(u8, Tracker)>)
    ensures
        layout == tag_layout(tag@),
{
    if same_text(tag, "M.K.") || same_text(tag, "M!K!") {
        Some((4, Tracker::ProTracker))
    } else if same_text(tag, "FLT4") {
        Some((4, Tracker::Startrekker))
    } else if same_text(tag, "FLT8") {
        Some((8, Tracker::Startrekker))
    } else if same_text(tag, "CD81") {
        Some((8, Tracker::Falcon))
    } else if same_text(tag, "OCTA") {
        Some((8, Tracker::Oktalyzer))
    } else if same_text(tag, "2CHN") {
        Some((2, Tracker::FastTracker))
    } else if same_text(tag, "4CHN") {
        Some((4, Tracker::FastOrNoiseTracker))
    } else if same_text(tag, "6CHN") {
        Some((6, Tracker::FastTracker))
    } else if same_text(tag, "8CHN") {
        Some((8, Tracker::FastTracker))
    } else if same_text(tag, "TDZ1") {
        Some((1, Tracker::TakeTracker))
    } else if same_text(tag, "TDZ2") {
        Some((2, Tracker::TakeTracker))
    } else if same_text(tag, "TDZ3") {
        Some((3, Tracker::TakeTracker))
    } else if same_text(tag, "5CHN") {
        Some((5, Tracker::TakeTracker))
    } else if same_text(tag, "7CHN") {
        Some((7, Tracker::TakeTracker))
    } else if same_text(tag, "9CHN") {
        Some((9, Tracker::TakeTracker))
    } else if same_text(tag, "11CH") {
        Some((11, Tracker::TakeTracker))
    } else if same_text(tag, "13CH") {
        Some((13, Tracker::TakeTracker))
    } else if same_text(tag, "15CH") {
        Some((15, Tracker::TakeTracker))
    } else {
        match even_channel_tag(tag) {
            Some(channels) => Some((channels, Tracker::FastTracker)),
            None => None,
        }
    }
}

} // verus!
