//! Verse building for "The Twelve Days of Christmas".
//!
//! The singing routine of the exercise was left unfinished by its author: it
//! emits two fixed lines per day and never builds the cumulative gift list.
//! That truncated shape is what is implemented here; the verses are returned
//! as plain lines so a caller can print them.

use vstd::prelude::*;

verus! {

/// The opening line sung for a day with the given ordinal label.
pub open spec fn opening_line(day: Seq<char>) -> Seq<char> {
    "On the "@ + day + " day of Christmas"@
}

/// The refrain that follows every opening line.
pub open spec fn refrain() -> Seq<char> {
    "My true love gave to me"@
}

/// The twelve ordinal labels of the carol, in singing order.
pub open spec fn ordinal_labels() -> Seq<Seq<char>> {
    seq![
        "first"@,
        "second"@,
        "third"@,
        "fourth"@,
        "fifth"@,
        "sixth"@,
        "seventh"@,
        "eighth"@,
        "ninth"@,
        "tenth"@,
        "eleventh"@,
        "twelfth"@,
    ]
}

/// What the song's lines say, given the labels sung over: two lines per
/// label, in label order, the opening line on even positions and the
/// refrain on odd ones.
pub open spec fn verse_line_at(labels: Seq<Seq<char>>, k: int) -> Seq<char> {
    if k % 2 == 0 {
        opening_line(labels[k / 2])
    } else {
        refrain()
    }
}

/// Builds the sung lines for a list of day labels: exactly two lines per
/// label, in label order.
pub fn verse_lines(days: &Vec<String>) -> (lines: Vec<String>)
    ensures
        lines@.len() == 2 * days@.len(),
        forall|k: int|
            0 <= k < lines@.len() ==> #[trigger] lines@[k]@ == verse_line_at(
                days@.map_values(|d: String| d@),
                k,
            ),
{
    let ghost labels = days@.map_values(|d: String| d@);
    let mut lines: Vec<String> = Vec::new();
    let mut i: usize = 0;
    while i < days.len()
        invariant
            i <= days@.len(),
            lines@.len() == 2 * i,
            labels == days@.map_values(|d: String| d@),
            forall|k: int|
                0 <= k < lines@.len() ==> #[trigger] lines@[k]@ == verse_line_at(labels, k),
        decreases days@.len() - i,
    {
        let mut first = String::from_str("On the ");
        first.append(days[i].as_str());
        first.append(" day of Christmas");
        proof {
            assert(first@ =~= opening_line(labels[i as int]));
        }
        lines.push(first);
        lines.push(String::from_str("My true love gave to me"));
        i = i + 1;
    }
    lines
}

/// The twelve ordinal day labels, "first" through "twelfth".
pub fn twelve_days() -> (days: Vec<String>)
    ensures
        days@.len() == 12,
        days@.map_values(|d: String| d@) == ordinal_labels(),
{
    let mut days: Vec<String> = Vec::new();
    days.push(String::from_str("first"));
    days.push(String::from_str("second"));
    days.push(String::from_str("third"));
    days.push(String::from_str("fourth"));
    days.push(String::from_str("fifth"));
    days.push(String::from_str("sixth"));
    days.push(String::from_str("seventh"));
    days.push(String::from_str("eighth"));
    days.push(String::from_str("ninth"));
    days.push(String::from_str("tenth"));
    days.push(String::from_str("eleventh"));
    days.push(String::from_str("twelfth"));
    proof {
        assert(days@.map_values(|d: String| d@) =~= ordinal_labels());
    }
    days
}

/// The whole song as the exercise leaves it: twenty-four lines, two per day,
/// in day order.
pub fn sing() -> (lines: Vec<String>)
    ensures
        lines@.len() == 24,
        forall|k: int|
            0 <= k < 24 ==> #[trigger] lines@[k]@ == verse_line_at(ordinal_labels(), k),
{
    let days = twelve_days();
    verse_lines(&days)
}

} // verus!
