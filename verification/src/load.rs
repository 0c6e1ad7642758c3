//! The load of the machine: the figures as the system reports them, and how
//! alarming they are.

use crate::style::{Palette, PaletteColor};
use vstd::prelude::*;
use vstd::string::*;

verus! {

/// Three load figures, as they were read, and the first of them in whole
/// percents of what the processors can take.
#[derive(Debug)]
pub struct LoadAverage {
    pub one: String,
    pub five: String,
    pub fifteen: String,
    pub percent: u32,
}

/// The colour that tells how heavy a load of `percent` of capacity is.
pub open spec fn load_color_of(percent: nat, palette: Palette) -> PaletteColor {
    if percent < 25 {
        palette.green
    } else if percent < 50 {
        palette.white
    } else if percent < 75 {
        palette.blue
    } else if percent < 100 {
        palette.cyan
    } else if percent < 200 {
        palette.yellow
    } else if percent < 400 {
        palette.magenta
    } else {
        palette.red
    }
}

/// Picks the colour for a load of `percent` of capacity.
pub fn load_color(percent: u32, palette: &Palette) -> (color: PaletteColor)
    ensures
        color == load_color_of(percent as nat, *palette),
{
    if percent < 25 {
        palette.green
    } else if percent < 50 {
        palette.white
    } else if percent < 75 {
        palette.blue
    } else if percent < 100 {
        palette.cyan
    } else if percent < 200 {
        palette.yellow
    } else if percent < 400 {
        palette.magenta
    } else {
        palette.red
    }
}

/// The number of characters of `text` before its first blank, or all of
/// them where it has none.
pub open spec fn until_blank(text: Seq<char>) -> nat
    decreases text.len(),
{
    if text.len() == 0 || text[0] == ' ' {
        0
    } else {
        1 + until_blank(text.drop_first())
    }
}

/// The first three fields of `text`, where a single blank ends a field:
/// there are three only if `text` has two blanks.
pub open spec fn load_fields(text: Seq<char>) -> Option<(Seq<char>, Seq<char>, Seq<char>)> {
    let first = until_blank(text) as int;
    let second = until_blank(text.skip(first + 1)) as int;
    let third = until_blank(text.skip(first + second + 2)) as int;
    if first < text.len() && first + 1 + second < text.len() {
        Some(
            (
                text.take(first),
                text.subrange(first + 1, first + 1 + second),
                text.subrange(first + second + 2, first + second + 2 + third),
            ),
        )
    } else {
        None
    }
}

/// The first blank at a place is found by looking at the characters in
/// turn.
proof fn lemma_until_blank_found(text: Seq<char>, end: int)
    requires
        0 <= end <= text.len(),
        forall|i: int| 0 <= i < end ==> text[i] != ' ',
        end == text.len() || text[end] == ' ',
    ensures
        until_blank(text) == end,
    decreases text.len(),
{
    if end > 0 {
        let rest = text.drop_first();
        assert forall|i: int| 0 <= i < end - 1 implies rest[i] != ' ' by {
            assert(rest[i] == text[i + 1]);
        }
        lemma_until_blank_found(rest, end - 1);
    }
}

/// The place of the first blank of `text` at or after `from`, or the length
/// of `text` where there is none.
fn find_blank(text: &str, from: usize) -> (at: usize)
    requires
        from <= text@.len(),
    ensures
        at == from + until_blank(text@.skip(from as int)),
        at <= text@.len(),
{
    let len: usize = text.unicode_len();
    let mut at: usize = from;
    while at < len && text.get_char(at) != ' '
        invariant
            from <= at <= len,
            len == text@.len(),
            forall|i: int| from <= i < at ==> text@[i] != ' ',
        decreases len - at,
    {
        at = at + 1;
    }
    proof {
        let rest = text@.skip(from as int);
        assert forall|i: int| 0 <= i < at - from implies rest[i] != ' ' by {
            assert(rest[i] == text@[from + i]);
        }
        lemma_until_blank_found(rest, at - from);
    }
    at
}

/// Splits a report of the load into its first three figures. There is
/// nothing to return where the report has fewer than three fields.
pub fn split_load(text: &str) -> (fields: Option<(String, String, String)>)
    ensures
        match fields {
            Some((one, five, fifteen)) => load_fields(text@) == Some((one@, five@, fifteen@)),
            None => load_fields(text@) is None,
        },
{
    let len: usize = text.unicode_len();
    let first: usize = find_blank(text, 0);
    assert(text@.skip(0) =~= text@);
    if first >= len {
        return None;
    }
    let second: usize = find_blank(text, first + 1);
    if second >= len {
        return None;
    }
    let third: usize = find_blank(text, second + 1);
    let one = String::from_str(text.substring_char(0, first));
    let five = String::from_str(text.substring_char(first + 1, second));
    let fifteen = String::from_str(text.substring_char(second + 1, third));
    proof {
        assert(text@.subrange(0, first as int) =~= text@.take(first as int));
    }
    Some((one, five, fifteen))
}

} // verus!
