//! How many columns a text takes when it is drawn.

use vstd::prelude::*;
use crate::text::{chars_of, text_of};

verus! {

/// The widths of characters, as ranges of code points: an entry gives the
/// highest code of a range and the width of the characters in it; the range
/// starts behind the entry before it.
pub const WIDTHS: [(u32, i32); 38] = [
    (126, 1),
    (159, 0),
    (687, 1),
    (710, 0),
    (711, 1),
    (727, 0),
    (733, 1),
    (879, 0),
    (1154, 1),
    (1161, 0),
    (4347, 1),
    (4447, 2),
    (7467, 1),
    (7521, 0),
    (8369, 1),
    (8426, 0),
    (9000, 1),
    (9002, 2),
    (11021, 1),
    (12350, 2),
    (12351, 1),
    (12438, 2),
    (12442, 0),
    (19893, 2),
    (19967, 1),
    (55203, 2),
    (63743, 1),
    (64106, 2),
    (65039, 1),
    (65059, 0),
    (65131, 2),
    (65279, 1),
    (65376, 2),
    (65500, 1),
    (65510, 2),
    (120831, 1),
    (262141, 2),
    (1114109, 1),
];

/// The width that `table` gives the code `code` from entry `from` on: that of
/// the first entry whose bound is not below the code, and 1 if there is none.
pub open spec fn width_from(table: Seq<(u32, i32)>, code: u32, from: int) -> i32
    decreases table.len() - from,
{
    if from < 0 || from >= table.len() {
        1
    } else if code <= table[from].0 {
        table[from].1
    } else {
        width_from(table, code, from + 1)
    }
}

/// The number of columns that the character with code `code` takes: none for
/// the two shift characters, else what the table of widths says.
pub open spec fn char_width(code: u32) -> i32 {
    if code == 0xe || code == 0xf {
        0
    } else {
        width_from(WIDTHS@, code, 0)
    }
}

/// The number of columns that `text` takes: the sum of the widths of its characters.
pub open spec fn text_width(text: Seq<char>) -> int
    decreases text.len(),
{
    if text.len() == 0 {
        0
    } else {
        text_width(text.drop_last()) + char_width(text.last() as u32)
    }
}

/// Every width in the table is 0, 1 or 2.
proof fn lemma_width_from_bounds(code: u32, from: int)
    requires
        0 <= from <= WIDTHS@.len(),
    ensures
        0 <= width_from(WIDTHS@, code, from) <= 2,
    decreases WIDTHS@.len() - from,
{
    if from < WIDTHS@.len() {
        assert(0 <= WIDTHS@[from].1 <= 2);
        lemma_width_from_bounds(code, from + 1);
    }
}

/// No character is narrower than 0 or wider than 2 columns.
pub proof fn lemma_char_width_bounds(code: u32)
    ensures
        0 <= char_width(code) <= 2,
{
    lemma_width_from_bounds(code, 0);
}

/// A text takes no fewer columns than any of its beginnings, and at most two
/// for each character.
pub proof fn lemma_text_width_grows(text: Seq<char>, shorter: int)
    requires
        0 <= shorter <= text.len(),
    ensures
        0 <= text_width(text.take(shorter)) <= text_width(text) <= 2 * text.len(),
    decreases text.len(),
{
    if text.len() == 0 {
        assert(text.take(shorter) =~= text);
    } else {
        lemma_char_width_bounds(text.last() as u32);
        if shorter == text.len() {
            assert(text.take(shorter) =~= text);
            lemma_text_width_grows(text.drop_last(), shorter - 1);
        } else {
            lemma_text_width_grows(text.drop_last(), shorter);
            assert(text.drop_last().take(shorter) =~= text.take(shorter));
        }
    }
}

/// The number of columns that the character with code `o` takes.
pub fn get_char_width(o: u32) -> (width: i32)
    ensures
        width == char_width(o),
        0 <= width <= 2,
{
    proof {
        lemma_char_width_bounds(o);
    }
    if o == 0xe || o == 0xf {
        return 0;
    }
    let mut i: usize = 0;
    while i < 38
        invariant
            i <= 38,
            WIDTHS@.len() == 38,
            o != 0xe && o != 0xf,
            width_from(WIDTHS@, o, 0) == width_from(WIDTHS@, o, i as int),
        decreases 38 - i,
    {
        let entry = WIDTHS[i];
        assert(entry == WIDTHS@[i as int]);
        if o <= entry.0 {
            return entry.1;
        }
        i += 1;
    }
    1
}

/// The number of columns that `s` takes.
pub fn column_width(s: &str) -> (width: u64)
    requires
        s@.len() <= 0x7fff_ffff,
    ensures
        width == text_width(s@),
{
    let chars = chars_of(s);
    let mut width: u64 = 0;
    let mut i: usize = 0;
    assert(s@.take(0) =~= Seq::<char>::empty());
    while i < chars.len()
        invariant
            i <= chars.len(),
            chars@ == s@,
            s@.len() <= 0x7fff_ffff,
            width == text_width(s@.take(i as int)),
            width <= 2 * i,
        decreases chars.len() - i,
    {
        let step = get_char_width(chars[i] as u32);
        proof {
            assert(s@.take(i + 1).drop_last() =~= s@.take(i as int));
            assert(s@.take(i + 1).last() == chars@[i as int]);
        }
        width = width + step as u64;
        i += 1;
    }
    assert(s@.take(chars.len() as int) =~= s@);
    width
}

/// The longest beginning of `s` that takes at most `len` columns.
///
/// The result is a beginning of `s`; it is empty or fits into `len` columns;
/// and it is all of `s`, or with the next character it would not fit.
pub fn change_column_width(s: &str, len: i32) -> (cut: String)
    ensures
        cut@.len() <= s@.len(),
        cut@ == s@.take(cut@.len() as int),
        text_width(cut@) <= len || cut@.len() == 0,
        forall|longer: int|
            cut@.len() < longer <= s@.len() ==> text_width(#[trigger] s@.take(longer)) > len,
{
    let chars = chars_of(s);
    let mut kept: Vec<char> = Vec::new();
    let mut res: i64 = 0;
    let mut i: usize = 0;
    assert(s@.take(0) =~= Seq::<char>::empty());
    while i < chars.len()
        invariant
            i <= chars.len(),
            chars@ == s@,
            kept@ == s@.take(i as int),
            res == text_width(s@.take(i as int)),
            0 <= res,
            i == 0 || res <= len,
        decreases chars.len() - i,
    {
        let step = get_char_width(chars[i] as u32);
        proof {
            assert(s@.take(i + 1).drop_last() =~= s@.take(i as int));
            assert(s@.take(i + 1).last() == chars@[i as int]);
            lemma_text_width_grows(s@.take(i as int), 0);
        }
        res = res + step as i64;
        if res <= len as i64 {
            kept.push(chars[i]);
            assert(s@.take(i + 1) =~= s@.take(i as int).push(chars@[i as int]));
        } else {
            proof {
                assert forall|longer: int| i < longer <= s@.len() implies text_width(
                    #[trigger] s@.take(longer),
                ) > len by {
                    lemma_text_width_grows(s@.take(longer), i + 1);
                    assert(s@.take(longer).take(i + 1) =~= s@.take(i + 1));
                }
            }
            return text_of(&kept);
        }
        i += 1;
    }
    assert(s@.take(chars.len() as int) =~= s@);
    text_of(&kept)
}

} // verus!
