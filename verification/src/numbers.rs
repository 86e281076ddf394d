//! Numbers as they are shown.

use vstd::prelude::*;
use vstd::string::*;
use crate::text::text_of;

verus! {

/// The character that shows the digit `d`.
pub open spec fn digit_char(d: int) -> char {
    ((48 + d) as u8) as char
}

/// The decimal digits of `n`, without leading zeros; the single digit 0 for zero.
pub open spec fn decimal(n: nat) -> Seq<char>
    decreases n,
{
    if n < 10 {
        seq![digit_char(n as int)]
    } else {
        decimal(n / 10).push(digit_char((n % 10) as int))
    }
}

/// `text` behind as many characters `fill` as it takes to make `width`
/// characters; `text` itself if it is not shorter than `width`.
pub open spec fn left_padded(text: Seq<char>, width: nat, fill: char) -> Seq<char> {
    if text.len() >= width {
        text
    } else {
        Seq::new((width - text.len()) as nat, |i: int| fill) + text
    }
}

/// `text` filled up with zeros in front to `width` characters.
pub open spec fn zero_padded(text: Seq<char>, width: nat) -> Seq<char> {
    left_padded(text, width, '0')
}

/// The name of the cover picture of the song `id`: the identifier in decimal
/// digits, filled up with zeros to five digits, and the ending of PNG files.
pub open spec fn cover_name(id: nat) -> Seq<char> {
    zero_padded(decimal(id), 5) + ".png"@
}

/// A level with the fraction of its difficulty constant, as `13+(.7)`.
pub open spec fn level_text(ds: u16, level: Seq<char>) -> Seq<char> {
    level + "(."@ + seq![digit_char((ds % 10) as int)] + ")"@
}

/// A difficulty constant as it is shown: its whole part, and the tenth
/// behind a point unless the tenth is zero.
pub open spec fn constant_text(ds: u16) -> Seq<char> {
    if ds % 10 == 0 {
        decimal((ds / 10) as nat)
    } else {
        decimal((ds / 10) as nat) + "."@ + seq![digit_char((ds % 10) as int)]
    }
}

/// An achievement as it is shown: the percentage with four decimal places
/// and the percent sign.
pub open spec fn percent_text(achievement: u32) -> Seq<char> {
    decimal((achievement / 10_000) as nat) + "."@ + zero_padded(
        decimal((achievement % 10_000) as nat),
        4,
    ) + "%"@
}

/// The character that shows the digit `d`.
fn digit_of(d: u8) -> (c: char)
    requires
        d < 10,
    ensures
        c == digit_char(d as int),
{
    let code: u8 = 48 + d;
    code as char
}

/// The decimal digits of `n`.
fn decimal_digits(n: usize) -> (digits: Vec<char>)
    ensures
        digits@ == decimal(n as nat),
        digits@.len() >= 1,
    decreases n,
{
    if n < 10 {
        let mut digits: Vec<char> = Vec::new();
        digits.push(digit_of(n as u8));
        assert(digits@ =~= seq![digit_char(n as int)]);
        digits
    } else {
        let mut digits = decimal_digits(n / 10);
        digits.push(digit_of((n % 10) as u8));
        digits
    }
}

/// `text` behind as many characters `fill` as it takes to make `width` characters.
fn pad_left(text: &Vec<char>, width: usize, fill: char) -> (padded: Vec<char>)
    ensures
        padded@ == left_padded(text@, width as nat, fill),
{
    let mut padded: Vec<char> = Vec::new();
    let missing: usize = if text.len() < width {
        width - text.len()
    } else {
        0
    };
    let mut i: usize = 0;
    while i < missing
        invariant
            i <= missing,
            padded@ == Seq::new(i as nat, |k: int| fill),
        decreases missing - i,
    {
        padded.push(fill);
        assert(padded@ =~= Seq::new((i + 1) as nat, |k: int| fill));
        i += 1;
    }
    let mut k: usize = 0;
    while k < text.len()
        invariant
            k <= text.len(),
            padded@ == Seq::new(missing as nat, |k: int| fill) + text@.take(k as int),
        decreases text.len() - k,
    {
        padded.push(text[k]);
        assert(text@.take(k + 1) =~= text@.take(k as int).push(text@[k as int]));
        assert(padded@ =~= Seq::new(missing as nat, |k: int| fill) + text@.take(k + 1));
        k += 1;
    }
    assert(text@.take(text.len() as int) =~= text@);
    assert(padded@ =~= left_padded(text@, width as nat, fill));
    padded
}

/// The number `n` in decimal digits.
pub fn number_text(n: usize) -> (text: String)
    ensures
        text@ == decimal(n as nat),
{
    text_of(&decimal_digits(n))
}

/// The number `n` in decimal digits, behind as many characters `fill` as it
/// takes to make `width` characters.
pub fn padded_number(n: usize, width: usize, fill: char) -> (text: String)
    ensures
        text@ == left_padded(decimal(n as nat), width as nat, fill),
{
    text_of(&pad_left(&decimal_digits(n), width, fill))
}

/// The name of the cover picture of the song `id`.
pub fn cover_file_name(id: usize) -> (name: String)
    ensures
        name@ == cover_name(id as nat),
{
    padded_number(id, 5, '0').concat(".png")
}

/// The level of a chart with the fraction of its difficulty constant.
pub fn get_level_str(ds: u16, level: &str) -> (text: String)
    ensures
        text@ == level_text(ds, level@),
{
    let mut text = String::from_str(level).concat("(.");
    text.push(digit_of((ds % 10) as u8));
    assert(text@ =~= level@ + "(."@ + seq![digit_char((ds % 10) as int)]);
    text.concat(")")
}

/// The difficulty constant `ds`, given in tenths, as it is shown.
pub fn ds_text(ds: u16) -> (text: String)
    ensures
        text@ == constant_text(ds),
{
    let mut text = number_text((ds / 10) as usize);
    if ds % 10 != 0 {
        text = text.concat(".");
        text.push(digit_of((ds % 10) as u8));
    }
    text
}

/// The achievement `achievement`, given in ten-thousandths of a percent, as
/// it is shown.
pub fn achievement_text(achievement: u32) -> (text: String)
    ensures
        text@ == percent_text(achievement),
{
    let whole = number_text((achievement / 10_000) as usize);
    let fraction = padded_number((achievement % 10_000) as usize, 4, '0');
    let text = whole.concat(".").concat(fraction.as_str()).concat("%");
    assert(text@ =~= percent_text(achievement));
    text
}

} // verus!
