//! Text as sequences of characters: decoding, searching, ordering and
//! width folding.

use vstd::prelude::*;

verus! {

/// Whether `code` is a Unicode scalar value, that is, a code point outside the
/// surrogate range.
pub open spec fn is_scalar_value(code: u32) -> bool {
    code <= 0xD7FF || 0xE000 <= code <= 0x10FFFF
}

/// `char::from_u32` of the standard library: the character with the given
/// code, where the code is a Unicode scalar value, and nothing otherwise.
pub assume_specification[ char::from_u32 ](code: u32) -> (c: Option<char>)
    ensures
        is_scalar_value(code) ==> c == Some(code as char),
        !is_scalar_value(code) ==> c is None,
;

/// `String::push` of the standard library: appends one character.
pub assume_specification[ String::push ](s: &mut String, c: char)
    ensures
        final(s)@ == old(s)@.push(c),
;

/// The lower-case form that the standard library gives a text.
pub uninterp spec fn lowercase(text: Seq<char>) -> Seq<char>;

/// `str::to_lowercase` of the standard library. Its result follows the Unicode
/// lower-case mappings and depends on the text alone.
pub assume_specification[ str::to_lowercase ](s: &str) -> (folded: String)
    ensures
        folded@ == lowercase(s@),
;

/// The characters of `text`, in order.
pub fn chars_of(text: &str) -> (chars: Vec<char>)
    ensures
        chars@ == text@,
{
    let mut chars: Vec<char> = Vec::new();
    for c in it: text.chars()
        invariant
            chars@ == it.seq().take(it.index() as int),
            it.seq() == text@,
    {
        chars.push(c);
    }
    chars
}

/// The text made of `chars`, in order.
pub fn text_of(chars: &Vec<char>) -> (text: String)
    ensures
        text@ == chars@,
{
    let mut text = String::new();
    let mut i: usize = 0;
    while i < chars.len()
        invariant
            i <= chars.len(),
            text@ == chars@.take(i as int),
        decreases chars.len() - i,
    {
        text.push(chars[i]);
        assert(chars@.take(i as int).push(chars@[i as int]) =~= chars@.take(i + 1));
        i += 1;
    }
    assert(chars@.take(chars.len() as int) =~= chars@);
    text
}

/// Whether `needle` stands in `text` at position `at`.
pub open spec fn occurs_at(text: Seq<char>, needle: Seq<char>, at: int) -> bool {
    &&& 0 <= at
    &&& at + needle.len() <= text.len()
    &&& text.subrange(at, at + needle.len()) == needle
}

/// Whether `needle` is a contiguous part of `text`. The empty text is part of every text.
pub open spec fn contains_text(text: Seq<char>, needle: Seq<char>) -> bool {
    exists|at: int| occurs_at(text, needle, at)
}

/// Whether `needle` stands in `text` at position `at`.
fn matches_at(text: &Vec<char>, needle: &Vec<char>, at: usize) -> (found: bool)
    requires
        at + needle.len() <= text.len(),
    ensures
        found == occurs_at(text@, needle@, at as int),
{
    let mut k: usize = 0;
    while k < needle.len()
        invariant
            k <= needle.len(),
            at + needle.len() <= text.len(),
            forall|j: int| 0 <= j < k ==> text@[at + j] == needle@[j],
        decreases needle.len() - k,
    {
        if text[at + k] != needle[k] {
            assert(text@.subrange(at as int, at + needle.len())[k as int] != needle@[k as int]);
            return false;
        }
        k += 1;
    }
    assert(text@.subrange(at as int, at + needle.len()) =~= needle@);
    true
}

/// Searches `text` for `needle`.
pub fn contains_chars(text: &Vec<char>, needle: &Vec<char>) -> (found: bool)
    ensures
        found == contains_text(text@, needle@),
{
    if needle.len() > text.len() {
        return false;
    }
    let last: usize = text.len() - needle.len();
    let mut at: usize = 0;
    loop
        invariant
            last == text.len() - needle.len(),
            at <= last,
            forall|j: int| 0 <= j < at ==> !occurs_at(text@, needle@, j),
        decreases last - at,
    {
        if matches_at(text, needle, at) {
            return true;
        }
        if at == last {
            return false;
        }
        at += 1;
    }
}

/// The strict dictionary order of texts, character by character by code
/// point: a proper prefix comes before the longer text.
pub open spec fn text_before(a: Seq<char>, b: Seq<char>) -> bool
    decreases a.len(),
{
    if b.len() == 0 {
        false
    } else if a.len() == 0 {
        true
    } else if a[0] != b[0] {
        a[0] < b[0]
    } else {
        text_before(a.drop_first(), b.drop_first())
    }
}

/// Of two different characters exactly one has the smaller code point.
proof fn lemma_char_order(x: char, y: char)
    ensures
        x != y ==> (x < y <==> !(y < x)),
{
}

/// The order of characters by code point is transitive.
proof fn lemma_char_order_transitive(x: char, y: char, z: char)
    requires
        x < y,
        y < z,
    ensures
        x < z,
{
}

/// Dropping a common prefix does not change the order of two texts.
pub proof fn lemma_text_before_skip(a: Seq<char>, b: Seq<char>, n: int)
    requires
        0 <= n <= a.len(),
        n <= b.len(),
        a.take(n) == b.take(n),
    ensures
        text_before(a, b) == text_before(a.skip(n), b.skip(n)),
    decreases n,
{
    if n == 0 {
        assert(a.skip(0) =~= a);
        assert(b.skip(0) =~= b);
    } else {
        assert(a[0] == a.take(n)[0]);
        assert(b[0] == b.take(n)[0]);
        assert(a.drop_first().take(n - 1) =~= a.take(n).drop_first());
        assert(b.drop_first().take(n - 1) =~= b.take(n).drop_first());
        lemma_text_before_skip(a.drop_first(), b.drop_first(), n - 1);
        assert(a.drop_first().skip(n - 1) =~= a.skip(n));
        assert(b.drop_first().skip(n - 1) =~= b.skip(n));
    }
}

/// No text comes before itself.
pub proof fn lemma_text_before_irreflexive(a: Seq<char>)
    ensures
        !text_before(a, a),
    decreases a.len(),
{
    if a.len() > 0 {
        lemma_text_before_irreflexive(a.drop_first());
    }
}

/// Of two different texts exactly one comes before the other.
pub proof fn lemma_text_before_total(a: Seq<char>, b: Seq<char>)
    ensures
        a != b ==> (text_before(a, b) <==> !text_before(b, a)),
        a == b ==> !text_before(a, b) && !text_before(b, a),
    decreases a.len(),
{
    if a == b {
        lemma_text_before_irreflexive(a);
    } else if a.len() == 0 || b.len() == 0 {
        if a.len() == 0 && b.len() == 0 {
            assert(a =~= b);
        }
    } else if a[0] != b[0] {
        lemma_char_order(a[0], b[0]);
    } else {
        if a.drop_first() == b.drop_first() {
            assert(a =~= seq![a[0]] + a.drop_first());
            assert(b =~= seq![b[0]] + b.drop_first());
        }
        lemma_text_before_total(a.drop_first(), b.drop_first());
    }
}

/// The dictionary order is transitive.
pub proof fn lemma_text_before_transitive(a: Seq<char>, b: Seq<char>, c: Seq<char>)
    requires
        text_before(a, b),
        text_before(b, c),
    ensures
        text_before(a, c),
    decreases a.len(),
{
    if a.len() > 0 {
        if a[0] == b[0] && b[0] == c[0] {
            lemma_text_before_transitive(a.drop_first(), b.drop_first(), c.drop_first());
        } else if a[0] != b[0] && b[0] != c[0] {
            lemma_char_order_transitive(a[0], b[0], c[0]);
            lemma_char_order(a[0], c[0]);
        }
    }
}

/// Whether `a` comes before `b` in dictionary order.
pub fn chars_before(a: &Vec<char>, b: &Vec<char>) -> (before: bool)
    ensures
        before == text_before(a@, b@),
{
    let mut i: usize = 0;
    while i < a.len() && i < b.len()
        invariant
            i <= a.len(),
            i <= b.len(),
            a@.take(i as int) == b@.take(i as int),
        decreases a.len() - i,
    {
        if a[i] != b[i] {
            proof {
                lemma_text_before_skip(a@, b@, i as int);
            }
            return a[i] < b[i];
        }
        assert(a@.take(i + 1) =~= a@.take(i as int).push(a@[i as int]));
        assert(b@.take(i + 1) =~= b@.take(i as int).push(b@[i as int]));
        i += 1;
    }
    proof {
        lemma_text_before_skip(a@, b@, i as int);
    }
    i < b.len()
}

/// The half-width form of a character: the ideographic space becomes the
/// plain space, and a character of the full-width block (U+FF00 to U+FFEF)
/// moves down by `0xFEE0`; every other character stays.
pub open spec fn half_width(c: char) -> char {
    if c as u32 == 0x3000 {
        ' '
    } else if 0xFF00 <= c as u32 <= 0xFFEF {
        ((c as u32 - 0xFEE0) as u32) as char
    } else {
        c
    }
}

/// The half-width form of one character.
pub fn char_to_half_width(c: char) -> (narrow: char)
    ensures
        narrow == half_width(c),
{
    let code: u32 = c as u32;
    if code == 0x3000 {
        ' '
    } else if code >= 0xFF00 && code <= 0xFFEF {
        match char::from_u32(code - 0xFEE0) {
            Some(narrow) => narrow,
            None => c,
        }
    } else {
        c
    }
}

/// Replaces every full-width character of `input_string` by its half-width
/// form. The result has as many characters as the input.
pub fn string_to_half_width(input_string: &str) -> (narrow: String)
    ensures
        narrow@ == input_string@.map_values(|c: char| half_width(c)),
{
    let chars = chars_of(input_string);
    let mut narrow = String::new();
    let mut i: usize = 0;
    while i < chars.len()
        invariant
            i <= chars.len(),
            chars@ == input_string@,
            narrow@ == input_string@.take(i as int).map_values(|c: char| half_width(c)),
        decreases chars.len() - i,
    {
        narrow.push(char_to_half_width(chars[i]));
        assert(input_string@.take(i + 1).map_values(|c: char| half_width(c))
            =~= input_string@.take(i as int).map_values(|c: char| half_width(c)).push(
            half_width(input_string@[i as int]),
        ));
        i += 1;
    }
    assert(input_string@.take(chars.len() as int) =~= input_string@);
    narrow
}

} // verus!
