//! What the catalog search takes from other crates: word segmentation, the
//! traditional form of a text, and the edit distance of two texts.

use vstd::prelude::*;
use crate::text::chars_of;

verus! {

/// The words into which `jieba_rs` cuts a text with its built-in dictionary
/// and with the hidden Markov model switched on.
pub uninterp spec fn segmentation(text: Seq<char>) -> Seq<Seq<char>>;

/// The text that `zhconv` gives as the traditional-script form of a text.
pub uninterp spec fn traditional_form(text: Seq<char>) -> Seq<char>;

/// The smaller of two numbers.
pub open spec fn least(a: nat, b: nat) -> nat {
    if a <= b {
        a
    } else {
        b
    }
}

/// The edit distance of two texts: the smallest number of characters to
/// insert, delete, or replace by another that turns `a` into `b`.
pub open spec fn edit_distance(a: Seq<char>, b: Seq<char>) -> nat
    decreases a.len() + b.len(),
{
    if a.len() == 0 {
        b.len()
    } else if b.len() == 0 {
        a.len()
    } else {
        let kept: nat = if a.last() == b.last() {
            0
        } else {
            1
        };
        least(
            edit_distance(a.drop_last(), b.drop_last()) + kept,
            least(edit_distance(a.drop_last(), b) + 1, edit_distance(a, b.drop_last()) + 1),
        )
    }
}

/// `Jieba::cut` of `jieba_rs`, on a segmenter made by `Jieba::new`, with the
/// hidden Markov model switched on. The words depend on the text alone; the
/// contract gives them a name and says nothing else of them.
#[verifier::external_body]
pub(crate) fn jieba_cut(text: &str) -> (words: Vec<String>)
    ensures
        words.deep_view() == segmentation(text@),
{
    jieba_rs::Jieba::new().cut(text, true).into_iter().map(String::from).collect()
}

/// `zhconv::zhconv` with the target `Variant::ZhHant`. The converted text
/// depends on the text alone; the contract gives it a name and says nothing
/// else of it.
#[verifier::external_body]
pub(crate) fn zhconv_traditional(text: &str) -> (converted: String)
    ensures
        converted@ == traditional_form(text@),
{
    zhconv::zhconv(text, zhconv::Variant::ZhHant)
}

/// `levenshtein::levenshtein`: the Levenshtein distance of two texts, counted
/// in characters.
#[verifier::external_body]
pub(crate) fn levenshtein_distance(a: &str, b: &str) -> (distance: usize)
    ensures
        distance == edit_distance(a@, b@),
{
    levenshtein::levenshtein(a, b)
}

/// Whether a word made of `c` alone carries no meaning in a query.
pub open spec fn is_stop_char(c: char) -> bool {
    ||| c == '\u{7684}'
    ||| c == ' '
    ||| c == '!'
    ||| c == '"'
    ||| c == '\u{201C}'
    ||| c == '\u{201D}'
    ||| c == '@'
    ||| c == '#'
    ||| c == '$'
    ||| c == '%'
    ||| c == '^'
    ||| c == '&'
    ||| c == '*'
    ||| c == '('
    ||| c == ')'
    ||| c == '-'
    ||| c == '='
    ||| c == '+'
    ||| c == '['
    ||| c == ']'
    ||| c == '{'
    ||| c == '}'
    ||| c == ';'
    ||| c == ':'
    ||| c == '<'
    ||| c == '>'
    ||| c == ','
    ||| c == '.'
    ||| c == '/'
    ||| c == '?'
}

/// Whether `word` is dropped from a query: it is a single character, and that
/// character is the possessive particle, the space or a punctuation mark.
pub open spec fn is_stop_word(word: Seq<char>) -> bool {
    word.len() == 1 && is_stop_char(word[0])
}

/// The test that a word passes if it stays in a query.
pub open spec fn meaningful() -> spec_fn(Seq<char>) -> bool {
    |word: Seq<char>| !is_stop_word(word)
}

/// The words of a query for `text`: its segmentation without the stop words.
pub open spec fn keywords_of(text: Seq<char>) -> Seq<Seq<char>> {
    segmentation(text).filter(meaningful())
}

/// Whether a word made of `c` alone carries no meaning in a query.
fn stop_char(c: char) -> (stop: bool)
    ensures
        stop == is_stop_char(c),
{
    c == '\u{7684}' || c == ' ' || c == '!' || c == '"' || c == '\u{201C}' || c == '\u{201D}'
        || c == '@' || c == '#' || c == '$' || c == '%' || c == '^' || c == '&' || c == '*' || c
        == '(' || c == ')' || c == '-' || c == '=' || c == '+' || c == '[' || c == ']' || c == '{'
        || c == '}' || c == ';' || c == ':' || c == '<' || c == '>' || c == ',' || c == '.' || c
        == '/' || c == '?'
}

/// Whether `word` is dropped from a query.
pub fn stop_word(word: &str) -> (stop: bool)
    ensures
        stop == is_stop_word(word@),
{
    let chars = chars_of(word);
    chars.len() == 1 && stop_char(chars[0])
}

/// The words of `tokens` that are no stop words, in their order.
pub fn strip_stopwords(tokens: &Vec<String>) -> (kept: Vec<String>)
    ensures
        kept.deep_view() == tokens.deep_view().filter(meaningful()),
{
    let mut kept: Vec<String> = Vec::new();
    let mut i: usize = 0;
    assert(tokens.deep_view().take(0).filter(meaningful()) =~= Seq::<Seq<char>>::empty()) by {
        assert(tokens.deep_view().take(0) =~= Seq::<Seq<char>>::empty());
    }
    assert(kept.deep_view() =~= Seq::<Seq<char>>::empty());
    while i < tokens.len()
        invariant
            i <= tokens.len(),
            kept.deep_view() == tokens.deep_view().take(i as int).filter(meaningful()),
        decreases tokens.len() - i,
    {
        let ghost before = kept.deep_view();
        let ghost seen = tokens.deep_view().take(i as int);
        proof {
            assert(tokens.deep_view().take(i + 1) =~= seen.push(tokens[i as int]@));
            seen.lemma_filter_push(tokens[i as int]@, meaningful());
        }
        if !stop_word(tokens[i].as_str()) {
            kept.push(tokens[i].clone());
            assert(kept.deep_view() =~= before.push(tokens[i as int]@));
        }
        i += 1;
    }
    assert(tokens.deep_view().take(tokens.len() as int) =~= tokens.deep_view());
    kept
}

/// The words to look up for a query for `text`.
pub fn keywords(text: &str) -> (words: Vec<String>)
    ensures
        words.deep_view() == keywords_of(text@),
{
    let words = jieba_cut(text);
    strip_stopwords(&words)
}

} // verus!
