//! Texts: keys, single-line descriptions and decimal numbers.

use vstd::prelude::*;
use vstd::string::*;

verus! {

/// The lowercase equivalent of a text, as `str::to_lowercase` defines it
/// (the Unicode lowercase mapping, independent of any locale).
pub uninterp spec fn lowercase_of(text: Seq<char>) -> Seq<char>;

/// `str::to_lowercase`. Trusted: the result is the lowercase equivalent of
/// `text`, a function of `text` alone.
#[verifier::external_body]
pub(crate) fn to_lowercase(text: &str) -> (lower: String)
    ensures
        lower@ == lowercase_of(text@),
{
    text.to_lowercase()
}

/// Turns a raw subject name into the key under which it is looked up and
/// cached: the name in lower case. Names that differ only in letter case
/// have the same key.
pub fn normalize(input: &str) -> (key: String)
    ensures
        key@ == lowercase_of(input@),
{
    to_lowercase(input)
}

/// What stands for one character once every `from` has been replaced by `to`.
pub open spec fn replacement(c: char, from: char, to: Seq<char>) -> Seq<char> {
    if c == from {
        to
    } else {
        seq![c]
    }
}

/// A text in which every occurrence of the character `from` has been
/// replaced by the text `to`.
pub open spec fn replaced(text: Seq<char>, from: char, to: Seq<char>) -> Seq<char>
    decreases text.len(),
{
    if text.len() == 0 {
        Seq::empty()
    } else {
        replaced(text.drop_last(), from, to) + replacement(text.last(), from, to)
    }
}

/// `str::replace` with a character as the pattern. Trusted: every occurrence
/// of `from` is replaced by `to`, and nothing else changes.
#[verifier::external_body]
pub(crate) fn replace(text: &str, from: char, to: &str) -> (out: String)
    ensures
        out@ == replaced(text@, from, to@),
{
    text.replace(from, to)
}

/// A text with a space in the place of each newline character.
pub open spec fn spaced(text: Seq<char>) -> Seq<char> {
    Seq::new(
        text.len(),
        |i: int|
            if text[i] == '\n' {
                ' '
            } else {
                text[i]
            },
    )
}

/// Replacing each newline by the one-character text `" "` gives `spaced`.
proof fn lemma_replaced_newlines(text: Seq<char>)
    ensures
        replaced(text, '\n', seq![' ']) == spaced(text),
    decreases text.len(),
{
    if text.len() > 0 {
        lemma_replaced_newlines(text.drop_last());
        assert(replaced(text, '\n', seq![' ']) =~= spaced(text));
    } else {
        assert(replaced(text, '\n', seq![' ']) =~= spaced(text));
    }
}

/// Puts a text on one line: each newline character becomes a single space,
/// every other character stays as it is, in its place.
pub fn single_line(text: &str) -> (line: String)
    ensures
        line@ == spaced(text@),
        line@.len() == text@.len(),
        forall|i: int| 0 <= i < text@.len() && text@[i] == '\n' ==> line@[i] == ' ',
        forall|i: int| 0 <= i < text@.len() && text@[i] != '\n' ==> line@[i] == text@[i],
        !line@.contains('\n'),
{
    let line = replace(text, '\n', " ");
    proof {
        reveal_strlit(" ");
        assert(" "@ =~= seq![' ']);
        lemma_replaced_newlines(text@);
    }
    line
}

/// The character that stands for a digit.
pub open spec fn digit(d: nat) -> char {
    if d == 0 {
        '0'
    } else if d == 1 {
        '1'
    } else if d == 2 {
        '2'
    } else if d == 3 {
        '3'
    } else if d == 4 {
        '4'
    } else if d == 5 {
        '5'
    } else if d == 6 {
        '6'
    } else if d == 7 {
        '7'
    } else if d == 8 {
        '8'
    } else {
        '9'
    }
}

/// A number in decimal notation, without leading zeros.
pub open spec fn decimal(n: nat) -> Seq<char>
    decreases n,
{
    if n < 10 {
        seq![digit(n)]
    } else {
        decimal(n / 10).push(digit(n % 10))
    }
}

fn digit_text(d: u16) -> (text: &'static str)
    requires
        d < 10,
    ensures
        text@ == seq![digit(d as nat)],
{
    proof {
        reveal_strlit("0");
        reveal_strlit("1");
        reveal_strlit("2");
        reveal_strlit("3");
        reveal_strlit("4");
        reveal_strlit("5");
        reveal_strlit("6");
        reveal_strlit("7");
        reveal_strlit("8");
        reveal_strlit("9");
    }
    let text = match d {
        0 => "0",
        1 => "1",
        2 => "2",
        3 => "3",
        4 => "4",
        5 => "5",
        6 => "6",
        7 => "7",
        8 => "8",
        _ => "9",
    };
    assert(text@ =~= seq![digit(d as nat)]);
    text
}

/// Writes a number in decimal notation.
pub fn decimal_text(n: u16) -> (text: String)
    ensures
        text@ == decimal(n as nat),
    decreases n,
{
    if n < 10 {
        String::from_str(digit_text(n))
    } else {
        let mut text = decimal_text(n / 10);
        text.append(digit_text(n % 10));
        assert(text@ =~= decimal(n as nat));
        text
    }
}

} // verus!
