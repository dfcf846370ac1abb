//! Turning raw glyph identifiers into names that are legal in the generated macros.
use convert_case::{Case, Casing};
use vstd::prelude::*;
use vstd::string::{StrSliceExecFns, StringExecFns};

verus! {

/// What `char::is_numeric` answers for a character.
pub uninterp spec fn numeric_char(c: char) -> bool;

/// What `convert_case` produces for a string in kebab case.
pub uninterp spec fn kebab_of(s: Seq<char>) -> Seq<char>;

/// What `convert_case` produces for a string in camel case.
pub uninterp spec fn camel_of(s: Seq<char>) -> Seq<char>;

pub open spec fn is_ascii_digit(c: char) -> bool {
    '0' <= c && c <= '9'
}

pub open spec fn has_ascii_digit(s: Seq<char>) -> bool {
    exists|i: int| 0 <= i < s.len() && is_ascii_digit(#[trigger] s[i])
}

/// The fixed letter that stands for a numeral; every numeral other than
/// `1` to `9` becomes `s`.
pub open spec fn digit_letter(c: char) -> char {
    if c == '1' {
        'l'
    } else if c == '2' {
        'a'
    } else if c == '3' {
        't'
    } else if c == '4' {
        'e'
    } else if c == '5' {
        'x'
    } else if c == '6' {
        'i'
    } else if c == '7' {
        'c'
    } else if c == '8' {
        'o'
    } else if c == '9' {
        'n'
    } else {
        's'
    }
}

pub open spec fn substituted_char(c: char) -> char {
    if numeric_char(c) {
        digit_letter(c)
    } else {
        c
    }
}

/// The string with each numeral replaced by its letter.
pub open spec fn substituted(s: Seq<char>) -> Seq<char> {
    s.map_values(|c: char| substituted_char(c))
}

/// The identifier of a font family for a raw prefix.
pub open spec fn family_of(s: Seq<char>) -> Seq<char> {
    camel_of(substituted(s))
}

/// Relies on `char::is_numeric`: a Unicode numeral test, true of the ASCII digits.
#[verifier::external_body]
fn is_numeric(c: char) -> (r: bool)
    ensures
        r == numeric_char(c),
        is_ascii_digit(c) ==> r,
{
    c.is_numeric()
}

/// Relies on `String::push`: appends one character.
#[verifier::external_body]
pub(crate) fn push_char(s: &mut String, c: char)
    ensures
        final(s)@ == old(s)@.push(c),
{
    s.push(c)
}

/// Relies on `convert_case`'s `to_case(Case::Kebab)`.
#[verifier::external_body]
fn kebab(s: &str) -> (r: String)
    ensures
        r@ == kebab_of(s@),
{
    s.to_case(Case::Kebab)
}

/// Relies on `convert_case`'s `to_case(Case::Camel)`: the words of the input are
/// re-cased and joined with no delimiter, so no ASCII digit appears that the input
/// did not hold.
#[verifier::external_body]
fn camel(s: &str) -> (r: String)
    ensures
        r@ == camel_of(s@),
        !has_ascii_digit(s@) ==> !has_ascii_digit(r@),
{
    s.to_case(Case::Camel)
}

/// Replaces every numeral of `input` by its letter (`1→l, 2→a, 3→t, 4→e, 5→x,
/// 6→i, 7→c, 8→o, 9→n`, any other numeral `→s`); other characters stay.
pub fn replace_numbers_to_letters(input: &str) -> (r: String)
    ensures
        r@ == substituted(input@),
        !has_ascii_digit(r@),
{
    let n = input.unicode_len();
    let mut result = String::new();
    let mut i: usize = 0;
    while i < n
        invariant
            n == input@.len(),
            i <= n,
            result@ == substituted(input@.subrange(0, i as int)),
            forall|j: int| 0 <= j < result@.len() ==> !is_ascii_digit(#[trigger] result@[j]),
        decreases n - i,
    {
        let c = input.get_char(i);
        let next = if is_numeric(c) {
            match c {
                '1' => 'l',
                '2' => 'a',
                '3' => 't',
                '4' => 'e',
                '5' => 'x',
                '6' => 'i',
                '7' => 'c',
                '8' => 'o',
                '9' => 'n',
                _ => 's',
            }
        } else {
            c
        };
        push_char(&mut result, next);
        assert(input@.subrange(0, i + 1) =~= input@.subrange(0, i as int).push(c));
        i = i + 1;
    }
    assert(input@.subrange(0, n as int) =~= input@);
    result
}

/// Kebab-case form of a raw glyph identifier.
pub fn to_glyph_name(raw: &str) -> (r: String)
    ensures
        r@ == kebab_of(raw@),
{
    kebab(raw)
}

/// Camel-case font-family identifier of a raw prefix, numerals replaced by letters
/// first; the result holds no ASCII digit.
pub fn to_family_identifier(raw: &str) -> (r: String)
    ensures
        r@ == family_of(raw@),
        !has_ascii_digit(r@),
{
    let replaced = replace_numbers_to_letters(raw);
    camel(replaced.as_str())
}

} // verus!
