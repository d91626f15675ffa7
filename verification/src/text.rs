//! Texts: what the functions of the standard library that the tool uses on
//! strings compute.

use vstd::prelude::*;

verus! {

/// Whether the two texts are the same.
pub fn same_text(a: &str, b: &str) -> (r: bool)
    ensures
        r == (a@ == b@),
{
    a.to_owned() == b.to_owned()
}

/// The lower-case form of an ASCII capital; any other character is itself.
pub open spec fn ascii_lower_char(c: char) -> char {
    if 'A' <= c && c <= 'Z' {
        ((c as u8) + 32) as char
    } else {
        c
    }
}

/// The text with every ASCII capital replaced by its lower-case form.
pub open spec fn ascii_lowercase(text: Seq<char>) -> Seq<char> {
    text.map_values(|c: char| ascii_lower_char(c))
}

/// `str::to_ascii_lowercase` of the standard library: a copy of the text in
/// which the letters `A` to `Z` are replaced by `a` to `z` and every other
/// character is kept.
#[verifier::external_body]
pub(crate) fn to_ascii_lowercase(text: &str) -> (lower: String)
    ensures
        lower@ == ascii_lowercase(text@),
{
    text.to_ascii_lowercase()
}

/// `str::eq_ignore_ascii_case` of the standard library: whether the two
/// texts are the same when `A` to `Z` count as `a` to `z`.
#[verifier::external_body]
pub(crate) fn eq_ignore_ascii_case(a: &str, b: &str) -> (r: bool)
    ensures
        r == (ascii_lowercase(a@) == ascii_lowercase(b@)),
{
    a.eq_ignore_ascii_case(b)
}

/// Whether `part` stands somewhere in `text`.
pub open spec fn has_part(text: Seq<char>, part: Seq<char>) -> bool {
    exists|i: int|
        0 <= i && i + part.len() <= text.len() && #[trigger] text.subrange(i, i + part.len())
            == part
}

/// `str::contains` of the standard library, for a pattern that is a string:
/// whether the pattern stands somewhere in the text.
#[verifier::external_body]
pub(crate) fn contains(text: &str, part: &str) -> (b: bool)
    ensures
        b == has_part(text@, part@),
{
    text.contains(part)
}

/// The text without `prefix` at its start, as often as it stands there. An
/// empty prefix takes nothing away.
pub open spec fn without_prefixes(text: Seq<char>, prefix: Seq<char>) -> Seq<char>
    decreases text.len(),
{
    if prefix.len() > 0 && prefix.is_prefix_of(text) {
        without_prefixes(text.skip(prefix.len() as int), prefix)
    } else {
        text
    }
}

/// `str::trim_start_matches` of the standard library, for a pattern that is
/// a string and not empty: the text with every prefix that is the pattern
/// removed, one after the other.
#[verifier::external_body]
pub(crate) fn trim_start_matches(text: &str, prefix: &str) -> (r: String)
    requires
        prefix@.len() > 0,
    ensures
        r@ == without_prefixes(text@, prefix@),
{
    text.trim_start_matches(prefix).to_string()
}

/// The text with `to` in the place of every `from`.
pub open spec fn replaced(text: Seq<char>, from: char, to: Seq<char>) -> Seq<char>
    decreases text.len(),
{
    if text.len() == 0 {
        text
    } else {
        replaced(text.drop_last(), from, to) + (if text.last() == from {
            to
        } else {
            seq![text.last()]
        })
    }
}

/// `str::replace` of the standard library, for a pattern that is a
/// character: a copy of the text with `to` in the place of every `from`.
#[verifier::external_body]
pub(crate) fn replace(text: &str, from: char, to: &str) -> (r: String)
    ensures
        r@ == replaced(text@, from, to@),
{
    text.replace(from, to)
}

/// The lower-case form of a text by the rules of Unicode, as
/// `str::to_lowercase` of the standard library computes it.
pub uninterp spec fn lowercase(text: Seq<char>) -> Seq<char>;

/// `str::to_lowercase` of the standard library: the lower-case form of the
/// text by the rules of Unicode.
#[verifier::external_body]
pub(crate) fn to_lowercase(text: &str) -> (r: String)
    ensures
        r@ == lowercase(text@),
{
    text.to_lowercase()
}

} // verus!
