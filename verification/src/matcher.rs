//! Pattern matching by the `regex` crate.
//!
//! The two functions at the end of this file call into `regex`; their
//! contracts are taken from that crate's documentation and are not proved
//! here. Everything else is verified against them.

use crate::text::char_text;
use vstd::prelude::*;

verus! {

/// Whether `c` is one of `A`..`Z` or `a`..`z`.
pub open spec fn is_ascii_letter(c: char) -> bool {
    ('A' <= c && c <= 'Z') || ('a' <= c && c <= 'z')
}

/// Whether `pattern` is a bracketed class of plain ASCII letters, such as
/// `[abc]`: an opening bracket, between one and 52 letters, and a closing
/// bracket.
pub open spec fn is_letter_class(pattern: Seq<char>) -> bool {
    &&& 3 <= pattern.len() <= 54
    &&& pattern[0] == '['
    &&& pattern[pattern.len() - 1] == ']'
    &&& forall|i: int| 1 <= i < pattern.len() - 1 ==> is_ascii_letter(#[trigger] pattern[i])
}

/// The letters between the brackets of a letter class.
pub open spec fn class_letters(pattern: Seq<char>) -> Seq<char> {
    pattern.subrange(1, pattern.len() - 1)
}

/// Whether some character of `text` is one of the letters of the class
/// `pattern`.
pub open spec fn has_class_letter(pattern: Seq<char>, text: Seq<char>) -> bool {
    exists|i: int| 0 <= i < text.len() && class_letters(pattern).contains(#[trigger] text[i])
}

/// What `regex` captures when the pattern `pattern` is searched in `text`:
/// `None` if `pattern` is not a valid pattern or matches nowhere in `text`;
/// otherwise the text of every capture group of the leftmost match, group 0
/// (the whole match) first, with `None` for a group that took no part.
pub uninterp spec fn captured_groups(pattern: Seq<char>, text: Seq<char>) -> Option<
    Seq<Option<Seq<char>>>,
>;

/// The texts that `groups` holds.
pub open spec fn groups_view(groups: Option<Vec<Option<String>>>) -> Option<
    Seq<Option<Seq<char>>>,
> {
    match groups {
        None => None,
        Some(v) => Some(
            v@.map_values(
                |g: Option<String>|
                    match g {
                        Some(s) => Some(s@),
                        None => None,
                    },
            ),
        ),
    }
}

/// Whether `c` is one of the letters of the letter class `pattern`.
pub(crate) fn is_class_letter(pattern: &str, c: char) -> (found: bool)
    requires
        is_letter_class(pattern@),
    ensures
        found == class_letters(pattern@).contains(c),
{
    let text = char_text(c);
    let found = class_is_match(pattern, text.as_str());
    proof {
        if class_letters(pattern@).contains(c) {
            assert(text@[0] == c);
        }
    }
    found
}

/// Compiles `pattern` with `regex::Regex::new` and asks `Regex::is_match`
/// whether it matches anywhere in `text`.
///
/// Trusted: for a bracketed class of plain letters, compiled with the
/// crate's defaults, there is a match exactly if some character of the text
/// is one of the listed letters (case matters).
#[verifier::external_body]
pub(crate) fn class_is_match(pattern: &str, text: &str) -> (found: bool)
    requires
        is_letter_class(pattern@),
    ensures
        found == has_class_letter(pattern@, text@),
{
    match regex::Regex::new(pattern) {
        Ok(re) => re.is_match(text),
        Err(_) => false,
    }
}

/// Compiles `pattern` with `regex::Regex::new`, searches `text` with
/// `Regex::captures` and copies out the text of each capture group
/// (`Captures::iter`, `Match::as_str`).
///
/// Trusted: the result is a function of the pattern and the text alone. What
/// it is for a given pattern is not stated here.
#[verifier::external_body]
pub(crate) fn regex_captures(pattern: &str, text: &str) -> (groups: Option<Vec<Option<String>>>)
    ensures
        groups_view(groups) == captured_groups(pattern@, text@),
{
    let re = match regex::Regex::new(pattern) {
        Ok(re) => re,
        Err(_) => return None,
    };
    let caps = re.captures(text)?;
    let mut groups = Vec::new();
    for group in caps.iter() {
        groups.push(
            match group {
                Some(found) => Some(found.as_str().to_string()),
                None => None,
            },
        );
    }
    Some(groups)
}

} // verus!
