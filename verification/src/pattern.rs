//! The boundary pattern: what the `regex` crate is trusted to do, and the
//! matcher that reads a sender address and a date text off a boundary line.

use regex::Regex;
use vstd::prelude::*;

verus! {

/// The boundary pattern of archives whose date field is thirty characters
/// wide: the marker `From `, an address without white space, a blank and
/// the date field.
pub const FROM_LINE_WIDE: &'static str = r"^From ([^\s]+) (.{30})";

/// The boundary pattern of archives whose date field is twenty-four
/// characters wide.
pub const FROM_LINE_NARROW: &'static str = r"^From ([^\s]+) (.{24})";

/// `regex::Regex`, a compiled pattern. Verus sees nothing inside it.
#[verifier::external_type_specification]
#[verifier::external_body]
pub struct ExRegex(Regex);

/// `regex::Error`, what compiling a pattern fails with.
#[verifier::external_type_specification]
#[verifier::external_body]
pub struct ExRegexError(regex::Error);

/// A boundary pattern that the `regex` crate did not compile.
#[derive(Clone, Copy, Debug, PartialEq, Eq)]
pub struct InvalidPattern;

/// Whether `Regex::new` compiles `pattern`, with the limits it sets by
/// itself.
pub uninterp spec fn regex_compiles(pattern: Seq<char>) -> bool;

/// The pattern that `re` searches for. For a regex that `Regex::new`
/// compiled it is the text that was compiled. It is not what
/// `Regex::as_str` returns of every regex: one that was built with other
/// options matches differently on the same text, and nothing is said here
/// of what pattern such a regex has.
pub uninterp spec fn regex_pattern(re: Regex) -> Seq<char>;

/// Whether `pattern` has a match anywhere in `haystack`: the result of
/// `Regex::is_match`.
pub uninterp spec fn regex_is_match(pattern: Seq<char>, haystack: Seq<char>) -> bool;

/// The capture groups of the first match of `pattern` in `haystack`, group 0
/// first, each with the text it matched or `None` where it took no part in
/// the match; `None` where there is no match: the result of
/// `Regex::captures`.
pub uninterp spec fn regex_captures(pattern: Seq<char>, haystack: Seq<char>) -> Option<
    Seq<Option<Seq<char>>>,
>;

/// The texts of the capture groups in `groups`.
pub open spec fn group_texts(groups: Seq<Option<String>>) -> Seq<Option<Seq<char>>> {
    Seq::new(
        groups.len(),
        |i: int|
            match groups[i] {
                Some(text) => Some(text@),
                None => None,
            },
    )
}

/// Calls `Regex::new`. Trusted: whether a regex comes back depends on
/// the pattern alone, and is named `regex_compiles`; one that comes back
/// searches for the pattern that was handed in.
#[verifier::external_body]
fn regex_new(pattern: &str) -> (compiled: Result<Regex, regex::Error>)
    ensures
        compiled is Ok <==> regex_compiles(pattern@),
        compiled matches Ok(re) ==> regex_pattern(re) == pattern@,
{
    Regex::new(pattern)
}

/// Calls `Regex::is_match`. Trusted: the answer depends on the pattern and
/// the haystack alone, and is named `regex_is_match`.
#[verifier::external_body]
pub(crate) fn regex_matches(re: &Regex, haystack: &str) -> (found: bool)
    ensures
        found == regex_is_match(regex_pattern(*re), haystack@),
{
    re.is_match(haystack)
}

/// Calls `Regex::captures` and copies out the text of every group. Trusted:
/// the groups depend on the pattern and the haystack alone, and are named
/// `regex_captures`; there are groups exactly where `Regex::is_match`
/// finds a match.
#[verifier::external_body]
fn regex_groups(re: &Regex, haystack: &str) -> (groups: Option<Vec<Option<String>>>)
    ensures
        groups_view(groups) == regex_captures(regex_pattern(*re), haystack@),
        groups is Some <==> regex_is_match(regex_pattern(*re), haystack@),
{
    re.captures(haystack).map(
        |found| found.iter().map(|group| group.map(|m| m.as_str().to_owned())).collect(),
    )
}

/// Whether `line` is a boundary line under `pattern`.
pub open spec fn is_boundary(pattern: Seq<char>, line: Seq<char>) -> bool {
    regex_is_match(pattern, line)
}

/// The sender address and the date text among the capture groups of a
/// match: the first and the second group after the whole match. `None`
/// where there is no match, or where one of the two groups is missing.
pub open spec fn fields_of(groups: Option<Seq<Option<Seq<char>>>>) -> Option<
    (Seq<char>, Seq<char>),
> {
    match groups {
        Some(found) => if found.len() >= 3 && found[1] is Some && found[2] is Some {
            Some((found[1]->0, found[2]->0))
        } else {
            None
        },
        None => None,
    }
}

/// The sender address and the date text that `pattern` captures on `line`.
pub open spec fn boundary_fields(pattern: Seq<char>, line: Seq<char>) -> Option<
    (Seq<char>, Seq<char>),
> {
    fields_of(regex_captures(pattern, line))
}

/// The capture groups `groups` as a mathematical value.
pub open spec fn groups_view(groups: Option<Vec<Option<String>>>) -> Option<
    Seq<Option<Seq<char>>>,
> {
    match groups {
        Some(found) => Some(group_texts(found@)),
        None => None,
    }
}

/// The fields `fields` as a mathematical value.
pub open spec fn fields_view(fields: Option<(String, String)>) -> Option<(Seq<char>, Seq<char>)> {
    match fields {
        Some((address, date_text)) => Some((address@, date_text@)),
        None => None,
    }
}

/// Compiles a boundary pattern.
///
/// Whether a pattern compiles is for the `regex` crate to say; a regex that
/// comes back searches for `pattern`.
pub fn compile(pattern: &str) -> (compiled: Result<Regex, InvalidPattern>)
    ensures
        compiled is Ok <==> regex_compiles(pattern@),
        compiled matches Ok(re) ==> regex_pattern(re) == pattern@,
{
    compiled_or_invalid(regex_new(pattern))
}

/// What the answer of the `regex` crate to a pattern means for the
/// library: the regex where one came back, and an invalid pattern where
/// none did, whatever the crate's reason.
pub fn compiled_or_invalid(answer: Result<Regex, regex::Error>) -> (compiled: Result<
    Regex,
    InvalidPattern,
>)
    ensures
        match answer {
            Ok(re) => compiled == Ok::<Regex, InvalidPattern>(re),
            Err(_) => compiled == Err::<Regex, InvalidPattern>(InvalidPattern),
        },
{
    match answer {
        Ok(re) => Ok(re),
        Err(_) => Err(InvalidPattern),
    }
}

/// Picks the sender address and the date text out of the capture groups of
/// a match.
pub fn pick_fields(groups: Option<Vec<Option<String>>>) -> (fields: Option<(String, String)>)
    ensures
        fields_view(fields) == fields_of(groups_view(groups)),
{
    match groups {
        Some(mut found) => {
            if found.len() < 3 {
                return None;
            }
            let date_text = found.swap_remove(2);
            let address = found.swap_remove(1);
            match (address, date_text) {
                (Some(address), Some(date_text)) => Some((address, date_text)),
                _ => None,
            }
        },
        None => None,
    }
}

/// Reads the sender address and the date text off a boundary line. The date
/// text is handed back as it stands: whether it is a date is not asked here.
/// A line on which fields are found is a boundary line.
pub fn match_from_line(re: &Regex, line: &str) -> (fields: Option<(String, String)>)
    ensures
        fields_view(fields) == boundary_fields(regex_pattern(*re), line@),
        fields is Some ==> is_boundary(regex_pattern(*re), line@),
{
    pick_fields(regex_groups(re, line))
}

} // verus!
