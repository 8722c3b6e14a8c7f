//! Regular expressions, as the `regex` crate runs them.
use vstd::prelude::*;

verus! {

/// The groups of a match in the order of their numbers; group 0 is the whole
/// match, and a group that took no part in the match is `None`.
pub open spec fn group_texts(groups: Seq<Option<String>>) -> Seq<Option<Seq<char>>> {
    Seq::new(groups.len(), |i: int| crate::text::opt_text(groups[i]))
}

/// What the wrapper of `captures` hands back, by its contents.
pub open spec fn captures_view(found: Option<Vec<Option<String>>>) -> Option<
    Seq<Option<Seq<char>>>,
> {
    match found {
        Some(groups) => Some(group_texts(groups@)),
        None => None,
    }
}

/// Group `i` of a match; `None` where the pattern has no such group.
pub open spec fn group_of(groups: Seq<Option<Seq<char>>>, i: int) -> Option<Seq<char>> {
    if 0 <= i < groups.len() {
        groups[i]
    } else {
        None
    }
}

/// An error of the `regex` crate: a pattern that does not compile.
#[verifier::external_type_specification]
#[verifier::external_body]
pub struct ExRegexError(regex::Error);

/// Whether `regex::Regex::new` accepts the pattern.
pub uninterp spec fn regex_compiles(pattern: Seq<char>) -> bool;

/// What `regex::Regex::is_match` answers for the pattern and the text.
pub uninterp spec fn regex_is_match(pattern: Seq<char>, haystack: Seq<char>) -> bool;

/// The groups that `regex::Regex::captures` finds in the text.
pub uninterp spec fn regex_captures(pattern: Seq<char>, haystack: Seq<char>) -> Option<
    Seq<Option<Seq<char>>>,
>;

/// What `regex::Regex::replace_all` makes of the text.
pub uninterp spec fn regex_replace_all(
    pattern: Seq<char>,
    haystack: Seq<char>,
    replacement: Seq<char>,
) -> Seq<char>;

/// Compiles the pattern with `regex::Regex::new` and asks `is_match`. The error
/// comes back exactly where the pattern does not compile; the answer depends
/// on the pattern and the text alone.
#[verifier::external_body]
pub(crate) fn is_match(pattern: &str, haystack: &str) -> (r: Result<bool, regex::Error>)
    ensures
        r is Ok <==> regex_compiles(pattern@),
        r matches Ok(b) ==> b == regex_is_match(pattern@, haystack@),
{
    regex::Regex::new(pattern).map(|re| re.is_match(haystack))
}

/// Compiles the pattern with `regex::Regex::new` and runs `captures`. The error
/// comes back exactly where the pattern does not compile; the groups of the
/// leftmost match, if there is one, depend on the pattern and the text alone.
#[verifier::external_body]
pub(crate) fn captures(pattern: &str, haystack: &str) -> (r: Result<
    Option<Vec<Option<String>>>,
    regex::Error,
>)
    ensures
        r is Ok <==> regex_compiles(pattern@),
        r matches Ok(found) ==> captures_view(found) == regex_captures(pattern@, haystack@),
{
    let re = regex::Regex::new(pattern)?;
    Ok(
        re.captures(haystack).map(
            |caps| caps.iter().map(|group| group.map(|m| m.as_str().to_string())).collect(),
        ),
    )
}

/// Compiles the pattern with `regex::Regex::new` and runs `replace_all`. The
/// error comes back exactly where the pattern does not compile; the new text
/// depends on the three arguments alone.
#[verifier::external_body]
pub(crate) fn replace_all(pattern: &str, haystack: &str, replacement: &str) -> (r: Result<
    String,
    regex::Error,
>)
    ensures
        r is Ok <==> regex_compiles(pattern@),
        r matches Ok(s) ==> s@ == regex_replace_all(pattern@, haystack@, replacement@),
{
    regex::Regex::new(pattern).map(|re| re.replace_all(haystack, replacement).into_owned())
}

/// The pattern compiles and matches the text.
pub open spec fn finds(pattern: Seq<char>, haystack: Seq<char>) -> bool {
    regex_compiles(pattern) && regex_is_match(pattern, haystack)
}

/// The groups of the pattern's leftmost match in the text; `None` where there
/// is no match, or the pattern does not compile.
pub open spec fn found_groups(pattern: Seq<char>, haystack: Seq<char>) -> Option<
    Seq<Option<Seq<char>>>,
> {
    if regex_compiles(pattern) {
        regex_captures(pattern, haystack)
    } else {
        None
    }
}

/// Whether the pattern matches the text.
pub fn search(pattern: &str, haystack: &str) -> (r: bool)
    ensures
        r == finds(pattern@, haystack@),
{
    match is_match(pattern, haystack) {
        Ok(b) => b,
        Err(_) => false,
    }
}

/// The groups of the pattern's leftmost match in the text.
pub fn find_groups(pattern: &str, haystack: &str) -> (r: Option<Vec<Option<String>>>)
    ensures
        captures_view(r) == found_groups(pattern@, haystack@),
{
    match captures(pattern, haystack) {
        Ok(found) => found,
        Err(_) => None,
    }
}

/// A copy of group `i`.
pub fn group(groups: &Vec<Option<String>>, i: usize) -> (r: Option<String>)
    ensures
        crate::text::opt_text(r) == group_of(group_texts(groups@), i as int),
{
    if i < groups.len() {
        groups[i].clone()
    } else {
        None
    }
}

/// A pattern that does not compile matches nothing and finds nothing; one that
/// does finds what the crate finds.
pub proof fn lemma_broken_patterns_find_nothing(pattern: Seq<char>, haystack: Seq<char>)
    ensures
        !regex_compiles(pattern) ==> !finds(pattern, haystack) && found_groups(pattern, haystack)
            is None,
        regex_compiles(pattern) ==> finds(pattern, haystack) == regex_is_match(pattern, haystack)
            && found_groups(pattern, haystack) == regex_captures(pattern, haystack),
{
}

/// A group is the one with its number, and a number that no group has gives none.
pub proof fn lemma_groups_by_number(groups: Seq<Option<Seq<char>>>, i: int)
    ensures
        0 <= i < groups.len() ==> group_of(groups, i) == groups[i],
        i >= groups.len() ==> group_of(groups, i) is None,
{
}

} // verus!
