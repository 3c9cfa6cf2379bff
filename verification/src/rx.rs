//! Regular-expression matching, through the `regex` crate.
//!
//! Each function compiles its pattern and applies it once. What the crate
//! computes is named, not restated: `regex_compiles` for whether a pattern is
//! accepted by `Regex::new`, and one name per matching method for its result.
//! A pattern that does not compile behaves as one that never matches.

use vstd::prelude::*;

verus! {

/// Whether `regex::Regex::new` accepts the pattern.
pub uninterp spec fn regex_compiles(pattern: Seq<char>) -> bool;

/// What `Regex::is_match` returns for the compiled pattern and a haystack.
pub uninterp spec fn regex_is_match(pattern: Seq<char>, text: Seq<char>) -> bool;

/// The text of the leftmost-first match that `Regex::find` returns.
pub uninterp spec fn regex_find(pattern: Seq<char>, text: Seq<char>) -> Option<Seq<char>>;

/// The texts of the capture groups (group 0 first) of the leftmost-first match
/// that `Regex::captures` returns; a group that did not take part is `None`.
pub uninterp spec fn regex_captures(pattern: Seq<char>, text: Seq<char>) -> Option<
    Seq<Option<Seq<char>>>,
>;

/// The capture groups of every successive non-overlapping match that
/// `Regex::captures_iter` gives, in order.
pub uninterp spec fn regex_captures_all(pattern: Seq<char>, text: Seq<char>) -> Seq<
    Seq<Option<Seq<char>>>,
>;

/// The characters `regex::escape` puts a backslash before
/// (`regex_syntax::is_meta_character`).
pub open spec fn is_regex_meta(c: char) -> bool {
    c == '\\' || c == '.' || c == '+' || c == '*' || c == '?' || c == '(' || c == ')' || c == '|'
        || c == '[' || c == ']' || c == '{' || c == '}' || c == '^' || c == '$' || c == '#' || c
        == '&' || c == '-' || c == '~'
}

/// What `regex::escape` returns: the text, a backslash put before each meta
/// character.
pub open spec fn regex_escaped(text: Seq<char>) -> Seq<char>
    decreases text.len(),
{
    if text.len() == 0 {
        Seq::empty()
    } else {
        regex_escaped(text.drop_last()) + (if is_regex_meta(text.last()) {
            seq!['\\', text.last()]
        } else {
            seq![text.last()]
        })
    }
}

/// What `Regex::replace_all` returns, `rep` being read with `$n` group references.
pub uninterp spec fn regex_replace_all(pattern: Seq<char>, text: Seq<char>, rep: Seq<char>) -> Seq<
    char,
>;

/// What `Regex::replace` (first match only) returns.
pub uninterp spec fn regex_replace_first(pattern: Seq<char>, text: Seq<char>, rep: Seq<char>) -> Seq<
    char,
>;

/// The pattern compiles and matches somewhere in `text`.
pub open spec fn rx_match(pattern: Seq<char>, text: Seq<char>) -> bool {
    regex_compiles(pattern) && regex_is_match(pattern, text)
}

/// The leftmost match of the pattern in `text`, if it compiles.
pub open spec fn found(pattern: Seq<char>, text: Seq<char>) -> Option<Seq<char>> {
    if regex_compiles(pattern) {
        regex_find(pattern, text)
    } else {
        None
    }
}

/// The capture groups of the leftmost match, if the pattern compiles.
pub open spec fn captured(pattern: Seq<char>, text: Seq<char>) -> Option<Seq<Option<Seq<char>>>> {
    if regex_compiles(pattern) {
        regex_captures(pattern, text)
    } else {
        None
    }
}

/// `text` with every match replaced, if the pattern compiles; else `text`.
pub open spec fn replaced_all(pattern: Seq<char>, text: Seq<char>, rep: Seq<char>) -> Seq<char> {
    if regex_compiles(pattern) {
        regex_replace_all(pattern, text, rep)
    } else {
        text
    }
}

/// `text` with the first match replaced, if the pattern compiles; else `text`.
pub open spec fn replaced_first(pattern: Seq<char>, text: Seq<char>, rep: Seq<char>) -> Seq<char> {
    if regex_compiles(pattern) {
        regex_replace_first(pattern, text, rep)
    } else {
        text
    }
}

/// Group `i` of a capture result, or `None` when there is no such group or it
/// did not take part in the match.
pub open spec fn group(caps: Seq<Option<Seq<char>>>, i: int) -> Option<Seq<char>> {
    if 0 <= i < caps.len() {
        caps[i]
    } else {
        None
    }
}

/// Group `i`, or the empty sequence.
pub open spec fn group_text(caps: Seq<Option<Seq<char>>>, i: int) -> Seq<char> {
    match group(caps, i) {
        Some(s) => s,
        None => Seq::empty(),
    }
}

pub open spec fn opt_views(v: Seq<Option<String>>) -> Seq<Option<Seq<char>>> {
    v.map_values(|o: Option<String>| match o {
        Some(s) => Some(s@),
        None => None,
    })
}

/// `Regex::new`, keeping only whether it succeeded. Trusted: the result is
/// `regex_compiles(pattern)`.
#[verifier::external_body]
pub(crate) fn compiles(pattern: &str) -> (r: bool)
    ensures
        r == regex_compiles(pattern@),
{
    regex::Regex::new(pattern).is_ok()
}

/// `Regex::new` then `Regex::is_match`. Trusted: the result is whether the
/// pattern compiles and `regex_is_match` holds.
#[verifier::external_body]
pub(crate) fn is_match(pattern: &str, text: &str) -> (r: bool)
    ensures
        r == (regex_compiles(pattern@) && regex_is_match(pattern@, text@)),
{
    match regex::Regex::new(pattern) {
        Ok(re) => re.is_match(text),
        Err(_) => false,
    }
}

/// `Regex::new` then `Regex::find`, giving the matched text. Trusted: the
/// result is `found`, and (as the crate documents) there is a match exactly when
/// `is_match` holds.
#[verifier::external_body]
pub(crate) fn find(pattern: &str, text: &str) -> (r: Option<String>)
    ensures
        r matches Some(m) ==> regex_compiles(pattern@) && regex_find(pattern@, text@) == Some(m@),
        r is None ==> !regex_compiles(pattern@) || regex_find(pattern@, text@) is None,
        r is Some <==> (regex_compiles(pattern@) && regex_is_match(pattern@, text@)),
{
    match regex::Regex::new(pattern) {
        Ok(re) => re.find(text).map(|m| m.as_str().to_string()),
        Err(_) => None,
    }
}

/// `Regex::new` then `Regex::captures`. Trusted: the result is `captured`;
/// there is a result exactly when `is_match` holds, and its group 0 is the text
/// that `find` gives.
#[verifier::external_body]
pub(crate) fn captures(pattern: &str, text: &str) -> (r: Option<Vec<Option<String>>>)
    ensures
        r matches Some(v) ==> regex_compiles(pattern@) && regex_captures(pattern@, text@) == Some(
            opt_views(v@),
        ),
        r is None ==> !regex_compiles(pattern@) || regex_captures(pattern@, text@) is None,
        r is Some <==> (regex_compiles(pattern@) && regex_is_match(pattern@, text@)),
        r matches Some(v) ==> v@.len() >= 1 && opt_views(v@)[0] == regex_find(pattern@, text@),
{
    match regex::Regex::new(pattern) {
        Ok(re) => re.captures(text).map(|c| c.iter().map(|m| m.map(|m| m.as_str().to_string())).collect()),
        Err(_) => None,
    }
}

/// The capture groups of every match, if the pattern compiles; else none.
pub open spec fn captured_all(pattern: Seq<char>, text: Seq<char>) -> Seq<Seq<Option<Seq<char>>>> {
    if regex_compiles(pattern) {
        regex_captures_all(pattern, text)
    } else {
        Seq::empty()
    }
}

pub open spec fn all_opt_views(v: Seq<Vec<Option<String>>>) -> Seq<Seq<Option<Seq<char>>>> {
    v.map_values(|c: Vec<Option<String>>| opt_views(c@))
}

/// `Regex::new` then `Regex::captures_iter`, each match's groups collected.
/// Trusted: the result is `captured_all`.
#[verifier::external_body]
pub(crate) fn captures_all(pattern: &str, text: &str) -> (r: Vec<Vec<Option<String>>>)
    ensures
        regex_compiles(pattern@) ==> all_opt_views(r@) == regex_captures_all(pattern@, text@),
        !regex_compiles(pattern@) ==> r@.len() == 0,
{
    match regex::Regex::new(pattern) {
        Ok(re) => re
            .captures_iter(text)
            .map(|c| c.iter().map(|m| m.map(|m| m.as_str().to_string())).collect())
            .collect(),
        Err(_) => Vec::new(),
    }
}

/// `regex::escape`. Trusted: the result is `regex_escaped(text)`, the
/// character-by-character rule of `regex_syntax::escape_into`.
#[verifier::external_body]
pub(crate) fn escape(text: &str) -> (r: String)
    ensures
        r@ == regex_escaped(text@),
{
    regex::escape(text)
}

/// `Regex::new` then `Regex::replace_all`. Trusted: the result is `replaced_all`;
/// with no match the text comes back unchanged, as the crate documents.
#[verifier::external_body]
pub(crate) fn replace_all(pattern: &str, text: &str, rep: &str) -> (r: String)
    ensures
        regex_compiles(pattern@) ==> r@ == regex_replace_all(pattern@, text@, rep@),
        !regex_compiles(pattern@) ==> r@ == text@,
        !regex_is_match(pattern@, text@) ==> r@ == text@,
{
    match regex::Regex::new(pattern) {
        Ok(re) => re.replace_all(text, rep).to_string(),
        Err(_) => text.to_string(),
    }
}

/// `Regex::new` then `Regex::replace`. Trusted: the result is `replaced_first`;
/// with no match the text comes back unchanged.
#[verifier::external_body]
pub(crate) fn replace_first(pattern: &str, text: &str, rep: &str) -> (r: String)
    ensures
        regex_compiles(pattern@) ==> r@ == regex_replace_first(pattern@, text@, rep@),
        !regex_compiles(pattern@) ==> r@ == text@,
        !regex_is_match(pattern@, text@) ==> r@ == text@,
{
    match regex::Regex::new(pattern) {
        Ok(re) => re.replace(text, rep).to_string(),
        Err(_) => text.to_string(),
    }
}

/// Group `i` of a capture result.
pub fn get_group(caps: &Vec<Option<String>>, i: usize) -> (r: Option<String>)
    ensures
        r matches Some(s) ==> group(opt_views(caps@), i as int) == Some(s@),
        r is None ==> group(opt_views(caps@), i as int) is None,
{
    if i < caps.len() {
        match &caps[i] {
            Some(s) => Some(crate::text::copy_str(s.as_str())),
            None => None,
        }
    } else {
        None
    }
}

/// Group `i` of a capture result, or the empty string.
pub fn get_group_text(caps: &Vec<Option<String>>, i: usize) -> (r: String)
    ensures
        r@ == group_text(opt_views(caps@), i as int),
{
    match get_group(caps, i) {
        Some(s) => s,
        None => String::new(),
    }
}

} // verus!
