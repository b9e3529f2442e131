//! The regular expressions of the decompiler, each behind a wrapper whose
//! result is named by a spec function of the matched text.

use vstd::prelude::*;
use regex::Regex;

verus! {

/// `s[i]` is `(`, `s[j]` is `)`, at least `min` characters lie between
/// them, and none of those is a line break (which `.` does not match).
pub open spec fn paren_pair(s: Seq<char>, i: int, j: int, min: int) -> bool {
    &&& 0 <= i
    &&& i + 1 + min <= j < s.len()
    &&& s[i] == '('
    &&& s[j] == ')'
    &&& forall|k: int| i < k < j ==> s[k] != '\n'
}

/// Some pair starts at `i`.
pub open spec fn pair_start(s: Seq<char>, i: int, min: int) -> bool {
    exists|j: int| paren_pair(s, i, j, min)
}

/// The match of `\(` , `min` or more non-line-break characters taken
/// greedily, then `\)`: it starts at the leftmost `(` that has such a `)`
/// after it and ends at the last such `)`.
pub open spec fn leftmost_pair(s: Seq<char>, min: int) -> Option<(int, int)> {
    if exists|i: int| pair_start(s, i, min) {
        let i = choose|i: int|
            pair_start(s, i, min) && forall|i2: int| 0 <= i2 < i ==> !pair_start(s, i2, min);
        let j = choose|j: int|
            paren_pair(s, i, j, min) && forall|j2: int| j < j2 ==> !paren_pair(s, i, j2, min);
        Some((i, j))
    } else {
        None
    }
}

/// The whole text of the leftmost match of `\((.+)\)` in `s`, if any.
#[verifier::opaque]
pub open spec fn paren_span(s: Seq<char>) -> Option<Seq<char>> {
    match leftmost_pair(s, 1) {
        Some((i, j)) => Some(s.subrange(i, j + 1)),
        None => None,
    }
}

/// Runs `Regex::captures` with the pattern `\((.+)\)` on `s` and returns the
/// text of the whole match (`paren_span`: leftmost start, greedy to the
/// last reachable `)`).
#[verifier::external_body]
pub(crate) fn find_paren_span(s: &str) -> (r: Option<String>)
    ensures
        r matches Some(m) ==> paren_span(s@) == Some(m@),
        r is None ==> paren_span(s@) is None,
{
    Regex::new(r"\((.+)\)").unwrap().captures(s).and_then(|c| c.get(0)).map(|m| m.as_str().to_string())
}

/// An opening bracket: `(`, `[` or `{`.
pub open spec fn opens(c: char) -> bool {
    c == '(' || c == '[' || c == '{'
}

/// A closing bracket: `)`, `]` or `}`.
pub open spec fn closes(c: char) -> bool {
    c == ')' || c == ']' || c == '}'
}

/// `s` without one opening bracket at its start and one closing bracket at
/// its end, each where there is one (a lone bracket goes once).
pub open spec fn strip_enclosing(s: Seq<char>) -> Seq<char> {
    let a: int = if s.len() > 0 && opens(s[0]) { 1 } else { 0 };
    let b: int = if s.len() > a && closes(s[s.len() - 1]) { 1 } else { 0 };
    s.subrange(a, s.len() - b)
}

/// Runs `Regex::replacen` with the pattern `^\(|\)$|^\[|\]$|^\{|\}$`, a limit
/// of two and an empty replacement. The anchored alternatives can match
/// only at the first character and at the last, so at most one opening
/// bracket at the start and one closing bracket at the end go.
#[verifier::external_body]
pub(crate) fn strip_enclosing_brackets(s: &str) -> (r: String)
    ensures
        r@ == strip_enclosing(s@),
{
    Regex::new(r"^\(|\)$|^\[|\]$|^\{|\}$").unwrap().replacen(s, 2, "").to_string()
}

/// The `name` and `start_line` groups of the first match of
/// `<code\ object\ (?P<name>\S+)\ at[\S\ ]+\ line\ (?P<start_line>\d+)>` in
/// `s` (in extended mode, where the escaped spaces are literal spaces).
pub uninterp spec fn code_mark(s: Seq<char>) -> Option<(Seq<char>, Seq<char>)>;

/// Runs `Regex::captures` with the code-object pattern above and returns the
/// texts of its `name` and `start_line` groups. The contract only names the
/// result (`code_mark`).
#[verifier::external_body]
pub(crate) fn match_code_mark(s: &str) -> (r: Option<(String, String)>)
    ensures
        match r {
            Some((n, l)) => code_mark(s@) == Some((n@, l@)),
            None => code_mark(s@) is None,
        },
{
    let re = Regex::new(r#"(?x)<code\ object\ (?P<name>\S+)\ at[\S\ ]+\ line\ (?P<start_line>\d+)>"#)
        .unwrap();
    re.captures(s).map(|c| (c["name"].to_string(), c["start_line"].to_string()))
}

/// The first match of `\((.*)\)` in `s`: `None` without a match, else the
/// text of group 1, which always takes part in a match: what lies between
/// the parentheses of the leftmost pair.
#[verifier::opaque]
pub open spec fn paren_group(s: Seq<char>) -> Option<Option<Seq<char>>> {
    match leftmost_pair(s, 0) {
        Some((i, j)) => Some(Some(s.subrange(i + 1, j))),
        None => None,
    }
}

/// Runs `Regex::captures` with the pattern `\((.*)\)` on `s` and returns the
/// text of group 1 (`paren_group`).
#[verifier::external_body]
pub(crate) fn match_paren_group(s: &str) -> (r: Option<Option<String>>)
    ensures
        match r {
            None => paren_group(s@) is None,
            Some(None) => paren_group(s@) == Some(None::<Seq<char>>),
            Some(Some(g)) => paren_group(s@) == Some(Some(g@)),
        },
{
    Regex::new(r"\((.*)\)").unwrap().captures(s).map(|c| c.get(1).map(|m| m.as_str().to_string()))
}

/// The text of the `args` group of the first match of
/// `def [A-Za-z_]+\((?P<args>[\S_]*)\)` in `s`, if there is a match.
pub uninterp spec fn def_args(s: Seq<char>) -> Option<Seq<char>>;

/// Runs `Regex::captures` with the pattern above on `s` and returns the text
/// of its `args` group. The contract only names the result (`def_args`).
#[verifier::external_body]
pub(crate) fn match_def_args(s: &str) -> (r: Option<String>)
    ensures
        match r {
            None => def_args(s@) is None,
            Some(a) => def_args(s@) == Some(a@),
        },
{
    let re = Regex::new(r"def [A-Za-z_]+\((?P<args>[\S_]*)\)").unwrap();
    re.captures(s).and_then(|c| c.name("args")).map(|m| m.as_str().to_string())
}

} // verus!
