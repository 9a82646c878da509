//! Splitting a message into command and parameter tokens with a regular
//! expression (the `regex` crate does the matching).
use vstd::prelude::*;
use regex::Regex;

verus! {

/// The token pattern of the command protocol: a command such as `!connect:`
/// or a parameter such as `name:bop` or `name:"a b"`.
pub const COMMAND_PATTERN: &'static str =
    r###"(\?|!)([a-zA-z0-9]*):|([a-zA-z]*):([a-zA-Z0-9\-\+\[\]{}_=/]+|("(.*?)")+)"###;

/// The token pattern of the newer command protocol, whose parameter values
/// may also hold `@` and `.`.
pub const WIDE_COMMAND_PATTERN: &'static str =
    r###"(\?|!)([a-zA-z0-9]*):|([a-zA-z]*):([a-zA-Z0-9@\-\+\[\]{}_=/.]+|("(.*?)")+)"###;

/// The texts of the successive non-overlapping matches that
/// `regex::Regex::find_iter` yields for the regular expression `pattern` over
/// `text`, or `None` when `regex::Regex::new` refuses `pattern`.
pub uninterp spec fn regex_find_iter(pattern: Seq<char>, text: Seq<char>) -> Option<Seq<Seq<char>>>;

/// The views of a sequence of strings.
pub open spec fn strings_view(v: Seq<String>) -> Seq<Seq<char>> {
    v.map_values(|s: String| s@)
}

/// The match texts of `pattern` over `text`; none when the pattern does not compile.
pub open spec fn match_tokens(pattern: Seq<char>, text: Seq<char>) -> Seq<Seq<char>> {
    match regex_find_iter(pattern, text) {
        Some(ts) => ts,
        None => Seq::empty(),
    }
}

/// Calls `regex::Regex::new(pattern)` and, when it succeeds,
/// `Regex::find_iter(text)`, collecting `Match::as_str` of each match in the
/// order the iterator yields them.  The contract claims only that the result
/// is the value `regex_find_iter` names for these two arguments; what the
/// matches are is left to the `regex` crate.
#[verifier::external_body]
fn regex_matches(pattern: &str, text: &str) -> (r: Option<Vec<String>>)
    ensures
        match r {
            Some(v) => regex_find_iter(pattern@, text@) == Some(strings_view(v@)),
            None => regex_find_iter(pattern@, text@) is None,
        },
{
    match Regex::new(pattern) {
        Ok(re) => Some(re.find_iter(text).map(|m| m.as_str().to_string()).collect()),
        Err(_) => None,
    }
}

/// The tokens of `text` under `pattern`, in order.
pub fn find_tokens(pattern: &str, text: &str) -> (r: Vec<String>)
    ensures
        strings_view(r@) == match_tokens(pattern@, text@),
{
    match regex_matches(pattern, text) {
        Some(v) => v,
        None => {
            let v: Vec<String> = Vec::new();
            assert(strings_view(v@) =~= Seq::<Seq<char>>::empty());
            v
        },
    }
}

} // verus!
