use vstd::prelude::*;

verus! {

/// What the `regex` crate answers for a pattern and a text: `None` where the
/// pattern does not compile, else whether the text holds a match.
pub uninterp spec fn regex_verdict(pattern: Seq<char>, text: Seq<char>) -> Option<bool>;

/// Relies on `regex::Regex::new`, which compiles `pattern` or reports why it cannot,
/// and `regex::Regex::is_match`, which tells whether `text` holds a match. Both
/// depend on their arguments alone.
#[verifier::external_body]
pub(crate) fn regex_is_match(pattern: &str, text: &str) -> (r: Option<bool>)
    ensures
        r == regex_verdict(pattern@, text@),
{
    match regex::Regex::new(pattern) {
        Ok(re) => Some(re.is_match(text)),
        Err(_) => None,
    }
}

/// `text` is accepted by `pattern`: the pattern compiles and matches it.
pub open spec fn regex_accepts(pattern: Seq<char>, text: Seq<char>) -> bool {
    regex_verdict(pattern, text) == Some(true)
}

/// Whether the `regex` crate accepts `text` under `pattern`; a pattern that does
/// not compile accepts nothing.
pub fn accepts(pattern: &str, text: &str) -> (r: bool)
    ensures
        r == regex_accepts(pattern@, text@),
{
    match regex_is_match(pattern, text) {
        Some(b) => b,
        None => false,
    }
}

} // verus!
