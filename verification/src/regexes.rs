//! Calls into the `regex` crate.
//!
//! Pattern compilation and match replacement are done by the `regex`
//! crate; what a pattern matches is not modeled here. Each outcome is
//! named by an uninterpreted function of the call's arguments: the crate's
//! matching is deterministic, so the same pattern and inputs always give
//! the same result, and every contract downstream speaks of these names
//! exactly.

use vstd::prelude::*;

verus! {

/// Whether the `regex` crate accepts `pat` as a pattern.
pub uninterp spec fn regex_compiles(pat: Seq<char>) -> bool;

/// The result of replacing every non-overlapping match of `pat` in `text`,
/// leftmost first, by `pre`, then the first capture group (the whole match
/// where the pattern captured nothing), then `suf`. Where `pat` does not
/// compile, `text` itself.
pub uninterp spec fn regex_rewritten(
    pat: Seq<char>,
    text: Seq<char>,
    pre: Seq<char>,
    suf: Seq<char>,
) -> Seq<char>;

/// What `regex::escape` returns for `s`: the input with every regex meta
/// character escaped, fit for literal matching.
pub uninterp spec fn regex_escaped(s: Seq<char>) -> Seq<char>;

/// Relies on `regex::Regex::new`: whether a pattern compiles depends on
/// the pattern string alone.
#[verifier::external_body]
pub fn regex_pattern_compiles(pat: &str) -> (r: bool)
    ensures
        r == regex_compiles(pat@),
{
    regex::Regex::new(pat).is_ok()
}

/// Relies on `regex::Regex::new` and `regex::Regex::replace_all`: every
/// non-overlapping match is replaced, leftmost first; the closure only
/// picks the matched text out of the captures and formats it between the
/// given prefix and suffix. The result depends on the pattern and the
/// three strings alone; an invalid pattern leaves the text unchanged.
#[verifier::external_body]
pub fn regex_rewrite(pat: &str, text: &str, pre: &str, suf: &str) -> (r: String)
    ensures
        r@ == regex_rewritten(pat@, text@, pre@, suf@),
        !regex_compiles(pat@) ==> r@ == text@,
{
    match regex::Regex::new(pat) {
        Ok(re) => re.replace_all(text, |caps: &regex::Captures| {
            let m = caps.get(1).map_or(caps.get(0).unwrap().as_str(), |g| g.as_str());
            format!("{}{}{}", pre, m, suf)
        }).into_owned(),
        Err(_) => text.to_string(),
    }
}

/// Relies on `regex::escape`: escapes every regex meta character; the
/// result depends on the input alone.
#[verifier::external_body]
pub fn regex_escape(s: &str) -> (r: String)
    ensures
        r@ == regex_escaped(s@),
{
    regex::escape(s)
}

} // verus!
