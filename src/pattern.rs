//! Regular expressions, as the `regex` crate reads and matches them.
use vstd::prelude::*;

verus! {

/// `regex::Regex`, held opaque: a compiled expression.
#[verifier::external_type_specification]
#[verifier::external_body]
pub struct ExRegex(regex::Regex);

/// Whether `regex::Regex::new` accepts a pattern.
pub uninterp spec fn pattern_compiles(p: Seq<char>) -> bool;

/// Whether the expression compiled from pattern `p` matches somewhere in `t`.
pub uninterp spec fn pattern_matches(p: Seq<char>, t: Seq<char>) -> bool;

/// A compiled expression together with the pattern it was compiled from.
pub struct Pattern {
    source: String,
    regex: regex::Regex,
}

impl Pattern {
    pub closed spec fn source(&self) -> Seq<char> {
        self.source@
    }

    /// Relies on `regex::Regex::new`: it fails exactly on the patterns it cannot compile.
    #[verifier::external_body]
    fn compile(p: &str) -> (r: Option<Pattern>)
        ensures
            r.is_some() == pattern_compiles(p@),
            r matches Some(x) ==> x.source() == p@,
    {
        match regex::Regex::new(p) {
            Ok(regex) => Some(Pattern { source: p.to_string(), regex }),
            Err(_) => None,
        }
    }

    /// Relies on `regex::Regex::is_match`: whether the expression matches anywhere in `t`.
    #[verifier::external_body]
    fn is_match(&self, t: &str) -> (r: bool)
        ensures
            r == pattern_matches(self.source(), t@),
    {
        self.regex.is_match(t)
    }
}

/// Whether `text` matches `pattern`; `None` where the pattern does not compile.
pub fn pattern_accepts(pattern: &str, text: &str) -> (r: Option<bool>)
    ensures
        r == (if pattern_compiles(pattern@) {
            Some(pattern_matches(pattern@, text@))
        } else {
            None
        }),
{
    match Pattern::compile(pattern) {
        Some(p) => Some(p.is_match(text)),
        None => None,
    }
}

} // verus!
