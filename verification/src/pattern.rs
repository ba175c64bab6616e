use vstd::prelude::*;
use regex::Regex;

verus! {

#[verifier::external_type_specification]
#[verifier::external_body]
pub struct ExRegex(Regex);

#[verifier::external_type_specification]
#[verifier::external_body]
pub struct ExRegexError(regex::Error);

/// What `Regex::new` makes of a pattern: the compiled expression, or `None`
/// where it refuses the pattern.
pub uninterp spec fn compiled(pattern: Seq<char>) -> Option<Regex>;

/// What `Regex::find` returns for an expression and a haystack: the byte
/// offsets at which the leftmost match starts and ends, or `None` where
/// nothing matches.
pub uninterp spec fn leftmost_match(re: Regex, haystack: Seq<char>) -> Option<(usize, usize)>;

/// Calls `Regex::new`. Nothing is proved of it: the contract gives the
/// result the name `compiled`, that is, it claims that the outcome depends
/// on the pattern's text alone.
#[verifier::external_body]
pub(crate) fn compile(pattern: &str) -> (r: Result<Regex, regex::Error>)
    ensures
        r is Ok <==> compiled(pattern@) is Some,
        r is Ok ==> compiled(pattern@) == Some(r->Ok_0),
{
    Regex::new(pattern)
}

/// Calls `Regex::find` and hands back where the match starts and ends.
/// Nothing is proved of it: the contract gives the result the name
/// `leftmost_match`, that is, it claims that the outcome depends on the
/// expression and the haystack alone.
#[verifier::external_body]
pub(crate) fn find(re: &Regex, haystack: &str) -> (r: Option<(usize, usize)>)
    ensures
        r == leftmost_match(*re, haystack@),
{
    re.find(haystack).map(|m| (m.start(), m.end()))
}

} // verus!
