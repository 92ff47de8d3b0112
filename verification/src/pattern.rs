//! Regular expressions, by the `regex` crate. What a pattern matches is
//! named here and left to the crate.
use vstd::prelude::*;
use vstd::string::StringSliceAdditionalSpecFns;

verus! {

/// A compiled regular expression.
#[verifier::external_type_specification]
#[verifier::external_body]
pub struct ExRegex(regex::Regex);

/// What `Regex::new` makes of a pattern: the compiled expression, or `None`
/// where the pattern is not accepted.
pub uninterp spec fn compiled(pattern: Seq<char>) -> Option<regex::Regex>;

/// The matches of an expression in a text, as `Regex::find_iter` yields
/// them: each the byte offsets of its start and its end.
pub uninterp spec fn match_spans(re: regex::Regex, text: Seq<char>) -> Seq<(usize, usize)>;

/// What `regex::escape` makes of a pattern: a pattern that matches it
/// literally.
pub uninterp spec fn escaped(pattern: Seq<char>) -> Seq<char>;

/// Whether the spans lie in a text of `len` bytes one after the other: each
/// starts no later than it ends and no earlier than the one before it ends.
pub open spec fn spans_in_order(spans: Seq<(usize, usize)>, len: int) -> bool {
    &&& forall|i: int| 0 <= i < spans.len() ==> (#[trigger] spans[i]).0 <= spans[i].1 <= len
    &&& forall|i: int, j: int|
        0 <= i < j < spans.len() ==> (#[trigger] spans[i]).1 <= (#[trigger] spans[j]).0
}

/// `Regex::new`: the compiled expression, or `None` where the pattern is not
/// accepted.
#[verifier::external_body]
pub(crate) fn compile(pattern: &str) -> (r: Option<regex::Regex>)
    ensures
        r == compiled(pattern@),
{
    regex::Regex::new(pattern).ok()
}

/// `Regex::find_iter`: the successive matches that do not overlap, each as
/// the byte offsets of its start and its end, which lie in the text with the
/// start no later than the end.
#[verifier::external_body]
pub(crate) fn find_spans(re: &regex::Regex, text: &str) -> (spans: Vec<(usize, usize)>)
    ensures
        spans@ == match_spans(*re, text@),
        spans_in_order(spans@, text.spec_bytes().len() as int),
{
    re.find_iter(text).map(|m| (m.start(), m.end())).collect()
}

/// `regex::escape`: the pattern with its meta characters escaped.
#[verifier::external_body]
pub(crate) fn escape(pattern: &str) -> (r: String)
    ensures
        r@ == escaped(pattern@),
{
    regex::escape(pattern)
}

} // verus!
