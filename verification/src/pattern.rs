//! The search for a self-introduction in a text, which the `regex` crate
//! performs.

use crate::error::ReactError;
use crate::text::on_boundary;
use vstd::prelude::*;

verus! {

/// A stretch of a text, in byte offsets into the text's UTF-8 encoding.
#[derive(Clone, Copy, Debug, PartialEq, Eq, Structural)]
pub struct Span {
    /// The offset of the first byte.
    pub start: usize,
    /// The offset just behind the last byte.
    pub end: usize,
}

/// Where a pattern matched in a text.
#[derive(Clone, Copy, Debug, PartialEq, Eq, Structural)]
pub struct Found {
    /// The offset just behind the whole match.
    pub end: usize,
    /// The stretch that the requested group matched, if it took part in the
    /// match.
    pub group: Option<Span>,
}

impl Found {
    /// Whether these offsets can be used to cut `text`: each lies on a
    /// character boundary, and the group does not end before it begins.
    pub open spec fn fits(self, text: Seq<char>) -> bool {
        &&& on_boundary(text, self.end as int)
        &&& self.group matches Some(span) ==> {
            &&& span.start <= span.end
            &&& on_boundary(text, span.start as int)
            &&& on_boundary(text, span.end as int)
        }
    }

    /// Tells whether these offsets can be used to cut `text`.
    pub fn fits_in(&self, text: &str) -> (b: bool)
        ensures
            b == self.fits(text@),
    {
        if !text.is_char_boundary(self.end) {
            return false;
        }
        match self.group {
            Some(span) => span.start <= span.end && text.is_char_boundary(span.start)
                && text.is_char_boundary(span.end),
            None => true,
        }
    }
}

/// `regex::Error`, which says why a pattern did not compile. It is carried
/// through unopened.
#[verifier::external_type_specification]
#[verifier::external_body]
pub struct ExRegexError(regex::Error);

/// Whether the `regex` crate, under the limits it sets by default, compiles
/// `pattern` to a regular expression.
pub uninterp spec fn regex_compiles(pattern: Seq<char>) -> bool;

/// The leftmost match of the regular expression `pattern` in `text` as the
/// `regex` crate finds it, with the span of the capture group numbered
/// `group`; `None` where the expression matches nowhere. It is meant for the
/// patterns that the crate compiles.
pub uninterp spec fn regex_captures(pattern: Seq<char>, text: Seq<char>, group: usize) -> Option<
    Found,
>;

/// Compiles `pattern` with `regex::Regex::new` and searches `text` with
/// `Regex::captures`. The offsets come from `Captures::get_match` and
/// `Captures::get` by way of `Match::start` and `Match::end`.
///
/// Believed, not proved: whether the pattern compiles rests on the pattern
/// alone, and compiling is all that can fail; a search gives the same answer
/// for the same pattern, text and group; and the offsets of a match fall on
/// character boundaries of `text`, each start at or before its end. Which
/// patterns compile, and what a pattern matches, is not said.
#[verifier::external_body]
pub(crate) fn captures(pattern: &str, text: &str, group: usize) -> (r: Result<
    Option<Found>,
    regex::Error,
>)
    ensures
        r is Ok <==> regex_compiles(pattern@),
        r matches Ok(found) ==> found == regex_captures(pattern@, text@, group),
        r matches Ok(Some(found)) ==> found.fits(text@),
{
    let re = regex::Regex::new(pattern)?;
    Ok(
        re.captures(text).map(
            |c| Found {
                end: c.get_match().end(),
                group: c.get(group).map(|m| Span { start: m.start(), end: m.end() }),
            },
        ),
    )
}

/// What [`search`] returns: the error for a pattern that does not compile,
/// and else what the pattern finds in `text`.
pub open spec fn search_result(pattern: Seq<char>, text: Seq<char>, group: usize) -> Result<
    Option<Found>,
    ReactError,
> {
    if regex_compiles(pattern) {
        Ok(regex_captures(pattern, text, group))
    } else {
        Err(ReactError::Pattern)
    }
}

/// Searches `text` for the first match of `pattern`, and reports where the
/// match ends and where the group numbered `group` lies in it. A pattern
/// that does not compile is the only error, and it is one for every text.
pub fn search(pattern: &str, text: &str, group: usize) -> (r: Result<Option<Found>, ReactError>)
    ensures
        r == search_result(pattern@, text@, group),
        r is Ok <==> regex_compiles(pattern@),
        r matches Ok(Some(found)) ==> found.fits(text@),
{
    match captures(pattern, text, group) {
        Ok(found) => Ok(found),
        Err(_) => Err(ReactError::Pattern),
    }
}

} // verus!
