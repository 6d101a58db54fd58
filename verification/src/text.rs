//! A few operations on text, done by the standard library.

use vstd::prelude::*;

verus! {

/// What `str::parse::<u8>` makes of `text`; `None` where it fails.
pub uninterp spec fn parsed_u8(text: Seq<char>) -> Option<u8>;

/// Calls `str::parse::<u8>`. The contract only names the outcome.
#[verifier::external_body]
pub(crate) fn parse_u8(text: &str) -> (r: Option<u8>)
    ensures
        r == parsed_u8(text@),
{
    text.parse::<u8>().ok()
}

/// What `str::to_lowercase` makes of `text`.
pub uninterp spec fn lowercase(text: Seq<char>) -> Seq<char>;

/// Calls `str::to_lowercase`. The contract only names the result.
#[verifier::external_body]
pub(crate) fn to_lowercase(text: &str) -> (r: String)
    ensures
        r@ == lowercase(text@),
{
    text.to_lowercase()
}

/// What `str::trim` leaves of `text`.
pub uninterp spec fn trimmed(text: Seq<char>) -> Seq<char>;

/// Calls `str::trim`. The contract only names the result.
#[verifier::external_body]
pub(crate) fn trim(text: &str) -> (r: String)
    ensures
        r@ == trimmed(text@),
{
    text.trim().to_string()
}

/// Where the first comma of `text` stands, if it has one.
pub open spec fn first_comma(text: Seq<char>) -> Option<int>
    decreases text.len(),
{
    if text.len() == 0 {
        None
    } else if text[0] == ',' {
        Some(0)
    } else {
        match first_comma(text.drop_first()) {
            Some(i) => Some(i + 1),
            None => None,
        }
    }
}

/// Calls `str::split_once` with a comma: `None` for a text without one,
/// else what stands before the first comma and what stands behind it.
#[verifier::external_body]
pub(crate) fn split_at_comma(text: &str) -> (r: Option<(String, String)>)
    ensures
        match r {
            Some((head, tail)) => {
                &&& first_comma(text@) == Some(head@.len() as int)
                &&& head@ == text@.subrange(0, head@.len() as int)
                &&& tail@ == text@.subrange(head@.len() as int + 1, text@.len() as int)
            },
            None => first_comma(text@).is_none(),
        },
{
    match text.split_once(',') {
        Some((head, tail)) => Some((head.to_string(), tail.to_string())),
        None => None,
    }
}

} // verus!
