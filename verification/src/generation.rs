//! Reading what the text generator answered: the narration is the text of
//! the first part of the first candidate, without trailing whitespace.

use vstd::prelude::*;

verus! {

/// One piece of generated text.
#[derive(Clone, Debug, PartialEq)]
pub struct Part {
    pub text: String,
}

/// What one candidate answer holds.
#[derive(Clone, Debug, PartialEq)]
pub struct Content {
    pub parts: Vec<Part>,
    pub role: String,
}

/// A text as `str::trim_end` leaves it: without its trailing whitespace.
pub uninterp spec fn trimmed_end(text: Seq<char>) -> Seq<char>;

/// Removes trailing whitespace with `str::trim_end`. What counts as
/// whitespace is left to the standard library; the contract names the result
/// and states that it is the beginning of the text.
#[verifier::external_body]
fn trim_end(text: &str) -> (r: String)
    ensures
        r@ == trimmed_end(text@),
        r@.is_prefix_of(text@),
{
    text.trim_end().to_string()
}

/// The narration in the candidates of an answer: the text of the first part
/// of the first candidate, without trailing whitespace; `None` where there
/// is no candidate or the first has no part.
pub fn generated_text(candidates: &Vec<Content>) -> (r: Option<String>)
    ensures
        r is Some <==> candidates@.len() > 0 && candidates@[0].parts@.len() > 0,
        r is Some ==> r->0@ == trimmed_end(candidates@[0].parts@[0].text@),
        r is Some ==> r->0@.is_prefix_of(candidates@[0].parts@[0].text@),
{
    if candidates.len() == 0 {
        return None;
    }
    if candidates[0].parts.len() == 0 {
        return None;
    }
    Some(trim_end(candidates[0].parts[0].text.as_str()))
}

} // verus!
