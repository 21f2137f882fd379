//! Reads an address out of a list-shaped answer.

use vstd::prelude::*;
use crate::json::{Json, key, member, nth, text_or_empty};

verus! {

/// `json[0].email`, or nothing.
pub open spec fn first_email(json: Json) -> Seq<char> {
    json.at(0).field("email"@).text_or_empty()
}

/// Reads the `email` of the first entry; empty where there is none.
pub fn parse_email(json: &Json) -> (r: String)
    ensures
        r@ == first_email(*json),
{
    text_or_empty(member(nth(Some(json), 0), &key("email")))
}

} // verus!
