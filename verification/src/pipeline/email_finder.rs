//! The choice between an address typed by the user and one looked up.

use vstd::prelude::*;
use crate::text::{trim, trimmed};

verus! {

/// Where the address comes from.
pub enum EmailSource {
    /// The user typed this address.
    Typed(String),
    /// The user typed nothing: the address is to be looked up.
    LookUp,
}

/// Why no address could be had.
#[derive(PartialEq, Eq, Debug)]
pub enum FinderError {
    /// The lookup answered an empty address.
    NothingFound,
}

/// Reads the line the user typed: its trimmed text is the address, unless
/// it is empty, in which case the address is to be looked up.
pub fn get_email(typed_line: &str) -> (r: EmailSource)
    ensures
        trimmed(typed_line@).len() > 0 ==> (r matches EmailSource::Typed(e) && e@ == trimmed(typed_line@)),
        trimmed(typed_line@).len() == 0 ==> r is LookUp,
{
    let input = trim(typed_line);
    if input.unicode_len() > 0 {
        EmailSource::Typed(input)
    } else {
        EmailSource::LookUp
    }
}

/// Accepts a looked-up address; an empty one means nothing was found.
pub fn accept_found(found: String) -> (r: Result<String, FinderError>)
    ensures
        found@.len() > 0 ==> (r matches Ok(e) && e@ == found@),
        found@.len() == 0 ==> r == Err::<String, FinderError>(FinderError::NothingFound),
{
    if found.unicode_len() == 0 {
        Err(FinderError::NothingFound)
    } else {
        Ok(found)
    }
}

} // verus!
