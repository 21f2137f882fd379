//! Apollo's people match in the form that answers an empty address where
//! none is found.

use vstd::prelude::*;
use crate::apis::appollo::{match_request, match_request_view};
use crate::http::{Body, BodyView, ErrorView, HttpRequest, LookupError, Reply, ReplyView, RequestView, Step, StepView, is_success, outcome_view, pair, pairs_view, success};
use crate::lookup::{EmailLookup, Service, started};

verus! {

/// Starts the lookup of a profile's address. It ends with the address, or
/// with an empty one where the status is not a success or the answer holds
/// none.
pub fn get_email_from_linkedin(linkedin_url: &str, api_key: &str) -> (r: (EmailLookup, Step))
    ensures
        r.0 == started(Service::ApolloLegacy),
        r.1@ == StepView::Send(match_request_view(linkedin_url@, api_key@)),
{
    EmailLookup::start(Service::ApolloLegacy, match_request(linkedin_url, api_key))
}

} // verus!
