//! The assistant: which e-mail finder it uses, the sender's background,
//! and the start of the chain once the address and the profile are in.

use vstd::prelude::*;
use std::sync::Arc;
use crate::apis::appollo::match_request_view;
use crate::encoding::pretty_json_object;
use crate::http::{Step, StepView};
use crate::json::Json;
use crate::lookup::{EmailLookup, Service, started};
use crate::pipeline::outreach::{Ask, AskView, Outreach, outreach_start, parse_prompt};
use crate::pipeline::parsing::{apify_json, profile_entries};
use crate::zeliq::is_enrich_request;

verus! {

/// The e-mail finders the assistant can use.
#[derive(Debug, Clone)]
pub enum EmailAPI {
    Appollo,
    Zeliq,
}

impl EmailAPI {
    /// Starts the lookup of a profile's address with this finder.
    pub fn find_email(&self, linkedin_url: &str, api_key: &str) -> (r: (EmailLookup, Step))
        ensures
            *self is Appollo ==> r.0 == started(Service::Apollo) && r.1@ == StepView::Send(
                match_request_view(linkedin_url@, api_key@),
            ),
            *self is Zeliq ==> r.0 == started(Service::Zeliq) && (r.1 matches Step::Send(req)
                && is_enrich_request(req@, linkedin_url@, api_key@)),
    {
        match self {
            EmailAPI::Appollo => crate::apis::appollo::find_email(linkedin_url, api_key),
            EmailAPI::Zeliq => crate::zeliq::get_email_from_linkedin(linkedin_url, api_key),
        }
    }
}

/// The assistant: the sender's background and the finder it uses.
pub struct InternCopilot {
    user_context: String,
    email_service: Arc<EmailAPI>,
}

impl InternCopilot {
    /// The sender's background.
    pub closed spec fn context(self) -> Seq<char> {
        self.user_context@
    }

    /// The finder in use.
    pub closed spec fn service(self) -> EmailAPI {
        *self.email_service
    }

    /// Makes the assistant from the finder and the sender's background
    /// (the text of `personal_context.txt`).
    pub fn new(email_service: EmailAPI, about_me: String) -> (r: InternCopilot)
        ensures
            r.context() == about_me@,
            r.service() == email_service,
    {
        InternCopilot { user_context: about_me, email_service: Arc::new(email_service) }
    }

    /// The sender's background.
    pub fn user_context(&self) -> (r: &String)
        ensures
            r@ == self.context(),
    {
        &self.user_context
    }

    /// The finder in use.
    pub fn email_service(&self) -> (r: &EmailAPI)
        ensures
            *r == self.service(),
    {
        &*self.email_service
    }

    /// Starts the chain once the address and the profile are in: the
    /// profile is condensed and parsed first, and the sender's background
    /// goes into the strategy step.
    pub fn generate_email(&self, email: String, profile: &Json) -> (r: (Outreach, Ask))
        ensures
            r.0@ == outreach_start(email@, self.context()),
            r.1@ == AskView::Prompt(parse_prompt(), pretty_json_object(profile_entries(*profile))),
    {
        let parsed = apify_json(profile);
        Outreach::start(parsed, email, self.user_context.clone())
    }
}

} // verus!
