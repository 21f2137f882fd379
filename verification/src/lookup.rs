//! The lookup of an address by one request to an e-mail finder: the
//! decisions taken on the status and on the body of its answer.

use vstd::prelude::*;
use crate::http::{Body, BodyView, ErrorView, HttpRequest, LookupError, Reply, ReplyView, RequestView, Step, StepView, is_success, outcome_view, pair, pairs_view, success};
use crate::json::Json;
use crate::apis::appollo::person_email;
use crate::zeliq::contact_email;
use crate::lead_iq::leadiq_email;

verus! {

/// The finders that answer in one request.
pub enum Service {
    /// Apollo's people match; no address is an error.
    Apollo,
    /// Apollo's people match, answering an empty address where none is found.
    ApolloLegacy,
    /// Zeliq's contact enrichment.
    Zeliq,
    /// LeadIQ's people search.
    LeadIq,
}

/// Where a lookup stands.
pub enum Phase {
    /// The request is out; its status is awaited.
    AwaitStatus,
    /// The status was a success; the JSON body is awaited.
    AwaitJson,
    /// The status (kept here) was not a success; the text body is awaited.
    AwaitText(u16),
    /// The lookup has finished.
    Done,
}

/// A lookup in progress.
pub struct EmailLookup {
    pub service: Service,
    pub phase: Phase,
}

/// What a finder's JSON answer gives.
pub open spec fn found_in(service: Service, body: Json) -> Result<Seq<char>, ErrorView> {
    match service {
        Service::Apollo => {
            let e = person_email(body);
            if e.len() == 0 {
                Err(ErrorView::NoEmail)
            } else {
                Ok(e)
            }
        },
        Service::ApolloLegacy => Ok(person_email(body)),
        Service::Zeliq => Ok(contact_email(body)),
        Service::LeadIq => Ok(leadiq_email(body)),
    }
}

/// What a refused request gives.
pub open spec fn refused(service: Service, status: u16) -> Result<Seq<char>, ErrorView> {
    match service {
        Service::Apollo => Err(ErrorView::Status(status)),
        _ => Ok(Seq::empty()),
    }
}

/// Whether the body of a refusal is read before the lookup ends.
pub open spec fn reads_refusal(service: Service) -> bool {
    !(service is ApolloLegacy)
}

/// A lookup whose request has just gone out.
pub open spec fn started(service: Service) -> EmailLookup {
    EmailLookup { service, phase: Phase::AwaitStatus }
}

/// A finished lookup.
pub open spec fn finished(service: Service) -> EmailLookup {
    EmailLookup { service, phase: Phase::Done }
}

/// The next state and step of a lookup given a reply.
pub open spec fn lookup_next(l: EmailLookup, reply: ReplyView) -> (EmailLookup, StepView) {
    let unexpected = (finished(l.service), StepView::Finish(Err(ErrorView::UnexpectedReply)));
    match l.phase {
        Phase::AwaitStatus => match reply {
            ReplyView::Status(s) => if success(s) {
                (EmailLookup { service: l.service, phase: Phase::AwaitJson }, StepView::ReadJson)
            } else if reads_refusal(l.service) {
                (EmailLookup { service: l.service, phase: Phase::AwaitText(s) }, StepView::ReadText)
            } else {
                (finished(l.service), StepView::Finish(refused(l.service, s)))
            },
            _ => unexpected,
        },
        Phase::AwaitJson => match reply {
            ReplyView::Json(body) => (finished(l.service), StepView::Finish(found_in(l.service, body))),
            _ => unexpected,
        },
        Phase::AwaitText(s) => match reply {
            ReplyView::Text(_) => (finished(l.service), StepView::Finish(refused(l.service, s))),
            _ => unexpected,
        },
        Phase::Done => unexpected,
    }
}

/// How many replies a lookup may still take.
pub open spec fn rank(l: EmailLookup) -> nat {
    match l.phase {
        Phase::AwaitStatus => 2,
        Phase::AwaitJson => 1,
        Phase::AwaitText(_) => 1,
        Phase::Done => 0,
    }
}

fn empty_outcome() -> (r: Result<String, LookupError>)
    ensures
        outcome_view(r) == Ok::<Seq<char>, ErrorView>(Seq::empty()),
{
    Ok(String::new())
}

impl EmailLookup {
    /// Starts a lookup of `service` by sending `request`.
    pub fn start(service: Service, request: HttpRequest) -> (r: (EmailLookup, Step))
        ensures
            r.0 == started(service),
            r.1@ == StepView::Send(request@),
    {
        (EmailLookup { service, phase: Phase::AwaitStatus }, Step::Send(request))
    }

    /// Takes the reply to the last step and answers the next one.
    pub fn resume(self, reply: Reply) -> (r: (EmailLookup, Step))
        ensures
            (r.0, r.1@) == lookup_next(self, reply@),
    {
        let service = self.service;
        match self.phase {
            Phase::AwaitStatus => match reply {
                Reply::Status(s) => {
                    if is_success(s) {
                        (EmailLookup { service, phase: Phase::AwaitJson }, Step::ReadJson)
                    } else {
                        match service {
                            Service::ApolloLegacy => (
                                EmailLookup { service, phase: Phase::Done },
                                Step::Finish(empty_outcome()),
                            ),
                            _ => (EmailLookup { service, phase: Phase::AwaitText(s) }, Step::ReadText),
                        }
                    }
                },
                _ => (
                    EmailLookup { service, phase: Phase::Done },
                    Step::Finish(Err(LookupError::UnexpectedReply)),
                ),
            },
            Phase::AwaitJson => match reply {
                Reply::Json(body) => {
                    let outcome = match service {
                        Service::Apollo => {
                            let e = crate::apis::appollo::email_of(&body);
                            if e.unicode_len() == 0 {
                                Err(LookupError::NoEmail)
                            } else {
                                Ok(e)
                            }
                        },
                        Service::ApolloLegacy => Ok(crate::apis::appollo::email_of(&body)),
                        Service::Zeliq => Ok(crate::zeliq::email_of(&body)),
                        Service::LeadIq => Ok(crate::lead_iq::email_of(&body)),
                    };
                    (EmailLookup { service, phase: Phase::Done }, Step::Finish(outcome))
                },
                _ => (
                    EmailLookup { service, phase: Phase::Done },
                    Step::Finish(Err(LookupError::UnexpectedReply)),
                ),
            },
            Phase::AwaitText(s) => match reply {
                Reply::Text(_) => {
                    let outcome = match service {
                        Service::Apollo => Err(LookupError::Status(s)),
                        _ => empty_outcome(),
                    };
                    (EmailLookup { service, phase: Phase::Done }, Step::Finish(outcome))
                },
                _ => (
                    EmailLookup { service, phase: Phase::Done },
                    Step::Finish(Err(LookupError::UnexpectedReply)),
                ),
            },
            Phase::Done => (
                EmailLookup { service, phase: Phase::Done },
                Step::Finish(Err(LookupError::UnexpectedReply)),
            ),
        }
    }
}

/// Every reply either ends a lookup or brings it closer to its end.
pub proof fn lemma_lookup_progress(l: EmailLookup, reply: ReplyView)
    ensures
        lookup_next(l, reply).1 is Finish || rank(lookup_next(l, reply).0) < rank(l),
{
}

/// A finished lookup stays finished and answers any further reply as unexpected.
pub proof fn lemma_lookup_done_stays(l: EmailLookup, reply: ReplyView)
    requires
        l.phase is Done,
    ensures
        lookup_next(l, reply) == (finished(l.service), StepView::Finish(Err(ErrorView::UnexpectedReply))),
{
}

/// An answered request ends the lookup with what the answer's body gives.
pub proof fn lemma_answered_lookup(service: Service, status: u16, body: Json)
    requires
        success(status),
    ensures
        ({
            let (l1, k1) = lookup_next(started(service), ReplyView::Status(status));
            let (l2, k2) = lookup_next(l1, ReplyView::Json(body));
            &&& k1 == StepView::ReadJson
            &&& k2 == StepView::Finish(found_in(service, body))
            &&& l2 == finished(service)
        }),
{
}

/// A refused request ends the lookup without an address: Apollo answers
/// the status as an error, the other finders an empty address.
pub proof fn lemma_refused_lookup(service: Service, status: u16, text: Seq<char>)
    requires
        !success(status),
    ensures
        ({
            let (l1, k1) = lookup_next(started(service), ReplyView::Status(status));
            let outcome = if k1 is ReadText {
                lookup_next(l1, ReplyView::Text(text)).1
            } else {
                k1
            };
            &&& outcome == StepView::Finish(refused(service, status))
            &&& (service is Apollo ==> refused(service, status) == Err::<Seq<char>, ErrorView>(ErrorView::Status(status)))
            &&& (!(service is Apollo) ==> refused(service, status) == Ok::<Seq<char>, ErrorView>(Seq::empty()))
        }),
{
}

/// Apollo never answers an empty address: where its answer holds none,
/// the lookup ends with an error.
pub proof fn lemma_apollo_address_not_empty(body: Json)
    ensures
        found_in(Service::Apollo, body) matches Ok(e) ==> e.len() > 0,
        person_email(body).len() == 0 ==> found_in(Service::Apollo, body) == Err::<Seq<char>, ErrorView>(ErrorView::NoEmail),
{
}

/// The step that ends a lookup whose request was answered with `status`
/// and whose body was then read as `body`.
pub open spec fn answered(service: Service, status: u16, body: Json) -> StepView {
    lookup_next(lookup_next(started(service), ReplyView::Status(status)).0, ReplyView::Json(body)).1
}

/// Apollo: where the answer's `person` member has a non-empty string
/// `email`, the lookup ends with exactly that string.
pub proof fn lemma_apollo_gives_person_email(status: u16, body: Json, person: Json, email: String)
    requires
        success(status),
        body.lookup("person"@) == Some(person),
        person.lookup("email"@) == Some(Json::Str(email)),
        email@.len() > 0,
    ensures
        answered(Service::Apollo, status, body) == StepView::Finish(Ok::<Seq<char>, ErrorView>(email@)),
{
}

/// Apollo: where the answer holds no non-empty string at `person.email`,
/// the lookup ends with `NoEmail`.
pub proof fn lemma_apollo_without_person_email(status: u16, body: Json)
    requires
        success(status),
        !(body.field("person"@).field("email"@).text() matches Some(e) && e.len() > 0),
    ensures
        answered(Service::Apollo, status, body) == StepView::Finish(Err::<Seq<char>, ErrorView>(ErrorView::NoEmail)),
{
}

/// Apollo, in the form that answers an empty address: the answer's
/// `person.email` string where there is one, the empty address otherwise.
pub proof fn lemma_apollo_legacy_gives_person_email(status: u16, body: Json)
    requires
        success(status),
    ensures
        body.field("person"@).field("email"@).text() matches Some(e) ==> answered(
            Service::ApolloLegacy,
            status,
            body,
        ) == StepView::Finish(Ok::<Seq<char>, ErrorView>(e)),
        body.field("person"@).field("email"@).text() is None ==> answered(
            Service::ApolloLegacy,
            status,
            body,
        ) == StepView::Finish(Ok::<Seq<char>, ErrorView>(Seq::empty())),
{
}

/// Zeliq: where the answer's `contact` member has a string
/// `most_probable_email`, the lookup ends with exactly that string.
pub proof fn lemma_zeliq_gives_contact_email(status: u16, body: Json, contact: Json, email: String)
    requires
        success(status),
        body.lookup("contact"@) == Some(contact),
        contact.lookup("most_probable_email"@) == Some(Json::Str(email)),
    ensures
        answered(Service::Zeliq, status, body) == StepView::Finish(Ok::<Seq<char>, ErrorView>(email@)),
{
}

/// Zeliq: where the answer holds no string at `contact.most_probable_email`,
/// the lookup ends with the empty address.
pub proof fn lemma_zeliq_without_contact_email(status: u16, body: Json)
    requires
        success(status),
        body.field("contact"@).field("most_probable_email"@).text() is None,
    ensures
        answered(Service::Zeliq, status, body) == StepView::Finish(Ok::<Seq<char>, ErrorView>(Seq::empty())),
{
}

/// LeadIQ: an answer with an `errors` member gives the empty address.
pub proof fn lemma_leadiq_errors_give_nothing(status: u16, body: Json)
    requires
        success(status),
        body.lookup("errors"@) is Some,
    ensures
        answered(Service::LeadIq, status, body) == StepView::Finish(Ok::<Seq<char>, ErrorView>(Seq::empty())),
{
}

/// LeadIQ: an answer that counts no result (`totalResults` absent, not an
/// unsigned integer, or zero) gives the empty address.
pub proof fn lemma_leadiq_no_results_give_nothing(status: u16, body: Json)
    requires
        success(status),
        !(body.field("data"@).field("searchPeople"@).field("totalResults"@).unsigned() matches Some(n) && n > 0),
    ensures
        answered(Service::LeadIq, status, body) == StepView::Finish(Ok::<Seq<char>, ErrorView>(Seq::empty())),
{
}

} // verus!
