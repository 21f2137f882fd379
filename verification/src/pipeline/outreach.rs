//! The chain of language-model steps that turns a condensed profile into
//! a ready e-mail: parse the profile, find how the sender relates to the
//! person, compose the letter, then add personality and format it as a
//! mailto link. Each step's answer feeds the next prompt.

use vstd::prelude::*;

verus! {

/// The step whose answer is awaited.
pub enum Stage {
    Parse,
    Strategy,
    Compose,
    Personality,
    Done,
}

/// A chain in progress: the verified address and the sender's background.
pub struct Outreach {
    pub stage: Stage,
    pub email: String,
    pub personal_context: String,
}

/// A chain read as characters.
pub struct OutreachView {
    pub stage: Stage,
    pub email: Seq<char>,
    pub personal_context: Seq<char>,
}

impl View for Outreach {
    type V = OutreachView;

    open spec fn view(&self) -> OutreachView {
        OutreachView { stage: self.stage, email: self.email@, personal_context: self.personal_context@ }
    }
}

/// What the chain asks for next.
pub enum Ask {
    /// Ask the model with the system prompt in `prompt_file` and this input.
    Prompt { prompt_file: String, input: String },
    /// The chain is over; its result.
    Final(String),
}

/// A request of the chain read as characters.
pub enum AskView {
    Prompt(Seq<char>, Seq<char>),
    Final(Seq<char>),
}

impl View for Ask {
    type V = AskView;

    open spec fn view(&self) -> AskView {
        match self {
            Ask::Prompt { prompt_file, input } => AskView::Prompt(prompt_file@, input@),
            Ask::Final(t) => AskView::Final(t@),
        }
    }
}

/// The prompt files of the four steps.
pub open spec fn parse_prompt() -> Seq<char> {
    "llm1_parse_json.txt"@
}

pub open spec fn strategy_prompt() -> Seq<char> {
    "llm2_summarize_info.txt"@
}

pub open spec fn compose_prompt() -> Seq<char> {
    "llm3_compose_letter.txt"@
}

pub open spec fn personality_prompt() -> Seq<char> {
    "llm4_add_personality_mailto.txt"@
}

/// The input of the strategy step: the parsed profile and the sender's
/// background, under their headings.
pub open spec fn strategy_input(parsed: Seq<char>, personal_context: Seq<char>) -> Seq<char> {
    "TARGET PERSON'S LINKEDIN DATA:\n"@ + parsed + "\n\n--- SEPARATOR ---\n\nMY PERSONAL CONTEXT:\n"@
        + personal_context
}

/// A text followed by the verified address.
pub open spec fn with_email(text: Seq<char>, email: Seq<char>) -> Seq<char> {
    text + "\n\nVERIFIED EMAIL: "@ + email
}

/// The chain at another step.
pub open spec fn at_stage(v: OutreachView, stage: Stage) -> OutreachView {
    OutreachView { stage, ..v }
}

/// The chain started on a condensed profile.
pub open spec fn outreach_start(email: Seq<char>, personal_context: Seq<char>) -> OutreachView {
    OutreachView { stage: Stage::Parse, email, personal_context }
}

/// The next state and request of the chain given the answer to the last step.
pub open spec fn outreach_next(v: OutreachView, answer: Seq<char>) -> (OutreachView, AskView) {
    match v.stage {
        Stage::Parse => (
            at_stage(v, Stage::Strategy),
            AskView::Prompt(strategy_prompt(), strategy_input(answer, v.personal_context)),
        ),
        Stage::Strategy => (
            at_stage(v, Stage::Compose),
            AskView::Prompt(compose_prompt(), with_email(answer, v.email)),
        ),
        Stage::Compose => (
            at_stage(v, Stage::Personality),
            AskView::Prompt(personality_prompt(), with_email(answer, v.email)),
        ),
        Stage::Personality => (at_stage(v, Stage::Done), AskView::Final(answer)),
        Stage::Done => (v, AskView::Final(answer)),
    }
}

fn prompt(prompt_file: &str, input: String) -> (r: Ask)
    ensures
        r@ == AskView::Prompt(prompt_file@, input@),
{
    Ask::Prompt { prompt_file: String::from_str(prompt_file), input }
}

fn followed_by_email(text: String, email: &String) -> (r: String)
    ensures
        r@ == with_email(text@, email@),
{
    let mut r = text;
    r.append("\n\nVERIFIED EMAIL: ");
    r.append(email.as_str());
    r
}

impl Outreach {
    /// Starts the chain: the first step parses the condensed profile.
    pub fn start(profile_text: String, email: String, personal_context: String) -> (r: (Outreach, Ask))
        ensures
            r.0@ == outreach_start(email@, personal_context@),
            r.1@ == AskView::Prompt(parse_prompt(), profile_text@),
    {
        (Outreach { stage: Stage::Parse, email, personal_context }, prompt("llm1_parse_json.txt", profile_text))
    }

    /// Takes the answer to the last step and asks the next one.
    pub fn advance(self, answer: String) -> (r: (Outreach, Ask))
        ensures
            (r.0@, r.1@) == outreach_next(self@, answer@),
    {
        match self.stage {
            Stage::Parse => {
                let mut input = String::from_str("TARGET PERSON'S LINKEDIN DATA:\n");
                input.append(answer.as_str());
                input.append("\n\n--- SEPARATOR ---\n\nMY PERSONAL CONTEXT:\n");
                input.append(self.personal_context.as_str());
                let ask = prompt("llm2_summarize_info.txt", input);
                (Outreach { stage: Stage::Strategy, ..self }, ask)
            },
            Stage::Strategy => {
                let ask = prompt("llm3_compose_letter.txt", followed_by_email(answer, &self.email));
                (Outreach { stage: Stage::Compose, ..self }, ask)
            },
            Stage::Compose => {
                let ask = prompt(
                    "llm4_add_personality_mailto.txt",
                    followed_by_email(answer, &self.email),
                );
                (Outreach { stage: Stage::Personality, ..self }, ask)
            },
            Stage::Personality => (Outreach { stage: Stage::Done, ..self }, Ask::Final(answer)),
            Stage::Done => (self, Ask::Final(answer)),
        }
    }
}

/// The chain asks, in order, the parse, strategy, compose and personality
/// prompts; the strategy input holds the parsed profile and the sender's
/// background; the compose and personality inputs are the previous answer
/// followed by the verified address; the fourth answer is the result.
pub proof fn lemma_chain_order(
    email: Seq<char>,
    personal_context: Seq<char>,
    a1: Seq<char>,
    a2: Seq<char>,
    a3: Seq<char>,
    a4: Seq<char>,
)
    ensures
        ({
            let s0 = outreach_start(email, personal_context);
            let (s1, k1) = outreach_next(s0, a1);
            let (s2, k2) = outreach_next(s1, a2);
            let (s3, k3) = outreach_next(s2, a3);
            let (s4, k4) = outreach_next(s3, a4);
            &&& k1 == AskView::Prompt(
                "llm2_summarize_info.txt"@,
                "TARGET PERSON'S LINKEDIN DATA:\n"@ + a1 + "\n\n--- SEPARATOR ---\n\nMY PERSONAL CONTEXT:\n"@
                    + personal_context,
            )
            &&& k2 == AskView::Prompt("llm3_compose_letter.txt"@, a2 + "\n\nVERIFIED EMAIL: "@ + email)
            &&& k3 == AskView::Prompt("llm4_add_personality_mailto.txt"@, a3 + "\n\nVERIFIED EMAIL: "@ + email)
            &&& k4 == AskView::Final(a4)
            &&& s4.stage is Done
        }),
{
}

/// No step changes the verified address or the sender's background, and
/// every prompt after the strategy step ends with the verified address.
pub proof fn lemma_email_carried(v: OutreachView, answer: Seq<char>)
    ensures
        outreach_next(v, answer).0.email == v.email,
        outreach_next(v, answer).0.personal_context == v.personal_context,
        outreach_next(v, answer).1 matches AskView::Prompt(file, input) ==> (file != "llm2_summarize_info.txt"@
            ==> input == answer + "\n\nVERIFIED EMAIL: "@ + v.email),
{
    reveal_strlit("llm2_summarize_info.txt");
    reveal_strlit("llm3_compose_letter.txt");
    reveal_strlit("llm4_add_personality_mailto.txt");
}

/// A finished chain stays finished and passes any further answer through.
pub proof fn lemma_done_stays(v: OutreachView, answer: Seq<char>)
    requires
        v.stage is Done,
    ensures
        outreach_next(v, answer) == (v, AskView::Final(answer)),
{
}

} // verus!
