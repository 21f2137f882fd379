//! Verified core of a LinkedIn outreach assistant: the JSON model of the
//! services' replies, the requests sent to the e-mail finders, the
//! decisions taken on their answers, the condensing of a profile and the
//! chain of language-model prompts.

pub mod json;
pub mod text;
pub mod encoding;
pub mod http;
pub mod lookup;
pub mod apis;
pub mod appollo;
pub mod zeliq;
pub mod lead_iq;
pub mod snov;
pub mod pipeline;
pub mod llm_calls;
pub mod parse_email;
