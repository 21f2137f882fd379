pub mod parsing;
pub mod email_finder;
pub mod outreach;
