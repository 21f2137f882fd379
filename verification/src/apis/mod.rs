pub mod appollo;
pub mod gpt;
