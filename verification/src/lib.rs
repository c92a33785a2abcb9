//! The decision logic of a small chat-completion gateway: request validation,
//! token counting, per-client rate limiting and cumulative usage accounting.

pub mod diagnostics;
pub mod gateway;
pub mod ledger;
pub mod limiter;
pub mod reply;
pub mod request;
pub mod response;
pub mod routes;
pub mod text;

pub use crate::request::{count_tokens, ChatRequest, Message, ValidationError};
pub use crate::text::count_tokens_str;
