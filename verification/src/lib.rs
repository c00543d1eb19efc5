//! A query-answering library around a hosted chat-completion service.
//!
//! The crate verifies the logic of the pipeline: deciding whether a query
//! warrants a web search, summarizing fetched articles, assembling the
//! final prompt, extracting the answer, escaping it for the delivery
//! transport's markup dialect, and the retry discipline around every
//! outbound call.  Network transport itself is left to the surrounding
//! program, which drives the pipeline state machine event by event.

pub mod api;
pub mod config;
pub mod decimal;
pub mod errors;
pub mod pipeline;
pub mod retry;
pub mod sanitize;
pub mod search;
pub mod types;
pub mod user;
