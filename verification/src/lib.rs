//! Verified core of a webhook-driven issue summarizer.
//!
//! The crate models the decision logic of a handler that reacts to
//! issue-comment webhook deliveries: screening events for a trigger
//! phrase, aggregating an issue with its comment thread into a prompt,
//! and composing the reply that is posted back.  All remote calls
//! (listing comments, the chat completion, posting the reply) are
//! performed by a thin driver outside this crate; the functions here
//! decide, for each step's outcome, what happens next.

pub mod config;
pub mod event;
pub mod handler;
pub mod prompts;
pub mod reply;
pub mod strutil;
