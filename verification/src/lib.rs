//! Core logic of a pull-request benchmark bot: webhook intake, reference
//! resolution planning, a bounded dispatch queue, repository-cache sync,
//! benchmark-harness invocation planning, and idempotent result reporting.

pub mod auth;
pub mod clamp;
pub mod comment;
pub mod constants;
pub mod harness;
pub mod intake;
pub mod queue;
pub mod repo_cache;
pub mod reporter;
pub mod resolver;
pub mod text;
