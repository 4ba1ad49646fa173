//! Orchestration layer between application callers and a downstream
//! text-completion backend.
//!
//! The library turns arbitrary-sized work (single prompts, oversized
//! documents, bundles of independent requests) into a bounded set of backend
//! calls while enforcing per-caller rate limits, tolerating transient
//! failures, and reporting uniform, ordered, partial-failure-aware results
//! with running performance statistics.  The backend itself is an external
//! capability: callers hand in any implementation of the
//! [`backend::CompletionBackend`] and [`backend::Clock`] traits.
//!
//! Alongside the orchestration core, the crate carries the prompt-template
//! builders that produce the text handed to the backend.

pub mod agent_prompts;
pub mod backend;
pub mod batch;
pub mod chunk;
pub mod decimal;
pub mod rate_limiter;
pub mod retry;
pub mod service;
pub mod stats;
pub mod summary_prompts;
pub mod text;
pub mod work_items;
