//! Prompt templates for the single-shot agent work items.

pub mod agent_designer;
pub mod citations;
pub mod codex;
pub mod highlight_extraction;
pub mod mermaid_designer;
pub mod next_steps;
pub mod rewriter;
