//! Shared instruction on citing external references.

use vstd::prelude::*;

verus! {

/// Appended to prompts whose responses may carry external references.
pub const CITATION_INSTRUCTION: &'static str = r#"

If any external links, references, or citations are included, they MUST be listed at the end of the entire response in a dedicated "References" section, formatted using a professional citation style (e.g., APA, MLA). Do not invent citations. Only list them if present in the source text."#;

} // verus!
