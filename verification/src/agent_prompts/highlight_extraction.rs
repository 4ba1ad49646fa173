//! Prompt template for extracting highlights from a summary.

use vstd::prelude::*;
use vstd::string::StringExecFns;

verus! {

/// Template text before the inserted input.
pub const HIGHLIGHT_BEFORE: &'static str = r#"
You are an AI assistant specializing in information extraction.
From the following summary text, identify and extract the 5 to 10 most important, impactful, or actionable highlights.
Each highlight should be a concise, self-contained sentence or two.
Return the highlights as a JSON array of objects, where each object has a "text" field.
Example format:
[
  {"text": "This is the first important highlight."},
  {"text": "This is another key takeaway."}
]
Do not include any text outside of the JSON array. The response must be only the JSON.

Here is the summary text to analyze:
---
"#;

/// Template text after the inserted input.
pub const HIGHLIGHT_AFTER: &'static str = r#"
---

Extract the JSON array of highlights below:
"#;

/// Prompt asking for the most important highlights of a summary, as JSON.
pub fn highlight_extraction_prompt(text: &str) -> (r: String)
    ensures
        r@ == HIGHLIGHT_BEFORE@ + text@ + HIGHLIGHT_AFTER@,
{
    let mut r = String::new();
    r.append(HIGHLIGHT_BEFORE);
    r.append(text);
    r.append(HIGHLIGHT_AFTER);
    proof {
        assert(r@ =~= HIGHLIGHT_BEFORE@ + text@ + HIGHLIGHT_AFTER@);
    }
    r
}

} // verus!
