//! Prompt templates suggesting next steps from a summary or style model.

use vstd::prelude::*;
use vstd::string::StringExecFns;

verus! {

/// Template text before the inserted input.
pub const NEXT_STEPS_TECHNICAL_BEFORE: &'static str = r#"
You are a helpful strategic assistant. Based on the provided technical summary, suggest 3-5 insightful and actionable next steps or areas for further investigation.
These suggestions should be practical and relevant to the content of the summary.
Format your response as a JSON array of strings.
Example: ["Investigate the performance impact of the new algorithm.", "Schedule a follow-up meeting to discuss the deployment timeline."]
Do not include any text outside of the JSON array.

Technical Summary:
---
"#;

/// Template text after the inserted input.
pub const NEXT_STEPS_TECHNICAL_AFTER: &'static str = r#"
---

Provide the JSON array of suggestions below:
"#;

/// Prompt asking for actionable next steps from a technical summary, as JSON.
pub fn next_steps_technical_summary_prompt_template(summary: &str) -> (r: String)
    ensures
        r@ == NEXT_STEPS_TECHNICAL_BEFORE@ + summary@ + NEXT_STEPS_TECHNICAL_AFTER@,
{
    let mut r = String::new();
    r.append(NEXT_STEPS_TECHNICAL_BEFORE);
    r.append(summary);
    r.append(NEXT_STEPS_TECHNICAL_AFTER);
    proof {
        assert(r@ =~= NEXT_STEPS_TECHNICAL_BEFORE@ + summary@ + NEXT_STEPS_TECHNICAL_AFTER@);
    }
    r
}

/// Template text opening the prompt.
pub const NEXT_STEPS_STYLE_SEG0: &'static str = r#"
You are a creative writing consultant. Based on the following extracted writing style model, provide 3-5 creative suggestions on how this style could be used or applied.
Think about different formats, audiences, or content types where this style would be effective.
If a specific person/character was targeted for the style analysis ("#;

/// Template text between the style target and the style model.
pub const NEXT_STEPS_STYLE_SEG1: &'static str = r#"), tailor the suggestions accordingly.
Format your response as a JSON array of strings.
Example: ["Use this witty and informal style to write a series of engaging blog posts.", "Apply this descriptive style to create a vivid short story."]
Do not include any text outside of the JSON array.

Extracted Writing Style Model:
---
"#;

/// Template text closing the prompt.
pub const NEXT_STEPS_STYLE_SEG2: &'static str = r#"
---

Provide the JSON array of suggestions below:
"#;

/// Prompt asking for creative applications of an extracted writing style,
/// tailored to the targeted person when one was given.
pub fn next_steps_style_model_prompt_template(style_description: &str, style_target: Option<
    &str,
>) -> (r: String)
    ensures
        r@ == NEXT_STEPS_STYLE_SEG0@ + (match style_target {
            Some(t) => t@,
            None => "not specified"@,
        }) + NEXT_STEPS_STYLE_SEG1@ + style_description@ + NEXT_STEPS_STYLE_SEG2@,
{
    let target = style_target.unwrap_or("not specified");
    let mut r = String::new();
    r.append(NEXT_STEPS_STYLE_SEG0);
    r.append(target);
    r.append(NEXT_STEPS_STYLE_SEG1);
    r.append(style_description);
    r.append(NEXT_STEPS_STYLE_SEG2);
    proof {
        assert(r@ =~= NEXT_STEPS_STYLE_SEG0@ + target@ + NEXT_STEPS_STYLE_SEG1@
            + style_description@ + NEXT_STEPS_STYLE_SEG2@);
    }
    r
}

} // verus!
