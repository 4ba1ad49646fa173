//! Prompt template for rewriting content into a new narrative.

use vstd::prelude::*;
use vstd::string::StringExecFns;

verus! {

/// The desired length of a rewritten narrative.
pub enum RewriteLength {
    Concise,
    Short,
    Medium,
    Long,
}

/// Template text opening the prompt.
pub const REWRITER_SEG0: &'static str = r#"
You are an expert writer and content creator. Your task is to rewrite the provided content (which may include text and images) into a new narrative.
Follow the user-provided style and instructions precisely.

**STYLE GUIDE:**
---
"#;

/// Template text between the style guide and the instructions.
pub const REWRITER_SEG1: &'static str = r#"
---

**ADDITIONAL INSTRUCTIONS:**
---
"#;

/// Template text between the instructions and the length guidance.
pub const REWRITER_SEG2: &'static str = r#"
---

**DESIRED LENGTH:**
---
"#;

/// Template text closing the prompt.
pub const REWRITER_SEG3: &'static str = r#"
---

Now, analyze the following content pieces and rewrite them into a single, cohesive narrative according to the rules above.
If images are provided, describe them and weave their content into the story.
The output should be in well-formatted Markdown.
"#;

/// Length guidance for [`RewriteLength::Concise`].
pub const LENGTH_CONCISE: &'static str = "The final output should be concise, like a social media post or an email (approx. 100-200 words).";

/// Length guidance for [`RewriteLength::Short`].
pub const LENGTH_SHORT: &'static str = "The final output should be short, like a short essay or a blog post (approx. 500-800 words).";

/// Length guidance for [`RewriteLength::Medium`].
pub const LENGTH_MEDIUM: &'static str = "The final output should be a moderate length, like a blog post or a detailed article section (approx. 1000-1500 words).";

/// Length guidance for [`RewriteLength::Long`].
pub const LENGTH_LONG: &'static str = "The final output should be extensive and detailed, like a chapter of a book or a long-form report (approx. 2000-5000 words).";

/// The length guidance inserted into the prompt for one length choice.
pub open spec fn length_instruction_view(length: RewriteLength) -> Seq<char> {
    match length {
        RewriteLength::Concise => LENGTH_CONCISE@,
        RewriteLength::Short => LENGTH_SHORT@,
        RewriteLength::Medium => LENGTH_MEDIUM@,
        RewriteLength::Long => LENGTH_LONG@,
    }
}

/// Prompt asking for a rewrite of the provided content in the given style,
/// with the user's instructions (or a note that none were provided) and the
/// desired length.
pub fn rewriter_prompt_template(style: &str, instructions: &str, length: RewriteLength) -> (r:
    String)
    ensures
        r@ == REWRITER_SEG0@ + style@ + REWRITER_SEG1@ + (if instructions@.len() == 0 {
            "None provided."@
        } else {
            instructions@
        }) + REWRITER_SEG2@ + length_instruction_view(length) + REWRITER_SEG3@,
{
    let length_instruction: &str = match length {
        RewriteLength::Concise => LENGTH_CONCISE,
        RewriteLength::Short => LENGTH_SHORT,
        RewriteLength::Medium => LENGTH_MEDIUM,
        RewriteLength::Long => LENGTH_LONG,
    };
    let instructions_text: &str = if instructions.is_empty() {
        "None provided."
    } else {
        instructions
    };
    let mut r = String::new();
    r.append(REWRITER_SEG0);
    r.append(style);
    r.append(REWRITER_SEG1);
    r.append(instructions_text);
    r.append(REWRITER_SEG2);
    r.append(length_instruction);
    r.append(REWRITER_SEG3);
    proof {
        assert(r@ =~= REWRITER_SEG0@ + style@ + REWRITER_SEG1@ + instructions_text@
            + REWRITER_SEG2@ + length_instruction@ + REWRITER_SEG3@);
    }
    r
}

} // verus!
