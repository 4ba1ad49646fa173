//! Prompt templates for generating and correcting Mermaid diagrams.

use vstd::prelude::*;
use vstd::string::StringExecFns;

verus! {

/// Template text before the inserted input.
pub const MERMAID_FULL_BEFORE: &'static str = r#"
You are a Mermaid.js expert. Based on the following entity-relationship digest, create a comprehensive Mermaid.js graph diagram (\`graph TD\`).

**Instructions:**
1.  Analyze all the entities and their relationships in the provided text.
2.  Create a single \`graph TD\` that visualizes all these connections.
3.  De-duplicate relationships.
4.  The final output MUST be ONLY the Mermaid code inside a Markdown code fence (\`\`\`mermaid ... \`\`\`).
5.  Do not add any explanations, titles, or any other text before or after the code fence.
6.  **CRITICAL SYNTAX FOR LINKS:** To add a label to a link, you MUST use the format: \`NodeA -- Link Label --> NodeB\`. Do NOT use quotes around the link label.
    *   **Correct:** \`User -- writes --> Document\`
    *   **Incorrect:** \`User -- "writes" --> Document\`

**Entity-Relationship Digest:**
---
"#;

/// Template text after the inserted input.
pub const MERMAID_FULL_AFTER: &'static str = r#"
---

**Mermaid Diagram:**
"#;

/// Template text before the inserted input.
pub const MERMAID_SIMPLE_BEFORE: &'static str = r#"
You are a Mermaid.js expert specializing in data visualization for documentation.
Based on the following detailed entity-relationship digest, create a **simplified**, high-level Mermaid.js graph diagram (\`graph TD\`).

**Your Goal:** Create a diagram that is easy to read and understand at a glance inside a static Markdown document. It must be visually clean and avoid being too cluttered.

**Instructions:**
1.  **Analyze the full digest:** Understand all entities and their relationships.
2.  **Simplify:**
    *   Focus on the **most important entities** and their primary relationships.
    *   You MAY omit less important entities or group related minor entities into a single representative node.
    *   You SHOULD omit most or all attributes to reduce clutter.
    *   The goal is to show the high-level structure, not every single detail.
3.  **Create a \`graph TD\` diagram:** The final output MUST be ONLY the Mermaid code inside a Markdown code fence (\`\`\`mermaid ... \`\`\`).
4.  **Do not add any explanations or other text** before or after the code fence.
5.  **Adhere to Mermaid.js syntax rules:** Pay close attention to link labeling.

**CRITICAL SYNTAX FOR LINKS:** To add a label to a link, you MUST use the format: \`NodeA -- Link Label --> NodeB\`. Do NOT use quotes around the link label.
    *   **Correct:** \`User -- writes --> Document\`
    *   **Incorrect:** \`User -- "writes" --> Document\`

---
**DETAILED ENTITY-RELATIONSHIP DIGEST:**
"#;

/// Template text after the inserted input.
pub const MERMAID_SIMPLE_AFTER: &'static str = r#"
---

**Simplified Mermaid Diagram:**
"#;

/// Template text opening the prompt.
pub const MERMAID_CORRECT_SEG0: &'static str = r#"
You are a Mermaid.js syntax correction expert.
You previously generated a Mermaid diagram, but it contained a syntax error.
Your task is to fix the error and provide the corrected code.

**Original (Incorrect) Code:**
\`\`\`mermaid
"#;

/// Template text between holes of [`correct_mermaid_syntax_prompt`].
pub const MERMAID_CORRECT_SEG1: &'static str = r#"
\`\`\`

**Error Message from Validator:**
\`\`\`
"#;

/// Template text between holes of [`correct_mermaid_syntax_prompt`].
pub const MERMAID_CORRECT_SEG2: &'static str = r#"
\`\`\`

**Relevant Documentation / Rules:**
---
"#;

/// Template text closing the prompt.
pub const MERMAID_CORRECT_SEG3: &'static str = r#"
---

**Instructions:**
1. Analyze the error message and the incorrect code.
2. Use the provided documentation to understand the correct syntax.
3. Rewrite the Mermaid code to fix the error.
4. The final output MUST be ONLY the corrected Mermaid code inside a Markdown code fence (\`\`\`mermaid ... \`\`\`).
5. Do not add any explanations, apologies, or any other text before or after the code fence.

**Corrected Mermaid Diagram:**
"#;

/// Template text before the inserted input.
pub const MERMAID_REVERSE_BEFORE: &'static str = r#"
You are a Mermaid.js expert specializing in visualizing software architecture.
Based on the following reverse-engineering report, create a Mermaid.js \`graph TD\` that illustrates the system's architecture.

**Instructions:**
1.  Identify the **Core Components**, **Entry Points**, and **External/Proprietary Services** from the report.
2.  Represent each as a distinct node in the graph. Use different shapes for different types of components if it enhances clarity (e.g., databases, external APIs).
3.  Draw arrows to represent the **data and control flow** between components. Label the arrows to describe the interaction (e.g., "API Call", "Reads from", "Sends data to").
4.  Group related components into subgraphs to represent layers or services.
5.  The final output MUST be ONLY the Mermaid code inside a Markdown code fence (\`\`\`mermaid ... \`\`\`). Do not add any explanations or other text.
6.  **CRITICAL SYNTAX FOR LINKS:** Use the format \`NodeA -- Link Label --> NodeB\`. Do NOT use quotes around the link label.

**Reverse-Engineering Report:**
---
"#;

/// Template text after the inserted input.
pub const MERMAID_REVERSE_AFTER: &'static str = r#"
---

**Architecture Flow Diagram:**
"#;

/// Prompt asking for a full diagram of an entity-relationship digest.
pub fn generate_mermaid_from_digest_prompt(digest: &str) -> (r: String)
    ensures
        r@ == MERMAID_FULL_BEFORE@ + digest@ + MERMAID_FULL_AFTER@,
{
    let mut r = String::new();
    r.append(MERMAID_FULL_BEFORE);
    r.append(digest);
    r.append(MERMAID_FULL_AFTER);
    proof {
        assert(r@ =~= MERMAID_FULL_BEFORE@ + digest@ + MERMAID_FULL_AFTER@);
    }
    r
}

/// Prompt asking for a simplified, high-level diagram of a digest.
pub fn generate_simplified_mermaid_prompt(digest: &str) -> (r: String)
    ensures
        r@ == MERMAID_SIMPLE_BEFORE@ + digest@ + MERMAID_SIMPLE_AFTER@,
{
    let mut r = String::new();
    r.append(MERMAID_SIMPLE_BEFORE);
    r.append(digest);
    r.append(MERMAID_SIMPLE_AFTER);
    proof {
        assert(r@ =~= MERMAID_SIMPLE_BEFORE@ + digest@ + MERMAID_SIMPLE_AFTER@);
    }
    r
}

/// Prompt asking for a syntax correction of an invalid diagram.
pub fn correct_mermaid_syntax_prompt(invalid_code: &str, error_message: &str, relevant_docs: &str) -> (r: String)
    ensures
        r@ == MERMAID_CORRECT_SEG0@ + invalid_code@ + MERMAID_CORRECT_SEG1@ + error_message@ + MERMAID_CORRECT_SEG2@ + relevant_docs@ + MERMAID_CORRECT_SEG3@,
{
    let mut r = String::new();
    r.append(MERMAID_CORRECT_SEG0);
    r.append(invalid_code);
    r.append(MERMAID_CORRECT_SEG1);
    r.append(error_message);
    r.append(MERMAID_CORRECT_SEG2);
    r.append(relevant_docs);
    r.append(MERMAID_CORRECT_SEG3);
    proof {
        assert(r@ =~= MERMAID_CORRECT_SEG0@ + invalid_code@ + MERMAID_CORRECT_SEG1@ + error_message@ + MERMAID_CORRECT_SEG2@ + relevant_docs@ + MERMAID_CORRECT_SEG3@);
    }
    r
}

/// Prompt asking for an architecture diagram of a reverse-engineering report.
pub fn generate_reverse_engineering_mermaid_prompt(report: &str) -> (r: String)
    ensures
        r@ == MERMAID_REVERSE_BEFORE@ + report@ + MERMAID_REVERSE_AFTER@,
{
    let mut r = String::new();
    r.append(MERMAID_REVERSE_BEFORE);
    r.append(report);
    r.append(MERMAID_REVERSE_AFTER);
    proof {
        assert(r@ =~= MERMAID_REVERSE_BEFORE@ + report@ + MERMAID_REVERSE_AFTER@);
    }
    r
}

} // verus!
