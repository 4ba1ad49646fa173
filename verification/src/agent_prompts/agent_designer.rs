//! Prompt template for designing an agentic system from a user's
//! configuration.

use vstd::prelude::*;
use vstd::string::StringExecFns;

verus! {

/// Configuration for an agent-system design request.
pub struct AgentDesignerSettings {
    pub system_type: String,
    pub goal: String,
    pub trigger: String,
    pub provider: String,
    pub capabilities: AgentCapabilities,
}

/// The capabilities the designed system may rely on.
pub struct AgentCapabilities {
    pub web_search: bool,
    pub email_access: bool,
    pub file_io: bool,
    pub code_execution: bool,
}

/// Persona line for a single-agent design.
pub const PERSONA_SINGLE: &'static str = "You are an expert AI Architect and Fine-Tuning Specialist. Your task is to design a robust, high-performing single agent system, including plans for fine-tuning and data curation.";

/// Persona line for a multi-agent design.
pub const PERSONA_MULTI: &'static str = "You are an expert multi-agent systems architect. Your task is to design a robust and scalable agentic system based on a user's high-level goal and provided configuration.";

/// Design principles for a single-agent design.
pub const PRINCIPLES_SINGLE: &'static str = r#"
**DESIGN PRINCIPLES TO FOLLOW:**
1.  **Clarity of Purpose:** The agent's prompt must define a clear role, capabilities, and constraints.
2.  **Tooling:** Define specific, atomic tools the agent can use to accomplish its goal.
3.  **Fine-Tuning Strategy:** The fine-tuning plan must be actionable and tailored to the agent's goal.
4.  **Data Curation:** The data plan must be practical and lead to a high-quality dataset."#;

/// Design principles for a multi-agent design.
pub const PRINCIPLES_MULTI: &'static str = r#"
**DESIGN PRINCIPLES TO FOLLOW:**
1.  **Modularity:** Decompose the system into distinct agents with clear responsibilities (e.g., a Router Agent, a Research Agent, a Writing Agent).
2.  **Tooling:** Define specific, atomic tools that agents can use (e.g., `web_search`, `read_file`, `send_email`).
3.  **State Management:** Consider how the state of a task is maintained and passed between agents.
4.  **Control Flow:** Design a clear control flow, often orchestrated by a primary agent or router.
5.  **Error Handling:** Include concepts for handling failed tasks or tool executions."#;

/// Single-agent pipeline text before the goal.
pub const PIPELINE_SINGLE_SEG0: &'static str = r#"
**PIPELINE TO SIMULATE:**
1.  **Analyze Goal:** Deconstruct the user's goal: ""#;

/// Single-agent pipeline text after the goal.
pub const PIPELINE_SINGLE_SEG1: &'static str = r#"".
2.  **Define Core Agent:** Design the primary agent's prompt template and necessary tools based on user-selected capabilities.
3.  **Create Fine-Tuning Plan:** Detail the strategy for fine-tuning the base model to specialize it for the task. Include data requirements, size, and evaluation methods.
4.  **Create Data Curation Plan:** Describe how to source, clean, and format the data required for the fine-tuning dataset.
5.  **Map Process Flow:** Create a simple Mermaid diagram illustrating the agent's primary action loop (e.g., receive trigger, use tools, produce output).
6.  **Synthesize Artifacts:**
    *   **designMarkdown:** Write a comprehensive overview of the agent, its tools, and the detailed fine-tuning and data curation plans in the `<DESIGN_MD>` block.
    *   **designPlanJson:** Populate the detailed JSON structure in the `<DESIGN_PLAN_JSON>` block.
    *   **designFlowDiagram:** Create the Mermaid.js `graph TD` that visually represents the agent's process in the `<DESIGN_FLOW_DIAGRAM>` block."#;

/// Multi-agent pipeline text before the goal.
pub const PIPELINE_MULTI_SEG0: &'static str = r#"
**PIPELINE TO SIMULATE:**
1.  **Analyze Goal:** Deconstruct the user's goal: ""#;

/// Multi-agent pipeline text before the web-search flag.
pub const PIPELINE_MULTI_SEG1: &'static str = r#"".
2.  **Select Architecture:** Choose a suitable architecture (e.g., Router-Worker, Hierarchical, Broadcast) based on the goal.
3.  **Define Agents & Tools:**
    *   Define the necessary agents and their specific roles/prompts.
    *   Define the tools required to accomplish the goal, especially considering the user-selected capabilities: Web Search ("#;

/// Multi-agent pipeline text before the email flag.
pub const PIPELINE_MULTI_SEG2: &'static str = r#"), Email ("#;

/// Multi-agent pipeline text before the file-I/O flag.
pub const PIPELINE_MULTI_SEG3: &'static str = r#"), File I/O ("#;

/// Multi-agent pipeline text before the code-execution flag.
pub const PIPELINE_MULTI_SEG4: &'static str = r#"), Code Execution ("#;

/// Multi-agent pipeline text after the flags.
pub const PIPELINE_MULTI_SEG5: &'static str = r#").
4.  **Map Process Flow:** Chart the sequence of operations, agent interactions, and tool usage from trigger to completion.
5.  **Synthesize Artifacts:**
    *   **designMarkdown:** Write a comprehensive overview of the system design in the `<DESIGN_MD>` block.
    *   **designPlanJson:** Populate the detailed JSON structure in the `<DESIGN_PLAN_JSON>` block.
    *   **designFlowDiagram:** Create a Mermaid.js `graph TD` that visually represents the process flow in the `<DESIGN_FLOW_DIAGRAM>` block."#;

/// Frame text before the persona.
pub const FRAME_SEG0: &'static str = r#"
"#;

/// Frame text between the persona and the design principles.
pub const FRAME_SEG1: &'static str = r#"
You must generate a comprehensive design document consisting of three distinct blocks: a Markdown overview, a Mermaid.js process flow diagram, and a structured JSON plan.

**OUTPUT REQUIREMENTS:**
Your final output MUST contain three distinct, clearly separated blocks with the following XML-style tags:
1.  A `<DESIGN_MD>` block containing the full, raw, enhanced Markdown text for the design overview.
2.  A `<DESIGN_FLOW_DIAGRAM>` block containing only the raw Mermaid.js code for the diagram.
3.  A `<DESIGN_PLAN_JSON>` block containing a single, valid, parsable JSON object for the structured plan.

**CRITICAL JSON FORMATTING RULE:** The JSON block must be perfectly valid. All string values within the JSON must be correctly escaped (e.g., newlines as \n, quotes as \", backslashes as \\).

"#;

/// Frame text between the design principles and the pipeline.
pub const FRAME_SEG2: &'static str = r#"

"#;

/// Frame text between the pipeline and the goal line.
pub const FRAME_SEG3: &'static str = r#"

---
**USER CONFIGURATION:**
- **Goal:** "#;

/// Frame text between the goal and the system type.
pub const FRAME_SEG4: &'static str = r#"
- **System Type:** "#;

/// Frame text between the system type and the provider.
pub const FRAME_SEG5: &'static str = r#"
- **Provider:** "#;

/// Frame text between the provider and the trigger.
pub const FRAME_SEG6: &'static str = r#"
- **Trigger:** "#;

/// Frame text closing the prompt.
pub const FRAME_SEG7: &'static str = r#"
---
**FINAL REMINDER:** Your entire response must be wrapped in the specified blocks in the correct order: `<DESIGN_MD>`, then `<DESIGN_FLOW_DIAGRAM>`, then `<DESIGN_PLAN_JSON>`. Do not add any other text, explanations, or apologies.
Begin generation now.
"#;

/// How a capability flag is rendered into the prompt.
pub open spec fn bool_text(b: bool) -> Seq<char> {
    if b {
        "true"@
    } else {
        "false"@
    }
}

/// Whether the settings ask for a single-agent design.
pub open spec fn is_single_agent(s: AgentDesignerSettings) -> bool {
    s.system_type@ == "singleAgent"@
}

/// The pipeline section of the prompt, over the configuration's text and
/// flags.
pub open spec fn pipeline_text(
    system_type: Seq<char>,
    goal: Seq<char>,
    web_search: bool,
    email_access: bool,
    file_io: bool,
    code_execution: bool,
) -> Seq<char> {
    if system_type == "singleAgent"@ {
        PIPELINE_SINGLE_SEG0@ + goal + PIPELINE_SINGLE_SEG1@
    } else {
        PIPELINE_MULTI_SEG0@ + goal + PIPELINE_MULTI_SEG1@ + bool_text(web_search)
            + PIPELINE_MULTI_SEG2@ + bool_text(email_access) + PIPELINE_MULTI_SEG3@ + bool_text(
            file_io,
        ) + PIPELINE_MULTI_SEG4@ + bool_text(code_execution) + PIPELINE_MULTI_SEG5@
    }
}

/// The whole design prompt, over the configuration's text and flags.
pub open spec fn agent_designer_prompt_text(
    system_type: Seq<char>,
    goal: Seq<char>,
    trigger: Seq<char>,
    provider: Seq<char>,
    web_search: bool,
    email_access: bool,
    file_io: bool,
    code_execution: bool,
) -> Seq<char> {
    let single = system_type == "singleAgent"@;
    let persona = if single {
        PERSONA_SINGLE@
    } else {
        PERSONA_MULTI@
    };
    let principles = if single {
        PRINCIPLES_SINGLE@
    } else {
        PRINCIPLES_MULTI@
    };
    FRAME_SEG0@ + persona + FRAME_SEG1@ + principles + FRAME_SEG2@ + pipeline_text(
        system_type,
        goal,
        web_search,
        email_access,
        file_io,
        code_execution,
    ) + FRAME_SEG3@ + goal + FRAME_SEG4@ + system_type + FRAME_SEG5@ + provider + FRAME_SEG6@
        + trigger + FRAME_SEG7@
}

/// The whole design prompt for one configuration.
pub open spec fn agent_designer_prompt_view(s: AgentDesignerSettings) -> Seq<char> {
    agent_designer_prompt_text(
        s.system_type@,
        s.goal@,
        s.trigger@,
        s.provider@,
        s.capabilities.web_search,
        s.capabilities.email_access,
        s.capabilities.file_io,
        s.capabilities.code_execution,
    )
}

/// Prompt asking for a complete agent-system design: persona, design
/// principles and pipeline vary with the declared system type, and the
/// user's configuration is echoed at the end.
pub fn agent_designer_prompt_template(settings: &AgentDesignerSettings) -> (r: String)
    ensures
        r@ == agent_designer_prompt_view(*settings),
{
    let single_marker = String::from_str("singleAgent");
    let single = settings.system_type == single_marker;
    let persona: &str = if single {
        PERSONA_SINGLE
    } else {
        PERSONA_MULTI
    };
    let design_principles: &str = if single {
        PRINCIPLES_SINGLE
    } else {
        PRINCIPLES_MULTI
    };
    let mut pipeline = String::new();
    if single {
        pipeline.append(PIPELINE_SINGLE_SEG0);
        pipeline.append(settings.goal.as_str());
        pipeline.append(PIPELINE_SINGLE_SEG1);
    } else {
        pipeline.append(PIPELINE_MULTI_SEG0);
        pipeline.append(settings.goal.as_str());
        pipeline.append(PIPELINE_MULTI_SEG1);
        pipeline.append(if settings.capabilities.web_search {
            "true"
        } else {
            "false"
        });
        pipeline.append(PIPELINE_MULTI_SEG2);
        pipeline.append(if settings.capabilities.email_access {
            "true"
        } else {
            "false"
        });
        pipeline.append(PIPELINE_MULTI_SEG3);
        pipeline.append(if settings.capabilities.file_io {
            "true"
        } else {
            "false"
        });
        pipeline.append(PIPELINE_MULTI_SEG4);
        pipeline.append(if settings.capabilities.code_execution {
            "true"
        } else {
            "false"
        });
        pipeline.append(PIPELINE_MULTI_SEG5);
    }
    proof {
        assert(pipeline@ =~= pipeline_text(
            settings.system_type@,
            settings.goal@,
            settings.capabilities.web_search,
            settings.capabilities.email_access,
            settings.capabilities.file_io,
            settings.capabilities.code_execution,
        ));
    }
    let mut r = String::new();
    r.append(FRAME_SEG0);
    r.append(persona);
    r.append(FRAME_SEG1);
    r.append(design_principles);
    r.append(FRAME_SEG2);
    r.append(pipeline.as_str());
    r.append(FRAME_SEG3);
    r.append(settings.goal.as_str());
    r.append(FRAME_SEG4);
    r.append(settings.system_type.as_str());
    r.append(FRAME_SEG5);
    r.append(settings.provider.as_str());
    r.append(FRAME_SEG6);
    r.append(settings.trigger.as_str());
    r.append(FRAME_SEG7);
    proof {
        assert(r@ =~= agent_designer_prompt_view(*settings));
    }
    r
}

} // verus!
