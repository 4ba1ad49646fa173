use prompt_pipeline::agent_prompts::agent_designer::{
    agent_designer_prompt_template, AgentCapabilities, AgentDesignerSettings, FRAME_SEG0,
    FRAME_SEG1, FRAME_SEG2, FRAME_SEG3, FRAME_SEG4, FRAME_SEG5, FRAME_SEG6, FRAME_SEG7,
    PERSONA_MULTI, PERSONA_SINGLE, PIPELINE_MULTI_SEG0, PIPELINE_MULTI_SEG1, PIPELINE_MULTI_SEG2,
    PIPELINE_MULTI_SEG3, PIPELINE_MULTI_SEG4, PIPELINE_MULTI_SEG5, PIPELINE_SINGLE_SEG0,
    PIPELINE_SINGLE_SEG1, PRINCIPLES_MULTI, PRINCIPLES_SINGLE,
};
use prompt_pipeline::agent_prompts::citations::CITATION_INSTRUCTION;
use prompt_pipeline::agent_prompts::codex::{build_prompt, CODEX_PROMPT};
use prompt_pipeline::agent_prompts::highlight_extraction::{
    highlight_extraction_prompt, HIGHLIGHT_AFTER, HIGHLIGHT_BEFORE,
};
use prompt_pipeline::agent_prompts::mermaid_designer::{
    correct_mermaid_syntax_prompt, generate_mermaid_from_digest_prompt,
    generate_reverse_engineering_mermaid_prompt, generate_simplified_mermaid_prompt,
    MERMAID_CORRECT_SEG0, MERMAID_CORRECT_SEG1, MERMAID_CORRECT_SEG2, MERMAID_CORRECT_SEG3,
    MERMAID_FULL_AFTER, MERMAID_FULL_BEFORE, MERMAID_REVERSE_AFTER, MERMAID_REVERSE_BEFORE,
    MERMAID_SIMPLE_AFTER, MERMAID_SIMPLE_BEFORE,
};
use prompt_pipeline::agent_prompts::next_steps::{
    next_steps_style_model_prompt_template, next_steps_technical_summary_prompt_template,
    NEXT_STEPS_STYLE_SEG0, NEXT_STEPS_STYLE_SEG1, NEXT_STEPS_STYLE_SEG2,
    NEXT_STEPS_TECHNICAL_AFTER, NEXT_STEPS_TECHNICAL_BEFORE,
};
use prompt_pipeline::agent_prompts::rewriter::{
    rewriter_prompt_template, RewriteLength, LENGTH_CONCISE, LENGTH_LONG, LENGTH_MEDIUM,
    LENGTH_SHORT, REWRITER_SEG0, REWRITER_SEG1, REWRITER_SEG2, REWRITER_SEG3,
};
use prompt_pipeline::summary_prompts::dialog_condensation::{
    chunk_summary_prompt_dialog_condensation, reduce_summaries_prompt_dialog_condensation,
    DIALOG_CHUNK_AFTER, DIALOG_CHUNK_BEFORE, DIALOG_REDUCE_AFTER, DIALOG_REDUCE_BEFORE,
};
use prompt_pipeline::summary_prompts::metrics_dashboard::{
    chunk_summary_prompt_metrics_dashboard, reduce_summaries_prompt_metrics_dashboard,
    METRICS_CHUNK_AFTER, METRICS_CHUNK_BEFORE, METRICS_REDUCE_AFTER, METRICS_REDUCE_BEFORE,
};
use prompt_pipeline::summary_prompts::pitch_generator::{
    chunk_summary_prompt_pitch_generator, reduce_summaries_prompt_pitch_generator,
    PITCH_CHUNK_AFTER, PITCH_CHUNK_BEFORE, PITCH_REDUCE_AFTER, PITCH_REDUCE_BEFORE,
};
use prompt_pipeline::summary_prompts::process_flow::{
    chunk_summary_prompt_process_flow, reduce_summaries_prompt_process_flow, PROCESS_CHUNK_AFTER,
    PROCESS_CHUNK_BEFORE, PROCESS_REDUCE_AFTER, PROCESS_REDUCE_BEFORE,
};
use prompt_pipeline::summary_prompts::risk_register::{
    chunk_summary_prompt_risk_register, reduce_summaries_prompt_risk_register, RISK_CHUNK_AFTER,
    RISK_CHUNK_BEFORE, RISK_REDUCE_AFTER, RISK_REDUCE_BEFORE,
};
use prompt_pipeline::summary_prompts::session_finder::{
    chunk_summary_prompt_solution_finder, reduce_summaries_prompt_solution_finder,
    SOLUTION_CHUNK_AFTER, SOLUTION_CHUNK_BEFORE, SOLUTION_REDUCE_AFTER, SOLUTION_REDUCE_BEFORE,
};
use prompt_pipeline::summary_prompts::swot_analysis::{
    chunk_summary_prompt_swot_analysis, reduce_summaries_prompt_swot_analysis, SWOT_CHUNK_AFTER,
    SWOT_CHUNK_BEFORE, SWOT_REDUCE_AFTER, SWOT_REDUCE_BEFORE,
};

#[test]
fn summary_prompts_wrap_the_segment_in_their_template() {
    let t = "SEGMENT under test";
    assert_eq!(
        chunk_summary_prompt_dialog_condensation(t),
        format!("{}{}{}", DIALOG_CHUNK_BEFORE, t, DIALOG_CHUNK_AFTER)
    );
    assert_eq!(
        reduce_summaries_prompt_dialog_condensation(t),
        format!("{}{}{}", DIALOG_REDUCE_BEFORE, t, DIALOG_REDUCE_AFTER)
    );
    assert_eq!(
        chunk_summary_prompt_metrics_dashboard(t),
        format!("{}{}{}", METRICS_CHUNK_BEFORE, t, METRICS_CHUNK_AFTER)
    );
    assert_eq!(
        reduce_summaries_prompt_metrics_dashboard(t),
        format!("{}{}{}", METRICS_REDUCE_BEFORE, t, METRICS_REDUCE_AFTER)
    );
    assert_eq!(
        chunk_summary_prompt_pitch_generator(t),
        format!("{}{}{}", PITCH_CHUNK_BEFORE, t, PITCH_CHUNK_AFTER)
    );
    assert_eq!(
        reduce_summaries_prompt_pitch_generator(t),
        format!("{}{}{}", PITCH_REDUCE_BEFORE, t, PITCH_REDUCE_AFTER)
    );
    assert_eq!(
        chunk_summary_prompt_process_flow(t),
        format!("{}{}{}", PROCESS_CHUNK_BEFORE, t, PROCESS_CHUNK_AFTER)
    );
    assert_eq!(
        reduce_summaries_prompt_process_flow(t),
        format!("{}{}{}", PROCESS_REDUCE_BEFORE, t, PROCESS_REDUCE_AFTER)
    );
    assert_eq!(
        chunk_summary_prompt_risk_register(t),
        format!("{}{}{}", RISK_CHUNK_BEFORE, t, RISK_CHUNK_AFTER)
    );
    assert_eq!(
        reduce_summaries_prompt_risk_register(t),
        format!("{}{}{}", RISK_REDUCE_BEFORE, t, RISK_REDUCE_AFTER)
    );
    assert_eq!(
        chunk_summary_prompt_solution_finder(t),
        format!("{}{}{}", SOLUTION_CHUNK_BEFORE, t, SOLUTION_CHUNK_AFTER)
    );
    assert_eq!(
        reduce_summaries_prompt_solution_finder(t),
        format!("{}{}{}", SOLUTION_REDUCE_BEFORE, t, SOLUTION_REDUCE_AFTER)
    );
    assert_eq!(
        chunk_summary_prompt_swot_analysis(t),
        format!("{}{}{}", SWOT_CHUNK_BEFORE, t, SWOT_CHUNK_AFTER)
    );
    assert_eq!(
        reduce_summaries_prompt_swot_analysis(t),
        format!("{}{}{}", SWOT_REDUCE_BEFORE, t, SWOT_REDUCE_AFTER)
    );
}

#[test]
fn dialog_chunk_template_carries_its_instructions() {
    let p = chunk_summary_prompt_dialog_condensation("the transcript");
    assert!(p.contains("expert meeting summarizer"));
    assert!(p.contains("TRANSCRIPT SEGMENT TO ANALYZE:\nthe transcript"));
    assert!(p.ends_with("Provide the condensed dialog for the segment above.\n"));
}

#[test]
fn highlight_prompt_embeds_the_summary() {
    let p = highlight_extraction_prompt("important facts");
    assert_eq!(
        p,
        format!("{}important facts{}", HIGHLIGHT_BEFORE, HIGHLIGHT_AFTER)
    );
    assert!(p.contains("5 to 10 most important"));
}

#[test]
fn mermaid_prompts_embed_their_inputs() {
    assert_eq!(
        generate_mermaid_from_digest_prompt("the digest"),
        format!("{}the digest{}", MERMAID_FULL_BEFORE, MERMAID_FULL_AFTER)
    );
    assert_eq!(
        generate_simplified_mermaid_prompt("the digest"),
        format!("{}the digest{}", MERMAID_SIMPLE_BEFORE, MERMAID_SIMPLE_AFTER)
    );
    assert_eq!(
        generate_reverse_engineering_mermaid_prompt("the report"),
        format!("{}the report{}", MERMAID_REVERSE_BEFORE, MERMAID_REVERSE_AFTER)
    );
    assert_eq!(
        correct_mermaid_syntax_prompt("bad code", "parse error", "docs"),
        format!(
            "{}bad code{}parse error{}docs{}",
            MERMAID_CORRECT_SEG0, MERMAID_CORRECT_SEG1, MERMAID_CORRECT_SEG2, MERMAID_CORRECT_SEG3
        )
    );
}

#[test]
fn next_steps_prompts_embed_their_inputs() {
    assert_eq!(
        next_steps_technical_summary_prompt_template("the summary"),
        format!(
            "{}the summary{}",
            NEXT_STEPS_TECHNICAL_BEFORE, NEXT_STEPS_TECHNICAL_AFTER
        )
    );
    assert_eq!(
        next_steps_style_model_prompt_template("witty style", Some("the author")),
        format!(
            "{}the author{}witty style{}",
            NEXT_STEPS_STYLE_SEG0, NEXT_STEPS_STYLE_SEG1, NEXT_STEPS_STYLE_SEG2
        )
    );
}

#[test]
fn next_steps_style_without_target_says_not_specified() {
    assert_eq!(
        next_steps_style_model_prompt_template("calm style", None),
        format!(
            "{}not specified{}calm style{}",
            NEXT_STEPS_STYLE_SEG0, NEXT_STEPS_STYLE_SEG1, NEXT_STEPS_STYLE_SEG2
        )
    );
}

#[test]
fn rewriter_prompt_varies_with_the_length_choice() {
    for (length, guidance) in [
        (RewriteLength::Concise, LENGTH_CONCISE),
        (RewriteLength::Short, LENGTH_SHORT),
        (RewriteLength::Medium, LENGTH_MEDIUM),
        (RewriteLength::Long, LENGTH_LONG),
    ] {
        assert_eq!(
            rewriter_prompt_template("noir", "keep it dark", length),
            format!(
                "{}noir{}keep it dark{}{}{}",
                REWRITER_SEG0, REWRITER_SEG1, REWRITER_SEG2, guidance, REWRITER_SEG3
            )
        );
    }
}

#[test]
fn rewriter_prompt_defaults_empty_instructions() {
    assert_eq!(
        rewriter_prompt_template("noir", "", RewriteLength::Short),
        format!(
            "{}noir{}None provided.{}{}{}",
            REWRITER_SEG0, REWRITER_SEG1, REWRITER_SEG2, LENGTH_SHORT, REWRITER_SEG3
        )
    );
}

#[test]
fn codex_prompt_substitutes_both_placeholders() {
    let built = build_prompt("September 30, 2025", "VDM Physics Checklist");
    assert_eq!(
        built,
        CODEX_PROMPT
            .replace("{todays_date}", "September 30, 2025")
            .replace("{checklist_name}", "VDM Physics Checklist")
    );
    assert!(built.starts_with("Today's date is September 30, 2025:"));
    assert!(built.contains("update the VDM Physics Checklist"));
    assert!(!built.contains("{todays_date}"));
    assert!(!built.contains("{checklist_name}"));
}

#[test]
fn citation_instruction_asks_for_a_references_section() {
    assert!(CITATION_INSTRUCTION.contains("\"References\" section"));
    assert!(CITATION_INSTRUCTION.contains("Do not invent citations."));
}

#[test]
fn agent_designer_single_agent_prompt_is_assembled_exactly() {
    let settings = AgentDesignerSettings {
        system_type: String::from("singleAgent"),
        goal: String::from("answer support tickets"),
        trigger: String::from("webhook"),
        provider: String::from("acme"),
        capabilities: AgentCapabilities {
            web_search: true,
            email_access: false,
            file_io: true,
            code_execution: false,
        },
    };
    let pipeline = format!(
        "{}answer support tickets{}",
        PIPELINE_SINGLE_SEG0, PIPELINE_SINGLE_SEG1
    );
    let expected = format!(
        "{}{}{}{}{}{}{}answer support tickets{}singleAgent{}acme{}webhook{}",
        FRAME_SEG0,
        PERSONA_SINGLE,
        FRAME_SEG1,
        PRINCIPLES_SINGLE,
        FRAME_SEG2,
        pipeline,
        FRAME_SEG3,
        FRAME_SEG4,
        FRAME_SEG5,
        FRAME_SEG6,
        FRAME_SEG7
    );
    assert_eq!(agent_designer_prompt_template(&settings), expected);
}

#[test]
fn agent_designer_multi_agent_prompt_renders_capability_flags() {
    let settings = AgentDesignerSettings {
        system_type: String::from("multiAgent"),
        goal: String::from("triage bug reports"),
        trigger: String::from("schedule"),
        provider: String::from("acme"),
        capabilities: AgentCapabilities {
            web_search: true,
            email_access: false,
            file_io: false,
            code_execution: true,
        },
    };
    let pipeline = format!(
        "{}triage bug reports{}true{}false{}false{}true{}",
        PIPELINE_MULTI_SEG0,
        PIPELINE_MULTI_SEG1,
        PIPELINE_MULTI_SEG2,
        PIPELINE_MULTI_SEG3,
        PIPELINE_MULTI_SEG4,
        PIPELINE_MULTI_SEG5
    );
    let expected = format!(
        "{}{}{}{}{}{}{}triage bug reports{}multiAgent{}acme{}schedule{}",
        FRAME_SEG0,
        PERSONA_MULTI,
        FRAME_SEG1,
        PRINCIPLES_MULTI,
        FRAME_SEG2,
        pipeline,
        FRAME_SEG3,
        FRAME_SEG4,
        FRAME_SEG5,
        FRAME_SEG6,
        FRAME_SEG7
    );
    assert_eq!(agent_designer_prompt_template(&settings), expected);
}
