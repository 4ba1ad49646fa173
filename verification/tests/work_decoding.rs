use prompt_pipeline::agent_prompts::agent_designer::{
    agent_designer_prompt_template, AgentCapabilities, AgentDesignerSettings,
};
use prompt_pipeline::agent_prompts::codex::build_prompt;
use prompt_pipeline::agent_prompts::highlight_extraction::highlight_extraction_prompt;
use prompt_pipeline::agent_prompts::next_steps::next_steps_style_model_prompt_template;
use prompt_pipeline::agent_prompts::rewriter::{rewriter_prompt_template, RewriteLength};
use prompt_pipeline::work_items::{work_prompt, PayloadField};

fn field(key: &str, value: &str) -> PayloadField {
    PayloadField { key: String::from(key), value: String::from(value) }
}

#[test]
fn highlight_item_builds_the_highlight_prompt() {
    let payload = vec![field("text", "the facts")];
    let built = work_prompt(&String::from("highlight_extraction"), &payload).unwrap();
    assert_eq!(built, highlight_extraction_prompt("the facts"));
}

#[test]
fn missing_required_field_names_the_field() {
    let payload = vec![field("body", "oops")];
    let err = work_prompt(&String::from("highlight_extraction"), &payload).unwrap_err();
    assert_eq!(err, "missing required field: text");
}

#[test]
fn lookup_takes_the_first_matching_field() {
    let payload = vec![field("text", "first"), field("text", "second")];
    let built = work_prompt(&String::from("highlight_extraction"), &payload).unwrap();
    assert_eq!(built, highlight_extraction_prompt("first"));
}

#[test]
fn rewrite_item_builds_the_rewriter_prompt() {
    let payload = vec![
        field("style", "noir"),
        field("instructions", "keep it dark"),
        field("length", "medium"),
    ];
    let built = work_prompt(&String::from("rewrite"), &payload).unwrap();
    assert_eq!(
        built,
        rewriter_prompt_template("noir", "keep it dark", RewriteLength::Medium)
    );
}

#[test]
fn rewrite_item_without_instructions_uses_the_default() {
    let payload = vec![field("style", "noir"), field("length", "concise")];
    let built = work_prompt(&String::from("rewrite"), &payload).unwrap();
    assert_eq!(
        built,
        rewriter_prompt_template("noir", "", RewriteLength::Concise)
    );
}

#[test]
fn rewrite_item_with_unknown_length_is_a_decode_error() {
    let payload = vec![field("style", "noir"), field("length", "epic")];
    let err = work_prompt(&String::from("rewrite"), &payload).unwrap_err();
    assert_eq!(err, "invalid length value");
}

#[test]
fn rewrite_item_without_style_reports_that_field_first() {
    let payload = vec![field("length", "short")];
    let err = work_prompt(&String::from("rewrite"), &payload).unwrap_err();
    assert_eq!(err, "missing required field: style");
}

#[test]
fn style_item_with_and_without_target() {
    let with_target = vec![
        field("style_description", "wry"),
        field("style_target", "the narrator"),
    ];
    let built = work_prompt(&String::from("next_steps_style"), &with_target).unwrap();
    assert_eq!(
        built,
        next_steps_style_model_prompt_template("wry", Some("the narrator"))
    );
    let without_target = vec![field("style_description", "wry")];
    let built = work_prompt(&String::from("next_steps_style"), &without_target).unwrap();
    assert_eq!(built, next_steps_style_model_prompt_template("wry", None));
}

#[test]
fn agent_design_item_builds_the_designer_prompt() {
    let payload = vec![
        field("system_type", "multiAgent"),
        field("goal", "sort mail"),
        field("trigger", "cron"),
        field("provider", "acme"),
        field("web_search", "true"),
        field("code_execution", "false"),
    ];
    let built = work_prompt(&String::from("agent_design"), &payload).unwrap();
    let settings = AgentDesignerSettings {
        system_type: String::from("multiAgent"),
        goal: String::from("sort mail"),
        trigger: String::from("cron"),
        provider: String::from("acme"),
        capabilities: AgentCapabilities {
            web_search: true,
            // Absent flags default to false.
            email_access: false,
            file_io: false,
            code_execution: false,
        },
    };
    assert_eq!(built, agent_designer_prompt_template(&settings));
}

#[test]
fn agent_design_flag_must_be_true_or_false() {
    let payload = vec![
        field("system_type", "multiAgent"),
        field("goal", "sort mail"),
        field("trigger", "cron"),
        field("provider", "acme"),
        field("web_search", "yes"),
    ];
    let err = work_prompt(&String::from("agent_design"), &payload).unwrap_err();
    assert_eq!(err, "invalid capability flag");
}

#[test]
fn codex_item_builds_the_checklist_prompt() {
    let payload = vec![
        field("todays_date", "March 3, 2026"),
        field("checklist_name", "Release Checklist"),
    ];
    let built = work_prompt(&String::from("codex_checklist"), &payload).unwrap();
    assert_eq!(built, build_prompt("March 3, 2026", "Release Checklist"));
}

#[test]
fn mermaid_correction_needs_all_three_fields() {
    let payload = vec![field("invalid_code", "x"), field("error_message", "y")];
    let err = work_prompt(&String::from("mermaid_correction"), &payload).unwrap_err();
    assert_eq!(err, "missing required field: relevant_docs");
}

#[test]
fn unknown_type_is_rejected_without_decoding() {
    let payload = vec![field("text", "anything")];
    let err = work_prompt(&String::from("mind_reading"), &payload).unwrap_err();
    assert_eq!(err, "unknown work item type");
}
