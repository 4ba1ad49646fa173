//! Decoding batch work items into handler-specific prompts.
//!
//! A batch item declares a type from a fixed enumerated set and carries an
//! opaque payload of key/value fields.  [`work_prompt`] selects the handler
//! for the declared type, decodes the payload into the shape that handler
//! requires, and builds the handler's prompt; a payload that does not match
//! the required shape yields a decode error without any backend call.
//! [`work_prompt_view`] states the outcome, success and failure alike, for
//! every input.

use vstd::prelude::*;
use vstd::string::StringExecFns;
use crate::agent_prompts::agent_designer::{
    agent_designer_prompt_template, agent_designer_prompt_text, AgentCapabilities,
    AgentDesignerSettings,
};
use crate::agent_prompts::codex::{build_prompt, CODEX_PROMPT};
use crate::agent_prompts::highlight_extraction::{
    highlight_extraction_prompt, HIGHLIGHT_AFTER, HIGHLIGHT_BEFORE,
};
use crate::agent_prompts::mermaid_designer::{
    correct_mermaid_syntax_prompt, generate_mermaid_from_digest_prompt,
    generate_reverse_engineering_mermaid_prompt, generate_simplified_mermaid_prompt,
    MERMAID_CORRECT_SEG0, MERMAID_CORRECT_SEG1, MERMAID_CORRECT_SEG2, MERMAID_CORRECT_SEG3,
    MERMAID_FULL_AFTER, MERMAID_FULL_BEFORE, MERMAID_REVERSE_AFTER, MERMAID_REVERSE_BEFORE,
    MERMAID_SIMPLE_AFTER, MERMAID_SIMPLE_BEFORE,
};
use crate::agent_prompts::next_steps::{
    next_steps_style_model_prompt_template, next_steps_technical_summary_prompt_template,
    NEXT_STEPS_STYLE_SEG0, NEXT_STEPS_STYLE_SEG1, NEXT_STEPS_STYLE_SEG2,
    NEXT_STEPS_TECHNICAL_AFTER, NEXT_STEPS_TECHNICAL_BEFORE,
};
use crate::agent_prompts::rewriter::{
    length_instruction_view, rewriter_prompt_template, RewriteLength, REWRITER_SEG0,
    REWRITER_SEG1, REWRITER_SEG2, REWRITER_SEG3,
};
use crate::text::replace_all_view;

verus! {

/// One key/value field of a batch item's payload.
pub struct PayloadField {
    pub key: String,
    pub value: String,
}

/// One independent unit of work submitted alongside others: a
/// caller-supplied id (not guaranteed unique), a declared type, and the
/// type-specific payload.
pub struct BatchItem {
    pub id: String,
    pub item_type: String,
    pub payload: Vec<PayloadField>,
}

/// The value of the first payload field carrying `key`.
pub open spec fn lookup_view(payload: Seq<PayloadField>, key: Seq<char>) -> Option<Seq<char>>
    decreases payload.len(),
{
    if payload.len() == 0 {
        None
    } else if payload[0].key@ == key {
        Some(payload[0].value@)
    } else {
        lookup_view(payload.drop_first(), key)
    }
}

/// Find the first payload field carrying `key`.
pub fn lookup_field(payload: &Vec<PayloadField>, key: &String) -> (r: Option<String>)
    ensures
        (match r {
            Some(v) => lookup_view(payload@, key@) == Some(v@),
            None => lookup_view(payload@, key@) is None,
        }),
{
    let mut i: usize = 0;
    proof {
        assert(payload@.skip(0) =~= payload@);
    }
    while i < payload.len()
        invariant
            i <= payload@.len(),
            lookup_view(payload@.skip(i as int), key@) == lookup_view(payload@, key@),
        decreases payload@.len() - i,
    {
        proof {
            assert(payload@.skip(i as int).drop_first() =~= payload@.skip(i as int + 1));
        }
        if payload[i].key == *key {
            return Some(payload[i].value.clone());
        }
        i = i + 1;
    }
    proof {
        assert(payload@.skip(payload@.len() as int) =~= Seq::<PayloadField>::empty());
    }
    None
}

/// Error text for a payload type outside the fixed enumerated set.
pub const UNKNOWN_WORK_TYPE_ERROR: &'static str = "unknown work item type";

/// Error text for a rewrite length outside the accepted values.
pub const INVALID_LENGTH_ERROR: &'static str = "invalid length value";

/// Error text for a capability flag that is neither `true` nor `false`.
pub const INVALID_FLAG_ERROR: &'static str = "invalid capability flag";

/// Prefix of the error text for a payload missing a required field.
pub const MISSING_FIELD_PREFIX: &'static str = "missing required field: ";

/// The decode error reported when `key` is required but absent.
pub open spec fn missing_field_text(key: Seq<char>) -> Seq<char> {
    MISSING_FIELD_PREFIX@ + key
}

/// Build the decode error for a missing required field.
fn missing_field_error(key: &str) -> (r: String)
    ensures
        r@ == missing_field_text(key@),
{
    let mut r = String::new();
    r.append(MISSING_FIELD_PREFIX);
    r.append(key);
    proof {
        assert(r@ =~= missing_field_text(key@));
    }
    r
}

/// The prompt of a handler inserting one required field between fixed
/// template text, or the decode error for that field.
pub open spec fn single_field_prompt(
    payload: Seq<PayloadField>,
    key: Seq<char>,
    before: Seq<char>,
    after: Seq<char>,
) -> Result<Seq<char>, Seq<char>> {
    match lookup_view(payload, key) {
        Some(v) => Ok(before + v + after),
        None => Err(missing_field_text(key)),
    }
}

/// The rewrite length declared by a payload value.
pub open spec fn parse_length_view(v: Seq<char>) -> Option<RewriteLength> {
    if v == "concise"@ {
        Some(RewriteLength::Concise)
    } else if v == "short"@ {
        Some(RewriteLength::Short)
    } else if v == "medium"@ {
        Some(RewriteLength::Medium)
    } else if v == "long"@ {
        Some(RewriteLength::Long)
    } else {
        None
    }
}

/// A capability flag read from the payload: absent means `false`, and any
/// value other than `true` or `false` is a decode fault.
pub open spec fn flag_view(payload: Seq<PayloadField>, key: Seq<char>) -> Option<bool> {
    match lookup_view(payload, key) {
        None => Some(false),
        Some(v) => if v == "true"@ {
            Some(true)
        } else if v == "false"@ {
            Some(false)
        } else {
            None
        },
    }
}

/// The outcome of decoding one work item and building its handler's
/// prompt: the prompt text, or the decode error.
pub open spec fn work_prompt_view(item_type: Seq<char>, payload: Seq<PayloadField>) -> Result<
    Seq<char>,
    Seq<char>,
> {
    if item_type == "highlight_extraction"@ {
        single_field_prompt(payload, "text"@, HIGHLIGHT_BEFORE@, HIGHLIGHT_AFTER@)
    } else if item_type == "next_steps_technical"@ {
        single_field_prompt(
            payload,
            "summary"@,
            NEXT_STEPS_TECHNICAL_BEFORE@,
            NEXT_STEPS_TECHNICAL_AFTER@,
        )
    } else if item_type == "next_steps_style"@ {
        match lookup_view(payload, "style_description"@) {
            None => Err(missing_field_text("style_description"@)),
            Some(style_description) => Ok(
                NEXT_STEPS_STYLE_SEG0@ + (match lookup_view(payload, "style_target"@) {
                    Some(t) => t,
                    None => "not specified"@,
                }) + NEXT_STEPS_STYLE_SEG1@ + style_description + NEXT_STEPS_STYLE_SEG2@,
            ),
        }
    } else if item_type == "rewrite"@ {
        match lookup_view(payload, "style"@) {
            None => Err(missing_field_text("style"@)),
            Some(style) => match lookup_view(payload, "length"@) {
                None => Err(missing_field_text("length"@)),
                Some(len) => match parse_length_view(len) {
                    None => Err(INVALID_LENGTH_ERROR@),
                    Some(length) => {
                        let instructions = match lookup_view(payload, "instructions"@) {
                            Some(v) => v,
                            None => Seq::<char>::empty(),
                        };
                        Ok(
                            REWRITER_SEG0@ + style + REWRITER_SEG1@ + (if instructions.len()
                                == 0 {
                                "None provided."@
                            } else {
                                instructions
                            }) + REWRITER_SEG2@ + length_instruction_view(length)
                                + REWRITER_SEG3@,
                        )
                    },
                },
            },
        }
    } else if item_type == "mermaid_from_digest"@ {
        single_field_prompt(payload, "digest"@, MERMAID_FULL_BEFORE@, MERMAID_FULL_AFTER@)
    } else if item_type == "mermaid_simplified"@ {
        single_field_prompt(payload, "digest"@, MERMAID_SIMPLE_BEFORE@, MERMAID_SIMPLE_AFTER@)
    } else if item_type == "mermaid_correction"@ {
        match lookup_view(payload, "invalid_code"@) {
            None => Err(missing_field_text("invalid_code"@)),
            Some(invalid_code) => match lookup_view(payload, "error_message"@) {
                None => Err(missing_field_text("error_message"@)),
                Some(error_message) => match lookup_view(payload, "relevant_docs"@) {
                    None => Err(missing_field_text("relevant_docs"@)),
                    Some(relevant_docs) => Ok(
                        MERMAID_CORRECT_SEG0@ + invalid_code + MERMAID_CORRECT_SEG1@
                            + error_message + MERMAID_CORRECT_SEG2@ + relevant_docs
                            + MERMAID_CORRECT_SEG3@,
                    ),
                },
            },
        }
    } else if item_type == "mermaid_reverse_engineering"@ {
        single_field_prompt(payload, "report"@, MERMAID_REVERSE_BEFORE@, MERMAID_REVERSE_AFTER@)
    } else if item_type == "agent_design"@ {
        match lookup_view(payload, "system_type"@) {
            None => Err(missing_field_text("system_type"@)),
            Some(system_type) => match lookup_view(payload, "goal"@) {
                None => Err(missing_field_text("goal"@)),
                Some(goal) => match lookup_view(payload, "trigger"@) {
                    None => Err(missing_field_text("trigger"@)),
                    Some(trigger) => match lookup_view(payload, "provider"@) {
                        None => Err(missing_field_text("provider"@)),
                        Some(provider) => match flag_view(payload, "web_search"@) {
                            None => Err(INVALID_FLAG_ERROR@),
                            Some(web_search) => match flag_view(payload, "email_access"@) {
                                None => Err(INVALID_FLAG_ERROR@),
                                Some(email_access) => match flag_view(payload, "file_io"@) {
                                    None => Err(INVALID_FLAG_ERROR@),
                                    Some(file_io) => match flag_view(
                                        payload,
                                        "code_execution"@,
                                    ) {
                                        None => Err(INVALID_FLAG_ERROR@),
                                        Some(code_execution) => Ok(
                                            agent_designer_prompt_text(
                                                system_type,
                                                goal,
                                                trigger,
                                                provider,
                                                web_search,
                                                email_access,
                                                file_io,
                                                code_execution,
                                            ),
                                        ),
                                    },
                                },
                            },
                        },
                    },
                },
            },
        }
    } else if item_type == "codex_checklist"@ {
        match lookup_view(payload, "todays_date"@) {
            None => Err(missing_field_text("todays_date"@)),
            Some(todays_date) => match lookup_view(payload, "checklist_name"@) {
                None => Err(missing_field_text("checklist_name"@)),
                Some(checklist_name) => Ok(
                    replace_all_view(
                        replace_all_view(CODEX_PROMPT@, "{todays_date}"@, todays_date),
                        "{checklist_name}"@,
                        checklist_name,
                    ),
                ),
            },
        }
    } else {
        Err(UNKNOWN_WORK_TYPE_ERROR@)
    }
}

/// Read one capability flag from the payload.
fn read_flag(payload: &Vec<PayloadField>, key: &String) -> (r: Option<bool>)
    ensures
        r == flag_view(payload@, key@),
{
    match lookup_field(payload, key) {
        None => Some(false),
        Some(v) => {
            if v == String::from_str("true") {
                Some(true)
            } else if v == String::from_str("false") {
                Some(false)
            } else {
                None
            }
        },
    }
}

/// Select the handler for the declared type, decode the payload, and build
/// the handler-specific prompt; exactly [`work_prompt_view`] describes the
/// outcome, error cases included.
pub fn work_prompt(item_type: &String, payload: &Vec<PayloadField>) -> (r: Result<String, String>)
    ensures
        (match r {
            Ok(p) => work_prompt_view(item_type@, payload@) == Ok::<Seq<char>, Seq<char>>(p@),
            Err(e) => work_prompt_view(item_type@, payload@) == Err::<Seq<char>, Seq<char>>(e@),
        }),
{
    if *item_type == String::from_str("highlight_extraction") {
        match lookup_field(payload, &String::from_str("text")) {
            Some(text) => Ok(highlight_extraction_prompt(text.as_str())),
            None => Err(missing_field_error("text")),
        }
    } else if *item_type == String::from_str("next_steps_technical") {
        match lookup_field(payload, &String::from_str("summary")) {
            Some(summary) => Ok(next_steps_technical_summary_prompt_template(summary.as_str())),
            None => Err(missing_field_error("summary")),
        }
    } else if *item_type == String::from_str("next_steps_style") {
        match lookup_field(payload, &String::from_str("style_description")) {
            None => Err(missing_field_error("style_description")),
            Some(style_description) => {
                let target = lookup_field(payload, &String::from_str("style_target"));
                let target_ref: Option<&str> = match &target {
                    Some(t) => Some(t.as_str()),
                    None => None,
                };
                Ok(next_steps_style_model_prompt_template(style_description.as_str(), target_ref))
            },
        }
    } else if *item_type == String::from_str("rewrite") {
        match lookup_field(payload, &String::from_str("style")) {
            None => Err(missing_field_error("style")),
            Some(style) => match lookup_field(payload, &String::from_str("length")) {
                None => Err(missing_field_error("length")),
                Some(len) => {
                    let length: Option<RewriteLength> = if len == String::from_str("concise") {
                        Some(RewriteLength::Concise)
                    } else if len == String::from_str("short") {
                        Some(RewriteLength::Short)
                    } else if len == String::from_str("medium") {
                        Some(RewriteLength::Medium)
                    } else if len == String::from_str("long") {
                        Some(RewriteLength::Long)
                    } else {
                        None
                    };
                    match length {
                        None => {
                            let mut e = String::new();
                            e.append(INVALID_LENGTH_ERROR);
                            proof {
                                assert(e@ =~= INVALID_LENGTH_ERROR@);
                            }
                            Err(e)
                        },
                        Some(length) => {
                            let instructions = match lookup_field(
                                payload,
                                &String::from_str("instructions"),
                            ) {
                                Some(v) => v,
                                None => String::new(),
                            };
                            Ok(
                                rewriter_prompt_template(
                                    style.as_str(),
                                    instructions.as_str(),
                                    length,
                                ),
                            )
                        },
                    }
                },
            },
        }
    } else if *item_type == String::from_str("mermaid_from_digest") {
        match lookup_field(payload, &String::from_str("digest")) {
            Some(digest) => Ok(generate_mermaid_from_digest_prompt(digest.as_str())),
            None => Err(missing_field_error("digest")),
        }
    } else if *item_type == String::from_str("mermaid_simplified") {
        match lookup_field(payload, &String::from_str("digest")) {
            Some(digest) => Ok(generate_simplified_mermaid_prompt(digest.as_str())),
            None => Err(missing_field_error("digest")),
        }
    } else if *item_type == String::from_str("mermaid_correction") {
        match lookup_field(payload, &String::from_str("invalid_code")) {
            None => Err(missing_field_error("invalid_code")),
            Some(invalid_code) => match lookup_field(payload, &String::from_str("error_message")) {
                None => Err(missing_field_error("error_message")),
                Some(error_message) => match lookup_field(
                    payload,
                    &String::from_str("relevant_docs"),
                ) {
                    None => Err(missing_field_error("relevant_docs")),
                    Some(relevant_docs) => Ok(
                        correct_mermaid_syntax_prompt(
                            invalid_code.as_str(),
                            error_message.as_str(),
                            relevant_docs.as_str(),
                        ),
                    ),
                },
            },
        }
    } else if *item_type == String::from_str("mermaid_reverse_engineering") {
        match lookup_field(payload, &String::from_str("report")) {
            Some(report) => Ok(generate_reverse_engineering_mermaid_prompt(report.as_str())),
            None => Err(missing_field_error("report")),
        }
    } else if *item_type == String::from_str("agent_design") {
        match lookup_field(payload, &String::from_str("system_type")) {
            None => Err(missing_field_error("system_type")),
            Some(system_type) => match lookup_field(payload, &String::from_str("goal")) {
                None => Err(missing_field_error("goal")),
                Some(goal) => match lookup_field(payload, &String::from_str("trigger")) {
                    None => Err(missing_field_error("trigger")),
                    Some(trigger) => match lookup_field(payload, &String::from_str("provider")) {
                        None => Err(missing_field_error("provider")),
                        Some(provider) => {
                            let web_search = read_flag(payload, &String::from_str("web_search"));
                            let email_access = read_flag(
                                payload,
                                &String::from_str("email_access"),
                            );
                            let file_io = read_flag(payload, &String::from_str("file_io"));
                            let code_execution = read_flag(
                                payload,
                                &String::from_str("code_execution"),
                            );
                            match (web_search, email_access, file_io, code_execution) {
                                (
                                    Some(web_search),
                                    Some(email_access),
                                    Some(file_io),
                                    Some(code_execution),
                                ) => {
                                    let settings = AgentDesignerSettings {
                                        system_type,
                                        goal,
                                        trigger,
                                        provider,
                                        capabilities: AgentCapabilities {
                                            web_search,
                                            email_access,
                                            file_io,
                                            code_execution,
                                        },
                                    };
                                    Ok(agent_designer_prompt_template(&settings))
                                },
                                _ => {
                                    let mut e = String::new();
                                    e.append(INVALID_FLAG_ERROR);
                                    proof {
                                        assert(e@ =~= INVALID_FLAG_ERROR@);
                                    }
                                    Err(e)
                                },
                            }
                        },
                    },
                },
            },
        }
    } else if *item_type == String::from_str("codex_checklist") {
        match lookup_field(payload, &String::from_str("todays_date")) {
            None => Err(missing_field_error("todays_date")),
            Some(todays_date) => match lookup_field(
                payload,
                &String::from_str("checklist_name"),
            ) {
                None => Err(missing_field_error("checklist_name")),
                Some(checklist_name) => Ok(
                    build_prompt(todays_date.as_str(), checklist_name.as_str()),
                ),
            },
        }
    } else {
        let mut e = String::new();
        e.append(UNKNOWN_WORK_TYPE_ERROR);
        proof {
            assert(e@ =~= UNKNOWN_WORK_TYPE_ERROR@);
        }
        Err(e)
    }
}

} // verus!
