//! Map/reduce prompt templates for each summary output format, and the
//! selector that picks a template by declared format.

pub mod dialog_condensation;
pub mod metrics_dashboard;
pub mod pitch_generator;
pub mod process_flow;
pub mod risk_register;
pub mod session_finder;
pub mod swot_analysis;

use vstd::prelude::*;
use crate::summary_prompts::dialog_condensation::{
    chunk_summary_prompt_dialog_condensation, reduce_summaries_prompt_dialog_condensation,
    DIALOG_CHUNK_AFTER, DIALOG_CHUNK_BEFORE, DIALOG_REDUCE_AFTER, DIALOG_REDUCE_BEFORE,
};
use crate::summary_prompts::metrics_dashboard::{
    chunk_summary_prompt_metrics_dashboard, reduce_summaries_prompt_metrics_dashboard,
    METRICS_CHUNK_AFTER, METRICS_CHUNK_BEFORE, METRICS_REDUCE_AFTER, METRICS_REDUCE_BEFORE,
};
use crate::summary_prompts::pitch_generator::{
    chunk_summary_prompt_pitch_generator, reduce_summaries_prompt_pitch_generator,
    PITCH_CHUNK_AFTER, PITCH_CHUNK_BEFORE, PITCH_REDUCE_AFTER, PITCH_REDUCE_BEFORE,
};
use crate::summary_prompts::process_flow::{
    chunk_summary_prompt_process_flow, reduce_summaries_prompt_process_flow, PROCESS_CHUNK_AFTER,
    PROCESS_CHUNK_BEFORE, PROCESS_REDUCE_AFTER, PROCESS_REDUCE_BEFORE,
};
use crate::summary_prompts::risk_register::{
    chunk_summary_prompt_risk_register, reduce_summaries_prompt_risk_register, RISK_CHUNK_AFTER,
    RISK_CHUNK_BEFORE, RISK_REDUCE_AFTER, RISK_REDUCE_BEFORE,
};
use crate::summary_prompts::session_finder::{
    chunk_summary_prompt_solution_finder, reduce_summaries_prompt_solution_finder,
    SOLUTION_CHUNK_AFTER, SOLUTION_CHUNK_BEFORE, SOLUTION_REDUCE_AFTER, SOLUTION_REDUCE_BEFORE,
};
use crate::summary_prompts::swot_analysis::{
    chunk_summary_prompt_swot_analysis, reduce_summaries_prompt_swot_analysis, SWOT_CHUNK_AFTER,
    SWOT_CHUNK_BEFORE, SWOT_REDUCE_AFTER, SWOT_REDUCE_BEFORE,
};

verus! {

/// The declared output format of a summary request, keying the prompt
/// selector.
#[derive(Clone, Copy, PartialEq, Eq, Structural, Debug)]
pub enum SummaryFormat {
    DialogCondensation,
    MetricsDashboard,
    PitchGenerator,
    ProcessFlow,
    RiskRegister,
    SolutionFinder,
    SwotAnalysis,
}

impl Default for SummaryFormat {
    /// The format used when a request declares none.
    fn default() -> (r: SummaryFormat)
        ensures
            r == SummaryFormat::DialogCondensation,
    {
        SummaryFormat::DialogCondensation
    }
}

/// The map-stage prompt for one input segment under one format.
pub open spec fn chunk_prompt_view(format: SummaryFormat, text: Seq<char>) -> Seq<char> {
    match format {
        SummaryFormat::DialogCondensation => DIALOG_CHUNK_BEFORE@ + text + DIALOG_CHUNK_AFTER@,
        SummaryFormat::MetricsDashboard => METRICS_CHUNK_BEFORE@ + text + METRICS_CHUNK_AFTER@,
        SummaryFormat::PitchGenerator => PITCH_CHUNK_BEFORE@ + text + PITCH_CHUNK_AFTER@,
        SummaryFormat::ProcessFlow => PROCESS_CHUNK_BEFORE@ + text + PROCESS_CHUNK_AFTER@,
        SummaryFormat::RiskRegister => RISK_CHUNK_BEFORE@ + text + RISK_CHUNK_AFTER@,
        SummaryFormat::SolutionFinder => SOLUTION_CHUNK_BEFORE@ + text + SOLUTION_CHUNK_AFTER@,
        SummaryFormat::SwotAnalysis => SWOT_CHUNK_BEFORE@ + text + SWOT_CHUNK_AFTER@,
    }
}

/// The reduce-stage prompt for collected segment results under one format.
pub open spec fn reduce_prompt_view(format: SummaryFormat, text: Seq<char>) -> Seq<char> {
    match format {
        SummaryFormat::DialogCondensation => DIALOG_REDUCE_BEFORE@ + text + DIALOG_REDUCE_AFTER@,
        SummaryFormat::MetricsDashboard => METRICS_REDUCE_BEFORE@ + text + METRICS_REDUCE_AFTER@,
        SummaryFormat::PitchGenerator => PITCH_REDUCE_BEFORE@ + text + PITCH_REDUCE_AFTER@,
        SummaryFormat::ProcessFlow => PROCESS_REDUCE_BEFORE@ + text + PROCESS_REDUCE_AFTER@,
        SummaryFormat::RiskRegister => RISK_REDUCE_BEFORE@ + text + RISK_REDUCE_AFTER@,
        SummaryFormat::SolutionFinder => SOLUTION_REDUCE_BEFORE@ + text + SOLUTION_REDUCE_AFTER@,
        SummaryFormat::SwotAnalysis => SWOT_REDUCE_BEFORE@ + text + SWOT_REDUCE_AFTER@,
    }
}

/// Select and build the map-stage prompt for one segment.
pub fn chunk_summary_prompt_for(format: &SummaryFormat, text: &str) -> (r: String)
    ensures
        r@ == chunk_prompt_view(*format, text@),
{
    match format {
        SummaryFormat::DialogCondensation => chunk_summary_prompt_dialog_condensation(text),
        SummaryFormat::MetricsDashboard => chunk_summary_prompt_metrics_dashboard(text),
        SummaryFormat::PitchGenerator => chunk_summary_prompt_pitch_generator(text),
        SummaryFormat::ProcessFlow => chunk_summary_prompt_process_flow(text),
        SummaryFormat::RiskRegister => chunk_summary_prompt_risk_register(text),
        SummaryFormat::SolutionFinder => chunk_summary_prompt_solution_finder(text),
        SummaryFormat::SwotAnalysis => chunk_summary_prompt_swot_analysis(text),
    }
}

/// Select and build the reduce-stage prompt for collected results.
pub fn reduce_summaries_prompt_for(format: &SummaryFormat, text: &str) -> (r: String)
    ensures
        r@ == reduce_prompt_view(*format, text@),
{
    match format {
        SummaryFormat::DialogCondensation => reduce_summaries_prompt_dialog_condensation(text),
        SummaryFormat::MetricsDashboard => reduce_summaries_prompt_metrics_dashboard(text),
        SummaryFormat::PitchGenerator => reduce_summaries_prompt_pitch_generator(text),
        SummaryFormat::ProcessFlow => reduce_summaries_prompt_process_flow(text),
        SummaryFormat::RiskRegister => reduce_summaries_prompt_risk_register(text),
        SummaryFormat::SolutionFinder => reduce_summaries_prompt_solution_finder(text),
        SummaryFormat::SwotAnalysis => reduce_summaries_prompt_swot_analysis(text),
    }
}

} // verus!
