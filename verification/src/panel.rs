//! The Agent Context panel status: how it follows each run of the
//! `agent-context` tool.

use vstd::prelude::*;
use crate::config::AgentContextPanelConfig;
use crate::preflight::AgentContextTaskPreflight;
use crate::status::AgentContextPanelStatus;
use crate::text::{is_blank_spec, trim, trim_str};

verus! {

/// A new status keeps the reports, files and session of `previous`.
pub open spec fn keeps_files(previous: AgentContextPanelStatus, r: AgentContextPanelStatus) -> bool {
    &&& r.last_session_id == previous.last_session_id
    &&& r.last_generated_pack == previous.last_generated_pack
    &&& r.last_sources_jsonl == previous.last_sources_jsonl
    &&& r.last_manifest_json == previous.last_manifest_json
    &&& r.last_resolution_plan_json == previous.last_resolution_plan_json
    &&& r.last_codex_preflight_md == previous.last_codex_preflight_md
    &&& r.last_model_input_md == previous.last_model_input_md
    &&& r.last_runtime_task_md == previous.last_runtime_task_md
    &&& r.last_review_file == previous.last_review_file
    &&& r.last_review_client_html == previous.last_review_client_html
    &&& r.last_review_launch_md == previous.last_review_launch_md
    &&& keeps_reports(previous, r)
}

/// A new status keeps the reports of `previous`.
pub open spec fn keeps_reports(previous: AgentContextPanelStatus, r: AgentContextPanelStatus) -> bool {
    &&& r.access_audit == previous.access_audit
    &&& r.semantic_launchd == previous.semantic_launchd
    &&& r.semantic_readiness == previous.semantic_readiness
    &&& r.v1_acceptance == previous.v1_acceptance
    &&& r.v1_stage_status == previous.v1_stage_status
    &&& r.feedback_replay_trend == previous.feedback_replay_trend
}

/// The status after a run that ended in `last_status` with `last_message`:
/// the goal when one is given (else the previous one), the configuration's
/// scope and mode, the time `now`, and everything else as before.
pub open spec fn status_after(
    previous: AgentContextPanelStatus,
    last_status: Seq<char>,
    last_message: Seq<char>,
    last_goal: Option<Seq<char>>,
    c: AgentContextPanelConfig,
    now: u128,
    r: AgentContextPanelStatus,
) -> bool {
    &&& r.last_status@ == last_status
    &&& r.last_message@ == last_message
    &&& r.last_goal@ == match last_goal {
        Some(g) => g,
        None => previous.last_goal@,
    }
    &&& r.last_scope@ == c.scope@
    &&& r.last_mode@ == c.mode@
    &&& r.last_generated_at_ms == now
    &&& keeps_files(previous, r)
}

/// The status after a run that ended in `last_status` with `last_message`.
pub fn status_with_outcome(
    previous: AgentContextPanelStatus,
    last_status: String,
    last_message: String,
    last_goal: Option<String>,
    config: &AgentContextPanelConfig,
    now: u128,
) -> (r: AgentContextPanelStatus)
    ensures
        status_after(
            previous,
            last_status@,
            last_message@,
            match last_goal {
                Some(g) => Some(g@),
                None => None,
            },
            *config,
            now,
            r,
        ),
{
    let last_goal = match last_goal {
        Some(g) => g,
        None => previous.last_goal,
    };
    AgentContextPanelStatus {
        last_status,
        last_message,
        last_goal,
        last_scope: config.scope.clone(),
        last_mode: config.mode.clone(),
        last_generated_at_ms: now,
        ..previous
    }
}

/// `a` when it is not empty, else `b`.
pub open spec fn newer(a: Seq<char>, b: Seq<char>) -> Seq<char> {
    if a.len() == 0 { b } else { a }
}

/// The status after a task preflight: its status, message, goal, scope and
/// mode; each file it names, keeping the previous one where it names none;
/// the previous reports; the time `now`.
pub open spec fn preflight_status_maps(
    p: AgentContextTaskPreflight,
    previous: AgentContextPanelStatus,
    now: u128,
    r: AgentContextPanelStatus,
) -> bool {
    &&& r.last_status == p.status
    &&& r.last_message == p.message
    &&& r.last_session_id@ == newer(p.session_id@, previous.last_session_id@)
    &&& r.last_goal == p.goal
    &&& r.last_scope == p.scope
    &&& r.last_mode == p.mode
    &&& r.last_generated_pack@ == newer(p.context_md@, previous.last_generated_pack@)
    &&& r.last_sources_jsonl@ == newer(p.sources_jsonl@, previous.last_sources_jsonl@)
    &&& r.last_manifest_json@ == newer(p.manifest_json@, previous.last_manifest_json@)
    &&& r.last_resolution_plan_json@ == newer(
        p.resolution_plan_json@,
        previous.last_resolution_plan_json@,
    )
    &&& r.last_codex_preflight_md@ == newer(
        p.codex_preflight_md@,
        newer(p.review_file@, newer(p.agent_preflight_md@, previous.last_codex_preflight_md@)),
    )
    &&& r.last_model_input_md@ == newer(p.model_input_md@, previous.last_model_input_md@)
    &&& r.last_runtime_task_md@ == newer(p.runtime_task_md@, previous.last_runtime_task_md@)
    &&& r.last_review_file@ == newer(p.review_file@, previous.last_review_file@)
    &&& r.last_review_client_html@ == newer(
        p.review_client_html@,
        previous.last_review_client_html@,
    )
    &&& r.last_review_launch_md@ == newer(p.review_launch_md@, previous.last_review_launch_md@)
    &&& r.last_generated_at_ms == now
    &&& keeps_reports(previous, r)
}

fn newer_of(a: &String, b: String) -> (r: String)
    ensures
        r@ == newer(a@, b@),
{
    if a.as_str().is_empty() {
        b
    } else {
        a.clone()
    }
}

/// The status after a task preflight.
pub fn task_preflight_status(
    preflight: &AgentContextTaskPreflight,
    previous: AgentContextPanelStatus,
    now: u128,
) -> (r: AgentContextPanelStatus)
    ensures
        preflight_status_maps(*preflight, previous, now, r),
{
    let codex_preflight_md = newer_of(
        &preflight.codex_preflight_md,
        newer_of(
            &preflight.review_file,
            newer_of(&preflight.agent_preflight_md, previous.last_codex_preflight_md),
        ),
    );
    AgentContextPanelStatus {
        last_status: preflight.status.clone(),
        last_message: preflight.message.clone(),
        last_session_id: newer_of(&preflight.session_id, previous.last_session_id),
        last_goal: preflight.goal.clone(),
        last_scope: preflight.scope.clone(),
        last_mode: preflight.mode.clone(),
        last_generated_pack: newer_of(&preflight.context_md, previous.last_generated_pack),
        last_sources_jsonl: newer_of(&preflight.sources_jsonl, previous.last_sources_jsonl),
        last_manifest_json: newer_of(&preflight.manifest_json, previous.last_manifest_json),
        last_resolution_plan_json: newer_of(
            &preflight.resolution_plan_json,
            previous.last_resolution_plan_json,
        ),
        last_codex_preflight_md: codex_preflight_md,
        last_model_input_md: newer_of(&preflight.model_input_md, previous.last_model_input_md),
        last_runtime_task_md: newer_of(&preflight.runtime_task_md, previous.last_runtime_task_md),
        last_review_file: newer_of(&preflight.review_file, previous.last_review_file),
        last_review_client_html: newer_of(
            &preflight.review_client_html,
            previous.last_review_client_html,
        ),
        last_review_launch_md: newer_of(&preflight.review_launch_md, previous.last_review_launch_md),
        last_generated_at_ms: now,
        access_audit: previous.access_audit,
        semantic_launchd: previous.semantic_launchd,
        semantic_readiness: previous.semantic_readiness,
        v1_acceptance: previous.v1_acceptance,
        v1_stage_status: previous.v1_stage_status,
        feedback_replay_trend: previous.feedback_replay_trend,
    }
}

/// The status after a launch prewarm ended in `status` with `message`: the
/// goal trimmed, or the previous goal when it is blank.
pub fn launch_prewarm_status(
    config: &AgentContextPanelConfig,
    goal: &str,
    status: &str,
    message: &str,
    previous: AgentContextPanelStatus,
    now: u128,
) -> (r: AgentContextPanelStatus)
    ensures
        status_after(
            previous,
            status@,
            message@,
            if is_blank_spec(goal@) {
                None
            } else {
                Some(trim(goal@))
            },
            *config,
            now,
            r,
        ),
{
    let g = trim_str(goal);
    let last_goal = if g.is_empty() {
        None
    } else {
        Some(g.to_owned())
    };
    status_with_outcome(previous, status.to_owned(), message.to_owned(), last_goal, config, now)
}

} // verus!
