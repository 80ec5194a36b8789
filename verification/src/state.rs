//! The state that the panel shows, and the operations that refresh it: the
//! panel refresh, the v1 follow-up check, the prewarm at launch and the
//! feedback log.

use vstd::prelude::*;
use crate::commands::{command_failure_message, failure_message, panel_args, panel_command_args, strings, CommandOutcome};
use crate::config::{default_bin_for, default_root_for, normalize_config, normalize_view, AgentContextPanelConfig};
use crate::error::AgentContextError;
use crate::flows::{is_message, RunResult};
use crate::json::{view_get, JsonValue};
use crate::panel::{launch_prewarm_status, status_after, status_with_outcome};
use crate::paths::{is_default_state_file, StatePathOverrides};
use crate::text::is_platform_separator;
use crate::runtime::{
    runtime_fields_map, runtime_status_maps, runtime_status_to_panel_status,
    AgentContextRuntimePanelStatus,
};
use crate::status::{status_or_initial, AgentContextPanelStatus};
use crate::text::{concat2, is_blank_spec, lemma_trim_idempotent, lossy_text, trim, trim_str, utf8_lossy};

verus! {

/// The files of the panel: its configuration, its status and its feedback
/// log.
pub struct PanelPaths {
    pub config_path: String,
    pub status_path: String,
    pub feedback_path: String,
}

/// A file of the panel, as text (`to_string_lossy`): the one that replaces
/// it, or else the default file `name` in the state directory.
pub open spec fn panel_file(replaced: Option<Vec<u8>>, p: Seq<char>, name: Seq<char>) -> bool {
    match replaced {
        Some(q) => p == lossy_text(q@),
        None => exists|b: Seq<u8>| is_default_state_file(b, name) && p == lossy_text(b),
    }
}

/// The files of the panel, with those that tests replaced.
pub fn panel_paths(overrides: &StatePathOverrides) -> (r: PanelPaths)
    ensures
        panel_file(overrides.agent_context_panel_config, r.config_path@, "agent-context-panel.json"@),
        panel_file(
            overrides.agent_context_panel_status,
            r.status_path@,
            "agent-context-panel-status.json"@,
        ),
        panel_file(overrides.agent_context_feedback, r.feedback_path@, "agent-context-feedback.jsonl"@),
{
    let config_path = overrides.agent_context_panel_config_path();
    let status_path = overrides.agent_context_panel_status_path();
    let feedback_path = overrides.agent_context_feedback_path();
    PanelPaths {
        config_path: utf8_lossy(config_path.as_slice()),
        status_path: utf8_lossy(status_path.as_slice()),
        feedback_path: utf8_lossy(feedback_path.as_slice()),
    }
}

/// What the panel shows: where its files are, its configuration and its
/// status.
pub struct AgentContextPanelState {
    pub config_path: String,
    pub status_path: String,
    pub feedback_path: String,
    pub config: AgentContextPanelConfig,
    pub status: AgentContextPanelStatus,
}

/// A state shows the files `paths`.
pub open spec fn shows_paths(s: AgentContextPanelState, paths: PanelPaths) -> bool {
    &&& s.config_path == paths.config_path
    &&& s.status_path == paths.status_path
    &&& s.feedback_path == paths.feedback_path
}

/// A configuration is the default one for some home directory and path
/// separator.
pub open spec fn is_default_config(c: AgentContextPanelConfig) -> bool {
    &&& c.scope@ == "all"@
    &&& c.mode@ == "fast"@
    &&& exists|h: Option<Seq<char>>, s: char|
        is_platform_separator(s) && c.agent_context_root@ == default_root_for(h, s) && c.agent_context_bin@
            == default_bin_for(h, s)
}

/// The configuration of the panel from what its file holds: the default one
/// when there is no file, else what it holds, normalized.
pub fn saved_panel_config(saved: Option<AgentContextPanelConfig>) -> (r: AgentContextPanelConfig)
    ensures
        match saved {
            None => is_default_config(r),
            Some(c) => exists|h: Option<Seq<char>>, s: char|
                is_platform_separator(s) && r@ == normalize_view(c@, h, s),
        },
{
    match saved {
        None => AgentContextPanelConfig::default(),
        Some(c) => normalize_config(c),
    }
}

/// The state of the panel: the configuration read (or why it could not be),
/// and the status on disk, or the initial status when there is none or it
/// could not be read.
pub fn load_agent_context_panel_state(
    paths: PanelPaths,
    config: Result<AgentContextPanelConfig, AgentContextError>,
    status: Option<AgentContextPanelStatus>,
) -> (r: Result<AgentContextPanelState, AgentContextError>)
    ensures
        match config {
            Err(e) => r == Err::<AgentContextPanelState, AgentContextError>(e),
            Ok(c) => r matches Ok(s) && shows_paths(s, paths) && s.config == c && match status {
                Some(st) => s.status == st,
                None => s.status.is_initial(),
            },
        },
{
    match config {
        Err(e) => Err(e),
        Ok(c) => Ok(
            AgentContextPanelState {
                config_path: paths.config_path,
                status_path: paths.status_path,
                feedback_path: paths.feedback_path,
                config: c,
                status: status_or_initial(status),
            },
        ),
    }
}

/// The state shown when the panel's files cannot be read: the default
/// configuration and the initial status.
pub fn fallback_agent_context_panel_state(paths: PanelPaths) -> (r: AgentContextPanelState)
    ensures
        shows_paths(r, paths),
        is_default_config(r.config),
        r.status.is_initial(),
{
    AgentContextPanelState {
        config_path: paths.config_path,
        status_path: paths.status_path,
        feedback_path: paths.feedback_path,
        config: AgentContextPanelConfig::default(),
        status: AgentContextPanelStatus::default(),
    }
}

/// The goal of a panel refresh, trimmed, and the `agent-context panel`
/// command line for it.
pub fn panel_refresh_command(config: &AgentContextPanelConfig, goal: &str) -> (r: (String, Vec<String>))
    ensures
        r.0@ == trim(goal@),
        strings(r.1@) == panel_args(*config, trim(goal@)),
{
    let goal = trim_str(goal);
    (goal.to_owned(), panel_command_args(config, goal))
}

/// The status after a panel refresh: as the tool's panel status gives it,
/// with the session and the model input of the status before.
pub open spec fn refreshed_status(
    rt: AgentContextRuntimePanelStatus,
    c: AgentContextPanelConfig,
    previous: AgentContextPanelStatus,
    now: u128,
    s: AgentContextPanelStatus,
) -> bool {
    &&& runtime_fields_map(rt, c, now, s)
    &&& s.last_session_id == previous.last_session_id
    &&& s.last_model_input_md == previous.last_model_input_md
}

/// How a panel refresh ended.
pub enum PanelRefresh {
    /// The command failed: the status to save, and the error to show.
    Failed { save: AgentContextPanelStatus, error: AgentContextError },
    /// The tool's panel status could not be read; nothing is saved.
    NotRead(AgentContextError),
    /// The panel was refreshed: its status is saved and the state shown.
    Refreshed(AgentContextPanelState),
}

/// How a panel refresh ends once `agent-context panel` ran for `goal`: a
/// failed command is saved and shown with the goal; a panel status that could
/// not be read is the error; else the refreshed status is saved and the state
/// shown. A refresh keeps the session and the model input of the status
/// before.
pub fn run_agent_context_panel(
    paths: PanelPaths,
    config: AgentContextPanelConfig,
    goal: &str,
    outcome: &CommandOutcome,
    runtime: Result<AgentContextRuntimePanelStatus, AgentContextError>,
    previous: AgentContextPanelStatus,
    now: u128,
) -> (r: PanelRefresh)
    ensures
        !outcome.success ==> (r matches PanelRefresh::Failed { save, error } && {
            let m = failure_message(outcome.stdout@, outcome.stderr@, outcome.status@);
            status_after(previous, "failed"@, m, Some(trim(goal@)), config, now, save)
                && is_message(error, m)
        }),
        outcome.success ==> match runtime {
            Err(e) => (r matches PanelRefresh::NotRead(x) && x == e),
            Ok(rt) => (r matches PanelRefresh::Refreshed(st) && (shows_paths(st, paths)
                && st.config == config && refreshed_status(rt, config, previous, now, st.status))),
        },
{
    let goal = trim_str(goal);
    if !outcome.success {
        let message = command_failure_message(outcome);
        let save = status_with_outcome(
            previous,
            "failed".to_owned(),
            message.clone(),
            Some(goal.to_owned()),
            &config,
            now,
        );
        return PanelRefresh::Failed { save, error: AgentContextError::Message(message) };
    }
    match runtime {
        Err(e) => PanelRefresh::NotRead(e),
        Ok(rt) => {
            let mut status = runtime_status_to_panel_status(rt, &config, now);
            if status.last_session_id.as_str().is_empty() {
                status.last_session_id = previous.last_session_id;
            }
            if status.last_model_input_md.as_str().is_empty() {
                status.last_model_input_md = previous.last_model_input_md;
            }
            PanelRefresh::Refreshed(
                AgentContextPanelState {
                    config_path: paths.config_path,
                    status_path: paths.status_path,
                    feedback_path: paths.feedback_path,
                    config,
                    status,
                },
            )
        },
    }
}

/// The follow-up check in the output of `agent-context v1-refresh`: its
/// `followup_check` member when it has one (and the context of an error in
/// reading it), else the whole output (the output of `v1-followup`).
pub fn v1_followup_part(output: &JsonValue) -> (r: (JsonValue, String))
    ensures
        match view_get(output@, "followup_check"@) {
            Some(f) => r.0@ == f && r.1@
                == "failed to parse agent-context v1-refresh followup_check output"@,
            None => r.0@ == output@ && r.1@ == "failed to parse agent-context v1-followup output"@,
        },
{
    match output.get("followup_check") {
        Some(f) => (
            f.deep_clone(),
            "failed to parse agent-context v1-refresh followup_check output".to_owned(),
        ),
        None => (output.deep_clone(), "failed to parse agent-context v1-followup output".to_owned()),
    }
}

/// The v1 follow-up check as the panel shows it.
#[derive(Debug, Clone, PartialEq, Eq, Default)]
pub struct AgentContextV1FollowupResult {
    pub status: String,
    pub action: String,
    pub ready: bool,
    pub can_recheck_now: bool,
    pub earliest_recheck_after: String,
    pub next_monitor_due_at: String,
    pub trend_days_remaining: usize,
    pub wait_reason: String,
    pub next_gate_at: String,
    pub seconds_until_next_gate: u64,
    pub next_evidence_gate_reason: String,
    pub next_evidence_gate_at: String,
    pub seconds_until_next_evidence_gate: u64,
    pub acceptance_wait_reason: String,
    pub acceptance_gate_at: String,
    pub seconds_until_acceptance_gate: u64,
    pub followup_plan_latest_md_path: String,
    pub acceptance_latest_md_path: String,
    pub latest_md_path: String,
    pub latest_json_path: String,
    pub next_command: String,
}

/// How the v1 follow-up ends once `agent-context v1-refresh` ran: a failed
/// command is the error, and nothing is saved; a follow-up check that could
/// not be read is the error; else the check is given, and the panel status is
/// saved as the tool's panel status gives it, when that could be read.
pub fn run_agent_context_v1_followup(
    config: &AgentContextPanelConfig,
    outcome: &CommandOutcome,
    followup: Result<AgentContextV1FollowupResult, AgentContextError>,
    runtime: Option<AgentContextRuntimePanelStatus>,
    now: u128,
) -> (r: RunResult<AgentContextV1FollowupResult>)
    ensures
        !outcome.success ==> r.save is None && (r.result matches Err(e) && is_message(
            e,
            failure_message(outcome.stdout@, outcome.stderr@, outcome.status@),
        )),
        outcome.success ==> match followup {
            Err(e) => r.save is None && r.result == Err::<
                AgentContextV1FollowupResult,
                AgentContextError,
            >(e),
            Ok(f) => r.result == Ok::<AgentContextV1FollowupResult, AgentContextError>(f)
                && match runtime {
                None => r.save is None,
                Some(rt) => (r.save matches Some(s) && runtime_status_maps(rt, *config, now, s)),
            },
        },
{
    if !outcome.success {
        return RunResult {
            save: None,
            result: Err(AgentContextError::Message(command_failure_message(outcome))),
        };
    }
    match followup {
        Err(e) => RunResult { save: None, result: Err(e) },
        Ok(f) => {
            let save = match runtime {
                None => None,
                Some(rt) => Some(runtime_status_to_panel_status(rt, config, now)),
            };
            RunResult { save, result: Ok(f) }
        },
    }
}

/// The prewarm of the panel at launch, as the panel shows it.
#[derive(Debug, Clone)]
pub struct AgentContextLaunchPrewarm {
    pub status: String,
    pub message: String,
    pub goal: String,
    pub scope: String,
    pub mode: String,
}

/// The goal of a saved status, trimmed; empty without one.
pub open spec fn status_goal(status: Option<AgentContextPanelStatus>) -> Seq<char> {
    match status {
        Some(s) => trim(s.last_goal@),
        None => Seq::empty(),
    }
}

/// The goal of the tool's panel status, trimmed; empty without one.
pub open spec fn runtime_goal(runtime: Option<AgentContextRuntimePanelStatus>) -> Seq<char> {
    match runtime {
        Some(rt) => match rt.goal {
            Some(g) => trim(g@),
            None => Seq::empty(),
        },
        None => Seq::empty(),
    }
}

/// The goal that a prewarm reuses: that of the saved status when it is not
/// blank, else that of the tool's panel status; empty when neither has one.
pub open spec fn known_goal(
    status: Option<AgentContextPanelStatus>,
    runtime: Option<AgentContextRuntimePanelStatus>,
) -> Seq<char> {
    if status_goal(status).len() > 0 {
        status_goal(status)
    } else {
        runtime_goal(runtime)
    }
}

/// The goal that a prewarm reuses, from the saved status and the tool's
/// panel status (each when it could be read).
pub fn last_known_goal(
    status: &Option<AgentContextPanelStatus>,
    runtime: &Option<AgentContextRuntimePanelStatus>,
) -> (r: String)
    ensures
        r@ == known_goal(*status, *runtime),
{
    if let Some(s) = status {
        let g = trim_str(s.last_goal.as_str());
        if !g.is_empty() {
            return g.to_owned();
        }
    }
    if let Some(rt) = runtime {
        if let Some(g) = &rt.goal {
            let g = trim_str(g.as_str());
            if !g.is_empty() {
                return g.to_owned();
            }
        }
    }
    String::new()
}

/// What the prewarm at launch does: what it shows, the status it saves (if
/// any), and the goal to refresh the panel with in the background (if any).
pub struct LaunchPrewarmPlan {
    pub prewarm: AgentContextLaunchPrewarm,
    pub save: Option<AgentContextPanelStatus>,
    pub refresh_goal: Option<String>,
}

/// A prewarm shows `status`, `message`, `goal`, `scope` and `mode`.
pub open spec fn shows_prewarm(
    p: AgentContextLaunchPrewarm,
    status: Seq<char>,
    message: Seq<char>,
    goal: Seq<char>,
    scope: Seq<char>,
    mode: Seq<char>,
) -> bool {
    &&& p.status@ == status
    &&& p.message@ == message
    &&& p.goal@ == goal
    &&& p.scope@ == scope
    &&& p.mode@ == mode
}

/// The prewarm skipped or ended in `status` with `message` for `goal`:
/// shown, and saved with the goal when there is one.
pub open spec fn prewarm_ended(
    r: LaunchPrewarmPlan,
    c: AgentContextPanelConfig,
    status: Seq<char>,
    message: Seq<char>,
    goal: Seq<char>,
    previous: AgentContextPanelStatus,
    now: u128,
) -> bool {
    &&& shows_prewarm(r.prewarm, status, message, goal, c.scope@, c.mode@)
    &&& r.save matches Some(s) && status_after(
        previous,
        status,
        message,
        if goal.len() == 0 {
            None
        } else {
            Some(goal)
        },
        c,
        now,
        s,
    )
}

fn prewarm_end(
    config: &AgentContextPanelConfig,
    status: &str,
    message: String,
    goal: String,
    previous: AgentContextPanelStatus,
    now: u128,
    refresh_goal: Option<String>,
) -> (r: LaunchPrewarmPlan)
    requires
        goal@ == trim(goal@),
    ensures
        prewarm_ended(r, *config, status@, message@, goal@, previous, now),
        r.refresh_goal == refresh_goal,
{
    let save = launch_prewarm_status(config, goal.as_str(), status, message.as_str(), previous, now);
    LaunchPrewarmPlan {
        prewarm: AgentContextLaunchPrewarm {
            status: status.to_owned(),
            message,
            goal,
            scope: config.scope.clone(),
            mode: config.mode.clone(),
        },
        save: Some(save),
        refresh_goal,
    }
}

/// How the prewarm goes for a configuration read (or why it could not be),
/// a goal to reuse, whether the tool's executable exists and the status
/// before (see `launch_prewarm_plan`).
pub open spec fn launch_plan_for(
    config: Result<AgentContextPanelConfig, AgentContextError>,
    goal: Seq<char>,
    bin_exists: bool,
    previous: AgentContextPanelStatus,
    now: u128,
    r: LaunchPrewarmPlan,
) -> bool {
        match config {
            Err(e) => shows_prewarm(
                r.prewarm,
                "failed"@,
                "Agent Context 配置读取失败："@ + e.shown(),
                Seq::empty(),
                Seq::empty(),
                Seq::empty(),
            ) && r.save is None && r.refresh_goal is None,
            Ok(c) => if !c.auto_context {
                prewarm_ended(
                    r,
                    c,
                    "skipped"@,
                    "Auto Context 已关闭，Codex++ 启动时未预热上下文包。"@,
                    Seq::empty(),
                    previous,
                    now,
                ) && r.refresh_goal is None
            } else if goal.len() == 0 {
                prewarm_ended(
                    r,
                    c,
                    "skipped"@,
                    "没有可复用的任务目标，Codex++ 启动时未预热上下文包。"@,
                    Seq::empty(),
                    previous,
                    now,
                ) && r.refresh_goal is None
            } else if !bin_exists {
                prewarm_ended(
                    r,
                    c,
                    "failed"@,
                    "agent-context 不存在："@ + c.agent_context_bin@,
                    goal,
                    previous,
                    now,
                ) && r.refresh_goal is None
            } else {
                prewarm_ended(
                    r,
                    c,
                    "accepted"@,
                    "Codex++ 启动时已开始预热 Agent Context。"@,
                    goal,
                    previous,
                    now,
                ) && (r.refresh_goal matches Some(g) && g@ == goal)
            },
        }
}

/// How the prewarm at launch goes, given the configuration read (or why it
/// could not be), the goal it would reuse (trimmed), whether the tool's executable
/// exists, and the status before: a configuration that could not be read
/// fails, with nothing saved; with Auto Context off, or no goal to reuse, it
/// is skipped; without the executable it fails; else it is accepted, and the
/// panel is refreshed with the goal in the background.
pub fn launch_prewarm_plan(
    config: Result<AgentContextPanelConfig, AgentContextError>,
    goal: &str,
    bin_exists: bool,
    previous: AgentContextPanelStatus,
    now: u128,
) -> (r: LaunchPrewarmPlan)
    ensures
        launch_plan_for(config, trim(goal@), bin_exists, previous, now, r),
{
    proof {
        lemma_trim_idempotent(goal@);
    }
    let goal = trim_str(goal);
    let config = match config {
        Ok(c) => c,
        Err(e) => {
            let shown = e.to_text();
            return LaunchPrewarmPlan {
                prewarm: AgentContextLaunchPrewarm {
                    status: "failed".to_owned(),
                    message: concat2("Agent Context 配置读取失败：", shown.as_str()),
                    goal: String::new(),
                    scope: String::new(),
                    mode: String::new(),
                },
                save: None,
                refresh_goal: None,
            };
        },
    };
    if !config.auto_context {
        let message = "Auto Context 已关闭，Codex++ 启动时未预热上下文包。".to_owned();
        return prewarm_end(&config, "skipped", message, String::new(), previous, now, None);
    }
    if goal.is_empty() {
        let message = "没有可复用的任务目标，Codex++ 启动时未预热上下文包。".to_owned();
        return prewarm_end(&config, "skipped", message, String::new(), previous, now, None);
    }
    if !bin_exists {
        let message = concat2("agent-context 不存在：", config.agent_context_bin.as_str());
        return prewarm_end(&config, "failed", message, goal.to_owned(), previous, now, None);
    }
    let message = "Codex++ 启动时已开始预热 Agent Context。".to_owned();
    prewarm_end(&config, "accepted", message, goal.to_owned(), previous, now, Some(goal.to_owned()))
}

/// The prewarm at launch: the goal is the last known one, and whether the
/// tool's executable exists is asked of the disk when Auto Context is on and
/// there is a goal; the rest is `launch_prewarm_plan`. The saved status and
/// the tool's panel status are given when they could be read.
pub fn start_launch_prewarm(
    config: Result<AgentContextPanelConfig, AgentContextError>,
    status: Option<AgentContextPanelStatus>,
    runtime: Option<AgentContextRuntimePanelStatus>,
    now: u128,
) -> (r: LaunchPrewarmPlan)
    ensures
        exists|bin_exists: bool, previous: AgentContextPanelStatus|
            #![trigger launch_plan_for(config, known_goal(status, runtime), bin_exists, previous, now, r)]
            (match status {
                Some(s) => previous == s,
                None => previous.is_initial(),
            }) && launch_plan_for(config, known_goal(status, runtime), bin_exists, previous, now, r),
{
    let goal = last_known_goal(&status, &runtime);
    let bin_exists = match &config {
        Ok(c) => c.auto_context && !goal.as_str().is_empty() && crate::system::path_exists(
            c.agent_context_bin.as_str(),
        ),
        Err(_) => false,
    };
    proof {
        if status is Some {
            lemma_trim_idempotent(status->0.last_goal@);
        }
        if runtime is Some && runtime->0.goal is Some {
            lemma_trim_idempotent(runtime->0.goal->0@);
        }
        assert(trim(Seq::<char>::empty()) == Seq::<char>::empty());
    }
    let previous = status_or_initial(status);
    let r = launch_prewarm_plan(config, goal.as_str(), bin_exists, previous, now);
    assert(launch_plan_for(config, known_goal(status, runtime), bin_exists, previous, now, r));
    r
}

/// When the background refresh of an accepted prewarm could not be started:
/// the prewarm fails with the reason, and is saved with its goal.
pub fn launch_prewarm_spawn_failed(
    config: &AgentContextPanelConfig,
    goal: &str,
    error: &str,
    previous: AgentContextPanelStatus,
    now: u128,
) -> (r: LaunchPrewarmPlan)
    ensures
        prewarm_ended(
            r,
            *config,
            "failed"@,
            "Agent Context 预热线程启动失败："@ + error@,
            trim(goal@),
            previous,
            now,
        ),
        r.refresh_goal is None,
{
    proof {
        lemma_trim_idempotent(goal@);
    }
    let goal = trim_str(goal);
    let message = concat2("Agent Context 预热线程启动失败：", error);
    prewarm_end(config, "failed", message, goal.to_owned(), previous, now, None)
}

/// A line of the feedback log: which answer won, why, when, and the status
/// it was given for.
#[derive(Debug, Clone)]
pub struct AgentContextFeedbackEntry {
    pub winner: String,
    pub reason: String,
    pub created_at_ms: u128,
    pub status_path: String,
}

/// The feedback as it is logged: the winner and the reason trimmed; the time
/// `now` when none is given (0); the status file `status_path` when the
/// feedback names none, else the one it names, trimmed.
pub fn feedback_entry(feedback: AgentContextFeedbackEntry, now: u128, status_path: &str) -> (r:
    AgentContextFeedbackEntry)
    ensures
        r.winner@ == trim(feedback.winner@),
        r.reason@ == trim(feedback.reason@),
        r.created_at_ms == if feedback.created_at_ms == 0 {
            now
        } else {
            feedback.created_at_ms
        },
        r.status_path@ == if is_blank_spec(feedback.status_path@) {
            status_path@
        } else {
            trim(feedback.status_path@)
        },
{
    let path = trim_str(feedback.status_path.as_str());
    AgentContextFeedbackEntry {
        created_at_ms: if feedback.created_at_ms == 0 {
            now
        } else {
            feedback.created_at_ms
        },
        status_path: if path.is_empty() {
            status_path.to_owned()
        } else {
            path.to_owned()
        },
        winner: trim_str(feedback.winner.as_str()).to_owned(),
        reason: trim_str(feedback.reason.as_str()).to_owned(),
    }
}

} // verus!
