//! What the panel shows: the status of the last Agent Context run and the
//! reports of the `agent-context` tool that it summarises.

use vstd::prelude::*;

verus! {

/// The trend of the feedback replays.
#[derive(Debug, Clone, PartialEq, Eq)]
pub struct AgentContextPanelFeedbackReplayTrend {
    pub exists: bool,
    pub health: String,
    pub reports: usize,
    pub cases: usize,
    pub latest_expected_top1_rate: String,
    pub trend_rank_improvements: usize,
    pub trend_rank_regressions: usize,
    pub latest_replay_report_path: String,
    pub latest_trend_report_path: String,
}

/// The background semantic maintenance job.
#[derive(Debug, Clone, PartialEq, Eq)]
pub struct AgentContextPanelSemanticLaunchd {
    pub health: String,
    pub installed: bool,
    pub plist_path: String,
    pub script_path: String,
    pub latest_maintain_report: String,
    pub latest_prune_report: String,
    pub monitor_path: String,
    pub latest_launchd_activity_at: String,
    pub next_expected_run_after: String,
    pub natural_run_due: bool,
    pub natural_run_overdue: bool,
    pub seconds_overdue: i64,
}

/// Whether the semantic index is ready.
#[derive(Debug, Clone, PartialEq, Eq)]
pub struct AgentContextPanelSemanticReadiness {
    pub exists: bool,
    pub status: String,
    pub ready: bool,
    pub reason: String,
    pub semantic_chunks: usize,
    pub trend_days_observed: usize,
    pub trend_days_remaining: usize,
    pub monitor_snapshots: usize,
    pub next_monitor_due_at: String,
    pub earliest_multi_day_check_after: String,
    pub next_action: String,
    pub report_path: String,
    pub report_markdown_path: String,
}

/// The v1 acceptance report and its follow-up.
#[derive(Debug, Clone, PartialEq, Eq)]
pub struct AgentContextPanelV1Acceptance {
    pub exists: bool,
    pub status: String,
    pub ready: bool,
    pub decision: String,
    pub created_at: String,
    pub report_path: String,
    pub report_markdown_path: String,
    pub next_commands: Vec<String>,
    pub followup_json_path: String,
    pub followup_markdown_path: String,
    pub can_recheck_now: bool,
    pub earliest_recheck_after: String,
    pub next_monitor_due_at: String,
    pub trend_days_remaining: usize,
    pub wait_reason: String,
    pub next_gate_at: String,
    pub seconds_until_next_gate: u64,
    pub next_evidence_gate_reason: String,
    pub next_evidence_gate_at: String,
    pub seconds_until_next_evidence_gate: u64,
    pub acceptance_wait_reason: String,
    pub acceptance_gate_at: String,
    pub seconds_until_acceptance_gate: u64,
}

/// One stage of the v1 plan.
#[derive(Debug, Clone, PartialEq, Eq)]
pub struct AgentContextPanelV1StageRow {
    pub id: String,
    pub title: String,
    pub status: String,
    pub progress: u8,
    pub summary: String,
}

/// The v1 stage report.
#[derive(Debug, Clone, PartialEq, Eq)]
pub struct AgentContextPanelV1StageStatus {
    pub exists: bool,
    pub status: String,
    pub ready: bool,
    pub decision: String,
    pub created_at: String,
    pub report_path: String,
    pub report_markdown_path: String,
    pub stages_total: usize,
    pub ok: usize,
    pub waiting_for_time: usize,
    pub warning: usize,
    pub failed: usize,
    pub wait_reason: String,
    pub next_gate_at: String,
    pub seconds_until_next_gate: u64,
    pub next_evidence_gate_reason: String,
    pub next_evidence_gate_at: String,
    pub seconds_until_next_evidence_gate: u64,
    pub acceptance_wait_reason: String,
    pub acceptance_gate_at: String,
    pub seconds_until_acceptance_gate: u64,
    pub trend_days_remaining: usize,
    pub stages: Vec<AgentContextPanelV1StageRow>,
}

/// One event of the access audit log.
#[derive(Debug, Clone, PartialEq, Eq)]
pub struct AgentContextAccessAuditEvent {
    pub created_at: String,
    pub action: String,
    pub decision: String,
    pub identifier: String,
    pub provider: String,
    pub source_id: String,
    pub source_chunk_id: String,
    pub path: String,
    pub reason: String,
}

/// The access audit log: its recent decisions and events.
#[derive(Debug, Clone, PartialEq, Eq)]
pub struct AgentContextPanelAccessAudit {
    pub audit_path: String,
    pub events_total: usize,
    pub recent_allowed: usize,
    pub recent_denied: usize,
    pub recent_filtered: usize,
    pub recent_consent_required: usize,
    pub recent_events: Vec<AgentContextAccessAuditEvent>,
    pub last_denied: Option<AgentContextAccessAuditEvent>,
}

/// The status of the last Agent Context run, as the panel keeps it.
#[derive(Debug, Clone, PartialEq, Eq)]
pub struct AgentContextPanelStatus {
    pub last_status: String,
    pub last_message: String,
    pub last_session_id: String,
    pub last_goal: String,
    pub last_scope: String,
    pub last_mode: String,
    pub last_generated_pack: String,
    pub last_sources_jsonl: String,
    pub last_manifest_json: String,
    pub last_resolution_plan_json: String,
    pub last_codex_preflight_md: String,
    pub last_model_input_md: String,
    pub last_runtime_task_md: String,
    pub last_review_file: String,
    pub last_review_client_html: String,
    pub last_review_launch_md: String,
    pub last_generated_at_ms: u128,
    pub access_audit: AgentContextPanelAccessAudit,
    pub semantic_launchd: AgentContextPanelSemanticLaunchd,
    pub semantic_readiness: AgentContextPanelSemanticReadiness,
    pub v1_acceptance: AgentContextPanelV1Acceptance,
    pub v1_stage_status: AgentContextPanelV1StageStatus,
    pub feedback_replay_trend: AgentContextPanelFeedbackReplayTrend,
}

impl AgentContextPanelFeedbackReplayTrend {
    /// No trend: nothing set.
    pub open spec fn is_blank_trend(self) -> bool {
        &&& !self.exists
        &&& self.health@.len() == 0
        &&& self.reports == 0
        &&& self.cases == 0
        &&& self.latest_expected_top1_rate@.len() == 0
        &&& self.trend_rank_improvements == 0
        &&& self.trend_rank_regressions == 0
        &&& self.latest_replay_report_path@.len() == 0
        &&& self.latest_trend_report_path@.len() == 0
    }
}

impl Default for AgentContextPanelFeedbackReplayTrend {
    fn default() -> (r: Self)
        ensures
            r.is_blank_trend(),
    {
        AgentContextPanelFeedbackReplayTrend {
            exists: false,
            health: String::new(),
            reports: 0,
            cases: 0,
            latest_expected_top1_rate: String::new(),
            trend_rank_improvements: 0,
            trend_rank_regressions: 0,
            latest_replay_report_path: String::new(),
            latest_trend_report_path: String::new(),
        }
    }
}

impl AgentContextPanelSemanticLaunchd {
    /// No job known: nothing set.
    pub open spec fn is_blank_launchd(self) -> bool {
        &&& self.health@.len() == 0
        &&& !self.installed
        &&& self.plist_path@.len() == 0
        &&& self.script_path@.len() == 0
        &&& self.latest_maintain_report@.len() == 0
        &&& self.latest_prune_report@.len() == 0
        &&& self.monitor_path@.len() == 0
        &&& self.latest_launchd_activity_at@.len() == 0
        &&& self.next_expected_run_after@.len() == 0
        &&& !self.natural_run_due
        &&& !self.natural_run_overdue
        &&& self.seconds_overdue == 0
    }
}

impl Default for AgentContextPanelSemanticLaunchd {
    fn default() -> (r: Self)
        ensures
            r.is_blank_launchd(),
    {
        AgentContextPanelSemanticLaunchd {
            health: String::new(),
            installed: false,
            plist_path: String::new(),
            script_path: String::new(),
            latest_maintain_report: String::new(),
            latest_prune_report: String::new(),
            monitor_path: String::new(),
            latest_launchd_activity_at: String::new(),
            next_expected_run_after: String::new(),
            natural_run_due: false,
            natural_run_overdue: false,
            seconds_overdue: 0,
        }
    }
}

impl AgentContextPanelSemanticReadiness {
    /// No readiness report: nothing set.
    pub open spec fn is_blank_readiness(self) -> bool {
        &&& !self.exists
        &&& self.status@.len() == 0
        &&& !self.ready
        &&& self.reason@.len() == 0
        &&& self.semantic_chunks == 0
        &&& self.trend_days_observed == 0
        &&& self.trend_days_remaining == 0
        &&& self.monitor_snapshots == 0
        &&& self.next_monitor_due_at@.len() == 0
        &&& self.earliest_multi_day_check_after@.len() == 0
        &&& self.next_action@.len() == 0
        &&& self.report_path@.len() == 0
        &&& self.report_markdown_path@.len() == 0
    }
}

impl Default for AgentContextPanelSemanticReadiness {
    fn default() -> (r: Self)
        ensures
            r.is_blank_readiness(),
    {
        AgentContextPanelSemanticReadiness {
            exists: false,
            status: String::new(),
            ready: false,
            reason: String::new(),
            semantic_chunks: 0,
            trend_days_observed: 0,
            trend_days_remaining: 0,
            monitor_snapshots: 0,
            next_monitor_due_at: String::new(),
            earliest_multi_day_check_after: String::new(),
            next_action: String::new(),
            report_path: String::new(),
            report_markdown_path: String::new(),
        }
    }
}

impl AgentContextPanelV1Acceptance {
    /// No acceptance report: nothing set.
    pub open spec fn is_blank_acceptance(self) -> bool {
        &&& !self.exists
        &&& self.status@.len() == 0
        &&& !self.ready
        &&& self.decision@.len() == 0
        &&& self.created_at@.len() == 0
        &&& self.report_path@.len() == 0
        &&& self.report_markdown_path@.len() == 0
        &&& self.next_commands@.len() == 0
        &&& self.followup_json_path@.len() == 0
        &&& self.followup_markdown_path@.len() == 0
        &&& !self.can_recheck_now
        &&& self.earliest_recheck_after@.len() == 0
        &&& self.next_monitor_due_at@.len() == 0
        &&& self.trend_days_remaining == 0
        &&& self.wait_reason@.len() == 0
        &&& self.next_gate_at@.len() == 0
        &&& self.seconds_until_next_gate == 0
        &&& self.next_evidence_gate_reason@.len() == 0
        &&& self.next_evidence_gate_at@.len() == 0
        &&& self.seconds_until_next_evidence_gate == 0
        &&& self.acceptance_wait_reason@.len() == 0
        &&& self.acceptance_gate_at@.len() == 0
        &&& self.seconds_until_acceptance_gate == 0
    }
}

impl Default for AgentContextPanelV1Acceptance {
    fn default() -> (r: Self)
        ensures
            r.is_blank_acceptance(),
    {
        AgentContextPanelV1Acceptance {
            exists: false,
            status: String::new(),
            ready: false,
            decision: String::new(),
            created_at: String::new(),
            report_path: String::new(),
            report_markdown_path: String::new(),
            next_commands: Vec::new(),
            followup_json_path: String::new(),
            followup_markdown_path: String::new(),
            can_recheck_now: false,
            earliest_recheck_after: String::new(),
            next_monitor_due_at: String::new(),
            trend_days_remaining: 0,
            wait_reason: String::new(),
            next_gate_at: String::new(),
            seconds_until_next_gate: 0,
            next_evidence_gate_reason: String::new(),
            next_evidence_gate_at: String::new(),
            seconds_until_next_evidence_gate: 0,
            acceptance_wait_reason: String::new(),
            acceptance_gate_at: String::new(),
            seconds_until_acceptance_gate: 0,
        }
    }
}

impl AgentContextPanelV1StageStatus {
    /// No stage report: nothing set.
    pub open spec fn is_blank_stage_status(self) -> bool {
        &&& !self.exists
        &&& self.status@.len() == 0
        &&& !self.ready
        &&& self.decision@.len() == 0
        &&& self.created_at@.len() == 0
        &&& self.report_path@.len() == 0
        &&& self.report_markdown_path@.len() == 0
        &&& self.stages_total == 0
        &&& self.ok == 0
        &&& self.waiting_for_time == 0
        &&& self.warning == 0
        &&& self.failed == 0
        &&& self.wait_reason@.len() == 0
        &&& self.next_gate_at@.len() == 0
        &&& self.seconds_until_next_gate == 0
        &&& self.next_evidence_gate_reason@.len() == 0
        &&& self.next_evidence_gate_at@.len() == 0
        &&& self.seconds_until_next_evidence_gate == 0
        &&& self.acceptance_wait_reason@.len() == 0
        &&& self.acceptance_gate_at@.len() == 0
        &&& self.seconds_until_acceptance_gate == 0
        &&& self.trend_days_remaining == 0
        &&& self.stages@.len() == 0
    }
}

impl Default for AgentContextPanelV1StageStatus {
    fn default() -> (r: Self)
        ensures
            r.is_blank_stage_status(),
    {
        AgentContextPanelV1StageStatus {
            exists: false,
            status: String::new(),
            ready: false,
            decision: String::new(),
            created_at: String::new(),
            report_path: String::new(),
            report_markdown_path: String::new(),
            stages_total: 0,
            ok: 0,
            waiting_for_time: 0,
            warning: 0,
            failed: 0,
            wait_reason: String::new(),
            next_gate_at: String::new(),
            seconds_until_next_gate: 0,
            next_evidence_gate_reason: String::new(),
            next_evidence_gate_at: String::new(),
            seconds_until_next_evidence_gate: 0,
            acceptance_wait_reason: String::new(),
            acceptance_gate_at: String::new(),
            seconds_until_acceptance_gate: 0,
            trend_days_remaining: 0,
            stages: Vec::new(),
        }
    }
}

impl AgentContextPanelAccessAudit {
    /// No audit log: nothing set.
    pub open spec fn is_blank_audit(self) -> bool {
        &&& self.audit_path@.len() == 0
        &&& self.events_total == 0
        &&& self.recent_allowed == 0
        &&& self.recent_denied == 0
        &&& self.recent_filtered == 0
        &&& self.recent_consent_required == 0
        &&& self.recent_events@.len() == 0
        &&& self.last_denied is None
    }
}

impl Default for AgentContextPanelAccessAudit {
    fn default() -> (r: Self)
        ensures
            r.is_blank_audit(),
    {
        AgentContextPanelAccessAudit {
            audit_path: String::new(),
            events_total: 0,
            recent_allowed: 0,
            recent_denied: 0,
            recent_filtered: 0,
            recent_consent_required: 0,
            recent_events: Vec::new(),
            last_denied: None,
        }
    }
}

impl AgentContextPanelStatus {
    /// The status of a panel that has never run: `not_checked`, and nothing
    /// else set.
    pub open spec fn is_initial(self) -> bool {
        &&& self.last_status@ == "not_checked"@
        &&& self.last_message@.len() == 0
        &&& self.last_session_id@.len() == 0
        &&& self.last_goal@.len() == 0
        &&& self.last_scope@.len() == 0
        &&& self.last_mode@.len() == 0
        &&& self.last_generated_pack@.len() == 0
        &&& self.last_sources_jsonl@.len() == 0
        &&& self.last_manifest_json@.len() == 0
        &&& self.last_resolution_plan_json@.len() == 0
        &&& self.last_codex_preflight_md@.len() == 0
        &&& self.last_model_input_md@.len() == 0
        &&& self.last_runtime_task_md@.len() == 0
        &&& self.last_review_file@.len() == 0
        &&& self.last_review_client_html@.len() == 0
        &&& self.last_review_launch_md@.len() == 0
        &&& self.last_generated_at_ms == 0
        &&& self.access_audit.is_blank_audit()
        &&& self.semantic_launchd.is_blank_launchd()
        &&& self.semantic_readiness.is_blank_readiness()
        &&& self.v1_acceptance.is_blank_acceptance()
        &&& self.v1_stage_status.is_blank_stage_status()
        &&& self.feedback_replay_trend.is_blank_trend()
    }
}

impl Default for AgentContextPanelStatus {
    fn default() -> (r: Self)
        ensures
            r.is_initial(),
    {
        AgentContextPanelStatus {
            last_status: crate::config::default_status(),
            last_message: String::new(),
            last_session_id: String::new(),
            last_goal: String::new(),
            last_scope: String::new(),
            last_mode: String::new(),
            last_generated_pack: String::new(),
            last_sources_jsonl: String::new(),
            last_manifest_json: String::new(),
            last_resolution_plan_json: String::new(),
            last_codex_preflight_md: String::new(),
            last_model_input_md: String::new(),
            last_runtime_task_md: String::new(),
            last_review_file: String::new(),
            last_review_client_html: String::new(),
            last_review_launch_md: String::new(),
            last_generated_at_ms: 0,
            access_audit: AgentContextPanelAccessAudit::default(),
            semantic_launchd: AgentContextPanelSemanticLaunchd::default(),
            semantic_readiness: AgentContextPanelSemanticReadiness::default(),
            v1_acceptance: AgentContextPanelV1Acceptance::default(),
            v1_stage_status: AgentContextPanelV1StageStatus::default(),
            feedback_replay_trend: AgentContextPanelFeedbackReplayTrend::default(),
        }
    }
}

/// The status kept on disk, or the initial status when there is none.
pub fn status_or_initial(status: Option<AgentContextPanelStatus>) -> (r: AgentContextPanelStatus)
    ensures
        match status {
            Some(s) => r == s,
            None => r.is_initial(),
        },
{
    match status {
        Some(s) => s,
        None => AgentContextPanelStatus::default(),
    }
}

} // verus!
