//! The panel status that `agent-context panel` writes (`panel/status.json`),
//! and how it becomes the status that Codex++ shows.

use vstd::prelude::*;
use crate::config::AgentContextPanelConfig;
use crate::status::{
    AgentContextAccessAuditEvent, AgentContextPanelAccessAudit, AgentContextPanelFeedbackReplayTrend,
    AgentContextPanelSemanticLaunchd, AgentContextPanelSemanticReadiness, AgentContextPanelStatus,
    AgentContextPanelV1Acceptance, AgentContextPanelV1StageRow, AgentContextPanelV1StageStatus,
};
use crate::text::{concat3, decimal, non_empty_or_default, or_default, str_eq, u64_to_decimal};

verus! {

/// The panel status of the tool.
#[derive(Debug)]
pub struct AgentContextRuntimePanelStatus {
    pub auto_context: bool,
    pub goal: Option<String>,
    pub scope: String,
    pub mode: String,
    pub preflight: Option<AgentContextRuntimePreflight>,
    pub last_generated_pack: Option<String>,
    pub last_sources_jsonl: Option<String>,
    pub last_manifest_json: Option<String>,
    pub last_resolution_plan_json: Option<String>,
    pub last_codex_preflight_md: Option<String>,
    pub last_runtime_task_md: Option<String>,
    pub last_review_file: Option<String>,
    pub last_review_client_html: Option<String>,
    pub last_review_launch_md: Option<String>,
    pub access_audit: AgentContextRuntimeAccessAudit,
    pub semantic_launchd: AgentContextRuntimeSemanticLaunchd,
    pub semantic_readiness: AgentContextRuntimeSemanticReadiness,
    pub v1_acceptance: AgentContextRuntimeV1Acceptance,
    pub v1_stage_status: AgentContextRuntimeV1StageStatus,
    pub feedback: AgentContextRuntimeFeedback,
}

/// The last preflight of the tool's panel.
#[derive(Debug, Clone)]
pub struct AgentContextRuntimePreflight {
    pub status: Option<String>,
    pub sources_included: Option<usize>,
}

/// The tool's access audit.
#[derive(Debug)]
pub struct AgentContextRuntimeAccessAudit {
    pub audit_path: String,
    pub events_total: usize,
    pub recent_events: Vec<AgentContextRuntimeAccessAuditEvent>,
    pub summary: AgentContextRuntimeAccessAuditSummary,
}

/// How many recent events each decision had, and the last denial. The
/// decisions are (name, count) pairs as the tool's map gives them, each name
/// once (the type's invariant, `decisions_unique`); the count of a name is
/// that of its pair (`decision_count`), or 0 when it has none.
#[derive(Debug)]
pub struct AgentContextRuntimeAccessAuditSummary {
    pub(crate) decisions: Vec<(String, usize)>,
    pub(crate) last_denied: Option<AgentContextRuntimeAccessAuditEvent>,
}

/// The count of the last pair named `key` among `pairs`, or 0 when none is:
/// what a map filled with the pairs in order holds for `key`.
pub open spec fn last_count(pairs: Seq<(String, usize)>, key: Seq<char>) -> usize
    decreases pairs.len(),
{
    if pairs.len() == 0 {
        0
    } else if pairs.last().0@ == key {
        pairs.last().1
    } else {
        last_count(pairs.drop_last(), key)
    }
}

impl AgentContextRuntimeAccessAuditSummary {
    #[verifier::type_invariant]
    spec fn names_unique(self) -> bool {
        decisions_unique(self.decisions@)
    }

    /// The decisions as (name, count) pairs.
    pub closed spec fn decision_pairs(self) -> Seq<(String, usize)> {
        self.decisions@
    }

    /// The last denial.
    pub closed spec fn denial(self) -> Option<AgentContextRuntimeAccessAuditEvent> {
        self.last_denied
    }

    /// A summary from (name, count) pairs, read as a map is filled from
    /// them: a name that comes again replaces the count it had.
    pub fn new(
        pairs: Vec<(String, usize)>,
        last_denied: Option<AgentContextRuntimeAccessAuditEvent>,
    ) -> (r: Self)
        ensures
            decisions_unique(r.decision_pairs()),
            forall|key: Seq<char>|
                #[trigger] decision_count(r.decision_pairs(), key) == last_count(pairs@, key),
            r.denial() == last_denied,
    {
        let n = pairs.len();
        let mut out: Vec<(String, usize)> = Vec::new();
        let mut i: usize = 0;
        while i < n
            invariant
                n == pairs@.len(),
                0 <= i <= n,
                decisions_unique(out@),
                forall|key: Seq<char>|
                    #[trigger] decision_count(out@, key) == last_count(pairs@.take(i as int), key),
            decreases n - i,
        {
            let name = pairs[i].0.clone();
            let count = pairs[i].1;
            let ghost before = out@;
            match index_of_name(&out, name.as_str()) {
                Some(k) => {
                    proof {
                        lemma_count_update(before, k as int, (name, count));
                    }
                    out.set(k, (name, count));
                },
                None => {
                    proof {
                        lemma_count_push(before, (name, count));
                    }
                    out.push((name, count));
                },
            }
            assert forall|key: Seq<char>|
                #[trigger] decision_count(out@, key) == last_count(pairs@.take(i + 1), key) by {
                assert(pairs@.take(i + 1).drop_last() =~= pairs@.take(i as int));
                assert(pairs@.take(i + 1).last() == pairs@[i as int]);
                assert(decision_count(before, key) == last_count(pairs@.take(i as int), key));
            }
            i = i + 1;
        }
        assert(pairs@.take(n as int) =~= pairs@);
        AgentContextRuntimeAccessAuditSummary { decisions: out, last_denied }
    }

    /// The last denial.
    pub fn last_denied(&self) -> (r: &Option<AgentContextRuntimeAccessAuditEvent>)
        ensures
            *r == self.denial(),
    {
        &self.last_denied
    }
}

/// The index of the pair named `name`, or `None` when no pair is.
fn index_of_name(pairs: &Vec<(String, usize)>, name: &str) -> (r: Option<usize>)
    ensures
        match r {
            Some(k) => k < pairs@.len() && pairs@[k as int].0@ == name@,
            None => forall|i: int| 0 <= i < pairs@.len() ==> #[trigger] pairs@[i].0@ != name@,
        },
{
    let mut i: usize = 0;
    while i < pairs.len()
        invariant
            0 <= i <= pairs@.len(),
            forall|j: int| 0 <= j < i ==> #[trigger] pairs@[j].0@ != name@,
        decreases pairs@.len() - i,
    {
        if str_eq(pairs[i].0.as_str(), name) {
            return Some(i);
        }
        i = i + 1;
    }
    None
}

/// Adding a pair under a new name: its name now counts its count, and the
/// others count as before.
proof fn lemma_count_push(s: Seq<(String, usize)>, p: (String, usize))
    requires
        decisions_unique(s),
        forall|i: int| 0 <= i < s.len() ==> #[trigger] s[i].0@ != p.0@,
    ensures
        decisions_unique(s.push(p)),
        forall|key: Seq<char>|
            #[trigger] decision_count(s.push(p), key) == if p.0@ == key {
                p.1
            } else {
                decision_count(s, key)
            },
    decreases s.len(),
{
    let t = s.push(p);
    assert forall|i: int, j: int| 0 <= i < j < t.len() implies #[trigger] t[i].0@
        != #[trigger] t[j].0@ by {
        if j == s.len() {
            assert(t[i] == s[i]);
        } else {
            assert(t[i] == s[i] && t[j] == s[j]);
        }
    }
    if s.len() > 0 {
        let rest = s.drop_first();
        assert(decisions_unique(rest)) by {
            assert forall|i: int, j: int| 0 <= i < j < rest.len() implies #[trigger] rest[i].0@
                != #[trigger] rest[j].0@ by {
                assert(rest[i] == s[i + 1] && rest[j] == s[j + 1]);
            }
        }
        assert forall|i: int| 0 <= i < rest.len() implies #[trigger] rest[i].0@ != p.0@ by {
            assert(rest[i] == s[i + 1]);
        }
        lemma_count_push(rest, p);
        assert(t.drop_first() =~= rest.push(p));
        assert(t[0] == s[0]);
        assert(s[0].0@ != p.0@);
        assert forall|key: Seq<char>|
            #[trigger] decision_count(t, key) == if p.0@ == key {
                p.1
            } else {
                decision_count(s, key)
            } by {
            assert(decision_count(rest.push(p), key) == if p.0@ == key {
                p.1
            } else {
                decision_count(rest, key)
            });
        }
    } else {
        assert(t.drop_first() =~= Seq::<(String, usize)>::empty());
        assert(t[0] == p);
        assert forall|key: Seq<char>|
            #[trigger] decision_count(t, key) == if p.0@ == key {
                p.1
            } else {
                decision_count(s, key)
            } by {
            assert(decision_count(t.drop_first(), key) == 0);
        }
    }
}

/// Giving the pair at `k` a new count under the same name: that name counts
/// the new count, and the others count as before.
proof fn lemma_count_update(s: Seq<(String, usize)>, k: int, p: (String, usize))
    requires
        decisions_unique(s),
        0 <= k < s.len(),
        s[k].0@ == p.0@,
    ensures
        decisions_unique(s.update(k, p)),
        forall|key: Seq<char>|
            #[trigger] decision_count(s.update(k, p), key) == if p.0@ == key {
                p.1
            } else {
                decision_count(s, key)
            },
{
    let t = s.update(k, p);
    assert forall|i: int, j: int| 0 <= i < j < t.len() implies #[trigger] t[i].0@
        != #[trigger] t[j].0@ by {
        assert(t[i].0@ == s[i].0@ && t[j].0@ == s[j].0@);
    }
    assert forall|key: Seq<char>|
        #[trigger] decision_count(t, key) == if p.0@ == key {
            p.1
        } else {
            decision_count(s, key)
        } by {
        crate::laws::law_decision_count_reads_the_map(s, key);
        crate::laws::law_decision_count_reads_the_map(t, key);
        if p.0@ == key {
            assert(t[k] == p);
        } else if exists|i: int| 0 <= i < s.len() && #[trigger] s[i].0@ == key {
            let i = choose|i: int| 0 <= i < s.len() && #[trigger] s[i].0@ == key;
            assert(t[i] == s[i]);
        } else {
            assert forall|i: int| 0 <= i < t.len() implies #[trigger] t[i].0@ != key by {
                assert(t[i].0@ == s[i].0@);
            }
        }
    }
}

/// One event of the tool's access audit.
#[derive(Debug, Clone)]
pub struct AgentContextRuntimeAccessAuditEvent {
    pub created_at: String,
    pub action: String,
    pub decision: String,
    pub identifier: String,
    pub provider: String,
    pub source_id: String,
    pub source_chunk_id: String,
    pub path: String,
    pub reason: String,
}

/// The tool's feedback reports.
#[derive(Debug, Clone)]
pub struct AgentContextRuntimeFeedback {
    pub replay_trend: AgentContextRuntimeFeedbackReplayTrend,
}

/// The trend of the feedback replays.
#[derive(Debug, Clone)]
pub struct AgentContextRuntimeFeedbackReplayTrend {
    pub exists: bool,
    pub health: String,
    pub latest_replay_report_path: String,
    pub latest_trend_report_path: String,
    pub summary: AgentContextRuntimeFeedbackReplayTrendSummary,
}

/// The numbers of the feedback replay trend. The expected top-1 rate is a
/// number in the tool's output; it is held here as the text the panel shows.
#[derive(Debug, Clone)]
pub struct AgentContextRuntimeFeedbackReplayTrendSummary {
    pub reports: usize,
    pub cases: usize,
    pub latest_expected_top1_rate: String,
    pub trend_rank_improvements: usize,
    pub trend_rank_regressions: usize,
}

/// The semantic maintenance job.
#[derive(Debug, Clone)]
pub struct AgentContextRuntimeSemanticLaunchd {
    pub health: String,
    pub installed: bool,
    pub plist_path: String,
    pub script_path: String,
    pub reports: AgentContextRuntimeSemanticLaunchdReports,
    pub monitor: AgentContextRuntimeSemanticLaunchdMonitor,
}

/// The job's monitor.
#[derive(Debug, Clone)]
pub struct AgentContextRuntimeSemanticLaunchdMonitor {
    pub path: String,
    pub summary: AgentContextRuntimeSemanticLaunchdMonitorSummary,
}

/// What the monitor saw.
#[derive(Debug, Clone)]
pub struct AgentContextRuntimeSemanticLaunchdMonitorSummary {
    pub latest_launchd_activity_at: String,
    pub next_expected_run_after: String,
    pub natural_run_due: bool,
    pub natural_run_overdue: bool,
    pub seconds_overdue: i64,
}

/// The job's reports.
#[derive(Debug, Clone)]
pub struct AgentContextRuntimeSemanticLaunchdReports {
    pub semantic_maintain: AgentContextRuntimeSemanticLaunchdReport,
    pub semantic_ann_prune: AgentContextRuntimeSemanticLaunchdReport,
}

/// One report of the job.
#[derive(Debug, Clone)]
pub struct AgentContextRuntimeSemanticLaunchdReport {
    pub path: String,
}

/// Whether the semantic index is ready.
#[derive(Debug, Clone)]
pub struct AgentContextRuntimeSemanticReadiness {
    pub exists: bool,
    pub path: String,
    pub latest_md_path: String,
    pub status: String,
    pub ready: bool,
    pub next_action: String,
    pub summary: AgentContextRuntimeSemanticReadinessSummary,
}

/// The numbers behind the readiness.
#[derive(Debug, Clone)]
pub struct AgentContextRuntimeSemanticReadinessSummary {
    pub reason: String,
    pub semantic_chunks: usize,
    pub trend_days_observed: usize,
    pub trend_days_remaining: usize,
    pub monitor_snapshots: usize,
    pub next_monitor_due_at: String,
    pub earliest_multi_day_check_after: String,
}

/// The v1 acceptance report.
#[derive(Debug, Clone)]
pub struct AgentContextRuntimeV1Acceptance {
    pub exists: bool,
    pub path: String,
    pub latest_md_path: String,
    pub status: String,
    pub ready: bool,
    pub decision: String,
    pub created_at: String,
    pub next_commands: Vec<String>,
    pub latest_followup_json_path: String,
    pub latest_followup_md_path: String,
    pub followup_plan: AgentContextRuntimeV1FollowupPlan,
    pub followup_check: AgentContextRuntimeV1FollowupCheck,
}

/// When the v1 acceptance can be checked again.
#[derive(Debug, Clone)]
pub struct AgentContextRuntimeV1FollowupPlan {
    pub can_recheck_now: bool,
    pub earliest_recheck_after: String,
    pub next_monitor_due_at: String,
    pub trend_days_remaining: usize,
    pub latest_json_path: String,
    pub latest_md_path: String,
}

/// The gates that the v1 acceptance waits for.
#[derive(Debug, Clone)]
pub struct AgentContextRuntimeV1FollowupCheck {
    pub wait_reason: String,
    pub next_gate_at: String,
    pub seconds_until_next_gate: u64,
    pub next_evidence_gate_reason: String,
    pub next_evidence_gate_at: String,
    pub seconds_until_next_evidence_gate: u64,
    pub acceptance_wait_reason: String,
    pub acceptance_gate_at: String,
    pub seconds_until_acceptance_gate: u64,
}

/// The v1 stage report.
#[derive(Debug, Clone)]
pub struct AgentContextRuntimeV1StageStatus {
    pub exists: bool,
    pub path: String,
    pub latest_md_path: String,
    pub status: String,
    pub ready: bool,
    pub decision: String,
    pub created_at: String,
    pub summary: AgentContextRuntimeV1StageSummary,
    pub next_gates: AgentContextRuntimeV1StageGates,
    pub stages: Vec<AgentContextRuntimeV1StageRow>,
}

/// How many stages are in each state.
#[derive(Debug, Clone)]
pub struct AgentContextRuntimeV1StageSummary {
    pub stages_total: usize,
    pub ok: usize,
    pub waiting_for_time: usize,
    pub warning: usize,
    pub failed: usize,
}

/// The gates that the stages wait for.
#[derive(Debug, Clone)]
pub struct AgentContextRuntimeV1StageGates {
    pub wait_reason: String,
    pub next_gate_at: String,
    pub seconds_until_next_gate: u64,
    pub next_evidence_gate_reason: String,
    pub next_evidence_gate_at: String,
    pub seconds_until_next_evidence_gate: u64,
    pub acceptance_wait_reason: String,
    pub acceptance_gate_at: String,
    pub seconds_until_acceptance_gate: u64,
    pub trend_days_remaining: usize,
}

/// One stage.
#[derive(Debug, Clone)]
pub struct AgentContextRuntimeV1StageRow {
    pub id: String,
    pub title: String,
    pub status: String,
    pub progress: u8,
    pub summary: String,
}

/// The replay trend as the panel shows it: the tool's, with a blank health
/// reported as `not_checked`.
pub open spec fn replay_trend_maps(
    rt: AgentContextRuntimeFeedbackReplayTrend,
    p: AgentContextPanelFeedbackReplayTrend,
) -> bool {
    &&& p.exists == rt.exists
    &&& p.health@ == or_default(rt.health@, "not_checked"@)
    &&& p.reports == rt.summary.reports
    &&& p.cases == rt.summary.cases
    &&& p.latest_expected_top1_rate == rt.summary.latest_expected_top1_rate
    &&& p.trend_rank_improvements == rt.summary.trend_rank_improvements
    &&& p.trend_rank_regressions == rt.summary.trend_rank_regressions
    &&& p.latest_replay_report_path == rt.latest_replay_report_path
    &&& p.latest_trend_report_path == rt.latest_trend_report_path
}

/// The replay trend as the panel shows it.
pub fn runtime_feedback_replay_trend_to_panel(
    runtime: AgentContextRuntimeFeedbackReplayTrend,
) -> (r: AgentContextPanelFeedbackReplayTrend)
    ensures
        replay_trend_maps(runtime, r),
{
    AgentContextPanelFeedbackReplayTrend {
        exists: runtime.exists,
        health: non_empty_or_default(runtime.health.as_str(), "not_checked".to_owned()),
        reports: runtime.summary.reports,
        cases: runtime.summary.cases,
        latest_expected_top1_rate: runtime.summary.latest_expected_top1_rate,
        trend_rank_improvements: runtime.summary.trend_rank_improvements,
        trend_rank_regressions: runtime.summary.trend_rank_regressions,
        latest_replay_report_path: runtime.latest_replay_report_path,
        latest_trend_report_path: runtime.latest_trend_report_path,
    }
}

/// The semantic maintenance job as the panel shows it.
pub open spec fn launchd_maps(
    rt: AgentContextRuntimeSemanticLaunchd,
    p: AgentContextPanelSemanticLaunchd,
) -> bool {
    &&& p.health@ == or_default(rt.health@, "not_checked"@)
    &&& p.installed == rt.installed
    &&& p.plist_path == rt.plist_path
    &&& p.script_path == rt.script_path
    &&& p.latest_maintain_report == rt.reports.semantic_maintain.path
    &&& p.latest_prune_report == rt.reports.semantic_ann_prune.path
    &&& p.monitor_path == rt.monitor.path
    &&& p.latest_launchd_activity_at == rt.monitor.summary.latest_launchd_activity_at
    &&& p.next_expected_run_after == rt.monitor.summary.next_expected_run_after
    &&& p.natural_run_due == rt.monitor.summary.natural_run_due
    &&& p.natural_run_overdue == rt.monitor.summary.natural_run_overdue
    &&& p.seconds_overdue == rt.monitor.summary.seconds_overdue
}

/// The semantic maintenance job as the panel shows it.
pub fn runtime_semantic_launchd_to_panel(
    runtime: AgentContextRuntimeSemanticLaunchd,
) -> (r: AgentContextPanelSemanticLaunchd)
    ensures
        launchd_maps(runtime, r),
{
    AgentContextPanelSemanticLaunchd {
        health: non_empty_or_default(runtime.health.as_str(), "not_checked".to_owned()),
        installed: runtime.installed,
        plist_path: runtime.plist_path,
        script_path: runtime.script_path,
        latest_maintain_report: runtime.reports.semantic_maintain.path,
        latest_prune_report: runtime.reports.semantic_ann_prune.path,
        monitor_path: runtime.monitor.path,
        latest_launchd_activity_at: runtime.monitor.summary.latest_launchd_activity_at,
        next_expected_run_after: runtime.monitor.summary.next_expected_run_after,
        natural_run_due: runtime.monitor.summary.natural_run_due,
        natural_run_overdue: runtime.monitor.summary.natural_run_overdue,
        seconds_overdue: runtime.monitor.summary.seconds_overdue,
    }
}

/// The semantic readiness as the panel shows it.
pub open spec fn readiness_maps(
    rt: AgentContextRuntimeSemanticReadiness,
    p: AgentContextPanelSemanticReadiness,
) -> bool {
    &&& p.exists == rt.exists
    &&& p.status@ == or_default(rt.status@, "not_checked"@)
    &&& p.ready == rt.ready
    &&& p.reason == rt.summary.reason
    &&& p.semantic_chunks == rt.summary.semantic_chunks
    &&& p.trend_days_observed == rt.summary.trend_days_observed
    &&& p.trend_days_remaining == rt.summary.trend_days_remaining
    &&& p.monitor_snapshots == rt.summary.monitor_snapshots
    &&& p.next_monitor_due_at == rt.summary.next_monitor_due_at
    &&& p.earliest_multi_day_check_after == rt.summary.earliest_multi_day_check_after
    &&& p.next_action == rt.next_action
    &&& p.report_path == rt.path
    &&& p.report_markdown_path == rt.latest_md_path
}

/// The semantic readiness as the panel shows it.
pub fn runtime_semantic_readiness_to_panel(
    runtime: AgentContextRuntimeSemanticReadiness,
) -> (r: AgentContextPanelSemanticReadiness)
    ensures
        readiness_maps(runtime, r),
{
    AgentContextPanelSemanticReadiness {
        exists: runtime.exists,
        status: non_empty_or_default(runtime.status.as_str(), "not_checked".to_owned()),
        ready: runtime.ready,
        reason: runtime.summary.reason,
        semantic_chunks: runtime.summary.semantic_chunks,
        trend_days_observed: runtime.summary.trend_days_observed,
        trend_days_remaining: runtime.summary.trend_days_remaining,
        monitor_snapshots: runtime.summary.monitor_snapshots,
        next_monitor_due_at: runtime.summary.next_monitor_due_at,
        earliest_multi_day_check_after: runtime.summary.earliest_multi_day_check_after,
        next_action: runtime.next_action,
        report_path: runtime.path,
        report_markdown_path: runtime.latest_md_path,
    }
}

/// The seconds until the next evidence gate: its own count when it has one,
/// else that of the next gate.
pub open spec fn evidence_gate_seconds(evidence: u64, next: u64) -> u64 {
    if evidence > 0 { evidence } else { next }
}

/// The v1 acceptance as the panel shows it: the follow-up paths of the
/// report, else those of the plan; the evidence gate, else the next gate.
pub open spec fn acceptance_maps(
    rt: AgentContextRuntimeV1Acceptance,
    p: AgentContextPanelV1Acceptance,
) -> bool {
    &&& p.exists == rt.exists
    &&& p.status@ == or_default(rt.status@, "not_checked"@)
    &&& p.ready == rt.ready
    &&& p.decision == rt.decision
    &&& p.created_at == rt.created_at
    &&& p.report_path == rt.path
    &&& p.report_markdown_path == rt.latest_md_path
    &&& p.next_commands == rt.next_commands
    &&& p.followup_json_path@ == or_default(
        rt.latest_followup_json_path@,
        rt.followup_plan.latest_json_path@,
    )
    &&& p.followup_markdown_path@ == or_default(
        rt.latest_followup_md_path@,
        rt.followup_plan.latest_md_path@,
    )
    &&& p.can_recheck_now == rt.followup_plan.can_recheck_now
    &&& p.earliest_recheck_after == rt.followup_plan.earliest_recheck_after
    &&& p.next_monitor_due_at == rt.followup_plan.next_monitor_due_at
    &&& p.trend_days_remaining == rt.followup_plan.trend_days_remaining
    &&& p.wait_reason@ == rt.followup_check.wait_reason@
    &&& p.next_gate_at@ == rt.followup_check.next_gate_at@
    &&& p.seconds_until_next_gate == rt.followup_check.seconds_until_next_gate
    &&& p.next_evidence_gate_reason@ == or_default(
        rt.followup_check.next_evidence_gate_reason@,
        rt.followup_check.wait_reason@,
    )
    &&& p.next_evidence_gate_at@ == or_default(
        rt.followup_check.next_evidence_gate_at@,
        rt.followup_check.next_gate_at@,
    )
    &&& p.seconds_until_next_evidence_gate == evidence_gate_seconds(
        rt.followup_check.seconds_until_next_evidence_gate,
        rt.followup_check.seconds_until_next_gate,
    )
    &&& p.acceptance_wait_reason == rt.followup_check.acceptance_wait_reason
    &&& p.acceptance_gate_at == rt.followup_check.acceptance_gate_at
    &&& p.seconds_until_acceptance_gate == rt.followup_check.seconds_until_acceptance_gate
}

/// The v1 acceptance as the panel shows it.
pub fn runtime_v1_acceptance_to_panel(
    runtime: AgentContextRuntimeV1Acceptance,
) -> (r: AgentContextPanelV1Acceptance)
    ensures
        acceptance_maps(runtime, r),
{
    let followup_json_path = non_empty_or_default(
        runtime.latest_followup_json_path.as_str(),
        runtime.followup_plan.latest_json_path.clone(),
    );
    let followup_markdown_path = non_empty_or_default(
        runtime.latest_followup_md_path.as_str(),
        runtime.followup_plan.latest_md_path.clone(),
    );
    let next_evidence_gate_reason = non_empty_or_default(
        runtime.followup_check.next_evidence_gate_reason.as_str(),
        runtime.followup_check.wait_reason.clone(),
    );
    let next_evidence_gate_at = non_empty_or_default(
        runtime.followup_check.next_evidence_gate_at.as_str(),
        runtime.followup_check.next_gate_at.clone(),
    );
    let seconds_until_next_evidence_gate = if runtime.followup_check.seconds_until_next_evidence_gate
        > 0 {
        runtime.followup_check.seconds_until_next_evidence_gate
    } else {
        runtime.followup_check.seconds_until_next_gate
    };
    AgentContextPanelV1Acceptance {
        exists: runtime.exists,
        status: non_empty_or_default(runtime.status.as_str(), "not_checked".to_owned()),
        ready: runtime.ready,
        decision: runtime.decision,
        created_at: runtime.created_at,
        report_path: runtime.path,
        report_markdown_path: runtime.latest_md_path,
        next_commands: runtime.next_commands,
        followup_json_path,
        followup_markdown_path,
        can_recheck_now: runtime.followup_plan.can_recheck_now,
        earliest_recheck_after: runtime.followup_plan.earliest_recheck_after,
        next_monitor_due_at: runtime.followup_plan.next_monitor_due_at,
        trend_days_remaining: runtime.followup_plan.trend_days_remaining,
        wait_reason: runtime.followup_check.wait_reason,
        next_gate_at: runtime.followup_check.next_gate_at,
        seconds_until_next_gate: runtime.followup_check.seconds_until_next_gate,
        next_evidence_gate_reason,
        next_evidence_gate_at,
        seconds_until_next_evidence_gate,
        acceptance_wait_reason: runtime.followup_check.acceptance_wait_reason,
        acceptance_gate_at: runtime.followup_check.acceptance_gate_at,
        seconds_until_acceptance_gate: runtime.followup_check.seconds_until_acceptance_gate,
    }
}

/// One stage as the panel shows it: the tool's, field for field.
pub open spec fn stage_row_maps(rt: AgentContextRuntimeV1StageRow, p: AgentContextPanelV1StageRow) -> bool {
    &&& p.id == rt.id
    &&& p.title == rt.title
    &&& p.status == rt.status
    &&& p.progress == rt.progress
    &&& p.summary == rt.summary
}

/// The v1 stage report as the panel shows it: the evidence gate, else the
/// next gate; every stage, in order.
pub open spec fn stage_status_maps(
    rt: AgentContextRuntimeV1StageStatus,
    p: AgentContextPanelV1StageStatus,
) -> bool {
    &&& p.exists == rt.exists
    &&& p.status@ == or_default(rt.status@, "not_checked"@)
    &&& p.ready == rt.ready
    &&& p.decision == rt.decision
    &&& p.created_at == rt.created_at
    &&& p.report_path == rt.path
    &&& p.report_markdown_path == rt.latest_md_path
    &&& p.stages_total == rt.summary.stages_total
    &&& p.ok == rt.summary.ok
    &&& p.waiting_for_time == rt.summary.waiting_for_time
    &&& p.warning == rt.summary.warning
    &&& p.failed == rt.summary.failed
    &&& p.wait_reason@ == rt.next_gates.wait_reason@
    &&& p.next_gate_at@ == rt.next_gates.next_gate_at@
    &&& p.seconds_until_next_gate == rt.next_gates.seconds_until_next_gate
    &&& p.next_evidence_gate_reason@ == or_default(
        rt.next_gates.next_evidence_gate_reason@,
        rt.next_gates.wait_reason@,
    )
    &&& p.next_evidence_gate_at@ == or_default(
        rt.next_gates.next_evidence_gate_at@,
        rt.next_gates.next_gate_at@,
    )
    &&& p.seconds_until_next_evidence_gate == evidence_gate_seconds(
        rt.next_gates.seconds_until_next_evidence_gate,
        rt.next_gates.seconds_until_next_gate,
    )
    &&& p.acceptance_wait_reason == rt.next_gates.acceptance_wait_reason
    &&& p.acceptance_gate_at == rt.next_gates.acceptance_gate_at
    &&& p.seconds_until_acceptance_gate == rt.next_gates.seconds_until_acceptance_gate
    &&& p.trend_days_remaining == rt.next_gates.trend_days_remaining
    &&& p.stages@.len() == rt.stages@.len()
    &&& forall|i: int|
        0 <= i < rt.stages@.len() ==> #[trigger] stage_row_maps(rt.stages@[i], p.stages@[i])
}

/// The stages as the panel shows them.
fn stage_rows_to_panel(stages: Vec<AgentContextRuntimeV1StageRow>) -> (r: Vec<AgentContextPanelV1StageRow>)
    ensures
        r@.len() == stages@.len(),
        forall|i: int| 0 <= i < stages@.len() ==> #[trigger] stage_row_maps(stages@[i], r@[i]),
{
    let mut rest = stages;
    let mut rows: Vec<AgentContextPanelV1StageRow> = Vec::new();
    let ghost all = rest@;
    while rest.len() > 0
        invariant
            rows@.len() + rest@.len() == all.len(),
            rest@ == all.subrange(rows@.len() as int, all.len() as int),
            forall|i: int| 0 <= i < rows@.len() ==> #[trigger] stage_row_maps(all[i], rows@[i]),
        decreases rest@.len(),
    {
        let stage = rest.remove(0);
        let ghost k = rows@.len();
        rows.push(
            AgentContextPanelV1StageRow {
                id: stage.id,
                title: stage.title,
                status: stage.status,
                progress: stage.progress,
                summary: stage.summary,
            },
        );
        assert(stage_row_maps(all[k as int], rows@[k as int]));
    }
    rows
}

/// The v1 stage report as the panel shows it.
pub fn runtime_v1_stage_status_to_panel(
    runtime: AgentContextRuntimeV1StageStatus,
) -> (r: AgentContextPanelV1StageStatus)
    ensures
        stage_status_maps(runtime, r),
{
    let next_evidence_gate_reason = non_empty_or_default(
        runtime.next_gates.next_evidence_gate_reason.as_str(),
        runtime.next_gates.wait_reason.clone(),
    );
    let next_evidence_gate_at = non_empty_or_default(
        runtime.next_gates.next_evidence_gate_at.as_str(),
        runtime.next_gates.next_gate_at.clone(),
    );
    let seconds_until_next_evidence_gate = if runtime.next_gates.seconds_until_next_evidence_gate
        > 0 {
        runtime.next_gates.seconds_until_next_evidence_gate
    } else {
        runtime.next_gates.seconds_until_next_gate
    };
    let ghost stages = runtime.stages;
    let rows = stage_rows_to_panel(runtime.stages);
    AgentContextPanelV1StageStatus {
        exists: runtime.exists,
        status: non_empty_or_default(runtime.status.as_str(), "not_checked".to_owned()),
        ready: runtime.ready,
        decision: runtime.decision,
        created_at: runtime.created_at,
        report_path: runtime.path,
        report_markdown_path: runtime.latest_md_path,
        stages_total: runtime.summary.stages_total,
        ok: runtime.summary.ok,
        waiting_for_time: runtime.summary.waiting_for_time,
        warning: runtime.summary.warning,
        failed: runtime.summary.failed,
        wait_reason: runtime.next_gates.wait_reason,
        next_gate_at: runtime.next_gates.next_gate_at,
        seconds_until_next_gate: runtime.next_gates.seconds_until_next_gate,
        next_evidence_gate_reason,
        next_evidence_gate_at,
        seconds_until_next_evidence_gate,
        acceptance_wait_reason: runtime.next_gates.acceptance_wait_reason,
        acceptance_gate_at: runtime.next_gates.acceptance_gate_at,
        seconds_until_acceptance_gate: runtime.next_gates.seconds_until_acceptance_gate,
        trend_days_remaining: runtime.next_gates.trend_days_remaining,
        stages: rows,
    }
}

/// One audit event as the panel shows it: the tool's, field for field.
pub open spec fn event_maps(
    rt: AgentContextRuntimeAccessAuditEvent,
    p: AgentContextAccessAuditEvent,
) -> bool {
    &&& p.created_at == rt.created_at
    &&& p.action == rt.action
    &&& p.decision == rt.decision
    &&& p.identifier == rt.identifier
    &&& p.provider == rt.provider
    &&& p.source_id == rt.source_id
    &&& p.source_chunk_id == rt.source_chunk_id
    &&& p.path == rt.path
    &&& p.reason == rt.reason
}

/// One audit event as the panel shows it.
pub fn runtime_access_event_to_panel(
    event: AgentContextRuntimeAccessAuditEvent,
) -> (r: AgentContextAccessAuditEvent)
    ensures
        event_maps(event, r),
{
    AgentContextAccessAuditEvent {
        created_at: event.created_at,
        action: event.action,
        decision: event.decision,
        identifier: event.identifier,
        provider: event.provider,
        source_id: event.source_id,
        source_chunk_id: event.source_chunk_id,
        path: event.path,
        reason: event.reason,
    }
}

/// No name occurs twice among the decisions, as in the tool's map.
pub open spec fn decisions_unique(decisions: Seq<(String, usize)>) -> bool {
    forall|i: int, j: int|
        0 <= i < j < decisions.len() ==> #[trigger] decisions[i].0@ != #[trigger] decisions[j].0@
}

/// The count of `key` among the decisions: that of its first entry, or 0.
pub open spec fn decision_count(decisions: Seq<(String, usize)>, key: Seq<char>) -> usize
    decreases decisions.len(),
{
    if decisions.len() == 0 {
        0
    } else if decisions[0].0@ == key {
        decisions[0].1
    } else {
        decision_count(decisions.drop_first(), key)
    }
}

fn count_of(decisions: &Vec<(String, usize)>, key: &str) -> (r: usize)
    ensures
        r == decision_count(decisions@, key@),
{
    let n = decisions.len();
    let mut i: usize = 0;
    assert(decisions@.skip(0) =~= decisions@);
    while i < n
        invariant
            n == decisions@.len(),
            0 <= i <= n,
            decision_count(decisions@, key@) == decision_count(decisions@.skip(i as int), key@),
        decreases n - i,
    {
        assert(decisions@.skip(i as int).drop_first() =~= decisions@.skip(i + 1));
        if str_eq(decisions[i].0.as_str(), key) {
            return decisions[i].1;
        }
        i = i + 1;
    }
    assert(decisions@.skip(n as int).len() == 0);
    0
}

/// The access audit as the panel shows it: the counts of the `allowed`,
/// `denied`, `filtered` and `consent_required` decisions (0 for those that
/// are missing) and every event, in order.
pub open spec fn audit_maps(rt: AgentContextRuntimeAccessAudit, p: AgentContextPanelAccessAudit) -> bool {
    &&& p.audit_path == rt.audit_path
    &&& p.events_total == rt.events_total
    &&& p.recent_allowed == decision_count(rt.summary.decision_pairs(), "allowed"@)
    &&& p.recent_denied == decision_count(rt.summary.decision_pairs(), "denied"@)
    &&& p.recent_filtered == decision_count(rt.summary.decision_pairs(), "filtered"@)
    &&& p.recent_consent_required == decision_count(
        rt.summary.decision_pairs(),
        "consent_required"@,
    )
    &&& p.recent_events@.len() == rt.recent_events@.len()
    &&& (forall|i: int|
        0 <= i < rt.recent_events@.len() ==> #[trigger] event_maps(
            rt.recent_events@[i],
            p.recent_events@[i],
        ))
    &&& match rt.summary.denial() {
        Some(e) => p.last_denied matches Some(d) && event_maps(e, d),
        None => p.last_denied is None,
    }
}

fn events_to_panel(events: Vec<AgentContextRuntimeAccessAuditEvent>) -> (r: Vec<AgentContextAccessAuditEvent>)
    ensures
        r@.len() == events@.len(),
        forall|i: int| 0 <= i < events@.len() ==> #[trigger] event_maps(events@[i], r@[i]),
{
    let mut rest = events;
    let mut out: Vec<AgentContextAccessAuditEvent> = Vec::new();
    let ghost all = rest@;
    while rest.len() > 0
        invariant
            out@.len() + rest@.len() == all.len(),
            rest@ == all.subrange(out@.len() as int, all.len() as int),
            forall|i: int| 0 <= i < out@.len() ==> #[trigger] event_maps(all[i], out@[i]),
        decreases rest@.len(),
    {
        let event = rest.remove(0);
        let ghost k = out@.len();
        out.push(runtime_access_event_to_panel(event));
        assert(event_maps(all[k as int], out@[k as int]));
    }
    out
}

/// The access audit as the panel shows it.
pub fn runtime_access_audit_to_panel(
    runtime: AgentContextRuntimeAccessAudit,
) -> (r: AgentContextPanelAccessAudit)
    ensures
        audit_maps(runtime, r),
{
    let recent_allowed = count_of(&runtime.summary.decisions, "allowed");
    let recent_denied = count_of(&runtime.summary.decisions, "denied");
    let recent_filtered = count_of(&runtime.summary.decisions, "filtered");
    let recent_consent_required = count_of(&runtime.summary.decisions, "consent_required");
    let last_denied = match runtime.summary.last_denied {
        Some(e) => Some(runtime_access_event_to_panel(e)),
        None => None,
    };
    AgentContextPanelAccessAudit {
        audit_path: runtime.audit_path,
        events_total: runtime.events_total,
        recent_allowed,
        recent_denied,
        recent_filtered,
        recent_consent_required,
        recent_events: events_to_panel(runtime.recent_events),
        last_denied,
    }
}

/// The text of an optional `String`, empty when there is none.
pub open spec fn text_or_empty(o: Option<String>) -> Seq<char> {
    match o {
        Some(s) => s@,
        None => seq![],
    }
}

/// An optional `String`, or an empty one.
pub fn unwrap_or_empty(o: Option<String>) -> (r: String)
    ensures
        r@ == text_or_empty(o),
{
    match o {
        Some(s) => s,
        None => String::new(),
    }
}

/// The status that the panel shows for the tool's panel: that of its last
/// preflight, else `not_checked` when Auto Context is off, else `ok`.
pub open spec fn panel_last_status(rt: AgentContextRuntimePanelStatus) -> Seq<char> {
    match rt.preflight {
        Some(AgentContextRuntimePreflight { status: Some(s), .. }) => s@,
        _ => if !rt.auto_context {
            "not_checked"@
        } else {
            "ok"@
        },
    }
}

/// The number of sources of the tool's last preflight, when it gives one.
pub open spec fn preflight_sources(rt: AgentContextRuntimePanelStatus) -> Option<usize> {
    match rt.preflight {
        Some(p) => p.sources_included,
        None => None,
    }
}

/// The message that the panel shows for the tool's panel in `status`.
pub open spec fn runtime_message(rt: AgentContextRuntimePanelStatus, status: Seq<char>) -> Seq<char> {
    if status == "ok"@ {
        match preflight_sources(rt) {
            Some(n) => "已生成上下文包，包含 "@ + decimal(n as nat) + " 条来源。"@,
            None => "Agent Context 面板状态已刷新。"@,
        }
    } else if !rt.auto_context {
        "Auto Context 已关闭，只刷新面板状态。"@
    } else {
        "Agent Context 未生成新的上下文包。"@
    }
}

/// The message for the tool's panel in `status`.
pub fn runtime_status_message(runtime: &AgentContextRuntimePanelStatus, status: &str) -> (r: String)
    ensures
        r@ == runtime_message(*runtime, status@),
{
    if str_eq(status, "ok") {
        let sources = match &runtime.preflight {
            Some(p) => p.sources_included,
            None => None,
        };
        return match sources {
            Some(n) => {
                let count = u64_to_decimal(n as u64);
                concat3("已生成上下文包，包含 ", count.as_str(), " 条来源。")
            },
            None => "Agent Context 面板状态已刷新。".to_owned(),
        };
    }
    if !runtime.auto_context {
        return "Auto Context 已关闭，只刷新面板状态。".to_owned();
    }
    "Agent Context 未生成新的上下文包。".to_owned()
}

/// The status that the panel shows after the tool refreshed its panel: the
/// tool's status, message, goal and files, its scope and mode or those of the
/// configuration, its reports as the panel shows them, no session and no model
/// input, stamped `now`.
pub open spec fn runtime_status_maps(
    rt: AgentContextRuntimePanelStatus,
    c: AgentContextPanelConfig,
    now: u128,
    p: AgentContextPanelStatus,
) -> bool {
    &&& runtime_fields_map(rt, c, now, p)
    &&& p.last_session_id@.len() == 0
    &&& p.last_model_input_md@.len() == 0
}

/// Each field of the shown status but the session and the model input, as
/// the tool's panel status gives it (see `runtime_status_maps`).
pub open spec fn runtime_fields_map(
    rt: AgentContextRuntimePanelStatus,
    c: AgentContextPanelConfig,
    now: u128,
    p: AgentContextPanelStatus,
) -> bool {
    &&& p.last_status@ == panel_last_status(rt)
    &&& p.last_message@ == runtime_message(rt, panel_last_status(rt))
    &&& p.last_goal@ == text_or_empty(rt.goal)
    &&& p.last_scope@ == or_default(rt.scope@, c.scope@)
    &&& p.last_mode@ == or_default(rt.mode@, c.mode@)
    &&& p.last_generated_pack@ == text_or_empty(rt.last_generated_pack)
    &&& p.last_sources_jsonl@ == text_or_empty(rt.last_sources_jsonl)
    &&& p.last_manifest_json@ == text_or_empty(rt.last_manifest_json)
    &&& p.last_resolution_plan_json@ == text_or_empty(rt.last_resolution_plan_json)
    &&& p.last_codex_preflight_md@ == text_or_empty(rt.last_codex_preflight_md)
    &&& p.last_runtime_task_md@ == text_or_empty(rt.last_runtime_task_md)
    &&& p.last_review_file@ == text_or_empty(rt.last_review_file)
    &&& p.last_review_client_html@ == text_or_empty(rt.last_review_client_html)
    &&& p.last_review_launch_md@ == text_or_empty(rt.last_review_launch_md)
    &&& p.last_generated_at_ms == now
    &&& audit_maps(rt.access_audit, p.access_audit)
    &&& launchd_maps(rt.semantic_launchd, p.semantic_launchd)
    &&& readiness_maps(rt.semantic_readiness, p.semantic_readiness)
    &&& acceptance_maps(rt.v1_acceptance, p.v1_acceptance)
    &&& stage_status_maps(rt.v1_stage_status, p.v1_stage_status)
    &&& replay_trend_maps(rt.feedback.replay_trend, p.feedback_replay_trend)
}

/// The status that the panel shows after the tool refreshed its panel.
pub fn runtime_status_to_panel_status(
    runtime: AgentContextRuntimePanelStatus,
    config: &AgentContextPanelConfig,
    now: u128,
) -> (r: AgentContextPanelStatus)
    ensures
        runtime_status_maps(runtime, *config, now, r),
{
    let preflight_status = match &runtime.preflight {
        Some(p) => match &p.status {
            Some(s) => Some(s.clone()),
            None => None,
        },
        None => None,
    };
    let last_status = match preflight_status {
        Some(s) => s,
        None => if !runtime.auto_context {
            "not_checked".to_owned()
        } else {
            "ok".to_owned()
        },
    };
    let last_message = runtime_status_message(&runtime, last_status.as_str());
    AgentContextPanelStatus {
        last_status,
        last_message,
        last_session_id: String::new(),
        last_goal: unwrap_or_empty(runtime.goal),
        last_scope: non_empty_or_default(runtime.scope.as_str(), config.scope.clone()),
        last_mode: non_empty_or_default(runtime.mode.as_str(), config.mode.clone()),
        last_generated_pack: unwrap_or_empty(runtime.last_generated_pack),
        last_sources_jsonl: unwrap_or_empty(runtime.last_sources_jsonl),
        last_manifest_json: unwrap_or_empty(runtime.last_manifest_json),
        last_resolution_plan_json: unwrap_or_empty(runtime.last_resolution_plan_json),
        last_codex_preflight_md: unwrap_or_empty(runtime.last_codex_preflight_md),
        last_model_input_md: String::new(),
        last_runtime_task_md: unwrap_or_empty(runtime.last_runtime_task_md),
        last_review_file: unwrap_or_empty(runtime.last_review_file),
        last_review_client_html: unwrap_or_empty(runtime.last_review_client_html),
        last_review_launch_md: unwrap_or_empty(runtime.last_review_launch_md),
        last_generated_at_ms: now,
        access_audit: runtime_access_audit_to_panel(runtime.access_audit),
        semantic_launchd: runtime_semantic_launchd_to_panel(runtime.semantic_launchd),
        semantic_readiness: runtime_semantic_readiness_to_panel(runtime.semantic_readiness),
        v1_acceptance: runtime_v1_acceptance_to_panel(runtime.v1_acceptance),
        v1_stage_status: runtime_v1_stage_status_to_panel(runtime.v1_stage_status),
        feedback_replay_trend: runtime_feedback_replay_trend_to_panel(runtime.feedback.replay_trend),
    }
}

} // verus!
