use codex_plus_core::access::{
    access_consent_output_to_state, access_policy_command_args, access_policy_output_to_state,
    AgentContextAccessConsentCommandOutput, AgentContextAccessConsentGrant,
    AgentContextAccessPolicy, AgentContextAccessPolicyCommandOutput, AgentContextAccessPolicyPatch,
};
use codex_plus_core::bridge::{
    answer_preflight_to_bridge_value, execution_preflight_to_bridge_value,
    execution_review_to_bridge_value,
};
use codex_plus_core::commands::{access_consent_command_args, v1_refresh_command_args};
use codex_plus_core::config::{default_auto_context, normalize_config, AgentContextPanelConfig};
use codex_plus_core::json::{bool_at, string_at, u64_at, JsonEntry, JsonNumber, JsonValue};
use codex_plus_core::preflight::{
    agent_preflight_to_task_preflight, count_jsonl_rows, runtime_preflight_to_task_preflight,
    AgentContextRuntimeAgentPreflight, AgentContextRuntimeAgentPreflightFiles,
    AgentContextRuntimeCodexPreflight, AgentContextRuntimeTaskAgentPreflight,
    AgentContextRuntimeTaskReviewLaunch,
};
use codex_plus_core::runtime::{
    runtime_access_audit_to_panel, runtime_status_to_panel_status, AgentContextRuntimeAccessAudit,
    AgentContextRuntimeAccessAuditEvent, AgentContextRuntimeAccessAuditSummary,
    AgentContextRuntimeFeedback, AgentContextRuntimeFeedbackReplayTrend,
    AgentContextRuntimeFeedbackReplayTrendSummary, AgentContextRuntimePanelStatus,
    AgentContextRuntimePreflight, AgentContextRuntimeSemanticLaunchd,
    AgentContextRuntimeSemanticLaunchdMonitor, AgentContextRuntimeSemanticLaunchdMonitorSummary,
    AgentContextRuntimeSemanticLaunchdReport, AgentContextRuntimeSemanticLaunchdReports,
    AgentContextRuntimeSemanticReadiness, AgentContextRuntimeSemanticReadinessSummary,
    AgentContextRuntimeV1Acceptance, AgentContextRuntimeV1FollowupCheck,
    AgentContextRuntimeV1FollowupPlan, AgentContextRuntimeV1StageGates,
    AgentContextRuntimeV1StageRow, AgentContextRuntimeV1StageStatus,
    AgentContextRuntimeV1StageSummary,
};
use codex_plus_core::state::v1_followup_part;
use codex_plus_core::status::AgentContextPanelStatus;

fn test_config() -> AgentContextPanelConfig {
    AgentContextPanelConfig {
        auto_context: true,
        scope: "all".to_string(),
        mode: "fast".to_string(),
        agent_context_root: "/tmp/agent-context-system".to_string(),
        agent_context_bin: "/tmp/agent-context".to_string(),
    }
}

fn text(s: &str) -> JsonValue {
    JsonValue::Str(s.to_string())
}

fn number(n: u64) -> JsonValue {
    JsonValue::Number(JsonNumber::PosInt(n))
}

fn object(entries: Vec<(&str, JsonValue)>) -> JsonValue {
    JsonValue::Object(
        entries
            .into_iter()
            .map(|(key, value)| JsonEntry { key: key.to_string(), value })
            .collect(),
    )
}

fn has_pair(args: &[String], a: &str, b: &str) -> bool {
    args.windows(2).any(|pair| pair[0] == a && pair[1] == b)
}

#[test]
fn default_config_uses_smart_auto_context() {
    let config = AgentContextPanelConfig::default();

    assert_eq!(config.auto_context, default_auto_context());
    assert_eq!(config.scope, "all");
    assert_eq!(config.mode, "fast");
}

#[test]
fn normalize_config_clamps_unknown_scope_and_mode() {
    let config = normalize_config(AgentContextPanelConfig {
        auto_context: true,
        scope: "unknown".to_string(),
        mode: "slow".to_string(),
        agent_context_root: "  ".to_string(),
        agent_context_bin: "  ".to_string(),
    });

    assert!(config.auto_context);
    assert_eq!(config.scope, "all");
    assert_eq!(config.mode, "fast");
    assert!(!config.agent_context_root.trim().is_empty());
    assert!(!config.agent_context_bin.trim().is_empty());
}

#[test]
fn normalize_config_accepts_all_runtime_scopes() {
    for scope in [
        "downloads",
        "gitProjects",
        "codexSessions",
        "agentSessions",
        "workflowDocs",
        "all",
    ] {
        let config = normalize_config(AgentContextPanelConfig {
            auto_context: true,
            scope: scope.to_string(),
            mode: "fast".to_string(),
            agent_context_root: "/tmp/agent-context-system".to_string(),
            agent_context_bin: "/tmp/agent-context".to_string(),
        });
        assert_eq!(config.scope, scope);
    }
}

#[test]
fn access_policy_command_args_include_patch_values() {
    let config = test_config();
    let patch = AgentContextAccessPolicyPatch {
        allow_providers: vec!["custom_provider".to_string()],
        remove_allow_providers: vec![],
        deny_providers: vec!["claude_session".to_string()],
        remove_deny_providers: vec!["old_provider".to_string()],
        deny_path_patterns: vec!["*/Secrets/*".to_string()],
        remove_deny_path_patterns: vec!["*.tmp".to_string()],
        require_consent_providers: vec!["codex_session".to_string()],
        remove_require_consent_providers: vec!["legacy_session".to_string()],
        require_consent_path_patterns: vec!["*/PrivateNotes/*".to_string()],
        remove_require_consent_path_patterns: vec!["*/OldNotes/*".to_string()],
        audit_max_bytes: Some(1234),
        audit_max_rotated_files: Some(4),
    };

    let args = access_policy_command_args(&config, &patch);

    assert_eq!(args[0], "access-policy");
    assert!(has_pair(&args, "--out", "/tmp/agent-context-system"));
    assert!(has_pair(&args, "--allow-provider", "custom_provider"));
    assert!(has_pair(&args, "--deny-provider", "claude_session"));
    assert!(has_pair(&args, "--remove-deny-provider", "old_provider"));
    assert!(has_pair(&args, "--deny-path", "*/Secrets/*"));
    assert!(has_pair(&args, "--remove-deny-path", "*.tmp"));
    assert!(has_pair(&args, "--require-consent-provider", "codex_session"));
    assert!(has_pair(&args, "--remove-require-consent-provider", "legacy_session"));
    assert!(has_pair(&args, "--require-consent-path", "*/PrivateNotes/*"));
    assert!(has_pair(&args, "--remove-require-consent-path", "*/OldNotes/*"));
    assert!(has_pair(&args, "--audit-max-bytes", "1234"));
    assert!(has_pair(&args, "--audit-max-rotated-files", "4"));
}

#[test]
fn access_policy_output_maps_snake_case_contract() {
    let config = test_config();
    let output = AgentContextAccessPolicyCommandOutput {
        policy_path: "/tmp/access_policy.json".to_string(),
        updated: true,
        changes: vec!["add:deny_path_patterns:*/Secrets/*".to_string()],
        policy: AgentContextAccessPolicy {
            allow_providers: vec!["git_project".to_string()],
            deny_providers: vec!["claude_session".to_string()],
            deny_path_patterns: vec!["*/Secrets/*".to_string()],
            require_consent_providers: vec!["codex_session".to_string()],
            require_consent_path_patterns: vec!["*/PrivateNotes/*".to_string()],
            audit_max_bytes: 1234,
            audit_max_rotated_files: 4,
        },
    };

    let state = access_policy_output_to_state(output, &config);

    assert_eq!(state.policy_path, "/tmp/access_policy.json");
    assert!(state.updated);
    assert_eq!(state.changes.len(), 1);
    assert_eq!(state.policy.allow_providers, vec!["git_project"]);
    assert_eq!(state.policy.deny_providers, vec!["claude_session"]);
    assert_eq!(state.policy.deny_path_patterns, vec!["*/Secrets/*"]);
    assert_eq!(state.policy.require_consent_providers, vec!["codex_session"]);
    assert_eq!(state.policy.require_consent_path_patterns, vec!["*/PrivateNotes/*"]);
    assert_eq!(state.policy.audit_max_bytes, 1234);
    assert_eq!(state.policy.audit_max_rotated_files, 4);
}

#[test]
fn access_consent_command_args_include_identifier_and_reason() {
    let config = test_config();

    let args = access_consent_command_args(&config, " project:sensitive ", " approved from panel ");

    assert_eq!(args[0], "access-consent");
    assert!(has_pair(&args, "--out", "/tmp/agent-context-system"));
    assert!(has_pair(&args, "--identifier", "project:sensitive"));
    assert!(has_pair(&args, "--reason", "approved from panel"));
}

#[test]
fn access_consent_output_maps_snake_case_contract() {
    let config = test_config();
    let output = AgentContextAccessConsentCommandOutput {
        consent_path: "/tmp/access_consent.json".to_string(),
        written: true,
        grants_total: 2,
        grant: AgentContextAccessConsentGrant {
            created_at: "2026-06-16T00:00:00+08:00".to_string(),
            key: "source_id:project:sensitive".to_string(),
            identifier: "project:sensitive".to_string(),
            reason: "approved from panel".to_string(),
            provider: "git_project".to_string(),
            source_id: "project:sensitive".to_string(),
            source_chunk_id: String::new(),
            path: "/tmp/project".to_string(),
            relative_path: "project".to_string(),
        },
    };

    let state = access_consent_output_to_state(output, &config);

    assert_eq!(state.consent_path, "/tmp/access_consent.json");
    assert!(state.written);
    assert_eq!(state.grants_total, 2);
    assert_eq!(state.grant.identifier, "project:sensitive");
    assert_eq!(state.grant.provider, "git_project");
    assert_eq!(state.grant.source_id, "project:sensitive");
}

#[test]
fn v1_refresh_command_args_use_unified_refresh_entrypoint() {
    let config = test_config();

    let args = v1_refresh_command_args(&config);

    assert_eq!(args[0], "v1-refresh");
    assert!(has_pair(&args, "--out", "/tmp/agent-context-system"));
    assert!(args.iter().any(|arg| arg == "--with-manager-feedback-smoke"));
}

#[test]
fn v1_followup_output_maps_snake_case_contract() {
    let value = object(vec![
        ("status", text("waiting_for_time")),
        ("action", text("wait")),
        ("ready", JsonValue::Bool(false)),
        ("can_recheck_now", JsonValue::Bool(false)),
        ("earliest_recheck_after", text("2026-06-17T00:00:00+08:00")),
        ("next_monitor_due_at", text("2026-06-16T12:41:23+08:00")),
        ("trend_days_remaining", number(1)),
        ("wait_reason", text("monitor_not_due")),
        ("next_gate_at", text("2026-06-16T12:41:23+08:00")),
        ("seconds_until_next_gate", number(1000)),
        ("next_evidence_gate_reason", text("monitor_not_due")),
        ("next_evidence_gate_at", text("2026-06-16T12:41:23+08:00")),
        ("seconds_until_next_evidence_gate", number(1000)),
        ("acceptance_wait_reason", text("multi_day_not_due")),
        ("acceptance_gate_at", text("2026-06-17T00:00:00+08:00")),
        ("seconds_until_acceptance_gate", number(40920)),
        ("followup_plan_latest_md_path", text("/tmp/reports/v1-followup-latest.md")),
        ("acceptance_latest_md_path", text("/tmp/reports/v1-acceptance-latest.md")),
        ("latest_md_path", text("/tmp/reports/v1-followup-check-latest.md")),
        ("latest_json_path", text("/tmp/reports/v1-followup-check-latest.json")),
        ("next_command", text("agent-context v1-acceptance --refresh-evidence")),
    ]);

    let (output, context) = v1_followup_part(&value);

    assert_eq!(context, "failed to parse agent-context v1-followup output");
    assert_eq!(string_at(&output, "status", ""), "waiting_for_time");
    assert_eq!(string_at(&output, "action", ""), "wait");
    assert_eq!(bool_at(&output, "can_recheck_now"), Some(false));
    assert_eq!(u64_at(&output, "trend_days_remaining"), Some(1));
    assert_eq!(string_at(&output, "wait_reason", ""), "monitor_not_due");
    assert_eq!(u64_at(&output, "seconds_until_next_gate"), Some(1000));
    assert_eq!(string_at(&output, "next_evidence_gate_reason", ""), "monitor_not_due");
    assert_eq!(string_at(&output, "next_evidence_gate_at", ""), "2026-06-16T12:41:23+08:00");
    assert_eq!(u64_at(&output, "seconds_until_next_evidence_gate"), Some(1000));
    assert_eq!(string_at(&output, "acceptance_wait_reason", ""), "multi_day_not_due");
    assert_eq!(string_at(&output, "acceptance_gate_at", ""), "2026-06-17T00:00:00+08:00");
    assert!(string_at(&output, "latest_md_path", "").ends_with("v1-followup-check-latest.md"));
}

#[test]
fn v1_refresh_output_maps_nested_followup_check_contract() {
    let value = object(vec![
        ("status", text("waiting_for_time")),
        ("ready", JsonValue::Bool(false)),
        (
            "semantic_evidence",
            object(vec![("refreshed", JsonValue::Bool(false)), ("reason", text("monitor_not_due"))]),
        ),
        (
            "followup_check",
            object(vec![
                ("status", text("waiting_for_time")),
                ("action", text("wait")),
                ("ready", JsonValue::Bool(false)),
                ("can_recheck_now", JsonValue::Bool(false)),
                ("wait_reason", text("monitor_not_due")),
                ("next_gate_at", text("2026-06-16T15:41:57+08:00")),
                ("seconds_until_next_gate", number(1200)),
                ("acceptance_wait_reason", text("multi_day_not_due")),
                ("acceptance_gate_at", text("2026-06-17T00:00:00+08:00")),
                ("latest_md_path", text("/tmp/reports/v1-followup-check-latest.md")),
                ("latest_json_path", text("/tmp/reports/v1-followup-check-latest.json")),
                ("next_command", text("agent-context v1-refresh --out /tmp/agent-context-system")),
            ]),
        ),
    ]);

    let (output, context) = v1_followup_part(&value);

    assert_eq!(context, "failed to parse agent-context v1-refresh followup_check output");
    assert_eq!(string_at(&output, "status", ""), "waiting_for_time");
    assert_eq!(string_at(&output, "action", ""), "wait");
    assert_eq!(string_at(&output, "wait_reason", ""), "monitor_not_due");
    assert_eq!(string_at(&output, "next_gate_at", ""), "2026-06-16T15:41:57+08:00");
    assert!(matches!(
        output.get("seconds_until_next_gate"),
        Some(JsonValue::Number(JsonNumber::PosInt(1200)))
    ));
    assert_eq!(string_at(&output, "acceptance_gate_at", ""), "2026-06-17T00:00:00+08:00");
    assert!(string_at(&output, "next_command", "").starts_with("agent-context v1-refresh"));
}

fn audit_event() -> AgentContextRuntimeAccessAuditEvent {
    AgentContextRuntimeAccessAuditEvent {
        created_at: "2026-06-16T00:00:00Z".to_string(),
        action: "mcp_read_provider".to_string(),
        decision: "denied".to_string(),
        identifier: "project:secret".to_string(),
        provider: "git_project".to_string(),
        source_id: "project:secret".to_string(),
        source_chunk_id: String::new(),
        path: "/tmp/secret".to_string(),
        reason: "path_denied:secret".to_string(),
    }
}

#[test]
fn runtime_status_maps_generated_pack_paths() {
    let config = AgentContextPanelConfig::default();
    let status = runtime_status_to_panel_status(
        AgentContextRuntimePanelStatus {
            auto_context: true,
            goal: Some("研究本地推荐系统".to_string()),
            scope: "gitProjects".to_string(),
            mode: "fast".to_string(),
            preflight: Some(AgentContextRuntimePreflight {
                status: Some("ok".to_string()),
                sources_included: Some(8),
            }),
            last_generated_pack: Some("/tmp/context.md".to_string()),
            last_sources_jsonl: Some("/tmp/sources.jsonl".to_string()),
            last_manifest_json: Some("/tmp/pack_index.json".to_string()),
            last_resolution_plan_json: Some("/tmp/resolution_plan.json".to_string()),
            last_codex_preflight_md: Some("/tmp/codex_preflight.md".to_string()),
            last_runtime_task_md: Some("/tmp/runtime_task.md".to_string()),
            last_review_file: Some("/tmp/refined_prompt.md".to_string()),
            last_review_client_html: Some("/tmp/doctor-runtime-review-client.html".to_string()),
            last_review_launch_md: Some("/tmp/review_launch.md".to_string()),
            access_audit: AgentContextRuntimeAccessAudit {
                audit_path: "/tmp/access_audit.jsonl".to_string(),
                events_total: 3,
                recent_events: vec![audit_event()],
                summary: AgentContextRuntimeAccessAuditSummary::new(
                    vec![("consent_required".to_string(), 1), ("denied".to_string(), 1)],
                    Some(audit_event()),
                ),
            },
            semantic_launchd: AgentContextRuntimeSemanticLaunchd {
                health: "not_installed".to_string(),
                installed: false,
                plist_path: "/tmp/LaunchAgents/com.gengrf.agent-context.semantic-maintenance.plist"
                    .to_string(),
                script_path: "/tmp/out/scripts/com.gengrf.agent-context.semantic-maintenance.sh"
                    .to_string(),
                reports: AgentContextRuntimeSemanticLaunchdReports {
                    semantic_maintain: AgentContextRuntimeSemanticLaunchdReport {
                        path: "/tmp/reports/semantic-maintain.json".to_string(),
                    },
                    semantic_ann_prune: AgentContextRuntimeSemanticLaunchdReport {
                        path: "/tmp/reports/semantic-ann-prune.json".to_string(),
                    },
                },
                monitor: AgentContextRuntimeSemanticLaunchdMonitor {
                    path: "/tmp/reports/semantic-launchd-monitor-latest.json".to_string(),
                    summary: AgentContextRuntimeSemanticLaunchdMonitorSummary {
                        latest_launchd_activity_at: "2026-06-16T05:39:52+08:00".to_string(),
                        next_expected_run_after: "2026-06-16T06:39:52+08:00".to_string(),
                        natural_run_due: false,
                        natural_run_overdue: false,
                        seconds_overdue: 0,
                    },
                },
            },
            semantic_readiness: AgentContextRuntimeSemanticReadiness {
                exists: true,
                path: "/tmp/reports/semantic-readiness-latest.json".to_string(),
                latest_md_path: "/tmp/reports/semantic-readiness-latest.md".to_string(),
                status: "waiting_for_time".to_string(),
                ready: false,
                next_action: "Need 1 more observed day.".to_string(),
                summary: AgentContextRuntimeSemanticReadinessSummary {
                    reason: "healthy_but_short_window".to_string(),
                    semantic_chunks: 666,
                    trend_days_observed: 1,
                    trend_days_remaining: 1,
                    monitor_snapshots: 56,
                    next_monitor_due_at: "2026-06-16T11:40:58+08:00".to_string(),
                    earliest_multi_day_check_after: "2026-06-17T00:00:00+08:00".to_string(),
                },
            },
            v1_acceptance: AgentContextRuntimeV1Acceptance {
                exists: true,
                path: "/tmp/reports/v1-acceptance-latest.json".to_string(),
                latest_md_path: "/tmp/reports/v1-acceptance-latest.md".to_string(),
                latest_followup_json_path: "/tmp/reports/v1-followup-latest.json".to_string(),
                latest_followup_md_path: "/tmp/reports/v1-followup-latest.md".to_string(),
                status: "waiting_for_time".to_string(),
                ready: false,
                decision:
                    "Implementation evidence is present, but final v1 acceptance is time-gated."
                        .to_string(),
                created_at: "2026-06-16T11:12:11+08:00".to_string(),
                followup_plan: AgentContextRuntimeV1FollowupPlan {
                    can_recheck_now: false,
                    earliest_recheck_after: "2026-06-17T00:00:00+08:00".to_string(),
                    next_monitor_due_at: "2026-06-16T12:41:23+08:00".to_string(),
                    trend_days_remaining: 1,
                    latest_json_path: "/tmp/reports/v1-followup-latest.json".to_string(),
                    latest_md_path: "/tmp/reports/v1-followup-latest.md".to_string(),
                },
                followup_check: AgentContextRuntimeV1FollowupCheck {
                    wait_reason: "monitor_not_due".to_string(),
                    next_gate_at: "2026-06-16T12:41:23+08:00".to_string(),
                    seconds_until_next_gate: 1000,
                    next_evidence_gate_reason: "monitor_not_due".to_string(),
                    next_evidence_gate_at: "2026-06-16T12:41:23+08:00".to_string(),
                    seconds_until_next_evidence_gate: 1000,
                    acceptance_wait_reason: "multi_day_not_due".to_string(),
                    acceptance_gate_at: "2026-06-17T00:00:00+08:00".to_string(),
                    seconds_until_acceptance_gate: 40920,
                },
                next_commands: vec![
                    "agent-context semantic-readiness --out /tmp/out".to_string(),
                    "agent-context v1-acceptance --out /tmp/out".to_string(),
                ],
            },
            v1_stage_status: AgentContextRuntimeV1StageStatus {
                exists: true,
                path: "/tmp/reports/v1-stage-status-latest.json".to_string(),
                latest_md_path: "/tmp/reports/v1-stage-status-latest.md".to_string(),
                status: "waiting_for_time".to_string(),
                ready: false,
                decision: "Implementation evidence is present, but final gate is time-gated."
                    .to_string(),
                created_at: "2026-06-16T13:05:25+08:00".to_string(),
                summary: AgentContextRuntimeV1StageSummary {
                    stages_total: 10,
                    ok: 8,
                    waiting_for_time: 2,
                    warning: 0,
                    failed: 0,
                },
                next_gates: AgentContextRuntimeV1StageGates {
                    wait_reason: "monitor_not_due".to_string(),
                    next_gate_at: "2026-06-16T13:41:35+08:00".to_string(),
                    seconds_until_next_gate: 1000,
                    next_evidence_gate_reason: "monitor_not_due".to_string(),
                    next_evidence_gate_at: "2026-06-16T13:41:35+08:00".to_string(),
                    seconds_until_next_evidence_gate: 1000,
                    acceptance_wait_reason: "multi_day_not_due".to_string(),
                    acceptance_gate_at: "2026-06-17T00:00:00+08:00".to_string(),
                    seconds_until_acceptance_gate: 40920,
                    trend_days_remaining: 1,
                },
                stages: vec![
                    AgentContextRuntimeV1StageRow {
                        id: "downloads_ingestion".to_string(),
                        title: "Downloads ingestion".to_string(),
                        status: "ok".to_string(),
                        progress: 100,
                        summary: "997 documents".to_string(),
                    },
                    AgentContextRuntimeV1StageRow {
                        id: "semantic_background".to_string(),
                        title: "Background semantic index".to_string(),
                        status: "waiting_for_time".to_string(),
                        progress: 90,
                        summary: "days=1/2".to_string(),
                    },
                ],
            },
            feedback: AgentContextRuntimeFeedback {
                replay_trend: AgentContextRuntimeFeedbackReplayTrend {
                    exists: true,
                    health: "ok".to_string(),
                    latest_replay_report_path: "/tmp/reports/feedback_replay.json".to_string(),
                    latest_trend_report_path: "/tmp/reports/feedback_replay_trend.json".to_string(),
                    summary: AgentContextRuntimeFeedbackReplayTrendSummary {
                        reports: 10,
                        cases: 10,
                        latest_expected_top1_rate: "1.0".to_string(),
                        trend_rank_improvements: 2,
                        trend_rank_regressions: 0,
                    },
                },
            },
        },
        &config,
        1_000,
    );

    assert_eq!(status.last_status, "ok");
    assert_eq!(status.last_message, "已生成上下文包，包含 8 条来源。");
    assert_eq!(status.last_goal, "研究本地推荐系统");
    assert_eq!(status.last_scope, "gitProjects");
    assert_eq!(status.last_generated_pack, "/tmp/context.md");
    assert_eq!(status.last_resolution_plan_json, "/tmp/resolution_plan.json");
    assert_eq!(status.last_codex_preflight_md, "/tmp/codex_preflight.md");
    assert_eq!(status.access_audit.audit_path, "/tmp/access_audit.jsonl");
    assert_eq!(status.access_audit.events_total, 3);
    assert_eq!(status.access_audit.recent_denied, 1);
    assert_eq!(status.access_audit.recent_consent_required, 1);
    assert_eq!(status.access_audit.recent_events[0].identifier, "project:secret");
    assert_eq!(status.access_audit.last_denied.as_ref().unwrap().reason, "path_denied:secret");
    assert_eq!(status.semantic_launchd.health, "not_installed");
    assert_eq!(status.semantic_launchd.latest_maintain_report, "/tmp/reports/semantic-maintain.json");
    assert_eq!(
        status.semantic_launchd.monitor_path,
        "/tmp/reports/semantic-launchd-monitor-latest.json"
    );
    assert_eq!(status.semantic_launchd.next_expected_run_after, "2026-06-16T06:39:52+08:00");
    assert!(!status.semantic_launchd.natural_run_overdue);
    assert_eq!(status.semantic_readiness.status, "waiting_for_time");
    assert!(!status.semantic_readiness.ready);
    assert_eq!(status.semantic_readiness.reason, "healthy_but_short_window");
    assert_eq!(status.semantic_readiness.semantic_chunks, 666);
    assert_eq!(status.semantic_readiness.trend_days_remaining, 1);
    assert_eq!(
        status.semantic_readiness.report_path,
        "/tmp/reports/semantic-readiness-latest.json"
    );
    assert_eq!(status.v1_acceptance.status, "waiting_for_time");
    assert!(!status.v1_acceptance.ready);
    assert!(status.v1_acceptance.decision.contains("time-gated"));
    assert_eq!(status.v1_acceptance.report_path, "/tmp/reports/v1-acceptance-latest.json");
    assert_eq!(status.v1_acceptance.followup_markdown_path, "/tmp/reports/v1-followup-latest.md");
    assert!(!status.v1_acceptance.can_recheck_now);
    assert_eq!(status.v1_acceptance.earliest_recheck_after, "2026-06-17T00:00:00+08:00");
    assert_eq!(status.v1_acceptance.trend_days_remaining, 1);
    assert_eq!(status.v1_acceptance.wait_reason, "monitor_not_due");
    assert_eq!(status.v1_acceptance.next_gate_at, "2026-06-16T12:41:23+08:00");
    assert_eq!(status.v1_acceptance.seconds_until_next_gate, 1000);
    assert_eq!(status.v1_acceptance.next_evidence_gate_reason, "monitor_not_due");
    assert_eq!(status.v1_acceptance.next_evidence_gate_at, "2026-06-16T12:41:23+08:00");
    assert_eq!(status.v1_acceptance.seconds_until_next_evidence_gate, 1000);
    assert_eq!(status.v1_acceptance.acceptance_wait_reason, "multi_day_not_due");
    assert_eq!(status.v1_acceptance.acceptance_gate_at, "2026-06-17T00:00:00+08:00");
    assert_eq!(status.v1_acceptance.seconds_until_acceptance_gate, 40920);
    assert_eq!(status.v1_acceptance.next_commands.len(), 2);
    assert_eq!(status.v1_stage_status.status, "waiting_for_time");
    assert!(!status.v1_stage_status.ready);
    assert_eq!(
        status.v1_stage_status.report_markdown_path,
        "/tmp/reports/v1-stage-status-latest.md"
    );
    assert_eq!(status.v1_stage_status.ok, 8);
    assert_eq!(status.v1_stage_status.waiting_for_time, 2);
    assert_eq!(status.v1_stage_status.wait_reason, "monitor_not_due");
    assert_eq!(status.v1_stage_status.seconds_until_next_gate, 1000);
    assert_eq!(status.v1_stage_status.next_evidence_gate_reason, "monitor_not_due");
    assert_eq!(status.v1_stage_status.next_evidence_gate_at, "2026-06-16T13:41:35+08:00");
    assert_eq!(status.v1_stage_status.seconds_until_next_evidence_gate, 1000);
    assert_eq!(status.v1_stage_status.acceptance_gate_at, "2026-06-17T00:00:00+08:00");
    assert_eq!(status.v1_stage_status.seconds_until_acceptance_gate, 40920);
    assert_eq!(status.v1_stage_status.stages.len(), 2);
    assert_eq!(status.v1_stage_status.stages[0].id, "downloads_ingestion");
    assert!(status.feedback_replay_trend.exists);
    assert_eq!(status.feedback_replay_trend.health, "ok");
    assert_eq!(status.feedback_replay_trend.reports, 10);
    assert_eq!(status.feedback_replay_trend.latest_expected_top1_rate, "1.0");
    assert_eq!(status.feedback_replay_trend.trend_rank_improvements, 2);
    assert_eq!(status.feedback_replay_trend.trend_rank_regressions, 0);
}

#[test]
fn runtime_preflight_maps_task_preflight_contract() {
    let config = AgentContextPanelConfig {
        auto_context: true,
        scope: "all".to_string(),
        mode: "deep".to_string(),
        agent_context_root: "/tmp/agent-context-system".to_string(),
        agent_context_bin: "/tmp/agent-context".to_string(),
    };
    let preflight = runtime_preflight_to_task_preflight(
        AgentContextRuntimeCodexPreflight {
            status: "ok".to_string(),
            error: String::new(),
            goal: "本地推荐系统".to_string(),
            source_scope: "gitProjects".to_string(),
            mode: "deep".to_string(),
            sources_included: 8,
            preflight_markdown_path: "/tmp/codex_preflight.md".to_string(),
            context_md_path: Some("/tmp/context.md".to_string()),
            sources_jsonl_path: Some("/tmp/sources.jsonl".to_string()),
            manifest_json_path: Some("/tmp/pack_index.json".to_string()),
            resolution_plan_json_path: Some("/tmp/resolution_plan.json".to_string()),
            ..AgentContextRuntimeCodexPreflight::default()
        },
        &config,
        "ignored",
    );

    assert_eq!(preflight.status, "ok");
    assert_eq!(preflight.message, "任务预检已生成，包含 8 条来源。");
    assert_eq!(preflight.scope, "gitProjects");
    assert_eq!(preflight.mode, "deep");
    assert_eq!(preflight.codex_preflight_md, "/tmp/codex_preflight.md");
    assert_eq!(preflight.context_md, "/tmp/context.md");
}

#[test]
fn runtime_task_maps_first_review_gate_contract() {
    let config = test_config();
    let preflight = runtime_preflight_to_task_preflight(
        AgentContextRuntimeCodexPreflight {
            status: "awaiting_context_generation".to_string(),
            goal: "开源往事如何在番茄爆火".to_string(),
            session_id: "runtime-task-test".to_string(),
            stage: "clarify_review".to_string(),
            review_file: "/tmp/refined_prompt.md".to_string(),
            runtime_task_md_path: "/tmp/runtime_task.md".to_string(),
            runtime_task_json_path: "/tmp/runtime_task.json".to_string(),
            agent_preflight: Some(AgentContextRuntimeTaskAgentPreflight {
                agent_preflight_md_path: "/tmp/agent_preflight.md".to_string(),
            }),
            review_launch: Some(AgentContextRuntimeTaskReviewLaunch {
                review_launch_md_path: "/tmp/review_launch.md".to_string(),
            }),
            client_html_path: "/tmp/doctor-runtime-review-client.html".to_string(),
            review_server_url: "http://127.0.0.1:8765/".to_string(),
            start_server_command: "doctor runtime-review-server --session-id runtime-task-test"
                .to_string(),
            open_client_command: "open /tmp/doctor-runtime-review-client.html".to_string(),
            ..AgentContextRuntimeCodexPreflight::default()
        },
        &config,
        "ignored",
    );

    assert_eq!(preflight.status, "ok");
    assert!(preflight.message.contains("第一阶段审查"));
    assert_eq!(preflight.sources_included, 0);
    assert_eq!(preflight.context_md, "");
    assert_eq!(preflight.review_file, "/tmp/refined_prompt.md");
    assert_eq!(preflight.runtime_task_md, "/tmp/runtime_task.md");
    assert_eq!(preflight.review_client_html, "/tmp/doctor-runtime-review-client.html");
}

#[test]
fn agent_preflight_context_maps_model_input_review_contract() {
    let config = test_config();
    let previous = AgentContextPanelStatus {
        last_session_id: "runtime-task-test".to_string(),
        last_goal: "审查模型输入".to_string(),
        ..AgentContextPanelStatus::default()
    };
    let sources = count_jsonl_rows("/tmp/pack/sources.jsonl", None);
    let preflight = agent_preflight_to_task_preflight(
        AgentContextRuntimeAgentPreflight {
            status: "awaiting_context_review".to_string(),
            next_message: "Review model_input.md before any model consumes it.".to_string(),
            session_id: "runtime-task-test".to_string(),
            source_scope: "all".to_string(),
            mode: "fast".to_string(),
            review_file: "/tmp/pack/model_input.md".to_string(),
            agent_preflight_md_path: "/tmp/runtime/agent_preflight.md".to_string(),
            files: AgentContextRuntimeAgentPreflightFiles {
                context_md_path: Some("/tmp/pack/context.md".to_string()),
                sources_jsonl_path: Some("/tmp/pack/sources.jsonl".to_string()),
                model_input_md_path: Some("/tmp/pack/model_input.md".to_string()),
                runtime_task_md_path: Some("/tmp/runtime/runtime_task.md".to_string()),
                runtime_task_json_path: Some("/tmp/runtime/runtime_task.json".to_string()),
                runtime_review_client_html_path: Some(
                    "/tmp/runtime/doctor-runtime-review-client.html".to_string(),
                ),
                runtime_review_launch_md_path: Some("/tmp/runtime/review_launch.md".to_string()),
            },
        },
        &config,
        &previous,
        sources,
    );

    assert_eq!(preflight.status, "awaiting_context_review");
    assert_eq!(preflight.goal, "审查模型输入");
    assert_eq!(preflight.model_input_md, "/tmp/pack/model_input.md");
    assert_eq!(preflight.review_file, "/tmp/pack/model_input.md");
    assert_eq!(preflight.context_md, "/tmp/pack/context.md");
    assert_eq!(preflight.agent_preflight_md, "/tmp/runtime/agent_preflight.md");
    assert!(preflight.message.contains("model_input.md"));
}

#[test]
fn agent_preflight_answer_maps_answer_review_bridge_contract() {
    let bridge = answer_preflight_to_bridge_value(&object(vec![
        ("status", text("awaiting_answer_output")),
        (
            "next_message",
            text("Use answer_packet.md with a model or local answer command, then review the answer."),
        ),
        ("session_id", text("runtime-task-test")),
        ("review_file", text("/tmp/pack/answer_packet.md")),
        ("agent_preflight_md_path", text("/tmp/runtime/agent_preflight.md")),
        (
            "client_contract",
            object(vec![
                ("safe_to_send_model", JsonValue::Bool(true)),
                ("approved_model_input_md_path", text("/tmp/pack/model_input.md")),
                ("agent_handoff_md_path", text("/tmp/pack/agent_handoff.md")),
                ("answer_packet_md_path", text("/tmp/pack/answer_packet.md")),
                ("answer_md_path", text("/tmp/pack/answer.md")),
            ]),
        ),
        (
            "files",
            object(vec![
                ("context_md_path", text("/tmp/pack/context.md")),
                ("sources_jsonl_path", text("/tmp/pack/sources.jsonl")),
            ]),
        ),
        (
            "next_commands",
            JsonValue::Array(vec![text("agent-context answer-review --action approve")]),
        ),
    ]));

    assert_eq!(bridge.status, "awaiting_answer_output");
    assert_eq!(bridge.session_id, "runtime-task-test");
    assert!(bridge.safe_to_send_model);
    assert_eq!(bridge.approved_model_input_md, "/tmp/pack/model_input.md");
    assert_eq!(bridge.agent_handoff_md, "/tmp/pack/agent_handoff.md");
    assert_eq!(bridge.answer_packet_md, "/tmp/pack/answer_packet.md");
    assert_eq!(bridge.answer_md, "/tmp/pack/answer.md");
    assert_eq!(bridge.context_md, "/tmp/pack/context.md");
    assert_eq!(bridge.sources_jsonl, "/tmp/pack/sources.jsonl");
    assert_eq!(bridge.review_file, "/tmp/pack/answer_packet.md");
    assert_eq!(bridge.agent_preflight_md, "/tmp/runtime/agent_preflight.md");
    assert!(bridge.message.contains("answer_packet.md"));
}

#[test]
fn agent_preflight_execution_maps_execution_review_bridge_contract() {
    let bridge = execution_preflight_to_bridge_value(
        &object(vec![
            ("status", text("awaiting_execution")),
            ("next_message", text("Prepare an explicit local command for user review.")),
            ("session_id", text("runtime-task-test")),
            ("review_file", text("/tmp/pack/execution_report.md")),
            ("agent_preflight_md_path", text("/tmp/runtime/agent_preflight.md")),
            (
                "client_contract",
                object(vec![
                    ("safe_to_send_model", JsonValue::Bool(false)),
                    ("execution_report_md_path", text("/tmp/pack/execution_report.md")),
                    ("execution_artifact_index_md_path", text("/tmp/pack/execution_artifacts.md")),
                ]),
            ),
            (
                "files",
                object(vec![
                    ("answer_md_path", text("/tmp/pack/answer.md")),
                    ("execution_review_json_path", text("/tmp/pack/execution_review.json")),
                    (
                        "execution_artifact_manifest_jsonl_path",
                        text("/tmp/pack/execution_artifacts.jsonl"),
                    ),
                    ("artifacts_dir", text("/tmp/pack/artifacts")),
                ]),
            ),
            (
                "next_commands",
                JsonValue::Array(vec![text("agent-context execution-review --action run")]),
            ),
        ]),
        "/tmp/codex-plus-answer.md".to_string(),
    );

    assert_eq!(bridge.status, "awaiting_execution");
    assert_eq!(bridge.session_id, "runtime-task-test");
    assert!(!bridge.safe_to_send_model);
    assert_eq!(bridge.recorded_answer_file, "/tmp/codex-plus-answer.md");
    assert_eq!(bridge.answer_md, "/tmp/pack/answer.md");
    assert_eq!(bridge.execution_review_json, "/tmp/pack/execution_review.json");
    assert_eq!(bridge.execution_report_md, "/tmp/pack/execution_report.md");
    assert_eq!(bridge.execution_artifacts_jsonl, "/tmp/pack/execution_artifacts.jsonl");
    assert_eq!(bridge.execution_artifact_index_md, "/tmp/pack/execution_artifacts.md");
    assert_eq!(bridge.artifacts_dir, "/tmp/pack/artifacts");
    assert_eq!(bridge.review_file, "/tmp/pack/execution_report.md");
    assert_eq!(bridge.agent_preflight_md, "/tmp/runtime/agent_preflight.md");
}

#[test]
fn execution_review_maps_command_run_bridge_contract() {
    let bridge = execution_review_to_bridge_value(
        &object(vec![
            ("status", text("executed")),
            ("session_id", text("runtime-task-test")),
            ("last_run_id", text("run-test")),
            ("last_returncode", number(0)),
            ("last_timed_out", JsonValue::Bool(false)),
            ("execution_review_json_path", text("/tmp/pack/execution_review.json")),
            ("execution_report_md_path", text("/tmp/pack/execution_report.md")),
            ("artifact_manifest_jsonl_path", text("/tmp/pack/execution_artifacts.jsonl")),
            ("artifact_index_md_path", text("/tmp/pack/execution_artifacts.md")),
            ("artifacts_dir", text("/tmp/pack/artifacts")),
            ("artifact_count", number(3)),
            (
                "commands",
                JsonValue::Array(vec![object(vec![
                    ("run_id", text("run-test")),
                    ("command", text("python -c \"print('runtime artifact')\"")),
                    ("cwd", text("/tmp")),
                    ("returncode", number(0)),
                    ("timed_out", JsonValue::Bool(false)),
                    ("stdout_path", text("/tmp/pack/artifacts/run-test.stdout.txt")),
                    ("stderr_path", text("/tmp/pack/artifacts/run-test.stderr.txt")),
                    ("result_json_path", text("/tmp/pack/artifacts/run-test.json")),
                ])]),
            ),
        ]),
        "Doctor ran the approved explicit local command and captured artifacts.",
    );

    assert_eq!(bridge.status, "executed");
    assert_eq!(bridge.session_id, "runtime-task-test");
    assert_eq!(bridge.command, "python -c \"print('runtime artifact')\"");
    assert_eq!(bridge.last_run_id, "run-test");
    assert!(matches!(bridge.last_returncode, JsonValue::Number(JsonNumber::PosInt(0))));
    assert!(!bridge.last_timed_out);
    assert_eq!(bridge.stdout_path, "/tmp/pack/artifacts/run-test.stdout.txt");
    assert_eq!(bridge.stderr_path, "/tmp/pack/artifacts/run-test.stderr.txt");
    assert_eq!(bridge.result_json_path, "/tmp/pack/artifacts/run-test.json");
    assert_eq!(bridge.execution_artifact_index_md, "/tmp/pack/execution_artifacts.md");
    assert_eq!(bridge.artifact_count, 3);
    assert!(!bridge.complete);
}

#[test]
fn access_audit_counts_read_the_decisions_as_a_map() {
    let audit = AgentContextRuntimeAccessAudit {
        audit_path: "/tmp/access_audit.jsonl".to_string(),
        events_total: 0,
        recent_events: vec![],
        summary: AgentContextRuntimeAccessAuditSummary::new(
            vec![
                ("allowed".to_string(), 1),
                ("denied".to_string(), 2),
                ("allowed".to_string(), 5),
            ],
            None,
        ),
    };
    let panel = runtime_access_audit_to_panel(audit);
    assert_eq!(panel.recent_allowed, 5);
    assert_eq!(panel.recent_denied, 2);
    assert_eq!(panel.recent_filtered, 0);
    assert_eq!(panel.recent_consent_required, 0);
    assert!(panel.last_denied.is_none());
}
