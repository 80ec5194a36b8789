use codex_plus_core::commands::CommandOutcome;
use codex_plus_core::config::AgentContextPanelConfig;
use codex_plus_core::error::AgentContextError;
use codex_plus_core::runtime::{
    AgentContextRuntimeAccessAudit, AgentContextRuntimeAccessAuditSummary,
    AgentContextRuntimeFeedback, AgentContextRuntimeFeedbackReplayTrend,
    AgentContextRuntimeFeedbackReplayTrendSummary, AgentContextRuntimePanelStatus,
    AgentContextRuntimeSemanticLaunchd, AgentContextRuntimeSemanticLaunchdMonitor,
    AgentContextRuntimeSemanticLaunchdMonitorSummary, AgentContextRuntimeSemanticLaunchdReport,
    AgentContextRuntimeSemanticLaunchdReports, AgentContextRuntimeSemanticReadiness,
    AgentContextRuntimeSemanticReadinessSummary, AgentContextRuntimeV1Acceptance,
    AgentContextRuntimeV1FollowupCheck, AgentContextRuntimeV1FollowupPlan,
    AgentContextRuntimeV1StageGates, AgentContextRuntimeV1StageStatus,
    AgentContextRuntimeV1StageSummary,
};
use codex_plus_core::state::{
    fallback_agent_context_panel_state, feedback_entry, last_known_goal,
    launch_prewarm_plan, launch_prewarm_spawn_failed, load_agent_context_panel_state,
    panel_refresh_command, run_agent_context_panel, run_agent_context_v1_followup,
    saved_panel_config, AgentContextFeedbackEntry, AgentContextV1FollowupResult, PanelPaths,
    PanelRefresh,
};
use codex_plus_core::status::AgentContextPanelStatus;

fn test_config(auto_context: bool) -> AgentContextPanelConfig {
    AgentContextPanelConfig {
        auto_context,
        scope: "all".to_string(),
        mode: "fast".to_string(),
        agent_context_root: "/tmp/agent-context-system".to_string(),
        agent_context_bin: "/tmp/agent-context".to_string(),
    }
}

fn paths() -> PanelPaths {
    PanelPaths {
        config_path: "/tmp/p/config.json".to_string(),
        status_path: "/tmp/p/status.json".to_string(),
        feedback_path: "/tmp/p/feedback.jsonl".to_string(),
    }
}

fn outcome(success: bool, stderr: &str) -> CommandOutcome {
    CommandOutcome {
        success,
        stdout: String::new(),
        stderr: stderr.to_string(),
        status: "exit status: 1".to_string(),
    }
}

fn empty_runtime(goal: Option<&str>, auto_context: bool) -> AgentContextRuntimePanelStatus {
    AgentContextRuntimePanelStatus {
        auto_context,
        goal: goal.map(|g| g.to_string()),
        scope: String::new(),
        mode: " deep ".to_string(),
        preflight: None,
        last_generated_pack: None,
        last_sources_jsonl: None,
        last_manifest_json: None,
        last_resolution_plan_json: None,
        last_codex_preflight_md: None,
        last_runtime_task_md: None,
        last_review_file: None,
        last_review_client_html: None,
        last_review_launch_md: None,
        access_audit: AgentContextRuntimeAccessAudit {
            audit_path: String::new(),
            events_total: 0,
            recent_events: vec![],
            summary: AgentContextRuntimeAccessAuditSummary::new(vec![], None),
        },
        semantic_launchd: AgentContextRuntimeSemanticLaunchd {
            health: String::new(),
            installed: false,
            plist_path: String::new(),
            script_path: String::new(),
            reports: AgentContextRuntimeSemanticLaunchdReports {
                semantic_maintain: AgentContextRuntimeSemanticLaunchdReport { path: String::new() },
                semantic_ann_prune: AgentContextRuntimeSemanticLaunchdReport { path: String::new() },
            },
            monitor: AgentContextRuntimeSemanticLaunchdMonitor {
                path: String::new(),
                summary: AgentContextRuntimeSemanticLaunchdMonitorSummary {
                    latest_launchd_activity_at: String::new(),
                    next_expected_run_after: String::new(),
                    natural_run_due: false,
                    natural_run_overdue: false,
                    seconds_overdue: 0,
                },
            },
        },
        semantic_readiness: AgentContextRuntimeSemanticReadiness {
            exists: false,
            path: String::new(),
            latest_md_path: String::new(),
            status: String::new(),
            ready: false,
            next_action: String::new(),
            summary: AgentContextRuntimeSemanticReadinessSummary {
                reason: String::new(),
                semantic_chunks: 0,
                trend_days_observed: 0,
                trend_days_remaining: 0,
                monitor_snapshots: 0,
                next_monitor_due_at: String::new(),
                earliest_multi_day_check_after: String::new(),
            },
        },
        v1_acceptance: AgentContextRuntimeV1Acceptance {
            exists: false,
            path: String::new(),
            latest_md_path: String::new(),
            status: String::new(),
            ready: false,
            decision: String::new(),
            created_at: String::new(),
            next_commands: vec![],
            latest_followup_json_path: String::new(),
            latest_followup_md_path: String::new(),
            followup_plan: AgentContextRuntimeV1FollowupPlan {
                can_recheck_now: false,
                earliest_recheck_after: String::new(),
                next_monitor_due_at: String::new(),
                trend_days_remaining: 0,
                latest_json_path: String::new(),
                latest_md_path: String::new(),
            },
            followup_check: AgentContextRuntimeV1FollowupCheck {
                wait_reason: String::new(),
                next_gate_at: String::new(),
                seconds_until_next_gate: 0,
                next_evidence_gate_reason: String::new(),
                next_evidence_gate_at: String::new(),
                seconds_until_next_evidence_gate: 0,
                acceptance_wait_reason: String::new(),
                acceptance_gate_at: String::new(),
                seconds_until_acceptance_gate: 0,
            },
        },
        v1_stage_status: AgentContextRuntimeV1StageStatus {
            exists: false,
            path: String::new(),
            latest_md_path: String::new(),
            status: String::new(),
            ready: false,
            decision: String::new(),
            created_at: String::new(),
            summary: AgentContextRuntimeV1StageSummary {
                stages_total: 0,
                ok: 0,
                waiting_for_time: 0,
                warning: 0,
                failed: 0,
            },
            next_gates: AgentContextRuntimeV1StageGates {
                wait_reason: String::new(),
                next_gate_at: String::new(),
                seconds_until_next_gate: 0,
                next_evidence_gate_reason: String::new(),
                next_evidence_gate_at: String::new(),
                seconds_until_next_evidence_gate: 0,
                acceptance_wait_reason: String::new(),
                acceptance_gate_at: String::new(),
                seconds_until_acceptance_gate: 0,
                trend_days_remaining: 0,
            },
            stages: vec![],
        },
        feedback: AgentContextRuntimeFeedback {
            replay_trend: AgentContextRuntimeFeedbackReplayTrend {
                exists: false,
                health: String::new(),
                latest_replay_report_path: String::new(),
                latest_trend_report_path: String::new(),
                summary: AgentContextRuntimeFeedbackReplayTrendSummary {
                    reports: 0,
                    cases: 0,
                    latest_expected_top1_rate: String::new(),
                    trend_rank_improvements: 0,
                    trend_rank_regressions: 0,
                },
            },
        },
    }
}

fn previous_with_session() -> AgentContextPanelStatus {
    AgentContextPanelStatus {
        last_session_id: "s-9".to_string(),
        last_model_input_md: "/tmp/pack/model_input.md".to_string(),
        last_goal: "earlier goal".to_string(),
        ..AgentContextPanelStatus::default()
    }
}

#[test]
fn panel_state_loads_config_and_status() {
    let state = load_agent_context_panel_state(paths(), Ok(test_config(true)), None)
        .ok()
        .expect("state");
    assert_eq!(state.config_path, "/tmp/p/config.json");
    assert_eq!(state.feedback_path, "/tmp/p/feedback.jsonl");
    assert_eq!(state.config, test_config(true));
    assert_eq!(state.status.last_status, "not_checked");

    let failed = load_agent_context_panel_state(
        paths(),
        Err(AgentContextError::Message("unreadable".to_string())),
        None,
    );
    match failed {
        Err(e) => assert_eq!(e.to_text(), "unreadable"),
        Ok(_) => panic!("the configuration error is given"),
    }
}

#[test]
fn fallback_state_has_default_config_and_initial_status() {
    let state = fallback_agent_context_panel_state(paths());
    assert_eq!(state.status_path, "/tmp/p/status.json");
    assert_eq!(state.config.scope, "all");
    assert_eq!(state.config.mode, "fast");
    assert!(state.config.agent_context_bin.ends_with("agent-context-system/agent-context"));
    assert_eq!(state.status, AgentContextPanelStatus::default());
}

#[test]
fn saved_config_is_normalized() {
    let config = saved_panel_config(Some(AgentContextPanelConfig {
        auto_context: false,
        scope: " downloads ".to_string(),
        mode: "turbo".to_string(),
        agent_context_root: " /data/ac ".to_string(),
        agent_context_bin: "/data/ac/bin".to_string(),
    }));
    assert_eq!(config.scope, "downloads");
    assert_eq!(config.mode, "fast");
    assert_eq!(config.agent_context_root, "/data/ac");
    assert!(!config.auto_context);
    assert_eq!(saved_panel_config(None).scope, "all");
}

#[test]
fn panel_refresh_command_trims_goal() {
    let (goal, args) = panel_refresh_command(&test_config(true), "  ranking  ");
    assert_eq!(goal, "ranking");
    assert_eq!(
        args,
        vec![
            "panel", "--out", "/tmp/agent-context-system", "--source-scope", "all", "--mode", "fast",
            "--limit", "8", "--goal", "ranking",
        ]
    );
    let (_, args) = panel_refresh_command(&test_config(true), "   ");
    assert_eq!(args.last().map(|s| s.as_str()), Some("--no-auto-context"));
}

#[test]
fn panel_refresh_keeps_session_and_model_input() {
    let r = run_agent_context_panel(
        paths(),
        test_config(true),
        " ranking ",
        &outcome(true, ""),
        Ok(empty_runtime(Some("ranking"), true)),
        previous_with_session(),
        77,
    );
    match r {
        PanelRefresh::Refreshed(state) => {
            assert_eq!(state.status.last_session_id, "s-9");
            assert_eq!(state.status.last_model_input_md, "/tmp/pack/model_input.md");
            assert_eq!(state.status.last_status, "ok");
            assert_eq!(state.status.last_message, "Agent Context 面板状态已刷新。");
            assert_eq!(state.status.last_goal, "ranking");
            assert_eq!(state.status.last_scope, "all");
            assert_eq!(state.status.last_mode, "deep");
            assert_eq!(state.status.last_generated_at_ms, 77);
        }
        _ => panic!("expected a refreshed panel"),
    }
}

#[test]
fn panel_refresh_failure_is_saved_with_goal() {
    let r = run_agent_context_panel(
        paths(),
        test_config(true),
        " ranking ",
        &outcome(false, " tool crashed "),
        Ok(empty_runtime(None, true)),
        previous_with_session(),
        5,
    );
    match r {
        PanelRefresh::Failed { save, error } => {
            assert_eq!(save.last_status, "failed");
            assert_eq!(save.last_message, "tool crashed");
            assert_eq!(save.last_goal, "ranking");
            assert_eq!(save.last_session_id, "s-9");
            assert_eq!(error.to_text(), "tool crashed");
        }
        _ => panic!("expected a failure"),
    }
    let unread = run_agent_context_panel(
        paths(),
        test_config(true),
        "g",
        &outcome(true, ""),
        Err(AgentContextError::Context { context: "failed to read x".to_string(), cause: "missing".to_string() }),
        previous_with_session(),
        5,
    );
    assert!(matches!(unread, PanelRefresh::NotRead(_)));
}

#[test]
fn panel_status_without_auto_context_is_not_checked() {
    let r = run_agent_context_panel(
        paths(),
        test_config(false),
        "",
        &outcome(true, ""),
        Ok(empty_runtime(None, false)),
        AgentContextPanelStatus::default(),
        1,
    );
    match r {
        PanelRefresh::Refreshed(state) => {
            assert_eq!(state.status.last_status, "not_checked");
            assert_eq!(state.status.last_message, "Auto Context 已关闭，只刷新面板状态。");
        }
        _ => panic!("expected a refreshed panel"),
    }
}

#[test]
fn v1_followup_saves_status_only_when_read() {
    let followup = AgentContextV1FollowupResult {
        status: "waiting_for_time".to_string(),
        ..AgentContextV1FollowupResult::default()
    };
    let r = run_agent_context_v1_followup(
        &test_config(true),
        &outcome(true, ""),
        Ok(followup.clone()),
        Some(empty_runtime(None, true)),
        3,
    );
    assert_eq!(r.result.ok(), Some(followup.clone()));
    let save = r.save.expect("saved");
    assert_eq!(save.last_session_id, "");
    assert_eq!(save.last_generated_at_ms, 3);

    let r = run_agent_context_v1_followup(&test_config(true), &outcome(true, ""), Ok(followup), None, 3);
    assert!(r.save.is_none());

    let r = run_agent_context_v1_followup(
        &test_config(true),
        &outcome(false, "refresh failed"),
        Ok(AgentContextV1FollowupResult::default()),
        None,
        3,
    );
    assert!(r.save.is_none());
    match r.result {
        Err(e) => assert_eq!(e.to_text(), "refresh failed"),
        Ok(_) => panic!("a failed refresh is an error"),
    }
}

#[test]
fn last_known_goal_prefers_saved_status() {
    let status = Some(AgentContextPanelStatus {
        last_goal: "  saved goal ".to_string(),
        ..AgentContextPanelStatus::default()
    });
    let runtime = Some(empty_runtime(Some(" runtime goal "), true));
    assert_eq!(last_known_goal(&status, &runtime), "saved goal");
    let blank = Some(AgentContextPanelStatus::default());
    assert_eq!(last_known_goal(&blank, &runtime), "runtime goal");
    assert_eq!(last_known_goal(&None, &None), "");
}

#[test]
fn launch_prewarm_covers_each_outcome() {
    let previous = previous_with_session();
    let failed = launch_prewarm_plan(
        Err(AgentContextError::Context { context: "failed to parse c".to_string(), cause: "x".to_string() }),
        "goal",
        true,
        previous.clone(),
        1,
    );
    assert_eq!(failed.prewarm.status, "failed");
    assert_eq!(failed.prewarm.message, "Agent Context 配置读取失败：failed to parse c");
    assert!(failed.save.is_none());

    let off = launch_prewarm_plan(Ok(test_config(false)), "goal", true, previous.clone(), 1);
    assert_eq!(off.prewarm.status, "skipped");
    assert_eq!(off.prewarm.goal, "");
    assert_eq!(off.save.as_ref().map(|s| s.last_goal.clone()), Some("earlier goal".to_string()));
    assert!(off.refresh_goal.is_none());

    let no_goal = launch_prewarm_plan(Ok(test_config(true)), "", true, previous.clone(), 1);
    assert_eq!(no_goal.prewarm.message, "没有可复用的任务目标，Codex++ 启动时未预热上下文包。");

    let missing = launch_prewarm_plan(Ok(test_config(true)), "goal", false, previous.clone(), 1);
    assert_eq!(missing.prewarm.status, "failed");
    assert_eq!(missing.prewarm.message, "agent-context 不存在：/tmp/agent-context");
    assert_eq!(missing.save.as_ref().map(|s| s.last_goal.clone()), Some("goal".to_string()));

    let accepted = launch_prewarm_plan(Ok(test_config(true)), "goal", true, previous.clone(), 1);
    assert_eq!(accepted.prewarm.status, "accepted");
    assert_eq!(accepted.refresh_goal, Some("goal".to_string()));
    assert_eq!(accepted.save.as_ref().map(|s| s.last_status.clone()), Some("accepted".to_string()));

    let spawn = launch_prewarm_spawn_failed(&test_config(true), "goal", "no threads", previous, 2);
    assert_eq!(spawn.prewarm.message, "Agent Context 预热线程启动失败：no threads");
    assert_eq!(spawn.save.map(|s| s.last_status), Some("failed".to_string()));
}

#[test]
fn feedback_entry_fills_time_and_status_path() {
    let entry = feedback_entry(
        AgentContextFeedbackEntry {
            winner: " agent ".to_string(),
            reason: " better ".to_string(),
            created_at_ms: 0,
            status_path: "  ".to_string(),
        },
        99,
        "/tmp/p/status.json",
    );
    assert_eq!(entry.winner, "agent");
    assert_eq!(entry.reason, "better");
    assert_eq!(entry.created_at_ms, 99);
    assert_eq!(entry.status_path, "/tmp/p/status.json");

    let kept = feedback_entry(
        AgentContextFeedbackEntry {
            winner: "x".to_string(),
            reason: String::new(),
            created_at_ms: 5,
            status_path: " /a/b.json ".to_string(),
        },
        99,
        "/tmp/p/status.json",
    );
    assert_eq!(kept.created_at_ms, 5);
    assert_eq!(kept.status_path, "/a/b.json");
}
