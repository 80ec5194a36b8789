use codex_plus_core::bridge::{answer_review_bridge_path, sanitize_filename_component};
use codex_plus_core::commands::{command_failure_message, CommandOutcome};
use codex_plus_core::config::{executable_name_for, normalize_config_for, AgentContextPanelConfig};
use codex_plus_core::error::AgentContextError;
use codex_plus_core::flows::{
    run_agent_context_answer_review_prepare, run_agent_context_execution_command,
    run_agent_context_execution_review_decision, run_agent_context_execution_review_prepare,
    run_agent_context_model_input_review, run_agent_context_task_preflight, task_preflight_finish,
    session_step, ExecutionPrepareStart, SessionCommands, SessionStart, SessionStep,
    TaskPreflightStart,
};
use codex_plus_core::preflight::AgentContextRuntimeCodexPreflight;
use codex_plus_core::status::AgentContextPanelStatus;
use codex_plus_core::text::join_path_str;

fn test_config(auto_context: bool) -> AgentContextPanelConfig {
    AgentContextPanelConfig {
        auto_context,
        scope: "gitProjects".to_string(),
        mode: "deep".to_string(),
        agent_context_root: "/tmp/agent-context-system".to_string(),
        agent_context_bin: "/tmp/agent-context".to_string(),
    }
}

fn with_session(session: &str) -> AgentContextPanelStatus {
    AgentContextPanelStatus {
        last_session_id: session.to_string(),
        last_goal: "old goal".to_string(),
        last_model_input_md: "/tmp/pack/model_input.md".to_string(),
        ..AgentContextPanelStatus::default()
    }
}

fn message_of(error: &AgentContextError) -> String {
    error.to_text()
}

fn outcome(success: bool, stdout: &str, stderr: &str, status: &str) -> CommandOutcome {
    CommandOutcome {
        success,
        stdout: stdout.to_string(),
        stderr: stderr.to_string(),
        status: status.to_string(),
    }
}

#[test]
fn failure_message_prefers_error_output_then_output_then_status() {
    assert_eq!(command_failure_message(&outcome(false, " out ", "  err \n", "1")), "err");
    assert_eq!(command_failure_message(&outcome(false, " out ", "  \n", "1")), "out");
    assert_eq!(
        command_failure_message(&outcome(false, "", " ", "exit status: 2")),
        "agent-context exited with status exit status: 2"
    );
}

#[test]
fn task_preflight_refuses_blank_goal() {
    let result = run_agent_context_task_preflight(&test_config(true), "   ", AgentContextPanelStatus::default(), 5);
    match result {
        Err(error) => assert_eq!(message_of(&error), "任务目标不能为空。"),
        Ok(_) => panic!("a blank goal must be refused"),
    }
}

#[test]
fn task_preflight_without_auto_context_is_disabled_and_saved() {
    let previous = with_session("s-1");
    let result = run_agent_context_task_preflight(&test_config(false), "  find notes ", previous, 42);
    match result {
        Ok(TaskPreflightStart::Disabled { preflight, save }) => {
            assert_eq!(preflight.status, "disabled");
            assert_eq!(preflight.goal, "find notes");
            assert_eq!(preflight.scope, "gitProjects");
            assert_eq!(save.last_status, "disabled");
            assert_eq!(save.last_goal, "find notes");
            assert_eq!(save.last_session_id, "s-1");
            assert_eq!(save.last_generated_at_ms, 42);
        }
        _ => panic!("expected a disabled preflight"),
    }
}

#[test]
fn task_preflight_runs_runtime_task_with_trimmed_goal() {
    let result = run_agent_context_task_preflight(&test_config(true), "  find notes ", AgentContextPanelStatus::default(), 1);
    match result {
        Ok(TaskPreflightStart::Run { goal, args }) => {
            assert_eq!(goal, "find notes");
            assert_eq!(
                args,
                vec!["runtime-task", "--goal", "find notes", "--out", "/tmp/agent-context-system", "--port", "8765"]
            );
        }
        _ => panic!("expected a runtime-task command"),
    }
}

#[test]
fn task_preflight_finish_saves_failed_command() {
    let config = test_config(true);
    let previous = with_session("s-1");
    let r = task_preflight_finish(
        &config,
        "find notes",
        &outcome(false, "", " boom ", "1"),
        Err("unused".to_string()),
        previous,
        9,
    );
    let save = r.save.expect("a failed command is saved");
    assert_eq!(save.last_status, "failed");
    assert_eq!(save.last_message, "boom");
    assert_eq!(save.last_goal, "find notes");
    assert_eq!(save.last_session_id, "s-1");
    assert_eq!(save.last_scope, "gitProjects");
    match r.result {
        Err(AgentContextError::Message(m)) => assert_eq!(m, "boom"),
        _ => panic!("expected the failure message"),
    }
}

#[test]
fn task_preflight_finish_reports_unparsed_output() {
    let r = task_preflight_finish(
        &test_config(true),
        "goal",
        &outcome(true, "not json", "", "0"),
        Err("expected value".to_string()),
        AgentContextPanelStatus::default(),
        9,
    );
    assert!(r.save.is_none());
    match r.result {
        Err(AgentContextError::Context { context, cause }) => {
            assert_eq!(context, "failed to parse agent-context runtime-task output");
            assert_eq!(cause, "expected value");
        }
        _ => panic!("expected a parse error"),
    }
}

#[test]
fn task_preflight_finish_saves_preflight_files() {
    let rt = AgentContextRuntimeCodexPreflight {
        status: "ok".to_string(),
        goal: "find notes".to_string(),
        session_id: "s-2".to_string(),
        source_scope: "all".to_string(),
        mode: "fast".to_string(),
        sources_included: 3,
        context_md_path: Some("/tmp/context.md".to_string()),
        ..AgentContextRuntimeCodexPreflight::default()
    };
    let r = task_preflight_finish(&test_config(true), "find notes", &outcome(true, "{}", "", "0"), Ok(rt), with_session("s-1"), 7);
    let save = r.save.expect("saved");
    assert_eq!(save.last_session_id, "s-2");
    assert_eq!(save.last_generated_pack, "/tmp/context.md");
    assert_eq!(save.last_model_input_md, "/tmp/pack/model_input.md");
    assert_eq!(save.last_generated_at_ms, 7);
    let preflight = r.result.ok().expect("a preflight");
    assert_eq!(preflight.sources_included, 3);
}

#[test]
fn model_input_review_needs_a_session() {
    match run_agent_context_model_input_review(&test_config(true), &AgentContextPanelStatus::default()) {
        Err(error) => assert_eq!(message_of(&error), "请先运行任务预检，生成 Doctor runtime session。"),
        Ok(_) => panic!("expected a refusal"),
    }
    let args = run_agent_context_model_input_review(&test_config(true), &with_session("  s-1 "))
        .ok()
        .expect("command");
    assert_eq!(
        args,
        vec![
            "agent-preflight", "--out", "/tmp/agent-context-system", "--session-id", "s-1", "--advance",
            "context", "--source-scope", "gitProjects", "--mode", "deep", "--limit", "8",
        ]
    );
}

fn arg(a: &[u8]) -> &str {
    std::str::from_utf8(a).expect("a UTF-8 argument")
}

fn text_args(args: &[Vec<u8>]) -> Vec<&str> {
    args.iter().map(|a| arg(a)).collect()
}

#[test]
fn answer_review_prepare_approves_then_advances() {
    let s = run_agent_context_answer_review_prepare(&test_config(true), &with_session("s-1"), "  ")
        .ok()
        .expect("commands");
    assert_eq!(s.session_id, "s-1");
    assert_eq!(s.reason, "approved from Codex++ live task flow");
    assert_eq!(s.commands.len(), 2);
    assert_eq!(arg(&s.commands[0][0]), "context-review");
    assert_eq!(arg(&s.commands[0][6]), "approve");
    assert_eq!(arg(&s.commands[1][0]), "agent-preflight");
    assert_eq!(arg(&s.commands[1][6]), "answer");
    assert_eq!(arg(&s.commands[1][8]), "approved from Codex++ live task flow");
}

#[test]
fn execution_review_prepare_covers_each_refusal() {
    let config: Result<AgentContextPanelConfig, AgentContextError> = Ok(test_config(true));
    match run_agent_context_execution_review_prepare("", " \n", &config, &with_session("s-1"), b"/tmp/state") {
        Ok(ExecutionPrepareStart::Notice(n)) => {
            assert_eq!(n.status, "failed");
            assert!(n.message.contains("answer_review"));
        }
        _ => panic!("a blank answer gives a notice"),
    }
    let broken: Result<AgentContextPanelConfig, AgentContextError> =
        Err(AgentContextError::Message("bad config".to_string()));
    match run_agent_context_execution_review_prepare("", "answer", &broken, &with_session("s-1"), b"/tmp/state") {
        Err(error) => assert_eq!(message_of(&error), "bad config"),
        Ok(_) => panic!("the configuration error is given"),
    }
    match run_agent_context_execution_review_prepare("", "answer", &config, &AgentContextPanelStatus::default(), b"/tmp/state") {
        Err(error) => assert_eq!(message_of(&error), "请先生成并审查 Doctor answer_packet.md。"),
        Ok(_) => panic!("a session is needed"),
    }
}

#[test]
fn execution_review_prepare_records_the_answer_file() {
    let config: Result<AgentContextPanelConfig, AgentContextError> = Ok(test_config(true));
    match run_agent_context_execution_review_prepare("ok", "  the answer ", &config, &with_session("run/1 x"), b"/tmp/state") {
        Ok(ExecutionPrepareStart::Run(p)) => {
            assert_eq!(p.answer_dir, b"/tmp/state/agent-context-answer-review".to_vec());
            assert_eq!(p.answer_file, b"/tmp/state/agent-context-answer-review/run-1-x-answer.md".to_vec());
            assert_eq!(p.answer_file_text, "/tmp/state/agent-context-answer-review/run-1-x-answer.md");
            assert_eq!(p.answer_text, "the answer");
            assert_eq!(p.run.reason, "ok");
            assert_eq!(p.run.commands.len(), 3);
            assert_eq!(arg(&p.run.commands[0][6]), "record");
            assert_eq!(p.run.commands[0][8], p.answer_file);
            assert_eq!(arg(&p.run.commands[1][0]), "answer-review");
            assert_eq!(arg(&p.run.commands[2][6]), "execution");
        }
        _ => panic!("expected the execution commands"),
    }
}

#[test]
fn execution_review_prepare_hands_the_tool_the_raw_answer_file() {
    let config: Result<AgentContextPanelConfig, AgentContextError> = Ok(test_config(true));
    match run_agent_context_execution_review_prepare("ok", "answer", &config, &with_session("s"), b"/tmp/st\xffte") {
        Ok(ExecutionPrepareStart::Run(p)) => {
            assert_eq!(p.answer_file, b"/tmp/st\xffte/agent-context-answer-review/s-answer.md".to_vec());
            assert_eq!(p.run.commands[0][7], b"--answer-file".to_vec());
            assert_eq!(p.run.commands[0][8], p.answer_file);
            assert_eq!(p.answer_file_text, "/tmp/st\u{fffd}te/agent-context-answer-review/s-answer.md");
        }
        _ => panic!("expected the execution commands"),
    }
}

#[test]
fn execution_command_is_trimmed_and_limited() {
    let config: Result<AgentContextPanelConfig, AgentContextError> = Ok(test_config(true));
    match run_agent_context_execution_command("  ", "", "", &config, &with_session("s-1")) {
        Ok(SessionStart::Notice(n)) => assert_eq!(n.status, "failed"),
        _ => panic!("a blank command gives a notice"),
    }
    match run_agent_context_execution_command(" ls -la ", " /tmp ", "", &config, &with_session("s-1")) {
        Ok(SessionStart::Run(s)) => {
            assert_eq!(
                text_args(&s.commands[0]),
                vec![
                    "execution-review", "--out", "/tmp/agent-context-system", "--session-id", "s-1",
                    "--action", "run", "--command", "ls -la", "--timeout-seconds", "120", "--reason",
                    "approved execution command from Codex++ live task flow", "--cwd", "/tmp",
                ]
            );
        }
        _ => panic!("expected the run command"),
    }
    match run_agent_context_execution_command("ls", "  ", "why", &config, &with_session("s-1")) {
        Ok(SessionStart::Run(s)) => assert!(!s.commands[0].iter().any(|a| a.as_slice() == b"--cwd")),
        _ => panic!("expected the run command"),
    }
}

#[test]
fn execution_review_decision_accepts_only_approve_or_reject() {
    let config: Result<AgentContextPanelConfig, AgentContextError> = Ok(test_config(true));
    match run_agent_context_execution_review_decision("maybe", "", &config, &with_session("s-1")) {
        Err(error) => assert_eq!(message_of(&error), "execution review action must be approve or reject"),
        Ok(_) => panic!("an unknown action is refused"),
    }
    let s = run_agent_context_execution_review_decision(" reject ", "", &config, &with_session("s-1"))
        .ok()
        .expect("command");
    assert_eq!(arg(&s.commands[0][0]), "execution-review");
    assert_eq!(arg(&s.commands[0][6]), "reject");
    assert_eq!(s.reason, "reviewed execution artifacts from Codex++ live task flow");
}

#[test]
fn sanitized_session_ids_are_file_names() {
    assert_eq!(sanitize_filename_component("run/1 x"), "run-1-x");
    assert_eq!(sanitize_filename_component("--abc--"), "abc");
    assert_eq!(sanitize_filename_component("中文"), "doctor-session");
    assert_eq!(sanitize_filename_component(""), "doctor-session");
    let once = sanitize_filename_component("  a b/c  ");
    assert_eq!(sanitize_filename_component(&once), once);
    let (dir, file) = answer_review_bridge_path(b"/tmp/state/", "x y", '/');
    assert_eq!(dir, b"/tmp/state/agent-context-answer-review".to_vec());
    assert_eq!(file, b"/tmp/state/agent-context-answer-review/x-y-answer.md".to_vec());
    let (_, raw) = answer_review_bridge_path(b"/tmp/st\xffte", "s", '/');
    assert_eq!(raw, b"/tmp/st\xffte/agent-context-answer-review/s-answer.md".to_vec());
}

#[test]
fn answer_files_are_joined_with_the_platform_separator() {
    let (dir, file) = answer_review_bridge_path(b"C:\\state", "s", '\\');
    assert_eq!(dir, b"C:\\state\\agent-context-answer-review".to_vec());
    assert_eq!(file, b"C:\\state\\agent-context-answer-review\\s-answer.md".to_vec());
    let (dir, _) = answer_review_bridge_path(b"C:", "s", '\\');
    assert_eq!(dir, b"C:agent-context-answer-review".to_vec());
    let (dir, _) = answer_review_bridge_path(b"C:/state/", "s", '\\');
    assert_eq!(dir, b"C:/state/agent-context-answer-review".to_vec());
    let (dir, _) = answer_review_bridge_path(b"C:", "s", '/');
    assert_eq!(dir, b"C:/agent-context-answer-review".to_vec());
    let (dir, _) = answer_review_bridge_path(b"", "s", '/');
    assert_eq!(dir, b"agent-context-answer-review".to_vec());
}

#[test]
fn text_paths_are_joined_with_the_platform_separator() {
    assert_eq!(join_path_str("/home/u", "agent-context-system", '/'), "/home/u/agent-context-system");
    assert_eq!(join_path_str("/home/u/", "agent-context-system", '/'), "/home/u/agent-context-system");
    assert_eq!(join_path_str("a\\", "b", '/'), "a\\/b");
    assert_eq!(join_path_str("C:\\Users\\u", "agent-context-system", '\\'), "C:\\Users\\u\\agent-context-system");
    assert_eq!(join_path_str("C:\\Users\\u\\", "x", '\\'), "C:\\Users\\u\\x");
    assert_eq!(join_path_str("d:", "x", '\\'), "d:x");
    assert_eq!(join_path_str("1:", "x", '\\'), "1:\\x");
    assert_eq!(join_path_str("", "x", '\\'), "x");
    assert_eq!(executable_name_for('/'), "agent-context");
    assert_eq!(executable_name_for('\\'), "agent-context.exe");
}

#[test]
fn normalizing_twice_changes_nothing() {
    let once = codex_plus_core::config::normalize_config(AgentContextPanelConfig {
        auto_context: true,
        scope: " workflowDocs ".to_string(),
        mode: "nope".to_string(),
        agent_context_root: "".to_string(),
        agent_context_bin: " /opt/ac/bin ".to_string(),
    });
    let twice = codex_plus_core::config::normalize_config(once.clone());
    assert_eq!(once, twice);
    assert_eq!(once.scope, "workflowDocs");
    assert_eq!(once.mode, "fast");
    assert_eq!(once.agent_context_bin, "/opt/ac/bin");
    assert!(once.agent_context_root.ends_with("agent-context-system"));
}

#[test]
fn normalizing_in_a_given_home_twice_changes_nothing() {
    let blank = AgentContextPanelConfig {
        auto_context: false,
        scope: "  ".to_string(),
        mode: " deep ".to_string(),
        agent_context_root: " ".to_string(),
        agent_context_bin: "".to_string(),
    };
    let home = Some("C:\\Users\\u".to_string());
    let once = normalize_config_for(blank.clone(), &home, '\\');
    assert_eq!(once.scope, "all");
    assert_eq!(once.mode, "deep");
    assert_eq!(once.agent_context_root, "C:\\Users\\u\\agent-context-system");
    assert_eq!(once.agent_context_bin, "C:\\Users\\u\\agent-context-system\\agent-context.exe");
    assert_eq!(normalize_config_for(once.clone(), &Some("/other".to_string()), '/'), once);
    let unix = normalize_config_for(blank.clone(), &Some("/home/u".to_string()), '/');
    assert_eq!(unix.agent_context_bin, "/home/u/agent-context-system/agent-context");
    let nowhere = normalize_config_for(blank, &None, '/');
    assert_eq!(nowhere.agent_context_root, "./agent-context-system");
}

#[test]
fn session_commands_run_in_order_and_stop_at_the_first_failure() {
    let run = SessionCommands {
        session_id: "s".to_string(),
        reason: "r".to_string(),
        commands: vec![vec![b"a".to_vec()], vec![b"b".to_vec()], vec![b"c".to_vec()]],
    };
    let ok = outcome(true, "{}", "", "exit status: 0");
    let bad = outcome(false, "", "boom", "exit status: 1");
    assert!(matches!(session_step(&run, 0, &ok), SessionStep::Run(1)));
    assert!(matches!(session_step(&run, 1, &ok), SessionStep::Run(2)));
    assert!(matches!(session_step(&run, 2, &ok), SessionStep::Done));
    assert!(matches!(session_step(&run, 0, &bad), SessionStep::Failed));
    assert!(matches!(session_step(&run, 2, &bad), SessionStep::Failed));
}
