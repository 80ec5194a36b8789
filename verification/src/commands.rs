//! The command lines that Codex++ runs of the `agent-context` tool, and what
//! it makes of a command that failed.

use vstd::prelude::*;
use crate::config::AgentContextPanelConfig;
use crate::text::{concat2, decimal, is_blank_spec, trim, trim_str, u64_to_decimal};

verus! {

/// The views of a sequence of `String`s.
pub open spec fn strings(v: Seq<String>) -> Seq<Seq<char>> {
    v.map_values(|s: String| s@)
}

/// Appends `s` to `args`.
pub fn push_arg(args: &mut Vec<String>, s: &str)
    ensures
        strings(final(args)@) == strings(old(args)@).push(s@),
{
    args.push(s.to_owned());
    assert(strings(args@) =~= strings(old(args)@).push(s@));
}

/// `flag value` for each value that is not blank, the value trimmed, in order.
pub open spec fn repeated_args(flag: Seq<char>, values: Seq<Seq<char>>) -> Seq<Seq<char>>
    decreases values.len(),
{
    if values.len() == 0 {
        seq![]
    } else {
        let rest = repeated_args(flag, values.drop_last());
        if is_blank_spec(values.last()) {
            rest
        } else {
            rest + seq![flag, trim(values.last())]
        }
    }
}

/// Appends `flag value` to `args` for each value that is not blank.
pub fn append_repeated_arg(args: &mut Vec<String>, flag: &str, values: &[String])
    ensures
        strings(final(args)@) == strings(old(args)@) + repeated_args(flag@, strings(values@)),
{
    let n = values.len();
    let mut i: usize = 0;
    while i < n
        invariant
            n == values@.len(),
            0 <= i <= n,
            strings(args@) == strings(old(args)@) + repeated_args(
                flag@,
                strings(values@).take(i as int),
            ),
        decreases n - i,
    {
        let value = trim_str(values[i].as_str());
        assert(strings(values@).take(i + 1).drop_last() =~= strings(values@).take(i as int));
        assert(strings(values@).take(i + 1).last() == values@[i as int]@);
        if !value.is_empty() {
            let ghost before = strings(args@);
            push_arg(args, flag);
            push_arg(args, value);
            assert(strings(args@) =~= before + seq![flag@, value@]);
        }
        i = i + 1;
    }
    assert(strings(values@).take(n as int) =~= strings(values@));
}

/// What a finished run of a command gave back: whether it succeeded, its
/// output and error text, and its exit status as text.
pub struct CommandOutcome {
    pub success: bool,
    pub stdout: String,
    pub stderr: String,
    pub status: String,
}

/// The message of a failed command: its error output, else its output, else
/// its exit status, trimmed.
pub open spec fn failure_message(stdout: Seq<char>, stderr: Seq<char>, status: Seq<char>) -> Seq<char> {
    if !is_blank_spec(stderr) {
        trim(stderr)
    } else if !is_blank_spec(stdout) {
        trim(stdout)
    } else {
        "agent-context exited with status "@ + status
    }
}

/// The message to show for a command that failed.
pub fn command_failure_message(output: &CommandOutcome) -> (r: String)
    ensures
        r@ == failure_message(output.stdout@, output.stderr@, output.status@),
{
    let stderr = trim_str(output.stderr.as_str());
    let stdout = trim_str(output.stdout.as_str());
    if !stderr.is_empty() {
        stderr.to_owned()
    } else if !stdout.is_empty() {
        stdout.to_owned()
    } else {
        concat2("agent-context exited with status ", output.status.as_str())
    }
}

/// `agent-context panel`: refresh the panel, with a goal when there is one,
/// and without Auto Context when it is off or there is no goal.
pub open spec fn panel_args(c: AgentContextPanelConfig, goal: Seq<char>) -> Seq<Seq<char>> {
    seq![
        "panel"@, "--out"@, c.agent_context_root@, "--source-scope"@, c.scope@, "--mode"@,
        c.mode@, "--limit"@, "8"@,
    ] + (if goal.len() > 0 { seq!["--goal"@, goal] } else { seq![] }) + (if !c.auto_context
        || goal.len() == 0 {
        seq!["--no-auto-context"@]
    } else {
        seq![]
    })
}

/// The arguments of `agent-context panel` for `goal`.
pub fn panel_command_args(config: &AgentContextPanelConfig, goal: &str) -> (r: Vec<String>)
    ensures
        strings(r@) == panel_args(*config, goal@),
{
    let mut args: Vec<String> = Vec::new();
    push_arg(&mut args, "panel");
    push_arg(&mut args, "--out");
    push_arg(&mut args, config.agent_context_root.as_str());
    push_arg(&mut args, "--source-scope");
    push_arg(&mut args, config.scope.as_str());
    push_arg(&mut args, "--mode");
    push_arg(&mut args, config.mode.as_str());
    push_arg(&mut args, "--limit");
    push_arg(&mut args, "8");
    let ghost base = strings(args@);
    if !goal.is_empty() {
        push_arg(&mut args, "--goal");
        push_arg(&mut args, goal);
    }
    let ghost with_goal = strings(args@);
    assert(with_goal =~= base + (if goal@.len() > 0 { seq!["--goal"@, goal@] } else { seq![] }));
    if !config.auto_context || goal.is_empty() {
        push_arg(&mut args, "--no-auto-context");
    }
    assert(strings(args@) =~= panel_args(*config, goal@));
    args
}

/// `agent-context runtime-task`: start a runtime session for `goal`.
pub open spec fn preflight_args(c: AgentContextPanelConfig, goal: Seq<char>) -> Seq<Seq<char>> {
    seq!["runtime-task"@, "--goal"@, goal, "--out"@, c.agent_context_root@, "--port"@, "8765"@]
}

/// The arguments of `agent-context runtime-task` for `goal`.
pub fn preflight_command_args(config: &AgentContextPanelConfig, goal: &str) -> (r: Vec<String>)
    ensures
        strings(r@) == preflight_args(*config, goal@),
{
    let mut args: Vec<String> = Vec::new();
    push_arg(&mut args, "runtime-task");
    push_arg(&mut args, "--goal");
    push_arg(&mut args, goal);
    push_arg(&mut args, "--out");
    push_arg(&mut args, config.agent_context_root.as_str());
    push_arg(&mut args, "--port");
    push_arg(&mut args, "8765");
    assert(strings(args@) =~= preflight_args(*config, goal@));
    args
}

/// `agent-context agent-preflight --advance context`: build the model input of a session.
pub open spec fn agent_preflight_context_args(c: AgentContextPanelConfig, session_id: Seq<char>) -> Seq<Seq<char>> {
    seq![
        "agent-preflight"@, "--out"@, c.agent_context_root@, "--session-id"@, session_id,
        "--advance"@, "context"@, "--source-scope"@, c.scope@, "--mode"@, c.mode@, "--limit"@,
        "8"@,
    ]
}

/// The arguments of `agent-context agent-preflight --advance context`.
pub fn agent_preflight_context_command_args(config: &AgentContextPanelConfig, session_id: &str) -> (r: Vec<String>)
    ensures
        strings(r@) == agent_preflight_context_args(*config, session_id@),
{
    let mut args: Vec<String> = Vec::new();
    push_arg(&mut args, "agent-preflight");
    push_arg(&mut args, "--out");
    push_arg(&mut args, config.agent_context_root.as_str());
    push_arg(&mut args, "--session-id");
    push_arg(&mut args, session_id);
    push_arg(&mut args, "--advance");
    push_arg(&mut args, "context");
    push_arg(&mut args, "--source-scope");
    push_arg(&mut args, config.scope.as_str());
    push_arg(&mut args, "--mode");
    push_arg(&mut args, config.mode.as_str());
    push_arg(&mut args, "--limit");
    push_arg(&mut args, "8");
    assert(strings(args@) =~= agent_preflight_context_args(*config, session_id@));
    args
}

/// `agent-context <review> --action <action> --reason <reason>` for a session,
/// where `review` is `context-review`, `answer-review` or `execution-review`.
pub open spec fn review_decision_args(
    review: Seq<char>,
    c: AgentContextPanelConfig,
    session_id: Seq<char>,
    action: Seq<char>,
    reason: Seq<char>,
) -> Seq<Seq<char>> {
    seq![
        review, "--out"@, c.agent_context_root@, "--session-id"@, session_id, "--action"@, action,
        "--reason"@, reason,
    ]
}

fn review_decision_command_args(
    review: &str,
    config: &AgentContextPanelConfig,
    session_id: &str,
    action: &str,
    reason: &str,
) -> (r: Vec<String>)
    ensures
        strings(r@) == review_decision_args(review@, *config, session_id@, action@, reason@),
{
    let mut args: Vec<String> = Vec::new();
    push_arg(&mut args, review);
    push_arg(&mut args, "--out");
    push_arg(&mut args, config.agent_context_root.as_str());
    push_arg(&mut args, "--session-id");
    push_arg(&mut args, session_id);
    push_arg(&mut args, "--action");
    push_arg(&mut args, action);
    push_arg(&mut args, "--reason");
    push_arg(&mut args, reason);
    assert(strings(args@) =~= review_decision_args(review@, *config, session_id@, action@, reason@));
    args
}

/// The arguments of `agent-context context-review` with a decision.
pub fn context_review_decision_command_args(
    config: &AgentContextPanelConfig,
    session_id: &str,
    action: &str,
    reason: &str,
) -> (r: Vec<String>)
    ensures
        strings(r@) == review_decision_args("context-review"@, *config, session_id@, action@, reason@),
{
    review_decision_command_args("context-review", config, session_id, action, reason)
}

/// The arguments of `agent-context answer-review` with a decision.
pub fn answer_review_decision_command_args(
    config: &AgentContextPanelConfig,
    session_id: &str,
    action: &str,
    reason: &str,
) -> (r: Vec<String>)
    ensures
        strings(r@) == review_decision_args("answer-review"@, *config, session_id@, action@, reason@),
{
    review_decision_command_args("answer-review", config, session_id, action, reason)
}

/// The arguments of `agent-context execution-review` with a decision.
pub fn execution_review_decision_command_args(
    config: &AgentContextPanelConfig,
    session_id: &str,
    action: &str,
    reason: &str,
) -> (r: Vec<String>)
    ensures
        strings(r@) == review_decision_args("execution-review"@, *config, session_id@, action@, reason@),
{
    review_decision_command_args("execution-review", config, session_id, action, reason)
}

/// `agent-context agent-preflight --advance <stage> --reason <reason>` for a session.
pub open spec fn agent_preflight_advance_args(
    c: AgentContextPanelConfig,
    session_id: Seq<char>,
    stage: Seq<char>,
    reason: Seq<char>,
) -> Seq<Seq<char>> {
    seq![
        "agent-preflight"@, "--out"@, c.agent_context_root@, "--session-id"@, session_id,
        "--advance"@, stage, "--reason"@, reason,
    ]
}

fn agent_preflight_advance_command_args(
    config: &AgentContextPanelConfig,
    session_id: &str,
    stage: &str,
    reason: &str,
) -> (r: Vec<String>)
    ensures
        strings(r@) == agent_preflight_advance_args(*config, session_id@, stage@, reason@),
{
    let mut args: Vec<String> = Vec::new();
    push_arg(&mut args, "agent-preflight");
    push_arg(&mut args, "--out");
    push_arg(&mut args, config.agent_context_root.as_str());
    push_arg(&mut args, "--session-id");
    push_arg(&mut args, session_id);
    push_arg(&mut args, "--advance");
    push_arg(&mut args, stage);
    push_arg(&mut args, "--reason");
    push_arg(&mut args, reason);
    assert(strings(args@) =~= agent_preflight_advance_args(*config, session_id@, stage@, reason@));
    args
}

/// The arguments of `agent-context agent-preflight --advance answer`.
pub fn agent_preflight_answer_command_args(
    config: &AgentContextPanelConfig,
    session_id: &str,
    reason: &str,
) -> (r: Vec<String>)
    ensures
        strings(r@) == agent_preflight_advance_args(*config, session_id@, "answer"@, reason@),
{
    agent_preflight_advance_command_args(config, session_id, "answer", reason)
}

/// The arguments of `agent-context agent-preflight --advance execution`.
pub fn agent_preflight_execution_command_args(
    config: &AgentContextPanelConfig,
    session_id: &str,
    reason: &str,
) -> (r: Vec<String>)
    ensures
        strings(r@) == agent_preflight_advance_args(*config, session_id@, "execution"@, reason@),
{
    agent_preflight_advance_command_args(config, session_id, "execution", reason)
}

/// `agent-context answer-review --action record`: record the answer in a file.
pub open spec fn answer_review_record_args(
    c: AgentContextPanelConfig,
    session_id: Seq<char>,
    answer_file: Seq<char>,
    reason: Seq<char>,
) -> Seq<Seq<char>> {
    seq![
        "answer-review"@, "--out"@, c.agent_context_root@, "--session-id"@, session_id,
        "--action"@, "record"@, "--answer-file"@, answer_file, "--reason"@, reason,
    ]
}

/// The arguments of `agent-context answer-review --action record`.
pub fn answer_review_record_command_args(
    config: &AgentContextPanelConfig,
    session_id: &str,
    answer_file: &str,
    reason: &str,
) -> (r: Vec<String>)
    ensures
        strings(r@) == answer_review_record_args(*config, session_id@, answer_file@, reason@),
{
    let mut args: Vec<String> = Vec::new();
    push_arg(&mut args, "answer-review");
    push_arg(&mut args, "--out");
    push_arg(&mut args, config.agent_context_root.as_str());
    push_arg(&mut args, "--session-id");
    push_arg(&mut args, session_id);
    push_arg(&mut args, "--action");
    push_arg(&mut args, "record");
    push_arg(&mut args, "--answer-file");
    push_arg(&mut args, answer_file);
    push_arg(&mut args, "--reason");
    push_arg(&mut args, reason);
    assert(strings(args@) =~= answer_review_record_args(*config, session_id@, answer_file@, reason@));
    args
}

/// `agent-context execution-review --action run`: run an approved command,
/// in `cwd` when one is given.
pub open spec fn execution_review_run_args(
    c: AgentContextPanelConfig,
    session_id: Seq<char>,
    command: Seq<char>,
    cwd: Option<Seq<char>>,
    timeout_seconds: nat,
    reason: Seq<char>,
) -> Seq<Seq<char>> {
    seq![
        "execution-review"@, "--out"@, c.agent_context_root@, "--session-id"@, session_id,
        "--action"@, "run"@, "--command"@, command, "--timeout-seconds"@, decimal(timeout_seconds),
        "--reason"@, reason,
    ] + match cwd {
        Some(d) => seq!["--cwd"@, d],
        None => seq![],
    }
}

/// The arguments of `agent-context execution-review --action run`.
pub fn execution_review_run_command_args(
    config: &AgentContextPanelConfig,
    session_id: &str,
    command: &str,
    cwd: Option<&str>,
    timeout_seconds: u64,
    reason: &str,
) -> (r: Vec<String>)
    ensures
        strings(r@) == execution_review_run_args(
            *config,
            session_id@,
            command@,
            match cwd {
                Some(d) => Some(d@),
                None => None,
            },
            timeout_seconds as nat,
            reason@,
        ),
{
    let mut args: Vec<String> = Vec::new();
    push_arg(&mut args, "execution-review");
    push_arg(&mut args, "--out");
    push_arg(&mut args, config.agent_context_root.as_str());
    push_arg(&mut args, "--session-id");
    push_arg(&mut args, session_id);
    push_arg(&mut args, "--action");
    push_arg(&mut args, "run");
    push_arg(&mut args, "--command");
    push_arg(&mut args, command);
    push_arg(&mut args, "--timeout-seconds");
    let timeout = u64_to_decimal(timeout_seconds);
    push_arg(&mut args, timeout.as_str());
    push_arg(&mut args, "--reason");
    push_arg(&mut args, reason);
    let ghost base = strings(args@);
    match cwd {
        Some(d) => {
            push_arg(&mut args, "--cwd");
            push_arg(&mut args, d);
        },
        None => {},
    }
    assert(strings(args@) =~= execution_review_run_args(
        *config,
        session_id@,
        command@,
        match cwd {
            Some(d) => Some(d@),
            None => None,
        },
        timeout_seconds as nat,
        reason@,
    ));
    args
}

/// `agent-context v1-refresh`: refresh the v1 evidence and follow-up check.
pub open spec fn v1_refresh_args(c: AgentContextPanelConfig) -> Seq<Seq<char>> {
    seq!["v1-refresh"@, "--out"@, c.agent_context_root@, "--with-manager-feedback-smoke"@]
}

/// The arguments of `agent-context v1-refresh`.
pub fn v1_refresh_command_args(config: &AgentContextPanelConfig) -> (r: Vec<String>)
    ensures
        strings(r@) == v1_refresh_args(*config),
{
    let mut args: Vec<String> = Vec::new();
    push_arg(&mut args, "v1-refresh");
    push_arg(&mut args, "--out");
    push_arg(&mut args, config.agent_context_root.as_str());
    push_arg(&mut args, "--with-manager-feedback-smoke");
    assert(strings(args@) =~= v1_refresh_args(*config));
    args
}

/// `agent-context access-consent`: grant consent for an identifier, with a
/// reason when one is given; both are trimmed.
pub open spec fn access_consent_args(
    c: AgentContextPanelConfig,
    identifier: Seq<char>,
    reason: Seq<char>,
) -> Seq<Seq<char>> {
    seq!["access-consent"@, "--out"@, c.agent_context_root@, "--identifier"@, trim(identifier)]
        + if is_blank_spec(reason) {
        seq![]
    } else {
        seq!["--reason"@, trim(reason)]
    }
}

/// The arguments of `agent-context access-consent`.
pub fn access_consent_command_args(
    config: &AgentContextPanelConfig,
    identifier: &str,
    reason: &str,
) -> (r: Vec<String>)
    ensures
        strings(r@) == access_consent_args(*config, identifier@, reason@),
{
    let mut args: Vec<String> = Vec::new();
    push_arg(&mut args, "access-consent");
    push_arg(&mut args, "--out");
    push_arg(&mut args, config.agent_context_root.as_str());
    push_arg(&mut args, "--identifier");
    push_arg(&mut args, trim_str(identifier));
    let ghost base = strings(args@);
    let reason_t = trim_str(reason);
    if !reason_t.is_empty() {
        push_arg(&mut args, "--reason");
        push_arg(&mut args, reason_t);
    }
    assert(strings(args@) =~= access_consent_args(*config, identifier@, reason@));
    args
}

} // verus!
