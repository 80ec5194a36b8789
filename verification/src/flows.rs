//! The decisions of the panel's operations. Each operation reads files and
//! runs the `agent-context` tool; the functions here take what was read and
//! what the tool gave back, and say what to run, what status to save and
//! what to answer.

use vstd::prelude::*;
use crate::bridge::{
    answer_bridge_maps, answer_preflight_to_bridge_value, answer_review_bridge_path,
    answer_review_dir, answer_review_file, execution_bridge_maps,
    execution_preflight_to_bridge_value, execution_review_to_bridge_value, run_bridge_maps,
    AnswerReviewBridge, ExecutionReviewBridge, ExecutionRunBridge,
};
use crate::commands::{
    agent_preflight_advance_args, agent_preflight_answer_command_args,
    agent_preflight_context_args, agent_preflight_context_command_args,
    agent_preflight_execution_command_args, answer_review_decision_command_args,
    answer_review_record_args, answer_review_record_command_args, command_failure_message,
    context_review_decision_command_args, execution_review_decision_command_args,
    execution_review_run_args, execution_review_run_command_args, failure_message,
    preflight_args, preflight_command_args, review_decision_args, strings, CommandOutcome,
};
use crate::config::AgentContextPanelConfig;
use crate::error::AgentContextError;
use crate::json::JsonValue;
use crate::panel::{
    preflight_status_maps, status_after, status_with_outcome, task_preflight_status,
};
use crate::preflight::{
    agent_preflight_maps, agent_preflight_to_task_preflight, count_jsonl_rows, jsonl_rows,
    runtime_preflight_maps, runtime_preflight_to_task_preflight,
    AgentContextRuntimeAgentPreflight, AgentContextRuntimeCodexPreflight,
    AgentContextTaskPreflight,
};
use crate::runtime::text_or_empty;
use crate::status::AgentContextPanelStatus;
use crate::system::path_separator;
use crate::text::{is_blank_spec, is_platform_separator, lossy_text, push_bytes, str_eq, trim, trim_str, utf8_lossy};
use vstd::utf8::encode_utf8;

verus! {

/// What an operation leaves behind: the status to save, if any, and its
/// answer.
pub struct RunResult<T> {
    pub save: Option<AgentContextPanelStatus>,
    pub result: Result<T, AgentContextError>,
}

/// The message of an operation that failed.
pub open spec fn is_message(r: AgentContextError, m: Seq<char>) -> bool {
    r matches AgentContextError::Message(x) && x@ == m
}

/// A failed command: its message is shown and saved as a `failed` status,
/// with `goal` when one is given.
pub open spec fn failed_run<T>(
    previous: AgentContextPanelStatus,
    c: AgentContextPanelConfig,
    goal: Option<Seq<char>>,
    outcome: CommandOutcome,
    now: u128,
    r: RunResult<T>,
) -> bool {
    let m = failure_message(outcome.stdout@, outcome.stderr@, outcome.status@);
    &&& r.save matches Some(s) && status_after(previous, "failed"@, m, goal, c, now, s)
    &&& r.result matches Err(e) && is_message(e, m)
}

/// The outcome of a command that failed.
pub fn command_failed<T>(
    previous: AgentContextPanelStatus,
    config: &AgentContextPanelConfig,
    goal: Option<String>,
    outcome: &CommandOutcome,
    now: u128,
) -> (r: RunResult<T>)
    ensures
        failed_run(
            previous,
            *config,
            match goal {
                Some(g) => Some(g@),
                None => None,
            },
            *outcome,
            now,
            r,
        ),
{
    let message = command_failure_message(outcome);
    let save = status_with_outcome(previous, "failed".to_owned(), message.clone(), goal, config, now);
    RunResult { save: Some(save), result: Err(AgentContextError::Message(message)) }
}

/// A session and the reason of a decision on it, and the commands to run in
/// order, each argument as the bytes handed to the tool; the operation stops
/// at the first that fails.
pub struct SessionCommands {
    pub session_id: String,
    pub reason: String,
    pub commands: Vec<Vec<Vec<u8>>>,
}

/// Arguments given as text, as the bytes handed to the tool: the UTF-8 of
/// each.
pub open spec fn os_args(args: Seq<Seq<char>>) -> Seq<Seq<u8>> {
    args.map_values(|a: Seq<char>| encode_utf8(a))
}

/// The bytes of each argument.
pub open spec fn byte_args(args: Seq<Vec<u8>>) -> Seq<Seq<u8>> {
    args.map_values(|a: Vec<u8>| a@)
}

/// The arguments `args` as the bytes handed to the tool.
fn os_args_of(args: &Vec<String>) -> (r: Vec<Vec<u8>>)
    ensures
        byte_args(r@) == os_args(strings(args@)),
{
    let mut out: Vec<Vec<u8>> = Vec::new();
    let n = args.len();
    let mut i: usize = 0;
    while i < n
        invariant
            n == args@.len(),
            0 <= i <= n,
            out@.len() == i,
            forall|k: int| 0 <= k < i ==> #[trigger] out@[k]@ == encode_utf8(args@[k]@),
        decreases n - i,
    {
        let mut a: Vec<u8> = Vec::new();
        push_bytes(&mut a, args[i].as_str().as_bytes());
        out.push(a);
        i = i + 1;
    }
    assert(byte_args(out@) =~= os_args(strings(args@)));
    out
}

/// The arguments of `answer-review --action record` as handed to the tool:
/// the UTF-8 of each, but the answer file (the argument after
/// `--answer-file`), which is the bytes of its path.
pub open spec fn answer_review_record_os_args(
    c: AgentContextPanelConfig,
    session_id: Seq<char>,
    answer_file: Seq<u8>,
    reason: Seq<char>,
) -> Seq<Seq<u8>> {
    os_args(answer_review_record_args(c, session_id, Seq::empty(), reason)).update(8, answer_file)
}

fn answer_review_record_os_args_of(
    config: &AgentContextPanelConfig,
    session_id: &str,
    answer_file: &[u8],
    reason: &str,
) -> (r: Vec<Vec<u8>>)
    ensures
        byte_args(r@) == answer_review_record_os_args(*config, session_id@, answer_file@, reason@),
{
    let args = answer_review_record_command_args(config, session_id, "", reason);
    proof {
        reveal_strlit("");
    }
    assert(""@ =~= Seq::<char>::empty());
    let mut r = os_args_of(&args);
    assert(strings(args@).len() == 11);
    assert(byte_args(r@).len() == r@.len());
    let mut file: Vec<u8> = Vec::new();
    push_bytes(&mut file, answer_file);
    r.set(8, file);
    assert(byte_args(r@) =~= answer_review_record_os_args(
        *config,
        session_id@,
        answer_file@,
        reason@,
    ));
    r
}

/// What follows a command of a session that has run.
pub enum SessionStep {
    /// Run the command at this index next.
    Run(usize),
    /// Every command has run and succeeded: the last one's output is the
    /// answer.
    Done,
    /// The command failed: the operation ends as `command_failed` says.
    Failed,
}

/// What follows once the command at index `done` of `run` has run with
/// `outcome`: a failed command ends the operation, else the next command
/// runs, or the operation is done after the last.
pub fn session_step(run: &SessionCommands, done: usize, outcome: &CommandOutcome) -> (r: SessionStep)
    requires
        done < run.commands.len(),
    ensures
        !outcome.success ==> r is Failed,
        outcome.success && done + 1 < run.commands.len() ==> r == SessionStep::Run(
            (done + 1) as usize,
        ),
        outcome.success && done + 1 == run.commands.len() ==> r is Done,
{
    if !outcome.success {
        SessionStep::Failed
    } else if done + 1 < run.commands.len() {
        SessionStep::Run(done + 1)
    } else {
        SessionStep::Done
    }
}

/// `reason` trimmed, or `default` when it is blank.
pub open spec fn reason_or(reason: Seq<char>, default: Seq<char>) -> Seq<char> {
    if is_blank_spec(reason) { default } else { trim(reason) }
}

fn reason_or_default(reason: &str, default: &str) -> (r: String)
    ensures
        r@ == reason_or(reason@, default@),
{
    let t = trim_str(reason);
    if t.is_empty() {
        default.to_owned()
    } else {
        t.to_owned()
    }
}

/// The command lines of `s`, as the bytes handed to the tool.
pub open spec fn command_lines(s: SessionCommands) -> Seq<Seq<Seq<u8>>> {
    s.commands@.map_values(|c: Vec<Vec<u8>>| byte_args(c@))
}

/// The task preflight of a goal: refused when the goal is blank; a
/// `disabled` preflight, and its status, when Auto Context is off; else the
/// goal trimmed and `agent-context runtime-task` to run.
pub enum TaskPreflightStart {
    Disabled { preflight: AgentContextTaskPreflight, save: AgentContextPanelStatus },
    Run { goal: String, args: Vec<String> },
}

/// The preflight of `goal` when Auto Context is off: `disabled`, with its
/// message, the goal, the configuration's scope and mode, no sources and no
/// file.
pub open spec fn disabled_preflight(
    p: AgentContextTaskPreflight,
    goal: Seq<char>,
    c: AgentContextPanelConfig,
) -> bool {
    &&& p.status@ == "disabled"@
    &&& p.message@ == "Auto Context 已关闭，未启动 Doctor runtime-task。"@
    &&& p.goal@ == goal
    &&& p.scope == c.scope
    &&& p.mode == c.mode
    &&& p.sources_included == 0
    &&& p.codex_preflight_md@.len() == 0
    &&& p.model_input_md@.len() == 0
    &&& p.context_md@.len() == 0
    &&& p.sources_jsonl@.len() == 0
    &&& p.manifest_json@.len() == 0
    &&& p.resolution_plan_json@.len() == 0
    &&& p.session_id@.len() == 0
    &&& p.runtime_task_md@.len() == 0
    &&& p.runtime_task_json@.len() == 0
    &&& p.review_file@.len() == 0
    &&& p.agent_preflight_md@.len() == 0
    &&& p.review_launch_md@.len() == 0
    &&& p.review_client_html@.len() == 0
    &&& p.review_server_url@.len() == 0
    &&& p.start_server_command@.len() == 0
    &&& p.open_client_command@.len() == 0
}

/// How a task preflight starts.
pub fn run_agent_context_task_preflight(
    config: &AgentContextPanelConfig,
    goal: &str,
    previous: AgentContextPanelStatus,
    now: u128,
) -> (r: Result<TaskPreflightStart, AgentContextError>)
    ensures
        is_blank_spec(goal@) ==> (r matches Err(e) && is_message(e, "任务目标不能为空。"@)),
        !is_blank_spec(goal@) && !config.auto_context ==> (r matches Ok(
            TaskPreflightStart::Disabled { preflight, save },
        ) && disabled_preflight(preflight, trim(goal@), *config) && preflight_status_maps(
            preflight,
            previous,
            now,
            save,
        )),
        !is_blank_spec(goal@) && config.auto_context ==> (r matches Ok(
            TaskPreflightStart::Run { goal: g, args },
        ) && g@ == trim(goal@) && strings(args@) == preflight_args(*config, trim(goal@))),
{
    let goal = trim_str(goal);
    if goal.is_empty() {
        return Err(AgentContextError::Message("任务目标不能为空。".to_owned()));
    }
    if !config.auto_context {
        let preflight = AgentContextTaskPreflight {
            status: "disabled".to_owned(),
            message: "Auto Context 已关闭，未启动 Doctor runtime-task。".to_owned(),
            goal: goal.to_owned(),
            scope: config.scope.clone(),
            mode: config.mode.clone(),
            sources_included: 0,
            codex_preflight_md: String::new(),
            model_input_md: String::new(),
            context_md: String::new(),
            sources_jsonl: String::new(),
            manifest_json: String::new(),
            resolution_plan_json: String::new(),
            session_id: String::new(),
            runtime_task_md: String::new(),
            runtime_task_json: String::new(),
            review_file: String::new(),
            agent_preflight_md: String::new(),
            review_launch_md: String::new(),
            review_client_html: String::new(),
            review_server_url: String::new(),
            start_server_command: String::new(),
            open_client_command: String::new(),
        };
        let save = task_preflight_status(&preflight, previous, now);
        return Ok(TaskPreflightStart::Disabled { preflight, save });
    }
    Ok(TaskPreflightStart::Run { goal: goal.to_owned(), args: preflight_command_args(config, goal) })
}

/// How a task preflight ends once `agent-context runtime-task` ran for
/// `goal`: a failed command is saved and shown; output that did not parse is
/// an error; else the session's preflight is saved and given.
pub fn task_preflight_finish(
    config: &AgentContextPanelConfig,
    goal: &str,
    outcome: &CommandOutcome,
    parsed: Result<AgentContextRuntimeCodexPreflight, String>,
    previous: AgentContextPanelStatus,
    now: u128,
) -> (r: RunResult<AgentContextTaskPreflight>)
    ensures
        !outcome.success ==> failed_run(previous, *config, Some(goal@), *outcome, now, r),
        outcome.success ==> match parsed {
            Err(e) => r.save is None && (r.result matches Err(AgentContextError::Context { context, cause })
                && context@ == "failed to parse agent-context runtime-task output"@ && cause@ == e@),
            Ok(rt) => (r.result matches Ok(p) && (runtime_preflight_maps(rt, *config, goal@, p)
                && (r.save matches Some(s) && preflight_status_maps(p, previous, now, s)))),
        },
{
    if !outcome.success {
        return command_failed(previous, config, Some(goal.to_owned()), outcome, now);
    }
    match parsed {
        Err(e) => RunResult {
            save: None,
            result: Err(
                AgentContextError::Context {
                    context: "failed to parse agent-context runtime-task output".to_owned(),
                    cause: e,
                },
            ),
        },
        Ok(rt) => {
            let preflight = runtime_preflight_to_task_preflight(rt, config, goal);
            let save = task_preflight_status(&preflight, previous, now);
            RunResult { save: Some(save), result: Ok(preflight) }
        },
    }
}

/// The session of the previous status, trimmed, or the error `message` when
/// there is none.
fn session_of(previous: &AgentContextPanelStatus, message: &str) -> (r: Result<String, AgentContextError>)
    ensures
        is_blank_spec(previous.last_session_id@) ==> (r matches Err(e) && is_message(e, message@)),
        !is_blank_spec(previous.last_session_id@) ==> (r matches Ok(s) && s@ == trim(
            previous.last_session_id@,
        )),
{
    let s = trim_str(previous.last_session_id.as_str());
    if s.is_empty() {
        Err(AgentContextError::Message(message.to_owned()))
    } else {
        Ok(s.to_owned())
    }
}

/// How the review of the model input starts: refused without a session,
/// else `agent-context agent-preflight --advance context` for it.
pub fn run_agent_context_model_input_review(
    config: &AgentContextPanelConfig,
    previous: &AgentContextPanelStatus,
) -> (r: Result<Vec<String>, AgentContextError>)
    ensures
        is_blank_spec(previous.last_session_id@) ==> (r matches Err(e) && is_message(
            e,
            "请先运行任务预检，生成 Doctor runtime session。"@,
        )),
        !is_blank_spec(previous.last_session_id@) ==> (r matches Ok(args) && strings(args@)
            == agent_preflight_context_args(*config, trim(previous.last_session_id@))),
{
    let session_id = session_of(previous, "请先运行任务预检，生成 Doctor runtime session。")?;
    Ok(agent_preflight_context_command_args(config, session_id.as_str()))
}

/// The number of sources of an agent preflight: the lines of its
/// `sources.jsonl` that are not blank, given the file's text.
pub open spec fn sources_count(rt: AgentContextRuntimeAgentPreflight, sources_text: Option<String>) -> usize {
    jsonl_rows(
        text_or_empty(rt.files.sources_jsonl_path),
        match sources_text {
            Some(t) => Some(t@),
            None => None,
        },
    ) as usize
}

/// How the review of the model input ends: a failed command is saved and
/// shown; output that did not parse is an error; else the preflight of the
/// session is saved and given, with as many sources as its `sources.jsonl`
/// has lines that are not blank (`sources_text` is the text of that file
/// when it could be read).
pub fn model_input_review_finish(
    config: &AgentContextPanelConfig,
    outcome: &CommandOutcome,
    parsed: Result<AgentContextRuntimeAgentPreflight, String>,
    sources_text: Option<String>,
    previous: AgentContextPanelStatus,
    now: u128,
) -> (r: RunResult<AgentContextTaskPreflight>)
    ensures
        !outcome.success ==> failed_run(previous, *config, None, *outcome, now, r),
        outcome.success ==> match parsed {
            Err(e) => r.save is None && (r.result matches Err(AgentContextError::Context { context, cause })
                && context@ == "failed to parse agent-context agent-preflight context output"@
                && cause@ == e@),
            Ok(rt) => (r.result matches Ok(p) && (agent_preflight_maps(
                rt,
                *config,
                previous,
                sources_count(rt, sources_text),
                p,
            ) && (r.save matches Some(s) && preflight_status_maps(p, previous, now, s)))),
        },
{
    if !outcome.success {
        return command_failed(previous, config, None, outcome, now);
    }
    match parsed {
        Err(e) => RunResult {
            save: None,
            result: Err(
                AgentContextError::Context {
                    context: "failed to parse agent-context agent-preflight context output".to_owned(),
                    cause: e,
                },
            ),
        },
        Ok(rt) => {
            let path = match &rt.files.sources_jsonl_path {
                Some(p) => p.clone(),
                None => String::new(),
            };
            let sources_included = match &sources_text {
                Some(t) => count_jsonl_rows(path.as_str(), Some(t.as_str())),
                None => count_jsonl_rows(path.as_str(), None),
            };
            let preflight = agent_preflight_to_task_preflight(rt, config, &previous, sources_included);
            let save = task_preflight_status(&preflight, previous, now);
            RunResult { save: Some(save), result: Ok(preflight) }
        },
    }
}

/// How the answer stage starts: refused without a session; else the model
/// input is approved (`context-review --action approve`) and the answer
/// packet built (`agent-preflight --advance answer`), with the reason given
/// or a default one.
pub fn run_agent_context_answer_review_prepare(
    config: &AgentContextPanelConfig,
    previous: &AgentContextPanelStatus,
    reason: &str,
) -> (r: Result<SessionCommands, AgentContextError>)
    ensures
        is_blank_spec(previous.last_session_id@) ==> (r matches Err(e) && is_message(
            e,
            "请先生成并审查 Doctor model_input.md。"@,
        )),
        !is_blank_spec(previous.last_session_id@) ==> (r matches Ok(s) && s.session_id@ == trim(
            previous.last_session_id@,
        ) && s.reason@ == reason_or(reason@, "approved from Codex++ live task flow"@)
            && command_lines(s) == seq![
            os_args(
                review_decision_args(
                    "context-review"@,
                    *config,
                    s.session_id@,
                    "approve"@,
                    s.reason@,
                ),
            ),
            os_args(agent_preflight_advance_args(*config, s.session_id@, "answer"@, s.reason@)),
        ]),
{
    let session_id = session_of(previous, "请先生成并审查 Doctor model_input.md。")?;
    let reason = reason_or_default(reason, "approved from Codex++ live task flow");
    let first = context_review_decision_command_args(
        config,
        session_id.as_str(),
        "approve",
        reason.as_str(),
    );
    let second = agent_preflight_answer_command_args(config, session_id.as_str(), reason.as_str());
    let commands = vec![os_args_of(&first), os_args_of(&second)];
    let r = SessionCommands { session_id, reason, commands };
    assert(command_lines(r) =~= seq![
        os_args(review_decision_args("context-review"@, *config, r.session_id@, "approve"@, r.reason@)),
        os_args(agent_preflight_advance_args(*config, r.session_id@, "answer"@, r.reason@)),
    ]);
    Ok(r)
}

/// The status after a review stage: its status and message, and the rest as
/// before.
pub open spec fn stage_saved(
    previous: AgentContextPanelStatus,
    c: AgentContextPanelConfig,
    status: Seq<char>,
    message: Seq<char>,
    now: u128,
    r: Option<AgentContextPanelStatus>,
) -> bool {
    r matches Some(s) && status_after(previous, status, message, None, c, now, s)
}

/// How the answer stage ends once its report was read: output that did not
/// parse is an error; else the answer stage is given, and saved by its
/// status and message.
pub fn answer_review_prepare_finish(
    config: &AgentContextPanelConfig,
    parsed: Result<JsonValue, String>,
    previous: AgentContextPanelStatus,
    now: u128,
) -> (r: RunResult<AnswerReviewBridge>)
    ensures
        match parsed {
            Err(e) => r.save is None && (r.result matches Err(AgentContextError::Context { context, cause })
                && context@ == "failed to parse agent-context agent-preflight answer output"@
                && cause@ == e@),
            Ok(raw) => (r.result matches Ok(b) && answer_bridge_maps(raw@, b) && stage_saved(
                previous,
                *config,
                b.status@,
                b.message@,
                now,
                r.save,
            )),
        },
{
    match parsed {
        Err(e) => RunResult {
            save: None,
            result: Err(
                AgentContextError::Context {
                    context: "failed to parse agent-context agent-preflight answer output".to_owned(),
                    cause: e,
                },
            ),
        },
        Ok(raw) => {
            let b = answer_preflight_to_bridge_value(&raw);
            let save = status_with_outcome(previous, b.status.clone(), b.message.clone(), None, config, now);
            RunResult { save: Some(save), result: Ok(b) }
        },
    }
}

/// A refusal that the live task flow shows as it is: a status and a message.
#[derive(Debug)]
pub struct FlowNotice {
    pub status: String,
    pub message: String,
}

/// How a stage that needs a session and runs commands starts: with a notice,
/// or with the commands to run.
pub enum SessionStart {
    Notice(FlowNotice),
    Run(SessionCommands),
}

/// The execution stage of a session: where its answer is written (the bytes
/// of the directory and of the file, and the file as text, as the report
/// shows it), and the commands to run.
pub struct ExecutionPrepare {
    pub answer_dir: Vec<u8>,
    pub answer_file: Vec<u8>,
    pub answer_file_text: String,
    pub answer_text: String,
    pub run: SessionCommands,
}

/// How the execution stage starts.
pub enum ExecutionPrepareStart {
    Notice(FlowNotice),
    Run(ExecutionPrepare),
}

/// How the execution stage starts: a `failed` notice when the answer is
/// blank; the configuration's error when it could not be read; refused
/// without a session; else the answer (trimmed) is written for review in the
/// state directory and recorded, approved and advanced to execution, with the
/// reason given or a default one.
pub fn run_agent_context_execution_review_prepare(
    reason: &str,
    answer_text: &str,
    config: &Result<AgentContextPanelConfig, AgentContextError>,
    previous: &AgentContextPanelStatus,
    app_state_dir: &[u8],
) -> (r: Result<ExecutionPrepareStart, AgentContextError>)
    ensures
        is_blank_spec(answer_text@) ==> (r matches Ok(ExecutionPrepareStart::Notice(n))
            && n.status@ == "failed"@ && n.message@
            == "未能读取上一条模型答案，无法写入 Doctor answer_review。请复制答案文本后再批准执行审查。"@),
        !is_blank_spec(answer_text@) ==> match *config {
            Err(e) => (r matches Err(x) && x == e),
            Ok(c) => if is_blank_spec(previous.last_session_id@) {
                r matches Err(e) && is_message(e, "请先生成并审查 Doctor answer_packet.md。"@)
            } else {
                r matches Ok(ExecutionPrepareStart::Run(p)) && {
                    let s = trim(previous.last_session_id@);
                    let why = reason_or(reason@, "approved answer from Codex++ live task flow"@);
                    &&& exists|sep: char|
                        is_platform_separator(sep) && p.answer_dir@ == answer_review_dir(app_state_dir@, sep)
                            && p.answer_file@ == answer_review_file(app_state_dir@, s, sep)
                    &&& p.answer_file_text@ == lossy_text(p.answer_file@)
                    &&& p.answer_text@ == trim(answer_text@)
                    &&& p.run.session_id@ == s
                    &&& p.run.reason@ == why
                    &&& command_lines(p.run) == seq![
                        answer_review_record_os_args(c, s, p.answer_file@, why),
                        os_args(review_decision_args("answer-review"@, c, s, "approve"@, why)),
                        os_args(agent_preflight_advance_args(c, s, "execution"@, why)),
                    ]
                }
            },
        },
{
    let answer = trim_str(answer_text);
    if answer.is_empty() {
        return Ok(
            ExecutionPrepareStart::Notice(
                FlowNotice {
                    status: "failed".to_owned(),
                    message: "未能读取上一条模型答案，无法写入 Doctor answer_review。请复制答案文本后再批准执行审查。".to_owned(),
                },
            ),
        );
    }
    let config = match config {
        Ok(c) => c,
        Err(AgentContextError::Message(m)) => return Err(AgentContextError::Message(m.clone())),
        Err(AgentContextError::Context { context, cause }) => return Err(
            AgentContextError::Context { context: context.clone(), cause: cause.clone() },
        ),
    };
    let session_id = session_of(previous, "请先生成并审查 Doctor answer_packet.md。")?;
    let reason = reason_or_default(reason, "approved answer from Codex++ live task flow");
    let sep = path_separator();
    let (answer_dir, answer_file) = answer_review_bridge_path(app_state_dir, session_id.as_str(), sep);
    let answer_file_text = utf8_lossy(answer_file.as_slice());
    let first = answer_review_record_os_args_of(
        config,
        session_id.as_str(),
        answer_file.as_slice(),
        reason.as_str(),
    );
    let second = answer_review_decision_command_args(
        config,
        session_id.as_str(),
        "approve",
        reason.as_str(),
    );
    let third = agent_preflight_execution_command_args(config, session_id.as_str(), reason.as_str());
    let commands = vec![first, os_args_of(&second), os_args_of(&third)];
    let run = SessionCommands { session_id, reason, commands };
    assert(command_lines(run) =~= seq![
        answer_review_record_os_args(*config, run.session_id@, answer_file@, run.reason@),
        os_args(review_decision_args("answer-review"@, *config, run.session_id@, "approve"@, run.reason@)),
        os_args(agent_preflight_advance_args(*config, run.session_id@, "execution"@, run.reason@)),
    ]);
    Ok(
        ExecutionPrepareStart::Run(
            ExecutionPrepare {
                answer_dir,
                answer_file,
                answer_file_text,
                answer_text: answer.to_owned(),
                run,
            },
        ),
    )
}

/// How the execution stage ends once its report was read: output that did
/// not parse is an error; else the execution stage is given, and saved by its
/// status and message.
pub fn execution_review_prepare_finish(
    config: &AgentContextPanelConfig,
    parsed: Result<JsonValue, String>,
    answer_file: String,
    previous: AgentContextPanelStatus,
    now: u128,
) -> (r: RunResult<ExecutionReviewBridge>)
    ensures
        match parsed {
            Err(e) => r.save is None && (r.result matches Err(AgentContextError::Context { context, cause })
                && context@ == "failed to parse agent-context agent-preflight execution output"@
                && cause@ == e@),
            Ok(raw) => (r.result matches Ok(b) && execution_bridge_maps(raw@, answer_file@, b)
                && stage_saved(previous, *config, b.status@, b.message@, now, r.save)),
        },
{
    match parsed {
        Err(e) => RunResult {
            save: None,
            result: Err(
                AgentContextError::Context {
                    context: "failed to parse agent-context agent-preflight execution output".to_owned(),
                    cause: e,
                },
            ),
        },
        Ok(raw) => {
            let b = execution_preflight_to_bridge_value(&raw, answer_file);
            let save = status_with_outcome(previous, b.status.clone(), b.message.clone(), None, config, now);
            RunResult { save: Some(save), result: Ok(b) }
        },
    }
}

/// How an approved command starts: a `failed` notice when the command is
/// blank; the configuration's error when it could not be read; refused
/// without a session; else `execution-review --action run` with the command
/// trimmed, a time limit of 120 seconds, the working directory when one is
/// given, and the reason given or a default one.
pub fn run_agent_context_execution_command(
    command: &str,
    cwd: &str,
    reason: &str,
    config: &Result<AgentContextPanelConfig, AgentContextError>,
    previous: &AgentContextPanelStatus,
) -> (r: Result<SessionStart, AgentContextError>)
    ensures
        is_blank_spec(command@) ==> (r matches Ok(SessionStart::Notice(n)) && n.status@
            == "failed"@ && n.message@
            == "执行命令不能为空。请使用“执行命令: <command>”明确给出本机命令。"@),
        !is_blank_spec(command@) ==> match *config {
            Err(e) => (r matches Err(x) && x == e),
            Ok(c) => if is_blank_spec(previous.last_session_id@) {
                r matches Err(e) && is_message(
                    e,
                    "请先进入 Doctor execution review，再执行显式命令。"@,
                )
            } else {
                r matches Ok(SessionStart::Run(s)) && {
                    let id = trim(previous.last_session_id@);
                    let why = reason_or(
                        reason@,
                        "approved execution command from Codex++ live task flow"@,
                    );
                    &&& s.session_id@ == id
                    &&& s.reason@ == why
                    &&& command_lines(s) == seq![
                        os_args(
                            execution_review_run_args(
                                c,
                                id,
                                trim(command@),
                                if is_blank_spec(cwd@) {
                                    None
                                } else {
                                    Some(trim(cwd@))
                                },
                                120,
                                why,
                            ),
                        ),
                    ]
                }
            },
        },
{
    let command = trim_str(command);
    if command.is_empty() {
        return Ok(
            SessionStart::Notice(
                FlowNotice {
                    status: "failed".to_owned(),
                    message: "执行命令不能为空。请使用“执行命令: <command>”明确给出本机命令。".to_owned(),
                },
            ),
        );
    }
    let config = match config {
        Ok(c) => c,
        Err(AgentContextError::Message(m)) => return Err(AgentContextError::Message(m.clone())),
        Err(AgentContextError::Context { context, cause }) => return Err(
            AgentContextError::Context { context: context.clone(), cause: cause.clone() },
        ),
    };
    let session_id = session_of(previous, "请先进入 Doctor execution review，再执行显式命令。")?;
    let reason = reason_or_default(reason, "approved execution command from Codex++ live task flow");
    let cwd = trim_str(cwd);
    let dir = if cwd.is_empty() {
        None
    } else {
        Some(cwd)
    };
    let run = execution_review_run_command_args(
        config,
        session_id.as_str(),
        command,
        dir,
        120,
        reason.as_str(),
    );
    let commands = vec![os_args_of(&run)];
    let s = SessionCommands { session_id, reason, commands };
    assert(command_lines(s) =~= seq![os_args(strings(run@))]);
    Ok(SessionStart::Run(s))
}

/// How an approved command ends once its report was read: output that did
/// not parse is an error; else the report is given, with a message that the
/// command ran, and saved by its status and message.
pub fn execution_command_finish(
    config: &AgentContextPanelConfig,
    parsed: Result<JsonValue, String>,
    previous: AgentContextPanelStatus,
    now: u128,
) -> (r: RunResult<ExecutionRunBridge>)
    ensures
        match parsed {
            Err(e) => r.save is None && (r.result matches Err(AgentContextError::Context { context, cause })
                && context@ == "failed to parse agent-context execution-review run output"@
                && cause@ == e@),
            Ok(raw) => (r.result matches Ok(b) && run_bridge_maps(
                raw@,
                "Doctor ran the approved explicit local command and captured artifacts."@,
                b,
            ) && stage_saved(previous, *config, b.status@, b.message@, now, r.save)),
        },
{
    match parsed {
        Err(e) => RunResult {
            save: None,
            result: Err(
                AgentContextError::Context {
                    context: "failed to parse agent-context execution-review run output".to_owned(),
                    cause: e,
                },
            ),
        },
        Ok(raw) => {
            let b = execution_review_to_bridge_value(
                &raw,
                "Doctor ran the approved explicit local command and captured artifacts.",
            );
            let save = status_with_outcome(previous, b.status.clone(), b.message.clone(), None, config, now);
            RunResult { save: Some(save), result: Ok(b) }
        },
    }
}

/// The message of a decision on the execution artifacts.
pub open spec fn decision_message(action: Seq<char>) -> Seq<char> {
    if action == "approve"@ {
        "Doctor execution artifacts are approved; the four-stage runtime session is complete."@
    } else {
        "Doctor execution artifacts were rejected; revise or rerun before completion."@
    }
}

/// How the decision on the execution artifacts starts: the action must be
/// `approve` or `reject` (trimmed); the configuration's error when it could
/// not be read; refused without a session; else
/// `execution-review --action <action>` with the reason given or a default
/// one.
pub fn run_agent_context_execution_review_decision(
    action: &str,
    reason: &str,
    config: &Result<AgentContextPanelConfig, AgentContextError>,
    previous: &AgentContextPanelStatus,
) -> (r: Result<SessionCommands, AgentContextError>)
    ensures
        !(trim(action@) == "approve"@ || trim(action@) == "reject"@) ==> (r matches Err(e)
            && is_message(e, "execution review action must be approve or reject"@)),
        (trim(action@) == "approve"@ || trim(action@) == "reject"@) ==> match *config {
            Err(e) => (r matches Err(x) && x == e),
            Ok(c) => if is_blank_spec(previous.last_session_id@) {
                r matches Err(e) && is_message(
                    e,
                    "请先执行或记录 Doctor execution artifact，再批准执行结果。"@,
                )
            } else {
                r matches Ok(s) && {
                    let id = trim(previous.last_session_id@);
                    let why = reason_or(
                        reason@,
                        "reviewed execution artifacts from Codex++ live task flow"@,
                    );
                    &&& s.session_id@ == id
                    &&& s.reason@ == why
                    &&& command_lines(s) == seq![
                        os_args(review_decision_args("execution-review"@, c, id, trim(action@), why)),
                    ]
                }
            },
        },
{
    let action = trim_str(action);
    if !str_eq(action, "approve") && !str_eq(action, "reject") {
        return Err(
            AgentContextError::Message("execution review action must be approve or reject".to_owned()),
        );
    }
    let config = match config {
        Ok(c) => c,
        Err(AgentContextError::Message(m)) => return Err(AgentContextError::Message(m.clone())),
        Err(AgentContextError::Context { context, cause }) => return Err(
            AgentContextError::Context { context: context.clone(), cause: cause.clone() },
        ),
    };
    let session_id = session_of(
        previous,
        "请先执行或记录 Doctor execution artifact，再批准执行结果。",
    )?;
    let reason = reason_or_default(reason, "reviewed execution artifacts from Codex++ live task flow");
    let run = execution_review_decision_command_args(
        config,
        session_id.as_str(),
        action,
        reason.as_str(),
    );
    let commands = vec![os_args_of(&run)];
    let s = SessionCommands { session_id, reason, commands };
    assert(command_lines(s) =~= seq![os_args(strings(run@))]);
    Ok(s)
}

/// How the decision on the execution artifacts ends once its report was
/// read: output that did not parse is an error; else the report is given,
/// with the message of the decision, and saved by its status and message.
pub fn execution_review_decision_finish(
    config: &AgentContextPanelConfig,
    action: &str,
    parsed: Result<JsonValue, String>,
    previous: AgentContextPanelStatus,
    now: u128,
) -> (r: RunResult<ExecutionRunBridge>)
    ensures
        match parsed {
            Err(e) => r.save is None && (r.result matches Err(AgentContextError::Context { context, cause })
                && context@ == "failed to parse agent-context execution-review decision output"@
                && cause@ == e@),
            Ok(raw) => (r.result matches Ok(b) && run_bridge_maps(
                raw@,
                decision_message(action@),
                b,
            ) && stage_saved(previous, *config, b.status@, b.message@, now, r.save)),
        },
{
    match parsed {
        Err(e) => RunResult {
            save: None,
            result: Err(
                AgentContextError::Context {
                    context: "failed to parse agent-context execution-review decision output".to_owned(),
                    cause: e,
                },
            ),
        },
        Ok(raw) => {
            let message = if str_eq(action, "approve") {
                "Doctor execution artifacts are approved; the four-stage runtime session is complete."
            } else {
                "Doctor execution artifacts were rejected; revise or rerun before completion."
            };
            let b = execution_review_to_bridge_value(&raw, message);
            let save = status_with_outcome(previous, b.status.clone(), b.message.clone(), None, config, now);
            RunResult { save: Some(save), result: Ok(b) }
        },
    }
}

} // verus!
