//! Task preflights: what a runtime session of the tool reports, as the panel
//! shows it, and how the panel status follows a run.

use vstd::prelude::*;
use crate::config::AgentContextPanelConfig;
use crate::status::AgentContextPanelStatus;
use crate::runtime::{text_or_empty, unwrap_or_empty};
use crate::text::{
    chars_of, concat3, decimal, is_blank, is_blank_spec, is_white_space, non_empty_or_default,
    or_default, str_eq, trim, trim_str, u64_to_decimal,
};

verus! {

/// The outcome of a task preflight, as the panel shows it.
#[derive(Debug, Clone, PartialEq, Eq, Default)]
pub struct AgentContextTaskPreflight {
    pub status: String,
    pub message: String,
    pub goal: String,
    pub scope: String,
    pub mode: String,
    pub sources_included: usize,
    pub codex_preflight_md: String,
    pub model_input_md: String,
    pub context_md: String,
    pub sources_jsonl: String,
    pub manifest_json: String,
    pub resolution_plan_json: String,
    pub session_id: String,
    pub runtime_task_md: String,
    pub runtime_task_json: String,
    pub review_file: String,
    pub agent_preflight_md: String,
    pub review_launch_md: String,
    pub review_client_html: String,
    pub review_server_url: String,
    pub start_server_command: String,
    pub open_client_command: String,
}

/// What `agent-context runtime-task` reports.
#[derive(Debug, Clone, Default)]
pub struct AgentContextRuntimeCodexPreflight {
    pub status: String,
    pub error: String,
    pub goal: String,
    pub session_id: String,
    pub stage: String,
    pub source_scope: String,
    pub mode: String,
    pub sources_included: usize,
    pub preflight_markdown_path: String,
    pub context_md_path: Option<String>,
    pub sources_jsonl_path: Option<String>,
    pub manifest_json_path: Option<String>,
    pub resolution_plan_json_path: Option<String>,
    pub runtime_task_md_path: String,
    pub runtime_task_json_path: String,
    pub review_file: String,
    pub agent_preflight: Option<AgentContextRuntimeTaskAgentPreflight>,
    pub review_launch: Option<AgentContextRuntimeTaskReviewLaunch>,
    pub client_html_path: String,
    pub review_server_url: String,
    pub start_server_command: String,
    pub open_client_command: String,
}

/// The agent preflight of a runtime session.
#[derive(Debug, Clone, Default)]
pub struct AgentContextRuntimeTaskAgentPreflight {
    pub agent_preflight_md_path: String,
}

/// The review launch of a runtime session.
#[derive(Debug, Clone, Default)]
pub struct AgentContextRuntimeTaskReviewLaunch {
    pub review_launch_md_path: String,
}

/// What `agent-context agent-preflight --advance context` reports.
#[derive(Debug, Clone, Default)]
pub struct AgentContextRuntimeAgentPreflight {
    pub status: String,
    pub next_message: String,
    pub session_id: String,
    pub source_scope: String,
    pub mode: String,
    pub review_file: String,
    pub agent_preflight_md_path: String,
    pub files: AgentContextRuntimeAgentPreflightFiles,
}

/// The files of an agent preflight.
#[derive(Debug, Clone, Default)]
pub struct AgentContextRuntimeAgentPreflightFiles {
    pub context_md_path: Option<String>,
    pub sources_jsonl_path: Option<String>,
    pub model_input_md_path: Option<String>,
    pub runtime_task_md_path: Option<String>,
    pub runtime_task_json_path: Option<String>,
    pub runtime_review_client_html_path: Option<String>,
    pub runtime_review_launch_md_path: Option<String>,
}

/// A session that waits for its context, or is in its first review, is `ok`.
pub open spec fn normalized_preflight_status(status: Seq<char>, stage: Seq<char>) -> Seq<char> {
    if status == "awaiting_context_generation"@ || stage == "clarify_review"@ {
        "ok"@
    } else {
        status
    }
}

/// The status that the panel shows for a session in `status` and `stage`.
pub fn normalize_task_preflight_status(status: &str, stage: &str) -> (r: String)
    ensures
        r@ == normalized_preflight_status(status@, stage@),
{
    if str_eq(status, "awaiting_context_generation") || str_eq(stage, "clarify_review") {
        "ok".to_owned()
    } else {
        status.to_owned()
    }
}

/// The message that the panel shows for a preflight in `status`.
pub open spec fn preflight_message(
    status: Seq<char>,
    sources_included: nat,
    error: Seq<char>,
    stage: Seq<char>,
    review_file: Seq<char>,
) -> Seq<char> {
    let waiting = status == "ok"@ || status == "awaiting_context_generation"@;
    if waiting && !is_blank_spec(review_file) {
        "Doctor 已启动第一阶段审查，请先确认 refined_prompt.md，再生成上下文。"@
    } else if waiting && stage == "clarify_review"@ {
        "Doctor 已启动第一阶段审查，请先确认需求归一化。"@
    } else if status == "ok"@ {
        "任务预检已生成，包含 "@ + decimal(sources_included) + " 条来源。"@
    } else if status == "disabled"@ {
        "Auto Context 已关闭，任务预检只生成禁用说明。"@
    } else if status == "resolver_failed"@ {
        if is_blank_spec(error) {
            "任务预检失败：resolver 未生成上下文包。"@
        } else {
            "任务预检失败："@ + trim(error)
        }
    } else {
        "任务预检状态："@ + status + "。"@
    }
}

/// The message for a preflight in `status`.
pub fn task_preflight_message(
    status: &str,
    sources_included: usize,
    error: &str,
    stage: &str,
    review_file: &str,
) -> (r: String)
    ensures
        r@ == preflight_message(status@, sources_included as nat, error@, stage@, review_file@),
{
    let waiting = str_eq(status, "ok") || str_eq(status, "awaiting_context_generation");
    if waiting && !is_blank(review_file) {
        "Doctor 已启动第一阶段审查，请先确认 refined_prompt.md，再生成上下文。".to_owned()
    } else if waiting && str_eq(stage, "clarify_review") {
        "Doctor 已启动第一阶段审查，请先确认需求归一化。".to_owned()
    } else if str_eq(status, "ok") {
        let count = u64_to_decimal(sources_included as u64);
        concat3("任务预检已生成，包含 ", count.as_str(), " 条来源。")
    } else if str_eq(status, "disabled") {
        "Auto Context 已关闭，任务预检只生成禁用说明。".to_owned()
    } else if str_eq(status, "resolver_failed") {
        let error = trim_str(error);
        if error.is_empty() {
            "任务预检失败：resolver 未生成上下文包。".to_owned()
        } else {
            "任务预检失败：".to_owned().concat(error)
        }
    } else {
        concat3("任务预检状态：", status, "。")
    }
}

/// The preflight that the panel shows for a `runtime-task` report: the
/// session's status (`ok` when blank, normalised), goal, scope and mode (each
/// that of the request or configuration when blank), its message, and its
/// files.
pub open spec fn runtime_preflight_maps(
    rt: AgentContextRuntimeCodexPreflight,
    c: AgentContextPanelConfig,
    requested_goal: Seq<char>,
    p: AgentContextTaskPreflight,
) -> bool {
    let status = normalized_preflight_status(or_default(rt.status@, "ok"@), rt.stage@);
    &&& p.status@ == status
    &&& p.message@ == preflight_message(
        status,
        rt.sources_included as nat,
        rt.error@,
        rt.stage@,
        rt.review_file@,
    )
    &&& p.goal@ == or_default(rt.goal@, requested_goal)
    &&& p.scope@ == or_default(rt.source_scope@, c.scope@)
    &&& p.mode@ == or_default(rt.mode@, c.mode@)
    &&& p.sources_included == rt.sources_included
    &&& p.codex_preflight_md == rt.preflight_markdown_path
    &&& p.model_input_md@.len() == 0
    &&& p.context_md@ == text_or_empty(rt.context_md_path)
    &&& p.sources_jsonl@ == text_or_empty(rt.sources_jsonl_path)
    &&& p.manifest_json@ == text_or_empty(rt.manifest_json_path)
    &&& p.resolution_plan_json@ == text_or_empty(rt.resolution_plan_json_path)
    &&& p.session_id == rt.session_id
    &&& p.runtime_task_md == rt.runtime_task_md_path
    &&& p.runtime_task_json == rt.runtime_task_json_path
    &&& p.review_file == rt.review_file
    &&& p.agent_preflight_md@ == match rt.agent_preflight {
        Some(a) => a.agent_preflight_md_path@,
        None => seq![],
    }
    &&& p.review_launch_md@ == match rt.review_launch {
        Some(l) => l.review_launch_md_path@,
        None => seq![],
    }
    &&& p.review_client_html == rt.client_html_path
    &&& p.review_server_url == rt.review_server_url
    &&& p.start_server_command == rt.start_server_command
    &&& p.open_client_command == rt.open_client_command
}

/// The preflight that the panel shows for a `runtime-task` report.
pub fn runtime_preflight_to_task_preflight(
    runtime: AgentContextRuntimeCodexPreflight,
    config: &AgentContextPanelConfig,
    requested_goal: &str,
) -> (r: AgentContextTaskPreflight)
    ensures
        runtime_preflight_maps(runtime, *config, requested_goal@, r),
{
    let runtime_status = non_empty_or_default(runtime.status.as_str(), "ok".to_owned());
    let status = normalize_task_preflight_status(runtime_status.as_str(), runtime.stage.as_str());
    let goal = non_empty_or_default(runtime.goal.as_str(), requested_goal.to_owned());
    let scope = non_empty_or_default(runtime.source_scope.as_str(), config.scope.clone());
    let mode = non_empty_or_default(runtime.mode.as_str(), config.mode.clone());
    let message = task_preflight_message(
        status.as_str(),
        runtime.sources_included,
        runtime.error.as_str(),
        runtime.stage.as_str(),
        runtime.review_file.as_str(),
    );
    let agent_preflight_md = match runtime.agent_preflight {
        Some(a) => a.agent_preflight_md_path,
        None => String::new(),
    };
    let review_launch_md = match runtime.review_launch {
        Some(l) => l.review_launch_md_path,
        None => String::new(),
    };
    AgentContextTaskPreflight {
        status,
        message,
        goal,
        scope,
        mode,
        sources_included: runtime.sources_included,
        codex_preflight_md: runtime.preflight_markdown_path,
        model_input_md: String::new(),
        context_md: unwrap_or_empty(runtime.context_md_path),
        sources_jsonl: unwrap_or_empty(runtime.sources_jsonl_path),
        manifest_json: unwrap_or_empty(runtime.manifest_json_path),
        resolution_plan_json: unwrap_or_empty(runtime.resolution_plan_json_path),
        session_id: runtime.session_id,
        runtime_task_md: runtime.runtime_task_md_path,
        runtime_task_json: runtime.runtime_task_json_path,
        review_file: runtime.review_file,
        agent_preflight_md,
        review_launch_md,
        review_client_html: runtime.client_html_path,
        review_server_url: runtime.review_server_url,
        start_server_command: runtime.start_server_command,
        open_client_command: runtime.open_client_command,
    }
}

/// Whether the line that `s` ends in (the text after its last `\n`) holds
/// something besides white space.
pub open spec fn line_has_content(s: Seq<char>) -> bool
    decreases s.len(),
{
    if s.len() == 0 || s.last() == '\n' {
        false
    } else if !is_white_space(s.last()) {
        true
    } else {
        line_has_content(s.drop_last())
    }
}

/// The number of lines of `s` (split at `\n`) that are not blank: each is
/// counted at its first character that is not white space.
pub open spec fn nonblank_lines(s: Seq<char>) -> nat
    decreases s.len(),
{
    if s.len() == 0 {
        0
    } else {
        nonblank_lines(s.drop_last()) + if !is_white_space(s.last()) && !line_has_content(
            s.drop_last(),
        ) {
            1nat
        } else {
            0nat
        }
    }
}

fn is_white_space_char(c: char) -> (r: bool)
    ensures
        r == is_white_space(c),
{
    ('\u{9}' <= c && c <= '\u{d}') || c == ' ' || c == '\u{85}' || c == '\u{a0}' || c == '\u{1680}'
        || ('\u{2000}' <= c && c <= '\u{200a}') || c == '\u{2028}' || c == '\u{2029}' || c
        == '\u{202f}' || c == '\u{205f}' || c == '\u{3000}'
}

/// The number of lines of `text` that are not blank.
pub fn count_nonblank_lines(text: &str) -> (r: usize)
    ensures
        r == nonblank_lines(text@),
{
    let chars = chars_of(text);
    let n = chars.len();
    let mut count: usize = 0;
    let mut in_content = false;
    let mut i: usize = 0;
    while i < n
        invariant
            n == chars@.len(),
            chars@ == text@,
            0 <= i <= n,
            count == nonblank_lines(text@.take(i as int)),
            count <= i,
            in_content == line_has_content(text@.take(i as int)),
        decreases n - i,
    {
        let c = chars[i];
        assert(text@.take(i + 1).drop_last() =~= text@.take(i as int));
        assert(text@.take(i + 1).last() == c);
        if c == '\n' {
            in_content = false;
        } else if !is_white_space_char(c) {
            if !in_content {
                count = count + 1;
            }
            in_content = true;
        }
        i = i + 1;
    }
    assert(text@.take(n as int) =~= text@);
    count
}

/// The number of sources in a `sources.jsonl` file: its lines that are not
/// blank; 0 when no path is given or the file could not be read
/// (`contents` is `None`).
pub open spec fn jsonl_rows(path: Seq<char>, contents: Option<Seq<char>>) -> nat {
    if is_blank_spec(path) {
        0
    } else {
        match contents {
            Some(t) => nonblank_lines(t),
            None => 0,
        }
    }
}

/// The number of sources in the `sources.jsonl` at `path`, whose text is
/// `contents` when it could be read.
pub fn count_jsonl_rows(path: &str, contents: Option<&str>) -> (r: usize)
    ensures
        r == jsonl_rows(path@, match contents {
            Some(t) => Some(t@),
            None => None,
        }),
{
    if is_blank(path) {
        return 0;
    }
    match contents {
        Some(t) => count_nonblank_lines(t),
        None => 0,
    }
}

/// The preflight that the panel shows once the session built its model
/// input: the session's status (`awaiting_context_review` when blank), the
/// goal of the previous status, the session or the previous one, its files,
/// the review file or else the model input, and a message that asks to
/// review the model input when there is one.
pub open spec fn agent_preflight_maps(
    rt: AgentContextRuntimeAgentPreflight,
    c: AgentContextPanelConfig,
    previous: AgentContextPanelStatus,
    sources_included: usize,
    p: AgentContextTaskPreflight,
) -> bool {
    let model_input = text_or_empty(rt.files.model_input_md_path);
    &&& p.status@ == or_default(rt.status@, "awaiting_context_review"@)
    &&& p.message@ == if is_blank_spec(model_input) {
        or_default(rt.next_message@, "Doctor 已推进到上下文审查，但没有返回 model_input.md。"@)
    } else {
        "Doctor 已生成 model_input.md，请审查后再发给模型。"@
    }
    &&& p.goal@ == previous.last_goal@
    &&& p.scope@ == or_default(rt.source_scope@, c.scope@)
    &&& p.mode@ == or_default(rt.mode@, c.mode@)
    &&& p.sources_included == sources_included
    &&& p.codex_preflight_md@ == rt.agent_preflight_md_path@
    &&& p.model_input_md@ == model_input
    &&& p.context_md@ == text_or_empty(rt.files.context_md_path)
    &&& p.sources_jsonl@ == text_or_empty(rt.files.sources_jsonl_path)
    &&& p.manifest_json@.len() == 0
    &&& p.resolution_plan_json@.len() == 0
    &&& p.session_id@ == or_default(rt.session_id@, previous.last_session_id@)
    &&& p.runtime_task_md@ == text_or_empty(rt.files.runtime_task_md_path)
    &&& p.runtime_task_json@ == text_or_empty(rt.files.runtime_task_json_path)
    &&& p.review_file@ == or_default(rt.review_file@, model_input)
    &&& p.agent_preflight_md@ == rt.agent_preflight_md_path@
    &&& p.review_launch_md@ == text_or_empty(rt.files.runtime_review_launch_md_path)
    &&& p.review_client_html@ == text_or_empty(rt.files.runtime_review_client_html_path)
    &&& p.review_server_url@.len() == 0
    &&& p.start_server_command@.len() == 0
    &&& p.open_client_command@.len() == 0
}

/// The preflight that the panel shows once the session built its model
/// input. `sources_included` is the number of sources in its `sources.jsonl`
/// (see `count_jsonl_rows`).
pub fn agent_preflight_to_task_preflight(
    runtime: AgentContextRuntimeAgentPreflight,
    config: &AgentContextPanelConfig,
    previous: &AgentContextPanelStatus,
    sources_included: usize,
) -> (r: AgentContextTaskPreflight)
    ensures
        agent_preflight_maps(runtime, *config, *previous, sources_included, r),
{
    let context_md = unwrap_or_empty(runtime.files.context_md_path);
    let sources_jsonl = unwrap_or_empty(runtime.files.sources_jsonl_path);
    let model_input_md = unwrap_or_empty(runtime.files.model_input_md_path);
    let status = non_empty_or_default(runtime.status.as_str(), "awaiting_context_review".to_owned());
    let message = if is_blank(model_input_md.as_str()) {
        non_empty_or_default(
            runtime.next_message.as_str(),
            "Doctor 已推进到上下文审查，但没有返回 model_input.md。".to_owned(),
        )
    } else {
        "Doctor 已生成 model_input.md，请审查后再发给模型。".to_owned()
    };
    let review_file = non_empty_or_default(runtime.review_file.as_str(), model_input_md.clone());
    AgentContextTaskPreflight {
        status,
        message,
        goal: previous.last_goal.clone(),
        scope: non_empty_or_default(runtime.source_scope.as_str(), config.scope.clone()),
        mode: non_empty_or_default(runtime.mode.as_str(), config.mode.clone()),
        sources_included,
        codex_preflight_md: runtime.agent_preflight_md_path.clone(),
        model_input_md,
        context_md,
        sources_jsonl,
        manifest_json: String::new(),
        resolution_plan_json: String::new(),
        session_id: non_empty_or_default(
            runtime.session_id.as_str(),
            previous.last_session_id.clone(),
        ),
        runtime_task_md: unwrap_or_empty(runtime.files.runtime_task_md_path),
        runtime_task_json: unwrap_or_empty(runtime.files.runtime_task_json_path),
        review_file,
        agent_preflight_md: runtime.agent_preflight_md_path,
        review_launch_md: unwrap_or_empty(runtime.files.runtime_review_launch_md_path),
        review_client_html: unwrap_or_empty(runtime.files.runtime_review_client_html_path),
        review_server_url: String::new(),
        start_server_command: String::new(),
        open_client_command: String::new(),
    }
}

} // verus!
