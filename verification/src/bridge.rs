//! The review stages of a runtime session (answer and execution review):
//! what their reports become for the live task flow of Codex++.

use vstd::prelude::*;
use crate::commands::strings;
use crate::json::{
    array_at_view, bool_at, bool_at_view, member_or_null, string_at, string_at_view, u64_at,
    u64_at_view, view_get, JsonValue, JsonView,
};
use crate::text::{chars_of, concat2, is_blank, is_blank_spec, join_bytes, join_path_bytes, str_eq, string_of};
use vstd::utf8::encode_utf8;

verus! {

/// The first of `values` that is not blank, as it is; empty when all are.
pub open spec fn first_nonblank(values: Seq<Seq<char>>) -> Seq<char>
    decreases values.len(),
{
    if values.len() == 0 {
        seq![]
    } else if !is_blank_spec(values[0]) {
        values[0]
    } else {
        first_nonblank(values.drop_first())
    }
}

/// The first of `values` that is not blank.
pub fn first_non_empty(values: &[String]) -> (r: String)
    ensures
        r@ == first_nonblank(strings(values@)),
{
    let n = values.len();
    let mut i: usize = 0;
    assert(strings(values@).skip(0) =~= strings(values@));
    while i < n
        invariant
            n == values@.len(),
            0 <= i <= n,
            first_nonblank(strings(values@)) == first_nonblank(strings(values@).skip(i as int)),
        decreases n - i,
    {
        assert(strings(values@).skip(i as int).drop_first() =~= strings(values@).skip(i + 1));
        assert(strings(values@).skip(i as int)[0] == values@[i as int]@);
        if !is_blank(values[i].as_str()) {
            return values[i].clone();
        }
        i = i + 1;
    }
    assert(strings(values@).skip(n as int).len() == 0);
    String::new()
}

fn first_of2(a: String, b: String) -> (r: String)
    ensures
        r@ == first_nonblank(seq![a@, b@]),
{
    let v = vec![a, b];
    let r = first_non_empty(v.as_slice());
    assert(strings(v@) =~= seq![v@[0]@, v@[1]@]);
    r
}

fn first_of3(a: String, b: String, c: String) -> (r: String)
    ensures
        r@ == first_nonblank(seq![a@, b@, c@]),
{
    let v = vec![a, b, c];
    let r = first_non_empty(v.as_slice());
    assert(strings(v@) =~= seq![v@[0]@, v@[1]@, v@[2]@]);
    r
}

fn first_of4(a: String, b: String, c: String, d: String) -> (r: String)
    ensures
        r@ == first_nonblank(seq![a@, b@, c@, d@]),
{
    let v = vec![a, b, c, d];
    let r = first_non_empty(v.as_slice());
    assert(strings(v@) =~= seq![v@[0]@, v@[1]@, v@[2]@, v@[3]@]);
    r
}

/// The JSON array `[]`.
pub fn empty_array() -> (r: JsonValue)
    ensures
        r@ == JsonView::Array(Seq::empty()),
{
    let r = JsonValue::Array(Vec::new());
    proof {
        if let JsonView::Array(a) = r@ {
            assert(a =~= Seq::<JsonView>::empty());
        }
    }
    r
}

/// The member `key` of `v`, or `[]` when it has none.
pub open spec fn member_or_empty_array(v: JsonView, key: Seq<char>) -> JsonView {
    match view_get(v, key) {
        Some(m) => m,
        None => JsonView::Array(Seq::empty()),
    }
}

fn clone_member_or_empty_array(v: &JsonValue, key: &str) -> (r: JsonValue)
    ensures
        r@ == member_or_empty_array(v@, key@),
{
    match v.get(key) {
        Some(m) => m.deep_clone(),
        None => empty_array(),
    }
}

fn member_ref<'a>(v: &'a JsonValue, key: &str, null: &'a JsonValue) -> (r: &'a JsonValue)
    requires
        null@ == JsonView::Null,
    ensures
        r@ == member_or_null(v@, key@),
{
    match v.get(key) {
        Some(m) => m,
        None => null,
    }
}

/// What the live task flow gets once the answer stage is prepared.
#[derive(Debug)]
pub struct AnswerReviewBridge {
    pub status: String,
    pub message: String,
    pub session_id: String,
    pub safe_to_send_model: bool,
    pub approved_model_input_md: String,
    pub agent_handoff_md: String,
    pub answer_packet_md: String,
    pub answer_md: String,
    pub context_md: String,
    pub sources_jsonl: String,
    pub review_file: String,
    pub agent_preflight_md: String,
    pub next_commands: JsonValue,
}

/// The message when the answer report gives none.
pub open spec fn answer_default_message() -> Seq<char> {
    "Use answer_packet.md with the approved Doctor context, then record and review the answer."@
}

/// The answer stage for the live task flow: each file taken from the client
/// contract, else the files, else the action result or the agent handoff; the
/// next message, else the contract's instruction, else a default; whether the
/// model may be sent the context (no when it is not said).
pub open spec fn answer_bridge_maps(raw: JsonView, b: AnswerReviewBridge) -> bool {
    let contract = member_or_null(raw, "client_contract"@);
    let files = member_or_null(raw, "files"@);
    let handoff = member_or_null(raw, "agent_handoff"@);
    let action = member_or_null(raw, "action_result"@);
    &&& b.status@ == string_at_view(raw, "status"@, seq![])
    &&& b.message@ == first_nonblank(
        seq![
            string_at_view(raw, "next_message"@, seq![]),
            string_at_view(contract, "instruction"@, seq![]),
            answer_default_message(),
        ],
    )
    &&& b.session_id@ == string_at_view(raw, "session_id"@, seq![])
    &&& b.safe_to_send_model == (bool_at_view(contract, "safe_to_send_model"@) == Some(true))
    &&& b.approved_model_input_md@ == first_nonblank(
        seq![
            string_at_view(contract, "approved_model_input_md_path"@, seq![]),
            string_at_view(files, "model_input_md_path"@, seq![]),
            string_at_view(handoff, "model_input_md_path"@, seq![]),
        ],
    )
    &&& b.agent_handoff_md@ == first_nonblank(
        seq![
            string_at_view(contract, "agent_handoff_md_path"@, seq![]),
            string_at_view(files, "agent_handoff_md_path"@, seq![]),
            string_at_view(handoff, "agent_handoff_md_path"@, seq![]),
        ],
    )
    &&& b.answer_packet_md@ == first_nonblank(
        seq![
            string_at_view(contract, "answer_packet_md_path"@, seq![]),
            string_at_view(files, "answer_packet_md_path"@, seq![]),
            string_at_view(action, "answer_packet_md_path"@, seq![]),
            string_at_view(handoff, "answer_packet_md_path"@, seq![]),
        ],
    )
    &&& b.answer_md@ == first_nonblank(
        seq![
            string_at_view(contract, "answer_md_path"@, seq![]),
            string_at_view(files, "answer_md_path"@, seq![]),
            string_at_view(action, "answer_md_path"@, seq![]),
        ],
    )
    &&& b.context_md@ == string_at_view(files, "context_md_path"@, seq![])
    &&& b.sources_jsonl@ == string_at_view(files, "sources_jsonl_path"@, seq![])
    &&& b.review_file@ == string_at_view(raw, "review_file"@, seq![])
    &&& b.agent_preflight_md@ == string_at_view(raw, "agent_preflight_md_path"@, seq![])
    &&& b.next_commands@ == member_or_empty_array(raw, "next_commands"@)
}

/// The answer stage for the live task flow, from the report of
/// `agent-context agent-preflight --advance answer`.
pub fn answer_preflight_to_bridge_value(raw: &JsonValue) -> (r: AnswerReviewBridge)
    ensures
        answer_bridge_maps(raw@, r),
{
    let null = JsonValue::Null;
    let contract = member_ref(raw, "client_contract", &null);
    let files = member_ref(raw, "files", &null);
    let handoff = member_ref(raw, "agent_handoff", &null);
    let action = member_ref(raw, "action_result", &null);
    let approved_model_input_md = first_of3(
        string_at(contract, "approved_model_input_md_path", ""),
        string_at(files, "model_input_md_path", ""),
        string_at(handoff, "model_input_md_path", ""),
    );
    let agent_handoff_md = first_of3(
        string_at(contract, "agent_handoff_md_path", ""),
        string_at(files, "agent_handoff_md_path", ""),
        string_at(handoff, "agent_handoff_md_path", ""),
    );
    let answer_packet_md = first_of4(
        string_at(contract, "answer_packet_md_path", ""),
        string_at(files, "answer_packet_md_path", ""),
        string_at(action, "answer_packet_md_path", ""),
        string_at(handoff, "answer_packet_md_path", ""),
    );
    let answer_md = first_of3(
        string_at(contract, "answer_md_path", ""),
        string_at(files, "answer_md_path", ""),
        string_at(action, "answer_md_path", ""),
    );
    let message = first_of3(
        string_at(raw, "next_message", ""),
        string_at(contract, "instruction", ""),
        "Use answer_packet.md with the approved Doctor context, then record and review the answer.".to_owned(),
    );
    let safe_to_send_model = match bool_at(contract, "safe_to_send_model") {
        Some(b) => b,
        None => false,
    };
    proof {
        reveal_strlit("");
        reveal_strlit("Use answer_packet.md with the approved Doctor context, then record and review the answer.");
    }
    assert(""@ =~= Seq::<char>::empty());
    AnswerReviewBridge {
        status: string_at(raw, "status", ""),
        message,
        session_id: string_at(raw, "session_id", ""),
        safe_to_send_model,
        approved_model_input_md,
        agent_handoff_md,
        answer_packet_md,
        answer_md,
        context_md: string_at(files, "context_md_path", ""),
        sources_jsonl: string_at(files, "sources_jsonl_path", ""),
        review_file: string_at(raw, "review_file", ""),
        agent_preflight_md: string_at(raw, "agent_preflight_md_path", ""),
        next_commands: clone_member_or_empty_array(raw, "next_commands"),
    }
}

/// What the live task flow gets once the execution stage is prepared.
#[derive(Debug)]
pub struct ExecutionReviewBridge {
    pub status: String,
    pub message: String,
    pub session_id: String,
    pub safe_to_send_model: bool,
    pub recorded_answer_file: String,
    pub answer_md: String,
    pub execution_review_json: String,
    pub execution_report_md: String,
    pub execution_artifacts_jsonl: String,
    pub execution_artifact_index_md: String,
    pub artifacts_dir: String,
    pub review_file: String,
    pub agent_preflight_md: String,
    pub next_commands: JsonValue,
}

/// The message when the execution report gives none.
pub open spec fn execution_default_message() -> Seq<char> {
    "Doctor has recorded and approved the answer; execution review is ready. Do not run local commands until the user approves an execution command."@
}

/// The execution stage for the live task flow: each file taken from the
/// client contract, else the files, else the action result; the next message,
/// else the contract's instruction, else a default; never safe to send to a
/// model.
pub open spec fn execution_bridge_maps(
    raw: JsonView,
    recorded_answer_file: Seq<char>,
    b: ExecutionReviewBridge,
) -> bool {
    let contract = member_or_null(raw, "client_contract"@);
    let files = member_or_null(raw, "files"@);
    let action = member_or_null(raw, "action_result"@);
    &&& b.status@ == string_at_view(raw, "status"@, seq![])
    &&& b.message@ == first_nonblank(
        seq![
            string_at_view(raw, "next_message"@, seq![]),
            string_at_view(contract, "instruction"@, seq![]),
            execution_default_message(),
        ],
    )
    &&& b.session_id@ == string_at_view(raw, "session_id"@, seq![])
    &&& !b.safe_to_send_model
    &&& b.recorded_answer_file@ == recorded_answer_file
    &&& b.answer_md@ == string_at_view(files, "answer_md_path"@, seq![])
    &&& b.execution_review_json@ == first_nonblank(
        seq![
            string_at_view(files, "execution_review_json_path"@, seq![]),
            string_at_view(action, "execution_review_json_path"@, seq![]),
        ],
    )
    &&& b.execution_report_md@ == first_nonblank(
        seq![
            string_at_view(contract, "execution_report_md_path"@, seq![]),
            string_at_view(files, "execution_report_md_path"@, seq![]),
            string_at_view(action, "execution_report_md_path"@, seq![]),
        ],
    )
    &&& b.execution_artifacts_jsonl@ == string_at_view(
        files,
        "execution_artifact_manifest_jsonl_path"@,
        seq![],
    )
    &&& b.execution_artifact_index_md@ == first_nonblank(
        seq![
            string_at_view(contract, "execution_artifact_index_md_path"@, seq![]),
            string_at_view(files, "execution_artifact_index_md_path"@, seq![]),
            string_at_view(action, "artifact_index_md_path"@, seq![]),
        ],
    )
    &&& b.artifacts_dir@ == string_at_view(files, "artifacts_dir"@, seq![])
    &&& b.review_file@ == string_at_view(raw, "review_file"@, seq![])
    &&& b.agent_preflight_md@ == string_at_view(raw, "agent_preflight_md_path"@, seq![])
    &&& b.next_commands@ == member_or_empty_array(raw, "next_commands"@)
}

/// The execution stage for the live task flow, from the report of
/// `agent-context agent-preflight --advance execution`, with the file that
/// the answer was recorded from.
pub fn execution_preflight_to_bridge_value(
    raw: &JsonValue,
    recorded_answer_file: String,
) -> (r: ExecutionReviewBridge)
    ensures
        execution_bridge_maps(raw@, recorded_answer_file@, r),
{
    let null = JsonValue::Null;
    let contract = member_ref(raw, "client_contract", &null);
    let files = member_ref(raw, "files", &null);
    let action = member_ref(raw, "action_result", &null);
    let execution_report_md = first_of3(
        string_at(contract, "execution_report_md_path", ""),
        string_at(files, "execution_report_md_path", ""),
        string_at(action, "execution_report_md_path", ""),
    );
    let execution_artifact_index_md = first_of3(
        string_at(contract, "execution_artifact_index_md_path", ""),
        string_at(files, "execution_artifact_index_md_path", ""),
        string_at(action, "artifact_index_md_path", ""),
    );
    let execution_review_json = first_of2(
        string_at(files, "execution_review_json_path", ""),
        string_at(action, "execution_review_json_path", ""),
    );
    let message = first_of3(
        string_at(raw, "next_message", ""),
        string_at(contract, "instruction", ""),
        "Doctor has recorded and approved the answer; execution review is ready. Do not run local commands until the user approves an execution command.".to_owned(),
    );
    proof {
        reveal_strlit("");
    }
    assert(""@ =~= Seq::<char>::empty());
    ExecutionReviewBridge {
        status: string_at(raw, "status", ""),
        message,
        session_id: string_at(raw, "session_id", ""),
        safe_to_send_model: false,
        recorded_answer_file,
        answer_md: string_at(files, "answer_md_path", ""),
        execution_review_json,
        execution_report_md,
        execution_artifacts_jsonl: string_at(files, "execution_artifact_manifest_jsonl_path", ""),
        execution_artifact_index_md,
        artifacts_dir: string_at(files, "artifacts_dir", ""),
        review_file: string_at(raw, "review_file", ""),
        agent_preflight_md: string_at(raw, "agent_preflight_md_path", ""),
        next_commands: clone_member_or_empty_array(raw, "next_commands"),
    }
}

/// What the live task flow gets after a command ran, or after the decision on
/// the execution artifacts.
#[derive(Debug)]
pub struct ExecutionRunBridge {
    pub status: String,
    pub message: String,
    pub session_id: String,
    pub safe_to_send_model: bool,
    pub complete: bool,
    pub command: String,
    pub cwd: String,
    pub last_run_id: String,
    pub last_returncode: JsonValue,
    pub last_timed_out: bool,
    pub stdout_path: String,
    pub stderr_path: String,
    pub result_json_path: String,
    pub execution_review_json: String,
    pub execution_report_md: String,
    pub execution_artifacts_jsonl: String,
    pub execution_artifact_index_md: String,
    pub artifacts_dir: String,
    pub review_file: String,
    pub artifact_count: u64,
    pub commands: JsonValue,
    pub external_artifacts: JsonValue,
    pub next_commands: JsonValue,
}

/// The last command of an execution report: the last element of its
/// `commands` array, or `null`.
pub open spec fn last_command(raw: JsonView) -> JsonView {
    match array_at_view(raw, "commands"@) {
        Some(items) => if items.len() > 0 {
            items.last()
        } else {
            JsonView::Null
        },
        None => JsonView::Null,
    }
}

/// The exit code of the last command, else that of the report, else `null`.
pub open spec fn last_returncode(raw: JsonView) -> JsonView {
    match view_get(last_command(raw), "returncode"@) {
        Some(c) => c,
        None => member_or_null(raw, "last_returncode"@),
    }
}

/// Whether the last command timed out, else whether the report says so,
/// else no.
pub open spec fn last_timed_out(raw: JsonView) -> bool {
    match bool_at_view(last_command(raw), "timed_out"@) {
        Some(b) => b,
        None => bool_at_view(raw, "last_timed_out"@) == Some(true),
    }
}

/// An execution report for the live task flow: its status and files, the
/// last command and its outputs, the message `default_message`, complete when
/// the status is `approved`, no next commands.
pub open spec fn run_bridge_maps(raw: JsonView, default_message: Seq<char>, b: ExecutionRunBridge) -> bool {
    let last = last_command(raw);
    &&& b.status@ == string_at_view(raw, "status"@, seq![])
    &&& b.message@ == default_message
    &&& b.session_id@ == string_at_view(raw, "session_id"@, seq![])
    &&& !b.safe_to_send_model
    &&& b.complete == (string_at_view(raw, "status"@, seq![]) == "approved"@)
    &&& b.command@ == string_at_view(last, "command"@, seq![])
    &&& b.cwd@ == string_at_view(last, "cwd"@, seq![])
    &&& b.last_run_id@ == string_at_view(raw, "last_run_id"@, seq![])
    &&& b.last_returncode@ == last_returncode(raw)
    &&& b.last_timed_out == last_timed_out(raw)
    &&& b.stdout_path@ == string_at_view(last, "stdout_path"@, seq![])
    &&& b.stderr_path@ == string_at_view(last, "stderr_path"@, seq![])
    &&& b.result_json_path@ == string_at_view(last, "result_json_path"@, seq![])
    &&& b.execution_review_json@ == string_at_view(raw, "execution_review_json_path"@, seq![])
    &&& b.execution_report_md@ == string_at_view(raw, "execution_report_md_path"@, seq![])
    &&& b.execution_artifacts_jsonl@ == string_at_view(raw, "artifact_manifest_jsonl_path"@, seq![])
    &&& b.execution_artifact_index_md@ == string_at_view(raw, "artifact_index_md_path"@, seq![])
    &&& b.artifacts_dir@ == string_at_view(raw, "artifacts_dir"@, seq![])
    &&& b.review_file@ == string_at_view(raw, "execution_report_md_path"@, seq![])
    &&& b.artifact_count == match u64_at_view(raw, "artifact_count"@) {
        Some(n) => n,
        None => 0,
    }
    &&& b.commands@ == member_or_empty_array(raw, "commands"@)
    &&& b.external_artifacts@ == member_or_empty_array(raw, "external_artifacts"@)
    &&& b.next_commands@ == JsonView::Array(Seq::empty())
}

fn last_command_ref<'a>(raw: &'a JsonValue, null: &'a JsonValue) -> (r: &'a JsonValue)
    requires
        null@ == JsonView::Null,
    ensures
        r@ == last_command(raw@),
{
    match raw.get("commands") {
        Some(JsonValue::Array(items)) => {
            if items.len() > 0 {
                &items[items.len() - 1]
            } else {
                null
            }
        },
        _ => null,
    }
}

/// An execution report for the live task flow, from the report of
/// `agent-context execution-review`, with `default_message` as its message.
pub fn execution_review_to_bridge_value(raw: &JsonValue, default_message: &str) -> (r: ExecutionRunBridge)
    ensures
        run_bridge_maps(raw@, default_message@, r),
{
    let null = JsonValue::Null;
    let last = last_command_ref(raw, &null);
    let status = string_at(raw, "status", "");
    let complete = str_eq(status.as_str(), "approved");
    let last_returncode = match last.get("returncode") {
        Some(c) => c.deep_clone(),
        None => match raw.get("last_returncode") {
            Some(c) => c.deep_clone(),
            None => JsonValue::Null,
        },
    };
    let last_timed_out = match bool_at(last, "timed_out") {
        Some(b) => b,
        None => match bool_at(raw, "last_timed_out") {
            Some(b) => b,
            None => false,
        },
    };
    let artifact_count = match u64_at(raw, "artifact_count") {
        Some(n) => n,
        None => 0,
    };
    proof {
        reveal_strlit("");
    }
    assert(""@ =~= Seq::<char>::empty());
    ExecutionRunBridge {
        status,
        message: default_message.to_owned(),
        session_id: string_at(raw, "session_id", ""),
        safe_to_send_model: false,
        complete,
        command: string_at(last, "command", ""),
        cwd: string_at(last, "cwd", ""),
        last_run_id: string_at(raw, "last_run_id", ""),
        last_returncode,
        last_timed_out,
        stdout_path: string_at(last, "stdout_path", ""),
        stderr_path: string_at(last, "stderr_path", ""),
        result_json_path: string_at(last, "result_json_path", ""),
        execution_review_json: string_at(raw, "execution_review_json_path", ""),
        execution_report_md: string_at(raw, "execution_report_md_path", ""),
        execution_artifacts_jsonl: string_at(raw, "artifact_manifest_jsonl_path", ""),
        execution_artifact_index_md: string_at(raw, "artifact_index_md_path", ""),
        artifacts_dir: string_at(raw, "artifacts_dir", ""),
        review_file: string_at(raw, "execution_report_md_path", ""),
        artifact_count,
        commands: clone_member_or_empty_array(raw, "commands"),
        external_artifacts: clone_member_or_empty_array(raw, "external_artifacts"),
        next_commands: empty_array(),
    }
}

/// Whether a character may stand in a file name as it is: an ASCII letter or
/// digit, `-` or `_`.
pub open spec fn is_filename_char(c: char) -> bool {
    ('a' <= c && c <= 'z') || ('A' <= c && c <= 'Z') || ('0' <= c && c <= '9') || c == '-' || c
        == '_'
}

/// `s` with every other character replaced by `-`.
pub open spec fn filename_chars(s: Seq<char>) -> Seq<char> {
    s.map_values(|c: char| if is_filename_char(c) { c } else { '-' })
}

/// `s` without leading `-`.
pub open spec fn trim_start_dashes(s: Seq<char>) -> Seq<char>
    decreases s.len(),
{
    if s.len() > 0 && s[0] == '-' {
        trim_start_dashes(s.drop_first())
    } else {
        s
    }
}

/// `s` without trailing `-`.
pub open spec fn trim_end_dashes(s: Seq<char>) -> Seq<char>
    decreases s.len(),
{
    if s.len() > 0 && s.last() == '-' {
        trim_end_dashes(s.drop_last())
    } else {
        s
    }
}

/// A session id made fit for a file name: other characters replaced by `-`,
/// leading and trailing `-` removed, and `doctor-session` when nothing is left.
pub open spec fn sanitized(value: Seq<char>) -> Seq<char> {
    let t = trim_end_dashes(trim_start_dashes(filename_chars(value)));
    if t.len() == 0 {
        "doctor-session"@
    } else {
        t
    }
}

proof fn lemma_trim_start_dashes_skip(s: Seq<char>, i: int)
    requires
        0 <= i <= s.len(),
        forall|k: int| 0 <= k < i ==> s[k] == '-',
    ensures
        trim_start_dashes(s) == trim_start_dashes(s.skip(i)),
    decreases i,
{
    if i > 0 {
        assert(s.drop_first().skip(i - 1) =~= s.skip(i));
        lemma_trim_start_dashes_skip(s.drop_first(), i - 1);
    } else {
        assert(s.skip(0) =~= s);
    }
}

proof fn lemma_trim_end_dashes_take(s: Seq<char>, j: int)
    requires
        0 <= j <= s.len(),
        forall|k: int| j <= k < s.len() ==> s[k] == '-',
    ensures
        trim_end_dashes(s) == trim_end_dashes(s.take(j)),
    decreases s.len() - j,
{
    if j < s.len() {
        assert(s.drop_last().take(j) =~= s.take(j));
        lemma_trim_end_dashes_take(s.drop_last(), j);
    } else {
        assert(s.take(j) =~= s);
    }
}

/// A session id made fit for a file name.
pub fn sanitize_filename_component(value: &str) -> (r: String)
    ensures
        r@ == sanitized(value@),
{
    let chars = chars_of(value);
    let n = chars.len();
    let mut mapped: Vec<char> = Vec::new();
    let mut i: usize = 0;
    while i < n
        invariant
            n == chars@.len(),
            chars@ == value@,
            0 <= i <= n,
            mapped@ =~= filename_chars(value@).take(i as int),
        decreases n - i,
    {
        let c = chars[i];
        let ok = ('a' <= c && c <= 'z') || ('A' <= c && c <= 'Z') || ('0' <= c && c <= '9') || c
            == '-' || c == '_';
        if ok {
            mapped.push(c);
        } else {
            mapped.push('-');
        }
        i = i + 1;
    }
    let ghost m = mapped@;
    assert(m =~= filename_chars(value@));
    let mut start: usize = 0;
    while start < n && mapped[start] == '-'
        invariant
            n == m.len(),
            mapped@ == m,
            0 <= start <= n,
            forall|k: int| 0 <= k < start ==> m[k] == '-',
        decreases n - start,
    {
        start = start + 1;
    }
    proof {
        lemma_trim_start_dashes_skip(m, start as int);
        if start < n {
            assert(trim_start_dashes(m.skip(start as int)) == m.skip(start as int));
        } else {
            assert(m.skip(start as int).len() == 0);
        }
    }
    let ghost rest = m.skip(start as int);
    let mut end: usize = n;
    while end > start && mapped[end - 1] == '-'
        invariant
            n == m.len(),
            mapped@ == m,
            rest == m.skip(start as int),
            0 <= start <= end <= n,
            forall|k: int| end <= k < n ==> m[k] == '-',
        decreases end,
    {
        end = end - 1;
    }
    proof {
        let e = end - start;
        assert forall|k: int| e <= k < rest.len() implies rest[k] == '-' by {
            assert(rest[k] == m[k + start]);
        }
        lemma_trim_end_dashes_take(rest, e);
        if e > 0 {
            assert(rest.take(e).last() == m[end - 1]);
            assert(trim_end_dashes(rest.take(e)) == rest.take(e));
        } else {
            assert(rest.take(e).len() == 0);
        }
    }
    let mut kept: Vec<char> = Vec::new();
    let mut k: usize = start;
    while k < end
        invariant
            n == m.len(),
            mapped@ == m,
            0 <= start <= k <= end <= n,
            kept@ =~= m.subrange(start as int, k as int),
        decreases end - k,
    {
        kept.push(mapped[k]);
        k = k + 1;
    }
    assert(kept@ =~= rest.take(end - start));
    if kept.len() == 0 {
        "doctor-session".to_owned()
    } else {
        string_of(&kept)
    }
}

/// The directory, in the state directory `app_state_dir`, where answers are
/// written for review (the bytes of its path), on a platform whose path
/// separator is `sep`.
pub open spec fn answer_review_dir(app_state_dir: Seq<u8>, sep: char) -> Seq<u8> {
    join_bytes(app_state_dir, encode_utf8("agent-context-answer-review"@), sep)
}

/// The file that holds the answer of a session for review.
pub open spec fn answer_review_file(app_state_dir: Seq<u8>, session_id: Seq<char>, sep: char) -> Seq<u8> {
    join_bytes(
        answer_review_dir(app_state_dir, sep),
        encode_utf8(sanitized(session_id) + "-answer.md"@),
        sep,
    )
}

/// The directory and the file where the answer of a session is written for
/// review, on a platform whose path separator is `sep`.
pub fn answer_review_bridge_path(app_state_dir: &[u8], session_id: &str, sep: char) -> (r: (
    Vec<u8>,
    Vec<u8>,
))
    ensures
        r.0@ == answer_review_dir(app_state_dir@, sep),
        r.1@ == answer_review_file(app_state_dir@, session_id@, sep),
{
    let dir = join_path_bytes(app_state_dir, "agent-context-answer-review", sep);
    let name = concat2(sanitize_filename_component(session_id).as_str(), "-answer.md");
    let path = join_path_bytes(dir.as_slice(), name.as_str(), sep);
    (dir, path)
}

} // verus!
