//! What holds of the library as a whole: properties of its results over all
//! inputs, and of one operation followed by another.

use vstd::prelude::*;
use crate::bridge::{filename_chars, is_filename_char, sanitized, trim_end_dashes, trim_start_dashes};
use crate::commands::{failure_message, repeated_args};
use crate::paths::StatePathOverrides;
use crate::config::{
    default_bin_for, default_root_for, normalize_view, valid_mode, valid_scope, ConfigView,
};
use crate::text::{
    is_blank_spec, is_white_space, lemma_trim_end_keeps_front, lemma_trim_idempotent, or_default,
    trim, trim_start,
};
use crate::telemetry::{attached_model, cache_denominator, clamped_limit, recent_rows};
use crate::json::{lookup, view_get, EntryView, JsonView};
use crate::panel::preflight_status_maps;
use crate::preflight::AgentContextTaskPreflight;
use crate::status::AgentContextPanelStatus;
use crate::runtime::{decision_count, decisions_unique};
use crate::preflight::{jsonl_rows, line_has_content, nonblank_lines};
use crate::commands::{panel_args, strings};
use crate::access::{access_policy_args, optional_number_arg, AgentContextAccessPolicyPatch};
use crate::config::AgentContextPanelConfig;
use crate::bridge::{run_bridge_maps, ExecutionRunBridge};

verus! {

/// A text that neither starts nor ends with white space is its own trim.
pub proof fn lemma_trim_of_trimmed(s: Seq<char>)
    requires
        s.len() > 0,
        !is_white_space(s[0]),
        !is_white_space(s.last()),
    ensures
        trim(s) == s,
{
    assert(trim_start(s) == s);
}

/// The message of a failed command is never blank: what the command wrote,
/// trimmed, or its exit status.
pub proof fn law_failure_message_not_blank(stdout: Seq<char>, stderr: Seq<char>, status: Seq<char>)
    ensures
        !is_blank_spec(failure_message(stdout, stderr, status)),
{
    if !is_blank_spec(stderr) {
        lemma_trim_idempotent(stderr);
    } else if !is_blank_spec(stdout) {
        lemma_trim_idempotent(stdout);
    } else {
        let m = "agent-context exited with status "@ + status;
        reveal_strlit("agent-context exited with status ");
        assert(m[0] == 'a');
        assert(trim_start(m) == m);
        lemma_trim_end_keeps_front(m);
    }
}

/// The file name made of a session id is never empty, holds only ASCII
/// letters, digits, `-` and `_`, and neither starts nor ends with `-`.
pub proof fn law_sanitized_is_file_name(value: Seq<char>)
    ensures
        sanitized(value).len() > 0,
        forall|i: int| 0 <= i < sanitized(value).len() ==> is_filename_char(#[trigger] sanitized(value)[i]),
        sanitized(value)[0] != '-',
        sanitized(value).last() != '-',
{
    let f = filename_chars(value);
    lemma_trim_dashes_keep_chars(f);
    let t = trim_end_dashes(trim_start_dashes(f));
    if t.len() == 0 {
        reveal_strlit("doctor-session");
        assert(is_filename_char('d'));
        let d = "doctor-session"@;
        assert forall|i: int| 0 <= i < d.len() implies is_filename_char(#[trigger] d[i]) by {
            assert(d == seq!['d', 'o', 'c', 't', 'o', 'r', '-', 's', 'e', 's', 's', 'i', 'o', 'n']);
        }
    } else {
        lemma_trim_start_dashes_front(f);
        lemma_trim_end_dashes_back(trim_start_dashes(f));
        lemma_trim_end_dashes_keeps_front(trim_start_dashes(f));
    }
}

/// Making a file name of a file name made of a session id changes nothing.
pub proof fn law_sanitized_idempotent(value: Seq<char>)
    ensures
        sanitized(sanitized(value)) == sanitized(value),
{
    let s = sanitized(value);
    law_sanitized_is_file_name(value);
    assert(filename_chars(s) =~= s);
    assert(trim_start_dashes(s) == s);
    assert(trim_end_dashes(s) == s);
}

proof fn lemma_trim_dashes_keep_chars(f: Seq<char>)
    requires
        forall|i: int| 0 <= i < f.len() ==> is_filename_char(#[trigger] f[i]),
    ensures
        forall|i: int|
            0 <= i < trim_end_dashes(trim_start_dashes(f)).len() ==> is_filename_char(
                #[trigger] trim_end_dashes(trim_start_dashes(f))[i],
            ),
{
    lemma_trim_start_dashes_sub(f);
    lemma_trim_end_dashes_sub(trim_start_dashes(f));
}

proof fn lemma_trim_start_dashes_sub(s: Seq<char>)
    ensures
        exists|k: int| 0 <= k <= s.len() && trim_start_dashes(s) == s.skip(k),
    decreases s.len(),
{
    if s.len() > 0 && s[0] == '-' {
        lemma_trim_start_dashes_sub(s.drop_first());
        let k = choose|k: int| 0 <= k <= s.drop_first().len() && trim_start_dashes(s.drop_first()) == s.drop_first().skip(k);
        assert(s.drop_first().skip(k) =~= s.skip(k + 1));
    } else {
        assert(s.skip(0) =~= s);
    }
}

proof fn lemma_trim_end_dashes_sub(s: Seq<char>)
    ensures
        exists|k: int| 0 <= k <= s.len() && trim_end_dashes(s) == s.take(k),
    decreases s.len(),
{
    if s.len() > 0 && s.last() == '-' {
        lemma_trim_end_dashes_sub(s.drop_last());
        let k = choose|k: int| 0 <= k <= s.drop_last().len() && trim_end_dashes(s.drop_last()) == s.drop_last().take(k);
        assert(s.drop_last().take(k) =~= s.take(k));
    } else {
        assert(s.take(s.len() as int) =~= s);
    }
}

proof fn lemma_trim_start_dashes_front(s: Seq<char>)
    ensures
        trim_start_dashes(s).len() == 0 || trim_start_dashes(s)[0] != '-',
    decreases s.len(),
{
    if s.len() > 0 && s[0] == '-' {
        lemma_trim_start_dashes_front(s.drop_first());
    }
}

proof fn lemma_trim_end_dashes_back(s: Seq<char>)
    ensures
        trim_end_dashes(s).len() == 0 || trim_end_dashes(s).last() != '-',
    decreases s.len(),
{
    if s.len() > 0 && s.last() == '-' {
        lemma_trim_end_dashes_back(s.drop_last());
    }
}

proof fn lemma_trim_end_dashes_keeps_front(s: Seq<char>)
    ensures
        s.len() > 0 && s[0] != '-' ==> trim_end_dashes(s).len() > 0 && trim_end_dashes(s)[0] == s[0],
    decreases s.len(),
{
    if s.len() > 1 && s.last() == '-' {
        lemma_trim_end_dashes_keeps_front(s.drop_last());
    }
}

/// The cache hit rate never exceeds one: the cached tokens are at most the
/// tokens the rate is taken over.
pub proof fn law_cache_hit_rate_at_most_one(input: u64, cached: u64, creation: u64)
    ensures
        cached <= cache_denominator(input, cached, creation),
{
}

/// The most recent rows are newest first: there are as many as the limit
/// (kept between 1 and 200) allows, and the first is the last row.
pub proof fn law_recent_rows_newest_first<T>(rows: Seq<T>, limit: usize)
    ensures
        recent_rows(rows, limit).len() == if rows.len() < clamped_limit(limit) {
            rows.len()
        } else {
            clamped_limit(limit)
        },
        forall|i: int|
            0 <= i < recent_rows(rows, limit).len() ==> #[trigger] recent_rows(rows, limit)[i]
                == rows[rows.len() - 1 - i],
{
}

/// A normalized configuration has a scope and a mode that the tool knows.
pub proof fn law_normalized_config_is_known(c: ConfigView, home: Option<Seq<char>>, sep: char)
    ensures
        valid_scope(normalize_view(c, home, sep).scope),
        valid_mode(normalize_view(c, home, sep).mode),
{
}

/// Normalizing keeps a scope and a mode that the tool knows, as they are.
pub proof fn law_known_scope_and_mode_kept(c: ConfigView, home: Option<Seq<char>>, sep: char)
    ensures
        valid_scope(c.scope) ==> normalize_view(c, home, sep).scope == c.scope,
        valid_mode(c.mode) ==> normalize_view(c, home, sep).mode == c.mode,
{
    reveal_strlit("downloads");
    reveal_strlit("gitProjects");
    reveal_strlit("codexSessions");
    reveal_strlit("agentSessions");
    reveal_strlit("workflowDocs");
    reveal_strlit("all");
    reveal_strlit("fast");
    reveal_strlit("deep");
    reveal_strlit("arena");
    if valid_scope(c.scope) {
        lemma_trim_of_trimmed(c.scope);
    }
    if valid_mode(c.mode) {
        lemma_trim_of_trimmed(c.mode);
    }
}

/// A home directory that does not start with white space (the default
/// locations made of it then neither start nor end with white space).
pub open spec fn home_starts_with_text(home: Option<Seq<char>>) -> bool {
    home matches Some(h) ==> (h.len() == 0 || !is_white_space(h[0]))
}

proof fn lemma_default_location_trimmed(base: Seq<char>, rel: Seq<char>, sep: char)
    requires
        base.len() > 0,
        !is_white_space(base[0]),
        rel.len() > 0,
        !is_white_space(rel.last()),
    ensures
        crate::text::join_path(base, rel, sep).len() > 0,
        crate::text::join_path(base, rel, sep)[0] == base[0],
        trim(crate::text::join_path(base, rel, sep)) == crate::text::join_path(base, rel, sep),
        !is_blank_spec(crate::text::join_path(base, rel, sep)),
{
    let j = crate::text::join_path(base, rel, sep);
    assert(j.last() == rel.last());
    lemma_trim_of_trimmed(j);
}

proof fn lemma_default_locations(home: Option<Seq<char>>, sep: char)
    requires
        home_starts_with_text(home),
    ensures
        trim(default_root_for(home, sep)) == default_root_for(home, sep),
        !is_blank_spec(default_root_for(home, sep)),
        trim(default_bin_for(home, sep)) == default_bin_for(home, sep),
        !is_blank_spec(default_bin_for(home, sep)),
{
    reveal_strlit("agent-context-system");
    reveal_strlit("agent-context");
    reveal_strlit("agent-context.exe");
    reveal_strlit(".");
    let base = crate::config::home_or_dot(home);
    let root = default_root_for(home, sep);
    if base.len() == 0 {
        assert(root =~= "agent-context-system"@);
        lemma_trim_of_trimmed(root);
    } else {
        lemma_default_location_trimmed(base, "agent-context-system"@, sep);
    }
    assert(root.len() > 0 && !is_white_space(root[0]));
    lemma_default_location_trimmed(root, crate::config::executable_name(sep), sep);
}

proof fn lemma_or_default_stable(value: Seq<char>, d1: Seq<char>, d2: Seq<char>)
    requires
        trim(d1) == d1,
        !is_blank_spec(d1),
    ensures
        or_default(or_default(value, d1), d2) == or_default(value, d1),
{
    lemma_trim_idempotent(value);
}

/// Normalizing a normalized configuration changes nothing, whatever home
/// directory and path separator the second normalization reads, when the
/// home that the first read does not start with white space (else a default
/// location made of it starts with white space, and the second normalization
/// trims it). `config::normalize_config_for` computes `normalize_view`, so
/// this holds of two calls of it; `normalize_config` reads no home the second
/// time, its locations being no longer blank.
pub proof fn law_normalize_config_idempotent(
    c: ConfigView,
    home: Option<Seq<char>>,
    sep: char,
    other_home: Option<Seq<char>>,
    other_sep: char,
)
    requires
        home_starts_with_text(home),
    ensures
        normalize_view(normalize_view(c, home, sep), other_home, other_sep) == normalize_view(
            c,
            home,
            sep,
        ),
{
    let n = normalize_view(c, home, sep);
    lemma_trim_idempotent(c.scope);
    lemma_trim_idempotent(c.mode);
    reveal_strlit("all");
    reveal_strlit("fast");
    lemma_trim_of_trimmed("all"@);
    lemma_trim_of_trimmed("fast"@);
    lemma_default_locations(home, sep);
    lemma_or_default_stable(
        c.root,
        default_root_for(home, sep),
        default_root_for(other_home, other_sep),
    );
    lemma_or_default_stable(c.bin, default_bin_for(home, sep), default_bin_for(other_home, other_sep));
    assert(normalize_view(n, other_home, other_sep).scope == n.scope);
    assert(normalize_view(n, other_home, other_sep).mode == n.mode);
}

proof fn lemma_lookup_push(entries: Seq<EntryView>, e: EntryView)
    requires
        lookup(entries, e.key) is None,
    ensures
        lookup(entries.push(e), e.key) == Some(e.value),
    decreases entries.len(),
{
    if entries.len() > 0 {
        assert(entries.push(e).drop_first() =~= entries.drop_first().push(e));
        lemma_lookup_push(entries.drop_first(), e);
    } else {
        assert(entries.push(e)[0] == e);
    }
}

/// Once a usage report names a model, naming one again changes nothing; and
/// after a model that is not blank was attached, the report names one.
pub proof fn law_attach_model_idempotent(u: JsonView, model: Seq<char>, again: Seq<char>)
    requires
        u is Null || u is Object,
    ensures
        !is_blank_spec(model) ==> view_get(attached_model(u, model), "model"@) is Some,
        view_get(attached_model(u, model), "model"@) is Some ==> attached_model(
            attached_model(u, model),
            again,
        ) == attached_model(u, model),
{
    let e = EntryView { key: "model"@, value: JsonView::Str(trim(model)) };
    if !is_blank_spec(model) && view_get(u, "model"@) is None {
        match u {
            JsonView::Object(entries) => {
                lemma_lookup_push(entries, e);
            },
            _ => {
                lemma_lookup_push(Seq::empty(), e);
                assert(Seq::<EntryView>::empty().push(e) =~= seq![e]);
            },
        }
    }
}

/// A task preflight never loses a file or the session that the panel knew:
/// where the status before named one, the status after names one too.
pub proof fn law_preflight_status_keeps_known(
    p: AgentContextTaskPreflight,
    previous: AgentContextPanelStatus,
    now: u128,
    r: AgentContextPanelStatus,
)
    requires
        preflight_status_maps(p, previous, now, r),
    ensures
        previous.last_session_id@.len() > 0 ==> r.last_session_id@.len() > 0,
        previous.last_generated_pack@.len() > 0 ==> r.last_generated_pack@.len() > 0,
        previous.last_model_input_md@.len() > 0 ==> r.last_model_input_md@.len() > 0,
        previous.last_codex_preflight_md@.len() > 0 ==> r.last_codex_preflight_md@.len() > 0,
        previous.last_review_file@.len() > 0 ==> r.last_review_file@.len() > 0,
        p.session_id@.len() == 0 ==> r.last_session_id@ == previous.last_session_id@,
{
}

/// Putting back the file that a test replaced restores the overrides as
/// they were: setting a file gives back the one before, and setting that one
/// again undoes the change.
pub proof fn law_override_restore(o: StatePathOverrides, path: Option<Vec<u8>>)
    ensures
        (StatePathOverrides { settings: o.settings, ..(StatePathOverrides { settings: path, ..o }) }) == o,
        (StatePathOverrides {
            cache_telemetry: o.cache_telemetry,
            ..(StatePathOverrides { cache_telemetry: path, ..o })
        }) == o,
        (StatePathOverrides {
            agent_context_panel_config: o.agent_context_panel_config,
            ..(StatePathOverrides { agent_context_panel_config: path, ..o })
        }) == o,
        (StatePathOverrides {
            agent_context_panel_status: o.agent_context_panel_status,
            ..(StatePathOverrides { agent_context_panel_status: path, ..o })
        }) == o,
        (StatePathOverrides {
            agent_context_feedback: o.agent_context_feedback,
            ..(StatePathOverrides { agent_context_feedback: path, ..o })
        }) == o,
{
}

/// The options of a repeated flag come in pairs: the flag, then a value
/// that is not blank and is its own trim; one pair for each value that is
/// not blank.
pub proof fn law_repeated_args_pairs(flag: Seq<char>, values: Seq<Seq<char>>)
    ensures
        repeated_args(flag, values).len() % 2 == 0,
        forall|i: int|
            0 <= i < repeated_args(flag, values).len() && i % 2 == 0 ==> #[trigger] repeated_args(
                flag,
                values,
            )[i] == flag,
        forall|i: int|
            0 <= i < repeated_args(flag, values).len() && i % 2 == 1 ==> !is_blank_spec(
                #[trigger] repeated_args(flag, values)[i],
            ) && trim(repeated_args(flag, values)[i]) == repeated_args(flag, values)[i],
    decreases values.len(),
{
    if values.len() > 0 {
        law_repeated_args_pairs(flag, values.drop_last());
        let rest = repeated_args(flag, values.drop_last());
        let r = repeated_args(flag, values);
        lemma_trim_idempotent(values.last());
        assert forall|i: int| 0 <= i < r.len() && i % 2 == 0 implies #[trigger] r[i] == flag by {
            if i < rest.len() {
                assert(r[i] == rest[i]);
            }
        }
        assert forall|i: int| 0 <= i < r.len() && i % 2 == 1 implies !is_blank_spec(#[trigger] r[i])
            && trim(r[i]) == r[i] by {
            if i < rest.len() {
                assert(r[i] == rest[i]);
            }
        }
    }
}

/// Where each decision is named once, as in the tool's map, the count read
/// for the name of a pair is that pair's count, and a name that no pair has
/// counts 0.
pub proof fn law_decision_count_reads_the_map(decisions: Seq<(String, usize)>, key: Seq<char>)
    requires
        decisions_unique(decisions),
    ensures
        forall|i: int|
            0 <= i < decisions.len() && #[trigger] decisions[i].0@ == key ==> decision_count(
                decisions,
                key,
            ) == decisions[i].1,
        (forall|i: int| 0 <= i < decisions.len() ==> #[trigger] decisions[i].0@ != key)
            ==> decision_count(decisions, key) == 0,
    decreases decisions.len(),
{
    if decisions.len() > 0 {
        let rest = decisions.drop_first();
        assert(decisions_unique(rest)) by {
            assert forall|i: int, j: int| 0 <= i < j < rest.len() implies #[trigger] rest[i].0@
                != #[trigger] rest[j].0@ by {
                assert(rest[i] == decisions[i + 1]);
                assert(rest[j] == decisions[j + 1]);
            }
        }
        law_decision_count_reads_the_map(rest, key);
        assert forall|i: int|
            0 <= i < decisions.len() && #[trigger] decisions[i].0@ == key implies decision_count(
                decisions,
                key,
            ) == decisions[i].1 by {
            if i > 0 {
                assert(decisions[0].0@ != decisions[i].0@);
                assert(rest[i - 1] == decisions[i]);
            }
        }
        if forall|i: int| 0 <= i < decisions.len() ==> #[trigger] decisions[i].0@ != key {
            assert(decisions[0].0@ != key);
            assert forall|i: int| 0 <= i < rest.len() implies #[trigger] rest[i].0@ != key by {
                assert(rest[i] == decisions[i + 1]);
            }
        }
    }
}


/// Whether a line holds a character that is not white space.
pub open spec fn has_content(line: Seq<char>) -> bool {
    exists|i: int| 0 <= i < line.len() && !is_white_space(#[trigger] line[i])
}

proof fn lemma_lines_append(t: Seq<char>, u: Seq<char>)
    requires
        t.len() == 0 || t.last() == '\n',
        forall|i: int| 0 <= i < u.len() ==> #[trigger] u[i] != '\n',
    ensures
        nonblank_lines(t + u) == nonblank_lines(t) + if has_content(u) { 1nat } else { 0nat },
        line_has_content(t + u) == has_content(u),
    decreases u.len(),
{
    if u.len() == 0 {
        assert(t + u =~= t);
    } else {
        let v = u.drop_last();
        let c = u.last();
        assert forall|i: int| 0 <= i < v.len() implies #[trigger] v[i] != '\n' by {
            assert(v[i] == u[i]);
        }
        lemma_lines_append(t, v);
        assert((t + u).drop_last() =~= t + v);
        assert((t + u).last() == c);
        assert(c != '\n');
        if has_content(v) {
            let i = choose|i: int| 0 <= i < v.len() && !is_white_space(#[trigger] v[i]);
            assert(u[i] == v[i]);
        }
        if !is_white_space(c) {
            assert(u[u.len() - 1] == c);
        } else if has_content(u) {
            let i = choose|i: int| 0 <= i < u.len() && !is_white_space(#[trigger] u[i]);
            assert(i < v.len());
            assert(v[i] == u[i]);
        }
    }
}

/// The sources of a `sources.jsonl` are its lines (split at `\n`) that hold
/// something besides white space: after whole lines `t`, a line `l` adds one
/// when it holds a character that is not white space and none when it is
/// blank, whether or not a `\n` ends it, however long it is.
pub proof fn law_nonblank_lines_count_lines(t: Seq<char>, l: Seq<char>)
    requires
        t.len() == 0 || t.last() == '\n',
        forall|i: int| 0 <= i < l.len() ==> #[trigger] l[i] != '\n',
    ensures
        nonblank_lines(t + l) == nonblank_lines(t) + if has_content(l) { 1nat } else { 0nat },
        nonblank_lines(t + l + seq!['\n']) == nonblank_lines(t) + if has_content(l) {
            1nat
        } else {
            0nat
        },
        nonblank_lines(seq![]) == 0,
{
    lemma_lines_append(t, l);
    let x = t + l + seq!['\n'];
    assert(x.drop_last() =~= t + l);
    assert(is_white_space(x.last()));
}

/// The number of sources of a session: none without a path to its
/// `sources.jsonl` or when the file could not be read, else one per line of
/// the file that holds something besides white space.
pub proof fn law_jsonl_rows_counts_nonblank_lines(path: Seq<char>, t: Seq<char>, l: Seq<char>)
    requires
        t.len() == 0 || t.last() == '\n',
        forall|i: int| 0 <= i < l.len() ==> #[trigger] l[i] != '\n',
    ensures
        is_blank_spec(path) ==> jsonl_rows(path, Some(t + l)) == 0,
        jsonl_rows(path, None) == 0,
        !is_blank_spec(path) ==> jsonl_rows(path, Some(t + l)) == jsonl_rows(path, Some(t))
            + if has_content(l) { 1nat } else { 0nat },
{
    law_nonblank_lines_count_lines(t, l);
}

/// The panel command line: the output directory, scope and mode of the
/// configuration and a limit of 8; the goal after `--goal` when there is one;
/// and `--no-auto-context` last whenever Auto Context is off or the goal is
/// empty, else nothing after the goal.
pub proof fn law_panel_args_auto_context(c: AgentContextPanelConfig, goal: Seq<char>)
    ensures
        panel_args(c, goal)[0] == "panel"@,
        panel_args(c, goal)[2] == c.agent_context_root@,
        panel_args(c, goal)[4] == c.scope@,
        panel_args(c, goal)[6] == c.mode@,
        panel_args(c, goal)[8] == "8"@,
        !c.auto_context ==> panel_args(c, goal).last() == "--no-auto-context"@,
        goal.len() == 0 ==> panel_args(c, goal).len() == 10 && panel_args(c, goal).last()
            == "--no-auto-context"@,
        goal.len() > 0 ==> panel_args(c, goal)[9] == "--goal"@ && panel_args(c, goal)[10] == goal,
        c.auto_context && goal.len() > 0 ==> panel_args(c, goal).len() == 11
            && panel_args(c, goal).last() == goal,
        !c.auto_context && goal.len() > 0 ==> panel_args(c, goal).len() == 12,
{
}

/// After a task preflight, each file of the status is the one the preflight
/// names, and the previous one only when it names none (an empty text); the
/// Codex preflight is the first that the preflight names of its Codex
/// preflight, review file and agent preflight.
pub proof fn law_preflight_status_takes_named_files(
    p: AgentContextTaskPreflight,
    previous: AgentContextPanelStatus,
    now: u128,
    r: AgentContextPanelStatus,
)
    requires
        preflight_status_maps(p, previous, now, r),
    ensures
        p.review_file@.len() > 0 ==> r.last_review_file@ == p.review_file@,
        p.review_file@.len() == 0 ==> r.last_review_file@ == previous.last_review_file@,
        p.session_id@.len() > 0 ==> r.last_session_id@ == p.session_id@,
        p.session_id@.len() == 0 ==> r.last_session_id@ == previous.last_session_id@,
        p.context_md@.len() > 0 ==> r.last_generated_pack@ == p.context_md@,
        p.context_md@.len() == 0 ==> r.last_generated_pack@ == previous.last_generated_pack@,
        p.sources_jsonl@.len() > 0 ==> r.last_sources_jsonl@ == p.sources_jsonl@,
        p.sources_jsonl@.len() == 0 ==> r.last_sources_jsonl@ == previous.last_sources_jsonl@,
        p.manifest_json@.len() > 0 ==> r.last_manifest_json@ == p.manifest_json@,
        p.manifest_json@.len() == 0 ==> r.last_manifest_json@ == previous.last_manifest_json@,
        p.resolution_plan_json@.len() > 0 ==> r.last_resolution_plan_json@
            == p.resolution_plan_json@,
        p.resolution_plan_json@.len() == 0 ==> r.last_resolution_plan_json@
            == previous.last_resolution_plan_json@,
        p.model_input_md@.len() > 0 ==> r.last_model_input_md@ == p.model_input_md@,
        p.model_input_md@.len() == 0 ==> r.last_model_input_md@ == previous.last_model_input_md@,
        p.runtime_task_md@.len() > 0 ==> r.last_runtime_task_md@ == p.runtime_task_md@,
        p.runtime_task_md@.len() == 0 ==> r.last_runtime_task_md@
            == previous.last_runtime_task_md@,
        p.review_client_html@.len() > 0 ==> r.last_review_client_html@ == p.review_client_html@,
        p.review_client_html@.len() == 0 ==> r.last_review_client_html@
            == previous.last_review_client_html@,
        p.review_launch_md@.len() > 0 ==> r.last_review_launch_md@ == p.review_launch_md@,
        p.review_launch_md@.len() == 0 ==> r.last_review_launch_md@
            == previous.last_review_launch_md@,
        p.codex_preflight_md@.len() > 0 ==> r.last_codex_preflight_md@ == p.codex_preflight_md@,
        p.codex_preflight_md@.len() == 0 && p.review_file@.len() > 0 ==> r.last_codex_preflight_md@
            == p.review_file@,
        p.codex_preflight_md@.len() == 0 && p.review_file@.len() == 0
            && p.agent_preflight_md@.len() > 0 ==> r.last_codex_preflight_md@
            == p.agent_preflight_md@,
        p.codex_preflight_md@.len() == 0 && p.review_file@.len() == 0
            && p.agent_preflight_md@.len() == 0 ==> r.last_codex_preflight_md@
            == previous.last_codex_preflight_md@,
        r.last_status == p.status,
        r.last_message == p.message,
        r.last_goal == p.goal,
        r.last_generated_at_ms == now,
{
}

/// A run is reported complete exactly when the tool's report has the status
/// `approved`: its member `status` is the string `approved`.
pub proof fn law_run_complete_when_approved(
    raw: JsonView,
    default_message: Seq<char>,
    b: ExecutionRunBridge,
)
    requires
        run_bridge_maps(raw, default_message, b),
    ensures
        b.complete <==> view_get(raw, "status"@) == Some(JsonView::Str("approved"@)),
        forall|st: Seq<char>|
            view_get(raw, "status"@) == Some(JsonView::Str(st)) ==> #[trigger] b.status@ == st,
        forall|id: Seq<char>|
            view_get(raw, "session_id"@) == Some(JsonView::Str(id)) ==> #[trigger] b.session_id@
                == id,
        !b.safe_to_send_model,
        b.message@ == default_message,
{
    reveal_strlit("approved");
    assert("approved"@.len() == 8);
}


/// `args` holds the option `flag` with the value `v`: `v` comes right after
/// `flag`.
pub open spec fn has_option(args: Seq<Seq<char>>, flag: Seq<char>, v: Seq<char>) -> bool {
    exists|i: int| 0 <= i && i + 1 < args.len() && #[trigger] args[i] == flag && args[i + 1] == v
}

/// In the options `s`, (flag, value) pairs, the value after each `flag` is
/// one of `values` that is not blank, trimmed.
pub open spec fn values_after(s: Seq<Seq<char>>, flag: Seq<char>, values: Seq<Seq<char>>) -> bool {
    &&& s.len() % 2 == 0
    &&& forall|k: int|
        0 <= k < s.len() && k % 2 == 0 && #[trigger] s[k] == flag ==> exists|j: int|
            0 <= j < values.len() && !is_blank_spec(values[j]) && s[k + 1] == trim(values[j])
}

proof fn lemma_repeated_values(flag: Seq<char>, values: Seq<Seq<char>>)
    ensures
        values_after(repeated_args(flag, values), flag, values),
        forall|j: int|
            0 <= j < values.len() && !is_blank_spec(#[trigger] values[j]) ==> has_option(
                repeated_args(flag, values),
                flag,
                trim(values[j]),
            ),
    decreases values.len(),
{
    law_repeated_args_pairs(flag, values);
    if values.len() > 0 {
        let v = values.drop_last();
        lemma_repeated_values(flag, v);
        let rest = repeated_args(flag, v);
        let r = repeated_args(flag, values);
        let n = values.len() - 1;
        assert forall|k: int|
            0 <= k < r.len() && k % 2 == 0 && #[trigger] r[k] == flag implies exists|j: int|
                0 <= j < values.len() && !is_blank_spec(values[j]) && r[k + 1] == trim(
                    values[j],
                ) by {
            if k < rest.len() {
                assert(r[k] == rest[k]);
                assert(r[k + 1] == rest[k + 1]);
                let j = choose|j: int|
                    0 <= j < v.len() && !is_blank_spec(v[j]) && rest[k + 1] == trim(v[j]);
                assert(values[j] == v[j]);
            } else {
                assert(values[n] == values.last());
            }
        }
        assert forall|j: int|
            0 <= j < values.len() && !is_blank_spec(#[trigger] values[j]) implies has_option(
                r,
                flag,
                trim(values[j]),
            ) by {
            if j < n {
                assert(values[j] == v[j]);
                assert(has_option(rest, flag, trim(v[j])));
                let i = choose|i: int|
                    0 <= i && i + 1 < rest.len() && #[trigger] rest[i] == flag && rest[i + 1]
                        == trim(v[j]);
                assert(r[i] == rest[i] && r[i + 1] == rest[i + 1]);
            } else {
                assert(values[j] == values.last());
                assert(r[rest.len() as int] == flag);
            }
        }
    }
}

proof fn lemma_segment_values(
    seg_flag: Seq<char>,
    seg_values: Seq<Seq<char>>,
    flag: Seq<char>,
    values: Seq<Seq<char>>,
)
    requires
        seg_flag == flag ==> seg_values == values,
    ensures
        values_after(repeated_args(seg_flag, seg_values), flag, values),
{
    law_repeated_args_pairs(seg_flag, seg_values);
    if seg_flag == flag {
        lemma_repeated_values(flag, values);
    }
}

proof fn lemma_values_after_concat(
    a: Seq<Seq<char>>,
    b: Seq<Seq<char>>,
    flag: Seq<char>,
    values: Seq<Seq<char>>,
)
    requires
        values_after(a, flag, values),
        values_after(b, flag, values),
    ensures
        values_after(a + b, flag, values),
{
    let s = a + b;
    assert forall|k: int|
        0 <= k < s.len() && k % 2 == 0 && #[trigger] s[k] == flag implies exists|j: int|
            0 <= j < values.len() && !is_blank_spec(values[j]) && s[k + 1] == trim(values[j]) by {
        if k < a.len() {
            assert(s[k] == a[k] && s[k + 1] == a[k + 1]);
        } else {
            let m = k - a.len();
            assert(m % 2 == 0);
            assert(s[k] == b[m] && s[k + 1] == b[m + 1]);
        }
    }
}

proof fn lemma_has_option_within(
    a: Seq<Seq<char>>,
    m: Seq<Seq<char>>,
    b: Seq<Seq<char>>,
    flag: Seq<char>,
    v: Seq<char>,
)
    requires
        has_option(m, flag, v),
    ensures
        has_option(a + m + b, flag, v),
{
    let i = choose|i: int| 0 <= i && i + 1 < m.len() && #[trigger] m[i] == flag && m[i + 1] == v;
    let s = a + m + b;
    assert(s[a.len() + i] == m[i]);
    assert(s[a.len() + i + 1] == m[i + 1]);
}

proof fn lemma_policy_flag(
    c: crate::config::AgentContextPanelConfig,
    p: AgentContextAccessPolicyPatch,
    flag: Seq<char>,
    values: Seq<Seq<char>>,
)
    requires
        "--allow-provider"@ == flag ==> strings(p.allow_providers@) == values,
        "--remove-allow-provider"@ == flag ==> strings(p.remove_allow_providers@) == values,
        "--deny-provider"@ == flag ==> strings(p.deny_providers@) == values,
        "--remove-deny-provider"@ == flag ==> strings(p.remove_deny_providers@) == values,
        "--deny-path"@ == flag ==> strings(p.deny_path_patterns@) == values,
        "--remove-deny-path"@ == flag ==> strings(p.remove_deny_path_patterns@) == values,
        "--require-consent-provider"@ == flag ==> strings(p.require_consent_providers@) == values,
        "--remove-require-consent-provider"@ == flag ==> strings(p.remove_require_consent_providers@) == values,
        "--require-consent-path"@ == flag ==> strings(p.require_consent_path_patterns@) == values,
        "--remove-require-consent-path"@ == flag ==> strings(p.remove_require_consent_path_patterns@) == values,
        flag != "--audit-max-bytes"@,
        flag != "--audit-max-rotated-files"@,
    ensures
        values_after(
            access_policy_args(c, p).subrange(3, access_policy_args(c, p).len() as int),
            flag,
            values,
        ),
{
    let s0 = repeated_args("--allow-provider"@, strings(p.allow_providers@));
    let s1 = repeated_args("--remove-allow-provider"@, strings(p.remove_allow_providers@));
    let s2 = repeated_args("--deny-provider"@, strings(p.deny_providers@));
    let s3 = repeated_args("--remove-deny-provider"@, strings(p.remove_deny_providers@));
    let s4 = repeated_args("--deny-path"@, strings(p.deny_path_patterns@));
    let s5 = repeated_args("--remove-deny-path"@, strings(p.remove_deny_path_patterns@));
    let s6 = repeated_args("--require-consent-provider"@, strings(p.require_consent_providers@));
    let s7 = repeated_args("--remove-require-consent-provider"@, strings(p.remove_require_consent_providers@));
    let s8 = repeated_args("--require-consent-path"@, strings(p.require_consent_path_patterns@));
    let s9 = repeated_args("--remove-require-consent-path"@, strings(p.remove_require_consent_path_patterns@));
    let n1 = optional_number_arg("--audit-max-bytes"@, p.audit_max_bytes);
    let n2 = optional_number_arg("--audit-max-rotated-files"@, p.audit_max_rotated_files);
    let args = access_policy_args(c, p);
    let prefix = seq!["access-policy"@, "--out"@, c.agent_context_root@];
    let rest = s0 + s1 + s2 + s3 + s4 + s5 + s6 + s7 + s8 + s9 + n1 + n2;
    assert(args =~= prefix + rest);
    assert(args.subrange(3, args.len() as int) =~= rest);
    lemma_segment_values("--allow-provider"@, strings(p.allow_providers@), flag, values);
    lemma_segment_values("--remove-allow-provider"@, strings(p.remove_allow_providers@), flag, values);
    lemma_segment_values("--deny-provider"@, strings(p.deny_providers@), flag, values);
    lemma_segment_values("--remove-deny-provider"@, strings(p.remove_deny_providers@), flag, values);
    lemma_segment_values("--deny-path"@, strings(p.deny_path_patterns@), flag, values);
    lemma_segment_values("--remove-deny-path"@, strings(p.remove_deny_path_patterns@), flag, values);
    lemma_segment_values("--require-consent-provider"@, strings(p.require_consent_providers@), flag, values);
    lemma_segment_values("--remove-require-consent-provider"@, strings(p.remove_require_consent_providers@), flag, values);
    lemma_segment_values("--require-consent-path"@, strings(p.require_consent_path_patterns@), flag, values);
    lemma_segment_values("--remove-require-consent-path"@, strings(p.remove_require_consent_path_patterns@), flag, values);
    assert(values_after(n1, flag, values));
    assert(values_after(n2, flag, values));
    lemma_values_after_concat(s0, s1, flag, values);
    lemma_values_after_concat(s0 + s1, s2, flag, values);
    lemma_values_after_concat(s0 + s1 + s2, s3, flag, values);
    lemma_values_after_concat(s0 + s1 + s2 + s3, s4, flag, values);
    lemma_values_after_concat(s0 + s1 + s2 + s3 + s4, s5, flag, values);
    lemma_values_after_concat(s0 + s1 + s2 + s3 + s4 + s5, s6, flag, values);
    lemma_values_after_concat(s0 + s1 + s2 + s3 + s4 + s5 + s6, s7, flag, values);
    lemma_values_after_concat(s0 + s1 + s2 + s3 + s4 + s5 + s6 + s7, s8, flag, values);
    lemma_values_after_concat(s0 + s1 + s2 + s3 + s4 + s5 + s6 + s7 + s8, s9, flag, values);
    lemma_values_after_concat(s0 + s1 + s2 + s3 + s4 + s5 + s6 + s7 + s8 + s9, n1, flag, values);
    lemma_values_after_concat(s0 + s1 + s2 + s3 + s4 + s5 + s6 + s7 + s8 + s9 + n1, n2, flag, values);
}

proof fn lemma_policy_has_allow_providers(c: crate::config::AgentContextPanelConfig, p: AgentContextAccessPolicyPatch)
    ensures
        forall|j: int|
            0 <= j < p.allow_providers@.len() && !is_blank_spec(#[trigger] p.allow_providers@[j]@) ==> has_option(
                access_policy_args(c, p),
                "--allow-provider"@,
                trim(p.allow_providers@[j]@),
            ),
{
    let s0 = repeated_args("--allow-provider"@, strings(p.allow_providers@));
    let s1 = repeated_args("--remove-allow-provider"@, strings(p.remove_allow_providers@));
    let s2 = repeated_args("--deny-provider"@, strings(p.deny_providers@));
    let s3 = repeated_args("--remove-deny-provider"@, strings(p.remove_deny_providers@));
    let s4 = repeated_args("--deny-path"@, strings(p.deny_path_patterns@));
    let s5 = repeated_args("--remove-deny-path"@, strings(p.remove_deny_path_patterns@));
    let s6 = repeated_args("--require-consent-provider"@, strings(p.require_consent_providers@));
    let s7 = repeated_args("--remove-require-consent-provider"@, strings(p.remove_require_consent_providers@));
    let s8 = repeated_args("--require-consent-path"@, strings(p.require_consent_path_patterns@));
    let s9 = repeated_args("--remove-require-consent-path"@, strings(p.remove_require_consent_path_patterns@));
    let n1 = optional_number_arg("--audit-max-bytes"@, p.audit_max_bytes);
    let n2 = optional_number_arg("--audit-max-rotated-files"@, p.audit_max_rotated_files);
    let args = access_policy_args(c, p);
    let prefix = seq!["access-policy"@, "--out"@, c.agent_context_root@];
    assert(args =~= prefix + s0 + (s1 + s2 + s3 + s4 + s5 + s6 + s7 + s8 + s9 + n1 + n2));
    lemma_repeated_values("--allow-provider"@, strings(p.allow_providers@));
    assert forall|j: int|
        0 <= j < p.allow_providers@.len() && !is_blank_spec(#[trigger] p.allow_providers@[j]@) implies has_option(
            args,
            "--allow-provider"@,
            trim(p.allow_providers@[j]@),
        ) by {
        assert(strings(p.allow_providers@)[j] == p.allow_providers@[j]@);
        lemma_has_option_within(prefix, s0, s1 + s2 + s3 + s4 + s5 + s6 + s7 + s8 + s9 + n1 + n2, "--allow-provider"@, trim(p.allow_providers@[j]@));
    }
}

proof fn lemma_policy_after_allow_providers(c: crate::config::AgentContextPanelConfig, p: AgentContextAccessPolicyPatch)
    ensures
        values_after(
            access_policy_args(c, p).subrange(3, access_policy_args(c, p).len() as int),
            "--allow-provider"@,
            strings(p.allow_providers@),
        ),
{
    reveal_strlit("--allow-provider");
    reveal_strlit("--remove-allow-provider");
    reveal_strlit("--deny-provider");
    reveal_strlit("--remove-deny-provider");
    reveal_strlit("--deny-path");
    reveal_strlit("--remove-deny-path");
    reveal_strlit("--require-consent-provider");
    reveal_strlit("--remove-require-consent-provider");
    reveal_strlit("--require-consent-path");
    reveal_strlit("--remove-require-consent-path");
    reveal_strlit("--audit-max-bytes");
    reveal_strlit("--audit-max-rotated-files");
    assert("--allow-provider"@.len() == 16);
    assert("--remove-allow-provider"@.len() == 23);
    assert("--deny-provider"@.len() == 15);
    assert("--remove-deny-provider"@.len() == 22);
    assert("--deny-path"@.len() == 11);
    assert("--remove-deny-path"@.len() == 18);
    assert("--require-consent-provider"@.len() == 26);
    assert("--remove-require-consent-provider"@.len() == 33);
    assert("--require-consent-path"@.len() == 22);
    assert("--remove-require-consent-path"@.len() == 29);
    assert("--audit-max-bytes"@.len() == 17);
    assert("--audit-max-rotated-files"@.len() == 25);
    assert("--remove-deny-provider"@[4] != "--require-consent-path"@[4]);
    lemma_policy_flag(c, p, "--allow-provider"@, strings(p.allow_providers@));
}

proof fn lemma_policy_has_remove_allow_providers(c: crate::config::AgentContextPanelConfig, p: AgentContextAccessPolicyPatch)
    ensures
        forall|j: int|
            0 <= j < p.remove_allow_providers@.len() && !is_blank_spec(#[trigger] p.remove_allow_providers@[j]@) ==> has_option(
                access_policy_args(c, p),
                "--remove-allow-provider"@,
                trim(p.remove_allow_providers@[j]@),
            ),
{
    let s0 = repeated_args("--allow-provider"@, strings(p.allow_providers@));
    let s1 = repeated_args("--remove-allow-provider"@, strings(p.remove_allow_providers@));
    let s2 = repeated_args("--deny-provider"@, strings(p.deny_providers@));
    let s3 = repeated_args("--remove-deny-provider"@, strings(p.remove_deny_providers@));
    let s4 = repeated_args("--deny-path"@, strings(p.deny_path_patterns@));
    let s5 = repeated_args("--remove-deny-path"@, strings(p.remove_deny_path_patterns@));
    let s6 = repeated_args("--require-consent-provider"@, strings(p.require_consent_providers@));
    let s7 = repeated_args("--remove-require-consent-provider"@, strings(p.remove_require_consent_providers@));
    let s8 = repeated_args("--require-consent-path"@, strings(p.require_consent_path_patterns@));
    let s9 = repeated_args("--remove-require-consent-path"@, strings(p.remove_require_consent_path_patterns@));
    let n1 = optional_number_arg("--audit-max-bytes"@, p.audit_max_bytes);
    let n2 = optional_number_arg("--audit-max-rotated-files"@, p.audit_max_rotated_files);
    let args = access_policy_args(c, p);
    let prefix = seq!["access-policy"@, "--out"@, c.agent_context_root@];
    assert(args =~= prefix + s0 + s1 + (s2 + s3 + s4 + s5 + s6 + s7 + s8 + s9 + n1 + n2));
    lemma_repeated_values("--remove-allow-provider"@, strings(p.remove_allow_providers@));
    assert forall|j: int|
        0 <= j < p.remove_allow_providers@.len() && !is_blank_spec(#[trigger] p.remove_allow_providers@[j]@) implies has_option(
            args,
            "--remove-allow-provider"@,
            trim(p.remove_allow_providers@[j]@),
        ) by {
        assert(strings(p.remove_allow_providers@)[j] == p.remove_allow_providers@[j]@);
        lemma_has_option_within(prefix + s0, s1, s2 + s3 + s4 + s5 + s6 + s7 + s8 + s9 + n1 + n2, "--remove-allow-provider"@, trim(p.remove_allow_providers@[j]@));
    }
}

proof fn lemma_policy_after_remove_allow_providers(c: crate::config::AgentContextPanelConfig, p: AgentContextAccessPolicyPatch)
    ensures
        values_after(
            access_policy_args(c, p).subrange(3, access_policy_args(c, p).len() as int),
            "--remove-allow-provider"@,
            strings(p.remove_allow_providers@),
        ),
{
    reveal_strlit("--allow-provider");
    reveal_strlit("--remove-allow-provider");
    reveal_strlit("--deny-provider");
    reveal_strlit("--remove-deny-provider");
    reveal_strlit("--deny-path");
    reveal_strlit("--remove-deny-path");
    reveal_strlit("--require-consent-provider");
    reveal_strlit("--remove-require-consent-provider");
    reveal_strlit("--require-consent-path");
    reveal_strlit("--remove-require-consent-path");
    reveal_strlit("--audit-max-bytes");
    reveal_strlit("--audit-max-rotated-files");
    assert("--allow-provider"@.len() == 16);
    assert("--remove-allow-provider"@.len() == 23);
    assert("--deny-provider"@.len() == 15);
    assert("--remove-deny-provider"@.len() == 22);
    assert("--deny-path"@.len() == 11);
    assert("--remove-deny-path"@.len() == 18);
    assert("--require-consent-provider"@.len() == 26);
    assert("--remove-require-consent-provider"@.len() == 33);
    assert("--require-consent-path"@.len() == 22);
    assert("--remove-require-consent-path"@.len() == 29);
    assert("--audit-max-bytes"@.len() == 17);
    assert("--audit-max-rotated-files"@.len() == 25);
    assert("--remove-deny-provider"@[4] != "--require-consent-path"@[4]);
    lemma_policy_flag(c, p, "--remove-allow-provider"@, strings(p.remove_allow_providers@));
}

proof fn lemma_policy_has_deny_providers(c: crate::config::AgentContextPanelConfig, p: AgentContextAccessPolicyPatch)
    ensures
        forall|j: int|
            0 <= j < p.deny_providers@.len() && !is_blank_spec(#[trigger] p.deny_providers@[j]@) ==> has_option(
                access_policy_args(c, p),
                "--deny-provider"@,
                trim(p.deny_providers@[j]@),
            ),
{
    let s0 = repeated_args("--allow-provider"@, strings(p.allow_providers@));
    let s1 = repeated_args("--remove-allow-provider"@, strings(p.remove_allow_providers@));
    let s2 = repeated_args("--deny-provider"@, strings(p.deny_providers@));
    let s3 = repeated_args("--remove-deny-provider"@, strings(p.remove_deny_providers@));
    let s4 = repeated_args("--deny-path"@, strings(p.deny_path_patterns@));
    let s5 = repeated_args("--remove-deny-path"@, strings(p.remove_deny_path_patterns@));
    let s6 = repeated_args("--require-consent-provider"@, strings(p.require_consent_providers@));
    let s7 = repeated_args("--remove-require-consent-provider"@, strings(p.remove_require_consent_providers@));
    let s8 = repeated_args("--require-consent-path"@, strings(p.require_consent_path_patterns@));
    let s9 = repeated_args("--remove-require-consent-path"@, strings(p.remove_require_consent_path_patterns@));
    let n1 = optional_number_arg("--audit-max-bytes"@, p.audit_max_bytes);
    let n2 = optional_number_arg("--audit-max-rotated-files"@, p.audit_max_rotated_files);
    let args = access_policy_args(c, p);
    let prefix = seq!["access-policy"@, "--out"@, c.agent_context_root@];
    assert(args =~= prefix + s0 + s1 + s2 + (s3 + s4 + s5 + s6 + s7 + s8 + s9 + n1 + n2));
    lemma_repeated_values("--deny-provider"@, strings(p.deny_providers@));
    assert forall|j: int|
        0 <= j < p.deny_providers@.len() && !is_blank_spec(#[trigger] p.deny_providers@[j]@) implies has_option(
            args,
            "--deny-provider"@,
            trim(p.deny_providers@[j]@),
        ) by {
        assert(strings(p.deny_providers@)[j] == p.deny_providers@[j]@);
        lemma_has_option_within(prefix + s0 + s1, s2, s3 + s4 + s5 + s6 + s7 + s8 + s9 + n1 + n2, "--deny-provider"@, trim(p.deny_providers@[j]@));
    }
}

proof fn lemma_policy_after_deny_providers(c: crate::config::AgentContextPanelConfig, p: AgentContextAccessPolicyPatch)
    ensures
        values_after(
            access_policy_args(c, p).subrange(3, access_policy_args(c, p).len() as int),
            "--deny-provider"@,
            strings(p.deny_providers@),
        ),
{
    reveal_strlit("--allow-provider");
    reveal_strlit("--remove-allow-provider");
    reveal_strlit("--deny-provider");
    reveal_strlit("--remove-deny-provider");
    reveal_strlit("--deny-path");
    reveal_strlit("--remove-deny-path");
    reveal_strlit("--require-consent-provider");
    reveal_strlit("--remove-require-consent-provider");
    reveal_strlit("--require-consent-path");
    reveal_strlit("--remove-require-consent-path");
    reveal_strlit("--audit-max-bytes");
    reveal_strlit("--audit-max-rotated-files");
    assert("--allow-provider"@.len() == 16);
    assert("--remove-allow-provider"@.len() == 23);
    assert("--deny-provider"@.len() == 15);
    assert("--remove-deny-provider"@.len() == 22);
    assert("--deny-path"@.len() == 11);
    assert("--remove-deny-path"@.len() == 18);
    assert("--require-consent-provider"@.len() == 26);
    assert("--remove-require-consent-provider"@.len() == 33);
    assert("--require-consent-path"@.len() == 22);
    assert("--remove-require-consent-path"@.len() == 29);
    assert("--audit-max-bytes"@.len() == 17);
    assert("--audit-max-rotated-files"@.len() == 25);
    assert("--remove-deny-provider"@[4] != "--require-consent-path"@[4]);
    lemma_policy_flag(c, p, "--deny-provider"@, strings(p.deny_providers@));
}

proof fn lemma_policy_has_remove_deny_providers(c: crate::config::AgentContextPanelConfig, p: AgentContextAccessPolicyPatch)
    ensures
        forall|j: int|
            0 <= j < p.remove_deny_providers@.len() && !is_blank_spec(#[trigger] p.remove_deny_providers@[j]@) ==> has_option(
                access_policy_args(c, p),
                "--remove-deny-provider"@,
                trim(p.remove_deny_providers@[j]@),
            ),
{
    let s0 = repeated_args("--allow-provider"@, strings(p.allow_providers@));
    let s1 = repeated_args("--remove-allow-provider"@, strings(p.remove_allow_providers@));
    let s2 = repeated_args("--deny-provider"@, strings(p.deny_providers@));
    let s3 = repeated_args("--remove-deny-provider"@, strings(p.remove_deny_providers@));
    let s4 = repeated_args("--deny-path"@, strings(p.deny_path_patterns@));
    let s5 = repeated_args("--remove-deny-path"@, strings(p.remove_deny_path_patterns@));
    let s6 = repeated_args("--require-consent-provider"@, strings(p.require_consent_providers@));
    let s7 = repeated_args("--remove-require-consent-provider"@, strings(p.remove_require_consent_providers@));
    let s8 = repeated_args("--require-consent-path"@, strings(p.require_consent_path_patterns@));
    let s9 = repeated_args("--remove-require-consent-path"@, strings(p.remove_require_consent_path_patterns@));
    let n1 = optional_number_arg("--audit-max-bytes"@, p.audit_max_bytes);
    let n2 = optional_number_arg("--audit-max-rotated-files"@, p.audit_max_rotated_files);
    let args = access_policy_args(c, p);
    let prefix = seq!["access-policy"@, "--out"@, c.agent_context_root@];
    assert(args =~= prefix + s0 + s1 + s2 + s3 + (s4 + s5 + s6 + s7 + s8 + s9 + n1 + n2));
    lemma_repeated_values("--remove-deny-provider"@, strings(p.remove_deny_providers@));
    assert forall|j: int|
        0 <= j < p.remove_deny_providers@.len() && !is_blank_spec(#[trigger] p.remove_deny_providers@[j]@) implies has_option(
            args,
            "--remove-deny-provider"@,
            trim(p.remove_deny_providers@[j]@),
        ) by {
        assert(strings(p.remove_deny_providers@)[j] == p.remove_deny_providers@[j]@);
        lemma_has_option_within(prefix + s0 + s1 + s2, s3, s4 + s5 + s6 + s7 + s8 + s9 + n1 + n2, "--remove-deny-provider"@, trim(p.remove_deny_providers@[j]@));
    }
}

proof fn lemma_policy_after_remove_deny_providers(c: crate::config::AgentContextPanelConfig, p: AgentContextAccessPolicyPatch)
    ensures
        values_after(
            access_policy_args(c, p).subrange(3, access_policy_args(c, p).len() as int),
            "--remove-deny-provider"@,
            strings(p.remove_deny_providers@),
        ),
{
    reveal_strlit("--allow-provider");
    reveal_strlit("--remove-allow-provider");
    reveal_strlit("--deny-provider");
    reveal_strlit("--remove-deny-provider");
    reveal_strlit("--deny-path");
    reveal_strlit("--remove-deny-path");
    reveal_strlit("--require-consent-provider");
    reveal_strlit("--remove-require-consent-provider");
    reveal_strlit("--require-consent-path");
    reveal_strlit("--remove-require-consent-path");
    reveal_strlit("--audit-max-bytes");
    reveal_strlit("--audit-max-rotated-files");
    assert("--allow-provider"@.len() == 16);
    assert("--remove-allow-provider"@.len() == 23);
    assert("--deny-provider"@.len() == 15);
    assert("--remove-deny-provider"@.len() == 22);
    assert("--deny-path"@.len() == 11);
    assert("--remove-deny-path"@.len() == 18);
    assert("--require-consent-provider"@.len() == 26);
    assert("--remove-require-consent-provider"@.len() == 33);
    assert("--require-consent-path"@.len() == 22);
    assert("--remove-require-consent-path"@.len() == 29);
    assert("--audit-max-bytes"@.len() == 17);
    assert("--audit-max-rotated-files"@.len() == 25);
    assert("--remove-deny-provider"@[4] != "--require-consent-path"@[4]);
    lemma_policy_flag(c, p, "--remove-deny-provider"@, strings(p.remove_deny_providers@));
}

proof fn lemma_policy_has_deny_path_patterns(c: crate::config::AgentContextPanelConfig, p: AgentContextAccessPolicyPatch)
    ensures
        forall|j: int|
            0 <= j < p.deny_path_patterns@.len() && !is_blank_spec(#[trigger] p.deny_path_patterns@[j]@) ==> has_option(
                access_policy_args(c, p),
                "--deny-path"@,
                trim(p.deny_path_patterns@[j]@),
            ),
{
    let s0 = repeated_args("--allow-provider"@, strings(p.allow_providers@));
    let s1 = repeated_args("--remove-allow-provider"@, strings(p.remove_allow_providers@));
    let s2 = repeated_args("--deny-provider"@, strings(p.deny_providers@));
    let s3 = repeated_args("--remove-deny-provider"@, strings(p.remove_deny_providers@));
    let s4 = repeated_args("--deny-path"@, strings(p.deny_path_patterns@));
    let s5 = repeated_args("--remove-deny-path"@, strings(p.remove_deny_path_patterns@));
    let s6 = repeated_args("--require-consent-provider"@, strings(p.require_consent_providers@));
    let s7 = repeated_args("--remove-require-consent-provider"@, strings(p.remove_require_consent_providers@));
    let s8 = repeated_args("--require-consent-path"@, strings(p.require_consent_path_patterns@));
    let s9 = repeated_args("--remove-require-consent-path"@, strings(p.remove_require_consent_path_patterns@));
    let n1 = optional_number_arg("--audit-max-bytes"@, p.audit_max_bytes);
    let n2 = optional_number_arg("--audit-max-rotated-files"@, p.audit_max_rotated_files);
    let args = access_policy_args(c, p);
    let prefix = seq!["access-policy"@, "--out"@, c.agent_context_root@];
    assert(args =~= prefix + s0 + s1 + s2 + s3 + s4 + (s5 + s6 + s7 + s8 + s9 + n1 + n2));
    lemma_repeated_values("--deny-path"@, strings(p.deny_path_patterns@));
    assert forall|j: int|
        0 <= j < p.deny_path_patterns@.len() && !is_blank_spec(#[trigger] p.deny_path_patterns@[j]@) implies has_option(
            args,
            "--deny-path"@,
            trim(p.deny_path_patterns@[j]@),
        ) by {
        assert(strings(p.deny_path_patterns@)[j] == p.deny_path_patterns@[j]@);
        lemma_has_option_within(prefix + s0 + s1 + s2 + s3, s4, s5 + s6 + s7 + s8 + s9 + n1 + n2, "--deny-path"@, trim(p.deny_path_patterns@[j]@));
    }
}

proof fn lemma_policy_after_deny_path_patterns(c: crate::config::AgentContextPanelConfig, p: AgentContextAccessPolicyPatch)
    ensures
        values_after(
            access_policy_args(c, p).subrange(3, access_policy_args(c, p).len() as int),
            "--deny-path"@,
            strings(p.deny_path_patterns@),
        ),
{
    reveal_strlit("--allow-provider");
    reveal_strlit("--remove-allow-provider");
    reveal_strlit("--deny-provider");
    reveal_strlit("--remove-deny-provider");
    reveal_strlit("--deny-path");
    reveal_strlit("--remove-deny-path");
    reveal_strlit("--require-consent-provider");
    reveal_strlit("--remove-require-consent-provider");
    reveal_strlit("--require-consent-path");
    reveal_strlit("--remove-require-consent-path");
    reveal_strlit("--audit-max-bytes");
    reveal_strlit("--audit-max-rotated-files");
    assert("--allow-provider"@.len() == 16);
    assert("--remove-allow-provider"@.len() == 23);
    assert("--deny-provider"@.len() == 15);
    assert("--remove-deny-provider"@.len() == 22);
    assert("--deny-path"@.len() == 11);
    assert("--remove-deny-path"@.len() == 18);
    assert("--require-consent-provider"@.len() == 26);
    assert("--remove-require-consent-provider"@.len() == 33);
    assert("--require-consent-path"@.len() == 22);
    assert("--remove-require-consent-path"@.len() == 29);
    assert("--audit-max-bytes"@.len() == 17);
    assert("--audit-max-rotated-files"@.len() == 25);
    assert("--remove-deny-provider"@[4] != "--require-consent-path"@[4]);
    lemma_policy_flag(c, p, "--deny-path"@, strings(p.deny_path_patterns@));
}

proof fn lemma_policy_has_remove_deny_path_patterns(c: crate::config::AgentContextPanelConfig, p: AgentContextAccessPolicyPatch)
    ensures
        forall|j: int|
            0 <= j < p.remove_deny_path_patterns@.len() && !is_blank_spec(#[trigger] p.remove_deny_path_patterns@[j]@) ==> has_option(
                access_policy_args(c, p),
                "--remove-deny-path"@,
                trim(p.remove_deny_path_patterns@[j]@),
            ),
{
    let s0 = repeated_args("--allow-provider"@, strings(p.allow_providers@));
    let s1 = repeated_args("--remove-allow-provider"@, strings(p.remove_allow_providers@));
    let s2 = repeated_args("--deny-provider"@, strings(p.deny_providers@));
    let s3 = repeated_args("--remove-deny-provider"@, strings(p.remove_deny_providers@));
    let s4 = repeated_args("--deny-path"@, strings(p.deny_path_patterns@));
    let s5 = repeated_args("--remove-deny-path"@, strings(p.remove_deny_path_patterns@));
    let s6 = repeated_args("--require-consent-provider"@, strings(p.require_consent_providers@));
    let s7 = repeated_args("--remove-require-consent-provider"@, strings(p.remove_require_consent_providers@));
    let s8 = repeated_args("--require-consent-path"@, strings(p.require_consent_path_patterns@));
    let s9 = repeated_args("--remove-require-consent-path"@, strings(p.remove_require_consent_path_patterns@));
    let n1 = optional_number_arg("--audit-max-bytes"@, p.audit_max_bytes);
    let n2 = optional_number_arg("--audit-max-rotated-files"@, p.audit_max_rotated_files);
    let args = access_policy_args(c, p);
    let prefix = seq!["access-policy"@, "--out"@, c.agent_context_root@];
    assert(args =~= prefix + s0 + s1 + s2 + s3 + s4 + s5 + (s6 + s7 + s8 + s9 + n1 + n2));
    lemma_repeated_values("--remove-deny-path"@, strings(p.remove_deny_path_patterns@));
    assert forall|j: int|
        0 <= j < p.remove_deny_path_patterns@.len() && !is_blank_spec(#[trigger] p.remove_deny_path_patterns@[j]@) implies has_option(
            args,
            "--remove-deny-path"@,
            trim(p.remove_deny_path_patterns@[j]@),
        ) by {
        assert(strings(p.remove_deny_path_patterns@)[j] == p.remove_deny_path_patterns@[j]@);
        lemma_has_option_within(prefix + s0 + s1 + s2 + s3 + s4, s5, s6 + s7 + s8 + s9 + n1 + n2, "--remove-deny-path"@, trim(p.remove_deny_path_patterns@[j]@));
    }
}

proof fn lemma_policy_after_remove_deny_path_patterns(c: crate::config::AgentContextPanelConfig, p: AgentContextAccessPolicyPatch)
    ensures
        values_after(
            access_policy_args(c, p).subrange(3, access_policy_args(c, p).len() as int),
            "--remove-deny-path"@,
            strings(p.remove_deny_path_patterns@),
        ),
{
    reveal_strlit("--allow-provider");
    reveal_strlit("--remove-allow-provider");
    reveal_strlit("--deny-provider");
    reveal_strlit("--remove-deny-provider");
    reveal_strlit("--deny-path");
    reveal_strlit("--remove-deny-path");
    reveal_strlit("--require-consent-provider");
    reveal_strlit("--remove-require-consent-provider");
    reveal_strlit("--require-consent-path");
    reveal_strlit("--remove-require-consent-path");
    reveal_strlit("--audit-max-bytes");
    reveal_strlit("--audit-max-rotated-files");
    assert("--allow-provider"@.len() == 16);
    assert("--remove-allow-provider"@.len() == 23);
    assert("--deny-provider"@.len() == 15);
    assert("--remove-deny-provider"@.len() == 22);
    assert("--deny-path"@.len() == 11);
    assert("--remove-deny-path"@.len() == 18);
    assert("--require-consent-provider"@.len() == 26);
    assert("--remove-require-consent-provider"@.len() == 33);
    assert("--require-consent-path"@.len() == 22);
    assert("--remove-require-consent-path"@.len() == 29);
    assert("--audit-max-bytes"@.len() == 17);
    assert("--audit-max-rotated-files"@.len() == 25);
    assert("--remove-deny-provider"@[4] != "--require-consent-path"@[4]);
    lemma_policy_flag(c, p, "--remove-deny-path"@, strings(p.remove_deny_path_patterns@));
}

proof fn lemma_policy_has_require_consent_providers(c: crate::config::AgentContextPanelConfig, p: AgentContextAccessPolicyPatch)
    ensures
        forall|j: int|
            0 <= j < p.require_consent_providers@.len() && !is_blank_spec(#[trigger] p.require_consent_providers@[j]@) ==> has_option(
                access_policy_args(c, p),
                "--require-consent-provider"@,
                trim(p.require_consent_providers@[j]@),
            ),
{
    let s0 = repeated_args("--allow-provider"@, strings(p.allow_providers@));
    let s1 = repeated_args("--remove-allow-provider"@, strings(p.remove_allow_providers@));
    let s2 = repeated_args("--deny-provider"@, strings(p.deny_providers@));
    let s3 = repeated_args("--remove-deny-provider"@, strings(p.remove_deny_providers@));
    let s4 = repeated_args("--deny-path"@, strings(p.deny_path_patterns@));
    let s5 = repeated_args("--remove-deny-path"@, strings(p.remove_deny_path_patterns@));
    let s6 = repeated_args("--require-consent-provider"@, strings(p.require_consent_providers@));
    let s7 = repeated_args("--remove-require-consent-provider"@, strings(p.remove_require_consent_providers@));
    let s8 = repeated_args("--require-consent-path"@, strings(p.require_consent_path_patterns@));
    let s9 = repeated_args("--remove-require-consent-path"@, strings(p.remove_require_consent_path_patterns@));
    let n1 = optional_number_arg("--audit-max-bytes"@, p.audit_max_bytes);
    let n2 = optional_number_arg("--audit-max-rotated-files"@, p.audit_max_rotated_files);
    let args = access_policy_args(c, p);
    let prefix = seq!["access-policy"@, "--out"@, c.agent_context_root@];
    assert(args =~= prefix + s0 + s1 + s2 + s3 + s4 + s5 + s6 + (s7 + s8 + s9 + n1 + n2));
    lemma_repeated_values("--require-consent-provider"@, strings(p.require_consent_providers@));
    assert forall|j: int|
        0 <= j < p.require_consent_providers@.len() && !is_blank_spec(#[trigger] p.require_consent_providers@[j]@) implies has_option(
            args,
            "--require-consent-provider"@,
            trim(p.require_consent_providers@[j]@),
        ) by {
        assert(strings(p.require_consent_providers@)[j] == p.require_consent_providers@[j]@);
        lemma_has_option_within(prefix + s0 + s1 + s2 + s3 + s4 + s5, s6, s7 + s8 + s9 + n1 + n2, "--require-consent-provider"@, trim(p.require_consent_providers@[j]@));
    }
}

proof fn lemma_policy_after_require_consent_providers(c: crate::config::AgentContextPanelConfig, p: AgentContextAccessPolicyPatch)
    ensures
        values_after(
            access_policy_args(c, p).subrange(3, access_policy_args(c, p).len() as int),
            "--require-consent-provider"@,
            strings(p.require_consent_providers@),
        ),
{
    reveal_strlit("--allow-provider");
    reveal_strlit("--remove-allow-provider");
    reveal_strlit("--deny-provider");
    reveal_strlit("--remove-deny-provider");
    reveal_strlit("--deny-path");
    reveal_strlit("--remove-deny-path");
    reveal_strlit("--require-consent-provider");
    reveal_strlit("--remove-require-consent-provider");
    reveal_strlit("--require-consent-path");
    reveal_strlit("--remove-require-consent-path");
    reveal_strlit("--audit-max-bytes");
    reveal_strlit("--audit-max-rotated-files");
    assert("--allow-provider"@.len() == 16);
    assert("--remove-allow-provider"@.len() == 23);
    assert("--deny-provider"@.len() == 15);
    assert("--remove-deny-provider"@.len() == 22);
    assert("--deny-path"@.len() == 11);
    assert("--remove-deny-path"@.len() == 18);
    assert("--require-consent-provider"@.len() == 26);
    assert("--remove-require-consent-provider"@.len() == 33);
    assert("--require-consent-path"@.len() == 22);
    assert("--remove-require-consent-path"@.len() == 29);
    assert("--audit-max-bytes"@.len() == 17);
    assert("--audit-max-rotated-files"@.len() == 25);
    assert("--remove-deny-provider"@[4] != "--require-consent-path"@[4]);
    lemma_policy_flag(c, p, "--require-consent-provider"@, strings(p.require_consent_providers@));
}

proof fn lemma_policy_has_remove_require_consent_providers(c: crate::config::AgentContextPanelConfig, p: AgentContextAccessPolicyPatch)
    ensures
        forall|j: int|
            0 <= j < p.remove_require_consent_providers@.len() && !is_blank_spec(#[trigger] p.remove_require_consent_providers@[j]@) ==> has_option(
                access_policy_args(c, p),
                "--remove-require-consent-provider"@,
                trim(p.remove_require_consent_providers@[j]@),
            ),
{
    let s0 = repeated_args("--allow-provider"@, strings(p.allow_providers@));
    let s1 = repeated_args("--remove-allow-provider"@, strings(p.remove_allow_providers@));
    let s2 = repeated_args("--deny-provider"@, strings(p.deny_providers@));
    let s3 = repeated_args("--remove-deny-provider"@, strings(p.remove_deny_providers@));
    let s4 = repeated_args("--deny-path"@, strings(p.deny_path_patterns@));
    let s5 = repeated_args("--remove-deny-path"@, strings(p.remove_deny_path_patterns@));
    let s6 = repeated_args("--require-consent-provider"@, strings(p.require_consent_providers@));
    let s7 = repeated_args("--remove-require-consent-provider"@, strings(p.remove_require_consent_providers@));
    let s8 = repeated_args("--require-consent-path"@, strings(p.require_consent_path_patterns@));
    let s9 = repeated_args("--remove-require-consent-path"@, strings(p.remove_require_consent_path_patterns@));
    let n1 = optional_number_arg("--audit-max-bytes"@, p.audit_max_bytes);
    let n2 = optional_number_arg("--audit-max-rotated-files"@, p.audit_max_rotated_files);
    let args = access_policy_args(c, p);
    let prefix = seq!["access-policy"@, "--out"@, c.agent_context_root@];
    assert(args =~= prefix + s0 + s1 + s2 + s3 + s4 + s5 + s6 + s7 + (s8 + s9 + n1 + n2));
    lemma_repeated_values("--remove-require-consent-provider"@, strings(p.remove_require_consent_providers@));
    assert forall|j: int|
        0 <= j < p.remove_require_consent_providers@.len() && !is_blank_spec(#[trigger] p.remove_require_consent_providers@[j]@) implies has_option(
            args,
            "--remove-require-consent-provider"@,
            trim(p.remove_require_consent_providers@[j]@),
        ) by {
        assert(strings(p.remove_require_consent_providers@)[j] == p.remove_require_consent_providers@[j]@);
        lemma_has_option_within(prefix + s0 + s1 + s2 + s3 + s4 + s5 + s6, s7, s8 + s9 + n1 + n2, "--remove-require-consent-provider"@, trim(p.remove_require_consent_providers@[j]@));
    }
}

proof fn lemma_policy_after_remove_require_consent_providers(c: crate::config::AgentContextPanelConfig, p: AgentContextAccessPolicyPatch)
    ensures
        values_after(
            access_policy_args(c, p).subrange(3, access_policy_args(c, p).len() as int),
            "--remove-require-consent-provider"@,
            strings(p.remove_require_consent_providers@),
        ),
{
    reveal_strlit("--allow-provider");
    reveal_strlit("--remove-allow-provider");
    reveal_strlit("--deny-provider");
    reveal_strlit("--remove-deny-provider");
    reveal_strlit("--deny-path");
    reveal_strlit("--remove-deny-path");
    reveal_strlit("--require-consent-provider");
    reveal_strlit("--remove-require-consent-provider");
    reveal_strlit("--require-consent-path");
    reveal_strlit("--remove-require-consent-path");
    reveal_strlit("--audit-max-bytes");
    reveal_strlit("--audit-max-rotated-files");
    assert("--allow-provider"@.len() == 16);
    assert("--remove-allow-provider"@.len() == 23);
    assert("--deny-provider"@.len() == 15);
    assert("--remove-deny-provider"@.len() == 22);
    assert("--deny-path"@.len() == 11);
    assert("--remove-deny-path"@.len() == 18);
    assert("--require-consent-provider"@.len() == 26);
    assert("--remove-require-consent-provider"@.len() == 33);
    assert("--require-consent-path"@.len() == 22);
    assert("--remove-require-consent-path"@.len() == 29);
    assert("--audit-max-bytes"@.len() == 17);
    assert("--audit-max-rotated-files"@.len() == 25);
    assert("--remove-deny-provider"@[4] != "--require-consent-path"@[4]);
    lemma_policy_flag(c, p, "--remove-require-consent-provider"@, strings(p.remove_require_consent_providers@));
}

proof fn lemma_policy_has_require_consent_path_patterns(c: crate::config::AgentContextPanelConfig, p: AgentContextAccessPolicyPatch)
    ensures
        forall|j: int|
            0 <= j < p.require_consent_path_patterns@.len() && !is_blank_spec(#[trigger] p.require_consent_path_patterns@[j]@) ==> has_option(
                access_policy_args(c, p),
                "--require-consent-path"@,
                trim(p.require_consent_path_patterns@[j]@),
            ),
{
    let s0 = repeated_args("--allow-provider"@, strings(p.allow_providers@));
    let s1 = repeated_args("--remove-allow-provider"@, strings(p.remove_allow_providers@));
    let s2 = repeated_args("--deny-provider"@, strings(p.deny_providers@));
    let s3 = repeated_args("--remove-deny-provider"@, strings(p.remove_deny_providers@));
    let s4 = repeated_args("--deny-path"@, strings(p.deny_path_patterns@));
    let s5 = repeated_args("--remove-deny-path"@, strings(p.remove_deny_path_patterns@));
    let s6 = repeated_args("--require-consent-provider"@, strings(p.require_consent_providers@));
    let s7 = repeated_args("--remove-require-consent-provider"@, strings(p.remove_require_consent_providers@));
    let s8 = repeated_args("--require-consent-path"@, strings(p.require_consent_path_patterns@));
    let s9 = repeated_args("--remove-require-consent-path"@, strings(p.remove_require_consent_path_patterns@));
    let n1 = optional_number_arg("--audit-max-bytes"@, p.audit_max_bytes);
    let n2 = optional_number_arg("--audit-max-rotated-files"@, p.audit_max_rotated_files);
    let args = access_policy_args(c, p);
    let prefix = seq!["access-policy"@, "--out"@, c.agent_context_root@];
    assert(args =~= prefix + s0 + s1 + s2 + s3 + s4 + s5 + s6 + s7 + s8 + (s9 + n1 + n2));
    lemma_repeated_values("--require-consent-path"@, strings(p.require_consent_path_patterns@));
    assert forall|j: int|
        0 <= j < p.require_consent_path_patterns@.len() && !is_blank_spec(#[trigger] p.require_consent_path_patterns@[j]@) implies has_option(
            args,
            "--require-consent-path"@,
            trim(p.require_consent_path_patterns@[j]@),
        ) by {
        assert(strings(p.require_consent_path_patterns@)[j] == p.require_consent_path_patterns@[j]@);
        lemma_has_option_within(prefix + s0 + s1 + s2 + s3 + s4 + s5 + s6 + s7, s8, s9 + n1 + n2, "--require-consent-path"@, trim(p.require_consent_path_patterns@[j]@));
    }
}

proof fn lemma_policy_after_require_consent_path_patterns(c: crate::config::AgentContextPanelConfig, p: AgentContextAccessPolicyPatch)
    ensures
        values_after(
            access_policy_args(c, p).subrange(3, access_policy_args(c, p).len() as int),
            "--require-consent-path"@,
            strings(p.require_consent_path_patterns@),
        ),
{
    reveal_strlit("--allow-provider");
    reveal_strlit("--remove-allow-provider");
    reveal_strlit("--deny-provider");
    reveal_strlit("--remove-deny-provider");
    reveal_strlit("--deny-path");
    reveal_strlit("--remove-deny-path");
    reveal_strlit("--require-consent-provider");
    reveal_strlit("--remove-require-consent-provider");
    reveal_strlit("--require-consent-path");
    reveal_strlit("--remove-require-consent-path");
    reveal_strlit("--audit-max-bytes");
    reveal_strlit("--audit-max-rotated-files");
    assert("--allow-provider"@.len() == 16);
    assert("--remove-allow-provider"@.len() == 23);
    assert("--deny-provider"@.len() == 15);
    assert("--remove-deny-provider"@.len() == 22);
    assert("--deny-path"@.len() == 11);
    assert("--remove-deny-path"@.len() == 18);
    assert("--require-consent-provider"@.len() == 26);
    assert("--remove-require-consent-provider"@.len() == 33);
    assert("--require-consent-path"@.len() == 22);
    assert("--remove-require-consent-path"@.len() == 29);
    assert("--audit-max-bytes"@.len() == 17);
    assert("--audit-max-rotated-files"@.len() == 25);
    assert("--remove-deny-provider"@[4] != "--require-consent-path"@[4]);
    lemma_policy_flag(c, p, "--require-consent-path"@, strings(p.require_consent_path_patterns@));
}

proof fn lemma_policy_has_remove_require_consent_path_patterns(c: crate::config::AgentContextPanelConfig, p: AgentContextAccessPolicyPatch)
    ensures
        forall|j: int|
            0 <= j < p.remove_require_consent_path_patterns@.len() && !is_blank_spec(#[trigger] p.remove_require_consent_path_patterns@[j]@) ==> has_option(
                access_policy_args(c, p),
                "--remove-require-consent-path"@,
                trim(p.remove_require_consent_path_patterns@[j]@),
            ),
{
    let s0 = repeated_args("--allow-provider"@, strings(p.allow_providers@));
    let s1 = repeated_args("--remove-allow-provider"@, strings(p.remove_allow_providers@));
    let s2 = repeated_args("--deny-provider"@, strings(p.deny_providers@));
    let s3 = repeated_args("--remove-deny-provider"@, strings(p.remove_deny_providers@));
    let s4 = repeated_args("--deny-path"@, strings(p.deny_path_patterns@));
    let s5 = repeated_args("--remove-deny-path"@, strings(p.remove_deny_path_patterns@));
    let s6 = repeated_args("--require-consent-provider"@, strings(p.require_consent_providers@));
    let s7 = repeated_args("--remove-require-consent-provider"@, strings(p.remove_require_consent_providers@));
    let s8 = repeated_args("--require-consent-path"@, strings(p.require_consent_path_patterns@));
    let s9 = repeated_args("--remove-require-consent-path"@, strings(p.remove_require_consent_path_patterns@));
    let n1 = optional_number_arg("--audit-max-bytes"@, p.audit_max_bytes);
    let n2 = optional_number_arg("--audit-max-rotated-files"@, p.audit_max_rotated_files);
    let args = access_policy_args(c, p);
    let prefix = seq!["access-policy"@, "--out"@, c.agent_context_root@];
    assert(args =~= prefix + s0 + s1 + s2 + s3 + s4 + s5 + s6 + s7 + s8 + s9 + (n1 + n2));
    lemma_repeated_values("--remove-require-consent-path"@, strings(p.remove_require_consent_path_patterns@));
    assert forall|j: int|
        0 <= j < p.remove_require_consent_path_patterns@.len() && !is_blank_spec(#[trigger] p.remove_require_consent_path_patterns@[j]@) implies has_option(
            args,
            "--remove-require-consent-path"@,
            trim(p.remove_require_consent_path_patterns@[j]@),
        ) by {
        assert(strings(p.remove_require_consent_path_patterns@)[j] == p.remove_require_consent_path_patterns@[j]@);
        lemma_has_option_within(prefix + s0 + s1 + s2 + s3 + s4 + s5 + s6 + s7 + s8, s9, n1 + n2, "--remove-require-consent-path"@, trim(p.remove_require_consent_path_patterns@[j]@));
    }
}

proof fn lemma_policy_after_remove_require_consent_path_patterns(c: crate::config::AgentContextPanelConfig, p: AgentContextAccessPolicyPatch)
    ensures
        values_after(
            access_policy_args(c, p).subrange(3, access_policy_args(c, p).len() as int),
            "--remove-require-consent-path"@,
            strings(p.remove_require_consent_path_patterns@),
        ),
{
    reveal_strlit("--allow-provider");
    reveal_strlit("--remove-allow-provider");
    reveal_strlit("--deny-provider");
    reveal_strlit("--remove-deny-provider");
    reveal_strlit("--deny-path");
    reveal_strlit("--remove-deny-path");
    reveal_strlit("--require-consent-provider");
    reveal_strlit("--remove-require-consent-provider");
    reveal_strlit("--require-consent-path");
    reveal_strlit("--remove-require-consent-path");
    reveal_strlit("--audit-max-bytes");
    reveal_strlit("--audit-max-rotated-files");
    assert("--allow-provider"@.len() == 16);
    assert("--remove-allow-provider"@.len() == 23);
    assert("--deny-provider"@.len() == 15);
    assert("--remove-deny-provider"@.len() == 22);
    assert("--deny-path"@.len() == 11);
    assert("--remove-deny-path"@.len() == 18);
    assert("--require-consent-provider"@.len() == 26);
    assert("--remove-require-consent-provider"@.len() == 33);
    assert("--require-consent-path"@.len() == 22);
    assert("--remove-require-consent-path"@.len() == 29);
    assert("--audit-max-bytes"@.len() == 17);
    assert("--audit-max-rotated-files"@.len() == 25);
    assert("--remove-deny-provider"@[4] != "--require-consent-path"@[4]);
    lemma_policy_flag(c, p, "--remove-require-consent-path"@, strings(p.remove_require_consent_path_patterns@));
}

/// The access-policy command line: `access-policy --out` and the root, then
/// for each list of the patch, each value that is not blank, trimmed, right
/// after its own flag (`--allow-provider` for `allow_providers`,
/// `--remove-allow-provider` for `remove_allow_providers`, and so on).
pub proof fn law_access_policy_values_follow_their_flags(
    c: crate::config::AgentContextPanelConfig,
    p: AgentContextAccessPolicyPatch,
)
    ensures
        access_policy_args(c, p).len() >= 3,
        access_policy_args(c, p)[0] == "access-policy"@,
        access_policy_args(c, p)[1] == "--out"@,
        access_policy_args(c, p)[2] == c.agent_context_root@,
        forall|j: int|
            0 <= j < p.allow_providers@.len() && !is_blank_spec(#[trigger] p.allow_providers@[j]@) ==> has_option(
                access_policy_args(c, p),
                "--allow-provider"@,
                trim(p.allow_providers@[j]@),
            ),
        forall|j: int|
            0 <= j < p.remove_allow_providers@.len() && !is_blank_spec(#[trigger] p.remove_allow_providers@[j]@) ==> has_option(
                access_policy_args(c, p),
                "--remove-allow-provider"@,
                trim(p.remove_allow_providers@[j]@),
            ),
        forall|j: int|
            0 <= j < p.deny_providers@.len() && !is_blank_spec(#[trigger] p.deny_providers@[j]@) ==> has_option(
                access_policy_args(c, p),
                "--deny-provider"@,
                trim(p.deny_providers@[j]@),
            ),
        forall|j: int|
            0 <= j < p.remove_deny_providers@.len() && !is_blank_spec(#[trigger] p.remove_deny_providers@[j]@) ==> has_option(
                access_policy_args(c, p),
                "--remove-deny-provider"@,
                trim(p.remove_deny_providers@[j]@),
            ),
        forall|j: int|
            0 <= j < p.deny_path_patterns@.len() && !is_blank_spec(#[trigger] p.deny_path_patterns@[j]@) ==> has_option(
                access_policy_args(c, p),
                "--deny-path"@,
                trim(p.deny_path_patterns@[j]@),
            ),
        forall|j: int|
            0 <= j < p.remove_deny_path_patterns@.len() && !is_blank_spec(#[trigger] p.remove_deny_path_patterns@[j]@) ==> has_option(
                access_policy_args(c, p),
                "--remove-deny-path"@,
                trim(p.remove_deny_path_patterns@[j]@),
            ),
        forall|j: int|
            0 <= j < p.require_consent_providers@.len() && !is_blank_spec(#[trigger] p.require_consent_providers@[j]@) ==> has_option(
                access_policy_args(c, p),
                "--require-consent-provider"@,
                trim(p.require_consent_providers@[j]@),
            ),
        forall|j: int|
            0 <= j < p.remove_require_consent_providers@.len() && !is_blank_spec(#[trigger] p.remove_require_consent_providers@[j]@) ==> has_option(
                access_policy_args(c, p),
                "--remove-require-consent-provider"@,
                trim(p.remove_require_consent_providers@[j]@),
            ),
        forall|j: int|
            0 <= j < p.require_consent_path_patterns@.len() && !is_blank_spec(#[trigger] p.require_consent_path_patterns@[j]@) ==> has_option(
                access_policy_args(c, p),
                "--require-consent-path"@,
                trim(p.require_consent_path_patterns@[j]@),
            ),
        forall|j: int|
            0 <= j < p.remove_require_consent_path_patterns@.len() && !is_blank_spec(#[trigger] p.remove_require_consent_path_patterns@[j]@) ==> has_option(
                access_policy_args(c, p),
                "--remove-require-consent-path"@,
                trim(p.remove_require_consent_path_patterns@[j]@),
            ),
{
    lemma_policy_has_allow_providers(c, p);
    lemma_policy_has_remove_allow_providers(c, p);
    lemma_policy_has_deny_providers(c, p);
    lemma_policy_has_remove_deny_providers(c, p);
    lemma_policy_has_deny_path_patterns(c, p);
    lemma_policy_has_remove_deny_path_patterns(c, p);
    lemma_policy_has_require_consent_providers(c, p);
    lemma_policy_has_remove_require_consent_providers(c, p);
    lemma_policy_has_require_consent_path_patterns(c, p);
    lemma_policy_has_remove_require_consent_path_patterns(c, p);
}

/// Among the options of the access-policy command line (after the root, in
/// flag and value pairs), each flag of a list is followed only by a value
/// of that list that is not blank, trimmed: nothing else is allowed,
/// denied, removed or made to need consent.
pub proof fn law_access_policy_flags_take_only_their_values(
    c: crate::config::AgentContextPanelConfig,
    p: AgentContextAccessPolicyPatch,
)
    ensures
        values_after(
            access_policy_args(c, p).subrange(3, access_policy_args(c, p).len() as int),
            "--allow-provider"@,
            strings(p.allow_providers@),
        ),
        values_after(
            access_policy_args(c, p).subrange(3, access_policy_args(c, p).len() as int),
            "--remove-allow-provider"@,
            strings(p.remove_allow_providers@),
        ),
        values_after(
            access_policy_args(c, p).subrange(3, access_policy_args(c, p).len() as int),
            "--deny-provider"@,
            strings(p.deny_providers@),
        ),
        values_after(
            access_policy_args(c, p).subrange(3, access_policy_args(c, p).len() as int),
            "--remove-deny-provider"@,
            strings(p.remove_deny_providers@),
        ),
        values_after(
            access_policy_args(c, p).subrange(3, access_policy_args(c, p).len() as int),
            "--deny-path"@,
            strings(p.deny_path_patterns@),
        ),
        values_after(
            access_policy_args(c, p).subrange(3, access_policy_args(c, p).len() as int),
            "--remove-deny-path"@,
            strings(p.remove_deny_path_patterns@),
        ),
        values_after(
            access_policy_args(c, p).subrange(3, access_policy_args(c, p).len() as int),
            "--require-consent-provider"@,
            strings(p.require_consent_providers@),
        ),
        values_after(
            access_policy_args(c, p).subrange(3, access_policy_args(c, p).len() as int),
            "--remove-require-consent-provider"@,
            strings(p.remove_require_consent_providers@),
        ),
        values_after(
            access_policy_args(c, p).subrange(3, access_policy_args(c, p).len() as int),
            "--require-consent-path"@,
            strings(p.require_consent_path_patterns@),
        ),
        values_after(
            access_policy_args(c, p).subrange(3, access_policy_args(c, p).len() as int),
            "--remove-require-consent-path"@,
            strings(p.remove_require_consent_path_patterns@),
        ),
{
    lemma_policy_after_allow_providers(c, p);
    lemma_policy_after_remove_allow_providers(c, p);
    lemma_policy_after_deny_providers(c, p);
    lemma_policy_after_remove_deny_providers(c, p);
    lemma_policy_after_deny_path_patterns(c, p);
    lemma_policy_after_remove_deny_path_patterns(c, p);
    lemma_policy_after_require_consent_providers(c, p);
    lemma_policy_after_remove_require_consent_providers(c, p);
    lemma_policy_after_require_consent_path_patterns(c, p);
    lemma_policy_after_remove_require_consent_path_patterns(c, p);
}

} // verus!
