//! Cache telemetry of the local proxy: the token counts of one response, read
//! from its usage report and its headers, the most recent records of the log,
//! and their totals.

use vstd::prelude::*;
use crate::json::{json_view, view_get, JsonEntry, JsonNumber, JsonValue, JsonView, EntryView, NumberView, string_at, string_at_view};
use crate::system::now_ms;
use crate::text::{is_blank_spec, trim, trim_str};

verus! {

/// `http::HeaderMap`, the headers of a response.
#[verifier::external_type_specification]
#[verifier::external_body]
#[verifier::reject_recursive_types(T)]
pub struct ExHeaderMap<T>(reqwest::header::HeaderMap<T>);

/// `http::HeaderValue`, the value of one header.
#[verifier::external_type_specification]
#[verifier::external_body]
pub struct ExHeaderValue(reqwest::header::HeaderValue);

/// What a header map holds: its (name, value) pairs in the order that
/// `HeaderMap::iter` gives them, each name in lower case and the values of a
/// name following its first one.
pub uninterp spec fn header_entries(headers: reqwest::header::HeaderMap) -> Seq<(Seq<char>, Seq<u8>)>;

/// What a header value holds: its bytes (`HeaderValue::as_bytes`).
pub uninterp spec fn header_value_bytes(value: reqwest::header::HeaderValue) -> Seq<u8>;

/// A character that may stand in a header name: the token characters of
/// HTTP (`HEADER_CHARS` in `http`).
pub open spec fn is_header_name_char(c: char) -> bool {
    ||| ('a' <= c && c <= 'z')
    ||| ('A' <= c && c <= 'Z')
    ||| ('0' <= c && c <= '9')
    ||| c == '!' || c == '#' || c == '$' || c == '%' || c == '&' || c == '\''
    ||| c == '*' || c == '+' || c == '-' || c == '.' || c == '^' || c == '_'
    ||| c == '`' || c == '|' || c == '~'
}

/// An ASCII letter in lower case; any other character as it is.
pub open spec fn ascii_lower(c: char) -> char {
    if 'A' <= c && c <= 'Z' {
        ((c as u32) + 32) as char
    } else {
        c
    }
}

/// The name under which `HeaderMap::get` looks a header up: `name` in lower
/// case, when it is a valid header name (1 to 65535 token characters);
/// `None` otherwise.
pub open spec fn header_key(name: Seq<char>) -> Option<Seq<char>> {
    if 0 < name.len() <= 65535 && forall|i: int| 0 <= i < name.len() ==> is_header_name_char(#[trigger] name[i]) {
        Some(name.map_values(|c: char| ascii_lower(c)))
    } else {
        None
    }
}

/// The value of the first pair named `key`.
pub open spec fn first_value(entries: Seq<(Seq<char>, Seq<u8>)>, key: Seq<char>) -> Option<Seq<u8>>
    decreases entries.len(),
{
    if entries.len() == 0 {
        None
    } else if entries[0].0 == key {
        Some(entries[0].1)
    } else {
        first_value(entries.drop_first(), key)
    }
}

/// The bytes of the first value of header `name` in a map that holds
/// `entries`, as `HeaderMap::get` finds it.
pub open spec fn header_lookup(entries: Seq<(Seq<char>, Seq<u8>)>, name: Seq<char>) -> Option<Seq<u8>> {
    match header_key(name) {
        Some(key) => first_value(entries, key),
        None => None,
    }
}

/// `HeaderMap::get`: the first value of the header `name`, names compared
/// without regard to case; `None` when there is no such header or `name` is
/// no valid header name.
#[verifier::external_body]
fn header_get<'a>(headers: &'a reqwest::header::HeaderMap, name: &str) -> (r: Option<
    &'a reqwest::header::HeaderValue,
>)
    ensures
        match r {
            Some(v) => header_lookup(header_entries(*headers), name@) == Some(header_value_bytes(*v)),
            None => header_lookup(header_entries(*headers), name@) is None,
        },
{
    headers.get(name)
}

/// A visible ASCII character or a tab: what `HeaderValue::to_str` accepts.
pub open spec fn is_visible_ascii(c: char) -> bool {
    (' ' <= c && c <= '~') || c == '\t'
}

/// A byte that is visible ASCII or a tab.
pub open spec fn is_visible_byte(b: u8) -> bool {
    (32 <= b && b < 127) || b == 9
}

/// Bytes read as ASCII text.
pub open spec fn ascii_text(bytes: Seq<u8>) -> Seq<char> {
    bytes.map_values(|b: u8| b as char)
}

/// The text of a header value: its bytes as text when each is visible ASCII
/// or a tab.
pub open spec fn value_text(bytes: Seq<u8>) -> Option<Seq<char>> {
    if forall|i: int| 0 <= i < bytes.len() ==> is_visible_byte(#[trigger] bytes[i]) {
        Some(ascii_text(bytes))
    } else {
        None
    }
}

/// `HeaderValue::to_str`: the value as text when every byte of it is visible
/// ASCII or a tab, else `None`.
#[verifier::external_body]
fn header_value_text(value: &reqwest::header::HeaderValue) -> (r: Option<String>)
    ensures
        match r {
            Some(s) => value_text(header_value_bytes(*value)) == Some(s@),
            None => value_text(header_value_bytes(*value)) is None,
        },
{
    match value.to_str() {
        Ok(s) => Some(s.to_owned()),
        Err(_) => None,
    }
}

/// The text of header `name` in the headers of a response: empty when there
/// are no headers, no such header, or its value is not visible ASCII.
pub open spec fn header_text(headers: Option<&reqwest::header::HeaderMap>, name: Seq<char>) -> Seq<char> {
    match headers {
        None => Seq::empty(),
        Some(h) => match header_lookup(header_entries(*h), name) {
            Some(bytes) => match value_text(bytes) {
                Some(t) => t,
                None => Seq::empty(),
            },
            None => Seq::empty(),
        },
    }
}

/// The text of header `name`, or an empty text when there are no headers,
/// no such header, or its value is not visible ASCII.
pub fn header_value(headers: Option<&reqwest::header::HeaderMap>, name: &str) -> (r: String)
    ensures
        r@ == header_text(headers, name@),
        forall|i: int| 0 <= i < r@.len() ==> is_visible_ascii(#[trigger] r@[i]),
{
    match headers {
        None => String::new(),
        Some(h) => match header_get(h, name) {
            None => String::new(),
            Some(v) => match header_value_text(v) {
                Some(s) => {
                    proof {
                        let bytes = header_value_bytes(*v);
                        assert forall|i: int| 0 <= i < s@.len() implies is_visible_ascii(#[trigger] s@[i]) by {
                            assert(is_visible_byte(bytes[i]));
                        }
                    }
                    s
                },
                None => String::new(),
            },
        },
    }
}

/// The headers of a response that the telemetry keeps, each as its text
/// (empty when missing).
pub struct CacheHeaders {
    pub helicone_cache: String,
    pub helicone_cache_bucket_idx: String,
    pub helicone_request_id: String,
    pub helicone_id: String,
}

/// The headers that the telemetry keeps, as read from `headers`.
pub open spec fn cache_headers_of(headers: Option<&reqwest::header::HeaderMap>, h: CacheHeaders) -> bool {
    &&& h.helicone_cache@ == header_text(headers, "Helicone-Cache"@)
    &&& h.helicone_cache_bucket_idx@ == header_text(headers, "Helicone-Cache-Bucket-Idx"@)
    &&& h.helicone_request_id@ == header_text(headers, "Helicone-Request-Id"@)
    &&& h.helicone_id@ == header_text(headers, "Helicone-Id"@)
}

/// The headers that the telemetry keeps: `Helicone-Cache`,
/// `Helicone-Cache-Bucket-Idx`, `Helicone-Request-Id` and `Helicone-Id`.
pub fn cache_headers(headers: Option<&reqwest::header::HeaderMap>) -> (r: CacheHeaders)
    ensures
        cache_headers_of(headers, r),
{
    CacheHeaders {
        helicone_cache: header_value(headers, "Helicone-Cache"),
        helicone_cache_bucket_idx: header_value(headers, "Helicone-Cache-Bucket-Idx"),
        helicone_request_id: header_value(headers, "Helicone-Request-Id"),
        helicone_id: header_value(headers, "Helicone-Id"),
    }
}

/// The value reached from `v` through the members `path`, one after the
/// other (a JSON pointer without array indexes).
pub open spec fn pointer_view(v: JsonView, path: Seq<Seq<char>>) -> Option<JsonView>
    decreases path.len(),
{
    if path.len() == 0 {
        Some(v)
    } else {
        match view_get(v, path[0]) {
            Some(m) => pointer_view(m, path.drop_first()),
            None => None,
        }
    }
}

/// The unsigned integer reached through `path`, when there is one.
pub open spec fn u64_at_path(v: JsonView, path: Seq<Seq<char>>) -> Option<u64> {
    match pointer_view(v, path) {
        Some(JsonView::Number(NumberView::PosInt(n))) => Some(n),
        _ => None,
    }
}

/// The first unsigned integer reached through one of `paths`, in order, or
/// 0 when none is.
pub open spec fn first_u64(v: JsonView, paths: Seq<Seq<Seq<char>>>) -> u64
    decreases paths.len(),
{
    if paths.len() == 0 {
        0
    } else {
        match u64_at_path(v, paths[0]) {
            Some(n) => n,
            None => first_u64(v, paths.drop_first()),
        }
    }
}

/// The texts of a list of keys.
pub open spec fn keys_view(keys: Seq<&str>) -> Seq<Seq<char>> {
    keys.map_values(|k: &str| k@)
}

/// The texts of a list of paths.
pub open spec fn paths_view(paths: Seq<Vec<&str>>) -> Seq<Seq<Seq<char>>> {
    paths.map_values(|p: Vec<&str>| keys_view(p@))
}

fn u64_at_pointer(v: &JsonValue, keys: &Vec<&str>) -> (r: Option<u64>)
    ensures
        r == u64_at_path(v@, keys_view(keys@)),
{
    let mut current: &JsonValue = v;
    let mut i: usize = 0;
    let ghost path = keys_view(keys@);
    assert(path.skip(0) =~= path);
    while i < keys.len()
        invariant
            0 <= i <= keys@.len(),
            path == keys_view(keys@),
            pointer_view(v@, path) == pointer_view(current@, path.skip(i as int)),
        decreases keys@.len() - i,
    {
        assert(path.skip(i as int).drop_first() =~= path.skip(i + 1));
        assert(path.skip(i as int)[0] == keys@[i as int]@);
        match current.get(keys[i]) {
            Some(m) => {
                current = m;
            },
            None => {
                return None;
            },
        }
        i = i + 1;
    }
    assert(path.skip(i as int) =~= Seq::<Seq<char>>::empty());
    match current {
        JsonValue::Number(JsonNumber::PosInt(n)) => Some(*n),
        _ => None,
    }
}

/// The first unsigned integer reached through one of `paths`, or 0.
pub fn number_at(v: &JsonValue, paths: &Vec<Vec<&str>>) -> (r: u64)
    ensures
        r == first_u64(v@, paths_view(paths@)),
{
    let ghost all = paths_view(paths@);
    let mut i: usize = 0;
    assert(all.skip(0) =~= all);
    while i < paths.len()
        invariant
            0 <= i <= paths@.len(),
            all == paths_view(paths@),
            first_u64(v@, all) == first_u64(v@, all.skip(i as int)),
        decreases paths@.len() - i,
    {
        assert(all.skip(i as int).drop_first() =~= all.skip(i + 1));
        assert(all.skip(i as int)[0] == keys_view(paths@[i as int]@));
        match u64_at_pointer(v, &paths[i]) {
            Some(n) => {
                return n;
            },
            None => {},
        }
        i = i + 1;
    }
    assert(all.skip(i as int) =~= Seq::<Seq<Seq<char>>>::empty());
    0
}

/// `a + b`, or the largest `u64` when the sum does not fit.
pub open spec fn sat_add(a: u64, b: u64) -> u64 {
    if a + b > u64::MAX {
        u64::MAX
    } else {
        (a + b) as u64
    }
}

/// The input tokens of a usage report (`input_tokens`, else
/// `prompt_tokens`).
pub open spec fn usage_input_tokens(u: JsonView) -> u64 {
    first_u64(u, seq![seq!["input_tokens"@], seq!["prompt_tokens"@]])
}

/// The output tokens of a usage report (`output_tokens`, else
/// `completion_tokens`).
pub open spec fn usage_output_tokens(u: JsonView) -> u64 {
    first_u64(u, seq![seq!["output_tokens"@], seq!["completion_tokens"@]])
}

/// The total tokens of a usage report.
pub open spec fn usage_total_tokens(u: JsonView) -> u64 {
    first_u64(u, seq![seq!["total_tokens"@]])
}

/// The tokens read from the cache, as each provider reports them.
pub open spec fn usage_cached_tokens(u: JsonView) -> u64 {
    first_u64(
        u,
        seq![
            seq!["input_tokens_details"@, "cached_tokens"@],
            seq!["prompt_tokens_details"@, "cached_tokens"@],
            seq!["cache_read_input_tokens"@],
            seq!["cachedContentTokenCount"@],
        ],
    )
}

/// The tokens written to the cache, over its three reports (saturating).
pub open spec fn usage_cache_creation_tokens(u: JsonView) -> u64 {
    sat_add(
        sat_add(
            first_u64(u, seq![seq!["cache_creation_input_tokens"@]]),
            first_u64(u, seq![seq!["cache_creation_5m_input_tokens"@]]),
        ),
        first_u64(u, seq![seq!["cache_creation_1h_input_tokens"@]]),
    )
}

/// One response as the cache telemetry records it. Its cache hit rate is
/// `cached_tokens` over `cache_denominator` (see `cache_hit_fraction`).
#[derive(Debug, Clone)]
pub struct CacheTelemetryEntry {
    pub timestamp_ms: u64,
    pub protocol: String,
    pub model: String,
    pub status_code: u16,
    pub stream: bool,
    pub input_tokens: u64,
    pub output_tokens: u64,
    pub total_tokens: u64,
    pub cached_tokens: u64,
    pub cache_creation_tokens: u64,
    pub helicone_cache: String,
    pub helicone_cache_bucket_idx: String,
    pub helicone_request_id: String,
}

/// The tokens a cache hit rate is taken over: input, cached and cache
/// creation tokens (saturating).
pub open spec fn cache_denominator(input: u64, cached: u64, creation: u64) -> u64 {
    sat_add(sat_add(input, cached), creation)
}

/// The cache hit rate of a record as a fraction: the cached tokens, and the
/// tokens it is taken over. A rate over 0 tokens is 0.
pub fn cache_hit_fraction(entry: &CacheTelemetryEntry) -> (r: (u64, u64))
    ensures
        r.0 == entry.cached_tokens,
        r.1 == cache_denominator(entry.input_tokens, entry.cached_tokens, entry.cache_creation_tokens),
{
    (
        entry.cached_tokens,
        entry.input_tokens.saturating_add(entry.cached_tokens).saturating_add(
            entry.cache_creation_tokens,
        ),
    )
}

/// The record of one response (see `usage_record`).
pub open spec fn usage_record_spec(
    protocol: Seq<char>,
    status_code: u16,
    stream: bool,
    usage: Option<&JsonValue>,
    headers: CacheHeaders,
    timestamp_ms: u64,
    r: CacheTelemetryEntry,
) -> bool {
    let u = match usage {
        Some(v) => v@,
        None => JsonView::Null,
    };
    &&& r.timestamp_ms == timestamp_ms
    &&& r.protocol@ == protocol
    &&& r.model@ == string_at_view(u, "model"@, Seq::empty())
    &&& r.status_code == status_code
    &&& r.stream == stream
    &&& r.input_tokens == usage_input_tokens(u)
    &&& r.output_tokens == usage_output_tokens(u)
    &&& r.total_tokens == usage_total_tokens(u)
    &&& r.cached_tokens == usage_cached_tokens(u)
    &&& r.cache_creation_tokens == usage_cache_creation_tokens(u)
    &&& r.helicone_cache == headers.helicone_cache
    &&& r.helicone_cache_bucket_idx == headers.helicone_cache_bucket_idx
    &&& r.helicone_request_id@ == if headers.helicone_request_id@.len() > 0 {
        headers.helicone_request_id@
    } else {
        headers.helicone_id@
    }
}

/// The record of one response: its protocol, status and streaming, the token
/// counts of its usage report (an absent report counts as `null`), the model
/// the report names, the Helicone headers (the request id from
/// `Helicone-Request-Id`, else `Helicone-Id`), stamped `timestamp_ms`.
pub fn usage_record(
    protocol: &str,
    status_code: u16,
    stream: bool,
    usage: Option<&JsonValue>,
    headers: CacheHeaders,
    timestamp_ms: u64,
) -> (r: CacheTelemetryEntry)
    ensures
        usage_record_spec(protocol@, status_code, stream, usage, headers, timestamp_ms, r),
{
    let null = JsonValue::Null;
    let u: &JsonValue = match usage {
        Some(v) => v,
        None => &null,
    };
    let input_paths = vec![vec!["input_tokens"], vec!["prompt_tokens"]];
    let output_paths = vec![vec!["output_tokens"], vec!["completion_tokens"]];
    let total_paths = vec![vec!["total_tokens"]];
    let cached_paths = vec![
        vec!["input_tokens_details", "cached_tokens"],
        vec!["prompt_tokens_details", "cached_tokens"],
        vec!["cache_read_input_tokens"],
        vec!["cachedContentTokenCount"],
    ];
    let creation_paths = vec![vec!["cache_creation_input_tokens"]];
    let creation_5m_paths = vec![vec!["cache_creation_5m_input_tokens"]];
    let creation_1h_paths = vec![vec!["cache_creation_1h_input_tokens"]];
    proof {
        reveal_strlit("");
        assert(""@ =~= Seq::<char>::empty());
        reveal_strlit("input_tokens");
        reveal_strlit("prompt_tokens");
        reveal_strlit("output_tokens");
        reveal_strlit("completion_tokens");
        reveal_strlit("total_tokens");
        reveal_strlit("input_tokens_details");
        reveal_strlit("prompt_tokens_details");
        reveal_strlit("cached_tokens");
        reveal_strlit("cache_read_input_tokens");
        reveal_strlit("cachedContentTokenCount");
        reveal_strlit("cache_creation_input_tokens");
        reveal_strlit("cache_creation_5m_input_tokens");
        reveal_strlit("cache_creation_1h_input_tokens");
        assert(keys_view(input_paths@[0]@) =~= seq!["input_tokens"@]);
        assert(keys_view(input_paths@[1]@) =~= seq!["prompt_tokens"@]);
        assert(paths_view(input_paths@) =~= seq![seq!["input_tokens"@], seq!["prompt_tokens"@]]);
        assert(keys_view(output_paths@[0]@) =~= seq!["output_tokens"@]);
        assert(keys_view(output_paths@[1]@) =~= seq!["completion_tokens"@]);
        assert(paths_view(output_paths@) =~= seq![seq!["output_tokens"@], seq!["completion_tokens"@]]);
        assert(keys_view(total_paths@[0]@) =~= seq!["total_tokens"@]);
        assert(paths_view(total_paths@) =~= seq![seq!["total_tokens"@]]);
        assert(keys_view(cached_paths@[0]@) =~= seq!["input_tokens_details"@, "cached_tokens"@]);
        assert(keys_view(cached_paths@[1]@) =~= seq!["prompt_tokens_details"@, "cached_tokens"@]);
        assert(keys_view(cached_paths@[2]@) =~= seq!["cache_read_input_tokens"@]);
        assert(keys_view(cached_paths@[3]@) =~= seq!["cachedContentTokenCount"@]);
        assert(paths_view(cached_paths@) =~= seq![
            seq!["input_tokens_details"@, "cached_tokens"@],
            seq!["prompt_tokens_details"@, "cached_tokens"@],
            seq!["cache_read_input_tokens"@],
            seq!["cachedContentTokenCount"@],
        ]);
        assert(keys_view(creation_paths@[0]@) =~= seq!["cache_creation_input_tokens"@]);
        assert(paths_view(creation_paths@) =~= seq![seq!["cache_creation_input_tokens"@]]);
        assert(keys_view(creation_5m_paths@[0]@) =~= seq!["cache_creation_5m_input_tokens"@]);
        assert(paths_view(creation_5m_paths@) =~= seq![seq!["cache_creation_5m_input_tokens"@]]);
        assert(keys_view(creation_1h_paths@[0]@) =~= seq!["cache_creation_1h_input_tokens"@]);
        assert(paths_view(creation_1h_paths@) =~= seq![seq!["cache_creation_1h_input_tokens"@]]);
    }
    let input_tokens = number_at(u, &input_paths);
    let output_tokens = number_at(u, &output_paths);
    let total_tokens = number_at(u, &total_paths);
    let cached_tokens = number_at(u, &cached_paths);
    let cache_creation_tokens = number_at(u, &creation_paths).saturating_add(
        number_at(u, &creation_5m_paths),
    ).saturating_add(number_at(u, &creation_1h_paths));
    let helicone_request_id = if headers.helicone_request_id.as_str().is_empty() {
        headers.helicone_id
    } else {
        headers.helicone_request_id
    };
    CacheTelemetryEntry {
        timestamp_ms,
        protocol: protocol.to_owned(),
        model: string_at(u, "model", ""),
        status_code,
        stream,
        input_tokens,
        output_tokens,
        total_tokens,
        cached_tokens,
        cache_creation_tokens,
        helicone_cache: headers.helicone_cache,
        helicone_cache_bucket_idx: headers.helicone_cache_bucket_idx,
        helicone_request_id,
    }
}

/// The record of one response, with the Helicone headers read from
/// `headers`, stamped with the clock's time in milliseconds (truncated to 64
/// bits); the rest is `usage_record`.
pub fn record_from_usage(
    protocol: &str,
    status_code: u16,
    stream: bool,
    usage: Option<&JsonValue>,
    headers: Option<&reqwest::header::HeaderMap>,
) -> (r: CacheTelemetryEntry)
    ensures
        exists|h: CacheHeaders, t: u64|
            #![trigger usage_record_spec(protocol@, status_code, stream, usage, h, t, r)]
            cache_headers_of(headers, h) && usage_record_spec(
                protocol@,
                status_code,
                stream,
                usage,
                h,
                t,
                r,
            ),
{
    let h = cache_headers(headers);
    let ghost hv = h;
    let t = now_ms() as u64;
    let r = usage_record(protocol, status_code, stream, usage, h, t);
    assert(usage_record_spec(protocol@, status_code, stream, usage, hv, t, r));
    r
}

/// A usage report with the model named: `model` trimmed is added as its
/// `model` member when it is not blank and the report names no model (an
/// absent report, `null`, becomes an object); else the report is as it was.
pub open spec fn attached_model(u: JsonView, model: Seq<char>) -> JsonView {
    let entry = EntryView { key: "model"@, value: JsonView::Str(trim(model)) };
    if is_blank_spec(model) || view_get(u, "model"@) is Some {
        u
    } else {
        match u {
            JsonView::Null => JsonView::Object(seq![entry]),
            JsonView::Object(entries) => JsonView::Object(entries.push(entry)),
            _ => u,
        }
    }
}

/// Names the model in a usage report that names none. Adding a member to a
/// report that is neither `null` nor an object fails in `serde_json`, so
/// such a report is only accepted with a blank model.
pub fn attach_model_to_usage(usage: JsonValue, model: &str) -> (r: JsonValue)
    requires
        is_blank_spec(model@) || usage@ is Null || usage@ is Object,
    ensures
        r@ == attached_model(usage@, model@),
{
    let m = trim_str(model);
    if m.is_empty() {
        return usage;
    }
    if usage.get("model").is_some() {
        return usage;
    }
    let entry = JsonEntry { key: "model".to_owned(), value: JsonValue::Str(m.to_owned()) };
    let ghost ev = EntryView { key: entry.key@, value: json_view(entry.value) };
    assert(ev == EntryView { key: "model"@, value: JsonView::Str(trim(model@)) });
    match usage {
        JsonValue::Object(entries) => {
            let mut entries = entries;
            entries.push(entry);
            let r = JsonValue::Object(entries);
            proof {
                if let JsonView::Object(a) = json_view(r) {
                    if let JsonView::Object(b) = usage@ {
                        assert(a.last() == ev);
                        assert(a =~= b.push(EntryView { key: "model"@, value: JsonView::Str(trim(model@)) }));
                    }
                }
            }
            r
        },
        _ => {
            let r = JsonValue::Object(vec![entry]);
            proof {
                if let JsonView::Object(a) = json_view(r) {
                    assert(a.len() == 1);
                    assert(a[0] == ev);
                    assert(a =~= seq![EntryView { key: "model"@, value: JsonView::Str(trim(model@)) }]);
                }
            }
            r
        },
    }
}

/// The number of records a summary reads when none is asked for (0).
pub fn summary_limit(limit: usize) -> (r: usize)
    ensures
        r == if limit == 0 {
            50
        } else {
            limit
        },
{
    if limit == 0 {
        50
    } else {
        limit
    }
}

/// A limit on the records read, kept between 1 and 200.
pub open spec fn clamped_limit(limit: usize) -> nat {
    if limit < 1 {
        1
    } else if limit > 200 {
        200
    } else {
        limit as nat
    }
}

/// The most recent rows, newest first: the last `limit` rows (the limit kept
/// between 1 and 200), in reverse order.
pub open spec fn recent_rows<T>(rows: Seq<T>, limit: usize) -> Seq<T> {
    let n = if rows.len() < clamped_limit(limit) {
        rows.len()
    } else {
        clamped_limit(limit)
    };
    rows.subrange(rows.len() - n, rows.len() as int).reverse()
}

/// The most recent rows of a log, newest first.
pub fn select_recent<T>(rows: Vec<T>, limit: usize) -> (r: Vec<T>)
    ensures
        r@ == recent_rows(rows@, limit),
{
    let n: usize = if limit < 1 {
        1
    } else if limit > 200 {
        200
    } else {
        limit
    };
    let ghost all = rows@;
    let mut rows = rows;
    let mut out: Vec<T> = Vec::new();
    assert(all.subrange(all.len() as int, all.len() as int).reverse() =~= out@);
    while out.len() < n && rows.len() > 0
        invariant
            n == clamped_limit(limit),
            rows@ == all.subrange(0, rows@.len() as int),
            rows@.len() <= all.len(),
            out@ == all.subrange(rows@.len() as int, all.len() as int).reverse(),
            out@.len() + rows@.len() == all.len(),
            out@.len() <= n,
        decreases rows@.len(),
    {
        let ghost k = rows@.len() as int;
        let x = rows.pop().unwrap();
        out.push(x);
        assert(out@ =~= all.subrange(k - 1, all.len() as int).reverse());
    }
    assert(out@ =~= recent_rows(all, limit));
    out
}

/// The totals of the records of a summary. Their cache hit rate is
/// `cached_tokens` over `cache_denominator`.
#[derive(Debug, Clone)]
pub struct CacheTelemetryTotals {
    pub request_count: u64,
    pub input_tokens: u64,
    pub output_tokens: u64,
    pub cached_tokens: u64,
    pub cache_creation_tokens: u64,
    pub cache_denominator: u64,
}

/// A token count of a record: input (0), output (1), cached (2) or cache
/// creation (3).
pub open spec fn count_of(e: CacheTelemetryEntry, k: int) -> u64 {
    if k == 0 {
        e.input_tokens
    } else if k == 1 {
        e.output_tokens
    } else if k == 2 {
        e.cached_tokens
    } else {
        e.cache_creation_tokens
    }
}

/// The sum of one token count over records.
pub open spec fn total(s: Seq<CacheTelemetryEntry>, k: int) -> nat
    decreases s.len(),
{
    if s.len() == 0 {
        0
    } else {
        total(s.drop_last(), k) + count_of(s.last(), k) as nat
    }
}

proof fn lemma_total_prefix(s: Seq<CacheTelemetryEntry>, i: int, k: int)
    requires
        0 <= i <= s.len(),
    ensures
        total(s.take(i), k) <= total(s, k),
    decreases s.len(),
{
    if i < s.len() {
        assert(s.drop_last().take(i) =~= s.take(i));
        lemma_total_prefix(s.drop_last(), i, k);
    } else {
        assert(s.take(i) =~= s);
    }
}

/// The totals of the records: their number, the sum of each token count, and
/// what a cache hit rate over them is taken over. Each sum fits in a `u64`
/// (a sum that does not overflows).
pub fn summarize_records(records: &Vec<CacheTelemetryEntry>) -> (r: CacheTelemetryTotals)
    requires
        total(records@, 0) <= u64::MAX,
        total(records@, 1) <= u64::MAX,
        total(records@, 2) <= u64::MAX,
        total(records@, 3) <= u64::MAX,
    ensures
        r.request_count == records@.len(),
        r.input_tokens == total(records@, 0),
        r.output_tokens == total(records@, 1),
        r.cached_tokens == total(records@, 2),
        r.cache_creation_tokens == total(records@, 3),
        r.cache_denominator == cache_denominator(r.input_tokens, r.cached_tokens, r.cache_creation_tokens),
{
    let mut input: u64 = 0;
    let mut output: u64 = 0;
    let mut cached: u64 = 0;
    let mut creation: u64 = 0;
    let n = records.len();
    let mut i: usize = 0;
    assert(records@.take(0) =~= Seq::<CacheTelemetryEntry>::empty());
    while i < n
        invariant
            n == records@.len(),
            0 <= i <= n,
            total(records@, 0) <= u64::MAX,
            total(records@, 1) <= u64::MAX,
            total(records@, 2) <= u64::MAX,
            total(records@, 3) <= u64::MAX,
            input == total(records@.take(i as int), 0),
            output == total(records@.take(i as int), 1),
            cached == total(records@.take(i as int), 2),
            creation == total(records@.take(i as int), 3),
        decreases n - i,
    {
        let e = &records[i];
        proof {
            let t = records@.take(i + 1);
            assert(t.drop_last() =~= records@.take(i as int));
            assert(t.last() == records@[i as int]);
            lemma_total_prefix(records@, i + 1, 0);
            lemma_total_prefix(records@, i + 1, 1);
            lemma_total_prefix(records@, i + 1, 2);
            lemma_total_prefix(records@, i + 1, 3);
        }
        input = input + e.input_tokens;
        output = output + e.output_tokens;
        cached = cached + e.cached_tokens;
        creation = creation + e.cache_creation_tokens;
        i = i + 1;
    }
    assert(records@.take(n as int) =~= records@);
    CacheTelemetryTotals {
        request_count: n as u64,
        input_tokens: input,
        output_tokens: output,
        cached_tokens: cached,
        cache_creation_tokens: creation,
        cache_denominator: input.saturating_add(cached).saturating_add(creation),
    }
}

} // verus!
