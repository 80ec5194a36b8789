use codex_plus_core::json::{JsonEntry, JsonNumber, JsonValue};
use codex_plus_core::telemetry::{
    attach_model_to_usage, cache_headers, cache_hit_fraction, header_value, record_from_usage,
    select_recent, summarize_records, summary_limit, usage_record, CacheHeaders,
    CacheTelemetryEntry,
};
use reqwest::header::{HeaderMap, HeaderValue};

fn number(n: u64) -> JsonValue {
    JsonValue::Number(JsonNumber::PosInt(n))
}

fn object(entries: Vec<(&str, JsonValue)>) -> JsonValue {
    JsonValue::Object(
        entries
            .into_iter()
            .map(|(key, value)| JsonEntry { key: key.to_string(), value })
            .collect(),
    )
}

fn no_headers() -> CacheHeaders {
    CacheHeaders {
        helicone_cache: String::new(),
        helicone_cache_bucket_idx: String::new(),
        helicone_request_id: String::new(),
        helicone_id: String::new(),
    }
}

fn entry(input: u64, output: u64, cached: u64, creation: u64) -> CacheTelemetryEntry {
    usage_record(
        "responses",
        200,
        false,
        Some(&object(vec![
            ("input_tokens", number(input)),
            ("output_tokens", number(output)),
            ("cache_read_input_tokens", number(cached)),
            ("cache_creation_input_tokens", number(creation)),
        ])),
        no_headers(),
        1,
    )
}

#[test]
fn usage_record_reads_openai_usage() {
    let usage = object(vec![
        ("prompt_tokens", number(100)),
        ("completion_tokens", number(20)),
        ("total_tokens", number(120)),
        ("prompt_tokens_details", object(vec![("cached_tokens", number(60))])),
        ("model", JsonValue::Str("gpt-x".to_string())),
    ]);
    let r = usage_record("chat", 200, true, Some(&usage), no_headers(), 1234);
    assert_eq!(r.timestamp_ms, 1234);
    assert_eq!(r.protocol, "chat");
    assert_eq!(r.model, "gpt-x");
    assert!(r.stream);
    assert_eq!(r.input_tokens, 100);
    assert_eq!(r.output_tokens, 20);
    assert_eq!(r.total_tokens, 120);
    assert_eq!(r.cached_tokens, 60);
    assert_eq!(r.cache_creation_tokens, 0);
    assert_eq!(cache_hit_fraction(&r), (60, 160));
}

#[test]
fn usage_record_prefers_first_pointer_and_sums_cache_writes() {
    let usage = object(vec![
        ("input_tokens", number(10)),
        ("prompt_tokens", number(99)),
        ("input_tokens_details", object(vec![("cached_tokens", number(4))])),
        ("cache_read_input_tokens", number(50)),
        ("cache_creation_input_tokens", number(1)),
        ("cache_creation_5m_input_tokens", number(2)),
        ("cache_creation_1h_input_tokens", number(u64::MAX)),
        ("output_tokens", JsonValue::Str("7".to_string())),
    ]);
    let r = usage_record("messages", 200, false, Some(&usage), no_headers(), 0);
    assert_eq!(r.input_tokens, 10);
    assert_eq!(r.cached_tokens, 4);
    assert_eq!(r.output_tokens, 0);
    assert_eq!(r.cache_creation_tokens, u64::MAX);
    assert_eq!(cache_hit_fraction(&r), (4, u64::MAX));
}

#[test]
fn absent_usage_counts_nothing() {
    let r = usage_record("chat", 500, false, None, no_headers(), 0);
    assert_eq!(r.input_tokens, 0);
    assert_eq!(r.cached_tokens, 0);
    assert_eq!(r.model, "");
    assert_eq!(cache_hit_fraction(&r), (0, 0));
}

#[test]
fn helicone_headers_are_read() {
    let mut headers = HeaderMap::new();
    headers.insert("Helicone-Cache", HeaderValue::from_static("HIT"));
    headers.insert("helicone-id", HeaderValue::from_static("abc-1"));
    headers.insert("Helicone-Cache-Bucket-Idx", HeaderValue::from_bytes(b"\xff").unwrap());
    assert_eq!(header_value(Some(&headers), "Helicone-Cache"), "HIT");
    assert_eq!(header_value(Some(&headers), "Helicone-Cache-Bucket-Idx"), "");
    assert_eq!(header_value(None, "Helicone-Cache"), "");
    assert_eq!(header_value(Some(&headers), "HELICONE-CACHE"), "HIT");
    assert_eq!(header_value(Some(&headers), "Helicone Cache"), "");

    let h = cache_headers(Some(&headers));
    let r = usage_record("chat", 200, false, None, h, 0);
    assert_eq!(r.helicone_cache, "HIT");
    assert_eq!(r.helicone_request_id, "abc-1");

    let mut both = HeaderMap::new();
    both.insert("Helicone-Request-Id", HeaderValue::from_static("req-2"));
    both.insert("Helicone-Id", HeaderValue::from_static("abc-1"));
    let r = record_from_usage("chat", 200, false, None, Some(&both));
    assert_eq!(r.helicone_request_id, "req-2");
    assert_eq!(r.status_code, 200);
}

#[test]
fn attach_model_names_the_model_once() {
    let attached = attach_model_to_usage(JsonValue::Null, "  gpt-x ");
    match &attached {
        JsonValue::Object(entries) => {
            assert_eq!(entries.len(), 1);
            assert_eq!(entries[0].key, "model");
            assert!(matches!(&entries[0].value, JsonValue::Str(s) if s == "gpt-x"));
        }
        _ => panic!("expected an object"),
    }
    let again = attach_model_to_usage(attached, "other");
    match &again {
        JsonValue::Object(entries) => {
            assert_eq!(entries.len(), 1);
            assert!(matches!(&entries[0].value, JsonValue::Str(s) if s == "gpt-x"));
        }
        _ => panic!("expected an object"),
    }
    let usage = object(vec![("input_tokens", number(3))]);
    let with_model = attach_model_to_usage(usage, "m");
    match with_model {
        JsonValue::Object(entries) => {
            assert_eq!(entries.len(), 2);
            assert_eq!(entries[1].key, "model");
        }
        _ => panic!("expected an object"),
    }
    let blank = attach_model_to_usage(JsonValue::Array(vec![]), "  ");
    assert!(matches!(blank, JsonValue::Array(ref v) if v.is_empty()));
}

#[test]
fn recent_rows_are_newest_first_and_clamped() {
    assert_eq!(select_recent(vec![1, 2, 3, 4, 5], 2), vec![5, 4]);
    assert_eq!(select_recent(vec![1, 2, 3], 10), vec![3, 2, 1]);
    assert_eq!(select_recent(vec![1, 2, 3], 0), vec![3]);
    let many: Vec<u32> = (0..300).collect();
    let recent = select_recent(many, 1000);
    assert_eq!(recent.len(), 200);
    assert_eq!(recent[0], 299);
    assert_eq!(recent[199], 100);
    assert_eq!(select_recent(Vec::<u8>::new(), 5), Vec::<u8>::new());
    assert_eq!(summary_limit(0), 50);
    assert_eq!(summary_limit(7), 7);
}

#[test]
fn totals_sum_each_count() {
    let records = vec![entry(10, 1, 30, 0), entry(20, 2, 0, 40)];
    let totals = summarize_records(&records);
    assert_eq!(totals.request_count, 2);
    assert_eq!(totals.input_tokens, 30);
    assert_eq!(totals.output_tokens, 3);
    assert_eq!(totals.cached_tokens, 30);
    assert_eq!(totals.cache_creation_tokens, 40);
    assert_eq!(totals.cache_denominator, 100);
    let none = summarize_records(&vec![]);
    assert_eq!(none.request_count, 0);
    assert_eq!(none.cache_denominator, 0);
}
