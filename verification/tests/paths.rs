use std::path::Path;

use codex_plus_core::paths::{
    app_state_dir_from_home, default_agent_context_feedback_path, default_agent_context_panel_config_path,
    default_agent_context_panel_status_path, default_diagnostic_log_path,
    default_latest_status_path, default_settings_path, StatePathOverrides,
};

fn text(path: Vec<u8>) -> String {
    String::from_utf8(path).expect("a UTF-8 path in the test environment")
}

#[test]
fn default_settings_path_uses_app_state_directory() {
    let path = text(default_settings_path());

    assert!(Path::new(&path).ends_with(".codex-session-delete/settings.json"));
}

#[test]
fn default_latest_status_path_uses_app_state_directory() {
    let path = text(default_latest_status_path());

    assert!(Path::new(&path).ends_with(".codex-session-delete/latest-status.json"));
}

#[test]
fn default_diagnostic_log_path_uses_app_state_directory() {
    let path = text(default_diagnostic_log_path());

    assert!(Path::new(&path).ends_with(".codex-session-delete/codex-plus.log"));
}

#[test]
fn default_agent_context_paths_use_app_state_directory() {
    assert!(Path::new(&text(default_agent_context_panel_config_path()))
        .ends_with(".codex-session-delete/agent-context-panel.json"));
    assert!(Path::new(&text(default_agent_context_panel_status_path()))
        .ends_with(".codex-session-delete/agent-context-panel-status.json"));
    assert!(Path::new(&text(default_agent_context_feedback_path()))
        .ends_with(".codex-session-delete/agent-context-feedback.jsonl"));
}

#[test]
fn overrides_replace_and_restore_default_paths() {
    let mut overrides = StatePathOverrides::new();
    assert_eq!(overrides.settings_path(), default_settings_path());

    let before = overrides.set_settings_path_for_tests(Some(b"/tmp/settings-test.json".to_vec()));
    assert_eq!(before, None);
    assert_eq!(overrides.settings_path(), b"/tmp/settings-test.json".to_vec());
    assert_eq!(overrides.settings_path_for_tests(), Some(b"/tmp/settings-test.json".to_vec()));
    assert_eq!(overrides.agent_context_feedback_path(), default_agent_context_feedback_path());

    let replaced = overrides.set_settings_path_for_tests(before);
    assert_eq!(replaced, Some(b"/tmp/settings-test.json".to_vec()));
    assert_eq!(overrides.settings_path(), default_settings_path());
}

#[test]
fn overrides_are_kept_per_file() {
    let mut overrides = StatePathOverrides::new();
    overrides.set_agent_context_panel_status_path_for_tests(Some(b"/tmp/status.json".to_vec()));
    overrides.set_cache_telemetry_path_for_tests(Some(b"/tmp/telemetry.jsonl".to_vec()));

    assert_eq!(overrides.agent_context_panel_status_path(), b"/tmp/status.json".to_vec());
    assert_eq!(overrides.cache_telemetry_path(), b"/tmp/telemetry.jsonl".to_vec());
    assert_eq!(overrides.agent_context_panel_config_path(), default_agent_context_panel_config_path());
    assert!(Path::new(&text(overrides.agent_context_panel_config_path()))
        .ends_with(".codex-session-delete/agent-context-panel.json"));
}

#[test]
fn panel_paths_follow_overrides() {
    let mut overrides = StatePathOverrides::new();
    overrides.set_agent_context_feedback_path_for_tests(Some(b"/tmp/fb.jsonl".to_vec()));
    let paths = codex_plus_core::state::panel_paths(&overrides);
    assert_eq!(paths.feedback_path, "/tmp/fb.jsonl");
    assert!(Path::new(&paths.config_path).ends_with(".codex-session-delete/agent-context-panel.json"));
    assert!(Path::new(&paths.status_path)
        .ends_with(".codex-session-delete/agent-context-panel-status.json"));
}

#[test]
fn panel_paths_show_a_path_that_is_not_utf8_lossily() {
    let mut overrides = StatePathOverrides::new();
    overrides.set_agent_context_feedback_path_for_tests(Some(b"/tmp/f\xffb.jsonl".to_vec()));
    assert_eq!(overrides.agent_context_feedback_path(), b"/tmp/f\xffb.jsonl".to_vec());
    let paths = codex_plus_core::state::panel_paths(&overrides);
    assert_eq!(paths.feedback_path, "/tmp/f\u{fffd}b.jsonl");
}

#[test]
fn state_directory_is_joined_to_the_home_with_the_platform_separator() {
    assert_eq!(
        app_state_dir_from_home(Some(b"/home/u".to_vec()), '/'),
        b"/home/u/.codex-session-delete".to_vec()
    );
    assert_eq!(
        app_state_dir_from_home(Some(b"/home/\xffu/".to_vec()), '/'),
        b"/home/\xffu/.codex-session-delete".to_vec()
    );
    assert_eq!(app_state_dir_from_home(None, '/'), b".codex-session-delete".to_vec());
    assert_eq!(
        app_state_dir_from_home(Some(b"C:\\Users\\u".to_vec()), '\\'),
        b"C:\\Users\\u\\.codex-session-delete".to_vec()
    );
}
