//! Where Codex++ keeps its state: a directory in the user's home and the
//! files in it. Paths are held as the bytes of the path, as `PathBuf` holds
//! them on Unix.

use vstd::prelude::*;
use vstd::utf8::encode_utf8;
use crate::system::{home_dir, path_separator};
use crate::text::{is_platform_separator, join_bytes, join_path_bytes};

verus! {

/// The name of the state directory, in the home directory.
pub open spec fn app_state_dir_name() -> Seq<char> {
    ".codex-session-delete"@
}

/// The bytes of an optional path.
pub open spec fn path_view(o: Option<Vec<u8>>) -> Option<Seq<u8>> {
    match o {
        Some(p) => Some(p@),
        None => None,
    }
}

/// The state directory for a given home, on a platform whose path separator
/// is `sep`: inside the home, or relative to the working directory when
/// there is no home.
pub open spec fn app_state_dir_for(home: Option<Seq<u8>>, sep: char) -> Seq<u8> {
    match home {
        Some(h) => join_bytes(h, encode_utf8(app_state_dir_name()), sep),
        None => encode_utf8(app_state_dir_name()),
    }
}

/// The state directory for `home` (see `app_state_dir_for`).
pub fn app_state_dir_from_home(home: Option<Vec<u8>>, sep: char) -> (r: Vec<u8>)
    ensures
        r@ == app_state_dir_for(path_view(home), sep),
{
    match home {
        Some(h) => join_path_bytes(h.as_slice(), ".codex-session-delete", sep),
        None => join_path_bytes(&[], ".codex-session-delete", sep),
    }
}

/// The state directory in the home directory of the user running the process.
pub fn default_app_state_dir() -> (r: Vec<u8>)
    ensures
        exists|h: Option<Seq<u8>>, s: char| is_platform_separator(s) && r@ == app_state_dir_for(h, s),
{
    let home = home_dir();
    let sep = path_separator();
    let ghost h = path_view(home);
    let r = app_state_dir_from_home(home, sep);
    assert(is_platform_separator(sep) && r@ == app_state_dir_for(h, sep));
    r
}

/// The file `name` inside the state directory `dir`, on a platform whose
/// path separator is `sep`.
pub open spec fn state_file(dir: Seq<u8>, name: Seq<char>, sep: char) -> Seq<u8> {
    join_bytes(dir, encode_utf8(name), sep)
}

/// The file `name` in the default state directory, for some home directory
/// and path separator.
pub open spec fn is_default_state_file(p: Seq<u8>, name: Seq<char>) -> bool {
    exists|h: Option<Seq<u8>>, s: char|
        is_platform_separator(s) && p == state_file(app_state_dir_for(h, s), name, s)
}

/// The file `name` in the default state directory; the home directory and
/// the separator are read once.
fn default_state_file(name: &str) -> (r: Vec<u8>)
    ensures
        is_default_state_file(r@, name@),
{
    let home = home_dir();
    let sep = path_separator();
    let ghost h = path_view(home);
    let dir = app_state_dir_from_home(home, sep);
    let r = join_path_bytes(dir.as_slice(), name, sep);
    assert(is_platform_separator(sep) && r@ == state_file(app_state_dir_for(h, sep), name@, sep));
    r
}

/// The settings file.
pub fn default_settings_path() -> (r: Vec<u8>)
    ensures
        is_default_state_file(r@, "settings.json"@),
{
    default_state_file("settings.json")
}

/// The file that holds the latest status.
pub fn default_latest_status_path() -> (r: Vec<u8>)
    ensures
        is_default_state_file(r@, "latest-status.json"@),
{
    default_state_file("latest-status.json")
}

/// The diagnostic log.
pub fn default_diagnostic_log_path() -> (r: Vec<u8>)
    ensures
        is_default_state_file(r@, "codex-plus.log"@),
{
    default_state_file("codex-plus.log")
}

/// The cache telemetry log.
pub fn default_cache_telemetry_path() -> (r: Vec<u8>)
    ensures
        is_default_state_file(r@, "cache-telemetry.jsonl"@),
{
    default_state_file("cache-telemetry.jsonl")
}

/// The Agent Context panel configuration.
pub fn default_agent_context_panel_config_path() -> (r: Vec<u8>)
    ensures
        is_default_state_file(r@, "agent-context-panel.json"@),
{
    default_state_file("agent-context-panel.json")
}

/// The Agent Context panel status.
pub fn default_agent_context_panel_status_path() -> (r: Vec<u8>)
    ensures
        is_default_state_file(r@, "agent-context-panel-status.json"@),
{
    default_state_file("agent-context-panel-status.json")
}

/// The Agent Context feedback log.
pub fn default_agent_context_feedback_path() -> (r: Vec<u8>)
    ensures
        is_default_state_file(r@, "agent-context-feedback.jsonl"@),
{
    default_state_file("agent-context-feedback.jsonl")
}

/// Files that tests put in place of the default ones: each `None` where the
/// default file is used.
pub struct StatePathOverrides {
    pub settings: Option<Vec<u8>>,
    pub cache_telemetry: Option<Vec<u8>>,
    pub agent_context_panel_config: Option<Vec<u8>>,
    pub agent_context_panel_status: Option<Vec<u8>>,
    pub agent_context_feedback: Option<Vec<u8>>,
}

fn copy_bytes(p: &Vec<u8>) -> (r: Vec<u8>)
    ensures
        r@ == p@,
{
    let mut out: Vec<u8> = Vec::new();
    let n = p.len();
    let mut i: usize = 0;
    while i < n
        invariant
            n == p@.len(),
            0 <= i <= n,
            out@ == p@.take(i as int),
        decreases n - i,
    {
        out.push(p[i]);
        i = i + 1;
        assert(out@ =~= p@.take(i as int));
    }
    assert(p@.take(n as int) =~= p@);
    out
}

fn copy_path(p: &Option<Vec<u8>>) -> (r: Option<Vec<u8>>)
    ensures
        path_view(r) == path_view(*p),
{
    match p {
        Some(s) => Some(copy_bytes(s)),
        None => None,
    }
}

impl StatePathOverrides {
    /// No file replaced.
    pub fn new() -> (r: Self)
        ensures
            r.settings is None,
            r.cache_telemetry is None,
            r.agent_context_panel_config is None,
            r.agent_context_panel_status is None,
            r.agent_context_feedback is None,
    {
        StatePathOverrides {
            settings: None,
            cache_telemetry: None,
            agent_context_panel_config: None,
            agent_context_panel_status: None,
            agent_context_feedback: None,
        }
    }

    /// The file that replaces the settings file, if any.
    pub fn settings_path_for_tests(&self) -> (r: Option<Vec<u8>>)
        ensures
            path_view(r) == path_view(self.settings),
    {
        copy_path(&self.settings)
    }

    /// Replaces the settings file with `path` (`None` restores it), and gives back what
    /// replaced it before.
    pub fn set_settings_path_for_tests(&mut self, path: Option<Vec<u8>>) -> (r: Option<Vec<u8>>)
        ensures
            r == old(self).settings,
            *final(self) == (StatePathOverrides { settings: path, ..*old(self) }),
    {
        let previous = self.settings.take();
        self.settings = path;
        previous
    }

    /// The settings file: the one that replaces it, else the default one.
    pub fn settings_path(&self) -> (r: Vec<u8>)
        ensures
            match self.settings {
                Some(p) => r@ == p@,
                None => is_default_state_file(r@, "settings.json"@),
            },
    {
        match &self.settings {
            Some(p) => copy_bytes(p),
            None => default_settings_path(),
        }
    }

    /// The file that replaces the cache telemetry log, if any.
    pub fn cache_telemetry_path_for_tests(&self) -> (r: Option<Vec<u8>>)
        ensures
            path_view(r) == path_view(self.cache_telemetry),
    {
        copy_path(&self.cache_telemetry)
    }

    /// Replaces the cache telemetry log with `path` (`None` restores it), and gives back what
    /// replaced it before.
    pub fn set_cache_telemetry_path_for_tests(&mut self, path: Option<Vec<u8>>) -> (r: Option<Vec<u8>>)
        ensures
            r == old(self).cache_telemetry,
            *final(self) == (StatePathOverrides { cache_telemetry: path, ..*old(self) }),
    {
        let previous = self.cache_telemetry.take();
        self.cache_telemetry = path;
        previous
    }

    /// The cache telemetry log: the one that replaces it, else the default one.
    pub fn cache_telemetry_path(&self) -> (r: Vec<u8>)
        ensures
            match self.cache_telemetry {
                Some(p) => r@ == p@,
                None => is_default_state_file(r@, "cache-telemetry.jsonl"@),
            },
    {
        match &self.cache_telemetry {
            Some(p) => copy_bytes(p),
            None => default_cache_telemetry_path(),
        }
    }

    /// The file that replaces the Agent Context panel configuration, if any.
    pub fn agent_context_panel_config_path_for_tests(&self) -> (r: Option<Vec<u8>>)
        ensures
            path_view(r) == path_view(self.agent_context_panel_config),
    {
        copy_path(&self.agent_context_panel_config)
    }

    /// Replaces the Agent Context panel configuration with `path` (`None` restores it), and gives back what
    /// replaced it before.
    pub fn set_agent_context_panel_config_path_for_tests(&mut self, path: Option<Vec<u8>>) -> (r: Option<Vec<u8>>)
        ensures
            r == old(self).agent_context_panel_config,
            *final(self) == (StatePathOverrides { agent_context_panel_config: path, ..*old(self) }),
    {
        let previous = self.agent_context_panel_config.take();
        self.agent_context_panel_config = path;
        previous
    }

    /// The Agent Context panel configuration: the one that replaces it, else the default one.
    pub fn agent_context_panel_config_path(&self) -> (r: Vec<u8>)
        ensures
            match self.agent_context_panel_config {
                Some(p) => r@ == p@,
                None => is_default_state_file(r@, "agent-context-panel.json"@),
            },
    {
        match &self.agent_context_panel_config {
            Some(p) => copy_bytes(p),
            None => default_agent_context_panel_config_path(),
        }
    }

    /// The file that replaces the Agent Context panel status, if any.
    pub fn agent_context_panel_status_path_for_tests(&self) -> (r: Option<Vec<u8>>)
        ensures
            path_view(r) == path_view(self.agent_context_panel_status),
    {
        copy_path(&self.agent_context_panel_status)
    }

    /// Replaces the Agent Context panel status with `path` (`None` restores it), and gives back what
    /// replaced it before.
    pub fn set_agent_context_panel_status_path_for_tests(&mut self, path: Option<Vec<u8>>) -> (r: Option<Vec<u8>>)
        ensures
            r == old(self).agent_context_panel_status,
            *final(self) == (StatePathOverrides { agent_context_panel_status: path, ..*old(self) }),
    {
        let previous = self.agent_context_panel_status.take();
        self.agent_context_panel_status = path;
        previous
    }

    /// The Agent Context panel status: the one that replaces it, else the default one.
    pub fn agent_context_panel_status_path(&self) -> (r: Vec<u8>)
        ensures
            match self.agent_context_panel_status {
                Some(p) => r@ == p@,
                None => is_default_state_file(r@, "agent-context-panel-status.json"@),
            },
    {
        match &self.agent_context_panel_status {
            Some(p) => copy_bytes(p),
            None => default_agent_context_panel_status_path(),
        }
    }

    /// The file that replaces the Agent Context feedback log, if any.
    pub fn agent_context_feedback_path_for_tests(&self) -> (r: Option<Vec<u8>>)
        ensures
            path_view(r) == path_view(self.agent_context_feedback),
    {
        copy_path(&self.agent_context_feedback)
    }

    /// Replaces the Agent Context feedback log with `path` (`None` restores it), and gives back what
    /// replaced it before.
    pub fn set_agent_context_feedback_path_for_tests(&mut self, path: Option<Vec<u8>>) -> (r: Option<Vec<u8>>)
        ensures
            r == old(self).agent_context_feedback,
            *final(self) == (StatePathOverrides { agent_context_feedback: path, ..*old(self) }),
    {
        let previous = self.agent_context_feedback.take();
        self.agent_context_feedback = path;
        previous
    }

    /// The Agent Context feedback log: the one that replaces it, else the default one.
    pub fn agent_context_feedback_path(&self) -> (r: Vec<u8>)
        ensures
            match self.agent_context_feedback {
                Some(p) => r@ == p@,
                None => is_default_state_file(r@, "agent-context-feedback.jsonl"@),
            },
    {
        match &self.agent_context_feedback {
            Some(p) => copy_bytes(p),
            None => default_agent_context_feedback_path(),
        }
    }
}

} // verus!
