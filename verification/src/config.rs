//! The Agent Context panel configuration: which sources to search, how, and
//! where the `agent-context` tool and its data live.

use vstd::prelude::*;
use crate::system::{home_dir, path_exists, path_separator};
use crate::text::{is_platform_separator, utf8_lossy};
use crate::text::{is_blank, is_blank_spec, join_path, join_path_str, non_empty_or_default, opt_view, or_default, str_eq, trim, trim_str};

verus! {

/// The panel configuration, as saved in `agent-context-panel.json`.
#[derive(Debug, Clone, PartialEq, Eq)]
pub struct AgentContextPanelConfig {
    pub auto_context: bool,
    pub scope: String,
    pub mode: String,
    pub agent_context_root: String,
    pub agent_context_bin: String,
}

/// A configuration as plain values.
pub struct ConfigView {
    pub auto_context: bool,
    pub scope: Seq<char>,
    pub mode: Seq<char>,
    pub root: Seq<char>,
    pub bin: Seq<char>,
}

impl View for AgentContextPanelConfig {
    type V = ConfigView;

    open spec fn view(&self) -> ConfigView {
        ConfigView {
            auto_context: self.auto_context,
            scope: self.scope@,
            mode: self.mode@,
            root: self.agent_context_root@,
            bin: self.agent_context_bin@,
        }
    }
}

/// The home directory, or the working directory `.` when there is none.
pub open spec fn home_or_dot(home: Option<Seq<char>>) -> Seq<char> {
    match home {
        Some(h) => h,
        None => "."@,
    }
}

/// Where the `agent-context` tool keeps its data, for a home directory, on
/// a platform whose path separator is `sep`.
pub open spec fn default_root_for(home: Option<Seq<char>>, sep: char) -> Seq<char> {
    join_path(home_or_dot(home), "agent-context-system"@, sep)
}

/// The file name of the `agent-context` executable: with `.exe` on Windows,
/// the platform whose path separator is a backslash.
pub open spec fn executable_name(sep: char) -> Seq<char> {
    if sep == '\\' { "agent-context.exe"@ } else { "agent-context"@ }
}

/// The `agent-context` executable, for a home directory, on a platform
/// whose path separator is `sep`.
pub open spec fn default_bin_for(home: Option<Seq<char>>, sep: char) -> Seq<char> {
    join_path(default_root_for(home, sep), executable_name(sep), sep)
}

/// The source scopes that the tool knows.
pub open spec fn valid_scope(s: Seq<char>) -> bool {
    ||| s == "downloads"@
    ||| s == "gitProjects"@
    ||| s == "codexSessions"@
    ||| s == "agentSessions"@
    ||| s == "workflowDocs"@
    ||| s == "all"@
}

/// The modes that the tool knows.
pub open spec fn valid_mode(s: Seq<char>) -> bool {
    ||| s == "fast"@
    ||| s == "deep"@
    ||| s == "arena"@
}

/// A scope trimmed when it is known, else `all`.
pub open spec fn normalized_scope(s: Seq<char>) -> Seq<char> {
    if valid_scope(trim(s)) { trim(s) } else { "all"@ }
}

/// A mode trimmed when it is known, else `fast`.
pub open spec fn normalized_mode(s: Seq<char>) -> Seq<char> {
    if valid_mode(trim(s)) { trim(s) } else { "fast"@ }
}

/// A configuration with unknown scope and mode replaced by the defaults and
/// blank locations replaced by those in `home` on a platform whose path
/// separator is `sep`.
pub open spec fn normalize_view(c: ConfigView, home: Option<Seq<char>>, sep: char) -> ConfigView {
    ConfigView {
        auto_context: c.auto_context,
        scope: normalized_scope(c.scope),
        mode: normalized_mode(c.mode),
        root: or_default(c.root, default_root_for(home, sep)),
        bin: or_default(c.bin, default_bin_for(home, sep)),
    }
}

/// The default scope: every source.
pub fn default_scope() -> (r: String)
    ensures
        r@ == "all"@,
{
    "all".to_owned()
}

/// The default mode.
pub fn default_mode() -> (r: String)
    ensures
        r@ == "fast"@,
{
    "fast".to_owned()
}

/// The status of a panel that has not run yet.
pub fn default_status() -> (r: String)
    ensures
        r@ == "not_checked"@,
{
    "not_checked".to_owned()
}

/// The home directory as text (`to_string_lossy`), when there is one.
fn home_text() -> (r: Option<String>) {
    match home_dir() {
        Some(h) => Some(utf8_lossy(h.as_slice())),
        None => None,
    }
}

fn root_for_home(home: &Option<String>, sep: char) -> (r: String)
    ensures
        r@ == default_root_for(opt_view(*home), sep),
{
    match home {
        Some(h) => join_path_str(h.as_str(), "agent-context-system", sep),
        None => join_path_str(".", "agent-context-system", sep),
    }
}

/// The file name of the `agent-context` executable on a platform whose
/// path separator is `sep` (see `executable_name`).
pub fn executable_name_for(sep: char) -> (r: &'static str)
    ensures
        r@ == executable_name(sep),
{
    if sep == '\\' { "agent-context.exe" } else { "agent-context" }
}

fn bin_for_home(home: &Option<String>, sep: char) -> (r: String)
    ensures
        r@ == default_bin_for(opt_view(*home), sep),
{
    let root = root_for_home(home, sep);
    join_path_str(root.as_str(), executable_name_for(sep), sep)
}

/// Where the tool keeps its data by default: `agent-context-system` in the
/// home directory.
pub fn default_agent_context_root() -> (r: String)
    ensures
        exists|h: Option<Seq<char>>, s: char| is_platform_separator(s) && r@ == default_root_for(h, s),
{
    let home = home_text();
    let sep = path_separator();
    let r = root_for_home(&home, sep);
    assert(is_platform_separator(sep));
    r
}

/// The tool's executable by default: `agent-context` (`agent-context.exe`
/// on Windows) in the default root.
pub fn default_agent_context_bin() -> (r: String)
    ensures
        exists|h: Option<Seq<char>>, s: char| is_platform_separator(s) && r@ == default_bin_for(h, s),
{
    let home = home_text();
    let sep = path_separator();
    let r = bin_for_home(&home, sep);
    assert(is_platform_separator(sep));
    r
}

/// Auto Context is on by default when the tool is installed where it is
/// looked for by default.
pub fn default_auto_context() -> bool {
    path_exists(default_agent_context_bin().as_str())
}

impl Default for AgentContextPanelConfig {
    fn default() -> (r: Self)
        ensures
            r.scope@ == "all"@,
            r.mode@ == "fast"@,
            exists|h: Option<Seq<char>>, s: char|
                is_platform_separator(s) && r.agent_context_root@ == default_root_for(h, s)
                    && r.agent_context_bin@ == default_bin_for(h, s),
    {
        let home = home_text();
        let sep = path_separator();
        let root = root_for_home(&home, sep);
        let bin = bin_for_home(&home, sep);
        let auto_context = path_exists(bin.as_str());
        assert(is_platform_separator(sep));
        AgentContextPanelConfig {
            auto_context,
            scope: default_scope(),
            mode: default_mode(),
            agent_context_root: root,
            agent_context_bin: bin,
        }
    }
}

fn normalized_scope_of(scope: &str) -> (r: String)
    ensures
        r@ == normalized_scope(scope@),
{
    let t = trim_str(scope);
    if str_eq(t, "downloads") || str_eq(t, "gitProjects") || str_eq(t, "codexSessions")
        || str_eq(t, "agentSessions") || str_eq(t, "workflowDocs") || str_eq(t, "all") {
        t.to_owned()
    } else {
        default_scope()
    }
}

fn normalized_mode_of(mode: &str) -> (r: String)
    ensures
        r@ == normalized_mode(mode@),
{
    let t = trim_str(mode);
    if str_eq(t, "fast") || str_eq(t, "deep") || str_eq(t, "arena") {
        t.to_owned()
    } else {
        default_mode()
    }
}

/// The configuration with an unknown scope replaced by `all`, an unknown mode
/// by `fast`, and a blank root or executable by its default in the home
/// directory `home` (the working directory when there is none) on a
/// platform whose path separator is `sep`; known values are trimmed.
pub fn normalize_config_for(
    config: AgentContextPanelConfig,
    home: &Option<String>,
    sep: char,
) -> (r: AgentContextPanelConfig)
    ensures
        r@ == normalize_view(config@, opt_view(*home), sep),
{
    let root = non_empty_or_default(config.agent_context_root.as_str(), root_for_home(home, sep));
    let bin = non_empty_or_default(config.agent_context_bin.as_str(), bin_for_home(home, sep));
    AgentContextPanelConfig {
        auto_context: config.auto_context,
        scope: normalized_scope_of(config.scope.as_str()),
        mode: normalized_mode_of(config.mode.as_str()),
        agent_context_root: root,
        agent_context_bin: bin,
    }
}

/// The configuration normalized (see `normalize_config_for`) in the home
/// directory of the user running the process, on this platform. The home
/// directory is read once, and only when a location is blank: where neither
/// is, the result is the same whatever the home and the separator.
pub fn normalize_config(config: AgentContextPanelConfig) -> (r: AgentContextPanelConfig)
    ensures
        exists|h: Option<Seq<char>>, s: char|
            is_platform_separator(s) && r@ == normalize_view(config@, h, s),
        !is_blank_spec(config.agent_context_root@) && !is_blank_spec(config.agent_context_bin@)
            ==> forall|h: Option<Seq<char>>, s: char| r@ == #[trigger] normalize_view(config@, h, s),
{
    let home = if is_blank(config.agent_context_root.as_str())
        || is_blank(config.agent_context_bin.as_str()) {
        home_text()
    } else {
        None
    };
    let sep = path_separator();
    let r = normalize_config_for(config, &home, sep);
    assert(is_platform_separator(sep));
    r
}

} // verus!
