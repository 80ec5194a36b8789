//! The access policy and consent grants of the `agent-context` tool: the
//! command lines that read and change them, and what their output becomes.

use vstd::prelude::*;
use crate::commands::{
    access_consent_command_args, append_repeated_arg, command_failure_message, failure_message,
    push_arg, repeated_args, strings, CommandOutcome, access_consent_args,
};
use crate::config::AgentContextPanelConfig;
use crate::error::AgentContextError;
use crate::system::path_separator;
use crate::text::{decimal, is_platform_separator, join_path, join_path_str, non_empty_or_default, or_default, u64_to_decimal};

verus! {

/// The access policy as the tool reports it.
#[derive(Debug, Clone, PartialEq, Eq)]
pub struct AgentContextAccessPolicy {
    pub allow_providers: Vec<String>,
    pub deny_providers: Vec<String>,
    pub deny_path_patterns: Vec<String>,
    pub require_consent_providers: Vec<String>,
    pub require_consent_path_patterns: Vec<String>,
    pub audit_max_bytes: u64,
    pub audit_max_rotated_files: u64,
}

/// A change to the access policy: entries to add and to remove, and new
/// audit limits.
#[derive(Debug, Clone, PartialEq, Eq)]
pub struct AgentContextAccessPolicyPatch {
    pub allow_providers: Vec<String>,
    pub remove_allow_providers: Vec<String>,
    pub deny_providers: Vec<String>,
    pub remove_deny_providers: Vec<String>,
    pub deny_path_patterns: Vec<String>,
    pub remove_deny_path_patterns: Vec<String>,
    pub require_consent_providers: Vec<String>,
    pub remove_require_consent_providers: Vec<String>,
    pub require_consent_path_patterns: Vec<String>,
    pub remove_require_consent_path_patterns: Vec<String>,
    pub audit_max_bytes: Option<u64>,
    pub audit_max_rotated_files: Option<u64>,
}

impl AgentContextAccessPolicyPatch {
    /// The patch that changes nothing.
    pub fn empty() -> (r: Self)
        ensures
            r.is_empty_patch(),
    {
        AgentContextAccessPolicyPatch {
            allow_providers: Vec::new(),
            remove_allow_providers: Vec::new(),
            deny_providers: Vec::new(),
            remove_deny_providers: Vec::new(),
            deny_path_patterns: Vec::new(),
            remove_deny_path_patterns: Vec::new(),
            require_consent_providers: Vec::new(),
            remove_require_consent_providers: Vec::new(),
            require_consent_path_patterns: Vec::new(),
            remove_require_consent_path_patterns: Vec::new(),
            audit_max_bytes: None,
            audit_max_rotated_files: None,
        }
    }

    /// A patch with no entries and no limits.
    pub open spec fn is_empty_patch(self) -> bool {
        &&& self.allow_providers@.len() == 0
        &&& self.remove_allow_providers@.len() == 0
        &&& self.deny_providers@.len() == 0
        &&& self.remove_deny_providers@.len() == 0
        &&& self.deny_path_patterns@.len() == 0
        &&& self.remove_deny_path_patterns@.len() == 0
        &&& self.require_consent_providers@.len() == 0
        &&& self.remove_require_consent_providers@.len() == 0
        &&& self.require_consent_path_patterns@.len() == 0
        &&& self.remove_require_consent_path_patterns@.len() == 0
        &&& self.audit_max_bytes is None
        &&& self.audit_max_rotated_files is None
    }
}

/// What `agent-context access-policy` reports after a run.
#[derive(Debug, Clone, PartialEq, Eq)]
pub struct AgentContextAccessPolicyState {
    pub policy_path: String,
    pub updated: bool,
    pub changes: Vec<String>,
    pub policy: AgentContextAccessPolicy,
}

/// The output of `agent-context access-policy`, as parsed.
#[derive(Debug, Clone)]
pub struct AgentContextAccessPolicyCommandOutput {
    pub policy_path: String,
    pub updated: bool,
    pub changes: Vec<String>,
    pub policy: AgentContextAccessPolicy,
}

/// One consent grant.
#[derive(Debug, Clone, PartialEq, Eq)]
pub struct AgentContextAccessConsentGrant {
    pub created_at: String,
    pub key: String,
    pub identifier: String,
    pub reason: String,
    pub provider: String,
    pub source_id: String,
    pub source_chunk_id: String,
    pub path: String,
    pub relative_path: String,
}

/// What `agent-context access-consent` reports after a grant.
#[derive(Debug, Clone, PartialEq, Eq)]
pub struct AgentContextAccessConsentState {
    pub consent_path: String,
    pub written: bool,
    pub grants_total: usize,
    pub grant: AgentContextAccessConsentGrant,
}

/// The output of `agent-context access-consent`, as parsed.
#[derive(Debug, Clone)]
pub struct AgentContextAccessConsentCommandOutput {
    pub consent_path: String,
    pub written: bool,
    pub grants_total: usize,
    pub grant: AgentContextAccessConsentGrant,
}

/// `flag n` when there is a value `n`, in decimal.
pub open spec fn optional_number_arg(flag: Seq<char>, value: Option<u64>) -> Seq<Seq<char>> {
    match value {
        Some(n) => seq![flag, decimal(n as nat)],
        None => seq![],
    }
}

/// `agent-context access-policy`: the policy, changed by each entry of the
/// patch that is not blank and by each limit that it sets.
pub open spec fn access_policy_args(
    c: AgentContextPanelConfig,
    p: AgentContextAccessPolicyPatch,
) -> Seq<Seq<char>> {
    seq!["access-policy"@, "--out"@, c.agent_context_root@]
        + repeated_args("--allow-provider"@, strings(p.allow_providers@))
        + repeated_args("--remove-allow-provider"@, strings(p.remove_allow_providers@))
        + repeated_args("--deny-provider"@, strings(p.deny_providers@))
        + repeated_args("--remove-deny-provider"@, strings(p.remove_deny_providers@))
        + repeated_args("--deny-path"@, strings(p.deny_path_patterns@))
        + repeated_args("--remove-deny-path"@, strings(p.remove_deny_path_patterns@))
        + repeated_args("--require-consent-provider"@, strings(p.require_consent_providers@))
        + repeated_args(
        "--remove-require-consent-provider"@,
        strings(p.remove_require_consent_providers@),
    ) + repeated_args("--require-consent-path"@, strings(p.require_consent_path_patterns@))
        + repeated_args(
        "--remove-require-consent-path"@,
        strings(p.remove_require_consent_path_patterns@),
    ) + optional_number_arg("--audit-max-bytes"@, p.audit_max_bytes) + optional_number_arg(
        "--audit-max-rotated-files"@,
        p.audit_max_rotated_files,
    )
}

fn append_optional_number_arg(args: &mut Vec<String>, flag: &str, value: Option<u64>)
    ensures
        strings(final(args)@) == strings(old(args)@) + optional_number_arg(flag@, value),
{
    match value {
        Some(n) => {
            push_arg(args, flag);
            let text = u64_to_decimal(n);
            push_arg(args, text.as_str());
        },
        None => {},
    }
    assert(strings(args@) =~= strings(old(args)@) + optional_number_arg(flag@, value));
}

/// The arguments of `agent-context access-policy` for `patch`.
pub fn access_policy_command_args(
    config: &AgentContextPanelConfig,
    patch: &AgentContextAccessPolicyPatch,
) -> (r: Vec<String>)
    ensures
        strings(r@) == access_policy_args(*config, *patch),
{
    let mut args: Vec<String> = Vec::new();
    push_arg(&mut args, "access-policy");
    push_arg(&mut args, "--out");
    push_arg(&mut args, config.agent_context_root.as_str());
    append_repeated_arg(&mut args, "--allow-provider", patch.allow_providers.as_slice());
    append_repeated_arg(&mut args, "--remove-allow-provider", patch.remove_allow_providers.as_slice());
    append_repeated_arg(&mut args, "--deny-provider", patch.deny_providers.as_slice());
    append_repeated_arg(&mut args, "--remove-deny-provider", patch.remove_deny_providers.as_slice());
    append_repeated_arg(&mut args, "--deny-path", patch.deny_path_patterns.as_slice());
    append_repeated_arg(&mut args, "--remove-deny-path", patch.remove_deny_path_patterns.as_slice());
    append_repeated_arg(
        &mut args,
        "--require-consent-provider",
        patch.require_consent_providers.as_slice(),
    );
    append_repeated_arg(
        &mut args,
        "--remove-require-consent-provider",
        patch.remove_require_consent_providers.as_slice(),
    );
    append_repeated_arg(
        &mut args,
        "--require-consent-path",
        patch.require_consent_path_patterns.as_slice(),
    );
    append_repeated_arg(
        &mut args,
        "--remove-require-consent-path",
        patch.remove_require_consent_path_patterns.as_slice(),
    );
    append_optional_number_arg(&mut args, "--audit-max-bytes", patch.audit_max_bytes);
    append_optional_number_arg(&mut args, "--audit-max-rotated-files", patch.audit_max_rotated_files);
    assert(strings(args@) =~= access_policy_args(*config, *patch));
    args
}

/// The command line that reads the access policy: `access-policy` with the
/// patch that changes nothing.
pub fn load_agent_context_access_policy(config: &AgentContextPanelConfig) -> (r: Vec<String>)
    ensures
        strings(r@) == seq!["access-policy"@, "--out"@, config.agent_context_root@],
{
    let patch = AgentContextAccessPolicyPatch::empty();
    let r = access_policy_command_args(config, &patch);
    assert(strings(patch.allow_providers@) =~= seq![]);
    assert(strings(patch.remove_allow_providers@) =~= seq![]);
    assert(strings(patch.deny_providers@) =~= seq![]);
    assert(strings(patch.remove_deny_providers@) =~= seq![]);
    assert(strings(patch.deny_path_patterns@) =~= seq![]);
    assert(strings(patch.remove_deny_path_patterns@) =~= seq![]);
    assert(strings(patch.require_consent_providers@) =~= seq![]);
    assert(strings(patch.remove_require_consent_providers@) =~= seq![]);
    assert(strings(patch.require_consent_path_patterns@) =~= seq![]);
    assert(strings(patch.remove_require_consent_path_patterns@) =~= seq![]);
    assert(access_policy_args(*config, patch) =~= seq![
        "access-policy"@,
        "--out"@,
        config.agent_context_root@,
    ]);
    r
}

/// The command line that applies `patch` to the access policy.
pub fn update_agent_context_access_policy(
    config: &AgentContextPanelConfig,
    patch: &AgentContextAccessPolicyPatch,
) -> (r: Vec<String>)
    ensures
        strings(r@) == access_policy_args(*config, *patch),
{
    access_policy_command_args(config, patch)
}

/// The command line that grants consent for `identifier`, with `reason`.
pub fn grant_agent_context_access_consent(
    config: &AgentContextPanelConfig,
    identifier: &str,
    reason: &str,
) -> (r: Vec<String>)
    ensures
        strings(r@) == access_consent_args(*config, identifier@, reason@),
{
    access_consent_command_args(config, identifier, reason)
}

/// The policy file that the tool uses in `root` when it does not name one,
/// on a platform whose path separator is `sep`.
pub open spec fn default_policy_path(root: Seq<char>, sep: char) -> Seq<char> {
    join_path(root, "config/access_policy.json"@, sep)
}

/// The consent file that the tool uses in `root` when it does not name one,
/// on a platform whose path separator is `sep`.
pub open spec fn default_consent_path(root: Seq<char>, sep: char) -> Seq<char> {
    join_path(root, "config/access_consent.json"@, sep)
}

/// The state that the panel shows for an `access-policy` output: the output
/// as it is, with its policy path trimmed, or the tool's default path when it
/// gives none.
pub fn access_policy_output_to_state(
    output: AgentContextAccessPolicyCommandOutput,
    config: &AgentContextPanelConfig,
) -> (r: AgentContextAccessPolicyState)
    ensures
        exists|s: char| is_platform_separator(s) && r.policy_path@ == or_default(
            output.policy_path@,
            default_policy_path(config.agent_context_root@, s),
        ),
        r.updated == output.updated,
        r.changes == output.changes,
        r.policy == output.policy,
{
    let sep = path_separator();
    let default_path = join_path_str(config.agent_context_root.as_str(), "config/access_policy.json", sep);
    let policy_path = non_empty_or_default(output.policy_path.as_str(), default_path);
    assert(policy_path@ == or_default(
        output.policy_path@,
        default_policy_path(config.agent_context_root@, sep),
    ));
    AgentContextAccessPolicyState {
        policy_path,
        updated: output.updated,
        changes: output.changes,
        policy: output.policy,
    }
}

/// The state that the panel shows for an `access-consent` output: the output
/// as it is, with its consent path trimmed, or the tool's default path when it
/// gives none.
pub fn access_consent_output_to_state(
    output: AgentContextAccessConsentCommandOutput,
    config: &AgentContextPanelConfig,
) -> (r: AgentContextAccessConsentState)
    ensures
        exists|s: char| is_platform_separator(s) && r.consent_path@ == or_default(
            output.consent_path@,
            default_consent_path(config.agent_context_root@, s),
        ),
        r.written == output.written,
        r.grants_total == output.grants_total,
        r.grant == output.grant,
{
    let sep = path_separator();
    let default_path = join_path_str(config.agent_context_root.as_str(), "config/access_consent.json", sep);
    let consent_path = non_empty_or_default(output.consent_path.as_str(), default_path);
    assert(consent_path@ == or_default(
        output.consent_path@,
        default_consent_path(config.agent_context_root@, sep),
    ));
    AgentContextAccessConsentState {
        consent_path,
        written: output.written,
        grants_total: output.grants_total,
        grant: output.grant,
    }
}

/// The result of an `access-policy` run: the failure message when the command
/// failed, the parse error when its output did not parse, else its state.
pub fn parse_access_policy_output(
    outcome: &CommandOutcome,
    parsed: Result<AgentContextAccessPolicyCommandOutput, String>,
    config: &AgentContextPanelConfig,
) -> (r: Result<AgentContextAccessPolicyState, AgentContextError>)
    ensures
        !outcome.success ==> (r matches Err(AgentContextError::Message(m)) && m@ == failure_message(
            outcome.stdout@,
            outcome.stderr@,
            outcome.status@,
        )),
        outcome.success ==> match parsed {
            Err(e) => (r matches Err(AgentContextError::Context { context, cause }) && context@
                == "failed to parse agent-context access-policy output"@ && cause@ == e@),
            Ok(o) => (r matches Ok(s) && (exists|sep: char| is_platform_separator(sep) && s.policy_path@ == or_default(
                o.policy_path@,
                default_policy_path(config.agent_context_root@, sep),
            )) && s.updated == o.updated && s.changes == o.changes && s.policy == o.policy),
        },
{
    if !outcome.success {
        return Err(AgentContextError::Message(command_failure_message(outcome)));
    }
    match parsed {
        Err(e) => Err(
            AgentContextError::Context {
                context: "failed to parse agent-context access-policy output".to_owned(),
                cause: e,
            },
        ),
        Ok(o) => Ok(access_policy_output_to_state(o, config)),
    }
}

/// The result of an `access-consent` run: the failure message when the
/// command failed, the parse error when its output did not parse, else its
/// state.
pub fn parse_access_consent_output(
    outcome: &CommandOutcome,
    parsed: Result<AgentContextAccessConsentCommandOutput, String>,
    config: &AgentContextPanelConfig,
) -> (r: Result<AgentContextAccessConsentState, AgentContextError>)
    ensures
        !outcome.success ==> (r matches Err(AgentContextError::Message(m)) && m@ == failure_message(
            outcome.stdout@,
            outcome.stderr@,
            outcome.status@,
        )),
        outcome.success ==> match parsed {
            Err(e) => (r matches Err(AgentContextError::Context { context, cause }) && context@
                == "failed to parse agent-context access-consent output"@ && cause@ == e@),
            Ok(o) => (r matches Ok(s) && (exists|sep: char| is_platform_separator(sep) && s.consent_path@ == or_default(
                o.consent_path@,
                default_consent_path(config.agent_context_root@, sep),
            )) && s.written == o.written && s.grants_total == o.grants_total && s.grant == o.grant),
        },
{
    if !outcome.success {
        return Err(AgentContextError::Message(command_failure_message(outcome)));
    }
    match parsed {
        Err(e) => Err(
            AgentContextError::Context {
                context: "failed to parse agent-context access-consent output".to_owned(),
                cause: e,
            },
        ),
        Ok(o) => Ok(access_consent_output_to_state(o, config)),
    }
}

} // verus!
