//! Loading a configuration: the checks that a decoded file must pass, and what is filled in.
use crate::bridge::{
    self, inject_bundled_context_bridge_from_env, room_for_bridge, BridgeFacts,
    BundledContextReadinessProbe,
};
use crate::config::{
    self, McpGatewayConfig, RunnerConfig, RunnerHostContext, RunnerPolicy, RunnerRules,
    MAX_POLL_INTERVAL_MS, TRANSPORT_QUIC,
};
use crate::faults::{self, Fault};
use crate::providers::{
    self, validate_acp_config, validate_mcp_gateway_config, validate_plugin_config,
};
use crate::text::{self, is_blank, same, trim};
use crate::toml_shape::{self, validate_shell_profile_toml_shape};
use crate::transport::{self, is_polling_possible, is_transport_ok};
use crate::validate::{
    self, validate_instructions_config, validate_max_concurrent_jobs, validate_quic_config,
    validate_shell_config, validate_skills_config, validate_ssh_config, SshVerdict,
};
use vstd::prelude::*;
use vstd::string::*;

verus! {

/// What the host and the shared rules say of a decoded configuration. Each part counts only where
/// the configuration gets to it.
#[derive(Debug)]
pub struct LoadFacts {
    /// The host context in normal form, or what is wrong with it.
    pub host_context: Result<RunnerHostContext, String>,
    /// The roots in effect, or why there are none.
    pub allowed_roots: Result<Vec<String>, String>,
    /// The registry directory where none is configured.
    pub default_registry_dir: Result<String, String>,
    /// What the shared rules make of each SSH resource.
    pub ssh: Vec<SshVerdict>,
    /// Where the environment points to the node executable of the bundled bridge.
    pub bridge_node: Option<String>,
    /// Where the environment points to the bundled bridge.
    pub bridge_dir: Option<String>,
    /// What the readiness check of the bundled bridge reported.
    pub readiness: Option<BundledContextReadinessProbe>,
    pub bridge: BridgeFacts,
}

/// What is wrong with the identity and the intervals.
pub open spec fn basics_fault(cfg: RunnerConfig) -> Fault {
    if text::blank(cfg.server_url@) {
        Some("server_url cannot be empty"@)
    } else if text::blank(cfg.client_id@) {
        Some("client_id cannot be empty"@)
    } else if cfg.poll_interval_ms == 0 {
        Some("poll_interval_ms must be > 0"@)
    } else if cfg.websocket_connect_timeout_secs == 0 {
        Some("websocket_connect_timeout_secs must be > 0"@)
    } else {
        None
    }
}

/// What is wrong with the transport and its interval.
pub open spec fn transport_fault(cfg: RunnerConfig) -> Fault {
    if !transport::transport_ok(cfg.transport) {
        Some("transport must be websocket, polling, quic, or auto"@)
    } else if transport::may_poll(cfg.transport) && cfg.poll_interval_ms > 30000 {
        Some("poll_interval_ms must be <= 30000 when polling may be used"@)
    } else {
        None
    }
}

/// The registry directory in effect, or why there is none.
pub open spec fn registry_dir_of(
    configured: Option<String>,
    legacy: Option<String>,
    default: Result<String, String>,
) -> Result<Seq<char>, Seq<char>> {
    match (configured, legacy) {
        (Some(_), Some(_)) => Err(
            "project_registry_dir and legacy projects_dir cannot both be configured; keep exactly one Runner project registry setting"@,
        ),
        (Some(dir), None) => Ok(dir@),
        (None, Some(dir)) => Ok(dir@),
        (None, None) => match default {
            Ok(dir) => Ok(dir@),
            Err(error) => Err(error@),
        },
    }
}

/// What is wrong with the QUIC section.
pub open spec fn quic_section_fault(cfg: RunnerConfig) -> Fault {
    match cfg.quic {
        Some(quic) => validate::quic_fault(quic),
        None => if cfg.transport is Some && text::trimmed((cfg.transport->0)@) == "quic"@ {
            Some("transport=quic requires a [quic] section in the Runner config"@)
        } else {
            None
        },
    }
}

/// What is wrong with the tool provider section.
pub open spec fn tool_provider_fault(cfg: RunnerConfig) -> Fault {
    let claude = cfg.tool_providers.claude_code;
    if claude.enabled && text::blank(claude.command@) {
        Some("tool_providers."@ + "claude_code.command cannot be empty"@)
    } else if claude.enabled && claude.timeout_secs == 0 {
        Some("tool_providers."@ + "claude_code.timeout_secs must be > 0"@)
    } else {
        None
    }
}

/// The complaint of an outcome.
pub open spec fn error_of<T>(outcome: Result<T, String>) -> Fault {
    match outcome {
        Ok(_) => None,
        Err(error) => Some(error@),
    }
}

/// The complaint of a registry directory.
pub open spec fn registry_fault(cfg: RunnerConfig, facts: LoadFacts) -> Fault {
    match registry_dir_of(
        cfg.project_registry_dir,
        cfg.legacy_projects_dir,
        facts.default_registry_dir,
    ) {
        Ok(_) => None,
        Err(error) => Some(error),
    }
}

/// What is wrong with the limits and the paths.
pub open spec fn limits_fault(rules: RunnerRules, cfg: RunnerConfig) -> Fault {
    if !config::job_limit_in_range(cfg.max_concurrent_jobs) {
        Some("max_concurrent_jobs must be between "@ + "1 and 64"@)
    } else {
        faults::or_else(
            validate::skills_fault(rules.platform, cfg.skills),
            validate::instructions_fault(rules.platform, cfg.instructions),
        )
    }
}

/// What is wrong with the host context.
pub open spec fn host_context_fault(cfg: RunnerConfig, facts: LoadFacts) -> Fault {
    if cfg.host_context is Some {
        error_of(facts.host_context)
    } else {
        None
    }
}

/// What is wrong with a decoded configuration, up to the sections that name child processes.
pub open spec fn sections_fault(rules: RunnerRules, cfg: RunnerConfig, facts: LoadFacts) -> Fault {
    faults::or_else(
        basics_fault(cfg),
        faults::or_else(
            limits_fault(rules, cfg),
            faults::or_else(
                host_context_fault(cfg, facts),
                faults::or_else(
                    transport_fault(cfg),
                    faults::or_else(
                        error_of(facts.allowed_roots),
                        faults::or_else(
                            registry_fault(cfg, facts),
                            faults::or_else(
                                validate::shell_fault(cfg.shell),
                                faults::or_else(
                                    validate::ssh_fault(cfg.ssh.resources@, facts.ssh@),
                                    faults::or_else(
                                        quic_section_fault(cfg),
                                        tool_provider_fault(cfg),
                                    ),
                                ),
                            ),
                        ),
                    ),
                ),
            ),
        ),
    )
}

/// What is wrong with the sections that name child processes.
pub open spec fn child_process_fault(
    rules: RunnerRules,
    cfg: RunnerConfig,
    gateway: McpGatewayConfig,
) -> Fault {
    faults::or_else(
        providers::mcp_gateway_fault(rules, gateway),
        faults::or_else(
            providers::plugin_fault(rules, cfg.plugins, cfg.shell),
            providers::acp_fault(rules, cfg.acp),
        ),
    )
}

/// A complaint about a file.
pub open spec fn about_file(what: Seq<char>, path: Seq<char>, error: Seq<char>) -> Seq<char> {
    what + " "@ + path + ": "@ + error
}

/// What keeps a file from being a decoded configuration: it cannot be read, the shape of its shell
/// section is wrong, or it does not decode.
pub open spec fn file_fault(
    path: Seq<char>,
    read: Result<String, String>,
    decoded: Result<RunnerConfig, String>,
) -> Fault {
    match read {
        Err(error) => Some(about_file("failed to read config"@, path, error@)),
        Ok(content) => match toml_shape::toml_shape_fault(content@) {
            Some(error) => Some(about_file("failed to parse config"@, path, error)),
            None => match decoded {
                Err(error) => Some(about_file("failed to parse config"@, path, error@)),
                Ok(_) => None,
            },
        },
    }
}

/// A file that is a decoded configuration.
pub open spec fn file_decodes(
    read: Result<String, String>,
    decoded: Result<RunnerConfig, String>,
) -> bool {
    &&& read matches Ok(content) && toml_shape::toml_shape_fault(content@) is None
    &&& decoded is Ok
}

/// The gateway section with the bundled bridge, where it applies.
pub open spec fn gateway_with_bridge(
    rules: RunnerRules,
    before: McpGatewayConfig,
    facts: LoadFacts,
    after: McpGatewayConfig,
) -> bool {
    &&& after.request_timeout_secs == before.request_timeout_secs
    &&& if bridge::bridge_applies_from_env(
        rules,
        before,
        facts.bridge_node,
        facts.bridge_dir,
        facts.readiness,
        facts.bridge,
    ) {
        &&& after.providers@.len() == before.providers@.len() + 1
        &&& after.providers@.drop_last() == before.providers@
        &&& after.providers@.last()@ == bridge::bridge_provider(facts.bridge)
        &&& after.providers@.last().id.fault is None
        &&& after.providers@.last().name.fault is None
    } else {
        after == before
    }
}

/// A loaded configuration: the decoded one, with the host context and the SSH resources in normal
/// form, the roots and the registry directory in effect, one spelling of the latter, and the
/// bundled bridge where it applies.
pub open spec fn loaded_from(
    rules: RunnerRules,
    decoded: RunnerConfig,
    facts: LoadFacts,
    loaded: RunnerConfig,
) -> bool {
    &&& loaded == (RunnerConfig {
        host_context: if decoded.host_context is Some {
            Some(facts.host_context->Ok_0)
        } else {
            None
        },
        policy: RunnerPolicy { allowed_roots: facts.allowed_roots->Ok_0, ..decoded.policy },
        project_registry_dir: loaded.project_registry_dir,
        legacy_projects_dir: None,
        ssh: loaded.ssh,
        mcp_gateway: loaded.mcp_gateway,
        ..decoded
    })
    &&& loaded.project_registry_dir matches Some(dir) && Ok::<Seq<char>, Seq<char>>(dir@)
        == registry_dir_of(
        decoded.project_registry_dir,
        decoded.legacy_projects_dir,
        facts.default_registry_dir,
    )
    &&& loaded.ssh.resources@ == validate::resources_up_to(
        decoded.ssh.resources@,
        facts.ssh@,
        decoded.ssh.resources@.len() as int,
    )
    &&& gateway_with_bridge(rules, decoded.mcp_gateway, facts, loaded.mcp_gateway)
}

fn check_basics(cfg: &RunnerConfig) -> (r: Result<(), String>)
    ensures
        faults::reports(r, basics_fault(*cfg)),
{
    if is_blank(cfg.server_url.as_str()) {
        return Err("server_url cannot be empty".to_owned());
    }
    if is_blank(cfg.client_id.as_str()) {
        return Err("client_id cannot be empty".to_owned());
    }
    if cfg.poll_interval_ms == 0 {
        return Err("poll_interval_ms must be > 0".to_owned());
    }
    if cfg.websocket_connect_timeout_secs == 0 {
        return Err("websocket_connect_timeout_secs must be > 0".to_owned());
    }
    Ok(())
}

fn check_transport(cfg: &RunnerConfig) -> (r: Result<(), String>)
    ensures
        faults::reports(r, transport_fault(*cfg)),
{
    if !is_transport_ok(cfg) {
        return Err("transport must be websocket, polling, quic, or auto".to_owned());
    }
    if is_polling_possible(cfg) && cfg.poll_interval_ms > MAX_POLL_INTERVAL_MS {
        return Err("poll_interval_ms must be <= 30000 when polling may be used".to_owned());
    }
    Ok(())
}

/// Returns the registry directory in effect. Two spellings of it are ambiguous and refused.
pub fn effective_registry_dir(
    configured: Option<String>,
    legacy: Option<String>,
    default: Result<String, String>,
) -> (r: Result<String, String>)
    ensures
        match registry_dir_of(configured, legacy, default) {
            Ok(dir) => r matches Ok(found) && found@ == dir,
            Err(error) => r matches Err(e) && e@ == error,
        },
{
    match (configured, legacy) {
        (Some(_), Some(_)) => Err(
            "project_registry_dir and legacy projects_dir cannot both be configured; keep exactly one Runner project registry setting".to_owned(),
        ),
        (Some(dir), None) => Ok(dir),
        (None, Some(dir)) => Ok(dir),
        (None, None) => default,
    }
}

fn check_quic_section(cfg: &RunnerConfig) -> (r: Result<(), String>)
    ensures
        faults::reports(r, quic_section_fault(*cfg)),
{
    match &cfg.quic {
        Some(quic) => validate_quic_config(quic),
        None => {
            if let Some(name) = &cfg.transport {
                if same(trim(name.as_str()), TRANSPORT_QUIC) {
                    return Err(
                        "transport=quic requires a [quic] section in the Runner config".to_owned(),
                    );
                }
            }
            Ok(())
        },
    }
}

fn check_tool_providers(cfg: &RunnerConfig) -> (r: Result<(), String>)
    ensures
        faults::reports(r, tool_provider_fault(*cfg)),
{
    if cfg.tool_providers.claude_code.enabled {
        if is_blank(cfg.tool_providers.claude_code.command.as_str()) {
            return Err("tool_providers.".to_owned().concat("claude_code.command cannot be empty"));
        }
        if cfg.tool_providers.claude_code.timeout_secs == 0 {
            return Err("tool_providers.".to_owned().concat("claude_code.timeout_secs must be > 0"));
        }
    }
    Ok(())
}

fn check_file(
    path: &str,
    read: Result<String, String>,
    decoded: Result<RunnerConfig, String>,
) -> (r: Result<RunnerConfig, String>)
    ensures
        faults::reports(r, file_fault(path@, read, decoded)),
        r is Ok ==> r == decoded,
{
    let content = match read {
        Ok(content) => content,
        Err(error) => {
            return Err(
                "failed to read config".to_owned().concat(" ").concat(path).concat(": ").concat(
                    error.as_str(),
                ),
            );
        },
    };
    if let Err(error) = validate_shell_profile_toml_shape(content.as_str()) {
        return Err(
            "failed to parse config".to_owned().concat(" ").concat(path).concat(": ").concat(
                error.as_str(),
            ),
        );
    }
    match decoded {
        Ok(cfg) => Ok(cfg),
        Err(error) => Err(
            "failed to parse config".to_owned().concat(" ").concat(path).concat(": ").concat(
                error.as_str(),
            ),
        ),
    }
}

/// Checks a decoded configuration and fills in what the host gives.
pub fn complete_config(rules: &RunnerRules, decoded: RunnerConfig, facts: LoadFacts) -> (r: Result<
    RunnerConfig,
    String,
>)
    requires
        facts.ssh@.len() == decoded.ssh.resources@.len(),
    ensures
        match sections_fault(*rules, decoded, facts) {
            Some(error) => r matches Err(e) && e@ == error,
            None => exists|gateway: McpGatewayConfig|
                #![trigger gateway_with_bridge(*rules, decoded.mcp_gateway, facts, gateway)]
                {
                    &&& gateway_with_bridge(*rules, decoded.mcp_gateway, facts, gateway)
                    &&& faults::reports(r, child_process_fault(*rules, decoded, gateway))
                    &&& r matches Ok(loaded) ==> loaded.mcp_gateway == gateway && loaded_from(
                        *rules,
                        decoded,
                        facts,
                        loaded,
                    )
                },
        },
{
    let mut cfg = decoded;
    check_basics(&cfg)?;
    validate_max_concurrent_jobs(cfg.max_concurrent_jobs)?;
    validate_skills_config(rules.platform, &cfg.skills)?;
    validate_instructions_config(rules.platform, &cfg.instructions)?;
    if cfg.host_context.is_some() {
        cfg.host_context = Some(facts.host_context?);
    }
    check_transport(&cfg)?;
    let allowed_roots = facts.allowed_roots?;
    let registry_dir = effective_registry_dir(
        cfg.project_registry_dir,
        cfg.legacy_projects_dir,
        facts.default_registry_dir,
    )?;
    cfg.policy.allowed_roots = allowed_roots;
    cfg.project_registry_dir = Some(registry_dir);
    cfg.legacy_projects_dir = None;
    validate_shell_config(&cfg.shell)?;
    validate_ssh_config(&mut cfg.ssh, &facts.ssh)?;
    check_quic_section(&cfg)?;
    check_tool_providers(&cfg)?;
    let _injected = inject_bundled_context_bridge_from_env(
        rules,
        &mut cfg.mcp_gateway,
        &facts.bridge_node,
        &facts.bridge_dir,
        &facts.readiness,
        &facts.bridge,
    );
    assert(gateway_with_bridge(*rules, decoded.mcp_gateway, facts, cfg.mcp_gateway));
    validate_mcp_gateway_config(rules, &cfg.mcp_gateway)?;
    validate_plugin_config(rules, &cfg.plugins, &cfg.shell)?;
    validate_acp_config(rules, &cfg.acp)?;
    Ok(cfg)
}

/// Loads a configuration over what reading the file, decoding it and the host gave.
pub fn load_config(
    rules: &RunnerRules,
    path: &str,
    read: Result<String, String>,
    decoded: Result<RunnerConfig, String>,
    facts: LoadFacts,
) -> (r: Result<RunnerConfig, String>)
    requires
        decoded matches Ok(cfg) ==> facts.ssh@.len() == cfg.ssh.resources@.len(),
    ensures
        match faults::or_else(
            file_fault(path@, read, decoded),
            if decoded is Ok {
                sections_fault(*rules, decoded->Ok_0, facts)
            } else {
                None
            },
        ) {
            Some(error) => r matches Err(e) && e@ == error,
            None => exists|gateway: McpGatewayConfig|
                #![trigger gateway_with_bridge(*rules, (decoded->Ok_0).mcp_gateway, facts, gateway)]
                {
                    &&& gateway_with_bridge(*rules, (decoded->Ok_0).mcp_gateway, facts, gateway)
                    &&& faults::reports(r, child_process_fault(*rules, decoded->Ok_0, gateway))
                    &&& r matches Ok(loaded) ==> loaded.mcp_gateway == gateway && loaded_from(
                        *rules,
                        decoded->Ok_0,
                        facts,
                        loaded,
                    )
                },
        },
{
    let cfg = check_file(path, read, decoded)?;
    complete_config(rules, cfg, facts)
}

fn is_ssh_accepted(cfg: &RunnerConfig, verdicts: &Vec<SshVerdict>) -> (r: bool)
    requires
        verdicts@.len() == cfg.ssh.resources@.len(),
    ensures
        r == (validate::ssh_fault(cfg.ssh.resources@, verdicts@) is None),
{
    let ghost n = verdicts@.len() as int;
    let ghost check = validate::ssh_faults(cfg.ssh.resources@, verdicts@);
    for i in 0..verdicts.len()
        invariant
            n == verdicts@.len(),
            n == cfg.ssh.resources@.len(),
            check == validate::ssh_faults(cfg.ssh.resources@, verdicts@),
            forall|k: int| 0 <= k < i ==> (#[trigger] check(k)) is None,
    {
        let verdict = &verdicts[i];
        if !verdict.name_ok || verdict.host.is_none() || verdict.default_cwd.is_none() {
            proof {
                faults::first_fault_found(0, i as int, n, check);
            }
            return false;
        }
    }
    proof {
        faults::first_fault_none(0, n, check);
    }
    true
}

fn is_registry_accepted(cfg: &RunnerConfig, facts: &LoadFacts) -> (r: bool)
    ensures
        r == (registry_fault(*cfg, *facts) is None),
{
    match (&cfg.project_registry_dir, &cfg.legacy_projects_dir) {
        (Some(_), Some(_)) => false,
        (None, None) => facts.default_registry_dir.is_ok(),
        _ => true,
    }
}

/// Tells whether a decoded configuration passes every check up to the sections that name child
/// processes.
fn are_sections_accepted(rules: &RunnerRules, cfg: &RunnerConfig, facts: &LoadFacts) -> (r: bool)
    requires
        facts.ssh@.len() == cfg.ssh.resources@.len(),
    ensures
        r == (sections_fault(*rules, *cfg, *facts) is None),
{
    check_basics(cfg).is_ok() && validate_max_concurrent_jobs(cfg.max_concurrent_jobs).is_ok()
        && validate_skills_config(rules.platform, &cfg.skills).is_ok()
        && validate_instructions_config(rules.platform, &cfg.instructions).is_ok() && (
    cfg.host_context.is_none() || facts.host_context.is_ok()) && check_transport(cfg).is_ok()
        && facts.allowed_roots.is_ok() && is_registry_accepted(cfg, facts)
        && validate_shell_config(&cfg.shell).is_ok() && is_ssh_accepted(cfg, &facts.ssh)
        && check_quic_section(cfg).is_ok() && check_tool_providers(cfg).is_ok()
}

/// Tells whether the readiness check of the bundled bridge is to run: the file decodes, its
/// sections pass their checks, and the bridge may be added to the providers.
pub fn needs_readiness(
    rules: &RunnerRules,
    read: &Result<String, String>,
    decoded: &Result<RunnerConfig, String>,
    facts: &LoadFacts,
) -> (r: bool)
    requires
        decoded matches Ok(cfg) ==> facts.ssh@.len() == cfg.ssh.resources@.len(),
    ensures
        r == (file_decodes(*read, *decoded) && sections_fault(
            *rules,
            decoded->Ok_0,
            *facts,
        ) is None && bridge::has_room(*rules, (decoded->Ok_0).mcp_gateway)),
{
    match (read, decoded) {
        (Ok(content), Ok(cfg)) => validate_shell_profile_toml_shape(content.as_str()).is_ok()
            && are_sections_accepted(rules, cfg, facts) && room_for_bridge(rules, &cfg.mcp_gateway),
        _ => false,
    }
}

// ---------------------------------------------------------------------------------------------
// Laws
// ---------------------------------------------------------------------------------------------
/// A configuration that the runner can work with: every check of its own sections holds, it names
/// its registry directory, and under one name only.
pub open spec fn usable(rules: RunnerRules, cfg: RunnerConfig) -> bool {
    &&& basics_fault(cfg) is None
    &&& config::job_limit_in_range(cfg.max_concurrent_jobs)
    &&& limits_fault(rules, cfg) is None
    &&& transport_fault(cfg) is None
    &&& validate::shell_fault(cfg.shell) is None
    &&& quic_section_fault(cfg) is None
    &&& tool_provider_fault(cfg) is None
    &&& providers::mcp_gateway_fault(rules, cfg.mcp_gateway) is None
    &&& providers::plugin_fault(rules, cfg.plugins, cfg.shell) is None
    &&& providers::acp_fault(rules, cfg.acp) is None
    &&& cfg.project_registry_dir is Some
    &&& cfg.legacy_projects_dir is None
}

/// Whatever loads is usable.
pub proof fn loaded_configurations_are_usable(
    rules: RunnerRules,
    decoded: RunnerConfig,
    facts: LoadFacts,
    loaded: RunnerConfig,
)
    requires
        sections_fault(rules, decoded, facts) is None,
        loaded_from(rules, decoded, facts, loaded),
        child_process_fault(rules, decoded, loaded.mcp_gateway) is None,
    ensures
        usable(rules, loaded),
{
}

/// Where the readiness check is not to run, its report counts for nothing: whatever it would say,
/// the file or its sections are refused for the same reason, or the providers stay as they are.
pub proof fn needless_readiness_counts_for_nothing(
    rules: RunnerRules,
    path: Seq<char>,
    read: Result<String, String>,
    decoded: RunnerConfig,
    facts: LoadFacts,
    readiness: Option<BundledContextReadinessProbe>,
    gateway: McpGatewayConfig,
)
    ensures
        file_fault(path, read, Ok(decoded)) is None == file_decodes(read, Ok(decoded)),
        sections_fault(rules, decoded, facts) == sections_fault(
            rules,
            decoded,
            (LoadFacts { readiness, ..facts }),
        ),
        !bridge::has_room(rules, decoded.mcp_gateway) && gateway_with_bridge(
            rules,
            decoded.mcp_gateway,
            (LoadFacts { readiness, ..facts }),
            gateway,
        ) ==> gateway == decoded.mcp_gateway,
{
}

/// The registry directory under its former name loads like the same directory under its present
/// one, and going from one to the other needs no restart.
pub proof fn renaming_the_registry_setting_changes_nothing(
    rules: RunnerRules,
    decoded: RunnerConfig,
    facts: LoadFacts,
    former: RunnerConfig,
    present: RunnerConfig,
)
    requires
        decoded.project_registry_dir is None,
        decoded.legacy_projects_dir is Some,
        loaded_from(rules, decoded, facts, former),
        loaded_from(
            rules,
            (RunnerConfig {
                project_registry_dir: decoded.legacy_projects_dir,
                legacy_projects_dir: None,
                ..decoded
            }),
            facts,
            present,
        ),
    ensures
        text::option_view(former.project_registry_dir) == Some((decoded.legacy_projects_dir->0)@),
        crate::reload_report::changed_fields(rules.platform, former, present).len() == 0,
{
    crate::reload::reloadable_sections_need_no_restart(rules.platform, former, present);
}

/// A registry directory under both names is refused, whatever the two say.
pub proof fn both_registry_settings_are_refused(
    configured: Option<String>,
    legacy: Option<String>,
    default: Result<String, String>,
)
    ensures
        configured is Some && legacy is Some ==> registry_dir_of(
            configured,
            legacy,
            default,
        ) is Err,
        configured is Some != legacy is Some ==> registry_dir_of(
            configured,
            legacy,
            default,
        ) is Ok,
{
}

/// A loaded configuration says what the file says, but for what loading fills in: the host context
/// in normal form, the roots in effect, the registry directory under its one name, the SSH
/// resources in normal form, and the bundled bridge.
pub proof fn loading_keeps_what_the_file_says(
    rules: RunnerRules,
    decoded: RunnerConfig,
    facts: LoadFacts,
    loaded: RunnerConfig,
)
    requires
        loaded_from(rules, decoded, facts, loaded),
    ensures
        loaded.server_url == decoded.server_url,
        loaded.token == decoded.token,
        loaded.client_id == decoded.client_id,
        loaded.display_name == decoded.display_name,
        loaded.owner == decoded.owner,
        loaded.hostname == decoded.hostname,
        loaded.host_context is Some <==> decoded.host_context is Some,
        decoded.host_context is Some ==> loaded.host_context == Some(facts.host_context->Ok_0),
        loaded.poll_interval_ms == decoded.poll_interval_ms,
        loaded.capabilities == decoded.capabilities,
        loaded.max_concurrent_jobs == decoded.max_concurrent_jobs,
        loaded.policy.allowed_roots == facts.allowed_roots->Ok_0,
        loaded.policy == (RunnerPolicy {
            allowed_roots: loaded.policy.allowed_roots,
            ..decoded.policy
        }),
        loaded.skills == decoded.skills,
        loaded.instructions == decoded.instructions,
        loaded.transport == decoded.transport,
        loaded.websocket_connect_timeout_secs == decoded.websocket_connect_timeout_secs,
        loaded.quic == decoded.quic,
        loaded.shell == decoded.shell,
        loaded.tool_providers == decoded.tool_providers,
        loaded.plugins == decoded.plugins,
        loaded.acp == decoded.acp,
        loaded.legacy_projects_dir is None,
        loaded.project_registry_dir is Some,
        decoded.project_registry_dir is Some ==> (loaded.project_registry_dir->0)@ == (
        decoded.project_registry_dir->0)@,
        decoded.project_registry_dir is None && decoded.legacy_projects_dir is Some ==> (
        loaded.project_registry_dir->0)@ == (decoded.legacy_projects_dir->0)@,
        decoded.project_registry_dir is None && decoded.legacy_projects_dir is None ==> (
        loaded.project_registry_dir->0)@ == (facts.default_registry_dir->Ok_0)@,
        loaded.ssh.resources@.len() == decoded.ssh.resources@.len(),
        forall|i: int|
            0 <= i < decoded.ssh.resources@.len() ==> {
                let resource = #[trigger] loaded.ssh.resources@[i];
                &&& resource.name == decoded.ssh.resources@[i].name
                &&& resource.resource.host == facts.ssh@[i].host->0
                &&& resource.resource.default_cwd == facts.ssh@[i].default_cwd->0
            },
        loaded.mcp_gateway.request_timeout_secs == decoded.mcp_gateway.request_timeout_secs,
        loaded.mcp_gateway.providers@.len() == decoded.mcp_gateway.providers@.len() + (
        if bridge::bridge_applies_from_env(
            rules,
            decoded.mcp_gateway,
            facts.bridge_node,
            facts.bridge_dir,
            facts.readiness,
            facts.bridge,
        ) {
            1int
        } else {
            0
        }),
        forall|i: int|
            0 <= i < decoded.mcp_gateway.providers@.len() ==> (
            #[trigger] loaded.mcp_gateway.providers@[i]) == decoded.mcp_gateway.providers@[i],
{
    let before = decoded.mcp_gateway.providers@;
    let after = loaded.mcp_gateway.providers@;
    if after.len() == before.len() + 1 {
        assert forall|i: int| 0 <= i < before.len() implies (#[trigger] after[i]) == before[i] by {
            assert(after.drop_last()[i] == after[i]);
        }
    }
}

/// A decoded configuration passes the checks of its sections exactly where each passes on its own.
pub proof fn sections_are_accepted_one_by_one(
    rules: RunnerRules,
    cfg: RunnerConfig,
    facts: LoadFacts,
)
    ensures
        sections_fault(rules, cfg, facts) is None <==> {
            &&& !text::blank(cfg.server_url@) && !text::blank(cfg.client_id@)
            &&& cfg.poll_interval_ms > 0 && cfg.websocket_connect_timeout_secs > 0
            &&& cfg.max_concurrent_jobs is Some ==> 1 <= cfg.max_concurrent_jobs->0 <= 64
            &&& validate::paths_usable(rules.platform, cfg.skills.roots@)
            &&& validate::paths_usable(rules.platform, cfg.instructions.files@)
            &&& cfg.host_context is Some ==> facts.host_context is Ok
            &&& transport::transport_ok(cfg.transport)
            &&& transport::may_poll(cfg.transport) ==> cfg.poll_interval_ms <= 30000
            &&& facts.allowed_roots is Ok
            &&& !(cfg.project_registry_dir is Some && cfg.legacy_projects_dir is Some)
            &&& cfg.project_registry_dir is None && cfg.legacy_projects_dir is None
                ==> facts.default_registry_dir is Ok
            &&& validate::shell_fault(cfg.shell) is None
            &&& validate::ssh_fault(cfg.ssh.resources@, facts.ssh@) is None
            &&& cfg.quic is Some ==> validate::quic_fault(cfg.quic->0) is None
            &&& cfg.quic is None && cfg.transport is Some ==> text::trimmed((cfg.transport->0)@)
                != "quic"@
            &&& cfg.tool_providers.claude_code.enabled ==> !text::blank(
                cfg.tool_providers.claude_code.command@,
            ) && cfg.tool_providers.claude_code.timeout_secs > 0
        },
{
    validate::skill_roots_are_accepted_by_their_paths(rules.platform, cfg.skills);
    validate::instruction_files_are_accepted_by_their_paths(rules.platform, cfg.instructions);
}

/// What is wrong with the server comes before what is wrong with the client, that before the
/// intervals, those before the limits, and those before all else.
pub proof fn identity_is_checked_first(rules: RunnerRules, cfg: RunnerConfig, facts: LoadFacts)
    ensures
        text::blank(cfg.server_url@) ==> sections_fault(rules, cfg, facts) == Some(
            "server_url cannot be empty"@,
        ),
        !text::blank(cfg.server_url@) && text::blank(cfg.client_id@) ==> sections_fault(
            rules,
            cfg,
            facts,
        ) == Some("client_id cannot be empty"@),
        !text::blank(cfg.server_url@) && !text::blank(cfg.client_id@) ==> {
            &&& cfg.poll_interval_ms == 0 ==> sections_fault(rules, cfg, facts) == Some(
                "poll_interval_ms must be > 0"@,
            )
            &&& cfg.poll_interval_ms > 0 && cfg.websocket_connect_timeout_secs == 0
                ==> sections_fault(rules, cfg, facts) == Some(
                "websocket_connect_timeout_secs must be > 0"@,
            )
            &&& cfg.poll_interval_ms > 0 && cfg.websocket_connect_timeout_secs > 0
                && cfg.max_concurrent_jobs is Some && !(1 <= cfg.max_concurrent_jobs->0 <= 64)
                ==> sections_fault(rules, cfg, facts) == Some(
                "max_concurrent_jobs must be between "@ + "1 and 64"@,
            )
        },
{
}

/// Where a section is refused, the complaint is that of some section.
pub proof fn complaints_come_from_the_sections(
    rules: RunnerRules,
    cfg: RunnerConfig,
    facts: LoadFacts,
)
    ensures
        sections_fault(rules, cfg, facts) matches Some(error) ==> {
            ||| basics_fault(cfg) == Some(error)
            ||| limits_fault(rules, cfg) == Some(error)
            ||| cfg.host_context is Some && facts.host_context is Err && error == (
            facts.host_context->Err_0)@
            ||| transport_fault(cfg) == Some(error)
            ||| facts.allowed_roots is Err && error == (facts.allowed_roots->Err_0)@
            ||| registry_fault(cfg, facts) == Some(error)
            ||| validate::shell_fault(cfg.shell) == Some(error)
            ||| validate::ssh_fault(cfg.ssh.resources@, facts.ssh@) == Some(error)
            ||| quic_section_fault(cfg) == Some(error)
            ||| tool_provider_fault(cfg) == Some(error)
        },
        child_process_fault(rules, cfg, cfg.mcp_gateway) is None <==> providers::mcp_gateway_fault(
            rules,
            cfg.mcp_gateway,
        ) is None && providers::plugin_fault(rules, cfg.plugins, cfg.shell) is None
            && providers::acp_fault(rules, cfg.acp) is None,
        providers::mcp_gateway_fault(rules, cfg.mcp_gateway) is Some ==> child_process_fault(
            rules,
            cfg,
            cfg.mcp_gateway,
        ) == providers::mcp_gateway_fault(rules, cfg.mcp_gateway),
{
}

/// A file that cannot be read, has the wrong shape or does not decode is refused by its path and by
/// its reason, and no other is.
pub proof fn bad_files_are_refused_by_path_and_reason(
    path: Seq<char>,
    read: Result<String, String>,
    decoded: Result<RunnerConfig, String>,
)
    ensures
        file_fault(path, read, decoded) is None <==> read is Ok && toml_shape::toml_shape_fault(
            (read->Ok_0)@,
        ) is None && decoded is Ok,
        read is Err ==> file_fault(path, read, decoded) == Some(
            "failed to read config "@ + path + ": "@ + (read->Err_0)@,
        ),
        read is Ok && toml_shape::toml_shape_fault((read->Ok_0)@) is Some ==> file_fault(
            path,
            read,
            decoded,
        ) == Some(
            "failed to parse config "@ + path + ": "@ + toml_shape::toml_shape_fault(
                (read->Ok_0)@,
            )->0,
        ),
        read is Ok && toml_shape::toml_shape_fault((read->Ok_0)@) is None && decoded is Err
            ==> file_fault(path, read, decoded) == Some(
            "failed to parse config "@ + path + ": "@ + (decoded->Err_0)@,
        ),
{
    reveal_strlit("failed to read config ");
    reveal_strlit("failed to read config");
    reveal_strlit("failed to parse config ");
    reveal_strlit("failed to parse config");
    reveal_strlit(" ");
    assert("failed to read config"@ + " "@ =~= "failed to read config "@);
    assert("failed to parse config"@ + " "@ =~= "failed to parse config "@);
}

} // verus!
