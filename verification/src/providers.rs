//! Checks of the sections that name child processes: MCP providers, plugins, coding agents.
use crate::config::{
    AcpAgentConfig, AcpConfig, McpGatewayConfig, McpGatewayProviderConfig, PluginConfig,
    PluginProviderConfig, RunnerRules, ShellConfig, TextEntry, ACP_MAX_ARGS, ACP_MAX_ARGS_BYTES,
    ACP_MAX_ARG_BYTES, ACP_MAX_CONCURRENT_RUNS, ACP_MAX_ENV_MAPPINGS, ACP_MIN_CONCURRENT_RUNS,
    ACP_PERMISSION_TIMEOUT_MAX_SECS, ACP_PERMISSION_TIMEOUT_MIN_SECS, MCP_GATEWAY_MAX_CWD_BYTES,
    MCP_GATEWAY_MAX_ENV_MAPPINGS, MCP_GATEWAY_MAX_ENV_TOTAL_BYTES, MCP_GATEWAY_MAX_ENV_VALUE_BYTES,
    PLUGIN_MAX_COMMAND_BYTES, PLUGIN_MAX_CWD_BYTES,
};
use crate::env_keys::{
    self, env_keys_equal, is_sensitive_env_key, validate_acp_env_name,
    validate_mcp_gateway_env_name,
};
use crate::faults::{self, Fault};
use crate::paths::{self, is_absolute, Platform};
use crate::text::{
    self, contains_char, contains_control, decimal_text, is_blank, join3, same, utf8_len,
};
use crate::validate::{self, has_profile};
use vstd::prelude::*;
use vstd::string::*;

verus! {

/// Some argument is longer than `max_bytes` or holds a NUL.
pub open spec fn some_bad_arg(args: Seq<String>, max_bytes: int) -> bool {
    exists|i: int|
        0 <= i < args.len() && (text::byte_len((#[trigger] args[i])@) > max_bytes || args[i]@.contains(
            '\0',
        ))
}

/// The bytes of all arguments, with `extra` for each.
pub open spec fn args_bytes(args: Seq<String>, extra: nat) -> nat
    decreases args.len(),
{
    if args.len() == 0 {
        0
    } else {
        args_bytes(args.drop_last(), extra) + text::byte_len(args.last()@) + extra
    }
}

/// The bytes of all keys and values.
pub open spec fn entries_bytes(entries: Seq<TextEntry>) -> nat
    decreases entries.len(),
{
    if entries.len() == 0 {
        0
    } else {
        entries_bytes(entries.drop_last()) + text::byte_len(entries.last().key@) + text::byte_len(
            entries.last().value@,
        )
    }
}

/// One of the first `upto` entries denotes the environment variable `key`.
pub open spec fn key_taken(
    platform: Platform,
    entries: Seq<TextEntry>,
    upto: int,
    key: Seq<char>,
) -> bool {
    exists|j: int|
        0 <= j < upto && env_keys::same_env_key(platform, (#[trigger] entries[j]).key@, key)
}

/// An absolute path within a bound.
pub open spec fn bounded_absolute(platform: Platform, path: Seq<char>, max_bytes: int) -> bool {
    &&& path.len() > 0
    &&& text::byte_len(path) <= max_bytes
    &&& !path.contains('\0')
    &&& paths::absolute(platform, path)
}

/// A request timeout that a gateway accepts.
pub open spec fn timeout_in_range(secs: u64) -> bool {
    1 <= secs <= 120
}

fn has_bad_arg(args: &Vec<String>, max_bytes: usize) -> (r: bool)
    ensures
        r == some_bad_arg(args@, max_bytes as int),
{
    for i in 0..args.len()
        invariant
            forall|j: int|
                0 <= j < i ==> text::byte_len((#[trigger] args@[j])@) <= max_bytes
                    && !args@[j]@.contains('\0'),
    {
        if utf8_len(args[i].as_str()) > max_bytes || contains_char(args[i].as_str(), '\0') {
            assert(text::byte_len(args@[i as int]@) > max_bytes || args@[i as int]@.contains('\0'));
            return true;
        }
    }
    false
}

/// Returns the bytes of all arguments, with `extra` for each, or the largest number where the sum
/// is larger.
fn sum_args(args: &Vec<String>, extra: usize) -> (r: usize)
    ensures
        r == if args_bytes(args@, extra as nat) <= usize::MAX {
            args_bytes(args@, extra as nat) as int
        } else {
            usize::MAX as int
        },
{
    let mut total: usize = 0;
    for i in 0..args.len()
        invariant
            total == if args_bytes(args@.take(i as int), extra as nat) <= usize::MAX {
                args_bytes(args@.take(i as int), extra as nat) as int
            } else {
                usize::MAX as int
            },
    {
        assert(args@.take(i + 1).drop_last() =~= args@.take(i as int));
        total = total.saturating_add(utf8_len(args[i].as_str())).saturating_add(extra);
    }
    assert(args@.take(args@.len() as int) =~= args@);
    total
}

/// Returns the bytes of all keys and values on top of `start`, or the largest number where the
/// sum is larger.
fn sum_entries(start: usize, entries: &Vec<TextEntry>) -> (r: usize)
    ensures
        r == if start + entries_bytes(entries@) <= usize::MAX {
            start + entries_bytes(entries@)
        } else {
            usize::MAX as int
        },
{
    let mut total: usize = start;
    for i in 0..entries.len()
        invariant
            total == if start + entries_bytes(entries@.take(i as int)) <= usize::MAX {
                start + entries_bytes(entries@.take(i as int))
            } else {
                usize::MAX as int
            },
    {
        assert(entries@.take(i + 1).drop_last() =~= entries@.take(i as int));
        total = total.saturating_add(utf8_len(entries[i].key.as_str())).saturating_add(
            utf8_len(entries[i].value.as_str()),
        );
    }
    assert(entries@.take(entries@.len() as int) =~= entries@);
    total
}

fn is_key_taken(platform: Platform, entries: &Vec<TextEntry>, upto: usize, key: &str) -> (r: bool)
    requires
        upto <= entries@.len(),
    ensures
        r == key_taken(platform, entries@, upto as int, key@),
{
    for j in 0..upto
        invariant
            upto <= entries@.len(),
            forall|k: int|
                0 <= k < j ==> !env_keys::same_env_key(platform, (#[trigger] entries@[k]).key@, key@),
    {
        if env_keys_equal(platform, entries[j].key.as_str(), key) {
            assert(env_keys::same_env_key(platform, entries@[j as int].key@, key@));
            return true;
        }
    }
    false
}

pub fn is_bounded_absolute(platform: Platform, path: &str, max_bytes: usize) -> (r: bool)
    ensures
        r == bounded_absolute(platform, path@, max_bytes as int),
{
    !path.is_empty() && utf8_len(path) <= max_bytes && !contains_char(path, '\0') && is_absolute(
        platform,
        path,
    )
}

// ---------------------------------------------------------------------------------------------
// MCP providers
// ---------------------------------------------------------------------------------------------
/// A complaint about one MCP provider.
pub open spec fn about_mcp(id: Seq<char>, complaint: Seq<char>) -> Seq<char> {
    "mcp provider '"@ + id + complaint
}

/// What is wrong with the environment values of a provider, entry by entry.
pub open spec fn mcp_env_faults(
    rules: RunnerRules,
    provider: McpGatewayProviderConfig,
) -> spec_fn(int) -> Fault {
    |i: int|
        {
            let id = provider.id.text@;
            let e = provider.env@[i];
            if !env_keys::env_name_ok(256, e.key@) || text::byte_len(e.value@) > 16384
                || e.value@.contains('\0') {
                Some(about_mcp(id, "' env contains an invalid name or value"@))
            } else if env_keys::sensitive(rules, e.key@) {
                Some(
                    about_mcp(id, "' env may not set WebCodex-sensitive environment variables"@),
                )
            } else if key_taken(rules.platform, provider.env@, i, e.key@) {
                Some(
                    about_mcp(
                        id,
                        "' env contains conflicting destination names for this platform"@,
                    ),
                )
            } else {
                None
            }
        }
}

/// What is wrong with the mapped environment of a provider, entry by entry.
pub open spec fn mcp_mapping_faults(
    rules: RunnerRules,
    provider: McpGatewayProviderConfig,
) -> spec_fn(int) -> Fault {
    |i: int|
        {
            let id = provider.id.text@;
            let e = provider.env_from_env@[i];
            if !env_keys::env_name_ok(256, e.key@) || !env_keys::env_name_ok(256, e.value@) {
                Some(
                    about_mcp(
                        id,
                        "' env_from_env contains an invalid environment variable name"@,
                    ),
                )
            } else if env_keys::sensitive(rules, e.key@) || env_keys::sensitive(rules, e.value@) {
                Some(
                    about_mcp(
                        id,
                        "' env_from_env may not map WebCodex-sensitive environment variables"@,
                    ),
                )
            } else if key_taken(
                rules.platform,
                provider.env@,
                provider.env@.len() as int,
                e.key@,
            ) || key_taken(rules.platform, provider.env_from_env@, i, e.key@) {
                Some(
                    about_mcp(
                        id,
                        "' env_from_env contains conflicting destination names for this platform"@,
                    ),
                )
            } else {
                None
            }
        }
}

/// What is wrong with how a provider is started: executable, arguments, directory.
pub open spec fn mcp_launch_fault(rules: RunnerRules, p: McpGatewayProviderConfig) -> Fault {
    let id = p.id.text@;
    if !bounded_absolute(rules.platform, p.executable@, 1024) {
        Some(about_mcp(id, "' executable must be an absolute path of at most 1024 bytes"@))
    } else if p.args@.len() > 64 {
        Some(about_mcp(id, "' args may contain at most 64 entries"@))
    } else if some_bad_arg(p.args@, 4096) {
        Some(about_mcp(id, "' contains an invalid argument"@))
    } else if args_bytes(p.args@, 1) > 16384 {
        Some(about_mcp(id, "' args exceed 16384 bytes"@))
    } else if p.cwd is Some && !bounded_absolute(rules.platform, p.cwd->0@, 4096) {
        Some(about_mcp(id, "' cwd must be an absolute path of at most 4096 bytes"@))
    } else {
        None
    }
}

/// What is wrong with the environment of a provider.
pub open spec fn mcp_environment_fault(rules: RunnerRules, p: McpGatewayProviderConfig) -> Fault {
    let id = p.id.text@;
    let values = faults::first_fault(0, p.env@.len() as int, mcp_env_faults(rules, p));
    let mapped = faults::first_fault(0, p.env_from_env@.len() as int, mcp_mapping_faults(rules, p));
    if p.env@.len() + p.env_from_env@.len() > 64 {
        Some(about_mcp(id, "' env plus env_from_env may contain at most 64 entries"@))
    } else if values is Some {
        values
    } else if mapped is Some {
        mapped
    } else if entries_bytes(p.env@) + entries_bytes(p.env_from_env@) > 65536 {
        Some(about_mcp(id, "' environment configuration exceeds 65536 bytes"@))
    } else {
        None
    }
}

/// What is wrong with the providers, provider by provider.
pub open spec fn mcp_provider_faults(
    rules: RunnerRules,
    providers: Seq<McpGatewayProviderConfig>,
) -> spec_fn(int) -> Fault {
    |i: int|
        {
            let p = providers[i];
            let launch = mcp_launch_fault(rules, p);
            if p.id.fault is Some {
                Some("mcp provider id is invalid: "@ + p.id.fault->0@)
            } else if p.name.fault is Some {
                Some("mcp provider name is invalid: "@ + p.name.fault->0@)
            } else if p.timeout_secs is Some && !timeout_in_range(p.timeout_secs->0) {
                Some(about_mcp(p.id.text@, "' timeout_secs must be between 1 and 120"@))
            } else if exists|j: int| 0 <= j < i && (#[trigger] providers[j]).id.text@ == p.id.text@ {
                Some("mcp provider ids must be unique"@)
            } else if launch is Some {
                launch
            } else {
                mcp_environment_fault(rules, p)
            }
        }
}

/// What is wrong with the MCP gateway section.
pub open spec fn mcp_gateway_fault(rules: RunnerRules, config: McpGatewayConfig) -> Fault {
    if !timeout_in_range(config.request_timeout_secs) {
        Some("mcp.request_timeout_secs must be between "@ + "1 and 120"@)
    } else if config.providers@.len() > rules.mcp_gateway_max_providers {
        Some(
            "mcp.providers may contain at most "@ + text::decimal(
                rules.mcp_gateway_max_providers as nat,
            ) + " entries"@,
        )
    } else {
        faults::first_fault(
            0,
            config.providers@.len() as int,
            mcp_provider_faults(rules, config.providers@),
        )
    }
}

fn check_mcp_env(rules: &RunnerRules, provider: &McpGatewayProviderConfig) -> (r: Result<
    (),
    String,
>)
    ensures
        faults::reports(
            r,
            faults::first_fault(0, provider.env@.len() as int, mcp_env_faults(*rules, *provider)),
        ),
{
    let id = provider.id.text.as_str();
    let ghost check = mcp_env_faults(*rules, *provider);
    for i in 0..provider.env.len()
        invariant
            id@ == provider.id.text@,
            check == mcp_env_faults(*rules, *provider),
            forall|k: int| 0 <= k < i ==> (#[trigger] check(k)) is None,
    {
        let key = provider.env[i].key.as_str();
        let value = provider.env[i].value.as_str();
        let problem: Option<&'static str> = if validate_mcp_gateway_env_name(key).is_err()
            || utf8_len(value) > MCP_GATEWAY_MAX_ENV_VALUE_BYTES || contains_char(value, '\0') {
            Some("' env contains an invalid name or value")
        } else if is_sensitive_env_key(rules, key) {
            Some("' env may not set WebCodex-sensitive environment variables")
        } else if is_key_taken(rules.platform, &provider.env, i, key) {
            Some("' env contains conflicting destination names for this platform")
        } else {
            None
        };
        if let Some(complaint) = problem {
            proof {
                assert(check(i as int) == Some(about_mcp(id@, complaint@)));
                faults::first_fault_found(0, i as int, provider.env@.len() as int, check);
            }
            return Err(join3("mcp provider '", id, complaint));
        }
        assert(check(i as int) is None);
    }
    proof {
        faults::first_fault_none(0, provider.env@.len() as int, check);
    }
    Ok(())
}

fn check_mcp_mapping(rules: &RunnerRules, provider: &McpGatewayProviderConfig) -> (r: Result<
    (),
    String,
>)
    ensures
        faults::reports(
            r,
            faults::first_fault(
                0,
                provider.env_from_env@.len() as int,
                mcp_mapping_faults(*rules, *provider),
            ),
        ),
{
    let id = provider.id.text.as_str();
    let ghost check = mcp_mapping_faults(*rules, *provider);
    for i in 0..provider.env_from_env.len()
        invariant
            id@ == provider.id.text@,
            check == mcp_mapping_faults(*rules, *provider),
            forall|k: int| 0 <= k < i ==> (#[trigger] check(k)) is None,
    {
        let key = provider.env_from_env[i].key.as_str();
        let source = provider.env_from_env[i].value.as_str();
        let problem: Option<&'static str> = if validate_mcp_gateway_env_name(key).is_err()
            || validate_mcp_gateway_env_name(source).is_err() {
            Some("' env_from_env contains an invalid environment variable name")
        } else if is_sensitive_env_key(rules, key) || is_sensitive_env_key(rules, source) {
            Some("' env_from_env may not map WebCodex-sensitive environment variables")
        } else if is_key_taken(rules.platform, &provider.env, provider.env.len(), key)
            || is_key_taken(rules.platform, &provider.env_from_env, i, key) {
            Some("' env_from_env contains conflicting destination names for this platform")
        } else {
            None
        };
        if let Some(complaint) = problem {
            proof {
                assert(check(i as int) == Some(about_mcp(id@, complaint@)));
                faults::first_fault_found(0, i as int, provider.env_from_env@.len() as int, check);
            }
            return Err(join3("mcp provider '", id, complaint));
        }
        assert(check(i as int) is None);
    }
    proof {
        faults::first_fault_none(0, provider.env_from_env@.len() as int, check);
    }
    Ok(())
}

fn check_mcp_launch(rules: &RunnerRules, p: &McpGatewayProviderConfig) -> (r: Result<(), String>)
    ensures
        faults::reports(r, mcp_launch_fault(*rules, *p)),
{
    let id = p.id.text.as_str();
    if !is_bounded_absolute(rules.platform, p.executable.as_str(), 1024) {
        return Err(
            join3(
                "mcp provider '",
                id,
                "' executable must be an absolute path of at most 1024 bytes",
            ),
        );
    }
    if p.args.len() > 64 {
        return Err(join3("mcp provider '", id, "' args may contain at most 64 entries"));
    }
    if has_bad_arg(&p.args, 4096) {
        return Err(join3("mcp provider '", id, "' contains an invalid argument"));
    }
    if sum_args(&p.args, 1) > 16384 {
        return Err(join3("mcp provider '", id, "' args exceed 16384 bytes"));
    }
    if let Some(cwd) = &p.cwd {
        if !is_bounded_absolute(rules.platform, cwd.as_str(), MCP_GATEWAY_MAX_CWD_BYTES) {
            return Err(
                join3(
                    "mcp provider '",
                    id,
                    "' cwd must be an absolute path of at most 4096 bytes",
                ),
            );
        }
    }
    Ok(())
}

fn check_mcp_environment(rules: &RunnerRules, p: &McpGatewayProviderConfig) -> (r: Result<
    (),
    String,
>)
    ensures
        faults::reports(r, mcp_environment_fault(*rules, *p)),
{
    let id = p.id.text.as_str();
    if p.env.len().saturating_add(p.env_from_env.len()) > MCP_GATEWAY_MAX_ENV_MAPPINGS {
        return Err(
            join3("mcp provider '", id, "' env plus env_from_env may contain at most 64 entries"),
        );
    }
    check_mcp_env(rules, p)?;
    check_mcp_mapping(rules, p)?;
    if sum_entries(sum_entries(0, &p.env), &p.env_from_env) > MCP_GATEWAY_MAX_ENV_TOTAL_BYTES {
        return Err(join3("mcp provider '", id, "' environment configuration exceeds 65536 bytes"));
    }
    Ok(())
}

fn check_mcp_provider(
    rules: &RunnerRules,
    providers: &Vec<McpGatewayProviderConfig>,
    i: usize,
) -> (r: Result<(), String>)
    requires
        i < providers@.len(),
    ensures
        faults::reports(r, mcp_provider_faults(*rules, providers@)(i as int)),
{
    let p = &providers[i];
    if let Some(error) = &p.id.fault {
        return Err("mcp provider id is invalid: ".to_owned().concat(error.as_str()));
    }
    if let Some(error) = &p.name.fault {
        return Err("mcp provider name is invalid: ".to_owned().concat(error.as_str()));
    }
    if let Some(timeout) = p.timeout_secs {
        if timeout < 1 || timeout > 120 {
            return Err(
                join3(
                    "mcp provider '",
                    p.id.text.as_str(),
                    "' timeout_secs must be between 1 and 120",
                ),
            );
        }
    }
    for j in 0..i
        invariant
            i < providers@.len(),
            *p == providers@[i as int],
            p.id.fault is None,
            p.name.fault is None,
            p.timeout_secs is Some ==> timeout_in_range(p.timeout_secs->0),
            forall|k: int| 0 <= k < j ==> (#[trigger] providers@[k]).id.text@ != p.id.text@,
    {
        if providers[j].id.text == p.id.text {
            assert(providers@[j as int].id.text@ == p.id.text@);
            return Err("mcp provider ids must be unique".to_owned());
        }
    }
    check_mcp_launch(rules, p)?;
    check_mcp_environment(rules, p)
}

/// Checks the MCP gateway section.
pub fn validate_mcp_gateway_config(rules: &RunnerRules, config: &McpGatewayConfig) -> (r: Result<
    (),
    String,
>)
    ensures
        faults::reports(r, mcp_gateway_fault(*rules, *config)),
{
    if config.request_timeout_secs < 1 || config.request_timeout_secs > 120 {
        return Err("mcp.request_timeout_secs must be between ".to_owned().concat("1 and 120"));
    }
    if config.providers.len() > rules.mcp_gateway_max_providers {
        return Err(
            join3(
                "mcp.providers may contain at most ",
                decimal_text(rules.mcp_gateway_max_providers as u64).as_str(),
                " entries",
            ),
        );
    }
    let ghost check = mcp_provider_faults(*rules, config.providers@);
    for i in 0..config.providers.len()
        invariant
            check == mcp_provider_faults(*rules, config.providers@),
            forall|k: int| 0 <= k < i ==> (#[trigger] check(k)) is None,
            timeout_in_range(config.request_timeout_secs),
            config.providers@.len() <= rules.mcp_gateway_max_providers,
    {
        if let Err(message) = check_mcp_provider(rules, &config.providers, i) {
            proof {
                faults::first_fault_found(0, i as int, config.providers@.len() as int, check);
            }
            return Err(message);
        }
    }
    proof {
        faults::first_fault_none(0, config.providers@.len() as int, check);
    }
    Ok(())
}

// ---------------------------------------------------------------------------------------------
// Coding agents
// ---------------------------------------------------------------------------------------------
/// A complaint about one coding agent.
pub open spec fn about_acp(id: Seq<char>, complaint: Seq<char>) -> Seq<char> {
    "ACP agent '"@ + id + complaint
}

/// What is wrong with the mapped environment of an agent, entry by entry.
pub open spec fn acp_mapping_faults(rules: RunnerRules, agent: AcpAgentConfig) -> spec_fn(
    int,
) -> Fault {
    |i: int|
        {
            let id = agent.id.text@;
            let e = agent.env_from_env@[i];
            if !env_keys::env_name_ok(256, e.key@) || !env_keys::env_name_ok(256, e.value@) {
                Some(
                    about_acp(
                        id,
                        "' env_from_env contains an invalid environment variable name"@,
                    ),
                )
            } else if env_keys::sensitive(rules, e.key@) || env_keys::sensitive(rules, e.value@) {
                Some(
                    about_acp(
                        id,
                        "' env_from_env may not map WebCodex-sensitive environment variables"@,
                    ),
                )
            } else if key_taken(rules.platform, agent.env_from_env@, i, e.key@) {
                Some(
                    about_acp(
                        id,
                        "' env_from_env contains conflicting destination names for this platform"@,
                    ),
                )
            } else {
                None
            }
        }
}

/// An option id that an agent section may allow.
pub open spec fn option_id_ok(option: Seq<char>, max_bytes: int) -> bool {
    &&& option.len() > 0
    &&& text::byte_len(option) <= max_bytes
    &&& !option.contains('\0')
    &&& !option.contains('\r')
    &&& !option.contains('\n')
}

/// Some allowed option is malformed or occurs twice.
pub open spec fn some_bad_option(options: Seq<String>, max_bytes: int) -> bool {
    ||| exists|i: int| 0 <= i < options.len() && !option_id_ok((#[trigger] options[i])@, max_bytes)
    ||| exists|i: int, j: int|
        0 <= j < i < options.len() && (#[trigger] options[i])@ == (#[trigger] options[j])@
}

/// What is wrong with how an agent is started.
pub open spec fn acp_launch_fault(rules: RunnerRules, a: AcpAgentConfig) -> Fault {
    let id = a.id.text@;
    let mapped = faults::first_fault(0, a.env_from_env@.len() as int, acp_mapping_faults(rules, a));
    if !bounded_absolute(rules.platform, a.executable@, 1024) {
        Some(about_acp(id, "' executable must be an absolute path of at most 1024 bytes"@))
    } else if a.args@.len() > 64 {
        Some(about_acp(id, "' args may contain at most 64 entries"@))
    } else if some_bad_arg(a.args@, 4096) {
        Some(about_acp(id, "' contains an invalid argument"@))
    } else if args_bytes(a.args@, 1) > 16384 {
        Some(about_acp(id, "' args exceed 16384 bytes"@))
    } else if a.env_from_env@.len() > 64 {
        Some(about_acp(id, "' env_from_env may contain at most 64 entries"@))
    } else if mapped is Some {
        mapped
    } else if a.allowed_config_options@.len() > 64 {
        Some(about_acp(id, "' allowed_config_options may contain at most 64 entries"@))
    } else if some_bad_option(
        a.allowed_config_options@,
        rules.coding_agent_max_config_key_bytes as int,
    ) {
        Some(about_acp(id, "' contains an invalid or duplicate allowed config option"@))
    } else {
        None
    }
}

/// What is wrong with the agents, agent by agent.
pub open spec fn acp_agent_faults(rules: RunnerRules, agents: Seq<AcpAgentConfig>) -> spec_fn(
    int,
) -> Fault {
    |i: int|
        {
            let a = agents[i];
            if a.id.fault is Some {
                Some("ACP agent id is invalid: "@ + a.id.fault->0@)
            } else if text::blank(a.name@) || text::byte_len(a.name@)
                > rules.coding_agent_max_provider_name_bytes || text::has_control(a.name@) {
                Some(about_acp(a.id.text@, "' name is invalid"@))
            } else if exists|j: int| 0 <= j < i && (#[trigger] agents[j]).id.text@ == a.id.text@ {
                Some("ACP agent ids must be unique"@)
            } else {
                acp_launch_fault(rules, a)
            }
        }
}

/// What is wrong with the coding agent section.
pub open spec fn acp_fault(rules: RunnerRules, config: AcpConfig) -> Fault {
    if !(ACP_MIN_CONCURRENT_RUNS <= config.max_concurrent_runs <= ACP_MAX_CONCURRENT_RUNS) {
        Some("acp.max_concurrent_runs must be between "@ + "1 and 8"@)
    } else if !(ACP_PERMISSION_TIMEOUT_MIN_SECS <= config.permission_timeout_secs
        <= ACP_PERMISSION_TIMEOUT_MAX_SECS) {
        Some("acp.permission_timeout_secs must be between "@ + "1 and 60"@)
    } else if config.agents@.len() > rules.coding_agent_max_providers {
        Some(
            "acp.agents may contain at most "@ + text::decimal(rules.coding_agent_max_providers as nat)
                + " entries"@,
        )
    } else {
        faults::first_fault(0, config.agents@.len() as int, acp_agent_faults(rules, config.agents@))
    }
}

fn check_acp_mapping(rules: &RunnerRules, agent: &AcpAgentConfig) -> (r: Result<(), String>)
    ensures
        faults::reports(
            r,
            faults::first_fault(
                0,
                agent.env_from_env@.len() as int,
                acp_mapping_faults(*rules, *agent),
            ),
        ),
{
    let id = agent.id.text.as_str();
    let ghost check = acp_mapping_faults(*rules, *agent);
    for i in 0..agent.env_from_env.len()
        invariant
            id@ == agent.id.text@,
            check == acp_mapping_faults(*rules, *agent),
            forall|k: int| 0 <= k < i ==> (#[trigger] check(k)) is None,
    {
        let key = agent.env_from_env[i].key.as_str();
        let source = agent.env_from_env[i].value.as_str();
        let problem: Option<&'static str> = if validate_acp_env_name(key).is_err()
            || validate_acp_env_name(source).is_err() {
            Some("' env_from_env contains an invalid environment variable name")
        } else if is_sensitive_env_key(rules, key) || is_sensitive_env_key(rules, source) {
            Some("' env_from_env may not map WebCodex-sensitive environment variables")
        } else if is_key_taken(rules.platform, &agent.env_from_env, i, key) {
            Some("' env_from_env contains conflicting destination names for this platform")
        } else {
            None
        };
        if let Some(complaint) = problem {
            proof {
                assert(check(i as int) == Some(about_acp(id@, complaint@)));
                faults::first_fault_found(0, i as int, agent.env_from_env@.len() as int, check);
            }
            return Err(join3("ACP agent '", id, complaint));
        }
        assert(check(i as int) is None);
    }
    proof {
        faults::first_fault_none(0, agent.env_from_env@.len() as int, check);
    }
    Ok(())
}

fn has_bad_option(options: &Vec<String>, max_bytes: usize) -> (r: bool)
    ensures
        r == some_bad_option(options@, max_bytes as int),
{
    for i in 0..options.len()
        invariant
            forall|k: int|
                0 <= k < i ==> option_id_ok((#[trigger] options@[k])@, max_bytes as int),
            forall|k: int, j: int|
                0 <= j < k < i ==> (#[trigger] options@[k])@ != (#[trigger] options@[j])@,
    {
        let option = options[i].as_str();
        if option.is_empty() || utf8_len(option) > max_bytes || contains_char(option, '\0')
            || contains_char(option, '\r') || contains_char(option, '\n') {
            assert(!option_id_ok(options@[i as int]@, max_bytes as int));
            return true;
        }
        for j in 0..i
            invariant
                i < options@.len(),
                forall|k: int| 0 <= k < j ==> (#[trigger] options@[k])@ != options@[i as int]@,
        {
            if options[j] == options[i] {
                assert(options@[i as int]@ == options@[j as int]@);
                return true;
            }
        }
    }
    false
}

fn check_acp_launch(rules: &RunnerRules, a: &AcpAgentConfig) -> (r: Result<(), String>)
    ensures
        faults::reports(r, acp_launch_fault(*rules, *a)),
{
    let id = a.id.text.as_str();
    if !is_bounded_absolute(rules.platform, a.executable.as_str(), 1024) {
        return Err(
            join3(
                "ACP agent '",
                id,
                "' executable must be an absolute path of at most 1024 bytes",
            ),
        );
    }
    if a.args.len() > ACP_MAX_ARGS {
        return Err(join3("ACP agent '", id, "' args may contain at most 64 entries"));
    }
    if has_bad_arg(&a.args, ACP_MAX_ARG_BYTES) {
        return Err(join3("ACP agent '", id, "' contains an invalid argument"));
    }
    if sum_args(&a.args, 1) > ACP_MAX_ARGS_BYTES {
        return Err(join3("ACP agent '", id, "' args exceed 16384 bytes"));
    }
    if a.env_from_env.len() > ACP_MAX_ENV_MAPPINGS {
        return Err(join3("ACP agent '", id, "' env_from_env may contain at most 64 entries"));
    }
    check_acp_mapping(rules, a)?;
    if a.allowed_config_options.len() > 64 {
        return Err(
            join3("ACP agent '", id, "' allowed_config_options may contain at most 64 entries"),
        );
    }
    if has_bad_option(&a.allowed_config_options, rules.coding_agent_max_config_key_bytes) {
        return Err(
            join3("ACP agent '", id, "' contains an invalid or duplicate allowed config option"),
        );
    }
    Ok(())
}

fn check_acp_agent(rules: &RunnerRules, agents: &Vec<AcpAgentConfig>, i: usize) -> (r: Result<
    (),
    String,
>)
    requires
        i < agents@.len(),
    ensures
        faults::reports(r, acp_agent_faults(*rules, agents@)(i as int)),
{
    let a = &agents[i];
    if let Some(error) = &a.id.fault {
        return Err("ACP agent id is invalid: ".to_owned().concat(error.as_str()));
    }
    if is_blank(a.name.as_str()) || utf8_len(a.name.as_str())
        > rules.coding_agent_max_provider_name_bytes || contains_control(a.name.as_str()) {
        return Err(join3("ACP agent '", a.id.text.as_str(), "' name is invalid"));
    }
    for j in 0..i
        invariant
            i < agents@.len(),
            *a == agents@[i as int],
            a.id.fault is None,
            !text::blank(a.name@),
            text::byte_len(a.name@) <= rules.coding_agent_max_provider_name_bytes,
            !text::has_control(a.name@),
            forall|k: int| 0 <= k < j ==> (#[trigger] agents@[k]).id.text@ != a.id.text@,
    {
        if agents[j].id.text == a.id.text {
            assert(agents@[j as int].id.text@ == a.id.text@);
            return Err("ACP agent ids must be unique".to_owned());
        }
    }
    check_acp_launch(rules, a)
}

/// Checks the coding agent section.
pub fn validate_acp_config(rules: &RunnerRules, config: &AcpConfig) -> (r: Result<(), String>)
    ensures
        faults::reports(r, acp_fault(*rules, *config)),
{
    if config.max_concurrent_runs < ACP_MIN_CONCURRENT_RUNS || config.max_concurrent_runs
        > ACP_MAX_CONCURRENT_RUNS {
        return Err("acp.max_concurrent_runs must be between ".to_owned().concat("1 and 8"));
    }
    if config.permission_timeout_secs < ACP_PERMISSION_TIMEOUT_MIN_SECS
        || config.permission_timeout_secs > ACP_PERMISSION_TIMEOUT_MAX_SECS {
        return Err("acp.permission_timeout_secs must be between ".to_owned().concat("1 and 60"));
    }
    if config.agents.len() > rules.coding_agent_max_providers {
        return Err(
            join3(
                "acp.agents may contain at most ",
                decimal_text(rules.coding_agent_max_providers as u64).as_str(),
                " entries",
            ),
        );
    }
    let ghost check = acp_agent_faults(*rules, config.agents@);
    for i in 0..config.agents.len()
        invariant
            check == acp_agent_faults(*rules, config.agents@),
            forall|k: int| 0 <= k < i ==> (#[trigger] check(k)) is None,
            ACP_MIN_CONCURRENT_RUNS <= config.max_concurrent_runs <= ACP_MAX_CONCURRENT_RUNS,
            ACP_PERMISSION_TIMEOUT_MIN_SECS <= config.permission_timeout_secs
                <= ACP_PERMISSION_TIMEOUT_MAX_SECS,
            config.agents@.len() <= rules.coding_agent_max_providers,
    {
        if let Err(message) = check_acp_agent(rules, &config.agents, i) {
            proof {
                faults::first_fault_found(0, i as int, config.agents@.len() as int, check);
            }
            return Err(message);
        }
    }
    proof {
        faults::first_fault_none(0, config.agents@.len() as int, check);
    }
    Ok(())
}

// ---------------------------------------------------------------------------------------------
// Plugins
// ---------------------------------------------------------------------------------------------
/// A complaint about one plugin provider.
pub open spec fn about_plugin(id: Seq<char>, complaint: Seq<char>) -> Seq<char> {
    "plugins provider '"@ + id + complaint
}

/// What is wrong with how a plugin is started.
pub open spec fn plugin_launch_fault(
    rules: RunnerRules,
    config: PluginConfig,
    shell: ShellConfig,
    p: PluginProviderConfig,
) -> Fault {
    let id = p.id.text@;
    let timeout = match p.timeout_secs {
        Some(secs) => secs,
        None => config.request_timeout_secs,
    };
    if text::blank(p.command@) || text::byte_len(p.command@) > 1024 || p.command@.contains('\0') {
        Some(
            about_plugin(
                id,
                "' command must be a non-empty native executable of at most 1024 bytes"@,
            ),
        )
    } else if p.args@.len() > 64 || some_bad_arg(p.args@, 4096) || args_bytes(p.args@, 0) > 16384 {
        Some(about_plugin(id, "' args exceed bounds"@))
    } else if p.cwd is Some && (text::blank(p.cwd->0@) || !bounded_absolute(
        rules.platform,
        p.cwd->0@,
        4096,
    )) {
        Some(about_plugin(id, "' cwd must be an absolute path of at most 4096 bytes"@))
    } else if p.profile is Some && (text::blank(p.profile->0@) || !validate::profile_configured(
        shell.profiles@,
        p.profile->0@,
    )) {
        Some(
            about_plugin(id, "' profile '"@) + p.profile->0@
                + "' is not configured in shell.profiles"@,
        )
    } else if !timeout_in_range(timeout) {
        Some(about_plugin(id, "' timeout_secs must be between 1 and 120"@))
    } else {
        None
    }
}

/// What is wrong with the plugins, plugin by plugin.
pub open spec fn plugin_faults(
    rules: RunnerRules,
    config: PluginConfig,
    shell: ShellConfig,
) -> spec_fn(int) -> Fault {
    |i: int|
        {
            let providers = config.providers@;
            let p = providers[i];
            if p.id.fault is Some {
                Some("plugin provider id is invalid: "@ + p.id.fault->0@)
            } else if p.name.fault is Some {
                Some("plugin provider name is invalid: "@ + p.name.fault->0@)
            } else if exists|j: int| 0 <= j < i && (#[trigger] providers[j]).id.text@ == p.id.text@ {
                Some("duplicate plugin provider id '"@ + p.id.text@ + "'"@)
            } else {
                plugin_launch_fault(rules, config, shell, p)
            }
        }
}

/// What is wrong with the plugin section.
pub open spec fn plugin_fault(
    rules: RunnerRules,
    config: PluginConfig,
    shell: ShellConfig,
) -> Fault {
    if !timeout_in_range(config.request_timeout_secs) {
        Some("plugins.request_timeout_secs must be between 1 and 120"@)
    } else if config.providers@.len() > rules.plugin_max_providers {
        Some(
            "plugins.providers may contain at most "@ + text::decimal(rules.plugin_max_providers as nat)
                + " entries"@,
        )
    } else {
        faults::first_fault(0, config.providers@.len() as int, plugin_faults(rules, config, shell))
    }
}

fn check_plugin_launch(
    rules: &RunnerRules,
    config: &PluginConfig,
    shell: &ShellConfig,
    p: &PluginProviderConfig,
) -> (r: Result<(), String>)
    ensures
        faults::reports(r, plugin_launch_fault(*rules, *config, *shell, *p)),
{
    let id = p.id.text.as_str();
    let command = p.command.as_str();
    if is_blank(command) || utf8_len(command) > PLUGIN_MAX_COMMAND_BYTES || contains_char(
        command,
        '\0',
    ) {
        return Err(
            join3(
                "plugins provider '",
                id,
                "' command must be a non-empty native executable of at most 1024 bytes",
            ),
        );
    }
    if p.args.len() > 64 || has_bad_arg(&p.args, 4096) || sum_args(&p.args, 0) > 16384 {
        return Err(join3("plugins provider '", id, "' args exceed bounds"));
    }
    if let Some(cwd) = &p.cwd {
        if is_blank(cwd.as_str()) || !is_bounded_absolute(
            rules.platform,
            cwd.as_str(),
            PLUGIN_MAX_CWD_BYTES,
        ) {
            return Err(
                join3(
                    "plugins provider '",
                    id,
                    "' cwd must be an absolute path of at most 4096 bytes",
                ),
            );
        }
    }
    if let Some(profile) = &p.profile {
        if is_blank(profile.as_str()) || !has_profile(&shell.profiles, profile.as_str()) {
            return Err(
                join3(
                    join3("plugins provider '", id, "' profile '").as_str(),
                    profile.as_str(),
                    "' is not configured in shell.profiles",
                ),
            );
        }
    }
    let timeout: u64 = match p.timeout_secs {
        Some(secs) => secs,
        None => config.request_timeout_secs,
    };
    if timeout < 1 || timeout > 120 {
        return Err(join3("plugins provider '", id, "' timeout_secs must be between 1 and 120"));
    }
    Ok(())
}

fn check_plugin(
    rules: &RunnerRules,
    config: &PluginConfig,
    shell: &ShellConfig,
    i: usize,
) -> (r: Result<(), String>)
    requires
        i < config.providers@.len(),
    ensures
        faults::reports(r, plugin_faults(*rules, *config, *shell)(i as int)),
{
    let p = &config.providers[i];
    if let Some(error) = &p.id.fault {
        return Err("plugin provider id is invalid: ".to_owned().concat(error.as_str()));
    }
    if let Some(error) = &p.name.fault {
        return Err("plugin provider name is invalid: ".to_owned().concat(error.as_str()));
    }
    for j in 0..i
        invariant
            i < config.providers@.len(),
            *p == config.providers@[i as int],
            p.id.fault is None,
            p.name.fault is None,
            forall|k: int| 0 <= k < j ==> (#[trigger] config.providers@[k]).id.text@ != p.id.text@,
    {
        if config.providers[j].id.text == p.id.text {
            assert(config.providers@[j as int].id.text@ == p.id.text@);
            return Err(join3("duplicate plugin provider id '", p.id.text.as_str(), "'"));
        }
    }
    check_plugin_launch(rules, config, shell, p)
}

/// Checks the plugin section.
pub fn validate_plugin_config(
    rules: &RunnerRules,
    config: &PluginConfig,
    shell: &ShellConfig,
) -> (r: Result<(), String>)
    ensures
        faults::reports(r, plugin_fault(*rules, *config, *shell)),
{
    if config.request_timeout_secs < 1 || config.request_timeout_secs > 120 {
        return Err("plugins.request_timeout_secs must be between 1 and 120".to_owned());
    }
    if config.providers.len() > rules.plugin_max_providers {
        return Err(
            join3(
                "plugins.providers may contain at most ",
                decimal_text(rules.plugin_max_providers as u64).as_str(),
                " entries",
            ),
        );
    }
    let ghost check = plugin_faults(*rules, *config, *shell);
    for i in 0..config.providers.len()
        invariant
            check == plugin_faults(*rules, *config, *shell),
            forall|k: int| 0 <= k < i ==> (#[trigger] check(k)) is None,
            timeout_in_range(config.request_timeout_secs),
            config.providers@.len() <= rules.plugin_max_providers,
    {
        if let Err(message) = check_plugin(rules, config, shell, i) {
            proof {
                faults::first_fault_found(0, i as int, config.providers@.len() as int, check);
            }
            return Err(message);
        }
    }
    proof {
        faults::first_fault_none(0, config.providers@.len() as int, check);
    }
    Ok(())
}

// ---------------------------------------------------------------------------------------------
// Laws
// ---------------------------------------------------------------------------------------------
/// No two entries of one map denote the same variable.
pub open spec fn distinct_keys(platform: Platform, entries: Seq<TextEntry>) -> bool {
    forall|i: int, j: int|
        0 <= j < i < entries.len() ==> !env_keys::same_env_key(
            platform,
            (#[trigger] entries[j]).key@,
            (#[trigger] entries[i]).key@,
        )
}

/// No entry of one map denotes the same variable as an entry of another.
pub open spec fn disjoint_keys(platform: Platform, a: Seq<TextEntry>, b: Seq<TextEntry>) -> bool {
    forall|i: int, j: int|
        0 <= j < a.len() && 0 <= i < b.len() ==> !env_keys::same_env_key(
            platform,
            (#[trigger] a[j]).key@,
            (#[trigger] b[i]).key@,
        )
}

/// A variable name that a child may get, and that is no credential of the runner.
pub open spec fn passable_name(rules: RunnerRules, name: Seq<char>) -> bool {
    env_keys::env_name_ok(256, name) && !env_keys::sensitive(rules, name)
}

/// The mapped variables of a child: names that it may get, from names that it may read.
pub open spec fn passable_mapping(rules: RunnerRules, entries: Seq<TextEntry>) -> bool {
    forall|i: int|
        0 <= i < entries.len() ==> passable_name(rules, (#[trigger] entries[i]).key@)
            && passable_name(rules, entries[i].value@)
}

/// The variables of a child with values of their own.
pub open spec fn passable_values(rules: RunnerRules, entries: Seq<TextEntry>) -> bool {
    forall|i: int|
        0 <= i < entries.len() ==> passable_name(rules, (#[trigger] entries[i]).key@)
            && text::byte_len(entries[i].value@) <= 16384 && !entries[i].value@.contains('\0')
}

/// Arguments within the bounds.
pub open spec fn acceptable_args(args: Seq<String>, extra: nat) -> bool {
    &&& args.len() <= 64
    &&& !some_bad_arg(args, 4096)
    &&& args_bytes(args, extra) <= 16384
}

/// An MCP provider that the gateway may start.
pub open spec fn mcp_provider_valid(rules: RunnerRules, p: McpGatewayProviderConfig) -> bool {
    &&& p.id.fault is None
    &&& p.name.fault is None
    &&& p.timeout_secs is Some ==> timeout_in_range(p.timeout_secs->0)
    &&& bounded_absolute(rules.platform, p.executable@, 1024)
    &&& acceptable_args(p.args@, 1)
    &&& p.cwd is Some ==> bounded_absolute(rules.platform, p.cwd->0@, 4096)
    &&& p.env@.len() + p.env_from_env@.len() <= 64
    &&& passable_values(rules, p.env@)
    &&& passable_mapping(rules, p.env_from_env@)
    &&& distinct_keys(rules.platform, p.env@)
    &&& distinct_keys(rules.platform, p.env_from_env@)
    &&& disjoint_keys(rules.platform, p.env@, p.env_from_env@)
    &&& entries_bytes(p.env@) + entries_bytes(p.env_from_env@) <= 65536
}

/// An MCP gateway section that is accepted.
pub open spec fn mcp_gateway_valid(rules: RunnerRules, config: McpGatewayConfig) -> bool {
    &&& timeout_in_range(config.request_timeout_secs)
    &&& config.providers@.len() <= rules.mcp_gateway_max_providers
    &&& forall|i: int|
        0 <= i < config.providers@.len() ==> mcp_provider_valid(
            rules,
            #[trigger] config.providers@[i],
        )
    &&& forall|i: int, j: int|
        0 <= j < i < config.providers@.len() ==> (#[trigger] config.providers@[i]).id.text@ != (
        #[trigger] config.providers@[j]).id.text@
}

/// A coding agent that the runner may start.
pub open spec fn acp_agent_valid(rules: RunnerRules, a: AcpAgentConfig) -> bool {
    &&& a.id.fault is None
    &&& !text::blank(a.name@)
    &&& text::byte_len(a.name@) <= rules.coding_agent_max_provider_name_bytes
    &&& !text::has_control(a.name@)
    &&& bounded_absolute(rules.platform, a.executable@, 1024)
    &&& acceptable_args(a.args@, 1)
    &&& a.env_from_env@.len() <= 64
    &&& passable_mapping(rules, a.env_from_env@)
    &&& distinct_keys(rules.platform, a.env_from_env@)
    &&& a.allowed_config_options@.len() <= 64
    &&& !some_bad_option(
        a.allowed_config_options@,
        rules.coding_agent_max_config_key_bytes as int,
    )
}

/// A coding agent section that is accepted.
pub open spec fn acp_valid(rules: RunnerRules, config: AcpConfig) -> bool {
    &&& 1 <= config.max_concurrent_runs <= 8
    &&& 1 <= config.permission_timeout_secs <= 60
    &&& config.agents@.len() <= rules.coding_agent_max_providers
    &&& forall|i: int|
        0 <= i < config.agents@.len() ==> acp_agent_valid(rules, #[trigger] config.agents@[i])
    &&& forall|i: int, j: int|
        0 <= j < i < config.agents@.len() ==> (#[trigger] config.agents@[i]).id.text@ != (
        #[trigger] config.agents@[j]).id.text@
}

/// A plugin that the runner may start.
pub open spec fn plugin_valid(
    rules: RunnerRules,
    config: PluginConfig,
    shell: ShellConfig,
    p: PluginProviderConfig,
) -> bool {
    &&& p.id.fault is None
    &&& p.name.fault is None
    &&& !text::blank(p.command@)
    &&& text::byte_len(p.command@) <= 1024
    &&& !p.command@.contains('\0')
    &&& acceptable_args(p.args@, 0)
    &&& p.cwd is Some ==> !text::blank(p.cwd->0@) && bounded_absolute(
        rules.platform,
        p.cwd->0@,
        4096,
    )
    &&& p.profile is Some ==> !text::blank(p.profile->0@) && validate::profile_configured(
        shell.profiles@,
        p.profile->0@,
    )
    &&& p.timeout_secs is Some ==> timeout_in_range(p.timeout_secs->0)
}

/// A plugin section that is accepted.
pub open spec fn plugins_valid(
    rules: RunnerRules,
    config: PluginConfig,
    shell: ShellConfig,
) -> bool {
    &&& timeout_in_range(config.request_timeout_secs)
    &&& config.providers@.len() <= rules.plugin_max_providers
    &&& forall|i: int|
        0 <= i < config.providers@.len() ==> plugin_valid(
            rules,
            config,
            shell,
            #[trigger] config.providers@[i],
        )
    &&& forall|i: int, j: int|
        0 <= j < i < config.providers@.len() ==> (#[trigger] config.providers@[i]).id.text@ != (
        #[trigger] config.providers@[j]).id.text@
}

proof fn mcp_environment_accepted(rules: RunnerRules, p: McpGatewayProviderConfig)
    ensures
        mcp_environment_fault(rules, p) is None <==> {
            &&& p.env@.len() + p.env_from_env@.len() <= 64
            &&& passable_values(rules, p.env@)
            &&& passable_mapping(rules, p.env_from_env@)
            &&& distinct_keys(rules.platform, p.env@)
            &&& distinct_keys(rules.platform, p.env_from_env@)
            &&& disjoint_keys(rules.platform, p.env@, p.env_from_env@)
            &&& entries_bytes(p.env@) + entries_bytes(p.env_from_env@) <= 65536
        },
{
    let values = mcp_env_faults(rules, p);
    let mapped = mcp_mapping_faults(rules, p);
    let n = p.env@.len() as int;
    let m = p.env_from_env@.len() as int;
    faults::first_fault_none(0, n, values);
    faults::first_fault_none(0, m, mapped);
    if mcp_environment_fault(rules, p) is None {
        assert forall|i: int, j: int| 0 <= j < i < n implies !env_keys::same_env_key(
            rules.platform,
            (#[trigger] p.env@[j]).key@,
            (#[trigger] p.env@[i]).key@,
        ) by {
            assert(values(i) is None);
        }
        assert forall|i: int| 0 <= i < n implies passable_name(
            rules,
            (#[trigger] p.env@[i]).key@,
        ) && text::byte_len(p.env@[i].value@) <= 16384 && !p.env@[i].value@.contains('\0') by {
            assert(values(i) is None);
        }
        assert forall|i: int| 0 <= i < m implies passable_name(
            rules,
            (#[trigger] p.env_from_env@[i]).key@,
        ) && passable_name(rules, p.env_from_env@[i].value@) by {
            assert(mapped(i) is None);
        }
        assert forall|i: int, j: int| 0 <= j < i < m implies !env_keys::same_env_key(
            rules.platform,
            (#[trigger] p.env_from_env@[j]).key@,
            (#[trigger] p.env_from_env@[i]).key@,
        ) by {
            assert(mapped(i) is None);
        }
        assert forall|i: int, j: int| 0 <= j < n && 0 <= i < m implies !env_keys::same_env_key(
            rules.platform,
            (#[trigger] p.env@[j]).key@,
            (#[trigger] p.env_from_env@[i]).key@,
        ) by {
            assert(mapped(i) is None);
        }
    }
}

/// The MCP gateway section is accepted exactly where it is valid.
pub proof fn mcp_gateway_accepted_iff_valid(rules: RunnerRules, config: McpGatewayConfig)
    ensures
        mcp_gateway_fault(rules, config) is None <==> mcp_gateway_valid(rules, config),
{
    let providers = config.providers@;
    let n = providers.len() as int;
    let check = mcp_provider_faults(rules, providers);
    faults::first_fault_none(0, n, check);
    assert forall|i: int| 0 <= i < n implies ((#[trigger] check(i)) is None <==> {
        &&& mcp_provider_valid(rules, providers[i])
        &&& forall|j: int| 0 <= j < i ==> (#[trigger] providers[j]).id.text@ != providers[i].id.text@
    }) by {
        mcp_environment_accepted(rules, providers[i]);
    }
    if mcp_gateway_fault(rules, config) is None {
        assert forall|i: int| 0 <= i < n implies mcp_provider_valid(
            rules,
            #[trigger] providers[i],
        ) by {
            assert(check(i) is None);
        }
        assert forall|i: int, j: int| 0 <= j < i < n implies (#[trigger] providers[i]).id.text@ != (
        #[trigger] providers[j]).id.text@ by {
            assert(check(i) is None);
        }
    }
}

/// The coding agent section is accepted exactly where it is valid.
pub proof fn acp_accepted_iff_valid(rules: RunnerRules, config: AcpConfig)
    ensures
        acp_fault(rules, config) is None <==> acp_valid(rules, config),
{
    let agents = config.agents@;
    let n = agents.len() as int;
    let check = acp_agent_faults(rules, agents);
    faults::first_fault_none(0, n, check);
    assert forall|i: int| 0 <= i < n implies ((#[trigger] check(i)) is None <==> {
        &&& acp_agent_valid(rules, agents[i])
        &&& forall|j: int| 0 <= j < i ==> (#[trigger] agents[j]).id.text@ != agents[i].id.text@
    }) by {
        let a = agents[i];
        let mapped = acp_mapping_faults(rules, a);
        let m = a.env_from_env@.len() as int;
        faults::first_fault_none(0, m, mapped);
        if faults::first_fault(0, m, mapped) is None {
            assert forall|k: int| 0 <= k < m implies passable_name(
                rules,
                (#[trigger] a.env_from_env@[k]).key@,
            ) && passable_name(rules, a.env_from_env@[k].value@) by {
                assert(mapped(k) is None);
            }
            assert forall|k: int, j: int| 0 <= j < k < m implies !env_keys::same_env_key(
                rules.platform,
                (#[trigger] a.env_from_env@[j]).key@,
                (#[trigger] a.env_from_env@[k]).key@,
            ) by {
                assert(mapped(k) is None);
            }
        }
    }
    if acp_fault(rules, config) is None {
        assert forall|i: int| 0 <= i < n implies acp_agent_valid(rules, #[trigger] agents[i]) by {
            assert(check(i) is None);
        }
        assert forall|i: int, j: int| 0 <= j < i < n implies (#[trigger] agents[i]).id.text@ != (
        #[trigger] agents[j]).id.text@ by {
            assert(check(i) is None);
        }
    }
}

/// The plugin section is accepted exactly where it is valid.
pub proof fn plugins_accepted_iff_valid(
    rules: RunnerRules,
    config: PluginConfig,
    shell: ShellConfig,
)
    ensures
        plugin_fault(rules, config, shell) is None <==> plugins_valid(rules, config, shell),
{
    let items = config.providers@;
    let n = items.len() as int;
    let check = plugin_faults(rules, config, shell);
    faults::first_fault_none(0, n, check);
    if timeout_in_range(config.request_timeout_secs) {
        assert forall|i: int| 0 <= i < n implies ((#[trigger] check(i)) is None <==> {
            &&& plugin_valid(rules, config, shell, items[i])
            &&& forall|j: int| 0 <= j < i ==> (#[trigger] items[j]).id.text@ != items[i].id.text@
        }) by {}
        if plugin_fault(rules, config, shell) is None {
            assert forall|i: int| 0 <= i < n implies plugin_valid(
                rules,
                config,
                shell,
                #[trigger] items[i],
            ) by {
                assert(check(i) is None);
            }
            assert forall|i: int, j: int| 0 <= j < i < n implies (#[trigger] items[i]).id.text@ != (
            #[trigger] items[j]).id.text@ by {
                assert(check(i) is None);
            }
        }
    }
}

/// A time limit is from one second to two minutes, and a program or directory is an absolute path
/// that is not empty, within its bound and without a NUL.
pub proof fn limits_are_in_range(platform: Platform, path: Seq<char>, max_bytes: int, secs: u64)
    ensures
        timeout_in_range(secs) <==> 0 < secs && secs <= 120,
        bounded_absolute(platform, path, max_bytes) <==> 0 < path.len() && text::byte_len(path)
            <= max_bytes && paths::absolute(platform, path) && (forall|i: int|
            0 <= i < path.len() ==> #[trigger] path[i] != '\0'),
        option_id_ok(path, max_bytes) <==> 0 < path.len() && text::byte_len(path) <= max_bytes && (
        forall|i: int|
            0 <= i < path.len() ==> #[trigger] path[i] != '\0' && path[i] != '\r' && path[i] != '\n'),
{
    if path.contains('\0') {
        assert(path[path.index_of('\0')] == '\0');
    }
    if path.contains('\r') {
        assert(path[path.index_of('\r')] == '\r');
    }
    if path.contains('\n') {
        assert(path[path.index_of('\n')] == '\n');
    }
    if bounded_absolute(platform, path, max_bytes) || option_id_ok(path, max_bytes) {
        assert forall|i: int| 0 <= i < path.len() implies #[trigger] path[i] != '\0' by {
            assert(path.contains(path[i]));
        }
    }
    if option_id_ok(path, max_bytes) {
        assert forall|i: int| 0 <= i < path.len() implies #[trigger] path[i] != '\r' && path[i]
            != '\n' by {
            assert(path.contains(path[i]));
        }
    }
}

/// The size of a list of arguments is that of its parts together, and that of one argument is its
/// bytes and what separates it.
pub proof fn argument_sizes_add_up(a: Seq<String>, b: Seq<String>, one: String, extra: nat)
    ensures
        args_bytes(a + b, extra) == args_bytes(a, extra) + args_bytes(b, extra),
        args_bytes(seq![one], extra) == text::byte_len(one@) + extra,
        args_bytes(Seq::empty(), extra) == 0,
    decreases b.len(),
{
    assert(seq![one].drop_last() =~= Seq::empty());
    assert(seq![one].last() == one);
    assert(args_bytes(seq![one].drop_last(), extra) == 0);
    if b.len() == 0 {
        assert(a + b =~= a);
    } else {
        argument_sizes_add_up(a, b.drop_last(), one, extra);
        assert((a + b).drop_last() =~= a + b.drop_last());
        assert((a + b).last() == b.last());
    }
}

/// The size of an environment is that of its parts together, and that of one entry is the bytes of
/// its key and of its value.
pub proof fn environment_sizes_add_up(a: Seq<TextEntry>, b: Seq<TextEntry>, one: TextEntry)
    ensures
        entries_bytes(a + b) == entries_bytes(a) + entries_bytes(b),
        entries_bytes(seq![one]) == text::byte_len(one.key@) + text::byte_len(one.value@),
        entries_bytes(Seq::empty()) == 0,
    decreases b.len(),
{
    assert(seq![one].drop_last() =~= Seq::empty());
    assert(seq![one].last() == one);
    assert(entries_bytes(seq![one].drop_last()) == 0);
    if b.len() == 0 {
        assert(a + b =~= a);
    } else {
        environment_sizes_add_up(a, b.drop_last(), one);
        assert((a + b).drop_last() =~= a + b.drop_last());
        assert((a + b).last() == b.last());
    }
}

/// Arguments are refused exactly where one is too long or holds a NUL.
pub proof fn arguments_are_refused_by_one(args: Seq<String>, max_bytes: int)
    ensures
        !some_bad_arg(args, max_bytes) <==> (forall|i: int, k: int|
            #![trigger args[i]@[k]]
            0 <= i < args.len() && 0 <= k < args[i]@.len() ==> args[i]@[k] != '\0') && (forall|i: int|
            0 <= i < args.len() ==> text::byte_len((#[trigger] args[i])@) <= max_bytes),
{
    if some_bad_arg(args, max_bytes) {
        let i = choose|i: int|
            0 <= i < args.len() && (text::byte_len((#[trigger] args[i])@) > max_bytes
                || args[i]@.contains('\0'));
        if args[i]@.contains('\0') {
            let k = args[i]@.index_of('\0');
            assert(args[i]@[k] == '\0');
        }
    } else {
        assert forall|i: int, k: int|
            #![trigger args[i]@[k]]
            0 <= i < args.len() && 0 <= k < args[i]@.len() implies args[i]@[k] != '\0' by {
            assert(args[i]@.contains(args[i]@[k]));
        }
    }
}

/// A gateway section is accepted exactly where its time limits are in range, its providers are not
/// too many and have ids of their own, and each provider's program, arguments, directory and
/// environment are within their bounds, set no name twice and touch no credential.
pub proof fn gateways_are_accepted_by_their_settings(rules: RunnerRules, config: McpGatewayConfig)
    ensures
        mcp_gateway_fault(rules, config) is None <==> {
            let providers = config.providers@;
            &&& 1 <= config.request_timeout_secs <= 120
            &&& providers.len() <= rules.mcp_gateway_max_providers
            &&& forall|i: int, j: int|
                0 <= i < providers.len() && 0 <= j < providers.len() && i != j ==> (
                #[trigger] providers[i]).id.text@ != (#[trigger] providers[j]).id.text@
            &&& forall|i: int|
                0 <= i < providers.len() ==> {
                    let p = #[trigger] providers[i];
                    &&& p.id.fault is None && p.name.fault is None
                    &&& p.timeout_secs is Some ==> 1 <= p.timeout_secs->0 <= 120
                    &&& bounded_absolute(rules.platform, p.executable@, 1024)
                    &&& p.args@.len() <= 64 && !some_bad_arg(p.args@, 4096) && args_bytes(p.args@, 1)
                        <= 16384
                    &&& p.cwd is Some ==> bounded_absolute(rules.platform, (p.cwd->0)@, 4096)
                    &&& p.env@.len() + p.env_from_env@.len() <= 64
                    &&& entries_bytes(p.env@) + entries_bytes(p.env_from_env@) <= 65536
                    &&& values_passable(rules, p.env@)
                    &&& mapping_passable(rules, p.env_from_env@)
                    &&& names_distinct(rules.platform, p.env@)
                    &&& names_distinct(rules.platform, p.env_from_env@)
                    &&& names_disjoint(rules.platform, p.env@, p.env_from_env@)
                }
        },
{
    mcp_gateway_accepted_iff_valid(rules, config);
    let providers = config.providers@;
    assert forall|i: int| 0 <= i < providers.len() implies ({
        let p = #[trigger] providers[i];
        &&& names_distinct(rules.platform, p.env@) <==> distinct_keys(rules.platform, p.env@)
        &&& names_distinct(rules.platform, p.env_from_env@) <==> distinct_keys(
            rules.platform,
            p.env_from_env@,
        )
    }) by {
        keys_are_compared_both_ways(rules.platform, providers[i].env@);
        keys_are_compared_both_ways(rules.platform, providers[i].env_from_env@);
    }
    if mcp_gateway_valid(rules, config) {
        assert forall|i: int| 0 <= i < providers.len() implies mcp_provider_valid(
            rules,
            #[trigger] providers[i],
        ) by {}
    }
}

/// The names and values of the entries may be handed to a child.
pub open spec fn values_passable(rules: RunnerRules, entries: Seq<TextEntry>) -> bool {
    forall|i: int|
        0 <= i < entries.len() ==> env_keys::env_name_ok(256, (#[trigger] entries[i]).key@)
            && !env_keys::sensitive(rules, entries[i].key@) && text::byte_len(entries[i].value@)
            <= 16384 && !entries[i].value@.contains('\0')
}

/// The names on both sides of a mapping may be handed to a child.
pub open spec fn mapping_passable(rules: RunnerRules, entries: Seq<TextEntry>) -> bool {
    forall|i: int|
        0 <= i < entries.len() ==> env_keys::env_name_ok(256, (#[trigger] entries[i]).key@)
            && !env_keys::sensitive(rules, entries[i].key@) && env_keys::env_name_ok(
            256,
            entries[i].value@,
        ) && !env_keys::sensitive(rules, entries[i].value@)
}

/// No two entries set the same variable.
pub open spec fn names_distinct(platform: Platform, entries: Seq<TextEntry>) -> bool {
    forall|i: int, j: int|
        0 <= i < entries.len() && 0 <= j < entries.len() && i != j ==> !env_keys::same_env_key(
            platform,
            (#[trigger] entries[i]).key@,
            (#[trigger] entries[j]).key@,
        )
}

/// No entry of one list sets a variable that one of the other sets.
pub open spec fn names_disjoint(platform: Platform, a: Seq<TextEntry>, b: Seq<TextEntry>) -> bool {
    forall|i: int, j: int|
        0 <= i < a.len() && 0 <= j < b.len() ==> !env_keys::same_env_key(
            platform,
            (#[trigger] a[i]).key@,
            (#[trigger] b[j]).key@,
        )
}

proof fn keys_are_compared_both_ways(platform: Platform, entries: Seq<TextEntry>)
    ensures
        names_distinct(platform, entries) <==> distinct_keys(platform, entries),
{
    assert forall|a: Seq<char>, b: Seq<char>|
        #[trigger] env_keys::same_env_key(platform, a, b) == env_keys::same_env_key(
            platform,
            b,
            a,
        ) by {}
}

/// An agent section is accepted exactly where its numbers are in range, its agents are not too many
/// and have ids of their own, and each agent's name, program, arguments, mapping and options are
/// within their bounds, map no name twice and touch no credential.
pub proof fn agents_are_accepted_by_their_settings(rules: RunnerRules, config: AcpConfig)
    ensures
        acp_fault(rules, config) is None <==> {
            let agents = config.agents@;
            &&& 1 <= config.max_concurrent_runs <= 8
            &&& 1 <= config.permission_timeout_secs <= 60
            &&& agents.len() <= rules.coding_agent_max_providers
            &&& forall|i: int, j: int|
                0 <= i < agents.len() && 0 <= j < agents.len() && i != j ==> (
                #[trigger] agents[i]).id.text@ != (#[trigger] agents[j]).id.text@
            &&& forall|i: int|
                0 <= i < agents.len() ==> {
                    let a = #[trigger] agents[i];
                    &&& a.id.fault is None
                    &&& !text::blank(a.name@) && !text::has_control(a.name@)
                    &&& text::byte_len(a.name@) <= rules.coding_agent_max_provider_name_bytes
                    &&& bounded_absolute(rules.platform, a.executable@, 1024)
                    &&& a.args@.len() <= 64 && !some_bad_arg(a.args@, 4096) && args_bytes(a.args@, 1)
                        <= 16384
                    &&& a.env_from_env@.len() <= 64
                    &&& mapping_passable(rules, a.env_from_env@)
                    &&& names_distinct(rules.platform, a.env_from_env@)
                    &&& a.allowed_config_options@.len() <= 64
                    &&& options_usable(
                        a.allowed_config_options@,
                        rules.coding_agent_max_config_key_bytes as int,
                    )
                }
        },
{
    acp_accepted_iff_valid(rules, config);
    let agents = config.agents@;
    assert forall|i: int| 0 <= i < agents.len() implies ({
        let a = #[trigger] agents[i];
        &&& names_distinct(rules.platform, a.env_from_env@) <==> distinct_keys(
            rules.platform,
            a.env_from_env@,
        )
    }) by {
        keys_are_compared_both_ways(rules.platform, agents[i].env_from_env@);
    }
    if acp_valid(rules, config) {
        assert forall|i: int| 0 <= i < agents.len() implies acp_agent_valid(
            rules,
            #[trigger] agents[i],
        ) by {}
    }
}

/// Each option may be named, and none is named twice.
pub open spec fn options_usable(options: Seq<String>, max_bytes: int) -> bool {
    &&& forall|i: int| 0 <= i < options.len() ==> option_id_ok((#[trigger] options[i])@, max_bytes)
    &&& forall|i: int, j: int|
        0 <= i < options.len() && 0 <= j < options.len() && i != j ==> (#[trigger] options[i])@ != (
        #[trigger] options[j])@
}

/// A plugin section is accepted exactly where its time limits are in range, its providers are not
/// too many and have ids of their own, and each provider's command, arguments, directory and
/// profile are within their bounds, the profile being one of the shell section.
pub proof fn plugins_are_accepted_by_their_settings(
    rules: RunnerRules,
    config: PluginConfig,
    shell: ShellConfig,
)
    ensures
        plugin_fault(rules, config, shell) is None <==> {
            let providers = config.providers@;
            &&& 1 <= config.request_timeout_secs <= 120
            &&& providers.len() <= rules.plugin_max_providers
            &&& forall|i: int, j: int|
                0 <= i < providers.len() && 0 <= j < providers.len() && i != j ==> (
                #[trigger] providers[i]).id.text@ != (#[trigger] providers[j]).id.text@
            &&& forall|i: int|
                0 <= i < providers.len() ==> {
                    let p = #[trigger] providers[i];
                    &&& p.id.fault is None && p.name.fault is None
                    &&& !text::blank(p.command@) && text::byte_len(p.command@) <= 1024
                        && !p.command@.contains('\0')
                    &&& p.args@.len() <= 64 && !some_bad_arg(p.args@, 4096) && args_bytes(p.args@, 0)
                        <= 16384
                    &&& p.cwd is Some ==> !text::blank((p.cwd->0)@) && bounded_absolute(
                        rules.platform,
                        (p.cwd->0)@,
                        4096,
                    )
                    &&& p.profile is Some ==> !text::blank((p.profile->0)@) && (exists|k: int|
                        0 <= k < shell.profiles@.len() && (#[trigger] shell.profiles@[k]).name@ == (
                        p.profile->0)@)
                    &&& p.timeout_secs is Some ==> 1 <= p.timeout_secs->0 <= 120
                }
        },
{
    plugins_accepted_iff_valid(rules, config, shell);
    let providers = config.providers@;
    if plugins_valid(rules, config, shell) {
        assert forall|i: int| 0 <= i < providers.len() implies plugin_valid(
            rules,
            config,
            shell,
            #[trigger] providers[i],
        ) by {}
    }
}

/// What is wrong with a provider is told with its id, and of two providers that are refused the
/// first is told.
pub proof fn first_refused_provider_is_told(
    rules: RunnerRules,
    config: McpGatewayConfig,
    k: int,
)
    requires
        0 <= k < config.providers@.len() <= rules.mcp_gateway_max_providers,
        1 <= config.request_timeout_secs <= 120,
        forall|j: int|
            0 <= j < k ==> (#[trigger] mcp_provider_faults(rules, config.providers@)(j)) is None,
        mcp_provider_faults(rules, config.providers@)(k) is Some,
    ensures
        mcp_gateway_fault(rules, config) == mcp_provider_faults(rules, config.providers@)(k),
        config.providers@[k].id.fault is Some ==> mcp_gateway_fault(rules, config) == Some(
            "mcp provider id is invalid: "@ + (config.providers@[k].id.fault->0)@,
        ),
        config.providers@[k].id.fault is None && config.providers@[k].name.fault is Some
            ==> mcp_gateway_fault(rules, config) == Some(
            "mcp provider name is invalid: "@ + (config.providers@[k].name.fault->0)@,
        ),
{
    faults::first_fault_found(
        0,
        k,
        config.providers@.len() as int,
        mcp_provider_faults(rules, config.providers@),
    );
}

} // verus!
