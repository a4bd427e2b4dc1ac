//! How a provider is started and spoken to: its environment, its directory, the handshake, and
//! the two operations.
use crate::config::{McpGatewayProviderConfig, RunnerRules, TextEntry, MCP_GATEWAY_MAX_CWD_BYTES};
use crate::env_keys::{self, env_keys_equal, is_sensitive_env_key};
use crate::exchange::{self, notification_line, ProviderConnection, StreamFacts, StreamView};
use crate::json::{self, Json, JsonView};
use crate::paths::Platform;
use crate::providers::{self, is_bounded_absolute};
use crate::rpc::{self, ProviderFailure};
use crate::tools::{
    self, accept_call_result, accept_tools, call_params_value, empty_params_value,
    initialize_params_value, parse_call_result, parse_tools_list, validate_initialize_result,
    McpGatewayTool, McpGatewayToolResult, ToolResultView, ToolView,
};
use vstd::prelude::*;
use vstd::string::*;

verus! {

/// Where the value of an environment variable of a provider comes from.
#[derive(Debug)]
pub enum EnvSource {
    /// The text itself.
    Literal(String),
    /// The value of that variable of the runner.
    Inherited(String),
}

/// One environment variable of a provider.
#[derive(Debug)]
pub struct EnvBinding {
    pub destination: String,
    pub source: EnvSource,
}

/// The content of an environment source.
pub enum EnvSourceView {
    Literal(Seq<char>),
    Inherited(Seq<char>),
}

impl EnvSource {
    pub open spec fn view(self) -> EnvSourceView {
        match self {
            EnvSource::Literal(s) => EnvSourceView::Literal(s@),
            EnvSource::Inherited(s) => EnvSourceView::Inherited(s@),
        }
    }
}

/// The content of an environment.
pub open spec fn bindings_view(bindings: Seq<EnvBinding>) -> Seq<(Seq<char>, EnvSourceView)> {
    Seq::new(bindings.len(), |i: int| (bindings[i].destination@, bindings[i].source.view()))
}

/// The provider environment holds the platform's bootstrap variable on top of what is configured:
/// on Windows, where no entry sets it and the runner has it.
pub open spec fn bootstrap_needed(
    platform: Platform,
    config: McpGatewayProviderConfig,
    system_root_present: bool,
) -> bool {
    &&& platform == Platform::Windows
    &&& system_root_present
    &&& !providers::key_taken(
        platform,
        config.env@,
        config.env@.len() as int,
        "SYSTEMROOT"@,
    )
    &&& !providers::key_taken(
        platform,
        config.env_from_env@,
        config.env_from_env@.len() as int,
        "SYSTEMROOT"@,
    )
}

/// The bootstrap variable, or nothing.
pub open spec fn bootstrap_bindings(needed: bool) -> Seq<(Seq<char>, EnvSourceView)> {
    if needed {
        seq![("SYSTEMROOT"@, EnvSourceView::Inherited("SYSTEMROOT"@))]
    } else {
        Seq::empty()
    }
}

/// The variables with values of their own.
pub open spec fn literal_bindings(env: Seq<TextEntry>) -> Seq<(Seq<char>, EnvSourceView)> {
    Seq::new(env.len(), |i: int| (env[i].key@, EnvSourceView::Literal(env[i].value@)))
}

/// The variables that take the value of one of the runner's.
pub open spec fn inherited_bindings(env: Seq<TextEntry>) -> Seq<(Seq<char>, EnvSourceView)> {
    Seq::new(env.len(), |i: int| (env[i].key@, EnvSourceView::Inherited(env[i].value@)))
}

/// Some variable with a value of its own is one of the runner's credentials.
pub open spec fn literal_forbidden(rules: RunnerRules, env: Seq<TextEntry>) -> bool {
    exists|i: int| 0 <= i < env.len() && env_keys::sensitive(rules, (#[trigger] env[i]).key@)
}

/// What keeps the mapped variables from being resolved: the first one that touches a credential,
/// or that the runner does not have.
pub open spec fn mapping_failure(
    rules: RunnerRules,
    env: Seq<TextEntry>,
    present: Seq<bool>,
) -> Option<ProviderFailure>
    decreases env.len(),
{
    if env.len() == 0 {
        None
    } else {
        let before = mapping_failure(rules, env.drop_last(), present);
        let last = env.last();
        if before is Some {
            before
        } else if env_keys::sensitive(rules, last.key@) || env_keys::sensitive(rules, last.value@) {
            Some(rpc::failed_before_send("provider_env_forbidden"))
        } else if !present[env.len() - 1] {
            Some(rpc::failed_before_send("provider_env_missing"))
        } else {
            None
        }
    }
}

/// The environment of a provider, or why there is none.
pub open spec fn environment_verdict(
    rules: RunnerRules,
    config: McpGatewayProviderConfig,
    present: Seq<bool>,
    system_root_present: bool,
) -> Result<Seq<(Seq<char>, EnvSourceView)>, ProviderFailure> {
    let mapped = mapping_failure(rules, config.env_from_env@, present);
    if literal_forbidden(rules, config.env@) {
        Err(rpc::failed_before_send("provider_env_forbidden"))
    } else if mapped is Some {
        Err(mapped->0)
    } else {
        Ok(
            bootstrap_bindings(bootstrap_needed(rules.platform, config, system_root_present))
                + literal_bindings(config.env@) + inherited_bindings(config.env_from_env@),
        )
    }
}

fn has_key(platform: Platform, entries: &Vec<TextEntry>, key: &str) -> (r: bool)
    ensures
        r == providers::key_taken(platform, entries@, entries@.len() as int, key@),
{
    for j in 0..entries.len()
        invariant
            forall|k: int|
                0 <= k < j ==> !env_keys::same_env_key(
                    platform,
                    (#[trigger] entries@[k]).key@,
                    key@,
                ),
    {
        if env_keys_equal(platform, entries[j].key.as_str(), key) {
            assert(env_keys::same_env_key(platform, entries@[j as int].key@, key@));
            return true;
        }
    }
    false
}

proof fn mapping_failure_stays(
    rules: RunnerRules,
    env: Seq<TextEntry>,
    present: Seq<bool>,
    n: int,
)
    requires
        0 <= n <= env.len(),
        mapping_failure(rules, env.take(n), present) is Some,
    ensures
        mapping_failure(rules, env, present) == mapping_failure(rules, env.take(n), present),
    decreases env.len(),
{
    if n < env.len() {
        assert(env.drop_last().take(n) =~= env.take(n));
        mapping_failure_stays(rules, env.drop_last(), present, n);
    } else {
        assert(env.take(n) =~= env);
    }
}

/// Resolves the environment of a provider: what is configured and nothing else of the runner's
/// own. `present` says of each mapped variable whether the runner has it, `system_root_present`
/// whether it has the bootstrap variable.
pub fn resolve_provider_environment(
    rules: &RunnerRules,
    config: &McpGatewayProviderConfig,
    present: &Vec<bool>,
    system_root_present: bool,
) -> (r: Result<Vec<EnvBinding>, ProviderFailure>)
    requires
        present@.len() == config.env_from_env@.len(),
    ensures
        match environment_verdict(*rules, *config, present@, system_root_present) {
            Ok(bindings) => r matches Ok(found) && bindings_view(found@) == bindings,
            Err(failure) => r == Result::<Vec<EnvBinding>, ProviderFailure>::Err(failure),
        },
{
    let mut resolved: Vec<EnvBinding> = Vec::new();
    let is_windows = match rules.platform {
        Platform::Windows => true,
        Platform::Posix => false,
    };
    if is_windows && !has_key(rules.platform, &config.env, "SYSTEMROOT") && !has_key(
        rules.platform,
        &config.env_from_env,
        "SYSTEMROOT",
    ) && system_root_present {
        resolved.push(
            EnvBinding {
                destination: "SYSTEMROOT".to_owned(),
                source: EnvSource::Inherited("SYSTEMROOT".to_owned()),
            },
        );
    }
    let ghost first = bootstrap_bindings(
        bootstrap_needed(rules.platform, *config, system_root_present),
    );
    assert(bindings_view(resolved@) =~= first + literal_bindings(config.env@.take(0)));
    for i in 0..config.env.len()
        invariant
            bindings_view(resolved@) == first + literal_bindings(config.env@.take(i as int)),
            forall|k: int|
                0 <= k < i ==> !env_keys::sensitive(*rules, (#[trigger] config.env@[k]).key@),
    {
        if is_sensitive_env_key(rules, config.env[i].key.as_str()) {
            assert(env_keys::sensitive(*rules, config.env@[i as int].key@));
            return Err(ProviderFailure::before_send("provider_env_forbidden"));
        }
        let ghost before = resolved@;
        resolved.push(
            EnvBinding {
                destination: config.env[i].key.clone(),
                source: EnvSource::Literal(config.env[i].value.clone()),
            },
        );
        assert(bindings_view(resolved@) =~= bindings_view(before).push(
            (config.env@[i as int].key@, EnvSourceView::Literal(config.env@[i as int].value@)),
        ));
        assert(literal_bindings(config.env@.take(i + 1)) =~= literal_bindings(
            config.env@.take(i as int),
        ).push((config.env@[i as int].key@, EnvSourceView::Literal(config.env@[i as int].value@))));
        assert(bindings_view(resolved@) =~= first + literal_bindings(config.env@.take(i + 1)));
    }
    let ghost own = first + literal_bindings(config.env@);
    proof {
        assert(config.env@.take(config.env@.len() as int) =~= config.env@);
        assert(bindings_view(resolved@) =~= own + inherited_bindings(config.env_from_env@.take(0)));
    }
    for i in 0..config.env_from_env.len()
        invariant
            present@.len() == config.env_from_env@.len(),
            bindings_view(resolved@) == own + inherited_bindings(
                config.env_from_env@.take(i as int),
            ),
            mapping_failure(*rules, config.env_from_env@.take(i as int), present@) is None,
            !literal_forbidden(*rules, config.env@),
    {
        proof {
            assert(config.env_from_env@.take(i + 1).drop_last() =~= config.env_from_env@.take(
                i as int,
            ));
        }
        let entry = &config.env_from_env[i];
        if is_sensitive_env_key(rules, entry.key.as_str()) || is_sensitive_env_key(
            rules,
            entry.value.as_str(),
        ) {
            proof {
                mapping_failure_stays(*rules, config.env_from_env@, present@, i + 1);
            }
            return Err(ProviderFailure::before_send("provider_env_forbidden"));
        }
        if !present[i] {
            proof {
                mapping_failure_stays(*rules, config.env_from_env@, present@, i + 1);
            }
            return Err(ProviderFailure::before_send("provider_env_missing"));
        }
        let ghost before = resolved@;
        let ghost item = (
            config.env_from_env@[i as int].key@,
            EnvSourceView::Inherited(config.env_from_env@[i as int].value@),
        );
        resolved.push(
            EnvBinding {
                destination: entry.key.clone(),
                source: EnvSource::Inherited(entry.value.clone()),
            },
        );
        assert(bindings_view(resolved@) =~= bindings_view(before).push(item));
        assert(inherited_bindings(config.env_from_env@.take(i + 1)) =~= inherited_bindings(
            config.env_from_env@.take(i as int),
        ).push(item));
        assert(bindings_view(resolved@) =~= own + inherited_bindings(
            config.env_from_env@.take(i + 1),
        ));
    }
    proof {
        assert(config.env_from_env@.take(config.env_from_env@.len() as int)
            =~= config.env_from_env@);
    }
    Ok(resolved)
}

/// The working directory of a provider, or why there is none. `is_dir` says whether the
/// configured path is a directory.
pub open spec fn cwd_verdict(
    platform: Platform,
    cwd: Option<Seq<char>>,
    is_dir: bool,
) -> Result<Option<Seq<char>>, ProviderFailure> {
    match cwd {
        None => Ok(None),
        Some(path) => if !providers::bounded_absolute(platform, path, 4096) {
            Err(rpc::failed_before_send("provider_cwd_invalid"))
        } else if !is_dir {
            Err(rpc::failed_before_send("provider_cwd_unavailable"))
        } else {
            Ok(Some(path))
        },
    }
}

/// Resolves the working directory of a provider.
pub fn resolve_provider_cwd(
    platform: Platform,
    config: &McpGatewayProviderConfig,
    is_dir: bool,
) -> (r: Result<Option<String>, ProviderFailure>)
    ensures
        match cwd_verdict(platform, config@.cwd, is_dir) {
            Ok(cwd) => r matches Ok(found) && crate::text::option_view(found) == cwd,
            Err(failure) => r == Result::<Option<String>, ProviderFailure>::Err(failure),
        },
{
    match &config.cwd {
        None => Ok(None),
        Some(cwd) => {
            if !is_bounded_absolute(platform, cwd.as_str(), MCP_GATEWAY_MAX_CWD_BYTES) {
                return Err(ProviderFailure::before_send("provider_cwd_invalid"));
            }
            if !is_dir {
                return Err(ProviderFailure::before_send("provider_cwd_unavailable"));
            }
            Ok(Some(cwd.clone()))
        },
    }
}

/// What of the host bears on the start of a provider: which mapped variables the runner has,
/// whether it has the bootstrap variable, and whether the configured directory is one.
#[derive(Debug)]
pub struct LaunchFacts {
    pub present: Vec<bool>,
    pub system_root_present: bool,
    pub cwd_is_dir: bool,
}

/// What a provider process is started with, besides its executable and arguments.
#[derive(Debug)]
pub struct LaunchPlan {
    pub environment: Vec<EnvBinding>,
    pub cwd: Option<String>,
}

/// The content of a launch plan.
pub struct LaunchView {
    pub environment: Seq<(Seq<char>, EnvSourceView)>,
    pub cwd: Option<Seq<char>>,
}

impl LaunchPlan {
    pub open spec fn view(self) -> LaunchView {
        LaunchView {
            environment: bindings_view(self.environment@),
            cwd: crate::text::option_view(self.cwd),
        }
    }
}

/// What a provider is started with, or why it is not: the environment decides first.
pub open spec fn launch_verdict(
    rules: RunnerRules,
    config: McpGatewayProviderConfig,
    facts: LaunchFacts,
) -> Result<LaunchView, ProviderFailure> {
    match environment_verdict(rules, config, facts.present@, facts.system_root_present) {
        Err(failure) => Err(failure),
        Ok(environment) => match cwd_verdict(rules.platform, config@.cwd, facts.cwd_is_dir) {
            Err(failure) => Err(failure),
            Ok(cwd) => Ok(LaunchView { environment, cwd }),
        },
    }
}

/// Resolves everything that a provider is started with, before any process is created.
pub fn plan_launch(
    rules: &RunnerRules,
    config: &McpGatewayProviderConfig,
    facts: &LaunchFacts,
) -> (r: Result<LaunchPlan, ProviderFailure>)
    requires
        facts.present@.len() == config.env_from_env@.len(),
    ensures
        match launch_verdict(*rules, *config, *facts) {
            Ok(plan) => r matches Ok(found) && found.view() == plan,
            Err(failure) => r == Result::<LaunchPlan, ProviderFailure>::Err(failure),
        },
{
    let environment = resolve_provider_environment(
        rules,
        config,
        &facts.present,
        facts.system_root_present,
    )?;
    let cwd = resolve_provider_cwd(rules.platform, config, facts.cwd_is_dir)?;
    Ok(LaunchPlan { environment, cwd })
}

/// How far the creation of a provider process got.
#[derive(Debug, Clone, Copy, PartialEq, Eq, Structural)]
pub enum ProcessStart {
    Started,
    NotSpawned,
    NoStdio,
    NoReader,
}

/// Why a provider process cannot be used, if it cannot.
pub open spec fn start_failure(start: ProcessStart) -> Option<ProviderFailure> {
    match start {
        ProcessStart::Started => None,
        ProcessStart::NotSpawned => Some(rpc::failed_before_send("provider_spawn_failed")),
        ProcessStart::NoStdio => Some(rpc::failed_before_send("provider_stdio_unavailable")),
        ProcessStart::NoReader => Some(rpc::failed_before_send("provider_reader_unavailable")),
    }
}

/// Judges how far the creation of a provider process got.
pub fn check_process_start(start: ProcessStart) -> (r: Result<(), ProviderFailure>)
    ensures
        match start_failure(start) {
            None => r is Ok,
            Some(failure) => r == Result::<(), ProviderFailure>::Err(failure),
        },
{
    match start {
        ProcessStart::Started => Ok(()),
        ProcessStart::NotSpawned => Err(ProviderFailure::before_send("provider_spawn_failed")),
        ProcessStart::NoStdio => Err(ProviderFailure::before_send("provider_stdio_unavailable")),
        ProcessStart::NoReader => Err(ProviderFailure::before_send("provider_reader_unavailable")),
    }
}

/// The line that ends the handshake, or why it fails.
pub open spec fn handshake_verdict(
    initialized: Result<JsonView, ProviderFailure>,
    bounded: bool,
) -> Result<Seq<u8>, ProviderFailure> {
    match initialized {
        Err(failure) => Err(failure),
        Ok(result) => if !bounded || !tools::initialize_result_ok(result) {
            Err(rpc::failed_after_send("provider_initialize_invalid"))
        } else {
            exchange::message_line(
                exchange::notification_message(
                    "notifications/initialized"@,
                    JsonView::Object(Seq::empty()),
                ),
            )
        },
    }
}

/// Judges the outcome of `initialize` and returns the line that ends the handshake.
pub fn finish_handshake(initialized: Result<Json, ProviderFailure>, bounded: bool) -> (r: Result<
    Vec<u8>,
    ProviderFailure,
>)
    ensures
        match handshake_verdict(rpc::outcome_view(initialized), bounded) {
            Ok(line) => r matches Ok(found) && found@ == line,
            Err(failure) => r == Result::<Vec<u8>, ProviderFailure>::Err(failure),
        },
{
    let result = initialized?;
    validate_initialize_result(&result, bounded)?;
    notification_line("notifications/initialized", empty_params_value())
}

/// The failure of a start, or nothing where the provider is ready.
pub open spec fn spawn_failure(
    rules: RunnerRules,
    config: McpGatewayProviderConfig,
    facts: LaunchFacts,
    start: ProcessStart,
    client_version: Seq<char>,
    streams: StreamView,
    bounded: bool,
    notified: bool,
) -> Option<ProviderFailure> {
    match launch_verdict(rules, config, facts) {
        Err(failure) => Some(failure),
        Ok(_) => if start_failure(start) is Some {
            start_failure(start)
        } else {
            let initialized = exchange::request_outcome(
                1,
                "initialize"@,
                tools::initialize_params(client_version),
                streams,
            );
            match handshake_verdict(initialized, bounded) {
                Err(failure) => Some(failure),
                Ok(_) => if !notified {
                    Some(rpc::failed_before_send("provider_stdin_failed"))
                } else {
                    None
                },
            }
        },
    }
}

/// The lines that a start hands to the provider: `initialize`, and the line that ends the
/// handshake where it gets that far.
pub open spec fn spawn_lines(
    rules: RunnerRules,
    config: McpGatewayProviderConfig,
    facts: LaunchFacts,
    start: ProcessStart,
    client_version: Seq<char>,
    streams: StreamView,
    bounded: bool,
) -> Seq<Seq<u8>> {
    let params = tools::initialize_params(client_version);
    if launch_verdict(rules, config, facts) is Err || start_failure(start) is Some {
        Seq::empty()
    } else {
        exchange::request_lines(1, "initialize"@, params, streams) + match handshake_verdict(
            exchange::request_outcome(1, "initialize"@, params, streams),
            bounded,
        ) {
            Err(_) => Seq::empty(),
            Ok(line) => seq![line],
        }
    }
}

/// What a result of `tools/list` means once the shared bounds on tools are applied.
pub open spec fn listing_verdict(
    outcome: Result<JsonView, ProviderFailure>,
    bounded: bool,
    acceptable: bool,
) -> Result<Seq<ToolView>, ProviderFailure> {
    match outcome {
        Err(failure) => Err(failure),
        Ok(result) => match tools::tools_verdict(result, bounded) {
            Err(failure) => Err(failure),
            Ok(listed) => if acceptable {
                Ok(listed)
            } else {
                Err(rpc::failed_completed("invalid_provider_tools"))
            },
        },
    }
}

/// What a result of `tools/call` means once the shared bounds on results are applied.
pub open spec fn calling_verdict(
    outcome: Result<JsonView, ProviderFailure>,
    bounded: bool,
    acceptable: bool,
) -> Result<ToolResultView, ProviderFailure> {
    match outcome {
        Err(failure) => Err(failure),
        Ok(result) => match tools::call_verdict(result, bounded) {
            Err(failure) => Err(failure),
            Ok(called) => if acceptable {
                Ok(called)
            } else {
                Err(rpc::failed_completed("invalid_provider_result"))
            },
        },
    }
}

impl ProviderConnection {
    /// Starts a provider over what the host and the streams gave: the launch facts, how far the
    /// process got, what the streams gave around `initialize`, whether its result keeps the
    /// shared bounds, and whether the last line of the handshake could be written. `sent` gets the
    /// lines that are handed to the provider.
    pub fn spawn(
        rules: &RunnerRules,
        config: &McpGatewayProviderConfig,
        facts: &LaunchFacts,
        start: ProcessStart,
        client_version: &str,
        streams: StreamFacts,
        bounded: bool,
        notified: bool,
        sent: &mut Vec<Vec<u8>>,
    ) -> (r: Result<ProviderConnection, ProviderFailure>)
        requires
            facts.present@.len() == config.env_from_env@.len(),
        ensures
            match spawn_failure(
                *rules,
                *config,
                *facts,
                start,
                client_version@,
                streams.view(),
                bounded,
                notified,
            ) {
                None => r matches Ok(connection) && connection.next_id == 2,
                Some(failure) => r == Result::<ProviderConnection, ProviderFailure>::Err(failure),
            },
            exchange::lines_view(final(sent)@) == exchange::lines_view(old(sent)@) + spawn_lines(
                *rules,
                *config,
                *facts,
                start,
                client_version@,
                streams.view(),
                bounded,
            ),
    {
        let ghost before = exchange::lines_view(sent@);
        assert(before + Seq::<Seq<u8>>::empty() =~= before);
        plan_launch(rules, config, facts)?;
        check_process_start(start)?;
        let mut connection = ProviderConnection::opened();
        let initialized = connection.request(
            "initialize",
            initialize_params_value(client_version),
            streams,
            sent,
        );
        let ghost asked = exchange::lines_view(sent@);
        assert(asked + Seq::<Seq<u8>>::empty() =~= asked);
        let line = finish_handshake(initialized, bounded)?;
        let ghost last = line@;
        sent.push(line);
        assert(exchange::lines_view(sent@) =~= asked + seq![last]);
        if !notified {
            return Err(ProviderFailure::before_send("provider_stdin_failed"));
        }
        Ok(connection)
    }

    /// Lists the tools of a provider over what the streams gave. `bounded` and `acceptable` say
    /// whether the result and the tools keep the shared bounds. `sent` gets the line that is handed
    /// to the provider.
    pub fn tools_list(
        &mut self,
        streams: StreamFacts,
        bounded: bool,
        acceptable: bool,
        sent: &mut Vec<Vec<u8>>,
    ) -> (r: Result<Vec<McpGatewayTool>, ProviderFailure>)
        ensures
            tools::listed_view(r) == listing_verdict(
                exchange::request_outcome(
                    old(self).next_id,
                    "tools/list"@,
                    JsonView::Object(Seq::empty()),
                    streams.view(),
                ),
                bounded,
                acceptable,
            ),
            final(self).next_id == exchange::id_after_request(old(self).next_id, streams.view()),
            exchange::lines_view(final(sent)@) == exchange::lines_view(old(sent)@)
                + exchange::request_lines(
                old(self).next_id,
                "tools/list"@,
                JsonView::Object(Seq::empty()),
                streams.view(),
            ),
    {
        let result = self.request("tools/list", empty_params_value(), streams, sent)?;
        let listed = parse_tools_list(&result, bounded)?;
        accept_tools(listed, acceptable)
    }

    /// Calls a tool of a provider over what the streams gave. `bounded` and `acceptable` say
    /// whether the result keeps the shared bounds. `sent` gets the line that is handed to the
    /// provider.
    pub fn tools_call(
        &mut self,
        name: &str,
        arguments: serde_json::Value,
        streams: StreamFacts,
        bounded: bool,
        acceptable: bool,
        sent: &mut Vec<Vec<u8>>,
    ) -> (r: Result<McpGatewayToolResult, ProviderFailure>)
        ensures
            tools::called_view(r) == calling_verdict(
                exchange::request_outcome(
                    old(self).next_id,
                    "tools/call"@,
                    tools::call_params(name@, json::value_content(arguments)),
                    streams.view(),
                ),
                bounded,
                acceptable,
            ),
            final(self).next_id == exchange::id_after_request(old(self).next_id, streams.view()),
            exchange::lines_view(final(sent)@) == exchange::lines_view(old(sent)@)
                + exchange::request_lines(
                old(self).next_id,
                "tools/call"@,
                tools::call_params(name@, json::value_content(arguments)),
                streams.view(),
            ),
    {
        let params = call_params_value(name, arguments);
        let result = self.request("tools/call", params, streams, sent)?;
        let called = parse_call_result(&result, bounded)?;
        accept_call_result(called, acceptable)
    }
}

/// A provider gets no variable that is one of the runner's credentials, and none is filled from
/// one. The bootstrap variable is the only one that is not configured.
pub proof fn environment_holds_no_credentials(
    rules: RunnerRules,
    config: McpGatewayProviderConfig,
    present: Seq<bool>,
    system_root_present: bool,
)
    requires
        environment_verdict(rules, config, present, system_root_present) is Ok,
    ensures
        ({
            let environment = environment_verdict(rules, config, present, system_root_present)->Ok_0;
            let first = bootstrap_bindings(
                bootstrap_needed(rules.platform, config, system_root_present),
            ).len() as int;
            forall|i: int|
                first <= i < environment.len() ==> {
                    &&& !env_keys::sensitive(rules, (#[trigger] environment[i]).0)
                    &&& environment[i].1 matches EnvSourceView::Inherited(source)
                        ==> !env_keys::sensitive(rules, source)
                }
        }),
{
    let environment = environment_verdict(rules, config, present, system_root_present)->Ok_0;
    let first = bootstrap_bindings(
        bootstrap_needed(rules.platform, config, system_root_present),
    ).len() as int;
    assert forall|i: int| first <= i < environment.len() implies {
        &&& !env_keys::sensitive(rules, (#[trigger] environment[i]).0)
        &&& environment[i].1 matches EnvSourceView::Inherited(source) ==> !env_keys::sensitive(
            rules,
            source,
        )
    } by {
        let literals = config.env@.len() as int;
        if i < first + literals {
            assert(environment[i] == literal_bindings(config.env@)[i - first]);
            assert(!env_keys::sensitive(rules, config.env@[i - first].key@));
        } else {
            let at = i - first - literals;
            assert(environment[i] == inherited_bindings(config.env_from_env@)[at]);
            mapped_entries_are_clean(rules, config.env_from_env@, present, at);
        }
    }
}

proof fn mapped_entries_are_clean(
    rules: RunnerRules,
    env: Seq<TextEntry>,
    present: Seq<bool>,
    at: int,
)
    requires
        mapping_failure(rules, env, present) is None,
        0 <= at < env.len(),
    ensures
        !env_keys::sensitive(rules, env[at].key@),
        !env_keys::sensitive(rules, env[at].value@),
        present[at],
    decreases env.len(),
{
    if at < env.len() - 1 {
        mapped_entries_are_clean(rules, env.drop_last(), present, at);
    }
}

/// A provider is given exactly the environment that is configured: each variable with a value of
/// its own and each mapped variable, in their order, and before them the bootstrap variable on
/// Windows where the runner has it and nothing configured sets it. It is given none where a
/// credential is touched or a mapped variable is missing.
pub proof fn environments_hold_what_is_configured(
    rules: RunnerRules,
    config: McpGatewayProviderConfig,
    present: Seq<bool>,
    system_root_present: bool,
)
    requires
        present.len() == config.env_from_env@.len(),
    ensures
        environment_verdict(rules, config, present, system_root_present) is Ok <==> {
            &&& forall|i: int|
                0 <= i < config.env@.len() ==> !env_keys::sensitive(
                    rules,
                    (#[trigger] config.env@[i]).key@,
                )
            &&& forall|i: int|
                0 <= i < config.env_from_env@.len() ==> !env_keys::sensitive(
                    rules,
                    (#[trigger] config.env_from_env@[i]).key@,
                ) && !env_keys::sensitive(rules, config.env_from_env@[i].value@) && present[i]
        },
        environment_verdict(rules, config, present, system_root_present) matches Ok(environment)
            ==> {
            let literals = config.env@.len() as int;
            let mapped = config.env_from_env@.len() as int;
            let first = environment.len() - literals - mapped;
            &&& 0 <= first <= 1
            &&& first == 1 ==> rules.platform == Platform::Windows && system_root_present
                && environment[0] == ("SYSTEMROOT"@, EnvSourceView::Inherited("SYSTEMROOT"@))
            &&& rules.platform == Platform::Windows && system_root_present && first == 0 ==> (
            exists|i: int|
                0 <= i < literals && env_keys::same_env_key(
                    rules.platform,
                    (#[trigger] config.env@[i]).key@,
                    "SYSTEMROOT"@,
                )) || (exists|i: int|
                0 <= i < mapped && env_keys::same_env_key(
                    rules.platform,
                    (#[trigger] config.env_from_env@[i]).key@,
                    "SYSTEMROOT"@,
                ))
            &&& forall|i: int|
                0 <= i < literals ==> environment[first + i] == (
                    (#[trigger] config.env@[i]).key@,
                    EnvSourceView::Literal(config.env@[i].value@),
                )
            &&& forall|i: int|
                0 <= i < mapped ==> environment[first + literals + i] == (
                    (#[trigger] config.env_from_env@[i]).key@,
                    EnvSourceView::Inherited(config.env_from_env@[i].value@),
                )
        },
        environment_verdict(rules, config, present, system_root_present) matches Err(failure) ==> {
            &&& failure.dispatch_state == rpc::McpGatewayDispatchState::NotStarted
            &&& failure.code == "provider_env_forbidden" || failure.code == "provider_env_missing"
            &&& failure.code == "provider_env_missing" ==> exists|i: int|
                0 <= i < present.len() && !#[trigger] present[i]
        },
{
    mappings_are_resolved(rules, config.env_from_env@, present);
    if environment_verdict(rules, config, present, system_root_present) is Err
        && !literal_forbidden(rules, config.env@) {
        missing_variables_are_missing(rules, config.env_from_env@, present);
    }
}

proof fn mappings_are_resolved(rules: RunnerRules, env: Seq<TextEntry>, present: Seq<bool>)
    ensures
        mapping_failure(rules, env, present) is None <==> (forall|i: int|
            0 <= i < env.len() ==> !env_keys::sensitive(rules, (#[trigger] env[i]).key@)
                && !env_keys::sensitive(rules, env[i].value@) && present[i]),
    decreases env.len(),
{
    if env.len() > 0 {
        let less = env.drop_last();
        mappings_are_resolved(rules, less, present);
        if mapping_failure(rules, env, present) is None {
            assert forall|i: int| 0 <= i < env.len() implies !env_keys::sensitive(
                rules,
                (#[trigger] env[i]).key@,
            ) && !env_keys::sensitive(rules, env[i].value@) && present[i] by {
                if i < less.len() {
                    assert(less[i] == env[i]);
                }
            }
        } else if mapping_failure(rules, less, present) is Some {
            let i = choose|i: int|
                0 <= i < less.len() && !(!env_keys::sensitive(rules, (#[trigger] less[i]).key@)
                    && !env_keys::sensitive(rules, less[i].value@) && present[i]);
            assert(env[i] == less[i]);
        } else {
            let last = env[env.len() - 1];
        }
    }
}

proof fn missing_variables_are_missing(rules: RunnerRules, env: Seq<TextEntry>, present: Seq<bool>)
    requires
        mapping_failure(rules, env, present) is Some,
        env.len() <= present.len(),
    ensures
        ({
            let failure = mapping_failure(rules, env, present)->0;
            &&& failure.dispatch_state == rpc::McpGatewayDispatchState::NotStarted
            &&& failure.code == "provider_env_forbidden" || (failure.code == "provider_env_missing"
                && exists|i: int| 0 <= i < env.len() && !#[trigger] present[i])
        }),
    decreases env.len(),
{
    let less = env.drop_last();
    if mapping_failure(rules, less, present) is Some {
        missing_variables_are_missing(rules, less, present);
    } else if !present[env.len() - 1] {
        assert(!present[env.len() - 1]);
    }
}

/// A provider runs in the directory that is configured, and in none of its own where none is. A
/// directory is refused where its path is not absolute, is empty, over 4096 bytes or holds a NUL,
/// and where it is no directory.
pub proof fn directories_are_those_configured(
    platform: Platform,
    cwd: Option<Seq<char>>,
    is_dir: bool,
)
    ensures
        cwd_verdict(platform, cwd, is_dir) matches Ok(found) ==> found == cwd,
        cwd_verdict(platform, cwd, is_dir) is Ok <==> cwd is None || (is_dir && (cwd->0).len() > 0
            && crate::text::byte_len(cwd->0) <= 4096 && !(cwd->0).contains('\0')
            && crate::paths::absolute(platform, cwd->0)),
        cwd_verdict(platform, cwd, is_dir) matches Err(failure) ==> failure.dispatch_state
            == rpc::McpGatewayDispatchState::NotStarted && (failure.code
            == "provider_cwd_unavailable" || failure.code == "provider_cwd_invalid") && (failure.code
            == "provider_cwd_unavailable" ==> !is_dir),
{
}

/// A provider is ready exactly where its environment and its directory could be resolved, its
/// process started, its answer to `initialize` is accepted, and the end of the handshake could be
/// written. It fails for the first of these that does not hold.
pub proof fn providers_start_step_by_step(
    rules: RunnerRules,
    config: McpGatewayProviderConfig,
    facts: LaunchFacts,
    start: ProcessStart,
    client_version: Seq<char>,
    streams: StreamView,
    bounded: bool,
    notified: bool,
)
    ensures
        ({
            let environment = environment_verdict(
                rules,
                config,
                facts.present@,
                facts.system_root_present,
            );
            let cwd = cwd_verdict(rules.platform, config@.cwd, facts.cwd_is_dir);
            let initialized = exchange::request_outcome(
                1,
                "initialize"@,
                tools::initialize_params(client_version),
                streams,
            );
            let failure = spawn_failure(
                rules,
                config,
                facts,
                start,
                client_version,
                streams,
                bounded,
                notified,
            );
            let launched = environment is Ok && cwd is Ok && start == ProcessStart::Started;
            &&& environment is Err ==> failure == Some(environment->Err_0)
            &&& environment is Ok && cwd is Err ==> failure == Some(cwd->Err_0)
            &&& environment is Ok && cwd is Ok && start != ProcessStart::Started ==> failure is Some
                && (failure->0).code == match start {
                ProcessStart::NotSpawned => "provider_spawn_failed",
                ProcessStart::NoStdio => "provider_stdio_unavailable",
                _ => "provider_reader_unavailable",
            }
            &&& launched && initialized is Err ==> failure == Some(initialized->Err_0)
            &&& launched && initialized is Ok && !(bounded && tools::initialize_result_ok(
                initialized->Ok_0,
            )) ==> failure is Some && (failure->0).code == "provider_initialize_invalid"
            &&& failure is None ==> launched && initialized is Ok && bounded
                && tools::initialize_result_ok(initialized->Ok_0) && notified
            &&& launched && initialized is Ok && bounded && tools::initialize_result_ok(
                initialized->Ok_0,
            ) && notified && exchange::message_line(
                exchange::notification_message(
                    "notifications/initialized"@,
                    JsonView::Object(Seq::empty()),
                ),
            ) is Ok ==> failure is None
        }),
{
}

/// What a launch plan holds is what its environment and its directory were resolved to.
pub proof fn plans_hold_environment_and_directory(
    rules: RunnerRules,
    config: McpGatewayProviderConfig,
    facts: LaunchFacts,
)
    ensures
        launch_verdict(rules, config, facts) matches Ok(plan) ==> environment_verdict(
            rules,
            config,
            facts.present@,
            facts.system_root_present,
        ) == Ok::<Seq<(Seq<char>, EnvSourceView)>, ProviderFailure>(plan.environment)
            && cwd_verdict(rules.platform, config@.cwd, facts.cwd_is_dir) == Ok::<
            Option<Seq<char>>,
            ProviderFailure,
        >(plan.cwd),
{
}

/// The contents of an environment are those of its variables, one by one.
pub proof fn bindings_are_told_apart(bindings: Seq<EnvBinding>)
    ensures
        bindings_view(bindings).len() == bindings.len(),
        forall|i: int|
            0 <= i < bindings.len() ==> (#[trigger] bindings_view(bindings)[i]).0
                == bindings[i].destination@ && bindings_view(bindings)[i].1 == match bindings[i].source {
                EnvSource::Literal(value) => EnvSourceView::Literal(value@),
                EnvSource::Inherited(name) => EnvSourceView::Inherited(name@),
            },
{
}

/// An outcome that the provider gave passes through unless what it gave breaks the shared bounds:
/// a failure stays that failure, and a listing or a result stays what it reads as.
pub proof fn accepted_outcomes_pass_through(
    outcome: Result<JsonView, ProviderFailure>,
    bounded: bool,
    acceptable: bool,
)
    ensures
        outcome is Err ==> listing_verdict(outcome, bounded, acceptable) is Err && listing_verdict(
            outcome,
            bounded,
            acceptable,
        )->Err_0 == outcome->Err_0,
        outcome is Err ==> calling_verdict(outcome, bounded, acceptable) is Err && calling_verdict(
            outcome,
            bounded,
            acceptable,
        )->Err_0 == outcome->Err_0,
        outcome is Ok && acceptable ==> listing_verdict(outcome, bounded, acceptable)
            == tools::tools_verdict(outcome->Ok_0, bounded) && calling_verdict(
            outcome,
            bounded,
            acceptable,
        ) == tools::call_verdict(outcome->Ok_0, bounded),
        outcome is Ok && !acceptable ==> listing_verdict(outcome, bounded, acceptable) is Err
            && calling_verdict(outcome, bounded, acceptable) is Err,
{
}

/// A start hands over nothing where the process did not start, else the request to initialize, and
/// after it the end of the handshake exactly where the answer is accepted.
pub proof fn starts_hand_over_the_handshake(
    rules: RunnerRules,
    config: McpGatewayProviderConfig,
    facts: LaunchFacts,
    start: ProcessStart,
    client_version: Seq<char>,
    streams: StreamView,
    bounded: bool,
)
    ensures
        ({
            let lines = spawn_lines(
                rules,
                config,
                facts,
                start,
                client_version,
                streams,
                bounded,
            );
            let params = tools::initialize_params(client_version);
            let asked = exchange::request_lines(1, "initialize"@, params, streams);
            let outcome = exchange::request_outcome(1, "initialize"@, params, streams);
            let launched = launch_verdict(rules, config, facts) is Ok && start
                == ProcessStart::Started;
            let accepted = outcome is Ok && bounded && tools::initialize_result_ok(outcome->Ok_0);
            let last = exchange::message_line(
                exchange::notification_message(
                    "notifications/initialized"@,
                    JsonView::Object(Seq::empty()),
                ),
            );
            &&& !launched ==> lines.len() == 0
            &&& launched ==> lines.len() >= asked.len() && lines.take(asked.len() as int) == asked
            &&& launched && !accepted ==> lines == asked
            &&& launched && accepted && last is Ok ==> lines == asked.push(last->Ok_0)
        }),
{
    let params = tools::initialize_params(client_version);
    let asked = exchange::request_lines(1, "initialize"@, params, streams);
    let lines = spawn_lines(rules, config, facts, start, client_version, streams, bounded);
    if launch_verdict(rules, config, facts) is Ok && start == ProcessStart::Started {
        assert(lines.take(asked.len() as int) =~= asked);
        assert(lines.len() == asked.len() ==> lines =~= asked);
    }
}

} // verus!
