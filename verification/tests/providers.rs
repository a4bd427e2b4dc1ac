use webcodex_runner::bridge::{
    accept_readiness, bundled_context_readiness, inject_bundled_context_bridge,
    inject_bundled_context_bridge_from_env, provider_path_entries, AssetFacts, BridgeEnvironment,
    BridgeFacts, BundledContextReadinessProbe, FileKind, ReadinessFacts,
};
use webcodex_runner::config::{
    AcpAgentConfig, AcpConfig, McpGatewayConfig, McpGatewayProviderConfig, PluginConfig,
    PluginProviderConfig, RunnerRules, ShellConfig, TextEntry, VettedText, ACP_MAX_ENV_MAPPINGS,
    BUNDLED_CONTEXT_BRIDGE_PROVIDER_ID, MCP_GATEWAY_MAX_CWD_BYTES, MCP_GATEWAY_MAX_ENV_MAPPINGS,
    MCP_GATEWAY_MAX_ENV_NAME_BYTES, MCP_GATEWAY_MAX_ENV_VALUE_BYTES, PLUGIN_MAX_COMMAND_BYTES,
};
use webcodex_runner::paths::Platform;
use webcodex_runner::providers::{
    validate_acp_config, validate_mcp_gateway_config, validate_plugin_config,
};

fn rules() -> RunnerRules {
    RunnerRules {
        platform: Platform::Posix,
        sensitive_env_keys: [
            "WEBCODEX_TOKEN",
            "WEBCODEX_PAT",
            "WEBCODEX_AGENT_TOKEN",
            "WEBCODEX_USER_TOKEN",
            "AUTHORIZATION",
        ]
        .iter()
        .map(|key| key.to_string())
        .collect(),
        mcp_gateway_max_providers: 16,
        plugin_max_providers: 16,
        coding_agent_max_providers: 16,
        coding_agent_max_provider_name_bytes: 128,
        coding_agent_max_config_key_bytes: 128,
        default_poll_interval_ms: 1000,
        default_max_timeout_secs: 600,
        default_max_output_bytes: 65536,
        default_tool_command: "tool-server".to_string(),
    }
}

fn windows_rules() -> RunnerRules {
    RunnerRules { platform: Platform::Windows, ..rules() }
}

fn vetted(text: &str) -> VettedText {
    VettedText { text: text.to_string(), fault: None }
}

fn entry(key: &str, value: &str) -> TextEntry {
    TextEntry { key: key.to_string(), value: value.to_string() }
}

fn agent() -> AcpAgentConfig {
    AcpAgentConfig {
        id: vetted("agent"),
        name: "Agent".to_string(),
        executable: "/opt/bin/agent".to_string(),
        args: Vec::new(),
        env_from_env: Vec::new(),
        allowed_config_options: Vec::new(),
    }
}

fn validate_agent(rules: &RunnerRules, agent: AcpAgentConfig) -> Result<(), String> {
    validate_acp_config(rules, &AcpConfig { agents: vec![agent], ..AcpConfig::default() })
}

fn plugin() -> PluginProviderConfig {
    PluginProviderConfig {
        id: vetted("provider"),
        name: vetted("Provider"),
        command: "node".to_string(),
        args: Vec::new(),
        cwd: None,
        profile: None,
        timeout_secs: None,
    }
}

fn validate_plugin(plugin: PluginProviderConfig) -> Result<(), String> {
    validate_plugin_config(
        &rules(),
        &PluginConfig { request_timeout_secs: 30, providers: vec![plugin] },
        &ShellConfig::default(),
    )
}

fn provider() -> McpGatewayProviderConfig {
    McpGatewayProviderConfig {
        id: vetted("provider"),
        name: vetted("Provider"),
        executable: "/opt/bin/provider".to_string(),
        args: Vec::new(),
        cwd: None,
        env: Vec::new(),
        env_from_env: Vec::new(),
        timeout_secs: None,
    }
}

fn validate(provider: McpGatewayProviderConfig) -> Result<(), String> {
    validate_mcp_gateway_config(
        &rules(),
        &McpGatewayConfig { request_timeout_secs: 30, providers: vec![provider] },
    )
}

fn asset(kind: FileKind, path: &str) -> AssetFacts {
    AssetFacts { kind: Some(kind), canonical: Some(path.to_string()) }
}

fn missing() -> AssetFacts {
    AssetFacts { kind: None, canonical: None }
}

fn no_environment() -> BridgeEnvironment {
    BridgeEnvironment { home: None, codex_home: None, tmpdir: None, tmp: None, temp: None }
}

fn bundled_bridge_facts() -> BridgeFacts {
    BridgeFacts {
        node: asset(FileKind::File, "/private/kit/node"),
        bridge_dir: asset(FileKind::Directory, "/private/kit/codex-context-bridge"),
        server: asset(FileKind::File, "/private/kit/codex-context-bridge/server.mjs"),
        codex: asset(FileKind::File, "/private/kit/codex"),
        search_path: Some("/private/kit:/usr/bin:/bin:/usr/sbin:/sbin".to_string()),
        environment: no_environment(),
    }
}

fn some(path: &str) -> Option<String> {
    Some(path.to_string())
}

fn value_of<'a>(env: &'a [TextEntry], key: &str) -> Option<&'a str> {
    env.iter().find(|entry| entry.key == key).map(|entry| entry.value.as_str())
}

#[test]
fn acp_env_mapping_rejects_webcodex_pat() {
    for (destination, source) in [("WEBCODEX_PAT", "SOURCE"), ("DEST", "WEBCODEX_PAT")] {
        let mut sensitive = agent();
        sensitive.env_from_env.push(entry(destination, source));
        assert!(validate_agent(&rules(), sensitive).unwrap_err().contains("WebCodex-sensitive"));
    }

    let mut mixed_case = agent();
    mixed_case.executable = "C:\\agents\\agent.exe".to_string();
    mixed_case.env_from_env.push(entry("DEST", "WebCodex_Pat"));
    assert!(validate_agent(&windows_rules(), mixed_case)
        .unwrap_err()
        .contains("WebCodex-sensitive"));
}

#[test]
fn acp_limits_are_checked_first() {
    let refused = |runs: usize, secs: u64| {
        validate_acp_config(
            &rules(),
            &AcpConfig { max_concurrent_runs: runs, permission_timeout_secs: secs, agents: vec![] },
        )
    };
    assert!(refused(1, 1).is_ok());
    assert!(refused(8, 60).is_ok());
    for runs in [0, 9] {
        assert_eq!(
            refused(runs, 5).unwrap_err(),
            "acp.max_concurrent_runs must be between 1 and 8"
        );
    }
    for secs in [0, 61] {
        assert_eq!(
            refused(1, secs).unwrap_err(),
            "acp.permission_timeout_secs must be between 1 and 60"
        );
    }
}

#[test]
fn acp_agents_are_bounded_and_distinct() {
    assert!(validate_agent(&rules(), agent()).is_ok());

    let mut unsafe_id = agent();
    unsafe_id.id.fault = Some("invalid id".to_string());
    assert!(validate_agent(&rules(), unsafe_id).is_err());

    let twice = AcpConfig { agents: vec![agent(), agent()], ..AcpConfig::default() };
    assert!(validate_acp_config(&rules(), &twice).is_err());

    let mut relative = agent();
    relative.executable = "agent".to_string();
    assert!(validate_agent(&rules(), relative).is_err());

    let mut crowded = agent();
    crowded.env_from_env = (0..=ACP_MAX_ENV_MAPPINGS)
        .map(|index| entry(&format!("DEST_{index}"), &format!("SOURCE_{index}")))
        .collect();
    assert!(validate_agent(&rules(), crowded).is_err());

    let mut many = AcpConfig::default();
    many.agents = (0..17)
        .map(|index| AcpAgentConfig { id: vetted(&format!("agent{index}")), ..agent() })
        .collect();
    assert_eq!(
        validate_acp_config(&rules(), &many).unwrap_err(),
        "acp.agents may contain at most 16 entries"
    );
}

#[test]
fn plugin_command_is_bounded() {
    let mut oversized = plugin();
    oversized.command = "x".repeat(PLUGIN_MAX_COMMAND_BYTES + 1);
    assert!(validate_plugin(oversized).unwrap_err().contains("at most 1024 bytes"));

    let mut largest = plugin();
    largest.command = "x".repeat(PLUGIN_MAX_COMMAND_BYTES);
    assert!(validate_plugin(largest).is_ok());
}

#[test]
fn plugin_profile_must_be_configured_and_cwd_absolute() {
    let mut unknown = plugin();
    unknown.profile = some("rust");
    assert_eq!(
        validate_plugin(unknown).unwrap_err(),
        "plugins provider 'provider' profile 'rust' is not configured in shell.profiles"
    );

    let mut relative = plugin();
    relative.cwd = some("work");
    assert_eq!(
        validate_plugin(relative).unwrap_err(),
        "plugins provider 'provider' cwd must be an absolute path of at most 4096 bytes"
    );

    let mut slow = plugin();
    slow.timeout_secs = Some(121);
    assert_eq!(
        validate_plugin(slow).unwrap_err(),
        "plugins provider 'provider' timeout_secs must be between 1 and 120"
    );
}

#[test]
fn bundled_context_bridge_is_injected_with_canonical_codex_reference() {
    let mut config = McpGatewayConfig::default();
    assert!(inject_bundled_context_bridge(
        &rules(),
        &mut config,
        &some("/kit/node"),
        &some("/kit/codex-context-bridge"),
        &some("/kit/codex"),
        &bundled_bridge_facts(),
    ));
    assert_eq!(config.providers.len(), 1);
    let provider = &config.providers[0];
    assert_eq!(provider.id.text, BUNDLED_CONTEXT_BRIDGE_PROVIDER_ID);
    assert_eq!(provider.name.text, "Bundled Codex Context Bridge");
    assert_eq!(provider.executable, "/private/kit/node");
    assert_eq!(provider.cwd.as_deref(), Some("/private/kit/codex-context-bridge"));
    assert_eq!(
        provider.args,
        vec!["/private/kit/codex-context-bridge/server.mjs".to_string()]
    );
    assert_eq!(value_of(&provider.env, "CODEX_BIN"), Some("/private/kit/codex"));
    assert!(value_of(&provider.env, "PATH").is_some_and(|value| value.contains("/private/kit")));
    assert!(provider.env_from_env.is_empty());
    assert_eq!(provider.timeout_secs, Some(30));
    validate_mcp_gateway_config(&rules(), &config).unwrap();
}

#[test]
fn bridge_environment_holds_the_variables_that_have_a_value() {
    let mut facts = bundled_bridge_facts();
    facts.environment = BridgeEnvironment {
        home: some("/home/u"),
        codex_home: some(""),
        tmpdir: some("/tmp"),
        tmp: None,
        temp: some("/var/tmp"),
    };
    let mut config = McpGatewayConfig::default();
    assert!(inject_bundled_context_bridge(
        &rules(),
        &mut config,
        &some("/kit/node"),
        &some("/kit/codex-context-bridge"),
        &some("/kit/codex"),
        &facts,
    ));
    let keys: Vec<&str> =
        config.providers[0].env.iter().map(|entry| entry.key.as_str()).collect();
    assert_eq!(keys, vec!["CODEX_BIN", "HOME", "PATH", "TEMP", "TMPDIR"]);
    assert_eq!(
        provider_path_entries(Platform::Posix, some("/kit")),
        vec!["/kit", "/usr/bin", "/bin", "/usr/sbin", "/sbin"]
    );
    assert_eq!(provider_path_entries(Platform::Windows, None), Vec::<String>::new());
}

#[test]
fn explicit_codex_context_provider_wins_over_bundled_default() {
    let mut explicit = provider();
    explicit.id = vetted(BUNDLED_CONTEXT_BRIDGE_PROVIDER_ID);
    explicit.name = vetted("Operator Codex Context");
    let mut config = McpGatewayConfig { request_timeout_secs: 30, providers: vec![explicit] };
    assert!(!inject_bundled_context_bridge(
        &rules(),
        &mut config,
        &some("/kit/node"),
        &some("/kit/codex-context-bridge"),
        &None,
        &bundled_bridge_facts(),
    ));
    assert_eq!(config.providers.len(), 1);
    assert_eq!(config.providers[0].name.text, "Operator Codex Context");
    assert_eq!(config.providers[0].executable, "/opt/bin/provider");

    assert!(!inject_bundled_context_bridge(
        &rules(),
        &mut config,
        &some("/kit/node"),
        &some("/kit/codex-context-bridge"),
        &some("/kit/codex"),
        &bundled_bridge_facts(),
    ));
    assert_eq!(config.providers.len(), 1);
}

#[test]
fn missing_or_partial_bundled_context_bridge_degrades_without_blocking_runner_config() {
    let mut partial = bundled_bridge_facts();
    partial.server = missing();
    partial.codex = missing();
    let mut config = McpGatewayConfig::default();
    assert!(!inject_bundled_context_bridge(
        &rules(),
        &mut config,
        &some("/kit/node"),
        &some("/kit/codex-context-bridge"),
        &some("/kit/missing-codex"),
        &partial,
    ));
    assert!(config.providers.is_empty());
    validate_mcp_gateway_config(&rules(), &config).unwrap();

    assert!(!inject_bundled_context_bridge(
        &rules(),
        &mut config,
        &some("relative-node"),
        &some("relative-bridge"),
        &some("relative-codex"),
        &bundled_bridge_facts(),
    ));
    assert!(config.providers.is_empty());
}

#[test]
fn bridge_comes_from_a_ready_probe_only() {
    let probe = |status: &str, version: &str, turns: u64| {
        Some(BundledContextReadinessProbe {
            status: status.to_string(),
            canonical_path: some("/kit/codex"),
            source_version: version.to_string(),
            native_model_turns: turns,
        })
    };
    let inject = |readiness: Option<BundledContextReadinessProbe>| {
        let mut config = McpGatewayConfig::default();
        inject_bundled_context_bridge_from_env(
            &rules(),
            &mut config,
            &some("/kit/node"),
            &some("/kit/codex-context-bridge"),
            &readiness,
            &bundled_bridge_facts(),
        )
    };
    assert!(inject(probe("ready", "1.2.3", 0)));
    assert!(!inject(None));
    assert!(!inject(probe("unavailable", "1.2.3", 0)));
    assert!(!inject(probe("ready", " ", 0)));
    assert!(!inject(probe("ready", "1.2.3", 1)));
}

#[test]
fn bundled_context_readiness_rejects_symlinked_bundle_assets_before_execution() {
    let facts = |node: AssetFacts, bridge_dir: AssetFacts| ReadinessFacts {
        node,
        bridge_dir,
        script: asset(FileKind::File, "/kit/bridge-real/readiness.mjs"),
        canonical_node_is_file: true,
        canonical_bridge_is_dir: true,
        canonical_script_is_file: true,
    };
    assert!(bundled_context_readiness(
        Platform::Posix,
        "/kit/node-link",
        "/kit/bridge-real",
        &facts(
            asset(FileKind::Symlink, "/kit/node-target"),
            asset(FileKind::Directory, "/kit/bridge-real"),
        ),
    )
    .is_none());
    assert!(bundled_context_readiness(
        Platform::Posix,
        "/kit/node-target",
        "/kit/bridge-link",
        &facts(
            asset(FileKind::File, "/kit/node-target"),
            asset(FileKind::Symlink, "/kit/bridge-real"),
        ),
    )
    .is_none());

    let command = bundled_context_readiness(
        Platform::Posix,
        "/kit/node-target",
        "/kit/bridge-real",
        &facts(
            asset(FileKind::File, "/kit/node-target"),
            asset(FileKind::Directory, "/kit/bridge-real"),
        ),
    )
    .unwrap();
    assert_eq!(command.program, "/kit/node-target");
    assert_eq!(
        command.args,
        vec!["/kit/bridge-real/readiness.mjs", "--json", "--timeout-ms", "3000"]
    );
    assert_eq!(
        command.variables,
        vec!["HOME", "PATH", "CODEX_BIN", "CODEX_HOME", "TMPDIR", "TMP", "TEMP"]
    );
}

#[test]
fn readiness_output_is_bounded() {
    let probe = || {
        Some(BundledContextReadinessProbe {
            status: "ready".to_string(),
            canonical_path: None,
            source_version: "1".to_string(),
            native_model_turns: 0,
        })
    };
    assert!(accept_readiness(true, 64 * 1024, probe()).is_some());
    assert!(accept_readiness(true, 64 * 1024 + 1, probe()).is_none());
    assert!(accept_readiness(false, 10, probe()).is_none());
    assert!(accept_readiness(true, 10, None).is_none());
}

#[test]
fn mcp_gateway_execution_context_accepts_explicit_cwd_and_env_mapping() {
    let mut provider = provider();
    provider.cwd = some("/home/u/work");
    provider.env_from_env = vec![entry("GITHUB_TOKEN", "GITHUB_TOKEN"), entry("HOME", "HOME")];
    validate(provider).unwrap();
}

#[test]
fn mcp_gateway_execution_context_rejects_invalid_cwd_and_env_bounds() {
    let mut relative = provider();
    relative.cwd = some("relative/provider-cwd");
    assert!(validate(relative).unwrap_err().contains("cwd must be an absolute path"));

    let mut nul_cwd = provider();
    nul_cwd.cwd = some("/home/u/work\0");
    assert!(validate(nul_cwd).unwrap_err().contains("cwd must be an absolute path"));

    let mut long_cwd = provider();
    long_cwd.cwd = Some(format!("/{}", "d".repeat(MCP_GATEWAY_MAX_CWD_BYTES)));
    assert!(validate(long_cwd).unwrap_err().contains("cwd must be an absolute path"));

    for (destination, source) in [
        ("", "SOURCE"),
        ("BAD=NAME", "SOURCE"),
        ("DEST", "BAD=SOURCE"),
        ("DEST", "BAD\0SOURCE"),
        ("DÉST", "SOURCE"),
        ("DEST", "SOURCÉ"),
    ] {
        let mut invalid = provider();
        invalid.env_from_env.push(entry(destination, source));
        assert!(validate(invalid).unwrap_err().contains("invalid environment variable name"));
    }

    let mut long_name = provider();
    long_name
        .env_from_env
        .push(entry(&"D".repeat(MCP_GATEWAY_MAX_ENV_NAME_BYTES + 1), "SOURCE"));
    assert!(validate(long_name).unwrap_err().contains("invalid environment variable name"));

    let mut long_value = provider();
    long_value.env.push(entry("DEST", &"v".repeat(MCP_GATEWAY_MAX_ENV_VALUE_BYTES + 1)));
    assert!(validate(long_value).is_err());

    let mut too_many = provider();
    too_many.env_from_env = (0..=MCP_GATEWAY_MAX_ENV_MAPPINGS)
        .map(|index| entry(&format!("DEST_{index}"), &format!("SOURCE_{index}")))
        .collect();
    assert!(validate(too_many)
        .unwrap_err()
        .contains("env plus env_from_env may contain at most"));
}

#[test]
fn mcp_gateway_execution_context_rejects_sensitive_and_platform_duplicate_names() {
    for (destination, source) in [
        ("WEBCODEX_TOKEN", "SOURCE"),
        ("WEBCODEX_PAT", "SOURCE"),
        ("DEST", "WEBCODEX_PAT"),
        ("DEST", "WEBCODEX_AGENT_TOKEN"),
        ("WEBCODEX_USER_TOKEN", "SOURCE"),
        ("DEST", "AUTHORIZATION"),
    ] {
        let mut sensitive = provider();
        sensitive.env_from_env.push(entry(destination, source));
        assert!(validate(sensitive).unwrap_err().contains("WebCodex-sensitive"));
    }

    let windows_provider = || McpGatewayProviderConfig {
        executable: "C:\\providers\\provider.exe".to_string(),
        ..provider()
    };
    let validate_on_windows = |provider: McpGatewayProviderConfig| {
        validate_mcp_gateway_config(
            &windows_rules(),
            &McpGatewayConfig { request_timeout_secs: 30, providers: vec![provider] },
        )
    };
    let mut mixed_case_pat = windows_provider();
    mixed_case_pat.env_from_env.push(entry("DEST", "WebCodex_Pat"));
    assert!(validate_on_windows(mixed_case_pat).unwrap_err().contains("WebCodex-sensitive"));

    let mut static_sensitive = provider();
    static_sensitive.env.push(entry("WEBCODEX_AGENT_TOKEN", "should-never-be-accepted"));
    assert!(validate(static_sensitive).unwrap_err().contains("WebCodex-sensitive"));

    let mut mixed_duplicate = provider();
    mixed_duplicate.env.push(entry("HTTP_PROXY", "http://proxy.invalid:8080"));
    mixed_duplicate.env_from_env.push(entry("HTTP_PROXY", "HTTP_PROXY"));
    assert!(validate(mixed_duplicate).unwrap_err().contains("conflicting destination names"));

    let case_pair = |mut pair: McpGatewayProviderConfig| {
        pair.env_from_env = vec![entry("PATH", "SOURCE_A"), entry("Path", "SOURCE_B")];
        pair
    };
    assert!(validate_on_windows(case_pair(windows_provider()))
        .unwrap_err()
        .contains("conflicting destination names"));
    validate(case_pair(provider())).unwrap();
}

#[test]
fn mcp_gateway_limits_are_checked_first() {
    for secs in [0, 121] {
        assert_eq!(
            validate_mcp_gateway_config(
                &rules(),
                &McpGatewayConfig { request_timeout_secs: secs, providers: vec![] },
            )
            .unwrap_err(),
            "mcp.request_timeout_secs must be between 1 and 120"
        );
    }
    let many = McpGatewayConfig {
        request_timeout_secs: 30,
        providers: (0..17)
            .map(|index| McpGatewayProviderConfig { id: vetted(&format!("p{index}")), ..provider() })
            .collect(),
    };
    assert_eq!(
        validate_mcp_gateway_config(&rules(), &many).unwrap_err(),
        "mcp.providers may contain at most 16 entries"
    );
}
