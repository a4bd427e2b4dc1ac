use webcodex_runner::bridge::{AssetFacts, BridgeEnvironment, BridgeFacts};
use webcodex_runner::config::{
    default_acp_max_concurrent_runs, default_acp_permission_timeout_secs,
    default_mcp_gateway_request_timeout_secs, default_plugin_request_timeout_secs,
    default_poll_interval_ms, default_quic_alpn, default_quic_connect_timeout_secs,
    default_quic_keepalive_interval_secs, default_websocket_connect_timeout_secs, AcpConfig,
    ClaudeCodeMcpConfig, InstructionsConfig, McpGatewayConfig, McpGatewayProviderConfig,
    PluginConfig, QuicClientConfig, RunnerConfig, RunnerHostContext, RunnerPolicy, RunnerRules,
    ShellConfig, ShellProfileConfig, ShellProfileEntry, SkillsConfig, SshConfig,
    SshResourceConfig, SshResourceEntry, TextEntry, ToolProviderStrategy, ToolProvidersConfig,
    VettedText, MAX_POLL_INTERVAL_MS, TRANSPORT_AUTO, TRANSPORT_POLLING, TRANSPORT_WEBSOCKET,
};
use webcodex_runner::load::{
    complete_config, effective_registry_dir, load_config, needs_readiness, LoadFacts,
};
use webcodex_runner::paths::Platform;
use webcodex_runner::reload_report::{
    reload_error_code, reload_error_diagnostic, restart_required_fields, RunnerConfigErrorCode,
    RunnerConfigErrorField, RunnerConfigErrorReason,
};
use webcodex_runner::toml_shape::validate_shell_profile_toml_shape;
use webcodex_runner::transport::{auto_transport_plan, effective_transport};
use webcodex_runner::validate::SshVerdict;

fn rules() -> RunnerRules {
    RunnerRules {
        platform: Platform::Posix,
        sensitive_env_keys: vec!["WEBCODEX_TOKEN".to_string()],
        mcp_gateway_max_providers: 16,
        plugin_max_providers: 16,
        coding_agent_max_providers: 16,
        coding_agent_max_provider_name_bytes: 128,
        coding_agent_max_config_key_bytes: 128,
        default_poll_interval_ms: 1000,
        default_max_timeout_secs: 600,
        default_max_output_bytes: 65536,
        default_tool_command: "tool-server".to_string(),
    }
}

// -------------------------------------------------------------------------------------------------
// A decoder of the sections that the tests write
// -------------------------------------------------------------------------------------------------
fn text(table: &toml::Table, key: &str) -> Result<Option<String>, String> {
    match table.get(key) {
        None => Ok(None),
        Some(toml::Value::String(value)) => Ok(Some(value.clone())),
        Some(_) => Err(format!("invalid type for `{key}`: expected a string")),
    }
}

fn required(table: &toml::Table, key: &str) -> Result<String, String> {
    text(table, key)?.ok_or_else(|| format!("missing field `{key}`"))
}

fn number(table: &toml::Table, key: &str) -> Result<Option<u64>, String> {
    match table.get(key) {
        None => Ok(None),
        Some(toml::Value::Integer(value)) if *value >= 0 => Ok(Some(*value as u64)),
        Some(_) => Err(format!("invalid type for `{key}`: expected an unsigned number")),
    }
}

fn flag(table: &toml::Table, key: &str) -> Result<Option<bool>, String> {
    match table.get(key) {
        None => Ok(None),
        Some(toml::Value::Boolean(value)) => Ok(Some(*value)),
        Some(_) => Err(format!("invalid type for `{key}`: expected a boolean")),
    }
}

fn list(table: &toml::Table, key: &str) -> Result<Option<Vec<String>>, String> {
    match table.get(key) {
        None => Ok(None),
        Some(toml::Value::Array(items)) => {
            let texts: Option<Vec<String>> =
                items.iter().map(|item| item.as_str().map(str::to_string)).collect();
            texts.map(Some).ok_or_else(|| format!("invalid type in `{key}`"))
        }
        Some(_) => Err(format!("invalid type for `{key}`: expected a sequence")),
    }
}

fn section(table: &toml::Table, key: &str) -> Result<toml::Table, String> {
    match table.get(key) {
        None => Ok(toml::Table::new()),
        Some(toml::Value::Table(found)) => Ok(found.clone()),
        Some(_) => Err(format!("invalid type for `{key}`: expected a table")),
    }
}

fn entries(table: &toml::Table, key: &str) -> Result<Vec<TextEntry>, String> {
    section(table, key)?
        .iter()
        .map(|(key, value)| match value {
            toml::Value::String(value) => {
                Ok(TextEntry { key: key.clone(), value: value.clone() })
            }
            _ => Err(format!("invalid type for `{key}`: expected a string")),
        })
        .collect()
}

fn host_context(root: &toml::Table) -> Result<Option<RunnerHostContext>, String> {
    if !root.contains_key("host_context") {
        return Ok(None);
    }
    let table = section(root, "host_context")?;
    if let Some(key) = table.keys().find(|key| !["role", "runtime", "service"].contains(&key.as_str()))
    {
        return Err(format!("unknown field `{key}`"));
    }
    Ok(Some(RunnerHostContext {
        role: text(&table, "role")?,
        runtime: text(&table, "runtime")?,
        service: text(&table, "service")?,
    }))
}

fn policy(root: &toml::Table) -> Result<RunnerPolicy, String> {
    let table = section(root, "policy")?;
    let defaults = RunnerPolicy::with_defaults(&rules());
    Ok(RunnerPolicy {
        allow_raw_shell: flag(&table, "allow_raw_shell")?.unwrap_or(defaults.allow_raw_shell),
        allow_cwd_anywhere: flag(&table, "allow_cwd_anywhere")?
            .unwrap_or(defaults.allow_cwd_anywhere),
        allowed_roots: list(&table, "allowed_roots")?.unwrap_or(defaults.allowed_roots),
        max_timeout_secs: defaults.max_timeout_secs,
        max_output_bytes: defaults.max_output_bytes,
    })
}

fn quic(root: &toml::Table) -> Result<Option<QuicClientConfig>, String> {
    if !root.contains_key("quic") {
        return Ok(None);
    }
    let table = section(root, "quic")?;
    Ok(Some(QuicClientConfig {
        server_addr: required(&table, "server_addr")?,
        server_name: required(&table, "server_name")?,
        alpn: text(&table, "alpn")?.unwrap_or_else(default_quic_alpn),
        connect_timeout_secs: number(&table, "connect_timeout_secs")?
            .unwrap_or_else(default_quic_connect_timeout_secs),
        keepalive_interval_secs: number(&table, "keepalive_interval_secs")?
            .unwrap_or_else(default_quic_keepalive_interval_secs),
    }))
}

fn shell(root: &toml::Table) -> Result<ShellConfig, String> {
    let table = section(root, "shell")?;
    let mut shell = ShellConfig::default();
    shell.default_profile = text(&table, "default_profile")?;
    for (name, value) in &section(&table, "profiles")? {
        let profile = value.as_table().ok_or("invalid type for a shell profile")?;
        shell.profiles.push(ShellProfileEntry {
            name: name.clone(),
            profile: ShellProfileConfig {
                description: text(profile, "description")?,
                program: text(profile, "program")?,
                args: list(profile, "args")?,
                dialect: None,
                env: entries(profile, "env")?,
                init_script: text(profile, "init_script")?,
            },
        });
    }
    Ok(shell)
}

fn ssh(root: &toml::Table) -> Result<SshConfig, String> {
    let mut resources = Vec::new();
    for (name, value) in &section(&section(root, "ssh")?, "resources")? {
        let table = value.as_table().ok_or("invalid type for an SSH resource")?;
        resources.push(SshResourceEntry {
            name: name.clone(),
            resource: SshResourceConfig {
                host: required(table, "host")?,
                default_cwd: text(table, "default_cwd")?,
            },
        });
    }
    Ok(SshConfig { resources })
}

fn vetted(text: String) -> VettedText {
    VettedText { text, fault: None }
}

fn mcp_gateway(root: &toml::Table) -> Result<McpGatewayConfig, String> {
    let table = section(root, "mcp")?;
    let mut providers = Vec::new();
    if let Some(toml::Value::Array(items)) = table.get("providers") {
        for item in items {
            let provider = item.as_table().ok_or("invalid type for a provider")?;
            providers.push(McpGatewayProviderConfig {
                id: vetted(required(provider, "id")?),
                name: vetted(required(provider, "name")?),
                executable: required(provider, "executable")?,
                args: list(provider, "args")?.unwrap_or_default(),
                cwd: text(provider, "cwd")?,
                env: entries(provider, "env")?,
                env_from_env: entries(provider, "env_from_env")?,
                timeout_secs: number(provider, "timeout_secs")?,
            });
        }
    }
    Ok(McpGatewayConfig {
        request_timeout_secs: number(&table, "request_timeout_secs")?
            .unwrap_or_else(default_mcp_gateway_request_timeout_secs),
        providers,
    })
}

fn tool_providers(root: &toml::Table) -> Result<ToolProvidersConfig, String> {
    let mut tool = ClaudeCodeMcpConfig::with_defaults(&rules());
    let table = section(&section(root, "tool_providers")?, "claude_code")?;
    tool.enabled = flag(&table, "enabled")?.unwrap_or(tool.enabled);
    tool.command = text(&table, "command")?.unwrap_or(tool.command);
    tool.timeout_secs = number(&table, "timeout_secs")?.unwrap_or(tool.timeout_secs);
    Ok(ToolProvidersConfig { strategy: ToolProviderStrategy::Native, claude_code: tool })
}

fn decode(content: &str) -> Result<RunnerConfig, String> {
    let root: toml::Table = toml::from_str(content).map_err(|error| error.to_string())?;
    Ok(RunnerConfig {
        server_url: required(&root, "server_url")?,
        token: required(&root, "token")?,
        client_id: required(&root, "client_id")?,
        display_name: text(&root, "display_name")?,
        owner: text(&root, "owner")?,
        hostname: text(&root, "hostname")?,
        host_context: host_context(&root)?,
        project_registry_dir: text(&root, "project_registry_dir")?,
        legacy_projects_dir: text(&root, "projects_dir")?,
        poll_interval_ms: number(&root, "poll_interval_ms")?
            .unwrap_or_else(|| default_poll_interval_ms(&rules())),
        capabilities: None,
        max_concurrent_jobs: number(&root, "max_concurrent_jobs")?.map(|value| value as usize),
        policy: policy(&root)?,
        skills: SkillsConfig { roots: list(&section(&root, "skills")?, "roots")?.unwrap_or_default() },
        instructions: InstructionsConfig {
            files: list(&section(&root, "instructions")?, "files")?.unwrap_or_default(),
        },
        transport: text(&root, "transport")?,
        websocket_connect_timeout_secs: number(&root, "websocket_connect_timeout_secs")?
            .unwrap_or_else(default_websocket_connect_timeout_secs),
        quic: quic(&root)?,
        shell: shell(&root)?,
        ssh: ssh(&root)?,
        tool_providers: tool_providers(&root)?,
        mcp_gateway: mcp_gateway(&root)?,
        plugins: PluginConfig {
            request_timeout_secs: default_plugin_request_timeout_secs(),
            providers: Vec::new(),
        },
        acp: AcpConfig {
            max_concurrent_runs: default_acp_max_concurrent_runs(),
            permission_timeout_secs: default_acp_permission_timeout_secs(),
            agents: Vec::new(),
        },
    })
}

fn trimmed(value: &Option<String>) -> Option<String> {
    value.as_deref().map(|value| value.trim().to_string())
}

fn no_asset() -> AssetFacts {
    AssetFacts { kind: None, canonical: None }
}

fn facts(decoded: &Result<RunnerConfig, String>) -> LoadFacts {
    let context = decoded.as_ref().ok().and_then(|cfg| cfg.host_context.as_ref());
    LoadFacts {
        host_context: match context {
            Some(context) => Ok(RunnerHostContext {
                role: trimmed(&context.role),
                runtime: trimmed(&context.runtime),
                service: trimmed(&context.service),
            }),
            None => Err("no host context".to_string()),
        },
        allowed_roots: Ok(vec!["/home/u/work".to_string()]),
        default_registry_dir: Ok("/home/u/.config/webcodex/project-registry".to_string()),
        ssh: match decoded {
            Ok(cfg) => cfg
                .ssh
                .resources
                .iter()
                .map(|entry| SshVerdict {
                    name_ok: !entry.name.is_empty(),
                    host: Some(entry.resource.host.trim().to_string()),
                    default_cwd: Some(trimmed(&entry.resource.default_cwd)),
                })
                .collect(),
            Err(_) => Vec::new(),
        },
        bridge_node: None,
        bridge_dir: None,
        readiness: None,
        bridge: BridgeFacts {
            node: no_asset(),
            bridge_dir: no_asset(),
            server: no_asset(),
            codex: no_asset(),
            search_path: None,
            environment: BridgeEnvironment {
                home: None,
                codex_home: None,
                tmpdir: None,
                tmp: None,
                temp: None,
            },
        },
    }
}

fn load(content: &str) -> Result<RunnerConfig, String> {
    let decoded = decode(content);
    let facts = facts(&decoded);
    load_config(&rules(), "/home/u/agent.toml", Ok(content.to_string()), decoded, facts)
}

fn value_of<'a>(env: &'a [TextEntry], key: &str) -> Option<&'a str> {
    env.iter().find(|entry| entry.key == key).map(|entry| entry.value.as_str())
}

fn profile<'a>(shell: &'a ShellConfig, name: &str) -> Option<&'a ShellProfileConfig> {
    shell.profiles.iter().find(|entry| entry.name == name).map(|entry| &entry.profile)
}

// -------------------------------------------------------------------------------------------------
// The readiness check
// -------------------------------------------------------------------------------------------------
fn provider_named(id: &str) -> McpGatewayProviderConfig {
    let vetted = |text: &str| VettedText { text: text.to_string(), fault: None };
    McpGatewayProviderConfig {
        id: vetted(id),
        name: vetted("Provider"),
        executable: "/opt/bin/provider".to_string(),
        args: vec![],
        cwd: None,
        env: vec![],
        env_from_env: vec![],
        timeout_secs: None,
    }
}

#[test]
fn readiness_is_checked_only_where_it_can_count() {
    let content = "server_url = \"http://127.0.0.1:8000\"\ntoken = \"t\"\nclient_id = \"oe\"\n";
    let needed = |change: &dyn Fn(&mut RunnerConfig, &mut LoadFacts)| {
        let mut cfg = decode(content).unwrap();
        let mut facts = facts(&Ok(decode(content).unwrap()));
        change(&mut cfg, &mut facts);
        needs_readiness(&rules(), &Ok(content.to_string()), &Ok(cfg), &facts)
    };
    assert!(needed(&|_, _| {}));
    assert!(needed(&|cfg, _| cfg.mcp_gateway.providers.push(provider_named("other"))));
    assert!(!needed(&|cfg, _| cfg.mcp_gateway.providers.push(provider_named("codex_context"))));
    assert!(!needed(&|cfg, _| {
        for i in 0..rules().mcp_gateway_max_providers {
            cfg.mcp_gateway.providers.push(provider_named(&format!("p{i}")));
        }
    }));
    assert!(!needed(&|cfg, _| cfg.client_id = " ".to_string()));
    assert!(!needed(&|cfg, _| cfg.max_concurrent_jobs = Some(0)));
    assert!(!needed(&|cfg, _| cfg.skills.roots.push("relative".to_string())));
    assert!(!needed(&|cfg, _| cfg.shell.program = String::new()));
    assert!(!needed(&|cfg, _| cfg.transport = Some("pigeon".to_string())));
    assert!(!needed(&|_, facts| facts.allowed_roots = Err("no roots".to_string())));
    assert!(!needed(&|_, facts| facts.default_registry_dir = Err("no home".to_string())));
    assert!(!needed(&|cfg, _| {
        cfg.project_registry_dir = Some("/a".to_string());
        cfg.legacy_projects_dir = Some("/b".to_string());
    }));
    assert!(!needed(&|cfg, facts| {
        cfg.ssh.resources.push(SshResourceEntry {
            name: "box".to_string(),
            resource: SshResourceConfig { host: "box".to_string(), default_cwd: None },
        });
        facts.ssh.push(SshVerdict { name_ok: true, host: None, default_cwd: Some(None) });
    }));

    let decoded = || Ok(decode(content).unwrap());
    let facts = facts(&decoded());
    let unread = Err("gone".to_string());
    assert!(!needs_readiness(&rules(), &unread, &decoded(), &facts));
    let misshaped = Ok("[shell.profiles.x]\nprogram = 1\n".to_string());
    assert!(validate_shell_profile_toml_shape(misshaped.as_ref().unwrap()).is_err());
    assert!(!needs_readiness(&rules(), &misshaped, &decoded(), &facts));
    let undecoded = Err("bad".to_string());
    assert!(!needs_readiness(&rules(), &Ok(content.to_string()), &undecoded, &facts));
}

// -------------------------------------------------------------------------------------------------
// The registry directory
// -------------------------------------------------------------------------------------------------
#[test]
fn runner_config_accepts_legacy_projects_dir_alias_and_normalizes_it() {
    let registry = "/home/u/projects.d";
    let cfg = load(&format!(
        "server_url = \"http://127.0.0.1:8000\"\ntoken = \"t\"\nclient_id = \"oe\"\nprojects_dir = {:?}\n[policy]\nallow_cwd_anywhere = true\n",
        registry
    ))
    .unwrap();
    assert_eq!(cfg.project_registry_dir.as_deref(), Some(registry));
    assert!(cfg.legacy_projects_dir.is_none());
}

#[test]
fn runner_config_alias_only_migration_does_not_require_restart() {
    let registry = "/home/u/projects.d";
    let render = |field: &str| {
        format!(
            "server_url = \"http://127.0.0.1:8000\"\ntoken = \"t\"\nclient_id = \"oe\"\n{field} = {:?}\n[policy]\nallow_cwd_anywhere = true\n",
            registry
        )
    };
    let legacy = load(&render("projects_dir")).unwrap();
    let canonical = load(&render("project_registry_dir")).unwrap();
    assert!(legacy.legacy_projects_dir.is_none());
    assert!(canonical.legacy_projects_dir.is_none());
    assert_eq!(legacy.project_registry_dir, canonical.project_registry_dir);
    assert!(restart_required_fields(Platform::Posix, &legacy, &canonical).is_empty());
}

#[test]
fn runner_config_rejects_new_and_legacy_registry_fields_together() {
    let error = load(&format!(
        "server_url = \"http://127.0.0.1:8000\"\ntoken = \"t\"\nclient_id = \"oe\"\nproject_registry_dir = {:?}\nprojects_dir = {:?}\n[policy]\nallow_cwd_anywhere = true\n",
        "/home/u/project-registry", "/home/u/projects.d"
    ))
    .unwrap_err();
    assert!(error.contains("cannot both be configured"), "{error}");
}

#[test]
fn effective_registry_directory_is_the_one_that_is_named() {
    let dir = |path: &str| Some(path.to_string());
    let default = || Ok("/default".to_string());
    assert_eq!(effective_registry_dir(dir("/a"), None, default()), Ok("/a".to_string()));
    assert_eq!(effective_registry_dir(None, dir("/b"), default()), Ok("/b".to_string()));
    assert_eq!(effective_registry_dir(None, None, default()), Ok("/default".to_string()));
    assert_eq!(
        effective_registry_dir(None, None, Err("no home".to_string())),
        Err("no home".to_string())
    );
    assert!(effective_registry_dir(dir("/a"), dir("/a"), default()).is_err());
}

// -------------------------------------------------------------------------------------------------
// The transport
// -------------------------------------------------------------------------------------------------
#[test]
fn runner_config_defaults_transport_to_websocket_without_quic_section() {
    let cfg = decode(
        r#"
server_url = "http://127.0.0.1:8000"
token = "t"
client_id = "oe"
"#,
    )
    .unwrap();
    assert!(cfg.transport.is_none());
    assert!(cfg.quic.is_none());
    assert_eq!(effective_transport(&cfg), TRANSPORT_WEBSOCKET);
    assert_eq!(cfg.websocket_connect_timeout_secs, default_websocket_connect_timeout_secs());
    assert_eq!(auto_transport_plan(&cfg), vec![TRANSPORT_WEBSOCKET, TRANSPORT_POLLING]);
    assert_eq!(cfg.mcp_gateway.request_timeout_secs, 30);
    assert!(cfg.mcp_gateway.providers.is_empty());
}

#[test]
fn runner_config_rejects_zero_websocket_connect_timeout() {
    let err = load(
        r#"
server_url = "http://127.0.0.1:8000"
token = "t"
client_id = "oe"
project_registry_dir = "project-registry"
websocket_connect_timeout_secs = 0
"#,
    )
    .unwrap_err();
    assert!(err.contains("websocket_connect_timeout_secs must be > 0"), "{err}");
}

#[test]
fn runner_config_bounds_polling_idle_floor_but_not_unused_websocket_value() {
    let render = |transport: &str, interval: u64| {
        format!(
            "server_url = \"http://127.0.0.1:8000\"\ntoken = \"t\"\nclient_id = \"oe\"\ntransport = \"{transport}\"\npoll_interval_ms = {interval}\nproject_registry_dir = \"project-registry\"\n[policy]\nallow_cwd_anywhere = true\n"
        )
    };
    for transport in [TRANSPORT_POLLING, TRANSPORT_AUTO] {
        let error = load(&render(transport, MAX_POLL_INTERVAL_MS + 1)).unwrap_err();
        assert!(error.contains("must be <= 30000"), "{transport}: {error}");
        load(&render(transport, MAX_POLL_INTERVAL_MS)).unwrap();
    }
    load(&render("websocket", MAX_POLL_INTERVAL_MS + 1)).unwrap();
}

#[test]
fn runner_config_ignores_obsolete_temporary_projects_root_without_runtime_semantics() {
    let cfg = load(
        r#"
server_url = "http://127.0.0.1:8000"
token = "t"
client_id = "oe"
project_registry_dir = "project-registry"
temporary_projects_root = "obsolete-and-relative"
[policy]
allow_cwd_anywhere = false
"#,
    )
    .unwrap();
    assert_eq!(cfg.client_id, "oe");
    assert!(!cfg.policy.allow_cwd_anywhere);
}

#[test]
fn runner_config_accepts_transport_quic_with_quic_section() {
    let content = r#"
server_url = "http://127.0.0.1:8000"
token = "t"
client_id = "oe"
transport = "quic"

[quic]
server_addr = "v4.example.test:8443"
server_name = "v4.example.test"
"#;
    let cfg = load(content).unwrap();
    assert_eq!(cfg.transport.as_deref(), Some("quic"));
    let quic = cfg.quic.expect("quic section");
    assert_eq!(quic.server_addr, "v4.example.test:8443");
    assert_eq!(quic.server_name, "v4.example.test");
    assert_eq!(quic.alpn, "webcodex-runner/1");
    assert_eq!(quic.connect_timeout_secs, 10);
    assert_eq!(quic.keepalive_interval_secs, 20);
}

#[test]
fn runner_config_accepts_transport_auto() {
    let cfg = decode(
        r#"
server_url = "http://127.0.0.1:8000"
token = "t"
client_id = "oe"
transport = "auto"
"#,
    )
    .unwrap();
    assert_eq!(cfg.transport.as_deref(), Some(TRANSPORT_AUTO));
    assert_eq!(effective_transport(&cfg), TRANSPORT_AUTO);
    assert_eq!(auto_transport_plan(&cfg), vec![TRANSPORT_WEBSOCKET, TRANSPORT_POLLING]);
}

#[test]
fn unknown_transport_and_quic_without_its_section_are_refused() {
    let render = |transport: &str| {
        format!(
            "server_url = \"http://127.0.0.1:8000\"\ntoken = \"t\"\nclient_id = \"oe\"\ntransport = \"{transport}\"\nproject_registry_dir = \"project-registry\"\n"
        )
    };
    assert_eq!(
        load(&render("carrier-pigeon")).unwrap_err(),
        "transport must be websocket, polling, quic, or auto"
    );
    assert_eq!(
        load(&render("quic")).unwrap_err(),
        "transport=quic requires a [quic] section in the Runner config"
    );
}

// -------------------------------------------------------------------------------------------------
// Identity and limits
// -------------------------------------------------------------------------------------------------
#[test]
fn empty_tokens_config_parser_accepts_empty_and_whitespace_token() {
    for token in ["", "   "] {
        let cfg = load(&format!(
            "server_url = \"http://127.0.0.1:8000\"\ntoken = \"{}\"\nclient_id = \"open-agent\"\nproject_registry_dir = \"project-registry\"\n[policy]\nallow_cwd_anywhere = true\nallowed_roots = [\".\"]\n",
            token
        ))
        .unwrap();
        assert_eq!(cfg.token, token);
    }
}

#[test]
fn blank_identity_and_zero_interval_are_refused() {
    let render = |server: &str, client: &str, interval: u64| {
        format!(
            "server_url = \"{server}\"\ntoken = \"t\"\nclient_id = \"{client}\"\npoll_interval_ms = {interval}\n"
        )
    };
    assert_eq!(load(&render(" ", "oe", 5)).unwrap_err(), "server_url cannot be empty");
    assert_eq!(load(&render("http://h", "", 5)).unwrap_err(), "client_id cannot be empty");
    assert_eq!(load(&render("http://h", "oe", 0)).unwrap_err(), "poll_interval_ms must be > 0");
}

#[test]
fn runner_config_rejects_max_concurrent_jobs_outside_valid_range() {
    for value in [0, 65] {
        let error = load(&format!(
            r#"server_url = "http://127.0.0.1:8000"
token = "t"
client_id = "oe"
project_registry_dir = "project-registry"
max_concurrent_jobs = {value}

[policy]
allow_cwd_anywhere = true
"#
        ))
        .unwrap_err();
        assert!(
            error.contains("max_concurrent_jobs must be between 1 and 64"),
            "configured={value}: {error}"
        );
        assert_eq!(
            reload_error_diagnostic(&error),
            (
                Some(RunnerConfigErrorField::MaxConcurrentJobs),
                Some(RunnerConfigErrorReason::OutOfRange)
            )
        );
    }
}

#[test]
fn refused_path_lists_are_recognised() {
    let render = |section: &str| {
        format!(
            "server_url = \"http://h\"\ntoken = \"t\"\nclient_id = \"oe\"\nproject_registry_dir = \"r\"\n{section}\n"
        )
    };
    let many = |name: &str| {
        let paths: Vec<String> = (0..17).map(|index| format!("\"/p/{index}\"")).collect();
        format!("{name} = [{}]", paths.join(", "))
    };
    for (section, field, reason) in [
        (
            format!("[skills]\n{}", many("roots")),
            RunnerConfigErrorField::SkillsRoots,
            RunnerConfigErrorReason::OutOfRange,
        ),
        (
            "[skills]\nroots = [\"relative\"]".to_string(),
            RunnerConfigErrorField::SkillsRoots,
            RunnerConfigErrorReason::InvalidPath,
        ),
        (
            "[skills]\nroots = [\"\"]".to_string(),
            RunnerConfigErrorField::SkillsRoots,
            RunnerConfigErrorReason::OutOfRange,
        ),
        (
            format!("[instructions]\n{}", many("files")),
            RunnerConfigErrorField::InstructionsFiles,
            RunnerConfigErrorReason::OutOfRange,
        ),
        (
            "[instructions]\nfiles = [\"/a/../b\"]".to_string(),
            RunnerConfigErrorField::InstructionsFiles,
            RunnerConfigErrorReason::InvalidPath,
        ),
        (
            "[instructions]\nfiles = [\"/a/b\", \"/a/b\"]".to_string(),
            RunnerConfigErrorField::InstructionsFiles,
            RunnerConfigErrorReason::InvalidPath,
        ),
    ] {
        let error = load(&render(&section)).unwrap_err();
        assert_eq!(reload_error_diagnostic(&error), (Some(field), Some(reason)), "{error}");
        assert_eq!(
            reload_error_code(&error),
            RunnerConfigErrorCode::ConfigValidationFailed,
            "{error}"
        );
    }
}

#[test]
fn runner_config_host_context_is_normalized_closed_and_restart_scoped() {
    let render = |role: &str| {
        format!(
            r#"
server_url = "http://127.0.0.1:8000"
token = "test-token"
client_id = "agent-1"
project_registry_dir = "project-registry"

[host_context]
role = "{role}"
runtime = " Prefer this Runner for Server-host operations. "
service = "Use the ordinary host-local service mechanism."

[policy]
allow_cwd_anywhere = true
allowed_roots = ["."]
"#
        )
    };
    let cfg = load(&render(" server_host ")).unwrap();
    let context = cfg.host_context.as_ref().expect("host context");
    assert_eq!(context.role.as_deref(), Some("server_host"));
    assert_eq!(
        context.runtime.as_deref(),
        Some("Prefer this Runner for Server-host operations.")
    );

    let other = load(&render("build_host")).unwrap();
    let fields = restart_required_fields(Platform::Posix, &cfg, &other);
    assert_eq!(fields, vec!["host_context".to_string()]);

    let err = load(
        r#"
server_url = "http://127.0.0.1:8000"
token = "test-token"
client_id = "agent-1"
project_registry_dir = "project-registry"
[host_context]
role = "server_host"
arbitrary = "not allowed"
[policy]
allow_cwd_anywhere = true
"#,
    )
    .unwrap_err();
    assert!(err.contains("failed to parse config"), "{err}");
    assert!(err.contains("arbitrary"), "{err}");
}

#[test]
fn refused_host_context_is_the_error() {
    let decoded = decode(
        "server_url = \"http://h\"\ntoken = \"t\"\nclient_id = \"oe\"\nproject_registry_dir = \"r\"\n[host_context]\nrole = \"x\"\n",
    );
    let mut refused = facts(&decoded);
    refused.host_context = Err("host_context.role is not known".to_string());
    assert_eq!(
        complete_config(&rules(), decoded.unwrap(), refused).unwrap_err(),
        "host_context.role is not known"
    );
}

#[test]
fn roots_come_from_the_host() {
    let decoded = decode(
        "server_url = \"http://h\"\ntoken = \"t\"\nclient_id = \"oe\"\nproject_registry_dir = \"r\"\n[policy]\nallowed_roots = [\".\"]\n",
    );
    let mut rooted = facts(&decoded);
    rooted.allowed_roots = Ok(vec!["/canonical/root".to_string()]);
    let loaded = complete_config(&rules(), decoded.unwrap(), rooted).unwrap();
    assert_eq!(loaded.policy.allowed_roots, vec!["/canonical/root".to_string()]);
}

// -------------------------------------------------------------------------------------------------
// The shell section
// -------------------------------------------------------------------------------------------------
#[test]
fn runner_config_without_shell_section_parses() {
    let cfg = load(
        r#"
server_url = "http://127.0.0.1:8000"
token = "test-token"
client_id = "agent-1"
project_registry_dir = "project-registry"

[policy]
allow_cwd_anywhere = true
allowed_roots = ["."]
"#,
    )
    .unwrap();
    assert_eq!(cfg.shell, ShellConfig::default());
    assert_eq!(cfg.shell.max_persistent_shells, 8);
    assert_eq!(cfg.shell.persistent_shell_idle_timeout_secs, 30 * 60);
}

#[test]
fn runner_config_loads_named_ssh_resources_without_authentication_material() {
    let cfg = load(
        r#"
server_url = "http://127.0.0.1:8000"
token = "test-token"
client_id = "agent-1"
project_registry_dir = "project-registry"

[policy]
allowed_roots = ["."]

[ssh.resources.tmp]
host = "tmp"
default_cwd = "/opt/webcodex-edge"

[ssh.resources.no_default]
host = "ops-alias"
"#,
    )
    .unwrap();
    let resource = |name: &str| {
        cfg.ssh.resources.iter().find(|entry| entry.name == name).map(|entry| &entry.resource)
    };
    let tmp = resource("tmp").unwrap();
    assert_eq!(tmp.host, "tmp");
    assert_eq!(tmp.default_cwd.as_deref(), Some("/opt/webcodex-edge"));
    assert_eq!(
        resource("no_default").and_then(|resource| resource.default_cwd.as_deref()),
        None
    );
}

#[test]
fn runner_config_shell_profiles_parse() {
    let cfg = load(
        r#"
server_url = "http://127.0.0.1:8000"
token = "test-token"
client_id = "agent-1"
project_registry_dir = "project-registry"

[policy]
allow_cwd_anywhere = true
allowed_roots = ["."]

[shell]
default_profile = "rust"

[shell.profiles.rust]
description = "Rust development tools"
program = "sh"
args = ["-c"]
init_script = '''
export RUST_BACKTRACE=1
'''

[shell.profiles.rust.env]
PATH = "/root/.cargo/bin:/usr/bin:/bin"
CARGO_HOME = "/root/.cargo"
RUSTUP_HOME = "/root/.rustup"

[shell.profiles.py-venv]
description = "Project-local Python virtual environment"
program = "bash"
args = ["-lc"]
init_script = '''
source .venv/bin/activate
'''
"#,
    )
    .unwrap();
    assert_eq!(cfg.shell.default_profile.as_deref(), Some("rust"));
    let rust = profile(&cfg.shell, "rust").unwrap();
    assert_eq!(rust.description.as_deref(), Some("Rust development tools"));
    assert_eq!(rust.program.as_deref(), Some("sh"));
    assert_eq!(rust.args.as_ref().unwrap(), &vec!["-c".to_string()]);
    assert_eq!(value_of(&rust.env, "CARGO_HOME"), Some("/root/.cargo"));
    assert!(rust.init_script.as_deref().unwrap().contains("RUST_BACKTRACE=1"));
    assert!(profile(&cfg.shell, "py-venv").is_some());
}

#[test]
fn runner_config_shell_default_profile_must_exist() {
    let err = load(
        r#"
server_url = "http://127.0.0.1:8000"
token = "test-token"
client_id = "agent-1"
project_registry_dir = "project-registry"

[policy]
allow_cwd_anywhere = true
allowed_roots = ["."]

[shell]
default_profile = "missing"

[shell.profiles.rust]
program = "sh"
"#,
    )
    .unwrap_err();
    assert!(err.contains("default_profile"), "{err}");
    assert!(err.contains("missing"), "{err}");
}

#[test]
fn runner_config_shell_profile_name_must_be_safe() {
    let err = load(
        r#"
server_url = "http://127.0.0.1:8000"
token = "test-token"
client_id = "agent-1"
project_registry_dir = "project-registry"

[policy]
allow_cwd_anywhere = true
allowed_roots = ["."]

[shell.profiles."bad/name"]
program = "sh"
"#,
    )
    .unwrap_err();
    assert!(err.contains("shell profile name"), "{err}");
    assert!(err.contains("slash"), "{err}");
}

#[test]
fn runner_config_shell_profile_type_errors_are_reported() {
    let err = load(
        r#"
server_url = "http://127.0.0.1:8000"
token = "test-token"
client_id = "agent-1"
project_registry_dir = "project-registry"

[policy]
allow_cwd_anywhere = true

[shell.profiles.rust]
args = "-c"
"#,
    )
    .unwrap_err();
    assert!(err.contains("failed to parse config"), "{err}");
    assert!(err.contains("args"), "{err}");
    assert!(err.contains("/home/u/agent.toml"), "{err}");
    assert_eq!(reload_error_code(&err), RunnerConfigErrorCode::ConfigParseFailed);
}

#[test]
fn runner_config_shell_profile_env_type_errors_are_reported() {
    let err = load(
        r#"
server_url = "http://127.0.0.1:8000"
token = "test-token"
client_id = "agent-1"
project_registry_dir = "project-registry"

[policy]
allow_cwd_anywhere = true

[shell.profiles.rust.env]
PATH = ["/root/.cargo/bin"]
"#,
    )
    .unwrap_err();
    assert!(err.contains("failed to parse config"), "{err}");
    assert!(err.contains("env"), "{err}");
}

#[test]
fn runner_config_shell_errors_do_not_include_init_script_body() {
    let secret = "DO_NOT_LEAK_THIS_INLINE_SCRIPT_BODY";
    let err = load(&format!(
        r#"
server_url = "http://127.0.0.1:8000"
token = "test-token"
client_id = "agent-1"
project_registry_dir = "project-registry"

[policy]
allow_cwd_anywhere = true
allowed_roots = ["."]

[shell]
default_profile = "missing"

[shell.profiles.rust]
init_script = '''
export SECRET={}
'''
"#,
        secret
    ))
    .unwrap_err();
    assert!(err.contains("default_profile"), "{err}");
    assert!(!err.contains(secret), "{err}");
}

#[test]
fn shape_of_the_shell_section_is_checked_in_the_text() {
    assert!(validate_shell_profile_toml_shape("a = 1\n").is_ok());
    assert!(validate_shell_profile_toml_shape("[shell]\nprogram = \"sh\"\n").is_ok());
    assert!(validate_shell_profile_toml_shape("shell = 3\n").is_err());
    assert!(validate_shell_profile_toml_shape("[shell]\nprofiles = 3\n").is_err());
    assert!(validate_shell_profile_toml_shape("[shell.profiles]\nrust = 3\n").is_err());
    assert!(validate_shell_profile_toml_shape("[shell.profiles.rust]\nargs = [1]\n").is_err());
    assert!(validate_shell_profile_toml_shape("[shell.profiles.rust]\nprogram = 1\n").is_err());
    assert!(validate_shell_profile_toml_shape("not toml at all [").is_err());
}

// -------------------------------------------------------------------------------------------------
// Providers
// -------------------------------------------------------------------------------------------------
#[test]
fn runner_config_accepts_static_literal_mcp_gateway_provider() {
    let cwd_value = "/home/u/work";
    let config = load(&format!(
        r#"
server_url = "http://127.0.0.1:8000"
token = "t"
client_id = "oe"
project_registry_dir = "project-registry"

[policy]
allowed_roots = ["."]

[mcp]
request_timeout_secs = 7

[[mcp.providers]]
id = "local-tools"
name = "Local tools"
executable = "/opt/bin/local-tools"
args = ["--stdio", "$HOME", "$(id)"]
cwd = {cwd_value:?}
env = {{ HTTP_PROXY = "http://proxy.invalid:8080" }}
env_from_env = {{ GITHUB_TOKEN = "GITHUB_TOKEN", HOME = "HOME" }}
timeout_secs = 5
"#
    ))
    .unwrap();
    assert_eq!(config.mcp_gateway.request_timeout_secs, 7);
    assert_eq!(config.mcp_gateway.providers.len(), 1);
    assert_eq!(config.mcp_gateway.providers[0].timeout_secs, Some(5));
    assert_eq!(config.mcp_gateway.providers[0].args, ["--stdio", "$HOME", "$(id)"]);
    assert_eq!(config.mcp_gateway.providers[0].cwd.as_deref(), Some(cwd_value));
    assert_eq!(
        value_of(&config.mcp_gateway.providers[0].env, "HTTP_PROXY"),
        Some("http://proxy.invalid:8080")
    );
    assert_eq!(
        value_of(&config.mcp_gateway.providers[0].env_from_env, "GITHUB_TOKEN"),
        Some("GITHUB_TOKEN")
    );
}

#[test]
fn runner_config_mcp_gateway_provider_timeout_defaults_to_gateway_timeout() {
    let config = load(
        r#"
server_url = "http://127.0.0.1:8000"
token = "t"
client_id = "oe"
project_registry_dir = "project-registry"

[policy]
allowed_roots = ["."]

[mcp]
request_timeout_secs = 11

[[mcp.providers]]
id = "inherits"
name = "Inherits"
executable = "/opt/bin/inherits"
"#,
    )
    .unwrap();
    assert_eq!(config.mcp_gateway.request_timeout_secs, 11);
    assert_eq!(config.mcp_gateway.providers[0].timeout_secs, None);
}

#[test]
fn runner_config_rejects_unsafe_or_ambiguous_mcp_gateway_identity() {
    let executable = "\"/opt/bin/provider\"";
    for (providers, expected) in [
        (
            r#"
[[mcp.providers]]
id = "local"
name = "Local"
executable = "relative-mcp"
"#
            .to_string(),
            "executable must be an absolute path",
        ),
        (
            format!(
                r#"
[[mcp.providers]]
id = "bad-timeout"
name = "Bad timeout"
executable = {executable}
timeout_secs = 121
"#
            ),
            "timeout_secs must be between 1 and 120",
        ),
        (
            format!(
                r#"
[[mcp.providers]]
id = "duplicate"
name = "First"
executable = {executable}

[[mcp.providers]]
id = "duplicate"
name = "Second"
executable = {executable}
"#
            ),
            "provider ids must be unique",
        ),
    ] {
        let error = load(&format!(
            r#"
server_url = "http://127.0.0.1:8000"
token = "t"
client_id = "oe"
project_registry_dir = "project-registry"

[policy]
allowed_roots = ["."]

[mcp]
request_timeout_secs = 30
{providers}
"#
        ))
        .unwrap_err();
        assert!(error.contains(expected), "{error}");
    }
}

#[test]
fn refused_tool_provider_is_a_provider_fault() {
    let render = |section: &str| {
        format!(
            "server_url = \"http://h\"\ntoken = \"t\"\nclient_id = \"oe\"\nproject_registry_dir = \"r\"\n[tool_providers.claude_code]\n{section}\n"
        )
    };
    for (section, expected) in [
        (
            "enabled = true\ncommand = \" \"",
            "tool_providers.claude_code.command cannot be empty",
        ),
        (
            "enabled = true\ncommand = \"tool\"\ntimeout_secs = 0",
            "tool_providers.claude_code.timeout_secs must be > 0",
        ),
    ] {
        let error = load(&render(section)).unwrap_err();
        assert_eq!(error, expected);
        assert_eq!(reload_error_code(&error), RunnerConfigErrorCode::ProviderConfigInvalid);
    }
    assert!(load(&render("enabled = false\ncommand = \"\"")).is_ok());
}

#[test]
fn unreadable_file_is_a_read_fault() {
    let decoded = decode("");
    let nothing = facts(&decoded);
    let error = load_config(
        &rules(),
        "/home/u/agent.toml",
        Err("permission denied".to_string()),
        decoded,
        nothing,
    )
    .unwrap_err();
    assert_eq!(error, "failed to read config /home/u/agent.toml: permission denied");
    assert_eq!(reload_error_code(&error), RunnerConfigErrorCode::ConfigReadFailed);
    assert_eq!(reload_error_diagnostic(&error), (None, None));
}
