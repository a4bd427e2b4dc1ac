use webcodex_runner::config::{
    AcpAgentConfig, AcpConfig, ClaudeCodeMcpConfig, InstructionsConfig, McpGatewayConfig,
    McpGatewayProviderConfig, PluginConfig, QuicClientConfig, RunnerCapabilities, RunnerConfig,
    RunnerHostContext, RunnerPolicy, RunnerRules, ShellConfig, SkillsConfig, SshConfig,
    SshResourceConfig, SshResourceEntry, ToolProviderStrategy, ToolProvidersConfig, VettedText,
};
use webcodex_runner::entry::ProviderLifecycle;
use webcodex_runner::paths::Platform;
use webcodex_runner::reload::{
    HotRunnerConfig, PluginReply, ReloadNotice, ReloadReport, ReloadableRunnerConfig,
};
use webcodex_runner::reload_report::{
    config_candidate_error_response, config_not_started, reload_error_code,
    reload_error_diagnostic, restart_required_fields, sort_texts, RunnerConfigAction,
    RunnerConfigErrorCode, RunnerConfigErrorField, RunnerConfigErrorReason,
    RunnerConfigExecutionState, RunnerConfigReloadStatus,
};

fn rules() -> RunnerRules {
    RunnerRules {
        platform: Platform::Posix,
        sensitive_env_keys: vec![],
        mcp_gateway_max_providers: 16,
        plugin_max_providers: 16,
        coding_agent_max_providers: 16,
        coding_agent_max_provider_name_bytes: 128,
        coding_agent_max_config_key_bytes: 128,
        default_poll_interval_ms: 1000,
        default_max_timeout_secs: 600,
        default_max_output_bytes: 65536,
        default_tool_command: "tool-server".to_string(),
    }
}

fn some(text: &str) -> Option<String> {
    Some(text.to_string())
}

fn config() -> RunnerConfig {
    RunnerConfig {
        server_url: "http://127.0.0.1:8000".to_string(),
        token: "t".to_string(),
        client_id: "oe".to_string(),
        display_name: None,
        owner: None,
        hostname: None,
        host_context: None,
        project_registry_dir: some("/registry"),
        legacy_projects_dir: None,
        poll_interval_ms: 1000,
        capabilities: None,
        max_concurrent_jobs: None,
        policy: RunnerPolicy::with_defaults(&rules()),
        skills: SkillsConfig { roots: vec![] },
        instructions: InstructionsConfig { files: vec![] },
        transport: None,
        websocket_connect_timeout_secs: 5,
        quic: None,
        shell: ShellConfig::default(),
        ssh: SshConfig { resources: vec![] },
        tool_providers: ToolProvidersConfig {
            strategy: ToolProviderStrategy::Native,
            claude_code: ClaudeCodeMcpConfig::with_defaults(&rules()),
        },
        mcp_gateway: McpGatewayConfig::default(),
        plugins: PluginConfig::default(),
        acp: AcpConfig::default(),
    }
}

fn vetted(text: &str) -> VettedText {
    VettedText { text: text.to_string(), fault: None }
}

fn provider(id: &str, name: &str) -> McpGatewayProviderConfig {
    McpGatewayProviderConfig {
        id: vetted(id),
        name: vetted(name),
        executable: "/opt/bin/provider".to_string(),
        args: vec![],
        cwd: None,
        env: vec![],
        env_from_env: vec![],
        timeout_secs: None,
    }
}

fn status() -> RunnerConfigReloadStatus {
    RunnerConfigReloadStatus {
        generation: 1,
        last_reload_result: "startup".to_string(),
        last_reload_error_code: None,
        last_reload_error_field: None,
        last_reload_error_reason: None,
        restart_required: false,
        restart_required_fields: vec![],
    }
}

fn no_ssh() -> SshConfig {
    SshConfig { resources: vec![] }
}

fn started(startup: RunnerConfig, path: &str) -> ReloadableRunnerConfig {
    ReloadableRunnerConfig::new(Platform::Posix, startup, path.to_string(), no_ssh(), status())
}

fn runner() -> ReloadableRunnerConfig {
    started(config(), "/home/u/runner.toml")
}

fn result_of(report: &ReloadReport) -> &str {
    report.status.last_reload_result.as_str()
}

#[test]
fn runner_starts_with_the_first_generation() {
    let runner = runner();
    assert_eq!(runner.current.generation, 1);
    assert!(!runner.is_stopping());
    assert_eq!(runner.server_url(), "http://127.0.0.1:8000");
    assert_eq!(runner.client_id(), "oe");
    assert!(!runner.wants_coding_agents());
    assert_eq!(runner.current.reload_status().last_reload_result, "startup");

    let mut with_agent = config();
    with_agent.acp.agents.push(AcpAgentConfig {
        id: vetted("agent"),
        name: "Agent".to_string(),
        executable: "/opt/bin/agent".to_string(),
        args: vec![],
        env_from_env: vec![],
        allowed_config_options: vec![],
    });
    let runner = started(with_agent, "/r");
    assert!(runner.wants_coding_agents());
}

#[test]
fn successful_reload_activates_the_hot_sections() {
    let mut runner = runner();
    let mut candidate = config();
    candidate.skills.roots.push("/skills".to_string());
    candidate.policy.allow_raw_shell = !candidate.policy.allow_raw_shell;
    let merged = SshConfig {
        resources: vec![SshResourceEntry {
            name: "managed".to_string(),
            resource: SshResourceConfig { host: "h".to_string(), default_cwd: None },
        }],
    };
    let report = runner.reload_config(1, Ok(candidate), Ok(merged), PluginReply::Applied);
    assert_eq!(result_of(&report), "success");
    assert_eq!(report.response.valid, Some(true));
    assert_eq!(report.response.current_generation, Some(2));
    assert_eq!(report.response.execution_state, RunnerConfigExecutionState::Completed);
    assert!(!report.response.restart_required);
    assert!(!report.status_changed);
    assert!(matches!(
        &report.notice,
        Some(ReloadNotice::Activated { result }) if result == "success"
    ));
    assert_eq!(runner.current.generation, 2);
    assert_eq!(runner.current.skills.roots, vec!["/skills".to_string()]);
    assert_ne!(runner.current.policy.allow_raw_shell, runner.startup.policy.allow_raw_shell);
    assert!(runner.current.static_ssh.resources.is_empty());
    assert_eq!(runner.current.ssh.resources[0].name, "managed");
}

#[test]
fn restart_scoped_changes_make_a_partial_reload() {
    let mut runner = runner();
    let mut candidate = config();
    candidate.token = "other".to_string();
    candidate.client_id = "renamed".to_string();
    candidate.skills.roots.push("/skills".to_string());
    let report = runner.reload(Ok(candidate), Ok(no_ssh()), PluginReply::Applied);
    assert_eq!(result_of(&report), "partial");
    assert!(report.status.restart_required);
    assert_eq!(report.status.restart_required_fields, vec!["client_id", "token"]);
    assert_eq!(report.response.restart_required_fields, vec!["client_id", "token"]);
    assert_eq!(runner.startup.client_id, "oe");
    assert_eq!(runner.current.skills.roots, vec!["/skills".to_string()]);
}

#[test]
fn every_field_of_the_process_needs_a_restart() {
    let changes: Vec<(&str, Box<dyn Fn(&mut RunnerConfig)>)> = vec![
        (
            "capabilities",
            Box::new(|cfg: &mut RunnerConfig| {
                cfg.capabilities = Some(RunnerCapabilities { advertised: vec!["x".to_string()] })
            }),
        ),
        ("client_id", Box::new(|cfg: &mut RunnerConfig| cfg.client_id = "n".to_string())),
        ("display_name", Box::new(|cfg: &mut RunnerConfig| cfg.display_name = some("n"))),
        ("hostname", Box::new(|cfg: &mut RunnerConfig| cfg.hostname = some("n"))),
        (
            "host_context",
            Box::new(|cfg: &mut RunnerConfig| {
                cfg.host_context =
                    Some(RunnerHostContext { role: some("r"), runtime: None, service: None })
            }),
        ),
        ("max_concurrent_jobs", Box::new(|cfg: &mut RunnerConfig| cfg.max_concurrent_jobs = Some(2))),
        ("acp", Box::new(|cfg: &mut RunnerConfig| cfg.acp.max_concurrent_runs = 3)),
        ("owner", Box::new(|cfg: &mut RunnerConfig| cfg.owner = some("n"))),
        ("poll_interval_ms", Box::new(|cfg: &mut RunnerConfig| cfg.poll_interval_ms = 7)),
        (
            "project_registry_dir",
            Box::new(|cfg: &mut RunnerConfig| cfg.project_registry_dir = some("/n")),
        ),
        (
            "quic",
            Box::new(|cfg: &mut RunnerConfig| {
                cfg.quic = Some(QuicClientConfig {
                    server_addr: "h:1".to_string(),
                    server_name: "h".to_string(),
                    alpn: "a".to_string(),
                    connect_timeout_secs: 1,
                    keepalive_interval_secs: 1,
                })
            }),
        ),
        ("server_url", Box::new(|cfg: &mut RunnerConfig| cfg.server_url = "n".to_string())),
        ("token", Box::new(|cfg: &mut RunnerConfig| cfg.token = "n".to_string())),
        ("transport", Box::new(|cfg: &mut RunnerConfig| cfg.transport = some("auto"))),
        (
            "websocket_connect_timeout_secs",
            Box::new(|cfg: &mut RunnerConfig| cfg.websocket_connect_timeout_secs = 9),
        ),
    ];
    for (field, change) in &changes {
        let mut candidate = config();
        change(&mut candidate);
        assert_eq!(
            restart_required_fields(Platform::Posix, &config(), &candidate),
            vec![field.to_string()]
        );
    }
    let mut candidate = config();
    for (_, change) in &changes {
        change(&mut candidate);
    }
    let fields = restart_required_fields(Platform::Posix, &config(), &candidate);
    assert_eq!(fields.len(), changes.len());
    assert!(restart_required_fields(Platform::Posix, &config(), &config()).is_empty());
}

#[test]
fn reloadable_sections_need_no_restart() {
    let mut candidate = config();
    candidate.policy.allow_cwd_anywhere = !candidate.policy.allow_cwd_anywhere;
    candidate.skills.roots.push("/s".to_string());
    candidate.instructions.files.push("/i".to_string());
    candidate.shell.max_persistent_shells = 3;
    candidate.mcp_gateway.providers.push(provider("p", "P"));
    candidate.plugins.request_timeout_secs = 3;
    candidate.tool_providers.strategy = ToolProviderStrategy::ClaudeCode;
    assert!(restart_required_fields(Platform::Posix, &config(), &candidate).is_empty());
}

#[test]
fn another_spelling_of_the_registry_directory_needs_no_restart() {
    let at = |dir: &str| {
        let mut cfg = config();
        cfg.project_registry_dir = some(dir);
        cfg
    };
    let fields = |platform: Platform, a: &str, b: &str| {
        restart_required_fields(platform, &at(a), &at(b))
    };
    assert!(fields(Platform::Posix, "/srv/p", "/srv/p/").is_empty());
    assert!(fields(Platform::Posix, "/srv/p", "//srv/./p/.").is_empty());
    assert!(fields(Platform::Windows, r"C:\srv\p", "c:/srv/p/").is_empty());
    for (platform, a, b) in [
        (Platform::Posix, "/srv/p", "/srv/q"),
        (Platform::Posix, "/srv/p", "srv/p"),
        (Platform::Posix, "./a", "a"),
        (Platform::Windows, r"C:\srv\p", r"C:\srv\P"),
        (Platform::Windows, r"C:\srv\p", r"C:srv\p"),
    ] {
        assert_eq!(fields(platform, a, b), vec!["project_registry_dir".to_string()]);
    }
    let mut unset = config();
    unset.project_registry_dir = None;
    assert_eq!(restart_required_fields(Platform::Posix, &at("/srv/p"), &unset).len(), 1);
    assert!(restart_required_fields(Platform::Posix, &unset, &unset).is_empty());

    let mut runner = started(at("/srv/p"), "/r");
    let checked = runner.check_config(Ok(at("/srv/p/")), Ok(no_ssh()));
    assert_eq!(checked.valid, Some(true));
    assert!(!checked.restart_required);
    assert!(checked.restart_required_fields.is_empty());
    let report = runner.reload(Ok(at("/srv/p/")), Ok(no_ssh()), PluginReply::Applied);
    assert_eq!(result_of(&report), "success");
    assert!(!report.response.restart_required);
}

#[test]
fn failed_reload_keeps_the_active_configuration() {
    let mut runner = runner();
    let error = "skills.roots entries must be absolute paths without parent traversal";
    let report = runner.reload(Err(error.to_string()), Ok(no_ssh()), PluginReply::Applied);
    assert_eq!(result_of(&report), "failure");
    assert_eq!(report.response.valid, Some(false));
    assert_eq!(report.response.current_generation, Some(1));
    assert_eq!(
        report.response.error_code,
        Some(RunnerConfigErrorCode::ConfigValidationFailed)
    );
    assert_eq!(report.response.error_field, Some(RunnerConfigErrorField::SkillsRoots));
    assert_eq!(report.response.error_reason, Some(RunnerConfigErrorReason::InvalidPath));
    assert!(report.status_changed);
    assert!(matches!(
        report.notice,
        Some(ReloadNotice::Failed { code: RunnerConfigErrorCode::ConfigValidationFailed, .. })
    ));
    assert_eq!(runner.current.generation, 1);
    assert_eq!(runner.current.reload_status.last_reload_result, "failure");
    assert!(runner.current.skills.roots.is_empty());

    let collision = runner.reload(
        Ok(config()),
        Err("ssh resource 'x' is managed".to_string()),
        PluginReply::Applied,
    );
    assert_eq!(collision.response.valid, Some(false));
    assert_eq!(runner.current.generation, 1);
}

#[test]
fn failure_keeps_the_fields_that_wait_for_a_restart() {
    let mut runner = runner();
    let mut candidate = config();
    candidate.token = "other".to_string();
    runner.reload(Ok(candidate), Ok(no_ssh()), PluginReply::Applied);
    let report = runner.reload(Err("server_url cannot be empty".to_string()), Ok(no_ssh()), PluginReply::Applied);
    assert_eq!(result_of(&report), "failure");
    assert!(report.status.restart_required);
    assert_eq!(report.status.restart_required_fields, vec!["token"]);
    assert_eq!(report.status.generation, 2);
}

#[test]
fn generation_conflict_changes_nothing() {
    let mut runner = runner();
    let report = runner.reload_config(7, Ok(config()), Ok(no_ssh()), PluginReply::Applied);
    assert_eq!(report.response.execution_state, RunnerConfigExecutionState::NotStarted);
    assert_eq!(
        report.response.error_code,
        Some(RunnerConfigErrorCode::ConfigGenerationConflict)
    );
    assert_eq!(result_of(&report), "startup");
    assert!(report.notice.is_none());
    assert_eq!(runner.current.generation, 1);

    assert!(runner.reload_config(1, Ok(config()), Ok(no_ssh()), PluginReply::Applied).response.valid
        == Some(true));
    let second = runner.reload_config(1, Ok(config()), Ok(no_ssh()), PluginReply::Applied);
    assert_eq!(
        second.response.error_code,
        Some(RunnerConfigErrorCode::ConfigGenerationConflict)
    );
    assert_eq!(runner.current.generation, 2);
}

#[test]
fn stopping_runner_activates_nothing() {
    let mut runner = runner();
    assert!(runner.begin_shutdown());
    assert!(!runner.begin_shutdown());
    assert!(runner.is_stopping());
    let report = runner.reload(Ok(config()), Ok(no_ssh()), PluginReply::Applied);
    assert_eq!(report.response.error_code, Some(RunnerConfigErrorCode::RunnerUnavailable));
    assert_eq!(report.response.execution_state, RunnerConfigExecutionState::NotStarted);
    let checked = runner.check_config(Ok(config()), Ok(no_ssh()));
    assert_eq!(checked.error_code, Some(RunnerConfigErrorCode::RunnerUnavailable));
    assert_eq!(checked.action, RunnerConfigAction::Check);
}

#[test]
fn plugin_manager_may_keep_a_reload_from_starting() {
    for (reply, code) in [
        (PluginReply::ReloadBusy, RunnerConfigErrorCode::PluginReloadBusy),
        (PluginReply::ManagerStopping, RunnerConfigErrorCode::RunnerUnavailable),
        (PluginReply::ReloadStateFailed, RunnerConfigErrorCode::PluginReloadFailed),
    ] {
        let mut runner = runner();
        let report = runner.reload(Ok(config()), Ok(no_ssh()), reply);
        assert_eq!(report.response.execution_state, RunnerConfigExecutionState::NotStarted);
        assert_eq!(report.response.error_code, Some(code));
        assert_eq!(result_of(&report), "startup");
        assert_eq!(runner.current.generation, 1);
    }
    let mut runner = runner();
    let report = runner.reload(Ok(config()), Ok(no_ssh()), PluginReply::Rejected);
    assert_eq!(report.response.execution_state, RunnerConfigExecutionState::Completed);
    assert_eq!(report.response.valid, Some(false));
    assert_eq!(report.response.error_code, Some(RunnerConfigErrorCode::PluginReloadFailed));
    assert_eq!(result_of(&report), "failure");
    assert!(report.status_changed);
    assert_eq!(runner.current.generation, 1);
}

#[test]
fn reload_follows_the_providers_of_the_gateway() {
    let mut startup = config();
    startup.mcp_gateway.providers = vec![provider("kept", "Kept"), provider("gone", "Gone")];
    let mut runner =
        started(startup, "/r");
    let inventory = runner.mcp_gateway.provider_inventory();
    let kept = inventory[1].provider_instance_id.clone();
    let gone = inventory[0].provider_instance_id.clone();

    let mut candidate = config();
    candidate.mcp_gateway.request_timeout_secs = 45;
    candidate.mcp_gateway.providers = vec![provider("kept", "Kept"), provider("new", "New")];
    let report = runner.reload(Ok(candidate), Ok(no_ssh()), PluginReply::Applied);
    assert_eq!(report.retired.len(), 1);
    assert_eq!(report.retired[0].instance_id, gone);
    assert_eq!(runner.mcp_gateway.request_timeout_secs, 45);
    let after = runner.mcp_gateway.provider_inventory();
    let ids: Vec<&str> = after.iter().map(|item| item.provider_id.as_str()).collect();
    assert_eq!(ids, vec!["kept", "new"]);
    assert_eq!(after[0].provider_instance_id, kept);
    assert_eq!(runner.mcp_gateway.providers[1].lifecycle, ProviderLifecycle::NeverStarted);
}

#[test]
fn steps_of_a_reload_come_to_the_same() {
    let mut runner = runner();
    assert!(runner.begin_reload(Some(1)).is_ok());
    assert!(runner.begin_reload(Some(2)).is_err());
    let mut candidate = config();
    candidate.instructions.files.push("/i".to_string());
    let prepared = runner.prepare_reload(Ok(candidate), Ok(no_ssh())).unwrap();
    assert_eq!(runner.current.generation, 1);
    let retired = runner.commit_reload(prepared);
    let report = runner.report_activation(retired);
    assert_eq!(result_of(&report), "success");
    assert_eq!(runner.current.generation, 2);
    assert_eq!(runner.current.instructions.files, vec!["/i".to_string()]);

    assert!(runner.prepare_reload(Err("x".to_string()), Ok(no_ssh())).is_err());
    let refused = runner.report_plugin_refusal(PluginReply::ReloadBusy);
    assert_eq!(refused.response.error_code, Some(RunnerConfigErrorCode::PluginReloadBusy));
}

#[test]
fn check_foretells_the_reload() {
    let mut runner = runner();
    let mut candidate = config();
    candidate.owner = some("someone");
    candidate.display_name = some("Runner");
    let mut again = config();
    again.owner = some("someone");
    again.display_name = some("Runner");
    let checked = runner.check_config(Ok(candidate), Ok(no_ssh()));
    assert_eq!(checked.valid, Some(true));
    assert_eq!(checked.current_generation, Some(1));
    let report = runner.reload(Ok(again), Ok(no_ssh()), PluginReply::Applied);
    assert_eq!(checked.restart_required, report.response.restart_required);
    assert_eq!(checked.restart_required_fields, report.response.restart_required_fields);

    let error = "failed to read config /r: gone".to_string();
    let checked = runner.check_config(Err(error.clone()), Ok(no_ssh()));
    let report = runner.reload(Err(error), Ok(no_ssh()), PluginReply::Applied);
    assert_eq!(checked.error_code, Some(RunnerConfigErrorCode::ConfigReadFailed));
    assert_eq!(checked.error_code, report.response.error_code);
}

#[test]
fn active_configuration_comes_from_the_file_and_the_merged_resources() {
    let mut cfg = config();
    cfg.shell.max_persistent_shells = 5;
    let hot = HotRunnerConfig::new(4, &cfg, Ok(no_ssh()), status()).unwrap();
    assert_eq!(hot.generation, 4);
    assert_eq!(hot.shell.max_persistent_shells, 5);
    assert_eq!(
        HotRunnerConfig::new(4, &cfg, Err("collision".to_string()), status()).unwrap_err(),
        "collision"
    );
}

#[test]
fn error_texts_give_code_field_and_reason() {
    for (error, code) in [
        ("failed to read config /r: x", RunnerConfigErrorCode::ConfigReadFailed),
        ("failed to parse config /r: x", RunnerConfigErrorCode::ConfigParseFailed),
        (
            "tool_providers.claude_code.command cannot be empty",
            RunnerConfigErrorCode::ProviderConfigInvalid,
        ),
        ("client_id cannot be empty", RunnerConfigErrorCode::ConfigValidationFailed),
    ] {
        assert_eq!(reload_error_code(error), code);
        assert_eq!(reload_error_diagnostic(error), (None, None));
    }
    for (error, field) in [
        (
            "max_concurrent_jobs must be between 1 and 64",
            RunnerConfigErrorField::MaxConcurrentJobs,
        ),
        (
            "shell.max_persistent_shells must be between 1 and 64",
            RunnerConfigErrorField::ShellMaxPersistentShells,
        ),
        (
            "shell.persistent_shell_idle_timeout_secs must be between 1 and 86400",
            RunnerConfigErrorField::ShellPersistentShellIdleTimeoutSecs,
        ),
        (
            "acp.max_concurrent_runs must be between 1 and 8",
            RunnerConfigErrorField::AcpMaxConcurrentRuns,
        ),
        (
            "acp.permission_timeout_secs must be between 1 and 60",
            RunnerConfigErrorField::AcpPermissionTimeoutSecs,
        ),
        (
            "mcp.request_timeout_secs must be between 1 and 120",
            RunnerConfigErrorField::McpRequestTimeoutSecs,
        ),
    ] {
        assert_eq!(
            reload_error_diagnostic(error),
            (Some(field), Some(RunnerConfigErrorReason::OutOfRange))
        );
    }
}

#[test]
fn answers_of_refused_operations() {
    let response = config_candidate_error_response(
        RunnerConfigAction::Check,
        3,
        "acp.max_concurrent_runs must be between 1 and 8",
    );
    assert_eq!(response.valid, Some(false));
    assert_eq!(response.current_generation, Some(3));
    assert_eq!(response.error_field, Some(RunnerConfigErrorField::AcpMaxConcurrentRuns));
    let response = config_not_started(
        RunnerConfigAction::Reload,
        None,
        RunnerConfigErrorCode::RunnerUnavailable,
    );
    assert_eq!(response.valid, None);
    assert_eq!(response.execution_state, RunnerConfigExecutionState::NotStarted);
    assert_eq!(response.error_code, Some(RunnerConfigErrorCode::RunnerUnavailable));
}

#[test]
fn names_are_sorted_by_their_characters() {
    let names = |items: &[&str]| items.iter().map(|item| item.to_string()).collect::<Vec<_>>();
    assert_eq!(
        sort_texts(names(&["token", "acp", "owner", "acp_2", "acp"])),
        names(&["acp", "acp", "acp_2", "owner", "token"])
    );
    assert_eq!(sort_texts(names(&["é", "z", "Z"])), names(&["Z", "z", "é"]));
    assert!(sort_texts(vec![]).is_empty());
}
