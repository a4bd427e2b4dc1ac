use std::path::Path;
use webcodex_runner::cli::{
    default_config_path, default_location, default_project_registry_dir, hostname,
    parse_runner_args, BuildInfo, ConfigLocations, RunnerCliAction, RUNNER_USAGE,
};
use webcodex_runner::config::{
    default_acp_max_concurrent_runs, default_acp_permission_timeout_secs,
    default_max_output_bytes, default_max_persistent_shells, default_max_timeout_secs,
    default_mcp_gateway_request_timeout_secs, default_persistent_shell_idle_timeout_secs,
    default_plugin_request_timeout_secs, default_poll_interval_ms, default_quic_alpn,
    default_quic_connect_timeout_secs, default_quic_keepalive_interval_secs, default_shell_args,
    default_shell_program, default_true, default_websocket_connect_timeout_secs,
    default_windows_shell_program_for_path, dialect_for_program, max_concurrent_jobs,
    platform_default_dialect, project_registry_dir, AcpConfig, ClaudeCodeMcpConfig,
    InstructionsConfig, McpGatewayConfig, PluginConfig, QuicClientConfig, RunnerConfig,
    RunnerPolicy, RunnerRules, ShellConfig, ShellDialect, ShellProfileConfig, ShellProfileEntry,
    SkillsConfig, SshConfig, TextEntry, ToolProviderStrategy, ToolProvidersConfig,
    CLIENT_PROFILE_ERROR, DEFAULT_MAX_CONCURRENT_JOBS, POLLING_DISPATCH_MAX_IN_FLIGHT,
    TRANSPORT_AUTO, TRANSPORT_POLLING, TRANSPORT_QUIC, TRANSPORT_WEBSOCKET,
};
use webcodex_runner::paths::{
    configured_skill_root_identity, file_name, is_absolute, is_direct_parent, is_same_path,
    Platform,
};
use webcodex_runner::transport::{auto_transport_plan, effective_transport, resolve_quic_config};
use webcodex_runner::validate::{
    validate_client_profile, validate_env_key, validate_instructions_config,
    validate_max_concurrent_jobs, validate_quic_config, validate_shell_config,
    validate_shell_profile_config, validate_shell_profile_name, validate_skills_config,
};

fn rules() -> RunnerRules {
    RunnerRules {
        platform: Platform::Posix,
        sensitive_env_keys: vec!["WEBCODEX_TOKEN".to_string()],
        mcp_gateway_max_providers: 16,
        plugin_max_providers: 16,
        coding_agent_max_providers: 16,
        coding_agent_max_provider_name_bytes: 128,
        coding_agent_max_config_key_bytes: 128,
        default_poll_interval_ms: 1000,
        default_max_timeout_secs: 600,
        default_max_output_bytes: 65536,
        default_tool_command: "tool-server".to_string(),
    }
}

fn test_config(registry: &str) -> RunnerConfig {
    RunnerConfig {
        server_url: "http://127.0.0.1:8000".to_string(),
        token: "t".to_string(),
        client_id: "oe".to_string(),
        display_name: None,
        owner: None,
        hostname: None,
        host_context: None,
        project_registry_dir: Some(registry.to_string()),
        legacy_projects_dir: None,
        poll_interval_ms: 1000,
        capabilities: None,
        max_concurrent_jobs: None,
        policy: RunnerPolicy::with_defaults(&rules()),
        skills: SkillsConfig { roots: vec![] },
        instructions: InstructionsConfig { files: vec![] },
        transport: None,
        websocket_connect_timeout_secs: 5,
        quic: None,
        shell: ShellConfig::default(),
        ssh: SshConfig { resources: vec![] },
        tool_providers: ToolProvidersConfig {
            strategy: ToolProviderStrategy::Native,
            claude_code: ClaudeCodeMcpConfig::with_defaults(&rules()),
        },
        mcp_gateway: McpGatewayConfig::default(),
        plugins: PluginConfig::default(),
        acp: AcpConfig::default(),
    }
}

fn quic_client_config() -> QuicClientConfig {
    QuicClientConfig {
        server_addr: "v4.example.test:8443".to_string(),
        server_name: "v4.example.test".to_string(),
        alpn: default_quic_alpn(),
        connect_timeout_secs: 10,
        keepalive_interval_secs: 20,
    }
}

fn args(items: &[&str]) -> Vec<String> {
    items.iter().map(|item| item.to_string()).collect()
}

fn build() -> BuildInfo {
    BuildInfo {
        version: "0.1.0".to_string(),
        commit: "abc1234".to_string(),
    }
}

fn locations() -> ConfigLocations {
    ConfigLocations {
        profile: Ok("/home/u/.config/webcodex/clients/special/runner.toml".to_string()),
        default: Ok("/home/u/.config/webcodex/runner.toml".to_string()),
    }
}

fn parse(items: &[&str]) -> Result<RunnerCliAction, String> {
    parse_runner_args(&args(items), &build(), locations())
}

#[test]
fn auto_transport_plan_tries_quic_then_websocket_then_polling() {
    let mut cfg = test_config("/tmp/x");
    cfg.transport = Some(TRANSPORT_AUTO.to_string());
    cfg.quic = Some(quic_client_config());
    assert_eq!(
        auto_transport_plan(&cfg),
        vec![TRANSPORT_QUIC, TRANSPORT_WEBSOCKET, TRANSPORT_POLLING]
    );
}

#[test]
fn auto_transport_plan_without_quic_section_skips_quic() {
    let mut cfg = test_config("/tmp/x");
    cfg.transport = Some(TRANSPORT_AUTO.to_string());
    assert_eq!(effective_transport(&cfg), TRANSPORT_AUTO);
    assert_eq!(
        auto_transport_plan(&cfg),
        vec![TRANSPORT_WEBSOCKET, TRANSPORT_POLLING]
    );
}

#[test]
fn strict_quic_transport_still_requires_quic_section() {
    let mut cfg = test_config("/tmp/x");
    cfg.transport = Some(TRANSPORT_QUIC.to_string());
    let err = resolve_quic_config(&cfg).unwrap_err();
    assert!(err.contains("transport=quic requires a [quic] section"));
    assert_eq!(effective_transport(&cfg), TRANSPORT_QUIC);
}

#[test]
fn resolve_quic_config_errors_when_section_missing() {
    let mut cfg = test_config("/tmp/x");
    cfg.transport = Some("quic".to_string());
    let err = resolve_quic_config(&cfg).unwrap_err();
    assert!(err.contains("[quic]"), "err was: {err}");
}

#[test]
fn resolve_quic_config_errors_when_server_addr_or_name_missing() {
    let mut cfg = test_config("/tmp/x");
    cfg.transport = Some("quic".to_string());

    cfg.quic = Some(QuicClientConfig {
        server_addr: "  ".to_string(),
        server_name: "v4.example.test".to_string(),
        alpn: default_quic_alpn(),
        connect_timeout_secs: 10,
        keepalive_interval_secs: 20,
    });
    let err = resolve_quic_config(&cfg).unwrap_err();
    assert!(err.contains("server_addr"), "err was: {err}");

    cfg.quic = Some(QuicClientConfig {
        server_addr: "v4.example.test:8443".to_string(),
        server_name: String::new(),
        alpn: default_quic_alpn(),
        connect_timeout_secs: 10,
        keepalive_interval_secs: 20,
    });
    let err = resolve_quic_config(&cfg).unwrap_err();
    assert!(err.contains("server_name"), "err was: {err}");
}

#[test]
fn resolve_quic_config_rejects_keepalive_outside_supported_range() {
    let mut cfg = test_config("/tmp/x");
    cfg.transport = Some(TRANSPORT_QUIC.to_string());

    let mut zero = quic_client_config();
    zero.keepalive_interval_secs = 0;
    cfg.quic = Some(zero);
    assert_eq!(
        resolve_quic_config(&cfg).unwrap_err(),
        "[quic] keepalive_interval_secs must be > 0"
    );

    let mut oversized = quic_client_config();
    oversized.keepalive_interval_secs = 26;
    cfg.quic = Some(oversized);
    assert_eq!(
        resolve_quic_config(&cfg).unwrap_err(),
        "[quic] keepalive_interval_secs must be <= 25"
    );

    let mut upper_bound = quic_client_config();
    upper_bound.keepalive_interval_secs = 25;
    cfg.quic = Some(upper_bound);
    assert_eq!(
        resolve_quic_config(&cfg).unwrap().keepalive_interval_secs,
        25
    );
}

#[test]
fn resolve_quic_config_accepts_valid_section() {
    let mut cfg = test_config("/tmp/x");
    cfg.transport = Some("quic".to_string());
    cfg.quic = Some(quic_client_config());
    let resolved = resolve_quic_config(&cfg).unwrap();
    assert_eq!(resolved.server_addr, "v4.example.test:8443");
    assert_eq!(resolved.server_name, "v4.example.test");
}

#[test]
fn quic_section_names_each_missing_part() {
    let mut quic = quic_client_config();
    quic.alpn = " ".to_string();
    assert_eq!(
        validate_quic_config(&quic).unwrap_err(),
        "[quic] alpn cannot be empty"
    );
    let mut quic = quic_client_config();
    quic.connect_timeout_secs = 0;
    assert_eq!(
        validate_quic_config(&quic).unwrap_err(),
        "[quic] connect_timeout_secs must be > 0"
    );
}

#[test]
fn runner_cli_help_and_version_exit_before_runtime() {
    match parse(&["--help"]).unwrap() {
        RunnerCliAction::Exit {
            code,
            stdout,
            stderr,
        } => {
            assert_eq!(code, 0);
            assert!(stdout.contains("Usage: webcodex-runner"));
            assert!(!stdout.contains("webcodex-runner init"));
            assert!(stderr.is_empty());
        }
        other => panic!("expected help exit, got {other:?}"),
    }
    match parse(&["--version"]).unwrap() {
        RunnerCliAction::Exit {
            code,
            stdout,
            stderr,
        } => {
            assert_eq!(code, 0);
            assert!(stdout.starts_with(&format!("webcodex-runner {} (commit ", build().version)));
            assert!(stdout.trim_end().ends_with(')'));
            assert_ne!(stdout, format!("webcodex-runner {}\n", build().version));
            assert!(stderr.is_empty());
        }
        other => panic!("expected version exit, got {other:?}"),
    }
}

#[test]
fn runner_cli_has_no_init_alias() {
    let error = parse(&["init"]).unwrap_err();
    assert!(error.contains("unknown argument: init"));
}

#[test]
fn runner_version_output_includes_build_metadata() {
    match parse(&["-V"]).unwrap() {
        RunnerCliAction::Exit {
            code,
            stdout,
            stderr,
        } => {
            assert_eq!(code, 0);
            assert!(stdout.contains("commit "));
            assert!(stdout.starts_with("webcodex-runner "));
            assert!(stderr.is_empty());
        }
        other => panic!("expected version exit, got {other:?}"),
    }
}

#[test]
fn runner_cli_legacy_runtime_args_are_preserved() {
    let action = parse(&["--config", "/tmp/agent.toml", "--once"]).unwrap();
    assert_eq!(
        action,
        RunnerCliAction::Run {
            config_path: "/tmp/agent.toml".to_string(),
            once: true,
            stop_on_stdin_eof: false,
        }
    );
}

#[test]
fn runner_parent_liveness_is_explicit_opt_in() {
    let action = parse(&["--config", "/tmp/runner.toml", "--stop-on-stdin-eof"]).unwrap();
    assert_eq!(
        action,
        RunnerCliAction::Run {
            config_path: "/tmp/runner.toml".to_string(),
            once: false,
            stop_on_stdin_eof: true,
        }
    );
}

#[test]
fn runner_cli_config_env_prefers_runner_name_and_keeps_legacy_alias_fail_closed() {
    let run = |runner: Option<&str>, agent: Option<&str>, items: &[&str]| {
        let default = default_location(
            runner.map(str::to_string),
            agent.map(str::to_string),
            Ok("/home/u/.config/webcodex/runner.toml".to_string()),
        );
        parse_runner_args(
            &args(items),
            &build(),
            ConfigLocations {
                profile: Ok("/clients/special/runner.toml".to_string()),
                default,
            },
        )
    };
    let at = |path: &str| RunnerCliAction::Run {
        config_path: path.to_string(),
        once: false,
        stop_on_stdin_eof: false,
    };
    assert_eq!(
        run(Some("/tmp/runner.toml"), None, &[]).unwrap(),
        at("/tmp/runner.toml")
    );
    assert_eq!(
        run(None, Some("/tmp/agent.toml"), &[]).unwrap(),
        at("/tmp/agent.toml")
    );
    let error = run(Some("/tmp/runner.toml"), Some("/tmp/agent.toml"), &[]).unwrap_err();
    assert!(error.contains("cannot both be set"));
    assert_eq!(
        run(
            Some("/tmp/runner.toml"),
            Some("/tmp/agent.toml"),
            &["--config", "/tmp/explicit.toml"]
        )
        .unwrap(),
        at("/tmp/explicit.toml"),
        "an explicit --config path must not be blocked by conflicting default-path env aliases"
    );
    assert_eq!(
        run(
            Some("/tmp/runner.toml"),
            Some("/tmp/agent.toml"),
            &["--profile", "special"]
        )
        .unwrap(),
        at("/clients/special/runner.toml"),
        "an explicit profile must not be blocked by conflicting default-path env aliases"
    );
}

#[test]
fn runner_cli_profile_derives_default_config_path() {
    let action = parse(&["--profile", "special"]).unwrap();
    assert_eq!(
        action,
        RunnerCliAction::Run {
            config_path: locations().profile.unwrap(),
            once: false,
            stop_on_stdin_eof: false,
        }
    );
}

#[test]
fn runner_cli_explicit_config_overrides_profile() {
    let action = parse(&["--profile", "special", "--config", "/tmp/agent.toml"]).unwrap();
    assert_eq!(
        action,
        RunnerCliAction::Run {
            config_path: "/tmp/agent.toml".to_string(),
            once: false,
            stop_on_stdin_eof: false,
        }
    );
}

#[test]
fn runner_cli_rejects_unsafe_profile() {
    let err = parse(&["--profile", "../x"]).unwrap_err();
    assert_eq!(err, CLIENT_PROFILE_ERROR);
}

#[test]
fn runner_cli_options_with_values_need_them() {
    assert_eq!(
        parse(&["--config"]).unwrap_err(),
        "--config requires a value"
    );
    assert_eq!(
        parse(&["--once", "--profile"]).unwrap_err(),
        "--profile requires a value"
    );
}

#[test]
fn runner_cli_help_is_the_usage_and_the_version_names_the_build() {
    assert_eq!(
        parse(&["--once", "-h", "bad"]).unwrap(),
        RunnerCliAction::Exit {
            code: 0,
            stdout: RUNNER_USAGE.to_string(),
            stderr: String::new(),
        }
    );
    assert_eq!(
        parse(&["-V"]).unwrap(),
        RunnerCliAction::Exit {
            code: 0,
            stdout: "webcodex-runner 0.1.0 (commit abc1234)\n".to_string(),
            stderr: String::new(),
        }
    );
}

#[test]
fn runner_config_persistent_shell_limits_are_validated() {
    let mut shell = ShellConfig {
        max_persistent_shells: 0,
        ..Default::default()
    };
    assert!(validate_shell_config(&shell)
        .unwrap_err()
        .contains("max_persistent_shells"));

    shell.max_persistent_shells = 65;
    assert!(validate_shell_config(&shell)
        .unwrap_err()
        .contains("max_persistent_shells"));

    shell.max_persistent_shells = 8;
    shell.persistent_shell_idle_timeout_secs = 0;
    assert!(validate_shell_config(&shell)
        .unwrap_err()
        .contains("persistent_shell_idle_timeout_secs"));

    shell.persistent_shell_idle_timeout_secs = 86_401;
    assert!(validate_shell_config(&shell)
        .unwrap_err()
        .contains("persistent_shell_idle_timeout_secs"));
}

#[test]
fn phase_e2_max_concurrent_jobs_uses_valid_configured_value() {
    let mut cfg = test_config("/tmp/config/project-registry");
    assert_eq!(DEFAULT_MAX_CONCURRENT_JOBS, 4);
    assert_eq!(max_concurrent_jobs(&cfg), DEFAULT_MAX_CONCURRENT_JOBS);

    for value in [1, 4, 8, 64] {
        cfg.max_concurrent_jobs = Some(value);
        assert_eq!(max_concurrent_jobs(&cfg), value);
    }
}

#[test]
fn job_limit_outside_its_range_is_refused() {
    for value in [0, 65] {
        assert_eq!(
            validate_max_concurrent_jobs(Some(value)).unwrap_err(),
            "max_concurrent_jobs must be between 1 and 64"
        );
    }
    assert!(validate_max_concurrent_jobs(Some(64)).is_ok());
    assert!(validate_max_concurrent_jobs(None).is_ok());
}

#[test]
fn polling_dispatch_and_job_execution_concurrency_have_independent_contracts() {
    assert_eq!(POLLING_DISPATCH_MAX_IN_FLIGHT, 4);
    assert_eq!(DEFAULT_MAX_CONCURRENT_JOBS, 4);
}

#[test]
fn instruction_paths_follow_windows_namespace_and_traversal_rules() {
    let validate = |files: &[&str]| {
        validate_instructions_config(
            Platform::Windows,
            &InstructionsConfig { files: args(files) },
        )
    };
    assert!(validate(&[r"C:\Users\alice\.codex\AGENTS.md"]).is_ok());

    assert!(validate(&[r"C:\Users\alice\..\bob\AGENTS.md"])
        .unwrap_err()
        .contains("without parent traversal"));

    for path in [
        r"\\?\C:\Users\alice\.codex\AGENTS.md",
        r"\\server\share\AGENTS.md",
        r"\\?\UNC\server\share\AGENTS.md",
    ] {
        assert!(validate(&[path]).is_ok(), "{path}");
    }
    for path in [r"\\.\device\AGENTS.md", r"\\?\GLOBALROOT\Device\AGENTS.md"] {
        assert!(
            validate(&[path])
                .unwrap_err()
                .contains("unsupported Windows path namespace"),
            "{path}"
        );
    }
    assert!(validate(&[
        r"C:\Users\alice\.codex\AGENTS.md",
        r"\\?\C:\Users\alice\.codex\AGENTS.md",
    ])
    .unwrap_err()
    .contains("duplicate"));
}

#[test]
fn spellings_of_one_location_share_their_identity() {
    let identity = |path: &str| configured_skill_root_identity(Platform::Posix, path);
    assert_eq!(identity("/x//y/./z/"), "/x/y/z");
    assert_eq!(identity("/x/y/z"), "/x/y/z");
    assert_ne!(identity("x/y/z"), identity("/x/y/z"));
    let identity = |path: &str| configured_skill_root_identity(Platform::Windows, path);
    assert_eq!(identity(r"\\?\C:\a\\b\"), identity(r"\\?\C:\a\b"));
    assert_eq!(identity(r"\\?\UNC\s\h\\a"), identity(r"\\?\UNC\s\h\a\"));
    assert_eq!(identity("C:/a/./b"), identity(r"C:\a\b"));
    assert_eq!(identity(r"c:\a\b\"), r"C:\a\b");
    assert_eq!(identity(r"\\?\z:\a"), r"Z:\a");
    assert_eq!(identity(r"//s/h//a/"), r"\\s\h\a");
    assert_eq!(identity(r"\\?\UNC\s\h\a"), r"\\s\h\a");
    assert_eq!(identity(r"\\.\dev\a"), r"\\.\dev\a");
    assert_eq!(identity(r"\\?\dev\a"), r"\\?\dev\a");
    assert_ne!(identity(r"C:\a"), identity(r"D:\a"));
    assert_ne!(identity(r"C:\a"), identity(r"C:\A"));
    assert!(validate_skills_config(
        Platform::Windows,
        &SkillsConfig { roots: args(&[r"C:\skills", "c:/skills/"]) },
    )
    .unwrap_err()
    .contains("duplicate"));
}

#[test]
fn posix_paths_compare_as_those_of_the_standard_library() {
    let paths = [
        "", ".", "..", "/", "//", "/.", "./", "./.", "a", "a/", "./a", ".//a", "a/.", "/a", "//a/",
        "/a/./", "/a/b", "/a//b/.", "a/b", "a/../b", "../a", "/./a/b", r"a\b", "C:/a", "/a/..",
    ];
    for a in paths {
        let name = Path::new(a).file_name().map(|name| name.to_str().unwrap().to_string());
        assert_eq!(file_name(Platform::Posix, a), name, "{a}");
        assert_eq!(is_absolute(Platform::Posix, a), Path::new(a).is_absolute(), "{a}");
        for b in paths {
            let same = Path::new(a) == Path::new(b);
            let identity = |path: &str| configured_skill_root_identity(Platform::Posix, path);
            assert!(!same || identity(a) == identity(b), "{a} {b}");
            assert_eq!(is_same_path(Platform::Posix, a, b), same, "{a} {b}");
            if Path::new(b).parent().is_some() {
                let holds = Path::new(b).parent() == Some(Path::new(a));
                assert_eq!(is_direct_parent(Platform::Posix, a, b), holds, "{a} {b}");
            }
        }
    }
}

#[test]
fn windows_paths_compare_by_prefix_root_and_parts() {
    let same = |a: &str, b: &str| is_same_path(Platform::Windows, a, b);
    for (a, b) in [
        (r"C:\a\b", "c:/a//b/"),
        (r"C:.\a", r"C:a"),
        (r"\\s\h", r"//s/h/"),
        (r"\\s\h\a", r"\\s/h\.\a"),
        (r"\\?\C:\a", r"\\?\c:\a\"),
        (r"\\.\dev", r"\\.\dev\"),
        (r"\a", "/a"),
        (r".\a", "./a"),
    ] {
        assert!(same(a, b), "{a} {b}");
    }
    for (a, b) in [
        (r"C:\a", r"D:\a"),
        (r"C:\a", r"C:a"),
        (r"C:\a", r"\\?\C:\a"),
        (r"\\s\h\a", r"\\S\h\a"),
        (r"\\s\h\a", r"\\?\UNC\s\h\a"),
        (r"\\?\C:\a\b", r"\\?\C:\a/b"),
        (r"\\?\C:\a\.\b", r"\\?\C:\a\b"),
        (r"\\?\dev", r"\\?\dev\"),
        (r"\\?\dev\a", r"\\.\dev\a"),
        (r".\a", "a"),
        (r"\a", "a"),
    ] {
        assert!(!same(a, b), "{a} {b}");
    }
    let holds = |dir: &str, file: &str| is_direct_parent(Platform::Windows, dir, file);
    assert!(holds(r"\\?\C:\kit", r"\\?\c:\kit\server.mjs"));
    assert!(holds(r"\\s\h", r"\\s\h\server.mjs"));
    assert!(!holds(r"\\s", r"\\s\h"));
    assert!(!holds(r"C:\kit", r"D:\kit\server.mjs"));
}

#[test]
fn skill_roots_are_absolute_bounded_and_distinct() {
    let validate = |roots: &[String]| {
        validate_skills_config(
            Platform::Posix,
            &SkillsConfig {
                roots: roots.to_vec(),
            },
        )
    };
    assert!(validate(&args(&["/srv/skills", "/srv/more"])).is_ok());
    assert_eq!(
        validate(&args(&["srv/skills"])).unwrap_err(),
        "skills.roots entries must be absolute paths without parent traversal"
    );
    assert_eq!(
        validate(&args(&["/srv/../skills"])).unwrap_err(),
        "skills.roots entries must be absolute paths without parent traversal"
    );
    assert_eq!(
        validate(&args(&[""])).unwrap_err(),
        "skills.roots entries must be non-empty paths of at most 4096 bytes"
    );
    assert_eq!(
        validate(&args(&["/srv/skills", "/srv//skills/."])).unwrap_err(),
        "skills.roots contains duplicate path identities"
    );
    let many: Vec<String> = (0..17).map(|i| format!("/srv/{i}")).collect();
    assert_eq!(
        validate(&many).unwrap_err(),
        "skills.roots may contain at most 16 entries"
    );
}

#[test]
fn shell_profiles_are_checked_by_name_and_content() {
    assert_eq!(
        validate_shell_profile_name("shell profile name", "").unwrap_err(),
        "shell profile name cannot be empty"
    );
    assert_eq!(
        validate_shell_profile_name("shell profile name", "a..b").unwrap_err(),
        "shell profile name cannot contain '..'"
    );
    assert_eq!(
        validate_shell_profile_name("shell profile name", "bad/name").unwrap_err(),
        "shell profile name cannot contain slash or backslash"
    );
    assert_eq!(
        validate_shell_profile_name("shell profile name", "a b").unwrap_err(),
        "shell profile name may only contain ASCII letters, digits, '_', '-', and '.'"
    );
    assert!(validate_shell_profile_name("shell profile name", "py-venv.1_x").is_ok());

    let profile = || ShellProfileConfig {
        description: None,
        program: Some("sh".to_string()),
        args: Some(vec!["-c".to_string()]),
        dialect: None,
        env: vec![],
        init_script: None,
    };
    assert!(validate_shell_profile_config("rust", &profile()).is_ok());
    let mut bad = profile();
    bad.program = Some(" ".to_string());
    assert_eq!(
        validate_shell_profile_config("rust", &bad).unwrap_err(),
        "shell.profiles.rust.program cannot be empty"
    );
    let mut bad = profile();
    bad.args = Some(vec![]);
    assert_eq!(
        validate_shell_profile_config("rust", &bad).unwrap_err(),
        "shell.profiles.rust.args must include the command flag, for example [\"-c\"]"
    );
    let mut bad = profile();
    bad.args = Some(vec!["-c".to_string(), "\t".to_string()]);
    assert_eq!(
        validate_shell_profile_config("rust", &bad).unwrap_err(),
        "shell.profiles.rust.args cannot contain empty values"
    );
    let mut bad = profile();
    bad.env = vec![TextEntry {
        key: "A-B".to_string(),
        value: "1".to_string(),
    }];
    assert_eq!(
        validate_shell_profile_config("rust", &bad).unwrap_err(),
        "shell.profiles.rust.env contains invalid key 'A-B'"
    );
    let mut bad = profile();
    bad.init_script = Some("".to_string());
    assert_eq!(
        validate_shell_profile_config("rust", &bad).unwrap_err(),
        "shell.profiles.rust.init_script cannot be empty"
    );

    let mut shell = ShellConfig::default();
    shell.default_profile = Some("missing".to_string());
    shell.profiles = vec![ShellProfileEntry {
        name: "rust".to_string(),
        profile: profile(),
    }];
    assert_eq!(
        validate_shell_config(&shell).unwrap_err(),
        "shell.default_profile 'missing' does not match any shell.profiles entry"
    );
    shell.default_profile = Some("rust".to_string());
    assert!(validate_shell_config(&shell).is_ok());
}

#[test]
fn shell_complaints_do_not_show_contents() {
    let refusal = |secret: &str| {
        let entry = |key: &str| TextEntry { key: key.to_string(), value: secret.to_string() };
        let mut shell = ShellConfig::default();
        shell.init_script = Some(secret.to_string());
        shell.env = vec![entry("OK"), entry("NOT-OK")];
        shell.profiles = vec![ShellProfileEntry {
            name: "rust".to_string(),
            profile: ShellProfileConfig {
                description: Some(secret.to_string()),
                program: None,
                args: None,
                dialect: None,
                env: vec![entry("OK"), entry("BAD-KEY")],
                init_script: Some(secret.to_string()),
            },
        }];
        let by_profile = validate_shell_config(&shell).unwrap_err();
        shell.profiles[0].profile.env.pop();
        (by_profile, validate_shell_config(&shell).unwrap_err())
    };
    assert_eq!(refusal("alpha"), refusal("omega"));
    assert!(refusal("alpha").0.contains("BAD-KEY"));
    assert!(refusal("alpha").1.contains("NOT-OK"));
}

#[test]
fn environment_keys_are_plain_names() {
    assert!(validate_env_key("PATH_2"));
    assert!(!validate_env_key(""));
    assert!(!validate_env_key("A=B"));
    assert!(!validate_env_key("A B"));
    assert!(!validate_env_key("É"));
}

#[test]
fn client_profiles_are_trimmed_path_components() {
    assert_eq!(validate_client_profile(" special ").unwrap(), "special");
    for bad in ["", ".", "..", "a/b", "a\\b", "a b"] {
        assert_eq!(
            validate_client_profile(bad).unwrap_err(),
            CLIENT_PROFILE_ERROR,
            "{bad}"
        );
    }
    assert!(validate_client_profile(&"x".repeat(80)).is_ok());
    assert!(validate_client_profile(&"x".repeat(81)).is_err());
}

#[test]
fn defaults_are_the_documented_ones() {
    assert_eq!(default_acp_max_concurrent_runs(), 1);
    assert_eq!(default_acp_permission_timeout_secs(), 5);
    assert_eq!(default_mcp_gateway_request_timeout_secs(), 30);
    assert_eq!(default_plugin_request_timeout_secs(), 30);
    assert_eq!(default_quic_alpn(), "webcodex-runner/1");
    assert_eq!(default_quic_connect_timeout_secs(), 10);
    assert_eq!(default_quic_keepalive_interval_secs(), 20);
    assert_eq!(default_websocket_connect_timeout_secs(), 5);
    assert_eq!(default_max_persistent_shells(), 8);
    assert_eq!(default_persistent_shell_idle_timeout_secs(), 30 * 60);
    assert!(default_true());
    assert_eq!(default_poll_interval_ms(&rules()), 1000);
    assert_eq!(default_max_timeout_secs(&rules()), 600);
    assert_eq!(default_max_output_bytes(&rules()), 65536);
    assert_eq!(default_shell_program(Platform::Posix, true), "sh");
    assert_eq!(default_shell_program(Platform::Windows, true), "pwsh.exe");
    assert_eq!(
        default_windows_shell_program_for_path(false),
        "powershell.exe"
    );
    assert_eq!(default_shell_args(Platform::Posix), vec!["-c"]);
    assert_eq!(
        default_shell_args(Platform::Windows),
        vec![
            "-NoProfile",
            "-NonInteractive",
            "-ExecutionPolicy",
            "Bypass",
            "-Command"
        ]
    );
    let policy = RunnerPolicy::with_defaults(&rules());
    assert!(policy.allow_raw_shell);
    assert!(!policy.allow_cwd_anywhere);
    assert_eq!(ShellConfig::default().program, "sh");
    assert_eq!(ClaudeCodeMcpConfig::with_defaults(&rules()).args, vec!["mcp", "serve"]);
}

#[test]
fn shell_dialects_follow_the_program_name() {
    assert_eq!(
        dialect_for_program(Platform::Posix, "/usr/bin/bash"),
        Some(ShellDialect::Posix)
    );
    assert_eq!(
        dialect_for_program(Platform::Windows, r"C:\Tools\pwsh.exe"),
        Some(ShellDialect::PowerShell)
    );
    assert_eq!(dialect_for_program(Platform::Posix, "/usr/bin/fish"), None);
    for rooted in [r"\\server\sh", r"//server/sh", r"\\?\sh", r"\\.\sh", r"\\?\UNC\server\sh"] {
        assert_eq!(dialect_for_program(Platform::Windows, rooted), None, "{rooted}");
    }
    for program in [
        "sh",
        r"C:sh",
        r"C:\bin\sh\",
        r"\\server\share\sh",
        r"\\?\C:\bin\sh",
        r"\\?\UNC\server\share\sh",
        r"\\.\device\sh",
    ] {
        assert_eq!(
            dialect_for_program(Platform::Windows, program),
            Some(ShellDialect::Posix),
            "{program}"
        );
    }
    assert_eq!(dialect_for_program(Platform::Windows, r"\\?\C:\bin/sh"), None);
    assert_eq!(dialect_for_program(Platform::Posix, r"C:\bin\sh"), None);
    assert_eq!(
        platform_default_dialect(Platform::Windows),
        ShellDialect::PowerShell
    );
    assert_eq!(
        platform_default_dialect(Platform::Posix),
        ShellDialect::Posix
    );
}

#[test]
fn registry_directory_falls_back_to_the_default() {
    let mut cfg = test_config("/srv/registry");
    assert_eq!(
        project_registry_dir(&cfg, Err("unused".to_string())).unwrap(),
        "/srv/registry"
    );
    cfg.project_registry_dir = None;
    let default = default_project_registry_dir(
        Ok("/home/u/.config/webcodex".to_string()),
        Ok("/home/u/.config/webcodex/project-registry".to_string()),
    );
    assert_eq!(
        project_registry_dir(&cfg, default).unwrap(),
        "/home/u/.config/webcodex/project-registry"
    );
    assert_eq!(
        default_project_registry_dir(Err("no base".to_string()), Ok("x".to_string())).unwrap_err(),
        "no base"
    );
}

#[test]
fn default_config_is_looked_for_in_the_user_then_the_system_directory() {
    let new_file = || "/home/u/.config/webcodex/runner.toml".to_string();
    let user = "/home/u/.config/webcodex";
    let found = |path: &str| Ok(Some(path.to_string()));
    assert_eq!(
        default_config_path(
            Platform::Posix,
            user,
            found("/home/u/.config/webcodex/agent.toml"),
            found("/etc/webcodex/runner.toml"),
            new_file()
        )
        .unwrap(),
        "/home/u/.config/webcodex/agent.toml"
    );
    assert_eq!(
        default_config_path(
            Platform::Posix,
            user,
            Ok(None),
            found("/etc/webcodex/runner.toml"),
            new_file()
        )
        .unwrap(),
        "/etc/webcodex/runner.toml"
    );
    assert_eq!(
        default_config_path(
            Platform::Posix,
            "/etc//webcodex",
            Ok(None),
            Err("not consulted".to_string()),
            new_file()
        )
        .unwrap(),
        new_file()
    );
    assert_eq!(
        default_config_path(
            Platform::Windows,
            user,
            Ok(None),
            Err("not consulted".to_string()),
            new_file()
        )
        .unwrap(),
        new_file()
    );
    assert_eq!(
        default_config_path(
            Platform::Posix,
            user,
            Err("refusing to guess".to_string()),
            Ok(None),
            new_file()
        )
        .unwrap_err(),
        "refusing to guess"
    );
}

#[test]
fn host_name_comes_from_the_variable_or_the_trimmed_file() {
    let text = |s: &str| Some(s.to_string());
    assert_eq!(hostname(text(" box "), text("file")), text(" box "));
    assert_eq!(hostname(text("  "), text(" file\n")), text("file"));
    assert_eq!(hostname(None, text(" \n")), None);
}
