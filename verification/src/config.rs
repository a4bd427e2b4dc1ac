//! The runner configuration as plain data, with its defaults.
use crate::paths::Platform;
use crate::text::{self, copy_list, copy_option, same, same_list, same_option};
use vstd::prelude::*;

verus! {

pub const CLIENT_PROFILE_ERROR: &'static str = "--profile must be a safe path component using only ASCII letters, digits, '.', '_' or '-'";

pub const DEFAULT_MAX_CONCURRENT_JOBS: usize = 4;

pub const POLLING_DISPATCH_MAX_IN_FLIGHT: usize = 4;

pub const RUNNER_JOB_CONCURRENCY_MIN: usize = 1;

pub const RUNNER_JOB_CONCURRENCY_MAX: usize = 64;

pub const DEFAULT_WEBSOCKET_CONNECT_TIMEOUT_SECS: u64 = 5;

pub const DEFAULT_ACP_MAX_CONCURRENT_RUNS: usize = 1;

pub const ACP_MIN_CONCURRENT_RUNS: usize = 1;

pub const ACP_MAX_CONCURRENT_RUNS: usize = 8;

pub const DEFAULT_ACP_PERMISSION_TIMEOUT_SECS: u64 = 5;

pub const ACP_PERMISSION_TIMEOUT_MIN_SECS: u64 = 1;

pub const ACP_PERMISSION_TIMEOUT_MAX_SECS: u64 = 60;

pub const DEFAULT_MAX_PERSISTENT_SHELLS: usize = 8;

pub const MIN_PERSISTENT_SHELLS: usize = 1;

pub const MAX_PERSISTENT_SHELLS: usize = 64;

pub const DEFAULT_PERSISTENT_SHELL_IDLE_TIMEOUT_SECS: u64 = 1800;

pub const MIN_PERSISTENT_SHELL_IDLE_TIMEOUT_SECS: u64 = 1;

pub const MAX_PERSISTENT_SHELL_IDLE_TIMEOUT_SECS: u64 = 86400;

pub const MAX_CONFIGURED_SKILL_ROOTS: usize = 16;

pub const MAX_CONFIGURED_SKILL_ROOT_PATH_BYTES: usize = 4096;

pub const MAX_CONFIGURED_INSTRUCTION_FILES: usize = 16;

pub const MAX_CONFIGURED_INSTRUCTION_PATH_BYTES: usize = 4096;

pub const MAX_QUIC_KEEPALIVE_INTERVAL_SECS: u64 = 25;

pub const MAX_POLL_INTERVAL_MS: u64 = 30000;

pub const TRANSPORT_WEBSOCKET: &'static str = "websocket";

pub const TRANSPORT_POLLING: &'static str = "polling";

pub const TRANSPORT_QUIC: &'static str = "quic";

pub const TRANSPORT_AUTO: &'static str = "auto";

pub const RUNNER_QUIC_ALPN_V1: &'static str = "webcodex-runner/1";

pub const BUNDLED_CONTEXT_BRIDGE_PROVIDER_ID: &'static str = "codex_context";

pub const ACP_MAX_ENV_MAPPINGS: usize = 64;

pub const ACP_MAX_ENV_NAME_BYTES: usize = 256;

pub const ACP_MAX_ARGS: usize = 64;

pub const ACP_MAX_ARG_BYTES: usize = 4096;

pub const ACP_MAX_ARGS_BYTES: usize = 16384;

pub const MCP_GATEWAY_MAX_ENV_MAPPINGS: usize = 64;

pub const MCP_GATEWAY_MAX_ENV_NAME_BYTES: usize = 256;

pub const MCP_GATEWAY_MAX_ENV_VALUE_BYTES: usize = 16384;

pub const MCP_GATEWAY_MAX_ENV_TOTAL_BYTES: usize = 65536;

pub const MCP_GATEWAY_MAX_CWD_BYTES: usize = 4096;

pub const PLUGIN_MAX_COMMAND_BYTES: usize = 1024;

pub const PLUGIN_MAX_CWD_BYTES: usize = 4096;

/// What the runner shares with its server and reads from the host: the conventions of the
/// platform, the environment keys that carry runner credentials, and the limits and defaults
/// that both sides agree on.
#[derive(Debug, Clone, PartialEq, Eq)]
pub struct RunnerRules {
    pub platform: Platform,
    pub sensitive_env_keys: Vec<String>,
    pub mcp_gateway_max_providers: usize,
    pub plugin_max_providers: usize,
    pub coding_agent_max_providers: usize,
    pub coding_agent_max_provider_name_bytes: usize,
    pub coding_agent_max_config_key_bytes: usize,
    pub default_poll_interval_ms: u64,
    pub default_max_timeout_secs: u64,
    pub default_max_output_bytes: usize,
    pub default_tool_command: String,
}

/// A text together with what the shared identity rules complain of in it, if anything.
#[derive(Debug, PartialEq, Eq)]
pub struct VettedText {
    pub text: String,
    pub fault: Option<String>,
}

/// One entry of a map from text to text, in the order in which the map is walked.
#[derive(Debug, PartialEq, Eq)]
pub struct TextEntry {
    pub key: String,
    pub value: String,
}

#[derive(Debug, PartialEq, Eq)]
pub struct InstructionsConfig {
    pub files: Vec<String>,
}

#[derive(Debug, PartialEq, Eq)]
pub struct SkillsConfig {
    pub roots: Vec<String>,
}

/// Bounded planning context of the host. Registration metadata only.
#[derive(Debug, Clone, PartialEq, Eq)]
pub struct RunnerHostContext {
    pub role: Option<String>,
    pub runtime: Option<String>,
    pub service: Option<String>,
}

/// The capability names that the runner advertises, in ascending order.
#[derive(Debug, Clone, PartialEq, Eq)]
pub struct RunnerCapabilities {
    pub advertised: Vec<String>,
}

#[derive(Debug, Clone, PartialEq, Eq)]
pub struct RunnerConfig {
    pub server_url: String,
    pub token: String,
    pub client_id: String,
    pub display_name: Option<String>,
    pub owner: Option<String>,
    pub hostname: Option<String>,
    pub host_context: Option<RunnerHostContext>,
    pub project_registry_dir: Option<String>,
    /// The older spelling of `project_registry_dir`; absent from a loaded configuration.
    pub legacy_projects_dir: Option<String>,
    pub poll_interval_ms: u64,
    pub capabilities: Option<RunnerCapabilities>,
    pub max_concurrent_jobs: Option<usize>,
    pub policy: RunnerPolicy,
    pub skills: SkillsConfig,
    pub instructions: InstructionsConfig,
    pub transport: Option<String>,
    pub websocket_connect_timeout_secs: u64,
    pub quic: Option<QuicClientConfig>,
    pub shell: ShellConfig,
    pub ssh: SshConfig,
    pub tool_providers: ToolProvidersConfig,
    pub mcp_gateway: McpGatewayConfig,
    pub plugins: PluginConfig,
    pub acp: AcpConfig,
}

#[derive(Debug, Clone, PartialEq, Eq)]
pub struct AcpConfig {
    pub max_concurrent_runs: usize,
    pub permission_timeout_secs: u64,
    pub agents: Vec<AcpAgentConfig>,
}

#[derive(Debug, Clone, PartialEq, Eq)]
pub struct AcpAgentConfig {
    pub id: VettedText,
    pub name: String,
    pub executable: String,
    pub args: Vec<String>,
    /// Agent environment key to runner environment key.
    pub env_from_env: Vec<TextEntry>,
    pub allowed_config_options: Vec<String>,
}

#[derive(Debug, Clone, PartialEq, Eq)]
pub struct McpGatewayConfig {
    pub request_timeout_secs: u64,
    pub providers: Vec<McpGatewayProviderConfig>,
}

#[derive(Debug, PartialEq, Eq)]
pub struct McpGatewayProviderConfig {
    pub id: VettedText,
    pub name: VettedText,
    pub executable: String,
    pub args: Vec<String>,
    pub cwd: Option<String>,
    pub env: Vec<TextEntry>,
    /// Provider environment key to runner environment key.
    pub env_from_env: Vec<TextEntry>,
    pub timeout_secs: Option<u64>,
}

#[derive(Debug, Clone, PartialEq, Eq)]
pub struct PluginConfig {
    pub request_timeout_secs: u64,
    pub providers: Vec<PluginProviderConfig>,
}

#[derive(Debug, Clone, PartialEq, Eq)]
pub struct PluginProviderConfig {
    pub id: VettedText,
    pub name: VettedText,
    pub command: String,
    pub args: Vec<String>,
    pub cwd: Option<String>,
    pub profile: Option<String>,
    pub timeout_secs: Option<u64>,
}

#[derive(Debug, Clone, Copy, PartialEq, Eq, Structural)]
pub enum ToolProviderStrategy {
    Native,
    ClaudeCode,
    ClaudeCodeThenNative,
}

#[derive(Debug, PartialEq, Eq)]
pub struct ToolProvidersConfig {
    pub strategy: ToolProviderStrategy,
    pub claude_code: ClaudeCodeMcpConfig,
}

#[derive(Debug, PartialEq, Eq)]
pub struct ClaudeCodeMcpConfig {
    pub enabled: bool,
    pub command: String,
    pub args: Vec<String>,
    pub mapping: Vec<TextEntry>,
    pub timeout_secs: u64,
}

#[derive(Debug, Clone, PartialEq, Eq)]
pub struct QuicClientConfig {
    pub server_addr: String,
    pub server_name: String,
    pub alpn: String,
    pub connect_timeout_secs: u64,
    pub keepalive_interval_secs: u64,
}

#[derive(Debug, PartialEq, Eq)]
pub struct RunnerPolicy {
    pub allow_raw_shell: bool,
    pub allow_cwd_anywhere: bool,
    pub allowed_roots: Vec<String>,
    pub max_timeout_secs: u64,
    pub max_output_bytes: usize,
}

#[derive(Debug, Clone, Copy, PartialEq, Eq, Structural)]
pub enum ShellDialect {
    Posix,
    PowerShell,
}

#[derive(Debug, Clone, Copy, PartialEq, Eq, Structural)]
pub enum ShellEnvironmentMode {
    Inherit,
    Isolated,
}

#[derive(Debug, PartialEq, Eq)]
pub struct ShellConfig {
    pub environment_mode: ShellEnvironmentMode,
    pub default_profile: Option<String>,
    pub profiles: Vec<ShellProfileEntry>,
    pub program: String,
    pub args: Vec<String>,
    pub dialect: Option<ShellDialect>,
    pub path_prepend: Vec<String>,
    pub env: Vec<TextEntry>,
    pub init_script: Option<String>,
    pub max_persistent_shells: usize,
    pub persistent_shell_idle_timeout_secs: u64,
}

/// A named shell profile.
#[derive(Debug, PartialEq, Eq)]
pub struct ShellProfileEntry {
    pub name: String,
    pub profile: ShellProfileConfig,
}

#[derive(Debug, PartialEq, Eq)]
pub struct ShellProfileConfig {
    pub description: Option<String>,
    pub program: Option<String>,
    pub args: Option<Vec<String>>,
    pub dialect: Option<ShellDialect>,
    pub env: Vec<TextEntry>,
    pub init_script: Option<String>,
}

#[derive(Debug, PartialEq, Eq)]
pub struct SshConfig {
    pub resources: Vec<SshResourceEntry>,
}

/// A named SSH resource.
#[derive(Debug, PartialEq, Eq)]
pub struct SshResourceEntry {
    pub name: String,
    pub resource: SshResourceConfig,
}

#[derive(Debug, PartialEq, Eq)]
pub struct SshResourceConfig {
    pub host: String,
    pub default_cwd: Option<String>,
}

/// The content of a map entry.
pub open spec fn entry_view(e: TextEntry) -> (Seq<char>, Seq<char>) {
    (e.key@, e.value@)
}

/// The content of a map.
pub open spec fn entries_view(v: Seq<TextEntry>) -> Seq<(Seq<char>, Seq<char>)> {
    v.map_values(|e: TextEntry| entry_view(e))
}

/// Tells whether two maps hold the same entries in the same order.
pub fn same_entries(a: &Vec<TextEntry>, b: &Vec<TextEntry>) -> (r: bool)
    ensures
        r == (entries_view(a@) == entries_view(b@)),
{
    if a.len() != b.len() {
        assert(entries_view(a@).len() != entries_view(b@).len());
        return false;
    }
    for i in 0..a.len()
        invariant
            a.len() == b.len(),
            forall|j: int| 0 <= j < i ==> entry_view(#[trigger] a@[j]) == entry_view(b@[j]),
    {
        if a[i].key != b[i].key || a[i].value != b[i].value {
            assert(entries_view(a@)[i as int] != entries_view(b@)[i as int]);
            return false;
        }
    }
    assert(entries_view(a@) =~= entries_view(b@));
    true
}

/// The content of a host context.
pub struct HostContextView {
    pub role: Option<Seq<char>>,
    pub runtime: Option<Seq<char>>,
    pub service: Option<Seq<char>>,
}

impl View for RunnerHostContext {
    type V = HostContextView;

    open spec fn view(&self) -> HostContextView {
        HostContextView {
            role: text::option_view(self.role),
            runtime: text::option_view(self.runtime),
            service: text::option_view(self.service),
        }
    }
}

/// The content of a QUIC section.
pub struct QuicView {
    pub server_addr: Seq<char>,
    pub server_name: Seq<char>,
    pub alpn: Seq<char>,
    pub connect_timeout_secs: u64,
    pub keepalive_interval_secs: u64,
}

impl View for QuicClientConfig {
    type V = QuicView;

    open spec fn view(&self) -> QuicView {
        QuicView {
            server_addr: self.server_addr@,
            server_name: self.server_name@,
            alpn: self.alpn@,
            connect_timeout_secs: self.connect_timeout_secs,
            keepalive_interval_secs: self.keepalive_interval_secs,
        }
    }
}

/// The content of a coding agent section.
pub struct AcpAgentView {
    pub id: Seq<char>,
    pub name: Seq<char>,
    pub executable: Seq<char>,
    pub args: Seq<Seq<char>>,
    pub env_from_env: Seq<(Seq<char>, Seq<char>)>,
    pub allowed_config_options: Seq<Seq<char>>,
}

impl View for AcpAgentConfig {
    type V = AcpAgentView;

    open spec fn view(&self) -> AcpAgentView {
        AcpAgentView {
            id: self.id.text@,
            name: self.name@,
            executable: self.executable@,
            args: text::list_view(self.args@),
            env_from_env: entries_view(self.env_from_env@),
            allowed_config_options: text::list_view(self.allowed_config_options@),
        }
    }
}

/// The content of the coding agent configuration.
pub struct AcpView {
    pub max_concurrent_runs: usize,
    pub permission_timeout_secs: u64,
    pub agents: Seq<AcpAgentView>,
}

impl View for AcpConfig {
    type V = AcpView;

    open spec fn view(&self) -> AcpView {
        AcpView {
            max_concurrent_runs: self.max_concurrent_runs,
            permission_timeout_secs: self.permission_timeout_secs,
            agents: self.agents@.map_values(|a: AcpAgentConfig| a@),
        }
    }
}

/// The content of an MCP provider section.
pub struct McpProviderView {
    pub id: Seq<char>,
    pub name: Seq<char>,
    pub executable: Seq<char>,
    pub args: Seq<Seq<char>>,
    pub cwd: Option<Seq<char>>,
    pub env: Seq<(Seq<char>, Seq<char>)>,
    pub env_from_env: Seq<(Seq<char>, Seq<char>)>,
    pub timeout_secs: Option<u64>,
}

impl View for McpGatewayProviderConfig {
    type V = McpProviderView;

    open spec fn view(&self) -> McpProviderView {
        McpProviderView {
            id: self.id.text@,
            name: self.name.text@,
            executable: self.executable@,
            args: text::list_view(self.args@),
            cwd: text::option_view(self.cwd),
            env: entries_view(self.env@),
            env_from_env: entries_view(self.env_from_env@),
            timeout_secs: self.timeout_secs,
        }
    }
}

/// The content of the policy section.
pub struct PolicyView {
    pub allow_raw_shell: bool,
    pub allow_cwd_anywhere: bool,
    pub allowed_roots: Seq<Seq<char>>,
    pub max_timeout_secs: u64,
    pub max_output_bytes: usize,
}

impl View for RunnerPolicy {
    type V = PolicyView;

    open spec fn view(&self) -> PolicyView {
        PolicyView {
            allow_raw_shell: self.allow_raw_shell,
            allow_cwd_anywhere: self.allow_cwd_anywhere,
            allowed_roots: text::list_view(self.allowed_roots@),
            max_timeout_secs: self.max_timeout_secs,
            max_output_bytes: self.max_output_bytes,
        }
    }
}

impl View for SkillsConfig {
    type V = Seq<Seq<char>>;

    open spec fn view(&self) -> Seq<Seq<char>> {
        text::list_view(self.roots@)
    }
}

impl View for InstructionsConfig {
    type V = Seq<Seq<char>>;

    open spec fn view(&self) -> Seq<Seq<char>> {
        text::list_view(self.files@)
    }
}

/// The content of a shell profile.
pub struct ShellProfileView {
    pub description: Option<Seq<char>>,
    pub program: Option<Seq<char>>,
    pub args: Option<Seq<Seq<char>>>,
    pub dialect: Option<ShellDialect>,
    pub env: Seq<(Seq<char>, Seq<char>)>,
    pub init_script: Option<Seq<char>>,
}

impl View for ShellProfileConfig {
    type V = ShellProfileView;

    open spec fn view(&self) -> ShellProfileView {
        ShellProfileView {
            description: text::option_view(self.description),
            program: text::option_view(self.program),
            args: match self.args {
                Some(args) => Some(text::list_view(args@)),
                None => None,
            },
            dialect: self.dialect,
            env: entries_view(self.env@),
            init_script: text::option_view(self.init_script),
        }
    }
}

impl View for ShellProfileEntry {
    type V = (Seq<char>, ShellProfileView);

    open spec fn view(&self) -> (Seq<char>, ShellProfileView) {
        (self.name@, self.profile@)
    }
}

/// The content of the shell section.
pub struct ShellView {
    pub environment_mode: ShellEnvironmentMode,
    pub default_profile: Option<Seq<char>>,
    pub profiles: Seq<(Seq<char>, ShellProfileView)>,
    pub program: Seq<char>,
    pub args: Seq<Seq<char>>,
    pub dialect: Option<ShellDialect>,
    pub path_prepend: Seq<Seq<char>>,
    pub env: Seq<(Seq<char>, Seq<char>)>,
    pub init_script: Option<Seq<char>>,
    pub max_persistent_shells: usize,
    pub persistent_shell_idle_timeout_secs: u64,
}

impl View for ShellConfig {
    type V = ShellView;

    open spec fn view(&self) -> ShellView {
        ShellView {
            environment_mode: self.environment_mode,
            default_profile: text::option_view(self.default_profile),
            profiles: self.profiles@.map_values(|p: ShellProfileEntry| p@),
            program: self.program@,
            args: text::list_view(self.args@),
            dialect: self.dialect,
            path_prepend: text::list_view(self.path_prepend@),
            env: entries_view(self.env@),
            init_script: text::option_view(self.init_script),
            max_persistent_shells: self.max_persistent_shells,
            persistent_shell_idle_timeout_secs: self.persistent_shell_idle_timeout_secs,
        }
    }
}

/// The content of a named SSH resource: its name, host and default directory.
pub struct SshResourceView {
    pub name: Seq<char>,
    pub host: Seq<char>,
    pub default_cwd: Option<Seq<char>>,
}

impl View for SshResourceEntry {
    type V = SshResourceView;

    open spec fn view(&self) -> SshResourceView {
        SshResourceView {
            name: self.name@,
            host: self.resource.host@,
            default_cwd: text::option_view(self.resource.default_cwd),
        }
    }
}

impl View for SshConfig {
    type V = Seq<SshResourceView>;

    open spec fn view(&self) -> Seq<SshResourceView> {
        self.resources@.map_values(|e: SshResourceEntry| e@)
    }
}

/// The content of the tool provider section.
pub struct ToolProvidersView {
    pub strategy: ToolProviderStrategy,
    pub enabled: bool,
    pub command: Seq<char>,
    pub args: Seq<Seq<char>>,
    pub mapping: Seq<(Seq<char>, Seq<char>)>,
    pub timeout_secs: u64,
}

impl View for ToolProvidersConfig {
    type V = ToolProvidersView;

    open spec fn view(&self) -> ToolProvidersView {
        ToolProvidersView {
            strategy: self.strategy,
            enabled: self.claude_code.enabled,
            command: self.claude_code.command@,
            args: text::list_view(self.claude_code.args@),
            mapping: entries_view(self.claude_code.mapping@),
            timeout_secs: self.claude_code.timeout_secs,
        }
    }
}

impl Clone for VettedText {
    fn clone(&self) -> (r: Self)
        ensures
            r == *self,
    {
        VettedText { text: self.text.clone(), fault: copy_option(&self.fault) }
    }
}

impl Clone for TextEntry {
    fn clone(&self) -> (r: Self)
        ensures
            r == *self,
    {
        TextEntry { key: self.key.clone(), value: self.value.clone() }
    }
}

/// Returns a copy of a map.
pub fn copy_entries(v: &Vec<TextEntry>) -> (r: Vec<TextEntry>)
    ensures
        r@ == v@,
{
    let r = v.clone();
    assert(r@ =~= v@);
    r
}

impl Clone for InstructionsConfig {
    fn clone(&self) -> (r: Self)
        ensures
            r@ == self@,
    {
        InstructionsConfig { files: copy_list(&self.files) }
    }
}

impl Clone for SkillsConfig {
    fn clone(&self) -> (r: Self)
        ensures
            r@ == self@,
    {
        SkillsConfig { roots: copy_list(&self.roots) }
    }
}

impl Clone for RunnerPolicy {
    fn clone(&self) -> (r: Self)
        ensures
            r@ == self@,
    {
        RunnerPolicy {
            allow_raw_shell: self.allow_raw_shell,
            allow_cwd_anywhere: self.allow_cwd_anywhere,
            allowed_roots: copy_list(&self.allowed_roots),
            max_timeout_secs: self.max_timeout_secs,
            max_output_bytes: self.max_output_bytes,
        }
    }
}

impl Clone for ShellProfileConfig {
    fn clone(&self) -> (r: Self)
        ensures
            r@ == self@,
    {
        ShellProfileConfig {
            description: copy_option(&self.description),
            program: copy_option(&self.program),
            args: match &self.args {
                Some(args) => Some(copy_list(args)),
                None => None,
            },
            dialect: self.dialect,
            env: copy_entries(&self.env),
            init_script: copy_option(&self.init_script),
        }
    }
}

impl Clone for ShellProfileEntry {
    fn clone(&self) -> (r: Self)
        ensures
            r@ == self@,
    {
        ShellProfileEntry { name: self.name.clone(), profile: self.profile.clone() }
    }
}

impl Clone for ShellConfig {
    fn clone(&self) -> (r: Self)
        ensures
            r@ == self@,
    {
        let profiles = self.profiles.clone();
        assert(profiles@.map_values(|p: ShellProfileEntry| p@) =~= self@.profiles);
        ShellConfig {
            environment_mode: self.environment_mode,
            default_profile: copy_option(&self.default_profile),
            profiles,
            program: self.program.clone(),
            args: copy_list(&self.args),
            dialect: self.dialect,
            path_prepend: copy_list(&self.path_prepend),
            env: copy_entries(&self.env),
            init_script: copy_option(&self.init_script),
            max_persistent_shells: self.max_persistent_shells,
            persistent_shell_idle_timeout_secs: self.persistent_shell_idle_timeout_secs,
        }
    }
}

impl Clone for SshResourceConfig {
    fn clone(&self) -> (r: Self)
        ensures
            r == *self,
    {
        SshResourceConfig {
            host: self.host.clone(),
            default_cwd: copy_option(&self.default_cwd),
        }
    }
}

impl Clone for SshResourceEntry {
    fn clone(&self) -> (r: Self)
        ensures
            r == *self,
    {
        SshResourceEntry { name: self.name.clone(), resource: self.resource.clone() }
    }
}

impl Clone for SshConfig {
    fn clone(&self) -> (r: Self)
        ensures
            r@ == self@,
    {
        let resources = self.resources.clone();
        assert(resources@ =~= self.resources@);
        SshConfig { resources }
    }
}

impl Clone for ClaudeCodeMcpConfig {
    fn clone(&self) -> (r: Self)
        ensures
            r.enabled == self.enabled,
            r.command@ == self.command@,
            r.args@ == self.args@,
            r.mapping@ == self.mapping@,
            r.timeout_secs == self.timeout_secs,
    {
        ClaudeCodeMcpConfig {
            enabled: self.enabled,
            command: self.command.clone(),
            args: copy_list(&self.args),
            mapping: copy_entries(&self.mapping),
            timeout_secs: self.timeout_secs,
        }
    }
}

impl Clone for ToolProvidersConfig {
    fn clone(&self) -> (r: Self)
        ensures
            r@ == self@,
    {
        ToolProvidersConfig { strategy: self.strategy, claude_code: self.claude_code.clone() }
    }
}

impl Clone for McpGatewayProviderConfig {
    fn clone(&self) -> (r: Self)
        ensures
            r@ == self@,
            r.id == self.id,
            r.name == self.name,
    {
        McpGatewayProviderConfig {
            id: self.id.clone(),
            name: self.name.clone(),
            executable: self.executable.clone(),
            args: copy_list(&self.args),
            cwd: copy_option(&self.cwd),
            env: copy_entries(&self.env),
            env_from_env: copy_entries(&self.env_from_env),
            timeout_secs: self.timeout_secs,
        }
    }
}

impl RunnerHostContext {
    /// Tells whether two host contexts say the same.
    pub fn same_as(&self, other: &Self) -> (r: bool)
        ensures
            r == (self@ == other@),
    {
        same_option(&self.role, &other.role) && same_option(&self.runtime, &other.runtime)
            && same_option(&self.service, &other.service)
    }
}

impl QuicClientConfig {
    /// Tells whether two QUIC sections say the same.
    pub fn same_as(&self, other: &Self) -> (r: bool)
        ensures
            r == (self@ == other@),
    {
        self.server_addr == other.server_addr && self.server_name == other.server_name && self.alpn
            == other.alpn && self.connect_timeout_secs == other.connect_timeout_secs
            && self.keepalive_interval_secs == other.keepalive_interval_secs
    }
}

impl AcpAgentConfig {
    /// Tells whether two coding agent sections say the same.
    pub fn same_as(&self, other: &Self) -> (r: bool)
        ensures
            r == (self@ == other@),
    {
        self.id.text == other.id.text && self.name == other.name && self.executable
            == other.executable && same_list(&self.args, &other.args) && same_entries(
            &self.env_from_env,
            &other.env_from_env,
        ) && same_list(&self.allowed_config_options, &other.allowed_config_options)
    }
}

impl AcpConfig {
    /// Tells whether two coding agent configurations say the same.
    pub fn same_as(&self, other: &Self) -> (r: bool)
        ensures
            r == (self@ == other@),
    {
        if self.max_concurrent_runs != other.max_concurrent_runs || self.permission_timeout_secs
            != other.permission_timeout_secs {
            return false;
        }
        if self.agents.len() != other.agents.len() {
            assert(self@.agents.len() != other@.agents.len());
            return false;
        }
        for i in 0..self.agents.len()
            invariant
                self.agents.len() == other.agents.len(),
                forall|j: int| 0 <= j < i ==> (#[trigger] self.agents@[j])@ == other.agents@[j]@,
        {
            if !self.agents[i].same_as(&other.agents[i]) {
                assert(self@.agents[i as int] != other@.agents[i as int]);
                return false;
            }
        }
        assert(self@.agents =~= other@.agents);
        true
    }
}

impl McpGatewayProviderConfig {
    /// Tells whether two provider sections say the same.
    pub fn same_as(&self, other: &Self) -> (r: bool)
        ensures
            r == (self@ == other@),
    {
        self.id.text == other.id.text && self.name.text == other.name.text && self.executable
            == other.executable && same_list(&self.args, &other.args) && same_option(
            &self.cwd,
            &other.cwd,
        ) && same_entries(&self.env, &other.env) && same_entries(
            &self.env_from_env,
            &other.env_from_env,
        ) && self.timeout_secs == other.timeout_secs
    }
}

pub fn default_acp_max_concurrent_runs() -> (r: usize)
    ensures
        r == 1,
{
    DEFAULT_ACP_MAX_CONCURRENT_RUNS
}

pub fn default_acp_permission_timeout_secs() -> (r: u64)
    ensures
        r == 5,
{
    DEFAULT_ACP_PERMISSION_TIMEOUT_SECS
}

pub fn default_mcp_gateway_request_timeout_secs() -> (r: u64)
    ensures
        r == 30,
{
    30
}

pub fn default_plugin_request_timeout_secs() -> (r: u64)
    ensures
        r == 30,
{
    30
}

pub fn default_quic_alpn() -> (r: String)
    ensures
        r@ == "webcodex-runner/1"@,
{
    RUNNER_QUIC_ALPN_V1.to_owned()
}

pub fn default_quic_connect_timeout_secs() -> (r: u64)
    ensures
        r == 10,
{
    10
}

pub fn default_quic_keepalive_interval_secs() -> (r: u64)
    ensures
        r == 20,
{
    20
}

pub fn default_websocket_connect_timeout_secs() -> (r: u64)
    ensures
        r == 5,
{
    DEFAULT_WEBSOCKET_CONNECT_TIMEOUT_SECS
}

pub fn default_max_persistent_shells() -> (r: usize)
    ensures
        r == 8,
{
    DEFAULT_MAX_PERSISTENT_SHELLS
}

pub fn default_persistent_shell_idle_timeout_secs() -> (r: u64)
    ensures
        r == 1800,
{
    DEFAULT_PERSISTENT_SHELL_IDLE_TIMEOUT_SECS
}

pub fn default_true() -> (r: bool)
    ensures
        r,
{
    true
}

pub fn default_poll_interval_ms(rules: &RunnerRules) -> (r: u64)
    ensures
        r == rules.default_poll_interval_ms,
{
    rules.default_poll_interval_ms
}

pub fn default_max_timeout_secs(rules: &RunnerRules) -> (r: u64)
    ensures
        r == rules.default_max_timeout_secs,
{
    rules.default_max_timeout_secs
}

pub fn default_max_output_bytes(rules: &RunnerRules) -> (r: usize)
    ensures
        r == rules.default_max_output_bytes,
{
    rules.default_max_output_bytes
}

/// Returns the shell that runs commands where the configuration names none: `sh` on POSIX; on
/// Windows PowerShell 7 where it is on the search path, else Windows PowerShell.
pub fn default_shell_program(platform: Platform, pwsh_on_path: bool) -> (r: String)
    ensures
        r@ == match platform {
            Platform::Posix => "sh"@,
            Platform::Windows => if pwsh_on_path {
                "pwsh.exe"@
            } else {
                "powershell.exe"@
            },
        },
{
    match platform {
        Platform::Posix => "sh".to_owned(),
        Platform::Windows => default_windows_shell_program_for_path(pwsh_on_path),
    }
}

/// Returns PowerShell 7 where it is on the search path, else Windows PowerShell.
pub fn default_windows_shell_program_for_path(pwsh_on_path: bool) -> (r: String)
    ensures
        r@ == if pwsh_on_path {
            "pwsh.exe"@
        } else {
            "powershell.exe"@
        },
{
    if pwsh_on_path {
        "pwsh.exe".to_owned()
    } else {
        "powershell.exe".to_owned()
    }
}

/// The arguments after which the default shell takes the command text.
pub open spec fn default_args(platform: Platform) -> Seq<Seq<char>> {
    match platform {
        Platform::Posix => seq!["-c"@],
        Platform::Windows => seq![
            "-NoProfile"@,
            "-NonInteractive"@,
            "-ExecutionPolicy"@,
            "Bypass"@,
            "-Command"@,
        ],
    }
}

/// Returns the arguments after which the default shell takes the command text.
pub fn default_shell_args(platform: Platform) -> (r: Vec<String>)
    ensures
        text::list_view(r@) == default_args(platform),
{
    match platform {
        Platform::Posix => {
            let r = vec!["-c".to_owned()];
            assert(text::list_view(r@) =~= default_args(platform));
            r
        },
        Platform::Windows => {
            let r = vec![
                "-NoProfile".to_owned(),
                "-NonInteractive".to_owned(),
                "-ExecutionPolicy".to_owned(),
                "Bypass".to_owned(),
                "-Command".to_owned(),
            ];
            assert(text::list_view(r@) =~= default_args(platform));
            r
        },
    }
}

impl Default for AcpConfig {
    fn default() -> (r: Self)
        ensures
            r.max_concurrent_runs == 1,
            r.permission_timeout_secs == 5,
            r.agents@.len() == 0,
    {
        AcpConfig {
            max_concurrent_runs: default_acp_max_concurrent_runs(),
            permission_timeout_secs: default_acp_permission_timeout_secs(),
            agents: Vec::new(),
        }
    }
}

impl Default for McpGatewayConfig {
    fn default() -> (r: Self)
        ensures
            r.request_timeout_secs == 30,
            r.providers@.len() == 0,
    {
        McpGatewayConfig {
            request_timeout_secs: default_mcp_gateway_request_timeout_secs(),
            providers: Vec::new(),
        }
    }
}

impl Default for PluginConfig {
    fn default() -> (r: Self)
        ensures
            r.request_timeout_secs == 30,
            r.providers@.len() == 0,
    {
        PluginConfig {
            request_timeout_secs: default_plugin_request_timeout_secs(),
            providers: Vec::new(),
        }
    }
}

impl ClaudeCodeMcpConfig {
    /// The tool provider of a configuration without one: switched off, with the default command.
    pub fn with_defaults(rules: &RunnerRules) -> (r: Self)
        ensures
            !r.enabled,
            r.command@ == rules.default_tool_command@,
            text::list_view(r.args@) == seq!["mcp"@, "serve"@],
            r.mapping@.len() == 0,
            r.timeout_secs == 30,
    {
        let args = vec!["mcp".to_owned(), "serve".to_owned()];
        assert(text::list_view(args@) =~= seq!["mcp"@, "serve"@]);
        ClaudeCodeMcpConfig {
            enabled: false,
            command: rules.default_tool_command.clone(),
            args,
            mapping: Vec::new(),
            timeout_secs: 30,
        }
    }
}

impl RunnerPolicy {
    /// The policy of a configuration without a policy section: raw shell allowed, and no working
    /// directory outside the allowed roots.
    pub fn with_defaults(rules: &RunnerRules) -> (r: Self)
        ensures
            r.allow_raw_shell,
            !r.allow_cwd_anywhere,
            r.allowed_roots@.len() == 0,
            r.max_timeout_secs == rules.default_max_timeout_secs,
            r.max_output_bytes == rules.default_max_output_bytes,
    {
        RunnerPolicy {
            allow_raw_shell: default_true(),
            allow_cwd_anywhere: false,
            allowed_roots: Vec::new(),
            max_timeout_secs: default_max_timeout_secs(rules),
            max_output_bytes: default_max_output_bytes(rules),
        }
    }
}

/// A shell section that says nothing: the default shell of the platform, and no profiles.
pub open spec fn is_default_shell(
    shell: ShellConfig,
    platform: Platform,
    program: Seq<char>,
) -> bool {
    &&& shell.environment_mode == ShellEnvironmentMode::Inherit
    &&& shell.default_profile is None
    &&& shell.profiles@.len() == 0
    &&& shell.program@ == program
    &&& text::list_view(shell.args@) == default_args(platform)
    &&& shell.dialect is None
    &&& shell.path_prepend@.len() == 0
    &&& shell.env@.len() == 0
    &&& shell.init_script is None
    &&& shell.max_persistent_shells == 8
    &&& shell.persistent_shell_idle_timeout_secs == 1800
}

impl ShellConfig {
    /// The shell section of a configuration without one.
    pub fn default_for(platform: Platform, pwsh_on_path: bool) -> (r: Self)
        ensures
            is_default_shell(
                r,
                platform,
                match platform {
                    Platform::Posix => "sh"@,
                    Platform::Windows => if pwsh_on_path {
                        "pwsh.exe"@
                    } else {
                        "powershell.exe"@
                    },
                },
            ),
    {
        ShellConfig {
            environment_mode: ShellEnvironmentMode::Inherit,
            default_profile: None,
            profiles: Vec::new(),
            program: default_shell_program(platform, pwsh_on_path),
            args: default_shell_args(platform),
            dialect: None,
            path_prepend: Vec::new(),
            env: Vec::new(),
            init_script: None,
            max_persistent_shells: default_max_persistent_shells(),
            persistent_shell_idle_timeout_secs: default_persistent_shell_idle_timeout_secs(),
        }
    }
}

impl Default for ShellConfig {
    /// The POSIX shell section.
    fn default() -> (r: Self)
        ensures
            is_default_shell(r, Platform::Posix, "sh"@),
    {
        ShellConfig::default_for(Platform::Posix, false)
    }
}

/// The dialect of a well-known shell, by the last component of its path.
pub open spec fn known_dialect(platform: Platform, program: Seq<char>) -> Option<ShellDialect> {
    let base = match crate::paths::last_component(platform, program) {
        Some(name) => name,
        None => program,
    };
    if base == "sh"@ || base == "bash"@ {
        Some(ShellDialect::Posix)
    } else if base == "powershell"@ || base == "powershell.exe"@ || base == "pwsh"@ || base
        == "pwsh.exe"@ {
        Some(ShellDialect::PowerShell)
    } else {
        None
    }
}

/// Returns the dialect of a well-known shell; the grammar of any other program is not guessed.
pub fn dialect_for_program(platform: Platform, program: &str) -> (r: Option<ShellDialect>)
    ensures
        r == known_dialect(platform, program@),
{
    let base = match crate::paths::file_name(platform, program) {
        Some(name) => name,
        None => program.to_owned(),
    };
    let name = base.as_str();
    if same(name, "sh") || same(name, "bash") {
        Some(ShellDialect::Posix)
    } else if same(name, "powershell") || same(name, "powershell.exe") || same(name, "pwsh")
        || same(name, "pwsh.exe") {
        Some(ShellDialect::PowerShell)
    } else {
        None
    }
}

/// Returns the dialect of the platform's own shell.
pub fn platform_default_dialect(platform: Platform) -> (r: ShellDialect)
    ensures
        r == match platform {
            Platform::Posix => ShellDialect::Posix,
            Platform::Windows => ShellDialect::PowerShell,
        },
{
    match platform {
        Platform::Posix => ShellDialect::Posix,
        Platform::Windows => ShellDialect::PowerShell,
    }
}

/// A job limit that the runner and its server accept, or none.
pub open spec fn job_limit_in_range(limit: Option<usize>) -> bool {
    limit matches Some(n) ==> RUNNER_JOB_CONCURRENCY_MIN <= n <= RUNNER_JOB_CONCURRENCY_MAX
}

/// Returns the number of jobs that may run at once. A loaded configuration is in range.
pub fn max_concurrent_jobs(cfg: &RunnerConfig) -> (r: usize)
    requires
        job_limit_in_range(cfg.max_concurrent_jobs),
    ensures
        r == match cfg.max_concurrent_jobs {
            Some(n) => n,
            None => 4,
        },
        RUNNER_JOB_CONCURRENCY_MIN <= r <= RUNNER_JOB_CONCURRENCY_MAX,
{
    match cfg.max_concurrent_jobs {
        Some(n) => n,
        None => DEFAULT_MAX_CONCURRENT_JOBS,
    }
}

/// Returns where the project registration records lie: the configured directory, or what the
/// default resolves to.
pub fn project_registry_dir(cfg: &RunnerConfig, default: Result<String, String>) -> (r: Result<
    String,
    String,
>)
    ensures
        match cfg.project_registry_dir {
            Some(dir) => r matches Ok(found) && found@ == dir@,
            None => r == default,
        },
{
    match &cfg.project_registry_dir {
        Some(dir) => Ok(dir.clone()),
        None => default,
    }
}

// ---------------------------------------------------------------------------------------------
// Laws
// ---------------------------------------------------------------------------------------------
/// Two lists of texts say the same.
pub open spec fn same_texts(a: Seq<String>, b: Seq<String>) -> bool {
    a.len() == b.len() && forall|i: int| 0 <= i < a.len() ==> (#[trigger] a[i])@ == b[i]@
}

/// Two maps say the same.
pub open spec fn same_maps(a: Seq<TextEntry>, b: Seq<TextEntry>) -> bool {
    a.len() == b.len() && forall|i: int|
        0 <= i < a.len() ==> (#[trigger] a[i]).key@ == b[i].key@ && a[i].value@ == b[i].value@
}

/// Two optional texts say the same.
pub open spec fn same_optional(a: Option<String>, b: Option<String>) -> bool {
    match (a, b) {
        (Some(x), Some(y)) => x@ == y@,
        (None, None) => true,
        _ => false,
    }
}

/// Two coding agent configurations say the same: the same limits, and the same agents in the same
/// order, each with the same identity, command, environment and options.
pub open spec fn same_agents(a: AcpConfig, b: AcpConfig) -> bool {
    &&& a.max_concurrent_runs == b.max_concurrent_runs
    &&& a.permission_timeout_secs == b.permission_timeout_secs
    &&& a.agents@.len() == b.agents@.len()
    &&& forall|i: int|
        0 <= i < a.agents@.len() ==> {
            let x = #[trigger] a.agents@[i];
            let y = b.agents@[i];
            &&& x.id.text@ == y.id.text@
            &&& x.name@ == y.name@
            &&& x.executable@ == y.executable@
            &&& same_texts(x.args@, y.args@)
            &&& same_maps(x.env_from_env@, y.env_from_env@)
            &&& same_texts(x.allowed_config_options@, y.allowed_config_options@)
        }
}

/// Lists and maps of texts have the same content exactly where they say the same.
pub proof fn lists_compare_by_content(
    a: Seq<String>,
    b: Seq<String>,
    x: Seq<TextEntry>,
    y: Seq<TextEntry>,
)
    ensures
        text::list_view(a) == text::list_view(b) <==> same_texts(a, b),
        entries_view(x) == entries_view(y) <==> same_maps(x, y),
{
    if text::list_view(a) == text::list_view(b) {
        assert(text::list_view(a).len() == text::list_view(b).len());
        assert forall|i: int| 0 <= i < a.len() implies (#[trigger] a[i])@ == b[i]@ by {
            assert(text::list_view(a)[i] == text::list_view(b)[i]);
        }
    }
    if same_texts(a, b) {
        assert(text::list_view(a) =~= text::list_view(b));
    }
    if entries_view(x) == entries_view(y) {
        assert(entries_view(x).len() == entries_view(y).len());
        assert forall|i: int| 0 <= i < x.len() implies (#[trigger] x[i]).key@ == y[i].key@
            && x[i].value@ == y[i].value@ by {
            assert(entries_view(x)[i] == entries_view(y)[i]);
        }
    }
    if same_maps(x, y) {
        assert(entries_view(x) =~= entries_view(y));
    }
}

/// Two coding agent configurations have the same content exactly where they say the same.
pub proof fn agents_compare_by_content(a: AcpConfig, b: AcpConfig)
    ensures
        a@ == b@ <==> same_agents(a, b),
{
    if a@ == b@ {
        assert(a@.agents.len() == b@.agents.len());
        assert forall|i: int| 0 <= i < a.agents@.len() implies ({
            let x = #[trigger] a.agents@[i];
            let y = b.agents@[i];
            &&& x.id.text@ == y.id.text@
            &&& x.name@ == y.name@
            &&& x.executable@ == y.executable@
            &&& same_texts(x.args@, y.args@)
            &&& same_maps(x.env_from_env@, y.env_from_env@)
            &&& same_texts(x.allowed_config_options@, y.allowed_config_options@)
        }) by {
            let x = a.agents@[i];
            let y = b.agents@[i];
            assert(a@.agents[i] == b@.agents[i]);
            assert(x@ == y@);
            lists_compare_by_content(x.args@, y.args@, x.env_from_env@, y.env_from_env@);
            lists_compare_by_content(
                x.allowed_config_options@,
                y.allowed_config_options@,
                Seq::empty(),
                Seq::empty(),
            );
        }
    }
    if same_agents(a, b) {
        assert forall|i: int| 0 <= i < a.agents@.len() implies (#[trigger] a.agents@[i])@
            == b.agents@[i]@ by {
            let x = a.agents@[i];
            let y = b.agents@[i];
            lists_compare_by_content(x.args@, y.args@, x.env_from_env@, y.env_from_env@);
            lists_compare_by_content(
                x.allowed_config_options@,
                y.allowed_config_options@,
                Seq::empty(),
                Seq::empty(),
            );
        }
        assert(a@.agents =~= b@.agents);
    }
}

/// Two provider sections have the same content exactly where they say the same in every setting.
pub proof fn providers_compare_by_content(a: McpGatewayProviderConfig, b: McpGatewayProviderConfig)
    ensures
        a@ == b@ <==> {
            &&& a.id.text@ == b.id.text@
            &&& a.name.text@ == b.name.text@
            &&& a.executable@ == b.executable@
            &&& same_texts(a.args@, b.args@)
            &&& same_optional(a.cwd, b.cwd)
            &&& same_maps(a.env@, b.env@)
            &&& same_maps(a.env_from_env@, b.env_from_env@)
            &&& a.timeout_secs == b.timeout_secs
        },
{
    lists_compare_by_content(a.args@, b.args@, a.env@, b.env@);
    lists_compare_by_content(a.args@, b.args@, a.env_from_env@, b.env_from_env@);
}

/// The sections that a reload activates have the same content exactly where they say the same.
pub proof fn hot_sections_compare_by_content(
    p: RunnerPolicy,
    q: RunnerPolicy,
    s: SkillsConfig,
    t: SkillsConfig,
    i: InstructionsConfig,
    j: InstructionsConfig,
    x: ToolProvidersConfig,
    y: ToolProvidersConfig,
)
    ensures
        p@ == q@ <==> {
            &&& p.allow_raw_shell == q.allow_raw_shell
            &&& p.allow_cwd_anywhere == q.allow_cwd_anywhere
            &&& same_texts(p.allowed_roots@, q.allowed_roots@)
            &&& p.max_timeout_secs == q.max_timeout_secs
            &&& p.max_output_bytes == q.max_output_bytes
        },
        s@ == t@ <==> same_texts(s.roots@, t.roots@),
        i@ == j@ <==> same_texts(i.files@, j.files@),
        x@ == y@ <==> {
            &&& x.strategy == y.strategy
            &&& x.claude_code.enabled == y.claude_code.enabled
            &&& x.claude_code.command@ == y.claude_code.command@
            &&& same_texts(x.claude_code.args@, y.claude_code.args@)
            &&& same_maps(x.claude_code.mapping@, y.claude_code.mapping@)
            &&& x.claude_code.timeout_secs == y.claude_code.timeout_secs
        },
{
    let none = Seq::<TextEntry>::empty();
    lists_compare_by_content(p.allowed_roots@, q.allowed_roots@, none, none);
    lists_compare_by_content(s.roots@, t.roots@, none, none);
    lists_compare_by_content(i.files@, j.files@, none, none);
    lists_compare_by_content(
        x.claude_code.args@,
        y.claude_code.args@,
        x.claude_code.mapping@,
        y.claude_code.mapping@,
    );
}

/// Two shell profiles say the same.
pub open spec fn same_profile(a: ShellProfileConfig, b: ShellProfileConfig) -> bool {
    &&& same_optional(a.description, b.description)
    &&& same_optional(a.program, b.program)
    &&& match (a.args, b.args) {
        (Some(x), Some(y)) => same_texts(x@, y@),
        (None, None) => true,
        _ => false,
    }
    &&& a.dialect == b.dialect
    &&& same_maps(a.env@, b.env@)
    &&& same_optional(a.init_script, b.init_script)
}

proof fn profiles_compare_by_content(a: ShellProfileConfig, b: ShellProfileConfig)
    ensures
        a@ == b@ <==> same_profile(a, b),
{
    let none = Seq::<String>::empty();
    lists_compare_by_content(none, none, a.env@, b.env@);
    match (a.args, b.args) {
        (Some(x), Some(y)) => {
            lists_compare_by_content(x@, y@, a.env@, b.env@);
        },
        _ => {},
    }
}

/// Two shell sections have the same content exactly where they say the same in every setting and
/// every profile.
pub proof fn shells_compare_by_content(a: ShellConfig, b: ShellConfig)
    ensures
        a@ == b@ <==> {
            &&& a.environment_mode == b.environment_mode
            &&& same_optional(a.default_profile, b.default_profile)
            &&& a.profiles@.len() == b.profiles@.len()
            &&& forall|i: int|
                0 <= i < a.profiles@.len() ==> (#[trigger] a.profiles@[i]).name@
                    == b.profiles@[i].name@ && same_profile(
                    a.profiles@[i].profile,
                    b.profiles@[i].profile,
                )
            &&& a.program@ == b.program@
            &&& same_texts(a.args@, b.args@)
            &&& a.dialect == b.dialect
            &&& same_texts(a.path_prepend@, b.path_prepend@)
            &&& same_maps(a.env@, b.env@)
            &&& same_optional(a.init_script, b.init_script)
            &&& a.max_persistent_shells == b.max_persistent_shells
            &&& a.persistent_shell_idle_timeout_secs == b.persistent_shell_idle_timeout_secs
        },
{
    lists_compare_by_content(a.args@, b.args@, a.env@, b.env@);
    lists_compare_by_content(a.path_prepend@, b.path_prepend@, a.env@, b.env@);
    let p = a@.profiles;
    let q = b@.profiles;
    if p == q {
        assert(p.len() == q.len());
        assert forall|i: int| 0 <= i < a.profiles@.len() implies (#[trigger] a.profiles@[i]).name@
            == b.profiles@[i].name@ && same_profile(
            a.profiles@[i].profile,
            b.profiles@[i].profile,
        ) by {
            assert(p[i] == q[i]);
            profiles_compare_by_content(a.profiles@[i].profile, b.profiles@[i].profile);
        }
    }
    if a.profiles@.len() == b.profiles@.len() && (forall|i: int|
        0 <= i < a.profiles@.len() ==> (#[trigger] a.profiles@[i]).name@ == b.profiles@[i].name@
            && same_profile(a.profiles@[i].profile, b.profiles@[i].profile)) {
        assert forall|i: int| 0 <= i < p.len() implies p[i] == q[i] by {
            assert(a.profiles@[i].name@ == b.profiles@[i].name@);
            profiles_compare_by_content(a.profiles@[i].profile, b.profiles@[i].profile);
        }
        assert(p =~= q);
    }
}

/// Two lists of SSH resources have the same content exactly where they name the same resources
/// with the same hosts and directories, in the same order.
pub proof fn ssh_resources_compare_by_content(a: SshConfig, b: SshConfig)
    ensures
        a@ == b@ <==> a.resources@.len() == b.resources@.len() && forall|i: int|
            0 <= i < a.resources@.len() ==> {
                let x = #[trigger] a.resources@[i];
                let y = b.resources@[i];
                &&& x.name@ == y.name@
                &&& x.resource.host@ == y.resource.host@
                &&& same_optional(x.resource.default_cwd, y.resource.default_cwd)
            },
{
    let p = a@;
    let q = b@;
    if p == q {
        assert(p.len() == q.len());
        assert forall|i: int| 0 <= i < a.resources@.len() implies ({
            let x = #[trigger] a.resources@[i];
            let y = b.resources@[i];
            &&& x.name@ == y.name@
            &&& x.resource.host@ == y.resource.host@
            &&& same_optional(x.resource.default_cwd, y.resource.default_cwd)
        }) by {
            assert(p[i] == q[i]);
        }
    } else if a.resources@.len() == b.resources@.len() && (forall|i: int|
        0 <= i < a.resources@.len() ==> {
            let x = #[trigger] a.resources@[i];
            let y = b.resources@[i];
            &&& x.name@ == y.name@
            &&& x.resource.host@ == y.resource.host@
            &&& same_optional(x.resource.default_cwd, y.resource.default_cwd)
        }) {
        assert forall|i: int| 0 <= i < p.len() implies p[i] == q[i] by {
            assert(a.resources@[i].name@ == b.resources@[i].name@);
        }
        assert(p =~= q);
    }
}

/// A program is known as a shell by its name alone, wherever it lies: `sh` and `bash` speak the
/// POSIX dialect, PowerShell under its four names its own, and any other program none that is
/// known.
pub proof fn shells_are_known_by_name(dir: Seq<char>, name: Seq<char>)
    requires
        crate::paths::absolute(Platform::Posix, dir),
        name.len() > 0,
        forall|i: int| 0 <= i < name.len() ==> #[trigger] name[i] != '/',
        name != seq!['.'],
        name != seq!['.', '.'],
    ensures
        known_dialect(Platform::Posix, dir.push('/') + name) == known_dialect(
            Platform::Posix,
            name,
        ),
        known_dialect(Platform::Posix, name) == Some(ShellDialect::Posix) <==> name == "sh"@ || name
            == "bash"@,
        known_dialect(Platform::Posix, name) == Some(ShellDialect::PowerShell) <==> name
            == "powershell"@ || name == "powershell.exe"@ || name == "pwsh"@ || name == "pwsh.exe"@,
{
    crate::paths::files_stand_in_their_directory(dir, name, dir);
    crate::paths::bare_names_are_their_own(name);
    reveal_strlit("sh");
    reveal_strlit("bash");
    reveal_strlit("powershell");
    reveal_strlit("powershell.exe");
    reveal_strlit("pwsh");
    reveal_strlit("pwsh.exe");
    assert("sh"@.len() == 2 && "bash"@.len() == 4 && "pwsh"@.len() == 4);
    assert("bash"@[0] == 'b' && "pwsh"@[0] == 'p');
}

/// The default shell is asked for a command by its last argument: the command flag of the platform.
pub proof fn default_arguments_end_with_the_command_flag(platform: Platform)
    ensures
        default_args(platform).len() == match platform {
            Platform::Posix => 1int,
            Platform::Windows => 5,
        },
        default_args(platform).last() == match platform {
            Platform::Posix => "-c"@,
            Platform::Windows => "-Command"@,
        },
{
}

/// A section that says nothing sets nothing but the program and its arguments, and may be loaded
/// where the program is not blank.
pub proof fn default_shells_are_usable(shell: ShellConfig, platform: Platform, program: Seq<char>)
    requires
        is_default_shell(shell, platform, program),
        !text::blank(program),
    ensures
        shell.program@ == program,
        shell.default_profile is None && shell.profiles@.len() == 0 && shell.dialect is None,
        shell.env@.len() == 0 && shell.path_prepend@.len() == 0 && shell.init_script is None,
        crate::validate::shell_fault(shell) is None,
{
    crate::validate::shells_are_accepted_by_their_settings(shell);
    let args = text::list_view(shell.args@);
    assert(args.len() == shell.args@.len());
    reveal_strlit("-c");
    reveal_strlit("-NoProfile");
    reveal_strlit("-NonInteractive");
    reveal_strlit("-ExecutionPolicy");
    reveal_strlit("Bypass");
    reveal_strlit("-Command");
    assert forall|i: int| 0 <= i < shell.args@.len() implies !text::blank(
        (#[trigger] shell.args@[i])@,
    ) by {
        assert(args[i] == shell.args@[i]@);
        assert(args[i] == default_args(platform)[i]);
        let arg = default_args(platform)[i];
        assert(arg.len() > 0 && (arg[0] == '-' || arg[0] == 'B'));
        assert(!text::white_space(arg[0]));
    }
}

} // verus!
