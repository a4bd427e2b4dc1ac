//! What a check or a reload of the configuration is answered, and what it leaves in the status.
use crate::config::{QuicClientConfig, RunnerCapabilities, RunnerConfig, RunnerHostContext};
use crate::paths::{self, is_same_path, Platform};
use crate::text::{self, comes_before, copy_list, same_list, same_option, starts_with};
use vstd::prelude::*;
use vstd::string::*;

verus! {

#[derive(Debug, Clone, Copy, PartialEq, Eq, Structural)]
pub enum RunnerConfigAction {
    Check,
    Reload,
}

#[derive(Debug, Clone, Copy, PartialEq, Eq, Structural)]
pub enum RunnerConfigExecutionState {
    NotStarted,
    Completed,
}

#[derive(Debug, Clone, Copy, PartialEq, Eq, Structural)]
pub enum RunnerConfigErrorCode {
    ConfigReadFailed,
    ConfigParseFailed,
    ProviderConfigInvalid,
    ConfigValidationFailed,
    RunnerUnavailable,
    ConfigGenerationConflict,
    PluginReloadBusy,
    PluginReloadFailed,
}

#[derive(Debug, Clone, Copy, PartialEq, Eq, Structural)]
pub enum RunnerConfigErrorField {
    SkillsRoots,
    InstructionsFiles,
    MaxConcurrentJobs,
    ShellMaxPersistentShells,
    ShellPersistentShellIdleTimeoutSecs,
    AcpMaxConcurrentRuns,
    AcpPermissionTimeoutSecs,
    McpRequestTimeoutSecs,
}

#[derive(Debug, Clone, Copy, PartialEq, Eq, Structural)]
pub enum RunnerConfigErrorReason {
    InvalidPath,
    OutOfRange,
}

/// The answer to a check or a reload.
#[derive(Debug)]
pub struct RunnerConfigOperationResponse {
    pub action: RunnerConfigAction,
    pub execution_state: RunnerConfigExecutionState,
    pub valid: Option<bool>,
    pub current_generation: Option<u64>,
    pub error_code: Option<RunnerConfigErrorCode>,
    pub error_field: Option<RunnerConfigErrorField>,
    pub error_reason: Option<RunnerConfigErrorReason>,
    pub restart_required: bool,
    pub restart_required_fields: Vec<String>,
}

/// The content of an answer, without the fields that need a restart.
pub struct OperationView {
    pub action: RunnerConfigAction,
    pub execution_state: RunnerConfigExecutionState,
    pub valid: Option<bool>,
    pub current_generation: Option<u64>,
    pub error_code: Option<RunnerConfigErrorCode>,
    pub error_field: Option<RunnerConfigErrorField>,
    pub error_reason: Option<RunnerConfigErrorReason>,
    pub restart_required: bool,
}

impl RunnerConfigOperationResponse {
    pub open spec fn view(self) -> OperationView {
        OperationView {
            action: self.action,
            execution_state: self.execution_state,
            valid: self.valid,
            current_generation: self.current_generation,
            error_code: self.error_code,
            error_field: self.error_field,
            error_reason: self.error_reason,
            restart_required: self.restart_required,
        }
    }

    /// The names of the fields that need a restart.
    pub open spec fn fields(self) -> Seq<Seq<char>> {
        text::list_view(self.restart_required_fields@)
    }
}

/// How the last reload went.
#[derive(Debug)]
pub struct RunnerConfigReloadStatus {
    pub generation: u64,
    pub last_reload_result: String,
    pub last_reload_error_code: Option<RunnerConfigErrorCode>,
    pub last_reload_error_field: Option<RunnerConfigErrorField>,
    pub last_reload_error_reason: Option<RunnerConfigErrorReason>,
    pub restart_required: bool,
    pub restart_required_fields: Vec<String>,
}

/// The content of a reload status.
pub struct StatusView {
    pub generation: u64,
    pub last_reload_result: Seq<char>,
    pub last_reload_error_code: Option<RunnerConfigErrorCode>,
    pub last_reload_error_field: Option<RunnerConfigErrorField>,
    pub last_reload_error_reason: Option<RunnerConfigErrorReason>,
    pub restart_required: bool,
    pub restart_required_fields: Seq<Seq<char>>,
}

impl View for RunnerConfigReloadStatus {
    type V = StatusView;

    open spec fn view(&self) -> StatusView {
        StatusView {
            generation: self.generation,
            last_reload_result: self.last_reload_result@,
            last_reload_error_code: self.last_reload_error_code,
            last_reload_error_field: self.last_reload_error_field,
            last_reload_error_reason: self.last_reload_error_reason,
            restart_required: self.restart_required,
            restart_required_fields: text::list_view(self.restart_required_fields@),
        }
    }
}

impl Clone for RunnerConfigReloadStatus {
    fn clone(&self) -> (r: Self)
        ensures
            r@ == self@,
    {
        RunnerConfigReloadStatus {
            generation: self.generation,
            last_reload_result: self.last_reload_result.clone(),
            last_reload_error_code: self.last_reload_error_code,
            last_reload_error_field: self.last_reload_error_field,
            last_reload_error_reason: self.last_reload_error_reason,
            restart_required: self.restart_required,
            restart_required_fields: copy_list(&self.restart_required_fields),
        }
    }
}

// ---------------------------------------------------------------------------------------------
// Errors
// ---------------------------------------------------------------------------------------------
/// The code of a candidate error, by how its text begins.
pub open spec fn error_code_of(error: Seq<char>) -> RunnerConfigErrorCode {
    if "failed to read config"@.is_prefix_of(error) {
        RunnerConfigErrorCode::ConfigReadFailed
    } else if "failed to parse config"@.is_prefix_of(error) {
        RunnerConfigErrorCode::ConfigParseFailed
    } else if "tool_providers."@.is_prefix_of(error) {
        RunnerConfigErrorCode::ProviderConfigInvalid
    } else {
        RunnerConfigErrorCode::ConfigValidationFailed
    }
}

/// Returns the code of a candidate error.
pub fn reload_error_code(error: &str) -> (r: RunnerConfigErrorCode)
    ensures
        r == error_code_of(error@),
{
    if starts_with(error, "failed to read config") {
        RunnerConfigErrorCode::ConfigReadFailed
    } else if starts_with(error, "failed to parse config") {
        RunnerConfigErrorCode::ConfigParseFailed
    } else if starts_with(error, "tool_providers.") {
        RunnerConfigErrorCode::ProviderConfigInvalid
    } else {
        RunnerConfigErrorCode::ConfigValidationFailed
    }
}

/// The complaint is about what the path of an instruction file is.
pub open spec fn instruction_path_error(error: Seq<char>) -> bool {
    ||| "instructions.files entries must be absolute paths"@.is_prefix_of(error)
    ||| "instructions.files contains an unsupported Windows path namespace"@.is_prefix_of(error)
    ||| "instructions.files contains duplicate path identities"@.is_prefix_of(error)
}

/// The complaint is about what the path of a skill root is.
pub open spec fn skill_path_error(error: Seq<char>) -> bool {
    ||| "skills.roots entries must be absolute paths"@.is_prefix_of(error)
    ||| "skills.roots contains an unsupported Windows path namespace"@.is_prefix_of(error)
    ||| "skills.roots contains duplicate path identities"@.is_prefix_of(error)
}

/// The field that is said to be out of its range.
pub open spec fn range_field_of(error: Seq<char>) -> Option<RunnerConfigErrorField> {
    if "skills.roots may contain at most "@.is_prefix_of(error)
        || "skills.roots entries must be non-empty paths of at most "@.is_prefix_of(error) {
        Some(RunnerConfigErrorField::SkillsRoots)
    } else if "instructions.files may contain at most "@.is_prefix_of(error)
        || "instructions.files entries must be non-empty paths of at most "@.is_prefix_of(error) {
        Some(RunnerConfigErrorField::InstructionsFiles)
    } else if "max_concurrent_jobs must be between "@.is_prefix_of(error) {
        Some(RunnerConfigErrorField::MaxConcurrentJobs)
    } else if "shell.max_persistent_shells must be between "@.is_prefix_of(error) {
        Some(RunnerConfigErrorField::ShellMaxPersistentShells)
    } else if "shell.persistent_shell_idle_timeout_secs must be between "@.is_prefix_of(error) {
        Some(RunnerConfigErrorField::ShellPersistentShellIdleTimeoutSecs)
    } else if "acp.max_concurrent_runs must be between "@.is_prefix_of(error) {
        Some(RunnerConfigErrorField::AcpMaxConcurrentRuns)
    } else if "acp.permission_timeout_secs must be between "@.is_prefix_of(error) {
        Some(RunnerConfigErrorField::AcpPermissionTimeoutSecs)
    } else if "mcp.request_timeout_secs must be between "@.is_prefix_of(error) {
        Some(RunnerConfigErrorField::McpRequestTimeoutSecs)
    } else {
        None
    }
}

/// The field and the reason of a candidate error, where its text gives them away.
pub open spec fn diagnostic_of(error: Seq<char>) -> (
    Option<RunnerConfigErrorField>,
    Option<RunnerConfigErrorReason>,
) {
    if instruction_path_error(error) {
        (
            Some(RunnerConfigErrorField::InstructionsFiles),
            Some(RunnerConfigErrorReason::InvalidPath),
        )
    } else if skill_path_error(error) {
        (Some(RunnerConfigErrorField::SkillsRoots), Some(RunnerConfigErrorReason::InvalidPath))
    } else {
        match range_field_of(error) {
            Some(field) => (Some(field), Some(RunnerConfigErrorReason::OutOfRange)),
            None => (None, None),
        }
    }
}

fn find_range_field(error: &str) -> (r: Option<RunnerConfigErrorField>)
    ensures
        r == range_field_of(error@),
{
    if starts_with(error, "skills.roots may contain at most ") || starts_with(
        error,
        "skills.roots entries must be non-empty paths of at most ",
    ) {
        Some(RunnerConfigErrorField::SkillsRoots)
    } else if starts_with(error, "instructions.files may contain at most ") || starts_with(
        error,
        "instructions.files entries must be non-empty paths of at most ",
    ) {
        Some(RunnerConfigErrorField::InstructionsFiles)
    } else if starts_with(error, "max_concurrent_jobs must be between ") {
        Some(RunnerConfigErrorField::MaxConcurrentJobs)
    } else if starts_with(error, "shell.max_persistent_shells must be between ") {
        Some(RunnerConfigErrorField::ShellMaxPersistentShells)
    } else if starts_with(error, "shell.persistent_shell_idle_timeout_secs must be between ") {
        Some(RunnerConfigErrorField::ShellPersistentShellIdleTimeoutSecs)
    } else if starts_with(error, "acp.max_concurrent_runs must be between ") {
        Some(RunnerConfigErrorField::AcpMaxConcurrentRuns)
    } else if starts_with(error, "acp.permission_timeout_secs must be between ") {
        Some(RunnerConfigErrorField::AcpPermissionTimeoutSecs)
    } else if starts_with(error, "mcp.request_timeout_secs must be between ") {
        Some(RunnerConfigErrorField::McpRequestTimeoutSecs)
    } else {
        None
    }
}

/// Returns the field and the reason of a candidate error, where its text gives them away.
pub fn reload_error_diagnostic(error: &str) -> (r: (
    Option<RunnerConfigErrorField>,
    Option<RunnerConfigErrorReason>,
))
    ensures
        r == diagnostic_of(error@),
{
    if starts_with(error, "instructions.files entries must be absolute paths") || starts_with(
        error,
        "instructions.files contains an unsupported Windows path namespace",
    ) || starts_with(error, "instructions.files contains duplicate path identities") {
        return (
            Some(RunnerConfigErrorField::InstructionsFiles),
            Some(RunnerConfigErrorReason::InvalidPath),
        );
    }
    if starts_with(error, "skills.roots entries must be absolute paths") || starts_with(
        error,
        "skills.roots contains an unsupported Windows path namespace",
    ) || starts_with(error, "skills.roots contains duplicate path identities") {
        return (
            Some(RunnerConfigErrorField::SkillsRoots),
            Some(RunnerConfigErrorReason::InvalidPath),
        );
    }
    match find_range_field(error) {
        Some(field) => (Some(field), Some(RunnerConfigErrorReason::OutOfRange)),
        None => (None, None),
    }
}

/// The answer where the candidate is not valid.
pub open spec fn candidate_error(
    action: RunnerConfigAction,
    generation: u64,
    error: Seq<char>,
) -> OperationView {
    OperationView {
        action,
        execution_state: RunnerConfigExecutionState::Completed,
        valid: Some(false),
        current_generation: Some(generation),
        error_code: Some(error_code_of(error)),
        error_field: diagnostic_of(error).0,
        error_reason: diagnostic_of(error).1,
        restart_required: false,
    }
}

/// The answer where the operation did not start.
pub open spec fn not_started(
    action: RunnerConfigAction,
    generation: Option<u64>,
    error_code: RunnerConfigErrorCode,
) -> OperationView {
    OperationView {
        action,
        execution_state: RunnerConfigExecutionState::NotStarted,
        valid: None,
        current_generation: generation,
        error_code: Some(error_code),
        error_field: None,
        error_reason: None,
        restart_required: false,
    }
}

/// Returns the answer where the candidate is not valid.
pub fn config_candidate_error_response(
    action: RunnerConfigAction,
    generation: u64,
    error: &str,
) -> (r: RunnerConfigOperationResponse)
    ensures
        r.view() == candidate_error(action, generation, error@),
        r.fields().len() == 0,
{
    let (error_field, error_reason) = reload_error_diagnostic(error);
    RunnerConfigOperationResponse {
        action,
        execution_state: RunnerConfigExecutionState::Completed,
        valid: Some(false),
        current_generation: Some(generation),
        error_code: Some(reload_error_code(error)),
        error_field,
        error_reason,
        restart_required: false,
        restart_required_fields: Vec::new(),
    }
}

/// Returns the answer where the operation did not start.
pub fn config_not_started(
    action: RunnerConfigAction,
    generation: Option<u64>,
    error_code: RunnerConfigErrorCode,
) -> (r: RunnerConfigOperationResponse)
    ensures
        r.view() == not_started(action, generation, error_code),
        r.fields().len() == 0,
{
    RunnerConfigOperationResponse {
        action,
        execution_state: RunnerConfigExecutionState::NotStarted,
        valid: None,
        current_generation: generation,
        error_code: Some(error_code),
        error_field: None,
        error_reason: None,
        restart_required: false,
        restart_required_fields: Vec::new(),
    }
}

// ---------------------------------------------------------------------------------------------
// Fields that need a restart
// ---------------------------------------------------------------------------------------------
/// The name, where the field changed.
#[verifier::opaque]
pub open spec fn named_if(changed: bool, name: Seq<char>) -> Seq<Seq<char>> {
    if changed {
        seq![name]
    } else {
        Seq::empty()
    }
}

/// The content of the capabilities.
pub open spec fn capabilities_view(capabilities: Option<RunnerCapabilities>) -> Option<
    Seq<Seq<char>>,
> {
    match capabilities {
        Some(found) => Some(text::list_view(found.advertised@)),
        None => None,
    }
}

/// The content of an optional host context.
pub open spec fn host_context_view(context: Option<RunnerHostContext>) -> Option<
    crate::config::HostContextView,
> {
    match context {
        Some(found) => Some(found@),
        None => None,
    }
}

/// The content of an optional QUIC section.
pub open spec fn quic_view(quic: Option<QuicClientConfig>) -> Option<crate::config::QuicView> {
    match quic {
        Some(found) => Some(found@),
        None => None,
    }
}

/// Both directories are absent, or both are given as the same path.
pub open spec fn same_directory(
    platform: Platform,
    a: Option<Seq<char>>,
    b: Option<Seq<char>>,
) -> bool {
    match (a, b) {
        (Some(x), Some(y)) => paths::same_path(platform, x, y),
        (None, None) => true,
        _ => false,
    }
}

/// The fields that differ and that only a restart activates, in the order of the sections. The
/// registry directory differs where it is another path, not where it is written otherwise.
pub open spec fn changed_fields(
    platform: Platform,
    a: RunnerConfig,
    b: RunnerConfig,
) -> Seq<Seq<char>> {
    named_if(capabilities_view(a.capabilities) != capabilities_view(b.capabilities), "capabilities"@)
        + named_if(a.client_id@ != b.client_id@, "client_id"@) + named_if(
        text::option_view(a.display_name) != text::option_view(b.display_name),
        "display_name"@,
    ) + named_if(text::option_view(a.hostname) != text::option_view(b.hostname), "hostname"@)
        + named_if(
        host_context_view(a.host_context) != host_context_view(b.host_context),
        "host_context"@,
    ) + named_if(a.max_concurrent_jobs != b.max_concurrent_jobs, "max_concurrent_jobs"@) + named_if(
        a.acp@ != b.acp@,
        "acp"@,
    ) + named_if(text::option_view(a.owner) != text::option_view(b.owner), "owner"@) + named_if(
        a.poll_interval_ms != b.poll_interval_ms,
        "poll_interval_ms"@,
    ) + named_if(
        !same_directory(
            platform,
            text::option_view(a.project_registry_dir),
            text::option_view(b.project_registry_dir),
        ),
        "project_registry_dir"@,
    ) + named_if(quic_view(a.quic) != quic_view(b.quic), "quic"@) + named_if(
        a.server_url@ != b.server_url@,
        "server_url"@,
    ) + named_if(a.token@ != b.token@, "token"@) + named_if(
        text::option_view(a.transport) != text::option_view(b.transport),
        "transport"@,
    ) + named_if(
        a.websocket_connect_timeout_secs != b.websocket_connect_timeout_secs,
        "websocket_connect_timeout_secs"@,
    )
}

fn note(fields: &mut Vec<String>, changed: bool, name: &str)
    ensures
        text::list_view(final(fields)@) == text::list_view(old(fields)@) + named_if(changed, name@),
{
    reveal(named_if);
    let ghost before = fields@;
    if changed {
        fields.push(name.to_owned());
        assert(text::list_view(fields@) =~= text::list_view(before) + named_if(true, name@));
    } else {
        assert(text::list_view(fields@) =~= text::list_view(before) + named_if(false, name@));
    }
}

fn is_same_directory(platform: Platform, a: &Option<String>, b: &Option<String>) -> (r: bool)
    ensures
        r == same_directory(platform, text::option_view(*a), text::option_view(*b)),
{
    match (a, b) {
        (Some(x), Some(y)) => is_same_path(platform, x.as_str(), y.as_str()),
        (None, None) => true,
        _ => false,
    }
}

fn same_capabilities(a: &Option<RunnerCapabilities>, b: &Option<RunnerCapabilities>) -> (r: bool)
    ensures
        r == (capabilities_view(*a) == capabilities_view(*b)),
{
    match (a, b) {
        (Some(x), Some(y)) => same_list(&x.advertised, &y.advertised),
        (None, None) => true,
        _ => false,
    }
}

fn same_host_context(a: &Option<RunnerHostContext>, b: &Option<RunnerHostContext>) -> (r: bool)
    ensures
        r == (host_context_view(*a) == host_context_view(*b)),
{
    match (a, b) {
        (Some(x), Some(y)) => x.same_as(y),
        (None, None) => true,
        _ => false,
    }
}

fn same_quic(a: &Option<QuicClientConfig>, b: &Option<QuicClientConfig>) -> (r: bool)
    ensures
        r == (quic_view(*a) == quic_view(*b)),
{
    match (a, b) {
        (Some(x), Some(y)) => x.same_as(y),
        (None, None) => true,
        _ => false,
    }
}

/// Returns the fields that differ and that only a restart activates. The sections that a reload
/// activates are not among them, nor is the older spelling of the registry directory.
pub fn restart_required_fields(
    platform: Platform,
    startup: &RunnerConfig,
    candidate: &RunnerConfig,
) -> (r: Vec<String>)
    ensures
        text::list_view(r@) == changed_fields(platform, *startup, *candidate),
{
    let mut fields: Vec<String> = Vec::new();
    assert(text::list_view(fields@) =~= Seq::empty());
    note(
        &mut fields,
        !same_capabilities(&startup.capabilities, &candidate.capabilities),
        "capabilities",
    );
    assert(text::list_view(fields@) =~= named_if(
        capabilities_view(startup.capabilities) != capabilities_view(candidate.capabilities),
        "capabilities"@,
    ));
    note(&mut fields, startup.client_id != candidate.client_id, "client_id");
    note(
        &mut fields,
        !same_option(&startup.display_name, &candidate.display_name),
        "display_name",
    );
    note(&mut fields, !same_option(&startup.hostname, &candidate.hostname), "hostname");
    note(
        &mut fields,
        !same_host_context(&startup.host_context, &candidate.host_context),
        "host_context",
    );
    note(
        &mut fields,
        startup.max_concurrent_jobs != candidate.max_concurrent_jobs,
        "max_concurrent_jobs",
    );
    note(&mut fields, !startup.acp.same_as(&candidate.acp), "acp");
    note(&mut fields, !same_option(&startup.owner, &candidate.owner), "owner");
    note(
        &mut fields,
        startup.poll_interval_ms != candidate.poll_interval_ms,
        "poll_interval_ms",
    );
    note(
        &mut fields,
        !is_same_directory(
            platform,
            &startup.project_registry_dir,
            &candidate.project_registry_dir,
        ),
        "project_registry_dir",
    );
    note(&mut fields, !same_quic(&startup.quic, &candidate.quic), "quic");
    note(&mut fields, startup.server_url != candidate.server_url, "server_url");
    note(&mut fields, startup.token != candidate.token, "token");
    note(&mut fields, !same_option(&startup.transport, &candidate.transport), "transport");
    note(
        &mut fields,
        startup.websocket_connect_timeout_secs != candidate.websocket_connect_timeout_secs,
        "websocket_connect_timeout_secs",
    );
    fields
}

/// The texts of `result` are those of `items`, in ascending order.
pub open spec fn ascending_version(result: Seq<Seq<char>>, items: Seq<Seq<char>>) -> bool {
    &&& result.to_multiset() == items.to_multiset()
    &&& forall|i: int, j: int|
        0 <= i < j < result.len() ==> !text::precedes(
            #[trigger] result[j],
            #[trigger] result[i],
        )
}

/// Sorts texts in ascending order.
pub fn sort_texts(items: Vec<String>) -> (r: Vec<String>)
    ensures
        ascending_version(text::list_view(r@), text::list_view(items@)),
{
    let ghost all = text::list_view(items@);
    let mut sorted: Vec<String> = Vec::new();
    assert(text::list_view(sorted@) =~= Seq::empty());
    assert(all.take(0) =~= Seq::empty());
    for item in it: items
        invariant
            it.seq() == items@,
            all == text::list_view(items@),
            ascending_version(text::list_view(sorted@), all.take(it.index())),
    {
        let ghost before = text::list_view(sorted@);
        let mut at: usize = 0;
        while at < sorted.len() && !comes_before(item.as_str(), sorted[at].as_str())
            invariant
                at <= sorted@.len(),
                before == text::list_view(sorted@),
                forall|i: int| 0 <= i < at ==> !text::precedes(item@, #[trigger] before[i]),
            decreases sorted@.len() - at,
        {
            assert(before[at as int] == sorted@[at as int]@);
            at = at + 1;
        }
        sorted.insert(at, item);
        proof {
            let after = text::list_view(sorted@);
            assert(after =~= before.insert(at as int, item@));
            assert(all.take(it.index() + 1) =~= all.take(it.index()).push(item@));
            vstd::seq_lib::to_multiset_insert(before, at as int, item@);
            vstd::seq_lib::to_multiset_build(all.take(it.index()), item@);
            assert forall|i: int, j: int| 0 <= i < j < after.len() implies !text::precedes(
                #[trigger] after[j],
                #[trigger] after[i],
            ) by {
                if i < at && j == at {
                    assert(after[i] == before[i]);
                } else if i == at {
                    assert(after[j] == before[j - 1]);
                    text::order_is_total(item@, before[at as int]);
                    if j - 1 > at {
                        text::order_is_total(before[at as int], before[j - 1]);
                        assert(!text::precedes(before[j - 1], before[at as int]));
                        if text::precedes(before[j - 1], item@) {
                            text::order_is_transitive(
                                before[j - 1],
                                item@,
                                before[at as int],
                            );
                        }
                    }
                } else if j < at {
                    assert(after[i] == before[i] && after[j] == before[j]);
                } else if i > at {
                    assert(after[i] == before[i - 1] && after[j] == before[j - 1]);
                } else {
                    assert(after[i] == before[i] && after[j] == before[j - 1]);
                }
            }
        }
    }
    assert(all.take(all.len() as int) =~= all);
    sorted
}

// ---------------------------------------------------------------------------------------------
// Laws
// ---------------------------------------------------------------------------------------------
proof fn listed_in_parts(before: Seq<Seq<char>>, changed: bool, name: Seq<char>, x: Seq<char>)
    ensures
        (before + named_if(changed, name)).contains(x) == (before.contains(x) || (changed && x
            == name)),
{
    reveal(named_if);
    let all = before + named_if(changed, name);
    if before.contains(x) {
        assert(all[before.index_of(x)] == x);
    }
    if changed {
        assert(all[before.len() as int] == name);
    }
    if all.contains(x) {
        let i = all.index_of(x);
        if i < before.len() {
            assert(before[i] == x);
        }
    }
}

/// The place of a name among the fields, by its length and its first letter.
spec fn place_of(name: Seq<char>) -> int {
    let n = name.len();
    let c = name[0];
    if n == 12 {
        if c == 'c' {
            0
        } else if c == 'd' {
            2
        } else {
            4
        }
    } else if n == 9 {
        if c == 'c' {
            1
        } else {
            13
        }
    } else if n == 5 {
        if c == 'o' {
            7
        } else {
            12
        }
    } else if n == 8 {
        3
    } else if n == 19 {
        5
    } else if n == 3 {
        6
    } else if n == 16 {
        8
    } else if n == 20 {
        9
    } else if n == 4 {
        10
    } else if n == 10 {
        11
    } else {
        14
    }
}

/// The name at a place among the fields.
spec fn name_at(place: int) -> Seq<char> {
    if place == 0 {
        "capabilities"@
    } else if place == 1 {
        "client_id"@
    } else if place == 2 {
        "display_name"@
    } else if place == 3 {
        "hostname"@
    } else if place == 4 {
        "host_context"@
    } else if place == 5 {
        "max_concurrent_jobs"@
    } else if place == 6 {
        "acp"@
    } else if place == 7 {
        "owner"@
    } else if place == 8 {
        "poll_interval_ms"@
    } else if place == 9 {
        "project_registry_dir"@
    } else if place == 10 {
        "quic"@
    } else if place == 11 {
        "server_url"@
    } else if place == 12 {
        "token"@
    } else if place == 13 {
        "transport"@
    } else {
        "websocket_connect_timeout_secs"@
    }
}

proof fn names_have_their_place()
    ensures
        place_of("capabilities"@) == 0,
        place_of("client_id"@) == 1,
        place_of("display_name"@) == 2,
        place_of("hostname"@) == 3,
        place_of("host_context"@) == 4,
        place_of("max_concurrent_jobs"@) == 5,
        place_of("acp"@) == 6,
        place_of("owner"@) == 7,
        place_of("poll_interval_ms"@) == 8,
        place_of("project_registry_dir"@) == 9,
        place_of("quic"@) == 10,
        place_of("server_url"@) == 11,
        place_of("token"@) == 12,
        place_of("transport"@) == 13,
        place_of("websocket_connect_timeout_secs"@) == 14,
{
    reveal_strlit("capabilities");
    reveal_strlit("client_id");
    reveal_strlit("display_name");
    reveal_strlit("hostname");
    reveal_strlit("host_context");
    reveal_strlit("max_concurrent_jobs");
    reveal_strlit("acp");
    reveal_strlit("owner");
    reveal_strlit("poll_interval_ms");
    reveal_strlit("project_registry_dir");
    reveal_strlit("quic");
    reveal_strlit("server_url");
    reveal_strlit("token");
    reveal_strlit("transport");
    reveal_strlit("websocket_connect_timeout_secs");
}

/// The names whose fields changed, in order.
#[verifier::opaque]
spec fn names_of(c: spec_fn(int) -> bool) -> Seq<Seq<char>> {
    named_if(c(0), "capabilities"@)
        + named_if(c(1), "client_id"@)
        + named_if(c(2), "display_name"@)
        + named_if(c(3), "hostname"@)
        + named_if(c(4), "host_context"@)
        + named_if(c(5), "max_concurrent_jobs"@)
        + named_if(c(6), "acp"@)
        + named_if(c(7), "owner"@)
        + named_if(c(8), "poll_interval_ms"@)
        + named_if(c(9), "project_registry_dir"@)
        + named_if(c(10), "quic"@)
        + named_if(c(11), "server_url"@)
        + named_if(c(12), "token"@)
        + named_if(c(13), "transport"@)
        + named_if(c(14), "websocket_connect_timeout_secs"@)
}

/// The name at `place` is the one that `x` is.
spec fn is_at(x: Seq<char>, place: int) -> bool {
    place_of(x) == place && x == name_at(place)
}

proof fn one_more_name(
    before: Seq<Seq<char>>,
    c: spec_fn(int) -> bool,
    place: int,
    name: Seq<char>,
    x: Seq<char>,
)
    requires
        0 < place < 15,
        name == name_at(place),
        place_of(name) == place,
        before.contains(x) == (place_of(x) < place && c(place_of(x)) && is_at(x, place_of(x))),
    ensures
        (before + named_if(c(place), name)).contains(x) == (place_of(x) < place + 1 && c(
            place_of(x),
        ) && is_at(x, place_of(x))),
{
    listed_in_parts(before, c(place), name, x);
}

proof fn names_of_holds(c: spec_fn(int) -> bool, x: Seq<char>)
    ensures
        names_of(c).contains(x) == (place_of(x) < 15 && c(place_of(x)) && is_at(x, place_of(x))),
{
    reveal(names_of);
    names_have_their_place();
    let s0 = named_if(c(0), "capabilities"@);
    listed_in_parts(Seq::empty(), c(0), "capabilities"@, x);
    assert(Seq::<Seq<char>>::empty() + s0 =~= s0);
    let s1 = s0 + named_if(c(1), "client_id"@);
    one_more_name(s0, c, 1, "client_id"@, x);
    let s2 = s1 + named_if(c(2), "display_name"@);
    one_more_name(s1, c, 2, "display_name"@, x);
    let s3 = s2 + named_if(c(3), "hostname"@);
    one_more_name(s2, c, 3, "hostname"@, x);
    let s4 = s3 + named_if(c(4), "host_context"@);
    one_more_name(s3, c, 4, "host_context"@, x);
    let s5 = s4 + named_if(c(5), "max_concurrent_jobs"@);
    one_more_name(s4, c, 5, "max_concurrent_jobs"@, x);
    let s6 = s5 + named_if(c(6), "acp"@);
    one_more_name(s5, c, 6, "acp"@, x);
    let s7 = s6 + named_if(c(7), "owner"@);
    one_more_name(s6, c, 7, "owner"@, x);
    let s8 = s7 + named_if(c(8), "poll_interval_ms"@);
    one_more_name(s7, c, 8, "poll_interval_ms"@, x);
    let s9 = s8 + named_if(c(9), "project_registry_dir"@);
    one_more_name(s8, c, 9, "project_registry_dir"@, x);
    let s10 = s9 + named_if(c(10), "quic"@);
    one_more_name(s9, c, 10, "quic"@, x);
    let s11 = s10 + named_if(c(11), "server_url"@);
    one_more_name(s10, c, 11, "server_url"@, x);
    let s12 = s11 + named_if(c(12), "token"@);
    one_more_name(s11, c, 12, "token"@, x);
    let s13 = s12 + named_if(c(13), "transport"@);
    one_more_name(s12, c, 13, "transport"@, x);
    let s14 = s13 + named_if(c(14), "websocket_connect_timeout_secs"@);
    one_more_name(s13, c, 14, "websocket_connect_timeout_secs"@, x);
}

/// The fields that only a restart activates.
pub open spec fn field_names() -> Seq<Seq<char>> {
    seq![
        "capabilities"@,
        "client_id"@,
        "display_name"@,
        "hostname"@,
        "host_context"@,
        "max_concurrent_jobs"@,
        "acp"@,
        "owner"@,
        "poll_interval_ms"@,
        "project_registry_dir"@,
        "quic"@,
        "server_url"@,
        "token"@,
        "transport"@,
        "websocket_connect_timeout_secs"@,
    ]
}

/// Two optional texts say the same: both are missing, or both are there with the same content.
pub open spec fn same_text(a: Option<String>, b: Option<String>) -> bool {
    match (a, b) {
        (Some(x), Some(y)) => x@ == y@,
        (None, None) => true,
        _ => false,
    }
}

spec fn are_one(a: Seq<Seq<char>>, b: Seq<Seq<char>>) -> bool {
    a == b
}

proof fn only_field_names_are_listed(c: spec_fn(int) -> bool, x: Seq<char>)
    requires
        names_of(c).contains(x),
    ensures
        field_names().contains(x),
{
    names_of_holds(c, x);
    let names = field_names();
    let place = place_of(x);
    if place == 0 {
        assert(names[0] == x);
    }
    if place == 1 {
        assert(names[1] == x);
    }
    if place == 2 {
        assert(names[2] == x);
    }
    if place == 3 {
        assert(names[3] == x);
    }
    if place == 4 {
        assert(names[4] == x);
    }
    if place == 5 {
        assert(names[5] == x);
    }
    if place == 6 {
        assert(names[6] == x);
    }
    if place == 7 {
        assert(names[7] == x);
    }
    if place == 8 {
        assert(names[8] == x);
    }
    if place == 9 {
        assert(names[9] == x);
    }
    if place == 10 {
        assert(names[10] == x);
    }
    if place == 11 {
        assert(names[11] == x);
    }
    if place == 12 {
        assert(names[12] == x);
    }
    if place == 13 {
        assert(names[13] == x);
    }
    if place == 14 {
        assert(names[14] == x);
    }
}

proof fn each_name_goes_with_its_place(c: spec_fn(int) -> bool)
    ensures
        names_of(c).contains("capabilities"@) == c(0),
        names_of(c).contains("client_id"@) == c(1),
        names_of(c).contains("display_name"@) == c(2),
        names_of(c).contains("hostname"@) == c(3),
        names_of(c).contains("host_context"@) == c(4),
        names_of(c).contains("max_concurrent_jobs"@) == c(5),
        names_of(c).contains("acp"@) == c(6),
        names_of(c).contains("owner"@) == c(7),
        names_of(c).contains("poll_interval_ms"@) == c(8),
        names_of(c).contains("project_registry_dir"@) == c(9),
        names_of(c).contains("quic"@) == c(10),
        names_of(c).contains("server_url"@) == c(11),
        names_of(c).contains("token"@) == c(12),
        names_of(c).contains("transport"@) == c(13),
        names_of(c).contains("websocket_connect_timeout_secs"@) == c(14),
        forall|x: Seq<char>| names_of(c).contains(x) ==> #[trigger] field_names().contains(x),
{
    names_have_their_place();
    assert(names_of(c).contains("capabilities"@) == c(0)) by {
        names_of_holds(c, "capabilities"@);
    }
    assert(names_of(c).contains("client_id"@) == c(1)) by {
        names_of_holds(c, "client_id"@);
    }
    assert(names_of(c).contains("display_name"@) == c(2)) by {
        names_of_holds(c, "display_name"@);
    }
    assert(names_of(c).contains("hostname"@) == c(3)) by {
        names_of_holds(c, "hostname"@);
    }
    assert(names_of(c).contains("host_context"@) == c(4)) by {
        names_of_holds(c, "host_context"@);
    }
    assert(names_of(c).contains("max_concurrent_jobs"@) == c(5)) by {
        names_of_holds(c, "max_concurrent_jobs"@);
    }
    assert(names_of(c).contains("acp"@) == c(6)) by {
        names_of_holds(c, "acp"@);
    }
    assert(names_of(c).contains("owner"@) == c(7)) by {
        names_of_holds(c, "owner"@);
    }
    assert(names_of(c).contains("poll_interval_ms"@) == c(8)) by {
        names_of_holds(c, "poll_interval_ms"@);
    }
    assert(names_of(c).contains("project_registry_dir"@) == c(9)) by {
        names_of_holds(c, "project_registry_dir"@);
    }
    assert(names_of(c).contains("quic"@) == c(10)) by {
        names_of_holds(c, "quic"@);
    }
    assert(names_of(c).contains("server_url"@) == c(11)) by {
        names_of_holds(c, "server_url"@);
    }
    assert(names_of(c).contains("token"@) == c(12)) by {
        names_of_holds(c, "token"@);
    }
    assert(names_of(c).contains("transport"@) == c(13)) by {
        names_of_holds(c, "transport"@);
    }
    assert(names_of(c).contains("websocket_connect_timeout_secs"@) == c(14)) by {
        names_of_holds(c, "websocket_connect_timeout_secs"@);
    }
    assert forall|x: Seq<char>| names_of(c).contains(x) implies #[trigger] field_names().contains(
        x,
    ) by {
        only_field_names_are_listed(c, x);
    }
}

/// The two configurations differ in the content of the field at a place.
#[verifier::opaque]
spec fn differs(platform: Platform, a: RunnerConfig, b: RunnerConfig, place: int) -> bool {
    if place == 0 {
        capabilities_view(a.capabilities) != capabilities_view(b.capabilities)
    } else if place == 1 {
        a.client_id@ != b.client_id@
    } else if place == 2 {
        text::option_view(a.display_name) != text::option_view(b.display_name)
    } else if place == 3 {
        text::option_view(a.hostname) != text::option_view(b.hostname)
    } else if place == 4 {
        host_context_view(a.host_context) != host_context_view(b.host_context)
    } else if place == 5 {
        a.max_concurrent_jobs != b.max_concurrent_jobs
    } else if place == 6 {
        a.acp@ != b.acp@
    } else if place == 7 {
        text::option_view(a.owner) != text::option_view(b.owner)
    } else if place == 8 {
        a.poll_interval_ms != b.poll_interval_ms
    } else if place == 9 {
        !same_directory(
            platform,
            text::option_view(a.project_registry_dir),
            text::option_view(b.project_registry_dir),
        )
    } else if place == 10 {
        quic_view(a.quic) != quic_view(b.quic)
    } else if place == 11 {
        a.server_url@ != b.server_url@
    } else if place == 12 {
        a.token@ != b.token@
    } else if place == 13 {
        text::option_view(a.transport) != text::option_view(b.transport)
    } else {
        a.websocket_connect_timeout_secs != b.websocket_connect_timeout_secs
    }
}

proof fn listed_names_are_those_that_differ(platform: Platform, a: RunnerConfig, b: RunnerConfig)
    ensures
        are_one(
            changed_fields(platform, a, b),
            names_of(|place: int| differs(platform, a, b, place)),
        ),
{
    reveal(names_of);
    reveal(differs);
    let c = |place: int| differs(platform, a, b, place);
    assert(c(0) == (capabilities_view(a.capabilities) != capabilities_view(b.capabilities)));
    assert(c(1) == (a.client_id@ != b.client_id@));
    assert(c(2) == (text::option_view(a.display_name) != text::option_view(b.display_name)));
    assert(c(3) == (text::option_view(a.hostname) != text::option_view(b.hostname)));
    assert(c(4) == (host_context_view(a.host_context) != host_context_view(b.host_context)));
    assert(c(5) == (a.max_concurrent_jobs != b.max_concurrent_jobs));
    assert(c(6) == (a.acp@ != b.acp@));
    assert(c(7) == (text::option_view(a.owner) != text::option_view(b.owner)));
    assert(c(8) == (a.poll_interval_ms != b.poll_interval_ms));
    assert(c(9) == (!same_directory(
            platform,
            text::option_view(a.project_registry_dir),
            text::option_view(b.project_registry_dir),
        )));
    assert(c(10) == (quic_view(a.quic) != quic_view(b.quic)));
    assert(c(11) == (a.server_url@ != b.server_url@));
    assert(c(12) == (a.token@ != b.token@));
    assert(c(13) == (text::option_view(a.transport) != text::option_view(b.transport)));
    assert(c(14) == (a.websocket_connect_timeout_secs != b.websocket_connect_timeout_secs));
}

/// A field waits for a restart exactly where the two configurations differ in it: for each of the
/// fields that only a restart activates, its name is listed if and only if its value in the
/// candidate is another than at the start. Nothing else is ever listed.
#[verifier::rlimit(60)]
pub proof fn fields_wait_exactly_where_they_differ(
    platform: Platform,
    a: RunnerConfig,
    b: RunnerConfig,
)
    ensures
        ({
            let listed = changed_fields(platform, a, b);
            &&& listed.contains("capabilities"@) <==> !(match (a.capabilities, b.capabilities) {
                (Some(x), Some(y)) => crate::config::same_texts(x.advertised@, y.advertised@),
                (None, None) => true,
                _ => false,
            })
            &&& listed.contains("client_id"@) <==> a.client_id@ != b.client_id@
            &&& listed.contains("display_name"@) <==> !same_text(a.display_name, b.display_name)
            &&& listed.contains("hostname"@) <==> !same_text(a.hostname, b.hostname)
            &&& listed.contains("host_context"@) <==> !(match (a.host_context, b.host_context) {
                (Some(x), Some(y)) => same_text(x.role, y.role) && same_text(x.runtime, y.runtime)
                    && same_text(x.service, y.service),
                (None, None) => true,
                _ => false,
            })
            &&& listed.contains("max_concurrent_jobs"@) <==> a.max_concurrent_jobs
                != b.max_concurrent_jobs
            &&& listed.contains("acp"@) <==> !crate::config::same_agents(a.acp, b.acp)
            &&& listed.contains("owner"@) <==> !same_text(a.owner, b.owner)
            &&& listed.contains("poll_interval_ms"@) <==> a.poll_interval_ms != b.poll_interval_ms
            &&& listed.contains("project_registry_dir"@) <==> !(match (
                a.project_registry_dir,
                b.project_registry_dir,
            ) {
                (Some(x), Some(y)) => paths::same_path(platform, x@, y@),
                (None, None) => true,
                _ => false,
            })
            &&& listed.contains("quic"@) <==> !(match (a.quic, b.quic) {
                (Some(x), Some(y)) => x.server_addr@ == y.server_addr@ && x.server_name@
                    == y.server_name@ && x.alpn@ == y.alpn@ && x.connect_timeout_secs
                    == y.connect_timeout_secs && x.keepalive_interval_secs
                    == y.keepalive_interval_secs,
                (None, None) => true,
                _ => false,
            })
            &&& listed.contains("server_url"@) <==> a.server_url@ != b.server_url@
            &&& listed.contains("token"@) <==> a.token@ != b.token@
            &&& listed.contains("transport"@) <==> !same_text(a.transport, b.transport)
            &&& listed.contains("websocket_connect_timeout_secs"@)
                <==> a.websocket_connect_timeout_secs != b.websocket_connect_timeout_secs
        }),
        forall|x: Seq<char>|
            changed_fields(platform, a, b).contains(x) ==> #[trigger] field_names().contains(x),
{
    let c = |place: int| differs(platform, a, b, place);
    listed_names_are_those_that_differ(platform, a, b);
    each_name_goes_with_its_place(c);
    contents_differ_where_the_settings_do(platform, a, b);
}

proof fn contents_differ_where_the_settings_do(platform: Platform, a: RunnerConfig, b: RunnerConfig)
    ensures
        ({
            &&& differs(platform, a, b, 0) <==> !(match (a.capabilities, b.capabilities) {
                (Some(x), Some(y)) => crate::config::same_texts(x.advertised@, y.advertised@),
                (None, None) => true,
                _ => false,
            })
            &&& differs(platform, a, b, 1) <==> a.client_id@ != b.client_id@
            &&& differs(platform, a, b, 2) <==> !same_text(a.display_name, b.display_name)
            &&& differs(platform, a, b, 3) <==> !same_text(a.hostname, b.hostname)
            &&& differs(platform, a, b, 4) <==> !(match (a.host_context, b.host_context) {
                (Some(x), Some(y)) => same_text(x.role, y.role) && same_text(x.runtime, y.runtime)
                    && same_text(x.service, y.service),
                (None, None) => true,
                _ => false,
            })
            &&& differs(platform, a, b, 5) <==> a.max_concurrent_jobs
                != b.max_concurrent_jobs
            &&& differs(platform, a, b, 6) <==> !crate::config::same_agents(a.acp, b.acp)
            &&& differs(platform, a, b, 7) <==> !same_text(a.owner, b.owner)
            &&& differs(platform, a, b, 8) <==> a.poll_interval_ms != b.poll_interval_ms
            &&& differs(platform, a, b, 9) <==> !(match (
                a.project_registry_dir,
                b.project_registry_dir,
            ) {
                (Some(x), Some(y)) => paths::same_path(platform, x@, y@),
                (None, None) => true,
                _ => false,
            })
            &&& differs(platform, a, b, 10) <==> !(match (a.quic, b.quic) {
                (Some(x), Some(y)) => x.server_addr@ == y.server_addr@ && x.server_name@
                    == y.server_name@ && x.alpn@ == y.alpn@ && x.connect_timeout_secs
                    == y.connect_timeout_secs && x.keepalive_interval_secs
                    == y.keepalive_interval_secs,
                (None, None) => true,
                _ => false,
            })
            &&& differs(platform, a, b, 11) <==> a.server_url@ != b.server_url@
            &&& differs(platform, a, b, 12) <==> a.token@ != b.token@
            &&& differs(platform, a, b, 13) <==> !same_text(a.transport, b.transport)
            &&& differs(platform, a, b, 14)
                <==> a.websocket_connect_timeout_secs != b.websocket_connect_timeout_secs
        }),
{
    reveal(differs);
    crate::config::agents_compare_by_content(a.acp, b.acp);
    match (a.capabilities, b.capabilities) {
        (Some(x), Some(y)) => {
            let none = Seq::<crate::config::TextEntry>::empty();
            crate::config::lists_compare_by_content(x.advertised@, y.advertised@, none, none);
        },
        _ => {},
    }
}

/// What the codes of candidate errors tell apart: a file that cannot be read, one that does not
/// parse, the tool providers, and everything else.
pub proof fn error_codes_follow_the_beginning(error: Seq<char>, rest: Seq<char>)
    ensures
        error_code_of("failed to read config"@ + rest) == RunnerConfigErrorCode::ConfigReadFailed,
        error_code_of("failed to parse config"@ + rest) == RunnerConfigErrorCode::ConfigParseFailed,
        error_code_of("tool_providers."@ + rest) == RunnerConfigErrorCode::ProviderConfigInvalid,
        error_code_of(error) == RunnerConfigErrorCode::ConfigValidationFailed <==> {
            &&& !"failed to read config"@.is_prefix_of(error)
            &&& !"failed to parse config"@.is_prefix_of(error)
            &&& !"tool_providers."@.is_prefix_of(error)
        },
        error_code_of(error) != RunnerConfigErrorCode::ConfigReadFailed ==> !(
        "failed to read config"@.is_prefix_of(error)),
{
    reveal_strlit("failed to read config");
    reveal_strlit("failed to parse config");
    reveal_strlit("tool_providers.");
    let read = "failed to read config"@ + rest;
    let parse = "failed to parse config"@ + rest;
    let tools = "tool_providers."@ + rest;
    assert("failed to read config"@ =~= read.subrange(0, 21));
    assert("failed to parse config"@ =~= parse.subrange(0, 22));
    assert("tool_providers."@ =~= tools.subrange(0, 15));
    assert(parse[10] == 'p' && "failed to read config"@[10] == 'r');
    assert(tools[0] == 't' && "failed to read config"@[0] == 'f' && "failed to parse config"@[0]
        == 'f');
}

/// A refusal asks for no restart and is answered under the action and the generation that it came
/// with: a bad candidate as completed and not valid, an operation that could not begin as not
/// started, of which nothing is said to be valid or not.
pub proof fn refusals_keep_action_and_generation(
    action: RunnerConfigAction,
    generation: Option<u64>,
    current: u64,
    code: RunnerConfigErrorCode,
    error: Seq<char>,
)
    ensures
        ({
            let refused = not_started(action, generation, code);
            let bad = candidate_error(action, current, error);
            &&& refused.action == action && bad.action == action
            &&& refused.current_generation == generation && bad.current_generation == Some(current)
            &&& refused.error_code == Some(code)
            &&& refused.valid is None && bad.valid == Some(false)
            &&& refused.error_field is None && refused.error_reason is None
            &&& bad.error_code is Some
            &&& bad.error_field is Some <==> bad.error_reason is Some
            &&& !refused.restart_required && !bad.restart_required
            &&& refused.execution_state == RunnerConfigExecutionState::NotStarted
            &&& bad.execution_state == RunnerConfigExecutionState::Completed
        }),
{
}

proof fn shorter_beginning(short: Seq<char>, long: Seq<char>, text: Seq<char>)
    requires
        short.is_prefix_of(long),
        long.is_prefix_of(text),
    ensures
        short.is_prefix_of(text),
{
    assert(text.subrange(0, short.len() as int) =~= long.subrange(0, short.len() as int));
}

/// A complaint is put down to a list of paths only where it begins with the name of that list.
pub proof fn path_lists_are_blamed_by_name(error: Seq<char>)
    ensures
        diagnostic_of(error).0 == Some(RunnerConfigErrorField::SkillsRoots) ==> (
        "skills.roots"@).is_prefix_of(error),
        diagnostic_of(error).0 == Some(RunnerConfigErrorField::InstructionsFiles) ==> (
        "instructions.files"@).is_prefix_of(error),
        diagnostic_of(error).1 == Some(RunnerConfigErrorReason::InvalidPath) ==> (
        diagnostic_of(error).0 == Some(RunnerConfigErrorField::SkillsRoots) || diagnostic_of(error).0
            == Some(RunnerConfigErrorField::InstructionsFiles)),
        diagnostic_of(error).0 is Some <==> diagnostic_of(error).1 is Some,
{
    reveal_strlit("skills.roots");
    reveal_strlit("skills.roots entries must be absolute paths");
    reveal_strlit("skills.roots contains an unsupported Windows path namespace");
    reveal_strlit("skills.roots contains duplicate path identities");
    reveal_strlit("skills.roots may contain at most ");
    reveal_strlit("skills.roots entries must be non-empty paths of at most ");
    reveal_strlit("instructions.files");
    reveal_strlit("instructions.files entries must be absolute paths");
    reveal_strlit("instructions.files contains an unsupported Windows path namespace");
    reveal_strlit("instructions.files contains duplicate path identities");
    reveal_strlit("instructions.files may contain at most ");
    reveal_strlit("instructions.files entries must be non-empty paths of at most ");
    let skills = "skills.roots"@;
    let files = "instructions.files"@;
    let n = skills.len() as int;
    let m = files.len() as int;
    assert("skills.roots entries must be absolute paths"@.subrange(0, n) =~= skills);
    assert("skills.roots contains an unsupported Windows path namespace"@.subrange(0, n) =~= skills);
    assert("skills.roots contains duplicate path identities"@.subrange(0, n) =~= skills);
    assert("skills.roots may contain at most "@.subrange(0, n) =~= skills);
    assert("skills.roots entries must be non-empty paths of at most "@.subrange(0, n) =~= skills);
    assert("instructions.files entries must be absolute paths"@.subrange(0, m) =~= files);
    assert("instructions.files contains an unsupported Windows path namespace"@.subrange(0, m)
        =~= files);
    assert("instructions.files contains duplicate path identities"@.subrange(0, m) =~= files);
    assert("instructions.files may contain at most "@.subrange(0, m) =~= files);
    assert("instructions.files entries must be non-empty paths of at most "@.subrange(0, m)
        =~= files);
    assert forall|long: Seq<char>|
        skills.is_prefix_of(long) && (#[trigger] long.is_prefix_of(error)) implies skills.is_prefix_of(
        error,
    ) by {
        shorter_beginning(skills, long, error);
    }
    assert forall|long: Seq<char>|
        files.is_prefix_of(long) && (#[trigger] long.is_prefix_of(error)) implies files.is_prefix_of(
        error,
    ) by {
        shorter_beginning(files, long, error);
    }
}

} // verus!
