//! The active configuration: how a candidate is checked, and how it is activated without a
//! restart.
use crate::config::{
    InstructionsConfig, McpGatewayConfig, PolicyView, RunnerConfig, RunnerPolicy, ShellConfig,
    ShellView, SkillsConfig, SshConfig, SshResourceView, ToolProvidersConfig, ToolProvidersView,
};
use crate::entry::ProviderEntry;
use crate::gateway::{self, McpGatewayManager};
use crate::paths::Platform;
use crate::reload_report::{
    self, config_candidate_error_response, config_not_started, reload_error_code,
    reload_error_diagnostic, restart_required_fields, sort_texts, OperationView, RunnerConfigAction,
    RunnerConfigErrorCode, RunnerConfigErrorField, RunnerConfigErrorReason,
    RunnerConfigExecutionState, RunnerConfigOperationResponse, RunnerConfigReloadStatus, StatusView,
};
use crate::table;
use crate::text::{self, copy_list};
use vstd::prelude::*;
use vstd::string::*;

verus! {

/// The sections of the configuration that are active, and how the last reload went.
#[derive(Debug)]
pub struct HotRunnerConfig {
    pub generation: u64,
    pub policy: RunnerPolicy,
    pub shell: ShellConfig,
    pub skills: SkillsConfig,
    pub instructions: InstructionsConfig,
    /// The SSH resources of the configuration file.
    pub static_ssh: SshConfig,
    /// The SSH resources in effect: those of the file and the managed ones of the process.
    pub ssh: SshConfig,
    pub tool_providers: ToolProvidersConfig,
    pub reload_status: RunnerConfigReloadStatus,
}

/// The content of the active configuration.
pub struct HotView {
    pub generation: u64,
    pub policy: PolicyView,
    pub shell: ShellView,
    pub skills: Seq<Seq<char>>,
    pub instructions: Seq<Seq<char>>,
    pub static_ssh: Seq<SshResourceView>,
    pub ssh: Seq<SshResourceView>,
    pub tool_providers: ToolProvidersView,
    pub reload_status: StatusView,
}

impl View for HotRunnerConfig {
    type V = HotView;

    open spec fn view(&self) -> HotView {
        HotView {
            generation: self.generation,
            policy: self.policy@,
            shell: self.shell@,
            skills: self.skills@,
            instructions: self.instructions@,
            static_ssh: self.static_ssh@,
            ssh: self.ssh@,
            tool_providers: self.tool_providers@,
            reload_status: self.reload_status@,
        }
    }
}

/// The active configuration that a configuration file gives.
pub open spec fn activated(
    generation: u64,
    cfg: RunnerConfig,
    ssh: Seq<SshResourceView>,
    status: StatusView,
) -> HotView {
    HotView {
        generation,
        policy: cfg.policy@,
        shell: cfg.shell@,
        skills: cfg.skills@,
        instructions: cfg.instructions@,
        static_ssh: cfg.ssh@,
        ssh,
        tool_providers: cfg.tool_providers@,
        reload_status: status,
    }
}

impl HotRunnerConfig {
    /// The active configuration that a configuration file gives. `merged_ssh` is what merging its
    /// SSH resources with the managed ones gave.
    pub fn new(
        generation: u64,
        cfg: &RunnerConfig,
        merged_ssh: Result<SshConfig, String>,
        status: RunnerConfigReloadStatus,
    ) -> (r: Result<Self, String>)
        ensures
            match merged_ssh {
                Ok(ssh) => r matches Ok(hot) && hot@ == activated(generation, *cfg, ssh@, status@),
                Err(error) => r matches Err(e) && e@ == error@,
            },
    {
        let ssh = merged_ssh?;
        Ok(Self::activate(generation, cfg, ssh, status))
    }

    fn activate(
        generation: u64,
        cfg: &RunnerConfig,
        ssh: SshConfig,
        status: RunnerConfigReloadStatus,
    ) -> (r: Self)
        ensures
            r@ == activated(generation, *cfg, ssh@, status@),
    {
        HotRunnerConfig {
            generation,
            policy: cfg.policy.clone(),
            shell: cfg.shell.clone(),
            skills: cfg.skills.clone(),
            instructions: cfg.instructions.clone(),
            static_ssh: cfg.ssh.clone(),
            ssh,
            tool_providers: cfg.tool_providers.clone(),
            reload_status: status,
        }
    }

    /// Returns how the last reload went.
    pub fn reload_status(&self) -> (r: RunnerConfigReloadStatus)
        ensures
            r@ == self@.reload_status,
    {
        self.reload_status.clone()
    }
}

/// What the plugin manager said to a candidate. It applies the candidate and has the rest of it
/// committed, or it refuses and nothing is committed.
#[derive(Debug, Clone, Copy, PartialEq, Eq, Structural)]
pub enum PluginReply {
    Applied,
    ReloadBusy,
    ManagerStopping,
    ReloadStateFailed,
    Rejected,
}

/// What is to be told of a reload.
#[derive(Debug)]
pub enum ReloadNotice {
    Failed {
        code: RunnerConfigErrorCode,
        field: Option<RunnerConfigErrorField>,
        reason: Option<RunnerConfigErrorReason>,
    },
    Activated { result: String },
}

/// What a reload came to.
#[derive(Debug)]
pub struct ReloadReport {
    pub status: RunnerConfigReloadStatus,
    pub response: RunnerConfigOperationResponse,
    /// What is to be told, if anything.
    pub notice: Option<ReloadNotice>,
    /// Whether the tools must hear that the status changed.
    pub status_changed: bool,
    /// The provider entries that left the gateway.
    pub retired: Vec<ProviderEntry>,
}

/// A candidate that passed its checks.
#[derive(Debug)]
pub struct PreparedReload {
    pub next: HotRunnerConfig,
    pub mcp_gateway: McpGatewayConfig,
}

/// The configuration of a running runner.
#[derive(Debug)]
pub struct ReloadableRunnerConfig {
    pub platform: Platform,
    pub startup: RunnerConfig,
    pub path: String,
    pub current: HotRunnerConfig,
    pub mcp_gateway: McpGatewayManager,
    pub stopping: bool,
}

/// The status after a failed reload: the generation and the fields that wait for a restart stay.
pub open spec fn failed_status(
    status: StatusView,
    code: RunnerConfigErrorCode,
    field: Option<RunnerConfigErrorField>,
    reason: Option<RunnerConfigErrorReason>,
) -> StatusView {
    StatusView {
        last_reload_result: "failure"@,
        last_reload_error_code: Some(code),
        last_reload_error_field: field,
        last_reload_error_reason: reason,
        ..status
    }
}

/// The status after an activated candidate.
pub open spec fn activated_status(generation: u64, fields: Seq<Seq<char>>) -> StatusView {
    StatusView {
        generation,
        last_reload_result: if fields.len() == 0 {
            "success"@
        } else {
            "partial"@
        },
        last_reload_error_code: None,
        last_reload_error_field: None,
        last_reload_error_reason: None,
        restart_required: fields.len() > 0,
        restart_required_fields: fields,
    }
}

/// The answer to a check or a reload of a valid candidate.
pub open spec fn valid_answer(
    action: RunnerConfigAction,
    generation: u64,
    restart_required: bool,
) -> OperationView {
    OperationView {
        action,
        execution_state: RunnerConfigExecutionState::Completed,
        valid: Some(true),
        current_generation: Some(generation),
        error_code: None,
        error_field: None,
        error_reason: None,
        restart_required,
    }
}

/// The generation after this one.
pub open spec fn next_generation(generation: u64) -> u64 {
    if generation == u64::MAX {
        generation
    } else {
        (generation + 1) as u64
    }
}

/// Why a reload does not start, if it does not: the runner is stopping, or its generation is not
/// the expected one.
pub open spec fn reload_refusal(
    stopping: bool,
    generation: u64,
    expected: Option<u64>,
) -> Option<RunnerConfigErrorCode> {
    if stopping {
        Some(RunnerConfigErrorCode::RunnerUnavailable)
    } else if expected is Some && expected->0 != generation {
        Some(RunnerConfigErrorCode::ConfigGenerationConflict)
    } else {
        None
    }
}

/// What is wrong with a candidate: it cannot be loaded, or its SSH resources collide with the
/// managed ones.
pub open spec fn candidate_fault(
    loaded: Result<RunnerConfig, String>,
    merged_ssh: Result<SshConfig, String>,
) -> Option<Seq<char>> {
    match loaded {
        Err(error) => Some(error@),
        Ok(_) => match merged_ssh {
            Err(error) => Some(error@),
            Ok(_) => None,
        },
    }
}

/// Why the plugin manager's reply keeps a reload from starting, if it does.
pub open spec fn plugin_refusal(reply: PluginReply) -> Option<RunnerConfigErrorCode> {
    match reply {
        PluginReply::ReloadBusy => Some(RunnerConfigErrorCode::PluginReloadBusy),
        PluginReply::ManagerStopping => Some(RunnerConfigErrorCode::RunnerUnavailable),
        PluginReply::ReloadStateFailed => Some(RunnerConfigErrorCode::PluginReloadFailed),
        _ => None,
    }
}

/// The answer where the plugin manager rejected the candidate.
pub open spec fn plugin_rejection(generation: u64) -> OperationView {
    OperationView {
        action: RunnerConfigAction::Reload,
        execution_state: RunnerConfigExecutionState::Completed,
        valid: Some(false),
        current_generation: Some(generation),
        error_code: Some(RunnerConfigErrorCode::PluginReloadFailed),
        error_field: None,
        error_reason: None,
        restart_required: false,
    }
}

/// The notice tells of a failure.
pub open spec fn tells_failure(
    notice: Option<ReloadNotice>,
    code: RunnerConfigErrorCode,
    field: Option<RunnerConfigErrorField>,
    reason: Option<RunnerConfigErrorReason>,
) -> bool {
    notice == Some(ReloadNotice::Failed { code, field, reason })
}

/// A report of a reload that did not start: the status is as it was.
pub open spec fn reports_not_started(
    report: ReloadReport,
    before: StatusView,
    generation: u64,
    code: RunnerConfigErrorCode,
) -> bool {
    &&& report.status@ == before
    &&& report.response.view() == reload_report::not_started(
        RunnerConfigAction::Reload,
        Some(generation),
        code,
    )
    &&& report.response.fields().len() == 0
    &&& report.notice is None
    &&& !report.status_changed
    &&& report.retired@.len() == 0
}

/// A report of a candidate that is not valid.
pub open spec fn reports_candidate_fault(
    report: ReloadReport,
    before: StatusView,
    generation: u64,
    error: Seq<char>,
) -> bool {
    let code = reload_report::error_code_of(error);
    let (field, reason) = reload_report::diagnostic_of(error);
    &&& report.status@ == failed_status(before, code, field, reason)
    &&& report.response.view() == reload_report::candidate_error(
        RunnerConfigAction::Reload,
        generation,
        error,
    )
    &&& report.response.fields().len() == 0
    &&& tells_failure(report.notice, code, field, reason)
    &&& report.status_changed
    &&& report.retired@.len() == 0
}

/// A report of a candidate that the plugin manager rejected.
pub open spec fn reports_plugin_rejection(
    report: ReloadReport,
    before: StatusView,
    generation: u64,
) -> bool {
    let code = RunnerConfigErrorCode::PluginReloadFailed;
    &&& report.status@ == failed_status(before, code, None, None)
    &&& report.response.view() == plugin_rejection(generation)
    &&& report.response.fields().len() == 0
    &&& tells_failure(report.notice, code, None, None)
    &&& report.status_changed
    &&& report.retired@.len() == 0
}

/// A report of an activated candidate.
pub open spec fn reports_activation(
    report: ReloadReport,
    generation: u64,
    fields: Seq<Seq<char>>,
) -> bool {
    &&& report.status@ == activated_status(generation, fields)
    &&& report.response.view() == valid_answer(
        RunnerConfigAction::Reload,
        generation,
        fields.len() > 0,
    )
    &&& reload_report::ascending_version(report.response.fields(), fields)
    &&& report.notice matches Some(ReloadNotice::Activated { result }) && result@
        == activated_status(generation, fields).last_reload_result
    &&& !report.status_changed
}

/// Nothing but the reload status may differ.
pub open spec fn same_but_status(
    before: ReloadableRunnerConfig,
    after: ReloadableRunnerConfig,
) -> bool {
    &&& after.platform == before.platform
    &&& after.startup == before.startup
    &&& after.path == before.path
    &&& after.mcp_gateway == before.mcp_gateway
    &&& after.stopping == before.stopping
    &&& after.current@ == (HotView { reload_status: after.current@.reload_status, ..before.current@
    })
}

/// The gateway holds what a new provider configuration makes of the old providers.
pub open spec fn gateway_follows(
    before: McpGatewayManager,
    config: McpGatewayConfig,
    after: McpGatewayManager,
) -> bool {
    &&& after.well_formed()
    &&& after.stopping == before.stopping
    &&& after.request_timeout_secs == gateway::clamped_timeout(config.request_timeout_secs)
    &&& forall|id: Seq<char>|
        gateway::entry_follows(
            before.providers@,
            config.providers@,
            config.providers@.len() as int,
            id,
            #[trigger] table::entry_of(after.providers@, id),
        )
}

/// The entries that a new provider configuration retires.
pub open spec fn gateway_retires(before: McpGatewayManager, config: McpGatewayConfig) -> Seq<
    crate::entry::EntryView,
> {
    let n = config.providers@.len() as int;
    gateway::replaced_entries(before.providers@, config.providers@, n) + gateway::entries_view(
        gateway::left_over(before.providers@, config.providers@, n),
    )
}

impl ReloadableRunnerConfig {
    /// The gateway is well formed and stops with the runner.
    pub open spec fn well_formed(self) -> bool {
        self.mcp_gateway.well_formed() && self.mcp_gateway.stopping == self.stopping
    }

    /// The configuration of a runner that starts. `merged_ssh` is what merging its SSH resources
    /// with the managed ones gave: the managed ones were taken so that they do not collide.
    pub fn new(
        platform: Platform,
        startup: RunnerConfig,
        path: String,
        merged_ssh: SshConfig,
        status: RunnerConfigReloadStatus,
    ) -> (r: Self)
        ensures
            r.well_formed(),
            r.platform == platform,
            r.startup == startup,
            r.path == path,
            !r.stopping,
            r.current@ == activated(1, startup, merged_ssh@, status@),
            r.mcp_gateway.request_timeout_secs == gateway::clamped_timeout(
                startup.mcp_gateway.request_timeout_secs,
            ),
            forall|id: Seq<char>|
                gateway::entry_follows(
                    Seq::empty(),
                    startup.mcp_gateway.providers@,
                    startup.mcp_gateway.providers@.len() as int,
                    id,
                    #[trigger] table::entry_of(r.mcp_gateway.providers@, id),
                ),
    {
        let mcp_gateway = McpGatewayManager::new(&startup.mcp_gateway);
        let current = HotRunnerConfig::activate(1, &startup, merged_ssh, status);
        ReloadableRunnerConfig { platform, startup, path, current, mcp_gateway, stopping: false }
    }

    /// Returns the address of the server. Only a restart changes it.
    pub fn server_url(&self) -> (r: &str)
        ensures
            r@ == self.startup.server_url@,
    {
        self.startup.server_url.as_str()
    }

    /// Returns the id of the client. Only a restart changes it.
    pub fn client_id(&self) -> (r: &str)
        ensures
            r@ == self.startup.client_id@,
    {
        self.startup.client_id.as_str()
    }

    /// Tells whether the runner is stopping.
    pub fn is_stopping(&self) -> (r: bool)
        ensures
            r == self.stopping,
    {
        self.stopping
    }

    /// Tells whether the configuration starts a coding agent manager.
    pub fn wants_coding_agents(&self) -> (r: bool)
        ensures
            r == (self.startup.acp.agents@.len() > 0),
    {
        self.startup.acp.agents.len() > 0
    }

    /// Stops the runner and its gateway. Returns whether it was this call that stopped the
    /// gateway.
    pub fn begin_shutdown(&mut self) -> (r: bool)
        requires
            old(self).well_formed(),
        ensures
            final(self).well_formed(),
            final(self).stopping,
            r == !old(self).stopping,
            final(self).current == old(self).current,
            final(self).platform == old(self).platform,
            final(self).startup == old(self).startup,
            final(self).path == old(self).path,
            old(self).stopping ==> final(self).mcp_gateway == old(self).mcp_gateway,
            !old(self).stopping ==> final(self).mcp_gateway.providers@.len() == old(
                self,
            ).mcp_gateway.providers@.len() && forall|i: int|
                0 <= i < final(self).mcp_gateway.providers@.len() ==> (
                #[trigger] final(self).mcp_gateway.providers@[i])@ == crate::entry::retired(
                    old(self).mcp_gateway.providers@[i]@,
                ),
    {
        self.stopping = true;
        self.mcp_gateway.shutdown()
    }

    /// Answers a check of the candidate at the runner's own path. Nothing is activated.
    pub fn check_config(
        &self,
        loaded: Result<RunnerConfig, String>,
        merged_ssh: Result<SshConfig, String>,
    ) -> (r: RunnerConfigOperationResponse)
        ensures
            check_follows(*self, loaded, merged_ssh, r),
    {
        if self.stopping {
            return config_not_started(
                RunnerConfigAction::Check,
                Some(self.current.generation),
                RunnerConfigErrorCode::RunnerUnavailable,
            );
        }
        match Self::load_candidate(loaded, merged_ssh) {
            Ok((candidate, _)) => {
                let fields = restart_required_fields(self.platform, &self.startup, &candidate);
                let restart_required = fields.len() > 0;
                RunnerConfigOperationResponse {
                    action: RunnerConfigAction::Check,
                    execution_state: RunnerConfigExecutionState::Completed,
                    valid: Some(true),
                    current_generation: Some(self.current.generation),
                    error_code: None,
                    error_field: None,
                    error_reason: None,
                    restart_required,
                    restart_required_fields: sort_texts(fields),
                }
            },
            Err(error) => config_candidate_error_response(
                RunnerConfigAction::Check,
                self.current.generation,
                error.as_str(),
            ),
        }
    }

    /// Returns a candidate that was loaded and whose SSH resources merge, or what is wrong.
    pub fn load_candidate(
        loaded: Result<RunnerConfig, String>,
        merged_ssh: Result<SshConfig, String>,
    ) -> (r: Result<(RunnerConfig, SshConfig), String>)
        ensures
            match candidate_fault(loaded, merged_ssh) {
                Some(error) => r matches Err(e) && e@ == error,
                None => r == Ok::<(RunnerConfig, SshConfig), String>(
                    (loaded->Ok_0, merged_ssh->Ok_0),
                ),
            },
    {
        let candidate = loaded?;
        let ssh = merged_ssh?;
        Ok((candidate, ssh))
    }

    fn not_started_report(&self, code: RunnerConfigErrorCode) -> (r: ReloadReport)
        ensures
            reports_not_started(
                r,
                self.current@.reload_status,
                self.current.generation,
                code,
            ),
    {
        ReloadReport {
            status: self.current.reload_status(),
            response: config_not_started(
                RunnerConfigAction::Reload,
                Some(self.current.generation),
                code,
            ),
            notice: None,
            status_changed: false,
            retired: Vec::new(),
        }
    }

    fn record_failure(
        &mut self,
        code: RunnerConfigErrorCode,
        field: Option<RunnerConfigErrorField>,
        reason: Option<RunnerConfigErrorReason>,
    ) -> (r: RunnerConfigReloadStatus)
        ensures
            same_but_status(*old(self), *final(self)),
            final(self).current@.reload_status == failed_status(
                old(self).current@.reload_status,
                code,
                field,
                reason,
            ),
            r@ == final(self).current@.reload_status,
    {
        self.current.reload_status.last_reload_result = "failure".to_owned();
        self.current.reload_status.last_reload_error_code = Some(code);
        self.current.reload_status.last_reload_error_field = field;
        self.current.reload_status.last_reload_error_reason = reason;
        self.current.reload_status()
    }

    /// Says whether a reload may start. A refusal comes before the candidate is looked at.
    pub fn begin_reload(&self, expected_generation: Option<u64>) -> (r: Result<(), ReloadReport>)
        ensures
            match reload_refusal(self.stopping, self.current.generation, expected_generation) {
                Some(code) => r matches Err(report) && reports_not_started(
                    report,
                    self.current@.reload_status,
                    self.current.generation,
                    code,
                ),
                None => r is Ok,
            },
    {
        if self.stopping {
            return Err(self.not_started_report(RunnerConfigErrorCode::RunnerUnavailable));
        }
        if let Some(expected) = expected_generation {
            if expected != self.current.generation {
                return Err(
                    self.not_started_report(RunnerConfigErrorCode::ConfigGenerationConflict),
                );
            }
        }
        Ok(())
    }

    /// Prepares the activation of a candidate, or records what is wrong with it.
    pub fn prepare_reload(
        &mut self,
        loaded: Result<RunnerConfig, String>,
        merged_ssh: Result<SshConfig, String>,
    ) -> (r: Result<PreparedReload, ReloadReport>)
        ensures
            match candidate_fault(loaded, merged_ssh) {
                Some(error) => {
                    &&& r matches Err(report) && reports_candidate_fault(
                        report,
                        old(self).current@.reload_status,
                        old(self).current.generation,
                        error,
                    ) && final(self).current@.reload_status == report.status@
                    &&& same_but_status(*old(self), *final(self))
                },
                None => {
                    let candidate = loaded->Ok_0;
                    let generation = next_generation(old(self).current.generation);
                    &&& *final(self) == *old(self)
                    &&& r matches Ok(prepared) && prepared.mcp_gateway == candidate.mcp_gateway
                        && prepared.next@ == activated(
                        generation,
                        candidate,
                        (merged_ssh->Ok_0)@,
                        activated_status(
                            generation,
                            reload_report::changed_fields(
                                old(self).platform,
                                old(self).startup,
                                candidate,
                            ),
                        ),
                    )
                },
            },
    {
        let (candidate, ssh) = match Self::load_candidate(loaded, merged_ssh) {
            Ok(found) => found,
            Err(error) => {
                let code = reload_error_code(error.as_str());
                let (field, reason) = reload_error_diagnostic(error.as_str());
                let generation: u64 = self.current.generation;
                let status = self.record_failure(code, field, reason);
                return Err(
                    ReloadReport {
                        status,
                        response: config_candidate_error_response(
                            RunnerConfigAction::Reload,
                            generation,
                            error.as_str(),
                        ),
                        notice: Some(ReloadNotice::Failed { code, field, reason }),
                        status_changed: true,
                        retired: Vec::new(),
                    },
                );
            },
        };
        let generation: u64 = self.current.generation.saturating_add(1);
        let fields = restart_required_fields(self.platform, &self.startup, &candidate);
        let restart_required = fields.len() > 0;
        let status = RunnerConfigReloadStatus {
            generation,
            last_reload_result: if restart_required {
                "partial".to_owned()
            } else {
                "success".to_owned()
            },
            last_reload_error_code: None,
            last_reload_error_field: None,
            last_reload_error_reason: None,
            restart_required,
            restart_required_fields: fields,
        };
        let next = HotRunnerConfig::activate(generation, &candidate, ssh, status);
        Ok(PreparedReload { next, mcp_gateway: candidate.mcp_gateway })
    }

    /// Activates a prepared candidate: the gateway gets its providers, and its sections become
    /// the active ones. The plugin manager calls for this while it holds its own candidate.
    pub fn commit_reload(&mut self, prepared: PreparedReload) -> (r: Vec<ProviderEntry>)
        requires
            old(self).well_formed(),
            !old(self).stopping,
        ensures
            final(self).well_formed(),
            !final(self).stopping,
            final(self).platform == old(self).platform,
            final(self).startup == old(self).startup,
            final(self).path == old(self).path,
            final(self).current == prepared.next,
            gateway_follows(
                old(self).mcp_gateway,
                prepared.mcp_gateway,
                final(self).mcp_gateway,
            ),
            gateway::entries_view(r@) == gateway_retires(
                old(self).mcp_gateway,
                prepared.mcp_gateway,
            ),
    {
        let applied = self.mcp_gateway.apply_config_candidate(&prepared.mcp_gateway);
        self.current = prepared.next;
        match applied {
            Ok(reload) => reload.retired,
            Err(_) => Vec::new(),
        }
    }

    /// Reports a candidate that was committed.
    pub fn report_activation(&self, retired: Vec<ProviderEntry>) -> (r: ReloadReport)
        ensures
            r.status@ == self.current@.reload_status,
            r.response.view() == valid_answer(
                RunnerConfigAction::Reload,
                self.current@.reload_status.generation,
                self.current@.reload_status.restart_required_fields.len() > 0,
            ),
            reload_report::ascending_version(
                r.response.fields(),
                self.current@.reload_status.restart_required_fields,
            ),
            r.notice matches Some(ReloadNotice::Activated { result }) && result@
                == self.current@.reload_status.last_reload_result,
            !r.status_changed,
            r.retired == retired,
    {
        let status = self.current.reload_status();
        let fields = copy_list(&status.restart_required_fields);
        let restart_required = fields.len() > 0;
        let response = RunnerConfigOperationResponse {
            action: RunnerConfigAction::Reload,
            execution_state: RunnerConfigExecutionState::Completed,
            valid: Some(true),
            current_generation: Some(status.generation),
            error_code: None,
            error_field: None,
            error_reason: None,
            restart_required,
            restart_required_fields: sort_texts(fields),
        };
        let notice = Some(ReloadNotice::Activated { result: status.last_reload_result.clone() });
        ReloadReport { status, response, notice, status_changed: false, retired }
    }

    /// Reports a candidate that the plugin manager did not apply. `reply` is not `Applied`.
    pub fn report_plugin_refusal(&mut self, reply: PluginReply) -> (r: ReloadReport)
        requires
            reply != PluginReply::Applied,
        ensures
            same_but_status(*old(self), *final(self)),
            match plugin_refusal(reply) {
                Some(code) => *final(self) == *old(self) && reports_not_started(
                    r,
                    old(self).current@.reload_status,
                    old(self).current.generation,
                    code,
                ),
                None => reports_plugin_rejection(
                    r,
                    old(self).current@.reload_status,
                    old(self).current.generation,
                ) && final(self).current@.reload_status == r.status@,
            },
    {
        match reply {
            PluginReply::ReloadBusy => self.not_started_report(
                RunnerConfigErrorCode::PluginReloadBusy,
            ),
            PluginReply::ManagerStopping => self.not_started_report(
                RunnerConfigErrorCode::RunnerUnavailable,
            ),
            PluginReply::ReloadStateFailed => self.not_started_report(
                RunnerConfigErrorCode::PluginReloadFailed,
            ),
            _ => {
                let code = RunnerConfigErrorCode::PluginReloadFailed;
                let generation: u64 = self.current.generation;
                let status = self.record_failure(code, None, None);
                ReloadReport {
                    status,
                    response: RunnerConfigOperationResponse {
                        action: RunnerConfigAction::Reload,
                        execution_state: RunnerConfigExecutionState::Completed,
                        valid: Some(false),
                        current_generation: Some(generation),
                        error_code: Some(code),
                        error_field: None,
                        error_reason: None,
                        restart_required: false,
                        restart_required_fields: Vec::new(),
                    },
                    notice: Some(ReloadNotice::Failed { code, field: None, reason: None }),
                    status_changed: true,
                    retired: Vec::new(),
                }
            },
        }
    }

    /// Runs a whole reload over what loading the candidate, merging its SSH resources and the
    /// plugin manager gave. What comes later counts only where the reload gets to it.
    pub fn reload_internal(
        &mut self,
        expected_generation: Option<u64>,
        loaded: Result<RunnerConfig, String>,
        merged_ssh: Result<SshConfig, String>,
        reply: PluginReply,
    ) -> (r: ReloadReport)
        requires
            old(self).well_formed(),
        ensures
            final(self).well_formed(),
            final(self).stopping == old(self).stopping,
            reload_follows(
                *old(self),
                expected_generation,
                loaded,
                merged_ssh,
                reply,
                *final(self),
                r,
            ),
    {
        if let Err(report) = self.begin_reload(expected_generation) {
            return report;
        }
        let prepared = match self.prepare_reload(loaded, merged_ssh) {
            Ok(prepared) => prepared,
            Err(report) => {
                return report;
            },
        };
        match reply {
            PluginReply::Applied => {
                let retired = self.commit_reload(prepared);
                self.report_activation(retired)
            },
            _ => self.report_plugin_refusal(reply),
        }
    }

    /// Reloads where the generation is the expected one.
    pub fn reload_config(
        &mut self,
        expected_generation: u64,
        loaded: Result<RunnerConfig, String>,
        merged_ssh: Result<SshConfig, String>,
        reply: PluginReply,
    ) -> (r: ReloadReport)
        requires
            old(self).well_formed(),
        ensures
            final(self).well_formed(),
            final(self).stopping == old(self).stopping,
            reload_follows(
                *old(self),
                Some(expected_generation),
                loaded,
                merged_ssh,
                reply,
                *final(self),
                r,
            ),
    {
        self.reload_internal(Some(expected_generation), loaded, merged_ssh, reply)
    }

    /// Reloads whatever the generation is.
    pub fn reload(
        &mut self,
        loaded: Result<RunnerConfig, String>,
        merged_ssh: Result<SshConfig, String>,
        reply: PluginReply,
    ) -> (r: ReloadReport)
        requires
            old(self).well_formed(),
        ensures
            final(self).well_formed(),
            final(self).stopping == old(self).stopping,
            reload_follows(*old(self), None, loaded, merged_ssh, reply, *final(self), r),
    {
        self.reload_internal(None, loaded, merged_ssh, reply)
    }
}

/// What a check answers.
pub open spec fn check_follows(
    config: ReloadableRunnerConfig,
    loaded: Result<RunnerConfig, String>,
    merged_ssh: Result<SshConfig, String>,
    answer: RunnerConfigOperationResponse,
) -> bool {
    let generation = config.current.generation;
    let fault = candidate_fault(loaded, merged_ssh);
    if config.stopping {
        &&& answer.view() == reload_report::not_started(
            RunnerConfigAction::Check,
            Some(generation),
            RunnerConfigErrorCode::RunnerUnavailable,
        )
        &&& answer.fields().len() == 0
    } else if fault is Some {
        &&& answer.view() == reload_report::candidate_error(
            RunnerConfigAction::Check,
            generation,
            fault->0,
        )
        &&& answer.fields().len() == 0
    } else {
        let fields = reload_report::changed_fields(config.platform, config.startup, loaded->Ok_0);
        &&& answer.view() == valid_answer(RunnerConfigAction::Check, generation, fields.len() > 0)
        &&& reload_report::ascending_version(answer.fields(), fields)
    }
}

/// What a reload makes of the configuration, and what it reports.
pub open spec fn reload_follows(
    before: ReloadableRunnerConfig,
    expected: Option<u64>,
    loaded: Result<RunnerConfig, String>,
    merged_ssh: Result<SshConfig, String>,
    reply: PluginReply,
    after: ReloadableRunnerConfig,
    report: ReloadReport,
) -> bool {
    let status = before.current@.reload_status;
    let generation = before.current.generation;
    let refusal = reload_refusal(before.stopping, generation, expected);
    let fault = candidate_fault(loaded, merged_ssh);
    if refusal is Some {
        after == before && reports_not_started(report, status, generation, refusal->0)
    } else if fault is Some {
        &&& same_but_status(before, after)
        &&& after.current@.reload_status == report.status@
        &&& reports_candidate_fault(report, status, generation, fault->0)
    } else if plugin_refusal(reply) is Some {
        after == before && reports_not_started(report, status, generation, plugin_refusal(reply)->0)
    } else if reply == PluginReply::Rejected {
        &&& same_but_status(before, after)
        &&& after.current@.reload_status == report.status@
        &&& reports_plugin_rejection(report, status, generation)
    } else {
        let candidate = loaded->Ok_0;
        let fields = reload_report::changed_fields(before.platform, before.startup, candidate);
        let next = next_generation(generation);
        &&& after.platform == before.platform
        &&& after.startup == before.startup
        &&& after.path == before.path
        &&& after.current@ == activated(
            next,
            candidate,
            (merged_ssh->Ok_0)@,
            activated_status(next, fields),
        )
        &&& gateway_follows(before.mcp_gateway, candidate.mcp_gateway, after.mcp_gateway)
        &&& gateway::entries_view(report.retired@) == gateway_retires(
            before.mcp_gateway,
            candidate.mcp_gateway,
        )
        &&& reports_activation(report, next, fields)
    }
}

// ---------------------------------------------------------------------------------------------
// Laws
// ---------------------------------------------------------------------------------------------
/// A reload that is not answered as a valid candidate leaves every active section, the generation
/// and the providers as they were.
pub proof fn failed_reload_keeps_the_active_configuration(
    before: ReloadableRunnerConfig,
    expected: Option<u64>,
    loaded: Result<RunnerConfig, String>,
    merged_ssh: Result<SshConfig, String>,
    reply: PluginReply,
    after: ReloadableRunnerConfig,
    report: ReloadReport,
)
    requires
        reload_follows(before, expected, loaded, merged_ssh, reply, after, report),
        report.response.valid != Some(true),
    ensures
        same_but_status(before, after),
        after.current.generation == before.current.generation,
        report.retired@.len() == 0,
{
}

/// A reload with another generation than the active one is rejected before the candidate is
/// looked at, and leaves the reload status as it was.
pub proof fn generation_conflict_changes_nothing(
    before: ReloadableRunnerConfig,
    expected: u64,
    loaded: Result<RunnerConfig, String>,
    merged_ssh: Result<SshConfig, String>,
    reply: PluginReply,
    after: ReloadableRunnerConfig,
    report: ReloadReport,
)
    requires
        reload_follows(before, Some(expected), loaded, merged_ssh, reply, after, report),
        !before.stopping,
        expected != before.current.generation,
    ensures
        after == before,
        report.status@ == before.current@.reload_status,
        report.response.error_code == Some(RunnerConfigErrorCode::ConfigGenerationConflict),
        report.response.execution_state == RunnerConfigExecutionState::NotStarted,
{
}

/// A stopping runner activates nothing.
pub proof fn stopping_runner_activates_nothing(
    before: ReloadableRunnerConfig,
    expected: Option<u64>,
    loaded: Result<RunnerConfig, String>,
    merged_ssh: Result<SshConfig, String>,
    reply: PluginReply,
    after: ReloadableRunnerConfig,
    report: ReloadReport,
)
    requires
        reload_follows(before, expected, loaded, merged_ssh, reply, after, report),
        before.stopping,
    ensures
        after == before,
        report.response.error_code == Some(RunnerConfigErrorCode::RunnerUnavailable),
{
}

/// A reload with the active generation, of a valid candidate that the plugin manager applies,
/// succeeds: the generation grows by one, and a second reload with the generation of the first is
/// rejected.
pub proof fn successful_reload_advances_the_generation(
    before: ReloadableRunnerConfig,
    loaded: Result<RunnerConfig, String>,
    merged_ssh: Result<SshConfig, String>,
    after: ReloadableRunnerConfig,
    report: ReloadReport,
)
    requires
        reload_follows(
            before,
            Some(before.current.generation),
            loaded,
            merged_ssh,
            PluginReply::Applied,
            after,
            report,
        ),
        !before.stopping,
        before.current.generation < u64::MAX,
        loaded is Ok,
        merged_ssh is Ok,
    ensures
        report.response.valid == Some(true),
        after.current.generation == before.current.generation + 1,
        report.response.current_generation == Some(after.current.generation),
        reload_refusal(false, after.current.generation, Some(before.current.generation)) == Some(
            RunnerConfigErrorCode::ConfigGenerationConflict,
        ),
{
}

/// An activated candidate is a partial success exactly where a field waits for a restart.
pub proof fn partial_means_restart_required(generation: u64, fields: Seq<Seq<char>>)
    ensures
        (activated_status(generation, fields).last_reload_result == "partial"@)
            == activated_status(generation, fields).restart_required,
        activated_status(generation, fields).restart_required == (fields.len() > 0),
{
    reveal_strlit("success");
    reveal_strlit("partial");
    assert("success"@[0] == 's');
    assert("partial"@[0] == 'p');
}

/// Two configurations that agree on the fields of the process itself need no restart, whatever
/// the reloadable sections and the older spelling of the registry directory say, and however the
/// path of the registry directory is written.
pub proof fn reloadable_sections_need_no_restart(
    platform: Platform,
    a: RunnerConfig,
    b: RunnerConfig,
)
    requires
        reload_report::capabilities_view(a.capabilities) == reload_report::capabilities_view(
            b.capabilities,
        ),
        a.client_id@ == b.client_id@,
        text::option_view(a.display_name) == text::option_view(b.display_name),
        text::option_view(a.hostname) == text::option_view(b.hostname),
        reload_report::host_context_view(a.host_context) == reload_report::host_context_view(
            b.host_context,
        ),
        a.max_concurrent_jobs == b.max_concurrent_jobs,
        a.acp@ == b.acp@,
        text::option_view(a.owner) == text::option_view(b.owner),
        a.poll_interval_ms == b.poll_interval_ms,
        reload_report::same_directory(
            platform,
            text::option_view(a.project_registry_dir),
            text::option_view(b.project_registry_dir),
        ),
        reload_report::quic_view(a.quic) == reload_report::quic_view(b.quic),
        a.server_url@ == b.server_url@,
        a.token@ == b.token@,
        text::option_view(a.transport) == text::option_view(b.transport),
        a.websocket_connect_timeout_secs == b.websocket_connect_timeout_secs,
    ensures
        reload_report::changed_fields(platform, a, b).len() == 0,
{
    reveal(reload_report::named_if);
}

/// A check foretells the reload of the same candidate: where the plugin manager has nothing
/// against it, both find it valid or both find the same fault, and both name the same fields to
/// wait for a restart.
pub proof fn check_foretells_reload(
    config: ReloadableRunnerConfig,
    loaded: Result<RunnerConfig, String>,
    merged_ssh: Result<SshConfig, String>,
    answer: RunnerConfigOperationResponse,
    after: ReloadableRunnerConfig,
    report: ReloadReport,
)
    requires
        check_follows(config, loaded, merged_ssh, answer),
        reload_follows(config, None, loaded, merged_ssh, PluginReply::Applied, after, report),
    ensures
        answer.execution_state == report.response.execution_state,
        answer.valid == report.response.valid,
        answer.error_code == report.response.error_code,
        answer.error_field == report.response.error_field,
        answer.error_reason == report.response.error_reason,
        answer.restart_required == report.response.restart_required,
        answer.fields().to_multiset() =~= report.response.fields().to_multiset(),
{
    assert(answer.view().action == answer.action);
    assert(report.response.view().action == report.response.action);
    if answer.fields().len() == 0 && report.response.fields().len() == 0 {
        assert(answer.fields() =~= report.response.fields());
    }
}

proof fn versions_hold_the_same(result: Seq<Seq<char>>, items: Seq<Seq<char>>, x: Seq<char>)
    requires
        reload_report::ascending_version(result, items),
    ensures
        result.contains(x) == items.contains(x),
        result.len() == items.len(),
{
    result.to_multiset_ensures();
    items.to_multiset_ensures();
    assert(result.to_multiset().count(x) == items.to_multiset().count(x));
}

/// A reload of a valid candidate activates it: every section of the candidate that a reload can
/// activate is the active one, the generation is the next, and the reload status and the answer
/// name exactly the fields that wait for a restart. The reload is a partial success where one
/// waits and a success where none does.
pub proof fn reloads_activate_the_candidate(
    before: ReloadableRunnerConfig,
    expected: Option<u64>,
    candidate: RunnerConfig,
    merged: SshConfig,
    after: ReloadableRunnerConfig,
    report: ReloadReport,
    field: Seq<char>,
)
    requires
        reload_follows(before, expected, Ok(candidate), Ok(merged), PluginReply::Applied, after, report),
        !before.stopping,
        expected matches Some(generation) ==> generation == before.current.generation,
    ensures
        after.current.policy@ == candidate.policy@,
        after.current.shell@ == candidate.shell@,
        after.current.skills@ == candidate.skills@,
        after.current.instructions@ == candidate.instructions@,
        after.current.static_ssh@ == candidate.ssh@,
        after.current.ssh@ == merged@,
        after.current.tool_providers@ == candidate.tool_providers@,
        after.startup == before.startup,
        after.path == before.path,
        before.current.generation < u64::MAX ==> after.current.generation
            == before.current.generation + 1,
        ({
            let waiting = reload_report::changed_fields(before.platform, before.startup, candidate);
            let status = report.status;
            &&& text::list_view(status.restart_required_fields@).contains(field)
                == waiting.contains(field)
            &&& text::list_view(report.response.restart_required_fields@).contains(field)
                == waiting.contains(field)
            &&& waiting.contains(field) ==> status.restart_required
                && report.response.restart_required && status.last_reload_result@ == "partial"@
            &&& waiting.len() == 0 ==> !status.restart_required && !report.response.restart_required
                && status.last_reload_result@ == "success"@
            &&& status.generation == after.current.generation
            &&& status.last_reload_error_code is None
            &&& status.last_reload_error_field is None
            &&& status.last_reload_error_reason is None
            &&& after.current.reload_status@ == status@
        }),
        report.response.action == RunnerConfigAction::Reload,
        report.response.execution_state == RunnerConfigExecutionState::Completed,
        report.response.valid == Some(true),
        report.response.current_generation == Some(after.current.generation),
        report.response.error_code is None,
{
    let waiting = reload_report::changed_fields(before.platform, before.startup, candidate);
    versions_hold_the_same(report.response.fields(), waiting, field);
    assert(after.current@.policy == after.current.policy@);
    assert(report.response.view().action == report.response.action);
    assert(report.status@.generation == report.status.generation);
    assert(after.current@.generation == after.current.generation);
    if waiting.contains(field) {
        assert(waiting.len() > 0);
    }
}

/// A check of a valid candidate activates nothing, answers that it is valid at the present
/// generation, and names exactly the fields that would wait for a restart.
pub proof fn checks_name_what_would_wait(
    config: ReloadableRunnerConfig,
    candidate: RunnerConfig,
    merged: SshConfig,
    answer: RunnerConfigOperationResponse,
    field: Seq<char>,
)
    requires
        check_follows(config, Ok(candidate), Ok(merged), answer),
        !config.stopping,
    ensures
        ({
            let waiting = reload_report::changed_fields(config.platform, config.startup, candidate);
            &&& text::list_view(answer.restart_required_fields@).contains(field)
                == waiting.contains(field)
            &&& waiting.contains(field) ==> answer.restart_required
            &&& waiting.len() == 0 ==> !answer.restart_required
        }),
        answer.action == RunnerConfigAction::Check,
        answer.execution_state == RunnerConfigExecutionState::Completed,
        answer.valid == Some(true),
        answer.current_generation == Some(config.current.generation),
        answer.error_code is None && answer.error_field is None && answer.error_reason is None,
{
    let waiting = reload_report::changed_fields(config.platform, config.startup, candidate);
    versions_hold_the_same(answer.fields(), waiting, field);
    assert(answer.view().action == answer.action);
    if waiting.contains(field) {
        assert(waiting.len() > 0);
    }
}

/// A candidate that cannot be loaded, or whose SSH resources collide, is answered as not valid,
/// by a check and by a reload alike, with the code of the error that came first; the reload is
/// remembered as a failure, at the generation that stays active.
pub proof fn bad_candidates_are_reported(
    before: ReloadableRunnerConfig,
    loaded: Result<RunnerConfig, String>,
    merged_ssh: Result<SshConfig, String>,
    reply: PluginReply,
    after: ReloadableRunnerConfig,
    report: ReloadReport,
    answer: RunnerConfigOperationResponse,
)
    requires
        reload_follows(before, None, loaded, merged_ssh, reply, after, report),
        check_follows(before, loaded, merged_ssh, answer),
        !before.stopping,
        loaded is Err || merged_ssh is Err,
    ensures
        ({
            let error = if loaded is Err {
                (loaded->Err_0)@
            } else {
                (merged_ssh->Err_0)@
            };
            let code = reload_report::error_code_of(error);
            &&& report.response.valid == Some(false) && answer.valid == Some(false)
            &&& report.response.execution_state == RunnerConfigExecutionState::Completed
            &&& answer.execution_state == RunnerConfigExecutionState::Completed
            &&& report.response.error_code == Some(code) && answer.error_code == Some(code)
            &&& report.response.current_generation == Some(before.current.generation)
            &&& answer.current_generation == Some(before.current.generation)
            &&& !report.response.restart_required && !answer.restart_required
            &&& report.response.restart_required_fields@.len() == 0
            &&& answer.restart_required_fields@.len() == 0
            &&& report.status.last_reload_result@ == "failure"@
            &&& report.status.last_reload_error_code == Some(code)
            &&& report.status.generation == before.current.reload_status.generation
            &&& report.status.restart_required == before.current.reload_status.restart_required
            &&& after.current.generation == before.current.generation
            &&& after.current.reload_status@ == report.status@
            &&& report.status_changed
            &&& report.notice matches Some(ReloadNotice::Failed { code: told, .. }) && told == code
        }),
{
    assert(report.response.view().action == report.response.action);
    assert(answer.view().action == answer.action);
    assert(report.status@.generation == report.status.generation);
    assert(before.current@.reload_status.generation == before.current.reload_status.generation);
    assert(after.current@.generation == after.current.generation);
    assert(before.current@.generation == before.current.generation);
    assert(answer.fields().len() == answer.restart_required_fields@.len());
    assert(report.response.fields().len() == report.response.restart_required_fields@.len());
}

/// Each reply of the plugin manager but its consent keeps the candidate from being activated, and
/// each is answered with its own code.
pub proof fn plugin_replies_decide_the_reload(
    before: ReloadableRunnerConfig,
    candidate: RunnerConfig,
    merged: SshConfig,
    reply: PluginReply,
    after: ReloadableRunnerConfig,
    report: ReloadReport,
)
    requires
        reload_follows(before, None, Ok(candidate), Ok(merged), reply, after, report),
        !before.stopping,
        reply != PluginReply::Applied,
    ensures
        after.current.generation == before.current.generation,
        after.mcp_gateway == before.mcp_gateway,
        after.current.shell@ == before.current.shell@,
        report.response.valid != Some(true),
        report.response.error_code == Some(
            match reply {
                PluginReply::ReloadBusy => RunnerConfigErrorCode::PluginReloadBusy,
                PluginReply::ManagerStopping => RunnerConfigErrorCode::RunnerUnavailable,
                _ => RunnerConfigErrorCode::PluginReloadFailed,
            },
        ),
        report.response.execution_state == if reply == PluginReply::Rejected {
            RunnerConfigExecutionState::Completed
        } else {
            RunnerConfigExecutionState::NotStarted
        },
        reply == PluginReply::Rejected ==> report.status.last_reload_result@ == "failure"@
            && report.status_changed,
        reply != PluginReply::Rejected ==> after == before && report.status@
            == before.current.reload_status@,
{
    assert(report.response.view().action == report.response.action);
    assert(after.current@.generation == after.current.generation);
    assert(before.current@.generation == before.current.generation);
    assert(after.current@.shell == after.current.shell@);
    assert(before.current@.shell == before.current.shell@);
    assert(report.status@.generation == report.status.generation);
}

/// Where the plugin manager rejects a candidate, the answer to the reload is that it completed,
/// that the candidate is not valid, at which generation the runner still is, and nothing of a
/// field.
pub proof fn plugin_rejections_name_no_field(generation: u64)
    ensures
        ({
            let answer = plugin_rejection(generation);
            &&& answer.action == RunnerConfigAction::Reload
            &&& answer.execution_state == RunnerConfigExecutionState::Completed
            &&& answer.valid == Some(false)
            &&& answer.current_generation == Some(generation)
            &&& answer.error_code == Some(RunnerConfigErrorCode::PluginReloadFailed)
            &&& answer.error_field is None && answer.error_reason is None
            &&& !answer.restart_required
        }),
{
}

} // verus!
