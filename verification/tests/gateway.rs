use std::collections::VecDeque;
use webcodex_runner::config::{
    McpGatewayConfig, McpGatewayProviderConfig, RunnerRules, TextEntry, VettedText,
};
use webcodex_runner::connection::{
    finish_handshake, plan_launch, EnvSource, LaunchFacts, ProcessStart,
};
use webcodex_runner::entry::{
    remaining_budget, McpGatewayProvider, McpGatewayProviderState, ProviderLifecycle, SessionLock,
};
use webcodex_runner::exchange::{
    AwaitStep, DrainStep, Polled, ProviderConnection, StreamFacts, Waited,
};
use webcodex_runner::fields::{string_field, u64_field};
use webcodex_runner::gateway::{
    provider_state, timeout_nanos, McpGatewayManager, McpGatewayReloadSummary, McpGatewayRequest,
    McpGatewayResponse, McpGatewayResponsePayload, ProviderWork,
};
use webcodex_runner::json::{parse_json, Json};
use webcodex_runner::paths::Platform;
use webcodex_runner::rpc::{
    ends_reader, reader_event, McpGatewayDispatchState, ProviderFailure,
    MCP_GATEWAY_MAX_MESSAGE_BYTES,
};
use webcodex_runner::scripted::{ContextFacts, Scenario, ScriptedProvider};
use webcodex_runner::tools::{
    call_params_value, check_call, empty_params_value, initialize_params_value, parse_call_result,
    parse_tools_list, McpGatewayContent, McpGatewaySchemaObservation, McpGatewayTool,
    McpGatewayToolResult,
};

const SECOND: u128 = 1_000_000_000;
const TEST_PARALLEL_TIMEOUT_FLOOR_SECS: u64 = 10;
const TEST_INTENTIONAL_TIMEOUT_SECS: u64 = 5;
const MCP_GATEWAY_MAX_RESULT_BYTES: usize = 512 * 1024;
const MAX_TOOL_DESCRIPTION_BYTES: usize = 4 * 1024;

// -------------------------------------------------------------------------------------------------
// A provider process in memory
// -------------------------------------------------------------------------------------------------
struct Fake {
    script: ScriptedProvider,
    exited: bool,
    /// Whether the end of the output was read.
    ended: bool,
    output: VecDeque<(u128, Vec<u8>)>,
}

fn marker_count(marker: &[String], value: &str) -> usize {
    marker.iter().filter(|line| *line == value).count()
}

impl Fake {
    fn start(
        args: &[String],
        environment: &[(String, String)],
        cwd: Option<&str>,
        marker: &mut Vec<String>,
    ) -> Fake {
        let holds = |key: &str, value: &str| {
            environment.iter().any(|(name, found)| name == key && found == value)
        };
        let has = |key: &str| environment.iter().any(|(name, _)| name == key);
        let facts = ContextFacts {
            github_ok: holds("GITHUB_TOKEN", "github-provider-secret-value"),
            mapped_ok: holds("WEBCODEX_MCP_MAPPED_CHILD", "mapped-provider-secret-value"),
            static_ok: holds("WEBCODEX_MCP_STATIC_CHILD", "static-provider-value"),
            unlisted_cleared: !has("WEBCODEX_MCP_UNLISTED"),
            path_cleared: !has("PATH"),
            system_root: None,
            cwd_ok: cwd.is_some() && args.get(2).map(String::as_str) == cwd,
        };
        let scenario = Scenario::named(args.first().map_or("normal", String::as_str));
        let script = ScriptedProvider::started(scenario);
        marker.extend(script.notes_at_start(facts).iter().map(|note| note.to_string()));
        Fake { script, exited: false, ended: false, output: VecDeque::new() }
    }

    fn receive(&mut self, line: &[u8], now: u128, marker: &mut Vec<String>) {
        let line = String::from_utf8(line.to_vec()).unwrap();
        let starts = marker_count(marker, "start") as u64;
        let mut initializations = marker_count(marker, "initialize") as u64;
        if string_field(&line, "method").as_deref() == Some("initialize") {
            initializations += 1;
        }
        let reaction = self.script.serve(&line, starts, initializations);
        if let Some(note) = reaction.note {
            marker.push(note.to_string());
        }
        let at = now + u128::from(reaction.pause_secs) * SECOND;
        for message in reaction.sent {
            let mut line = message.into_bytes();
            line.push(b'\n');
            self.output.push_back((at, line));
        }
        self.exited |= reaction.exits;
    }
}

// -------------------------------------------------------------------------------------------------
// The streams of a connection
// -------------------------------------------------------------------------------------------------
/// What reading the next line gives.
enum Next {
    /// The bytes of a bounded read, none at the end of the output.
    Line(Vec<u8>),
    Closed,
    Nothing,
}

struct Session {
    connection: ProviderConnection,
    process: Fake,
}

impl Session {
    fn next(&mut self, clock: &mut u128, until: u128) -> Next {
        if self.process.ended {
            return Next::Closed;
        }
        if let Some((at, _)) = self.process.output.front() {
            if *at > until {
                *clock = until;
                return Next::Nothing;
            }
            let (at, mut line) = self.process.output.pop_front().unwrap();
            *clock = (*clock).max(at);
            line.truncate(MCP_GATEWAY_MAX_MESSAGE_BYTES + 2);
            self.process.ended = ends_reader(&reader_event(Ok(line.clone())));
            return Next::Line(line);
        }
        if self.process.exited {
            self.process.ended = true;
            return Next::Line(Vec::new());
        }
        *clock = until;
        Next::Nothing
    }

    /// Runs one request step by step, and returns what the streams gave and what came of it.
    fn exchange(
        &mut self,
        method: &str,
        params: serde_json::Value,
        clock: &mut u128,
        deadline: u128,
        marker: &mut Vec<String>,
    ) -> (StreamFacts, Result<Json, ProviderFailure>) {
        let mut streams = StreamFacts {
            backlog: Vec::new(),
            backlog_closed: false,
            written: false,
            replies: Vec::new(),
            replies_closed: false,
        };
        let mut ignored = 0;
        loop {
            let now = *clock;
            let polled = match self.next(clock, now) {
                Next::Line(line) => {
                    streams.backlog.push(reader_event(Ok(line.clone())));
                    Polled::Event(reader_event(Ok(line)))
                }
                Next::Closed => {
                    streams.backlog_closed = true;
                    Polled::Closed
                }
                Next::Nothing => Polled::Empty,
            };
            match self.connection.drain_step(ignored, polled) {
                DrainStep::Drained => break,
                DrainStep::Ignored(count) => ignored = count,
                DrainStep::Failed(failure) => return (streams, Err(failure)),
            }
        }
        let mut numbering = ProviderConnection { next_id: self.connection.next_id };
        let outgoing = match numbering.begin_request(method, params) {
            Ok(outgoing) => outgoing,
            Err(failure) => return (streams, Err(failure)),
        };
        if self.process.exited {
            return (streams, Err(ProviderFailure::after_send("provider_stdin_failed")));
        }
        streams.written = true;
        self.process.receive(&outgoing.bytes, *clock, marker);
        let mut ignored = 0;
        loop {
            let waited = match self.next(clock, deadline) {
                Next::Line(line) => {
                    streams.replies.push(reader_event(Ok(line.clone())));
                    Waited::Event(reader_event(Ok(line)))
                }
                Next::Closed => {
                    streams.replies_closed = true;
                    Waited::Closed
                }
                Next::Nothing => Waited::TimedOut,
            };
            match ProviderConnection::await_step(outgoing.id, ignored, waited) {
                AwaitStep::Ignored(count) => ignored = count,
                AwaitStep::Done(outcome) => return (streams, outcome),
            }
        }
    }
}

// -------------------------------------------------------------------------------------------------
// The gateway over such processes
// -------------------------------------------------------------------------------------------------
struct Fixture {
    manager: McpGatewayManager,
    rules: RunnerRules,
    variables: Vec<(String, String)>,
    directories: Vec<String>,
    marker: Vec<String>,
    clock: u128,
    /// Whether another request holds the session.
    busy: bool,
    sessions: Vec<(String, Session)>,
}

fn rules() -> RunnerRules {
    RunnerRules {
        platform: Platform::Posix,
        sensitive_env_keys: vec!["WEBCODEX_AGENT_TOKEN".to_string()],
        mcp_gateway_max_providers: 16,
        plugin_max_providers: 16,
        coding_agent_max_providers: 16,
        coding_agent_max_provider_name_bytes: 128,
        coding_agent_max_config_key_bytes: 128,
        default_poll_interval_ms: 1000,
        default_max_timeout_secs: 600,
        default_max_output_bytes: 65536,
        default_tool_command: "tool-server".to_string(),
    }
}

fn vetted(text: &str) -> VettedText {
    VettedText { text: text.to_string(), fault: None }
}

fn entry(key: &str, value: &str) -> TextEntry {
    TextEntry { key: key.to_string(), value: value.to_string() }
}

fn fake_provider(id: &str, name: &str, scenario: &str) -> McpGatewayProviderConfig {
    McpGatewayProviderConfig {
        id: vetted(id),
        name: vetted(name),
        executable: "/opt/bin/fake".to_string(),
        args: vec![scenario.to_string(), "/tmp/marker.log".to_string()],
        cwd: None,
        env: Vec::new(),
        env_from_env: Vec::new(),
        timeout_secs: None,
    }
}

fn unused() -> ProviderFailure {
    ProviderFailure::not_started("unused")
}

fn observed_schema() -> McpGatewaySchemaObservation {
    McpGatewaySchemaObservation {
        input_schema: parse_json(
            br#"{"type":"object","properties":{"value":{"type":"string"}}}"#,
        )
        .unwrap(),
        output_schema: None,
        annotations: None,
    }
}

impl Fixture {
    fn new(scenario: &str, timeout_secs: u64) -> Self {
        Self::with_provider_timeout(
            scenario,
            timeout_secs.max(TEST_PARALLEL_TIMEOUT_FLOOR_SECS),
            None,
        )
    }

    fn with_provider_timeout(
        scenario: &str,
        default_timeout_secs: u64,
        provider_timeout_secs: Option<u64>,
    ) -> Self {
        let provider = McpGatewayProviderConfig {
            timeout_secs: provider_timeout_secs,
            ..fake_provider("fake", "Fake provider", scenario)
        };
        Self::with_provider(default_timeout_secs, provider)
    }

    fn with_execution_context(
        scenario: &str,
        default_timeout_secs: u64,
        cwd: Option<&str>,
        env: Vec<TextEntry>,
        env_from_env: Vec<TextEntry>,
    ) -> Self {
        let mut provider = fake_provider("fake", "Fake provider", scenario);
        if let Some(cwd) = cwd {
            provider.args.push(cwd.to_string());
            provider.cwd = Some(cwd.to_string());
        }
        provider.env = env;
        provider.env_from_env = env_from_env;
        Self::with_provider(default_timeout_secs, provider)
    }

    fn with_provider(timeout_secs: u64, provider: McpGatewayProviderConfig) -> Self {
        Fixture {
            manager: McpGatewayManager::new(&McpGatewayConfig {
                request_timeout_secs: timeout_secs,
                providers: vec![provider],
            }),
            rules: rules(),
            variables: Vec::new(),
            directories: Vec::new(),
            marker: Vec::new(),
            clock: 0,
            busy: false,
            sessions: Vec::new(),
        }
    }

    fn provider(&self) -> McpGatewayProvider {
        self.manager.provider_inventory().into_iter().next().unwrap()
    }

    fn marker_count(&self, value: &str) -> usize {
        marker_count(&self.marker, value)
    }

    fn variable(&self, name: &str) -> Option<String> {
        self.variables.iter().find(|(key, _)| key == name).map(|(_, value)| value.clone())
    }

    fn spawn(&mut self, at: usize, deadline: u128) -> Result<(), ProviderFailure> {
        let config = self.manager.providers[at].config.clone();
        let instance_id = self.manager.providers[at].instance_id.clone();
        let facts = LaunchFacts {
            present: config
                .env_from_env
                .iter()
                .map(|entry| self.variable(&entry.value).is_some())
                .collect(),
            system_root_present: false,
            cwd_is_dir: config.cwd.as_ref().is_some_and(|cwd| self.directories.contains(cwd)),
        };
        let mut streams = StreamFacts {
            backlog: Vec::new(),
            backlog_closed: false,
            written: false,
            replies: Vec::new(),
            replies_closed: false,
        };
        let mut notified = false;
        let mut process = None;
        if let Ok(plan) = plan_launch(&self.rules, &config, &facts) {
            let environment: Vec<(String, String)> = plan
                .environment
                .into_iter()
                .map(|binding| {
                    let value = match binding.source {
                        EnvSource::Literal(value) => value,
                        EnvSource::Inherited(name) => self.variable(&name).unwrap(),
                    };
                    (binding.destination, value)
                })
                .collect();
            let mut session = Session {
                connection: ProviderConnection::opened(),
                process: Fake::start(
                    &config.args,
                    &environment,
                    plan.cwd.as_deref(),
                    &mut self.marker,
                ),
            };
            let (found, initialized) = session.exchange(
                "initialize",
                initialize_params_value("0.1.0"),
                &mut self.clock,
                deadline,
                &mut self.marker,
            );
            streams = found;
            if let Ok(line) = finish_handshake(initialized, true) {
                session.process.receive(&line, self.clock, &mut self.marker);
                notified = true;
            }
            process = Some(session.process);
        }
        let connection = ProviderConnection::spawn(
            &self.rules,
            &config,
            &facts,
            ProcessStart::Started,
            "0.1.0",
            streams,
            true,
            notified,
            &mut Vec::new(),
        )?;
        self.sessions.push((instance_id, Session { connection, process: process.unwrap() }));
        Ok(())
    }

    fn session_of(&mut self, at: usize) -> (&mut Session, &mut u128, &mut Vec<String>) {
        let instance_id = &self.manager.providers[at].instance_id;
        let (_, session) =
            self.sessions.iter_mut().find(|(id, _)| id == instance_id).unwrap();
        (session, &mut self.clock, &mut self.marker)
    }

    fn list_tools(
        &mut self,
        at: usize,
        deadline: u128,
    ) -> Result<Vec<McpGatewayTool>, ProviderFailure> {
        let (session, clock, marker) = self.session_of(at);
        let (streams, outcome) =
            session.exchange("tools/list", empty_params_value(), clock, deadline, marker);
        let acceptable = match outcome {
            Ok(result) => match parse_tools_list(&result, true) {
                Ok(tools) => tools.iter().all(|tool| {
                    tool.description
                        .as_ref()
                        .map_or(true, |text| text.len() <= MAX_TOOL_DESCRIPTION_BYTES)
                }),
                Err(_) => true,
            },
            Err(_) => true,
        };
        session.connection.tools_list(streams, true, acceptable, &mut Vec::new())
    }

    fn call_tool(
        &mut self,
        at: usize,
        name: &str,
        arguments: &serde_json::Value,
        deadline: u128,
    ) -> Result<McpGatewayToolResult, ProviderFailure> {
        let (session, clock, marker) = self.session_of(at);
        let (streams, outcome) = session.exchange(
            "tools/call",
            call_params_value(name, arguments.clone()),
            clock,
            deadline,
            marker,
        );
        let acceptable = match outcome {
            Ok(result) => match parse_call_result(&result, true) {
                Ok(result) => {
                    let bytes: usize = result
                        .content
                        .iter()
                        .map(|content| match content {
                            McpGatewayContent::Text { text } => text.len(),
                        })
                        .sum();
                    bytes <= MCP_GATEWAY_MAX_RESULT_BYTES
                }
                Err(_) => true,
            },
            Err(_) => true,
        };
        let arguments = arguments.clone();
        session.connection.tools_call(name, arguments, streams, true, acceptable, &mut Vec::new())
    }

    fn work(&mut self, at: usize, secs: u64, request: &McpGatewayRequest) -> ProviderWork {
        let lock = if self.busy { SessionLock::Busy } else { SessionLock::Free };
        let instance_id = self.manager.providers[at].instance_id.clone();
        let running =
            self.sessions.iter().any(|(id, session)| *id == instance_id && !session.process.exited);
        let mut work = ProviderWork {
            lock,
            running,
            spawned: Ok(()),
            elapsed: 0,
            listed: Err(unused()),
            call_elapsed: 0,
            called: Err(unused()),
        };
        if let McpGatewayRequest::ProviderStatus { .. } = request {
            return work;
        }
        let timeout = timeout_nanos(secs);
        let started = self.clock;
        let deadline = started + timeout;
        match self.manager.providers[at].claim_session(lock) {
            Ok(true) => work.spawned = self.spawn(at, deadline),
            Ok(false) => {}
            Err(_) => return work,
        }
        work.elapsed = self.clock - started;
        let budget = match remaining_budget(timeout, work.elapsed) {
            Some(budget) if work.spawned.is_ok() => budget,
            _ => return work,
        };
        work.listed = self.list_tools(at, deadline);
        if let McpGatewayRequest::ToolsCall { name, arguments, expected_schema, .. } = request {
            work.call_elapsed = self.clock - started - work.elapsed;
            let allowed = match &work.listed {
                Ok(tools) => check_call(tools, name, expected_schema).is_ok(),
                Err(_) => false,
            };
            if allowed && remaining_budget(budget, work.call_elapsed).is_some() {
                work.called = self.call_tool(at, name, arguments, deadline);
            }
        }
        work
    }

    fn serve(&mut self, request: McpGatewayRequest) -> McpGatewayResponse {
        let work = match self.manager.route(&request, true) {
            Ok((at, secs)) => self.work(at, secs, &request),
            Err(_) => ProviderWork {
                lock: SessionLock::Free,
                running: false,
                spawned: Err(unused()),
                elapsed: 0,
                listed: Err(unused()),
                call_elapsed: 0,
                called: Err(unused()),
            },
        };
        let response = self.manager.handle(request, true, work);
        self.drop_retired_sessions();
        response
    }

    fn drop_retired_sessions(&mut self) {
        let connected: Vec<String> = self
            .manager
            .providers
            .iter()
            .filter(|entry| entry.connected)
            .map(|entry| entry.instance_id.clone())
            .collect();
        self.sessions.retain(|(id, _)| connected.contains(id));
    }

    fn apply(&mut self, config: &McpGatewayConfig) -> McpGatewayReloadSummary {
        let reload = self.manager.apply_config_candidate(config).unwrap();
        self.drop_retired_sessions();
        reload.summary
    }

    fn status(&mut self, provider: &McpGatewayProvider) -> McpGatewayResponse {
        self.serve(McpGatewayRequest::ProviderStatus {
            provider_id: provider.provider_id.clone(),
            provider_instance_id: provider.provider_instance_id.clone(),
        })
    }

    fn list(&mut self, provider: &McpGatewayProvider) -> McpGatewayResponse {
        self.serve(McpGatewayRequest::ToolsList {
            provider_id: provider.provider_id.clone(),
            provider_instance_id: provider.provider_instance_id.clone(),
        })
    }

    fn call(&mut self, provider: &McpGatewayProvider) -> McpGatewayResponse {
        self.serve(McpGatewayRequest::ToolsCall {
            provider_id: provider.provider_id.clone(),
            provider_instance_id: provider.provider_instance_id.clone(),
            name: "echo".to_string(),
            arguments: serde_json::from_str(r#"{"value":"hello"}"#).unwrap(),
            expected_schema: observed_schema(),
        })
    }
}

fn replacement_config(id: &str, name: &str, scenario: &str, secs: u64) -> McpGatewayConfig {
    McpGatewayConfig {
        request_timeout_secs: secs,
        providers: vec![fake_provider(id, name, scenario)],
    }
}

fn succeeded(response: &McpGatewayResponse) -> bool {
    matches!(response, McpGatewayResponse::Success(_))
}

fn failure(response: &McpGatewayResponse) -> (McpGatewayDispatchState, &'static str) {
    match response {
        McpGatewayResponse::Error { dispatch_state, code, .. } => (*dispatch_state, *code),
        McpGatewayResponse::Success(payload) => panic!("unexpected success: {payload:?}"),
    }
}

fn tool_result(response: McpGatewayResponse) -> McpGatewayToolResult {
    match response {
        McpGatewayResponse::Success(McpGatewayResponsePayload::ToolResult { result }) => result,
        other => panic!("call payload missing: {other:?}"),
    }
}

fn texts(result: &McpGatewayToolResult) -> Vec<&str> {
    result
        .content
        .iter()
        .map(|content| match content {
            McpGatewayContent::Text { text } => text.as_str(),
        })
        .collect()
}

// -------------------------------------------------------------------------------------------------
// Status
// -------------------------------------------------------------------------------------------------
#[test]
fn provider_status_is_passive_and_tracks_connection_lifecycle() {
    let mut fixture = Fixture::new("crash", 2);
    let provider = fixture.provider();

    assert_eq!(provider_state(fixture.status(&provider)), McpGatewayProviderState::NeverStarted);
    assert_eq!(fixture.marker_count("start"), 0);

    assert!(succeeded(&fixture.list(&provider)));
    assert_eq!(provider_state(fixture.status(&provider)), McpGatewayProviderState::Healthy);
    assert_eq!(fixture.marker_count("start"), 1);

    let failed = fixture.call(&provider);
    assert_eq!(failure(&failed).0, McpGatewayDispatchState::OutcomeUnknown);
    assert_eq!(
        provider_state(fixture.status(&provider)),
        McpGatewayProviderState::ConnectionRetired
    );
    assert_eq!(fixture.marker_count("start"), 1);

    assert!(succeeded(&fixture.list(&provider)));
    assert_eq!(provider_state(fixture.status(&provider)), McpGatewayProviderState::Healthy);
    assert_eq!(fixture.marker_count("start"), 2);
}

#[test]
fn provider_status_reports_busy_without_waiting_or_starting_work() {
    let mut fixture = Fixture::new("normal", 2);
    let provider = fixture.provider();
    fixture.busy = true;
    assert_eq!(provider_state(fixture.status(&provider)), McpGatewayProviderState::Busy);
    assert_eq!(fixture.marker_count("start"), 0);
}

#[test]
fn busy_session_refuses_a_request_without_starting_work() {
    let mut fixture = Fixture::new("normal", 2);
    let provider = fixture.provider();
    fixture.busy = true;
    assert_eq!(
        failure(&fixture.list(&provider)),
        (McpGatewayDispatchState::NotStarted, "provider_busy")
    );
    assert_eq!(fixture.marker_count("start"), 0);
}

#[test]
fn provider_status_reaps_an_exited_connection_without_restarting_it() {
    let mut fixture = Fixture::new("exit_after_list", 2);
    let provider = fixture.provider();
    assert!(succeeded(&fixture.list(&provider)));
    assert_eq!(
        provider_state(fixture.status(&provider)),
        McpGatewayProviderState::ConnectionRetired
    );
    assert_eq!(fixture.marker_count("start"), 1);
}

// -------------------------------------------------------------------------------------------------
// Configuration
// -------------------------------------------------------------------------------------------------
#[test]
fn config_candidate_preserves_unchanged_provider_identity_and_connection() {
    let mut fixture = Fixture::new("normal", 2);
    let before = fixture.provider();
    assert!(succeeded(&fixture.list(&before)));
    assert_eq!(fixture.marker_count("start"), 1);

    let summary = fixture.apply(&replacement_config("fake", "Fake provider", "normal", 17));
    assert_eq!(
        summary,
        McpGatewayReloadSummary { preserved: 1, replaced: 0, added: 0, removed: 0 }
    );
    let after = fixture.provider();
    assert_eq!(after.provider_instance_id, before.provider_instance_id);
    assert!(succeeded(&fixture.list(&before)));
    assert_eq!(fixture.marker_count("start"), 1);
    assert_eq!(fixture.manager.request_timeout_secs, 17);
}

#[test]
fn config_candidate_replaces_changed_provider_without_retargeting_old_identity() {
    let mut fixture = Fixture::new("normal", 2);
    let before = fixture.provider();
    assert!(succeeded(&fixture.list(&before)));
    assert_eq!(fixture.marker_count("start"), 1);

    let summary = fixture.apply(&replacement_config("fake", "Renamed provider", "normal", 10));
    assert_eq!(summary.replaced, 1);
    let after = fixture.provider();
    assert_ne!(after.provider_instance_id, before.provider_instance_id);
    assert_eq!(
        failure(&fixture.list(&before)),
        (McpGatewayDispatchState::NotStarted, "stale_provider")
    );
    assert_eq!(provider_state(fixture.status(&after)), McpGatewayProviderState::NeverStarted);
    assert_eq!(fixture.marker_count("start"), 1);
    assert!(succeeded(&fixture.list(&after)));
    assert_eq!(fixture.marker_count("start"), 2);
}

#[test]
fn config_candidate_does_not_wait_for_busy_retired_provider() {
    let mut fixture = Fixture::new("normal", 2);
    let before = fixture.provider();
    fixture.busy = true;
    let reload = fixture
        .manager
        .apply_config_candidate(&replacement_config("fake", "Changed while busy", "normal", 10))
        .unwrap();
    assert_eq!(reload.summary.replaced, 1);
    let mut retired = reload.retired;
    assert_eq!(retired.len(), 1);
    assert_eq!(retired[0].instance_id, before.provider_instance_id);
    retired[0].retire_connection_nonblocking(SessionLock::Busy);

    fixture.busy = false;
    let after = fixture.provider();
    assert_ne!(after.provider_instance_id, before.provider_instance_id);
    assert_eq!(provider_state(fixture.status(&after)), McpGatewayProviderState::NeverStarted);
}

#[test]
fn config_candidate_adds_and_removes_provider_identities_atomically() {
    let mut fixture = Fixture::new("normal", 2);
    let before = fixture.provider();
    let summary = fixture.apply(&replacement_config("replacement", "Replacement", "normal", 10));
    assert_eq!(summary.added, 1);
    assert_eq!(summary.removed, 1);
    let inventory = fixture.manager.provider_inventory();
    assert_eq!(inventory.len(), 1);
    assert_eq!(inventory[0].provider_id, "replacement");
    assert_eq!(
        failure(&fixture.status(&before)),
        (McpGatewayDispatchState::NotStarted, "stale_provider")
    );
}

#[test]
fn inventory_is_sorted_and_holds_no_launch_details() {
    let mut late = fake_provider("zeta", "Zeta", "--secret-profile");
    late.executable = "/private/operator/bin/local-tools-mcp".to_string();
    late.cwd = Some("/private/operator/provider-workdir".to_string());
    late.env = vec![entry("HTTP_PROXY", "http://proxy.invalid:8080")];
    late.env_from_env = vec![entry("GITHUB_TOKEN", "OPERATOR_GITHUB_TOKEN")];
    let manager = McpGatewayManager::new(&McpGatewayConfig {
        request_timeout_secs: 30,
        providers: vec![late, fake_provider("alpha", "Alpha", "normal")],
    });
    let inventory = manager.provider_inventory();
    let ids: Vec<&str> = inventory.iter().map(|item| item.provider_id.as_str()).collect();
    assert_eq!(ids, vec!["alpha", "zeta"]);
    assert_eq!(inventory[1].name, "Zeta");
    let shown = format!("{inventory:?}");
    for detail in
        ["/private/operator", "--secret-profile", "GITHUB_TOKEN", "proxy.invalid", "timeout_secs"]
    {
        assert!(!shown.contains(detail), "{detail}");
    }
}

#[test]
fn instance_ids_are_fresh_and_of_one_shape() {
    let first = Fixture::new("normal", 2).provider().provider_instance_id;
    let second = Fixture::new("normal", 2).provider().provider_instance_id;
    assert_ne!(first, second);
    for id in [first, second] {
        assert_eq!(id.len(), 32);
        assert!(id.chars().all(|c| c.is_ascii_digit() || ('a'..='f').contains(&c)), "{id}");
    }
}

#[test]
fn stopped_gateway_refuses_everything() {
    let mut fixture = Fixture::new("normal", 2);
    let provider = fixture.provider();
    assert!(succeeded(&fixture.list(&provider)));
    assert!(fixture.manager.shutdown());
    assert!(!fixture.manager.shutdown());
    assert_eq!(fixture.manager.providers[0].lifecycle, ProviderLifecycle::ConnectionRetired);
    assert!(!fixture.manager.providers[0].connected);
    let (state, _) = failure(&fixture.list(&provider));
    assert_eq!(state, McpGatewayDispatchState::NotStarted);
    assert_eq!(fixture.marker_count("start"), 1);
    assert!(fixture
        .manager
        .apply_config_candidate(&replacement_config("fake", "Fake provider", "normal", 10))
        .is_err());
}

#[test]
fn invalid_request_is_refused_before_it_is_routed() {
    let mut fixture = Fixture::new("normal", 2);
    let provider = fixture.provider();
    let request = McpGatewayRequest::ToolsList {
        provider_id: provider.provider_id.clone(),
        provider_instance_id: provider.provider_instance_id.clone(),
    };
    let refused = fixture.manager.route(&request, false);
    match refused {
        Err(response) => assert_eq!(failure(&response).0, McpGatewayDispatchState::NotStarted),
        Ok(_) => panic!("an invalid request was routed"),
    }
    assert!(fixture.manager.route(&request, true).is_ok());
    assert!(succeeded(&fixture.list(&provider)));
}

// -------------------------------------------------------------------------------------------------
// Tools
// -------------------------------------------------------------------------------------------------
#[test]
fn persistent_provider_initializes_once_and_serves_repeated_calls() {
    let mut fixture = Fixture::new("normal", 5);
    let provider = fixture.provider();
    match fixture.list(&provider) {
        McpGatewayResponse::Success(McpGatewayResponsePayload::Tools { tools }) => {
            assert_eq!(tools.len(), 1);
            assert_eq!(tools[0].name, "echo");
        }
        other => panic!("tools payload missing: {other:?}"),
    }
    for expected in ["call-1", "call-2"] {
        let result = tool_result(fixture.call(&provider));
        assert_eq!(texts(&result), vec![expected]);
    }
    assert_eq!(fixture.marker_count("start"), 1);
    assert_eq!(fixture.marker_count("initialize"), 1);
    assert_eq!(fixture.marker_count("initialized"), 1);
    assert_eq!(fixture.marker_count("call"), 2);
}

#[test]
fn large_tool_result_crosses_local_mcp_bridge_below_result_and_message_bounds() {
    assert_eq!(MCP_GATEWAY_MAX_RESULT_BYTES, 512 * 1024);
    assert_eq!(MCP_GATEWAY_MAX_MESSAGE_BYTES, 1024 * 1024);

    let mut fixture = Fixture::new("large_result", 3);
    let provider = fixture.provider();
    assert!(succeeded(&fixture.list(&provider)));
    let result = tool_result(fixture.call(&provider));
    let [McpGatewayContent::Text { text }] = result.content.as_slice() else {
        panic!("unexpected large result content");
    };
    assert_eq!(text.len(), 192 * 1024);
    assert_eq!(
        result.structured_content.as_ref().unwrap().get("payload").unwrap().as_str().unwrap().len(),
        192 * 1024
    );
    assert!(succeeded(&fixture.list(&provider)));
}

#[test]
fn schema_change_blocks_effectful_call_without_retiring_provider() {
    let mut fixture = Fixture::new("schema_change", 3);
    let provider = fixture.provider();
    assert!(succeeded(&fixture.list(&provider)));

    let response = fixture.call(&provider);
    assert_eq!(
        failure(&response),
        (McpGatewayDispatchState::NotStarted, "provider_schema_changed")
    );
    assert_eq!(fixture.marker_count("call"), 0);
    assert!(succeeded(&fixture.list(&provider)));
    assert_eq!(fixture.marker_count("start"), 1);
}

#[test]
fn tools_call_sends_only_gateway_owned_name_and_arguments() {
    let mut fixture = Fixture::new("meta_forbidden", 2);
    let provider = fixture.provider();
    tool_result(fixture.call(&provider));
    assert_eq!(fixture.marker_count("call"), 1);
}

// -------------------------------------------------------------------------------------------------
// The start of a provider
// -------------------------------------------------------------------------------------------------
#[test]
fn provider_execution_context_is_explicit_cleared_and_private() {
    let mut fixture = Fixture::with_execution_context(
        "execution_context",
        TEST_PARALLEL_TIMEOUT_FLOOR_SECS,
        Some("/home/u/work"),
        vec![entry("WEBCODEX_MCP_STATIC_CHILD", "static-provider-value")],
        vec![
            entry("GITHUB_TOKEN", "GITHUB_TOKEN"),
            entry("WEBCODEX_MCP_MAPPED_CHILD", "WEBCODEX_MCP_MAPPED_SOURCE"),
        ],
    );
    fixture.directories.push("/home/u/work".to_string());
    for (key, value) in [
        ("GITHUB_TOKEN", "github-provider-secret-value"),
        ("WEBCODEX_MCP_MAPPED_SOURCE", "mapped-provider-secret-value"),
        ("WEBCODEX_MCP_UNLISTED", "must-not-reach-provider"),
        ("PATH", "/usr/bin"),
    ] {
        fixture.variables.push((key.to_string(), value.to_string()));
    }
    let provider = fixture.provider();
    let inventory = format!("{:?}", fixture.manager.provider_inventory());
    assert!(!inventory.contains("github-provider-secret-value"));
    assert!(!inventory.contains("mapped-provider-secret-value"));

    let response = fixture.list(&provider);
    assert!(succeeded(&response), "{response:?}");
    for marker in [
        "github-env-ok",
        "mapped-env-ok",
        "static-env-ok",
        "unlisted-env-cleared",
        "path-cleared",
        "cwd-ok",
    ] {
        assert_eq!(fixture.marker_count(marker), 1, "missing marker {marker}");
    }
    let encoded = format!("{response:?}");
    assert!(!encoded.contains("github-provider-secret-value"));
    assert!(!encoded.contains("mapped-provider-secret-value"));
    assert!(!encoded.contains("static-provider-value"));
    assert!(!encoded.contains("must-not-reach-provider"));
}

#[test]
fn missing_mapped_source_fails_before_provider_spawn() {
    let mut fixture = Fixture::with_execution_context(
        "normal",
        2,
        None,
        Vec::new(),
        vec![entry("PROVIDER_CREDENTIAL", "WEBCODEX_MCP_TEST_MISSING_SOURCE")],
    );
    let provider = fixture.provider();
    assert_eq!(
        failure(&fixture.list(&provider)),
        (McpGatewayDispatchState::NotStarted, "provider_env_missing")
    );
    assert_eq!(fixture.marker_count("start"), 0);
}

#[test]
fn sensitive_runner_env_mapping_is_blocked_before_provider_spawn() {
    let mut fixture = Fixture::with_execution_context(
        "normal",
        2,
        None,
        Vec::new(),
        vec![entry("PROVIDER_CREDENTIAL", "WEBCODEX_AGENT_TOKEN")],
    );
    let provider = fixture.provider();
    let response = fixture.list(&provider);
    assert_eq!(
        failure(&response),
        (McpGatewayDispatchState::NotStarted, "provider_env_forbidden")
    );
    assert_eq!(fixture.marker_count("start"), 0);
    assert!(!format!("{response:?}").contains("WEBCODEX_AGENT_TOKEN"));
}

#[test]
fn unavailable_provider_cwd_fails_before_provider_spawn() {
    let mut fixture = Fixture::with_execution_context(
        "normal",
        2,
        Some("/home/u/missing-provider-cwd"),
        Vec::new(),
        Vec::new(),
    );
    let provider = fixture.provider();
    assert_eq!(
        failure(&fixture.list(&provider)),
        (McpGatewayDispatchState::NotStarted, "provider_cwd_unavailable")
    );
    assert_eq!(fixture.marker_count("start"), 0);
}

#[test]
fn initialization_failure_is_not_tool_dispatch_and_later_requests_retry_spawn() {
    for (scenario, code) in [
        ("init_crash", "provider_eof"),
        ("init_timeout", "provider_timeout"),
        ("init_missing_tools", "provider_initialize_invalid"),
    ] {
        let mut fixture = Fixture::with_provider_timeout(
            scenario,
            TEST_PARALLEL_TIMEOUT_FLOOR_SECS,
            Some(TEST_INTENTIONAL_TIMEOUT_SECS),
        );
        let provider = fixture.provider();
        let response = fixture.call(&provider);
        assert_eq!(
            failure(&response),
            (McpGatewayDispatchState::NotStarted, code),
            "{scenario}"
        );
        assert_eq!(fixture.marker_count("call"), 0, "{scenario}");
        assert_eq!(fixture.marker_count("start"), 1, "{scenario}");
        let retried = fixture.call(&provider);
        assert_eq!(failure(&retried), (McpGatewayDispatchState::NotStarted, code), "{scenario}");
        assert_eq!(fixture.marker_count("start"), 2, "{scenario}");
    }
}

#[test]
fn transient_initialization_failure_recovers_on_next_explicit_request() {
    let mut fixture = Fixture::new("init_crash_once", 2);
    let provider = fixture.provider();
    assert_eq!(
        failure(&fixture.list(&provider)),
        (McpGatewayDispatchState::NotStarted, "provider_eof")
    );
    assert!(succeeded(&fixture.list(&provider)));
    assert_eq!(fixture.marker_count("start"), 2);
    assert_eq!(fixture.marker_count("initialize"), 2);
}

// -------------------------------------------------------------------------------------------------
// What a provider says
// -------------------------------------------------------------------------------------------------
#[test]
fn provider_notifications_are_consumed_without_retiring_the_session() {
    let mut fixture = Fixture::new("notifications", 2);
    let provider = fixture.provider();
    assert!(succeeded(&fixture.list(&provider)));

    let result = tool_result(fixture.call(&provider));
    assert_eq!(texts(&result), vec!["call-1"]);
    assert!(succeeded(&fixture.list(&provider)));
    assert_eq!(fixture.marker_count("start"), 1);
    assert_eq!(fixture.marker_count("initialize"), 1);
}

#[test]
fn provider_callback_after_dispatch_remains_unsupported_and_unknown() {
    let mut fixture = Fixture::new("callback", 2);
    let provider = fixture.provider();
    assert!(succeeded(&fixture.list(&provider)));

    assert_eq!(
        failure(&fixture.call(&provider)),
        (McpGatewayDispatchState::OutcomeUnknown, "provider_callbacks_unsupported")
    );
    assert!(succeeded(&fixture.list(&provider)));
    assert_eq!(fixture.marker_count("start"), 2);
    assert_eq!(fixture.marker_count("call"), 1);
}

#[test]
fn provider_notification_flood_is_bounded_and_reconnects_on_next_request() {
    let mut fixture = Fixture::new("notification_flood", 2);
    let provider = fixture.provider();
    assert_eq!(
        failure(&fixture.list(&provider)),
        (McpGatewayDispatchState::OutcomeUnknown, "provider_notification_flood")
    );
    assert_eq!(failure(&fixture.list(&provider)).1, "provider_notification_flood");
    assert_eq!(fixture.marker_count("start"), 2);
}

#[test]
fn crash_is_outcome_unknown_but_later_request_reconnects_without_replay() {
    let mut fixture = Fixture::new("crash", 2);
    let provider = fixture.provider();
    assert!(succeeded(&fixture.list(&provider)));
    assert_eq!(
        failure(&fixture.call(&provider)),
        (McpGatewayDispatchState::OutcomeUnknown, "provider_eof")
    );

    assert!(succeeded(&fixture.list(&provider)));
    assert_eq!(fixture.provider().provider_instance_id, provider.provider_instance_id);
    assert_eq!(fixture.marker_count("start"), 2);
    assert_eq!(fixture.marker_count("initialize"), 2);
    assert_eq!(fixture.marker_count("call"), 1);
}

#[test]
fn reconnect_revalidates_schema_before_effectful_dispatch() {
    let mut fixture = Fixture::new("recover_schema_change", 2);
    let provider = fixture.provider();
    assert!(succeeded(&fixture.list(&provider)));

    assert_eq!(
        failure(&fixture.call(&provider)),
        (McpGatewayDispatchState::OutcomeUnknown, "provider_eof")
    );
    assert_eq!(fixture.marker_count("call"), 1);

    assert_eq!(
        failure(&fixture.call(&provider)),
        (McpGatewayDispatchState::NotStarted, "provider_schema_changed")
    );
    assert_eq!(fixture.marker_count("start"), 2);
    assert_eq!(fixture.marker_count("call"), 1, "unknown call must not be replayed");
}

#[test]
fn malformed_unknown_and_duplicate_responses_fail_closed() {
    for (scenario, code) in [
        ("malformed", "provider_malformed_json"),
        ("unknown_id", "provider_unknown_response_id"),
    ] {
        let mut fixture = Fixture::new(scenario, 2);
        let provider = fixture.provider();
        assert_eq!(
            failure(&fixture.list(&provider)),
            (McpGatewayDispatchState::OutcomeUnknown, code),
            "{scenario}"
        );
    }

    let mut fixture = Fixture::new("duplicate_id", 2);
    let provider = fixture.provider();
    assert!(succeeded(&fixture.list(&provider)));
    assert_eq!(failure(&fixture.call(&provider)).1, "provider_duplicate_response_id");
}

#[test]
fn timeout_and_invalid_untrusted_outputs_are_bounded() {
    let mut timeout = Fixture::with_provider_timeout(
        "timeout",
        TEST_PARALLEL_TIMEOUT_FLOOR_SECS,
        Some(TEST_INTENTIONAL_TIMEOUT_SECS),
    );
    let provider = timeout.provider();
    assert!(succeeded(&timeout.list(&provider)));
    assert_eq!(
        failure(&timeout.call(&provider)),
        (McpGatewayDispatchState::OutcomeUnknown, "provider_timeout")
    );
    assert!(succeeded(&timeout.list(&provider)));
    assert_eq!(timeout.marker_count("start"), 2);
    assert_eq!(timeout.marker_count("call"), 1);

    for (scenario, operation, code, state) in [
        ("bad_tools", "list", "invalid_provider_tools", McpGatewayDispatchState::Completed),
        (
            "oversized_message",
            "list",
            "provider_message_too_large",
            McpGatewayDispatchState::OutcomeUnknown,
        ),
        ("bad_result", "call", "unsupported_provider_content", McpGatewayDispatchState::Completed),
        ("oversized_result", "call", "invalid_provider_result", McpGatewayDispatchState::Completed),
        (
            "paginated_list",
            "list",
            "provider_pagination_unsupported",
            McpGatewayDispatchState::Completed,
        ),
    ] {
        let mut fixture = Fixture::new(scenario, 2);
        let provider = fixture.provider();
        let response = if operation == "list" {
            fixture.list(&provider)
        } else {
            assert!(succeeded(&fixture.list(&provider)));
            fixture.call(&provider)
        };
        assert_eq!(failure(&response), (state, code), "{scenario}");
    }
}

#[test]
fn correlated_invalid_result_does_not_retire_provider_instance() {
    let mut fixture = Fixture::new("bad_result", 2);
    let provider = fixture.provider();
    assert!(succeeded(&fixture.list(&provider)));

    assert_eq!(
        failure(&fixture.call(&provider)),
        (McpGatewayDispatchState::Completed, "unsupported_provider_content")
    );
    assert!(succeeded(&fixture.list(&provider)));
    assert_eq!(fixture.marker_count("start"), 1);
    assert_eq!(fixture.marker_count("initialize"), 1);
}

#[test]
fn provider_timeout_override_and_default_fallback_are_enforced() {
    let mut inherited = Fixture::new("slow", 2);
    let inherited_provider = inherited.provider();
    assert!(succeeded(&inherited.list(&inherited_provider)));
    assert!(succeeded(&inherited.call(&inherited_provider)));

    let mut overridden = Fixture::with_provider_timeout(
        "slow",
        TEST_PARALLEL_TIMEOUT_FLOOR_SECS,
        Some(TEST_INTENTIONAL_TIMEOUT_SECS),
    );
    let overridden_provider = overridden.provider();
    assert!(succeeded(&overridden.list(&overridden_provider)));
    assert_eq!(
        failure(&overridden.call(&overridden_provider)),
        (McpGatewayDispatchState::OutcomeUnknown, "provider_timeout")
    );
}

#[test]
fn correlated_jsonrpc_error_is_completed_without_retry() {
    let mut fixture = Fixture::new("rpc_error", 2);
    let provider = fixture.provider();
    assert!(succeeded(&fixture.list(&provider)));
    assert_eq!(
        failure(&fixture.call(&provider)),
        (McpGatewayDispatchState::Completed, "provider_rpc_error")
    );
    assert_eq!(fixture.marker_count("call"), 1);
}

#[test]
fn stale_provider_instance_fails_without_starting_child() {
    let mut fixture = Fixture::new("normal", 2);
    let mut provider = fixture.provider();
    provider.provider_instance_id = "stale".to_string();
    assert_eq!(
        failure(&fixture.list(&provider)),
        (McpGatewayDispatchState::NotStarted, "stale_provider")
    );
    assert_eq!(fixture.marker_count("start"), 0);
}

// -------------------------------------------------------------------------------------------------
// The script itself
// -------------------------------------------------------------------------------------------------
#[test]
fn fields_are_read_from_a_line() {
    let line = r#"{"id":17,"jsonrpc":"2.0","method":"tools/list","params":{"id":4}}"#;
    assert_eq!(string_field(line, "method").as_deref(), Some("tools/list"));
    assert_eq!(string_field(line, "jsonrpc").as_deref(), Some("2.0"));
    assert_eq!(string_field(line, "missing"), None);
    assert_eq!(string_field(line, "id"), None);
    assert_eq!(string_field(r#"{"method":"open"#, "method"), None);
    assert_eq!(u64_field(line, "id"), Some(17));
    assert_eq!(u64_field(r#"{"id": 007}"#, "id"), Some(7));
    assert_eq!(u64_field(r#"{"id":-7}"#, "id"), None);
    assert_eq!(u64_field(r#"{"id":"7"}"#, "id"), None);
    assert_eq!(u64_field(r#"{"id":18446744073709551615}"#, "id"), Some(u64::MAX));
    assert_eq!(u64_field(r#"{"id":18446744073709551616}"#, "id"), None);
    assert_eq!(u64_field(line, "missing"), None);
}

#[test]
fn script_answers_as_its_scenario_says() {
    let mut normal = ScriptedProvider::started(Scenario::named("anything else"));
    assert_eq!(normal.scenario, Scenario::Normal);
    let reaction = normal.serve(r#"{"id":3,"method":"tools/call"}"#, 1, 1);
    assert_eq!(reaction.note, Some("call"));
    assert_eq!(
        reaction.sent,
        vec![r#"{"jsonrpc":"2.0","id":3,"result":{"content":[{"type":"text","text":"call-1"}],"structuredContent":{"call":1},"isError":false}}"#]
    );
    assert_eq!(normal.calls, 1);
    assert!(normal.serve(r#"{"method":"unknown"}"#, 1, 1).sent.is_empty());

    let mut once = ScriptedProvider::started(Scenario::named("init_crash_once"));
    assert!(once.serve(r#"{"id":1,"method":"initialize"}"#, 1, 1).exits);
    assert!(!once.serve(r#"{"id":1,"method":"initialize"}"#, 2, 2).exits);

    let mut slow = ScriptedProvider::started(Scenario::named("slow"));
    assert_eq!(slow.serve(r#"{"id":1,"method":"tools/call"}"#, 1, 1).pause_secs, 6);

    let mut wary = ScriptedProvider::started(Scenario::named("meta_forbidden"));
    let reaction = wary.serve(r#"{"id":1,"method":"tools/call","params":{"_meta":{}}}"#, 1, 1);
    assert!(reaction.sent[0].contains("-32602"));

    let mut flood = ScriptedProvider::started(Scenario::named("notification_flood"));
    let reaction = flood.serve(r#"{"id":1,"method":"tools/list"}"#, 1, 1);
    assert_eq!(reaction.sent.len(), 40);
    assert!(reaction.sent[39].ends_with("\"progress\":39}}"));
}
