use webcodex_runner::config::{McpGatewayProviderConfig, RunnerRules, TextEntry, VettedText};
use webcodex_runner::connection::{
    check_process_start, finish_handshake, resolve_provider_cwd, resolve_provider_environment,
    EnvSource, LaunchFacts, ProcessStart,
};
use webcodex_runner::entry::{
    remaining_budget, McpGatewayProviderState, ProviderEntry, ProviderLifecycle, SessionLock,
};
use webcodex_runner::exchange::{
    notification_line, DrainStep, Polled, ProviderConnection, StreamFacts,
};
use webcodex_runner::gateway::{
    authorize_call, bridge_error, provider_failure_response, stale_provider, timeout_nanos,
    McpGatewayResponse,
};
use webcodex_runner::json::{
    json_of_value, parse_json, same_json, same_optional_json, Json, JsonNumber,
};
use webcodex_runner::paths::Platform;
use webcodex_runner::rpc::{
    ends_reader, extend_line, is_provider_notification, read_bounded_line, reader_event,
    validate_rpc_response, McpGatewayDispatchState, ProviderFailure, ReaderEvent, ReaderFault,
    MAX_LINE_BYTES, MCP_GATEWAY_MAX_IGNORED_NOTIFICATIONS, MCP_GATEWAY_MAX_MESSAGE_BYTES,
    MCP_PROTOCOL_VERSION,
};
use webcodex_runner::tools::{
    accept_call_result, accept_tools, call_params_value, check_call, empty_params_value,
    initialize_params_value, parse_call_result, parse_tools_list, validate_initialize_result,
    McpGatewayContent, McpGatewaySchemaObservation,
};

fn json(text: &str) -> Json {
    parse_json(text.as_bytes()).unwrap()
}

fn value(text: &str) -> serde_json::Value {
    serde_json::from_str(text).unwrap()
}

fn event(text: &str) -> ReaderEvent {
    let mut line = text.as_bytes().to_vec();
    line.push(b'\n');
    reader_event(Ok(line))
}

fn streams(backlog: Vec<ReaderEvent>, replies: Vec<ReaderEvent>) -> StreamFacts {
    StreamFacts { backlog, backlog_closed: false, written: true, replies, replies_closed: false }
}

fn code<T: std::fmt::Debug>(result: Result<T, ProviderFailure>) -> &'static str {
    result.unwrap_err().code
}

fn note() -> ReaderEvent {
    event(r#"{"jsonrpc":"2.0","method":"notifications/progress"}"#)
}

// -------------------------------------------------------------------------------------------------
// JSON
// -------------------------------------------------------------------------------------------------
#[test]
fn json_reads_every_kind_of_value() {
    assert_eq!(json("null"), Json::Null);
    assert_eq!(json("true"), Json::Bool(true));
    assert_eq!(json("7"), Json::Number(JsonNumber::Unsigned(7)));
    assert_eq!(json("-7"), Json::Number(JsonNumber::Negative(-7)));
    assert_eq!(json("18446744073709551615"), Json::Number(JsonNumber::Unsigned(u64::MAX)));
    assert!(matches!(json("1.5"), Json::Number(JsonNumber::Float(_))));
    assert_eq!(json(r#""a\nb""#), Json::Text("a\nb".to_string()));
    let nested = json(r#"{"b":[1,null],"a":{"c":"d"}}"#);
    assert!(nested.is_object());
    assert!(nested.get("b").unwrap().is_array());
    assert_eq!(nested.get("a").unwrap().get("c").unwrap().as_str(), Some("d"));
    assert!(nested.get("z").is_none());
    assert!(parse_json(b"{not-json").is_none());
    assert!(parse_json(b"").is_none());
    assert!(parse_json(b"1 2").is_none());
}

#[test]
fn json_numbers_are_read_by_their_range() {
    assert_eq!(json("9").as_u64(), Some(9));
    assert_eq!(json("9").as_i64(), Some(9));
    assert_eq!(json("-9").as_u64(), None);
    assert_eq!(json("-9").as_i64(), Some(-9));
    assert_eq!(json("18446744073709551615").as_i64(), None);
    assert_eq!(json("1.0").as_u64(), None);
    assert_eq!(json("\"1\"").as_u64(), None);
}

#[test]
fn json_values_are_the_same_whatever_the_order_of_their_members() {
    let first = json(r#"{"type":"object","properties":{"a":{"type":"string"}}}"#);
    let second = json(r#"{"properties":{"a":{"type":"string"}},"type":"object"}"#);
    assert!(same_json(&first, &second));
    assert!(same_json(&first, &first.copy()));
    assert!(!same_json(&json("[1,2]"), &json("[2,1]")));
    assert!(!same_json(&json("1"), &json("1.0")));
    assert!(same_optional_json(&None, &None));
    assert!(!same_optional_json(&Some(json("1")), &None));
    assert!(same_optional_json(&Some(json("1")), &Some(json("1"))));
}

#[test]
fn values_of_the_parser_keep_their_content() {
    assert_eq!(json_of_value(value(r#"{"a":[true,-1,"x"]}"#)), json(r#"{"a":[true,-1,"x"]}"#));
}

// -------------------------------------------------------------------------------------------------
// Lines
// -------------------------------------------------------------------------------------------------
#[test]
fn lines_are_bounded_and_stripped_of_their_end() {
    let read = |bytes: &[u8]| read_bounded_line(Ok(bytes.to_vec()));
    assert_eq!(read(b"").unwrap(), None);
    assert_eq!(read(b"ab\n").unwrap(), Some(b"ab".to_vec()));
    assert_eq!(read(b"ab\r\n").unwrap(), Some(b"ab".to_vec()));
    assert!(read(b"\n").unwrap_err() == ReaderFault::Malformed);
    assert!(read(b"ab").unwrap_err() == ReaderFault::Malformed);
    assert!(read_bounded_line(Err(())).unwrap_err() == ReaderFault::Io);

    let mut largest = vec![b'x'; MCP_GATEWAY_MAX_MESSAGE_BYTES];
    largest.push(b'\n');
    assert_eq!(read(&largest).unwrap().unwrap().len(), MCP_GATEWAY_MAX_MESSAGE_BYTES);
    let mut oversized = vec![b'x'; MCP_GATEWAY_MAX_MESSAGE_BYTES + 1];
    assert!(read(&oversized).unwrap_err() == ReaderFault::TooLarge);
    oversized.push(b'\n');
    assert!(read(&oversized).unwrap_err() == ReaderFault::TooLarge);
}

/// Reads lines from output that comes in chunks, as a reader of a process does.
fn lines_of(chunks: &[&[u8]]) -> Vec<Vec<u8>> {
    let mut lines = vec![];
    let mut line = vec![];
    for chunk in chunks {
        let mut rest: &[u8] = chunk;
        while !rest.is_empty() {
            let (used, complete) = extend_line(&mut line, rest);
            rest = &rest[used..];
            if complete {
                lines.push(std::mem::take(&mut line));
            }
        }
    }
    lines.push(line);
    lines
}

#[test]
fn written_lines_are_read_back_one_by_one() {
    let expected = vec![b"one\n".to_vec(), b"two\r\n".to_vec(), b"thr".to_vec()];
    let output: &[u8] = b"one\ntwo\r\nthr";
    assert_eq!(lines_of(&[output]), expected);
    for at in 0..output.len() {
        assert_eq!(lines_of(&[&output[..at], &output[at..]]), expected, "{at}");
    }
    let bytes: Vec<&[u8]> = output.chunks(1).collect();
    assert_eq!(lines_of(&bytes), expected);
    assert_eq!(read_bounded_line(Ok(expected[0].clone())).unwrap(), Some(b"one".to_vec()));
    assert_eq!(read_bounded_line(Ok(expected[1].clone())).unwrap(), Some(b"two".to_vec()));

    let mut line = vec![];
    assert_eq!(extend_line(&mut line, b""), (0, false));
    assert_eq!(extend_line(&mut line, b"a\nb\n"), (2, true));

    let mut largest = vec![b'x'; MCP_GATEWAY_MAX_MESSAGE_BYTES];
    largest.extend_from_slice(b"\r\nnext\n");
    let read = lines_of(&[&largest]);
    let first = read_bounded_line(Ok(read[0].clone())).unwrap().unwrap();
    assert_eq!(first.len(), MCP_GATEWAY_MAX_MESSAGE_BYTES);
    assert_eq!(read[1], b"next\n");

    let endless = vec![b'x'; MAX_LINE_BYTES + 5];
    let mut line = vec![];
    assert_eq!(extend_line(&mut line, &endless), (MAX_LINE_BYTES, true));
    assert!(read_bounded_line(Ok(line)).unwrap_err() == ReaderFault::TooLarge);
}

#[test]
fn reader_ends_with_the_output_or_a_fault() {
    assert!(ends_reader(&reader_event(Ok(Vec::new()))));
    assert!(ends_reader(&reader_event(Err(()))));
    assert!(ends_reader(&event("{not-json")));
    assert!(!ends_reader(&event("{}")));
    assert!(matches!(
        event("{not-json"),
        ReaderEvent::Message(Err(ReaderFault::Malformed))
    ));
}

// -------------------------------------------------------------------------------------------------
// Messages
// -------------------------------------------------------------------------------------------------
#[test]
fn notifications_have_a_method_and_no_id() {
    assert!(is_provider_notification(&json(
        r#"{"jsonrpc":"2.0","method":"notifications/progress","params":{}}"#
    )));
    assert!(is_provider_notification(&json(
        r#"{"jsonrpc":"2.0","method":"notifications/tools/list_changed"}"#
    )));
    assert!(!is_provider_notification(&json(
        r#"{"jsonrpc":"2.0","id":1,"method":"notifications/progress"}"#
    )));
    assert!(!is_provider_notification(&json(r#"{"jsonrpc":"2.0","id":1,"result":{}}"#)));
    assert!(!is_provider_notification(&json(r#"{"method":"notifications/progress"}"#)));
}

#[test]
fn responses_are_correlated() {
    let result = validate_rpc_response(json(r#"{"jsonrpc":"2.0","id":4,"result":{"a":1}}"#), 4);
    assert_eq!(result.unwrap(), json(r#"{"a":1}"#));
    for (text, expected) in [
        (r#"{"jsonrpc":"2.0","id":3,"result":{}}"#, "provider_duplicate_response_id"),
        (r#"{"jsonrpc":"2.0","id":5,"result":{}}"#, "provider_unknown_response_id"),
        (
            r#"{"jsonrpc":"2.0","id":4,"error":{"code":-32001,"message":"fixture error"}}"#,
            "provider_rpc_error",
        ),
    ] {
        assert_eq!(code(validate_rpc_response(json(text), 4)), expected, "{text}");
    }
    for text in [
        r#"{"id":4,"result":{}}"#,
        r#"{"jsonrpc":"1.0","id":4,"result":{}}"#,
        r#"{"jsonrpc":"2.0","id":4}"#,
        r#"{"jsonrpc":"2.0","id":4,"result":{},"error":{"code":1,"message":"m"}}"#,
        r#"[]"#,
    ] {
        assert!(validate_rpc_response(json(text), 4).is_err(), "{text}");
    }
    let failure = validate_rpc_response(
        json(r#"{"jsonrpc":"2.0","id":4,"error":{"code":-32001,"message":"fixture error"}}"#),
        4,
    )
    .unwrap_err();
    assert!(!failure.fatal);
    assert_eq!(failure.dispatch_state, McpGatewayDispatchState::Completed);
}

#[test]
fn requests_are_numbered_lines_of_json() {
    let mut connection = ProviderConnection::opened();
    let first = connection.begin_request("tools/list", empty_params_value()).unwrap();
    assert_eq!(first.id, 1);
    assert_eq!(
        String::from_utf8(first.bytes).unwrap(),
        "{\"id\":1,\"jsonrpc\":\"2.0\",\"method\":\"tools/list\",\"params\":{}}\n"
    );
    let second = connection
        .begin_request("tools/call", call_params_value("echo", value(r#"{"value":"a\nb"}"#)))
        .unwrap();
    assert_eq!(
        String::from_utf8(second.bytes).unwrap(),
        "{\"id\":2,\"jsonrpc\":\"2.0\",\"method\":\"tools/call\",\"params\":{\"arguments\":{\"value\":\"a\\nb\"},\"name\":\"echo\"}}\n"
    );
    assert_eq!(connection.next_id, 3);

    let huge = serde_json::Value::String("x".repeat(MCP_GATEWAY_MAX_MESSAGE_BYTES));
    assert_eq!(
        connection.begin_request("tools/call", huge).unwrap_err().dispatch_state,
        McpGatewayDispatchState::NotStarted
    );
    assert_eq!(connection.next_id, 4);
}

#[test]
fn notifications_go_out_without_a_number() {
    assert_eq!(
        String::from_utf8(
            notification_line("notifications/initialized", empty_params_value()).unwrap()
        )
        .unwrap(),
        "{\"jsonrpc\":\"2.0\",\"method\":\"notifications/initialized\",\"params\":{}}\n"
    );
}

#[test]
fn handshake_names_the_client_and_the_protocol() {
    let mut connection = ProviderConnection::opened();
    let line = connection.begin_request("initialize", initialize_params_value("0.3.4")).unwrap();
    let sent = parse_json(&line.bytes).unwrap();
    let params = sent.get("params").unwrap();
    assert_eq!(params.get("protocolVersion").unwrap().as_str(), Some(MCP_PROTOCOL_VERSION));
    let client = params.get("clientInfo").unwrap();
    assert_eq!(client.get("name").unwrap().as_str(), Some("webcodex-runner-mcp-gateway"));
    assert_eq!(client.get("version").unwrap().as_str(), Some("0.3.4"));
    assert!(params.get("capabilities").unwrap().is_object());
}

// -------------------------------------------------------------------------------------------------
// Requests
// -------------------------------------------------------------------------------------------------
#[test]
fn request_ends_with_the_first_response() {
    let mut connection = ProviderConnection::opened();
    let mut sent = vec![b"before\n".to_vec()];
    let result = connection
        .request(
            "tools/list",
            empty_params_value(),
            streams(
                vec![note()],
                vec![note(), event(r#"{"jsonrpc":"2.0","id":1,"result":{"ok":true}}"#)],
            ),
            &mut sent,
        )
        .unwrap();
    assert_eq!(result, json(r#"{"ok":true}"#));
    assert_eq!(connection.next_id, 2);
    let line = br#"{"id":1,"jsonrpc":"2.0","method":"tools/list","params":{}}"#;
    assert_eq!(sent, vec![b"before\n".to_vec(), [line.as_slice(), b"\n"].concat()]);
}

#[test]
fn what_waits_before_a_request_keeps_it_from_being_sent() {
    for (waiting, expected) in [
        (reader_event(Ok(Vec::new())), "provider_eof"),
        (event("{not-json"), "provider_malformed_json"),
        (reader_event(Err(())), "provider_stdout_failed"),
        (
            event(r#"{"jsonrpc":"2.0","id":8,"method":"sampling/createMessage"}"#),
            "provider_callbacks_unsupported",
        ),
        (event(r#"{"jsonrpc":"2.0","id":0,"result":{}}"#), "provider_duplicate_response_id"),
        (event(r#"{"jsonrpc":"2.0","id":9,"result":{}}"#), "provider_unknown_response_id"),
    ] {
        let mut connection = ProviderConnection::opened();
        let mut sent = vec![];
        let failure = connection
            .request("tools/list", empty_params_value(), streams(vec![waiting], vec![]), &mut sent)
            .unwrap_err();
        assert!(sent.is_empty());
        assert_eq!(failure.code, expected);
        assert_eq!(failure.dispatch_state, McpGatewayDispatchState::NotStarted);
        assert!(failure.fatal);
        assert_eq!(connection.next_id, 1);
    }
    let mut closed = streams(vec![], vec![]);
    closed.backlog_closed = true;
    assert_eq!(
        code(ProviderConnection::opened().request(
            "m",
            empty_params_value(),
            closed,
            &mut vec![]
        )),
        "provider_eof"
    );
}

#[test]
fn what_follows_a_request_leaves_its_outcome_unknown() {
    let flood: Vec<ReaderEvent> =
        (0..=MCP_GATEWAY_MAX_IGNORED_NOTIFICATIONS).map(|_| note()).collect();
    for (replies, expected) in [
        (vec![], "provider_timeout"),
        (vec![reader_event(Ok(Vec::new()))], "provider_eof"),
        (vec![event("{not-json")], "provider_malformed_json"),
        (flood, "provider_notification_flood"),
        (
            vec![event(r#"{"jsonrpc":"2.0","id":8,"method":"sampling/createMessage"}"#)],
            "provider_callbacks_unsupported",
        ),
    ] {
        let mut sent = vec![];
        let failure = ProviderConnection::opened()
            .request("tools/call", empty_params_value(), streams(vec![], replies), &mut sent)
            .unwrap_err();
        assert_eq!(sent.len(), 1);
        assert_eq!(failure.code, expected);
        assert_eq!(failure.dispatch_state, McpGatewayDispatchState::OutcomeUnknown);
        assert!(failure.fatal);
    }
    let mut unwritten = streams(vec![], vec![]);
    unwritten.written = false;
    let mut sent = vec![];
    let failure = ProviderConnection::opened()
        .request("tools/call", empty_params_value(), unwritten, &mut sent)
        .unwrap_err();
    assert_eq!(sent.len(), 1);
    assert_eq!(failure.code, "provider_stdin_failed");
    assert_eq!(failure.dispatch_state, McpGatewayDispatchState::OutcomeUnknown);
}

#[test]
fn notifications_within_the_bound_are_transparent() {
    let mut replies: Vec<ReaderEvent> =
        (0..MCP_GATEWAY_MAX_IGNORED_NOTIFICATIONS).map(|_| note()).collect();
    replies.push(event(r#"{"jsonrpc":"2.0","id":1,"result":{}}"#));
    assert!(ProviderConnection::opened()
        .request("tools/list", empty_params_value(), streams(vec![], replies), &mut vec![])
        .is_ok());
    let connection = ProviderConnection::opened();
    assert!(matches!(
        connection.drain_step(MCP_GATEWAY_MAX_IGNORED_NOTIFICATIONS, Polled::Event(note())),
        DrainStep::Failed(_)
    ));
    assert!(matches!(connection.drain_step(3, Polled::Event(note())), DrainStep::Ignored(4)));
    assert!(matches!(connection.drain_step(3, Polled::Empty), DrainStep::Drained));
}

// -------------------------------------------------------------------------------------------------
// Results
// -------------------------------------------------------------------------------------------------
#[test]
fn initialize_result_names_protocol_tools_and_server() {
    let good = r#"{"protocolVersion":"2025-06-18","capabilities":{"tools":{}},"serverInfo":{"name":"n","version":"1"}}"#;
    assert!(validate_initialize_result(&json(good), true).is_ok());
    assert_eq!(
        code(validate_initialize_result(&json(good), false)),
        "provider_initialize_invalid"
    );
    for bad in [
        r#"{"protocolVersion":"2024-01-01","capabilities":{"tools":{}},"serverInfo":{"name":"n","version":"1"}}"#,
        r#"{"protocolVersion":"2025-06-18","capabilities":{},"serverInfo":{"name":"n","version":"1"}}"#,
        r#"{"protocolVersion":"2025-06-18","capabilities":{"tools":{}},"serverInfo":{"version":"1"}}"#,
        r#"{"protocolVersion":"2025-06-18","capabilities":{"tools":{}}}"#,
        r#"[]"#,
    ] {
        assert!(validate_initialize_result(&json(bad), true).is_err(), "{bad}");
    }
    assert!(finish_handshake(Ok(json(good)), true).is_ok());
    assert_eq!(
        code(finish_handshake(Err(ProviderFailure::after_send("provider_eof")), true)),
        "provider_eof"
    );
}

#[test]
fn tool_lists_are_read_whole() {
    let tools = parse_tools_list(
        &json(
            r#"{"tools":[{"name":"echo","title":"Echo","description":"d","inputSchema":{"type":"object"},"outputSchema":{"type":"object"},"annotations":{"readOnlyHint":true},"_meta":{"k":1}}]}"#,
        ),
        true,
    )
    .unwrap();
    assert_eq!(tools.len(), 1);
    assert_eq!(tools[0].name, "echo");
    assert_eq!(tools[0].title.as_deref(), Some("Echo"));
    assert_eq!(tools[0].description.as_deref(), Some("d"));
    assert_eq!(tools[0].input_schema, json(r#"{"type":"object"}"#));
    assert!(tools[0].output_schema.is_some());
    assert!(tools[0].annotations.is_some());
    assert!(accept_tools(tools, true).is_ok());
    assert_eq!(code(accept_tools(vec![], false)), "invalid_provider_tools");

    for (text, expected) in [
        (r#"{"tools":[],"nextCursor":"more"}"#, "provider_pagination_unsupported"),
        (r#"{"tools":{}}"#, "invalid_provider_tools"),
        (r#"{}"#, "invalid_provider_tools"),
        (r#"{"tools":[{"inputSchema":{}}]}"#, "invalid_provider_tools"),
        (r#"{"tools":[{"name":"a"}]}"#, "invalid_provider_tools"),
        (r#"{"tools":[{"name":1,"inputSchema":{}}]}"#, "invalid_provider_tools"),
        (r#"{"tools":[{"name":"a","title":1,"inputSchema":{}}]}"#, "invalid_provider_tools"),
    ] {
        assert_eq!(code(parse_tools_list(&json(text), true)), expected, "{text}");
    }
    assert_eq!(code(parse_tools_list(&json(r#"{"tools":[]}"#), false)), "invalid_provider_tools");
}

#[test]
fn call_results_are_text_only() {
    let result = parse_call_result(
        &json(
            r#"{"content":[{"type":"text","text":"a"},{"type":"text","text":"b"}],"structuredContent":{"n":1},"isError":true}"#,
        ),
        true,
    )
    .unwrap();
    let texts: Vec<&str> = result
        .content
        .iter()
        .map(|content| match content {
            McpGatewayContent::Text { text } => text.as_str(),
        })
        .collect();
    assert_eq!(texts, vec!["a", "b"]);
    assert!(result.is_error);
    assert_eq!(result.structured_content, Some(json(r#"{"n":1}"#)));
    assert_eq!(code(accept_call_result(result, false)), "invalid_provider_result");

    assert!(!parse_call_result(&json(r#"{"content":[]}"#), true).unwrap().is_error);
    for (text, expected) in [
        (r#"{"content":[{"type":"image","data":"AA=="}]}"#, "unsupported_provider_content"),
        (r#"{"content":[{"type":"text"}]}"#, "invalid_provider_result"),
        (r#"{"content":1}"#, "invalid_provider_result"),
        (r#"{}"#, "invalid_provider_result"),
        (r#"{"content":[],"isError":1}"#, "invalid_provider_result"),
    ] {
        assert_eq!(code(parse_call_result(&json(text), true)), expected, "{text}");
    }
}

#[test]
fn calls_go_out_only_under_the_observed_schema() {
    let listing = || {
        parse_tools_list(
            &json(r#"{"tools":[{"name":"echo","inputSchema":{"type":"object","title":"t"}}]}"#),
            true,
        )
        .unwrap()
    };
    let observed = |schema: &str| McpGatewaySchemaObservation {
        input_schema: json(schema),
        output_schema: None,
        annotations: None,
    };
    let same = observed(r#"{"title":"t","type":"object"}"#);
    let other = observed(r#"{"type":"object"}"#);
    assert!(check_call(&listing(), "echo", &same).is_ok());
    assert!(listing()[0].matches_observation(&same));
    let changed = check_call(&listing(), "echo", &other).unwrap_err();
    assert_eq!(changed.code, "provider_schema_changed");
    assert_eq!(changed.dispatch_state, McpGatewayDispatchState::NotStarted);
    assert!(!changed.fatal);
    assert_eq!(
        check_call(&listing(), "missing", &same).unwrap_err().dispatch_state,
        McpGatewayDispatchState::NotStarted
    );

    assert_eq!(authorize_call(Ok(listing()), "echo", &same, 10, 4).unwrap(), 6);
    assert!(authorize_call(Ok(listing()), "echo", &same, 10, 10).is_err());
    assert_eq!(
        authorize_call(Ok(listing()), "echo", &other, 10, 4).unwrap_err().code,
        "provider_schema_changed"
    );
    let unlisted =
        authorize_call(Err(ProviderFailure::after_send("provider_eof")), "echo", &same, 10, 4)
            .unwrap_err();
    assert_eq!(unlisted.dispatch_state, McpGatewayDispatchState::NotStarted);
}

// -------------------------------------------------------------------------------------------------
// Provider entries
// -------------------------------------------------------------------------------------------------
fn provider() -> McpGatewayProviderConfig {
    McpGatewayProviderConfig {
        id: VettedText { text: "p".to_string(), fault: None },
        name: VettedText { text: "P".to_string(), fault: None },
        executable: "/opt/bin/p".to_string(),
        args: vec![],
        cwd: None,
        env: vec![],
        env_from_env: vec![],
        timeout_secs: None,
    }
}

fn rules(platform: Platform) -> RunnerRules {
    RunnerRules {
        platform,
        sensitive_env_keys: vec!["WEBCODEX_TOKEN".to_string()],
        mcp_gateway_max_providers: 16,
        plugin_max_providers: 16,
        coding_agent_max_providers: 16,
        coding_agent_max_provider_name_bytes: 128,
        coding_agent_max_config_key_bytes: 128,
        default_poll_interval_ms: 1000,
        default_max_timeout_secs: 600,
        default_max_output_bytes: 65536,
        default_tool_command: "tool-server".to_string(),
    }
}

#[test]
fn entry_tracks_its_connection() {
    let mut entry = ProviderEntry::new(provider());
    assert_eq!(entry.lifecycle, ProviderLifecycle::NeverStarted);
    assert_eq!(entry.advertisement().provider_instance_id, entry.instance_id);
    assert!(entry.claim_session(SessionLock::Free).unwrap());
    entry.record_spawn(Ok(())).unwrap();
    assert!(!entry.claim_session(SessionLock::Free).unwrap());
    assert_eq!(
        entry.lifecycle_state(SessionLock::Free, true),
        McpGatewayProviderState::Healthy
    );
    assert_eq!(entry.lifecycle_state(SessionLock::Busy, true), McpGatewayProviderState::Busy);

    assert_eq!(entry.record_result(Ok::<u8, ProviderFailure>(3)).unwrap(), 3);
    assert!(entry.connected);
    entry.record_result::<u8>(Err(ProviderFailure::completed("invalid_provider_result"))).unwrap_err();
    assert!(entry.connected);
    entry.record_result::<u8>(Err(ProviderFailure::after_send("provider_eof"))).unwrap_err();
    assert!(!entry.connected);
    assert_eq!(entry.lifecycle, ProviderLifecycle::ConnectionRetired);

    let failed = entry.record_spawn(Err(ProviderFailure::after_send("provider_eof"))).unwrap_err();
    assert_eq!(failed.dispatch_state, McpGatewayDispatchState::NotStarted);
    assert_eq!(failed.code, "provider_eof");
}

#[test]
fn entry_refuses_a_session_that_cannot_be_taken() {
    let entry = ProviderEntry::new(provider());
    assert_eq!(code(entry.claim_session(SessionLock::Busy)), "provider_busy");
    assert_eq!(code(entry.claim_session(SessionLock::Poisoned)), "provider_unavailable");
}

#[test]
fn busy_connection_is_retired_without_waiting() {
    let mut entry = ProviderEntry::new(provider());
    entry.record_spawn(Ok(())).unwrap();
    entry.retire_connection_nonblocking(SessionLock::Free);
    assert!(!entry.connected);
    let mut entry = ProviderEntry::new(provider());
    entry.record_spawn(Ok(())).unwrap();
    entry.shutdown_connection();
    assert_eq!(entry.lifecycle, ProviderLifecycle::ConnectionRetired);
    assert!(!entry.connected);
}

#[test]
fn budgets_run_down() {
    assert_eq!(remaining_budget(10, 3), Some(7));
    assert_eq!(remaining_budget(10, 10), None);
    assert_eq!(remaining_budget(10, 11), None);
    assert_eq!(timeout_nanos(2), 2_000_000_000);
    let mut entry = ProviderEntry::new(provider());
    entry.record_spawn(Ok(())).unwrap();
    assert_eq!(entry.claim_budget(10, 4).unwrap(), 6);
    assert_eq!(code(entry.claim_budget(10, 10)), "provider_timeout");
    assert_eq!(ProviderEntry::new(provider()).request_timeout(30), 30);
    let own = McpGatewayProviderConfig { timeout_secs: Some(5), ..provider() };
    assert_eq!(ProviderEntry::new(own).request_timeout(30), 5);
}

#[test]
fn operation_runs_over_a_connection() {
    let mut entry = ProviderEntry::new(provider());
    assert_eq!(entry.with_connection(SessionLock::Free, Ok(()), 10, 1, Ok(5)).unwrap(), 5);
    assert!(entry.connected);
    let failure = entry
        .with_connection::<u8>(
            SessionLock::Free,
            Ok(()),
            10,
            1,
            Err(ProviderFailure::after_send("provider_timeout")),
        )
        .unwrap_err();
    assert_eq!(failure.dispatch_state, McpGatewayDispatchState::OutcomeUnknown);
    assert_eq!(entry.lifecycle, ProviderLifecycle::ConnectionRetired);
    let failure = entry
        .with_connection::<u8>(
            SessionLock::Free,
            Err(ProviderFailure::after_send("provider_eof")),
            10,
            1,
            Ok(5),
        )
        .unwrap_err();
    assert_eq!(failure.dispatch_state, McpGatewayDispatchState::NotStarted);
}

// -------------------------------------------------------------------------------------------------
// Launching
// -------------------------------------------------------------------------------------------------
#[test]
fn environment_of_a_provider_is_explicit() {
    let mut config = provider();
    config.env.push(TextEntry { key: "A".to_string(), value: "1".to_string() });
    config.env_from_env.push(TextEntry { key: "B".to_string(), value: "SOURCE".to_string() });
    let bindings =
        resolve_provider_environment(&rules(Platform::Posix), &config, &vec![true], true).unwrap();
    assert_eq!(bindings.len(), 2);
    assert_eq!(bindings[0].destination, "A");
    assert!(matches!(&bindings[0].source, EnvSource::Literal(value) if value == "1"));
    assert!(matches!(&bindings[1].source, EnvSource::Inherited(name) if name == "SOURCE"));

    let on_windows =
        resolve_provider_environment(&rules(Platform::Windows), &config, &vec![true], true)
            .unwrap();
    assert_eq!(on_windows.len(), 3);
    assert_eq!(on_windows[0].destination, "SYSTEMROOT");

    assert_eq!(
        code(resolve_provider_environment(&rules(Platform::Posix), &config, &vec![false], true)),
        "provider_env_missing"
    );
    config.env_from_env[0].value = "WEBCODEX_TOKEN".to_string();
    assert_eq!(
        code(resolve_provider_environment(&rules(Platform::Posix), &config, &vec![true], true)),
        "provider_env_forbidden"
    );
}

#[test]
fn working_directory_must_exist() {
    let mut config = provider();
    assert_eq!(resolve_provider_cwd(Platform::Posix, &config, false).unwrap(), None);
    config.cwd = Some("/work".to_string());
    assert_eq!(
        resolve_provider_cwd(Platform::Posix, &config, true).unwrap(),
        Some("/work".to_string())
    );
    assert_eq!(
        code(resolve_provider_cwd(Platform::Posix, &config, false)),
        "provider_cwd_unavailable"
    );
    config.cwd = Some("work".to_string());
    assert_eq!(
        code(resolve_provider_cwd(Platform::Posix, &config, true)),
        "provider_cwd_invalid"
    );
}

#[test]
fn process_that_does_not_start_is_not_started() {
    assert!(check_process_start(ProcessStart::Started).is_ok());
    for start in [ProcessStart::NotSpawned, ProcessStart::NoStdio, ProcessStart::NoReader] {
        let failure = check_process_start(start).unwrap_err();
        assert_eq!(failure.dispatch_state, McpGatewayDispatchState::NotStarted);
    }
    let facts = LaunchFacts { present: vec![], system_root_present: false, cwd_is_dir: false };
    let mut sent = vec![];
    assert!(ProviderConnection::spawn(
        &rules(Platform::Posix),
        &provider(),
        &facts,
        ProcessStart::NotSpawned,
        "0.1.0",
        streams(vec![], vec![]),
        true,
        true,
        &mut sent,
    )
    .is_err());
    assert!(sent.is_empty());
    let answer = r#"{"jsonrpc":"2.0","id":1,"result":{"protocolVersion":"2025-06-18","capabilities":{"tools":{}},"serverInfo":{"name":"n","version":"1"}}}"#;
    let mut connection = ProviderConnection::spawn(
        &rules(Platform::Posix),
        &provider(),
        &facts,
        ProcessStart::Started,
        "0.1.0",
        streams(vec![], vec![event(answer)]),
        true,
        true,
        &mut sent,
    )
    .unwrap();
    assert_eq!(connection.next_id, 2);
    let result = r#"{"jsonrpc":"2.0","id":2,"result":{"tools":[]}}"#;
    let listing = streams(vec![], vec![event(result)]);
    assert!(connection.tools_list(listing, true, true, &mut sent).unwrap().is_empty());
    let result = r#"{"jsonrpc":"2.0","id":3,"result":{"content":[]}}"#;
    let calling = streams(vec![], vec![event(result)]);
    let called =
        connection.tools_call("echo", value(r#"{"a":1}"#), calling, true, true, &mut sent);
    assert!(called.is_ok());
    let sent: Vec<Json> = sent.iter().map(|line| parse_json(line).unwrap()).collect();
    let expected: Vec<Json> = [
        r#"{"jsonrpc":"2.0","id":1,"method":"initialize","params":{"protocolVersion":"2025-06-18","capabilities":{},"clientInfo":{"name":"webcodex-runner-mcp-gateway","version":"0.1.0"}}}"#,
        r#"{"jsonrpc":"2.0","method":"notifications/initialized","params":{}}"#,
        r#"{"jsonrpc":"2.0","id":2,"method":"tools/list","params":{}}"#,
        r#"{"jsonrpc":"2.0","id":3,"method":"tools/call","params":{"name":"echo","arguments":{"a":1}}}"#,
    ]
    .iter()
    .map(|text| json(text))
    .collect();
    assert_eq!(sent, expected);
}

// -------------------------------------------------------------------------------------------------
// Answers
// -------------------------------------------------------------------------------------------------
#[test]
fn failures_become_answers() {
    for (failure, state) in [
        (ProviderFailure::before_send("a"), McpGatewayDispatchState::NotStarted),
        (ProviderFailure::after_send("a"), McpGatewayDispatchState::OutcomeUnknown),
        (ProviderFailure::completed("a"), McpGatewayDispatchState::Completed),
        (ProviderFailure::not_started("a"), McpGatewayDispatchState::NotStarted),
        (
            ProviderFailure::preflight(ProviderFailure::after_send("a")),
            McpGatewayDispatchState::NotStarted,
        ),
    ] {
        match provider_failure_response(failure) {
            McpGatewayResponse::Error { dispatch_state, code, .. } => {
                assert_eq!(dispatch_state, state);
                assert_eq!(code, "a");
            }
            other => panic!("unexpected {other:?}"),
        }
    }
    assert!(ProviderFailure::before_send("a").fatal);
    assert!(!ProviderFailure::not_started("a").fatal);
    assert!(!ProviderFailure::rpc_error().fatal);
    assert!(matches!(
        stale_provider(),
        McpGatewayResponse::Error {
            dispatch_state: McpGatewayDispatchState::NotStarted,
            code: "stale_provider",
            ..
        }
    ));
    assert!(matches!(
        bridge_error(McpGatewayDispatchState::Completed, "c", "m"),
        McpGatewayResponse::Error { code: "c", message: "m", .. }
    ));
}
