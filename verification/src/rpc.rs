//! The JSON-RPC exchange with one provider over its standard streams.
use crate::json::{self, Json, JsonView};
use crate::text::{self, contains_control, utf8_len};
use vstd::prelude::*;

verus! {

pub const MCP_PROTOCOL_VERSION: &'static str = "2025-06-18";

pub const MCP_GATEWAY_MAX_IGNORED_NOTIFICATIONS: usize = 32;

pub const MCP_GATEWAY_MAX_MESSAGE_BYTES: usize = 1048576;

/// How far a request got.
#[derive(Debug, Clone, Copy, PartialEq, Eq, Structural)]
pub enum McpGatewayDispatchState {
    NotStarted,
    OutcomeUnknown,
    Completed,
}

/// Why a request to a provider failed, how far it got, and whether the connection is lost.
#[derive(Debug, Clone, Copy)]
pub struct ProviderFailure {
    pub code: &'static str,
    pub dispatch_state: McpGatewayDispatchState,
    pub fatal: bool,
}

/// A failure before anything was sent; the connection is lost.
pub open spec fn failed_before_send(code: &'static str) -> ProviderFailure {
    ProviderFailure { code, dispatch_state: McpGatewayDispatchState::NotStarted, fatal: true }
}

/// A failure after the request may have been sent; the connection is lost.
pub open spec fn failed_after_send(code: &'static str) -> ProviderFailure {
    ProviderFailure { code, dispatch_state: McpGatewayDispatchState::OutcomeUnknown, fatal: true }
}

/// A failure of a finished exchange; the connection stays.
pub open spec fn failed_completed(code: &'static str) -> ProviderFailure {
    ProviderFailure { code, dispatch_state: McpGatewayDispatchState::Completed, fatal: false }
}

/// A refusal before anything was sent; the connection stays.
pub open spec fn failed_not_started(code: &'static str) -> ProviderFailure {
    ProviderFailure { code, dispatch_state: McpGatewayDispatchState::NotStarted, fatal: false }
}

/// The same failure, of a step before the request itself.
pub open spec fn failed_preflight(error: ProviderFailure) -> ProviderFailure {
    ProviderFailure {
        code: error.code,
        dispatch_state: McpGatewayDispatchState::NotStarted,
        fatal: error.fatal,
    }
}

impl ProviderFailure {
    pub fn before_send(code: &'static str) -> (r: Self)
        ensures
            r == failed_before_send(code),
    {
        ProviderFailure { code, dispatch_state: McpGatewayDispatchState::NotStarted, fatal: true }
    }

    pub fn after_send(code: &'static str) -> (r: Self)
        ensures
            r == failed_after_send(code),
    {
        ProviderFailure {
            code,
            dispatch_state: McpGatewayDispatchState::OutcomeUnknown,
            fatal: true,
        }
    }

    /// A correlated response proves that the exchange is complete, so what is wrong with its
    /// result does not cost the connection.
    pub fn completed(code: &'static str) -> (r: Self)
        ensures
            r == failed_completed(code),
    {
        ProviderFailure { code, dispatch_state: McpGatewayDispatchState::Completed, fatal: false }
    }

    pub fn not_started(code: &'static str) -> (r: Self)
        ensures
            r == failed_not_started(code),
    {
        ProviderFailure { code, dispatch_state: McpGatewayDispatchState::NotStarted, fatal: false }
    }

    /// A check before a call may itself have been sent, but the call has not started.
    pub fn preflight(error: Self) -> (r: Self)
        ensures
            r == failed_preflight(error),
    {
        ProviderFailure {
            code: error.code,
            dispatch_state: McpGatewayDispatchState::NotStarted,
            fatal: error.fatal,
        }
    }

    pub fn rpc_error() -> (r: Self)
        ensures
            r == failed_completed("provider_rpc_error"),
    {
        ProviderFailure {
            code: "provider_rpc_error",
            dispatch_state: McpGatewayDispatchState::Completed,
            fatal: false,
        }
    }
}

// ---------------------------------------------------------------------------------------------
// Lines
// ---------------------------------------------------------------------------------------------
/// Why no message came out of the output of a provider.
#[derive(Debug, Clone, Copy, PartialEq, Eq, Structural)]
pub enum ReaderFault {
    Malformed,
    TooLarge,
    Io,
}

/// What the reader of a provider's output reports.
#[derive(Debug)]
pub enum ReaderEvent {
    Message(Result<Json, ReaderFault>),
    Eof,
}

/// The content of a reader event.
pub enum EventView {
    Message(JsonView),
    Fault(ReaderFault),
    Eof,
}

impl ReaderEvent {
    pub open spec fn view(self) -> EventView {
        match self {
            ReaderEvent::Message(Ok(message)) => EventView::Message(message.view()),
            ReaderEvent::Message(Err(fault)) => EventView::Fault(fault),
            ReaderEvent::Eof => EventView::Eof,
        }
    }
}

/// The contents of reader events.
pub open spec fn events_view(events: Seq<ReaderEvent>) -> Seq<EventView> {
    Seq::new(events.len(), |i: int| events[i].view())
}

/// A line without its end: the line feed goes, and one carriage return before it.
pub open spec fn line_body(line: Seq<u8>) -> Seq<u8> {
    let body = line.drop_last();
    if body.len() > 0 && body.last() == 13u8 {
        body.drop_last()
    } else {
        body
    }
}

/// What one bounded read of a line gives: the bytes without the line end; nothing at the end of
/// the output; a fault for a read error, a line that is empty or cut off, or one over the bound.
pub open spec fn bounded_line(read: Result<Seq<u8>, ()>) -> Result<Option<Seq<u8>>, ReaderFault> {
    match read {
        Err(_) => Err(ReaderFault::Io),
        Ok(line) => if line.len() == 0 {
            Ok(None)
        } else if line.last() != 10u8 {
            if line.len() > MCP_GATEWAY_MAX_MESSAGE_BYTES {
                Err(ReaderFault::TooLarge)
            } else {
                Err(ReaderFault::Malformed)
            }
        } else if line_body(line).len() > MCP_GATEWAY_MAX_MESSAGE_BYTES {
            Err(ReaderFault::TooLarge)
        } else if line_body(line).len() == 0 {
            Err(ReaderFault::Malformed)
        } else {
            Ok(Some(line_body(line)))
        },
    }
}

/// The content of a read.
pub open spec fn read_view(read: Result<Vec<u8>, ()>) -> Result<Seq<u8>, ()> {
    match read {
        Ok(bytes) => Ok(bytes@),
        Err(e) => Err(e),
    }
}

/// Judges one bounded read of a line. `read` holds the bytes up to and including the first line
/// feed, at most two more than a message may have, or says that reading failed.
pub fn read_bounded_line(read: Result<Vec<u8>, ()>) -> (r: Result<Option<Vec<u8>>, ReaderFault>)
    ensures
        match bounded_line(read_view(read)) {
            Ok(Some(line)) => r matches Ok(Some(found)) && found@ == line,
            Ok(None) => r matches Ok(None),
            Err(fault) => r == Result::<Option<Vec<u8>>, ReaderFault>::Err(fault),
        },
{
    let mut line: Vec<u8> = match read {
        Ok(bytes) => bytes,
        Err(_) => {
            return Err(ReaderFault::Io);
        },
    };
    if line.len() == 0 {
        return Ok(None);
    }
    if line[line.len() - 1] != 10u8 {
        return if line.len() > MCP_GATEWAY_MAX_MESSAGE_BYTES {
            Err(ReaderFault::TooLarge)
        } else {
            Err(ReaderFault::Malformed)
        };
    }
    line.pop();
    if line.len() > 0 && line[line.len() - 1] == 13u8 {
        line.pop();
    }
    if line.len() > MCP_GATEWAY_MAX_MESSAGE_BYTES {
        return Err(ReaderFault::TooLarge);
    }
    if line.len() == 0 {
        return Err(ReaderFault::Malformed);
    }
    Ok(Some(line))
}

/// The most that one bounded read of a line takes: a message and its line end.
pub const MAX_LINE_BYTES: usize = MCP_GATEWAY_MAX_MESSAGE_BYTES + 2;

/// Where a read that is at `at` ends: after the first line feed, at `limit`, or where the bytes
/// end, whichever comes first.
pub open spec fn read_end(bytes: Seq<u8>, at: int, limit: int) -> int
    decreases bytes.len() - at,
{
    if at >= limit || at >= bytes.len() {
        at
    } else if bytes[at] == 10u8 {
        at + 1
    } else {
        read_end(bytes, at + 1, limit)
    }
}

/// How many bytes a read takes of those that follow a line begun with `begun` bytes.
pub open spec fn taken(begun: int, bytes: Seq<u8>) -> int {
    read_end(bytes, 0, MAX_LINE_BYTES - begun)
}

/// A line that has its line feed, or that is as long as a read may get.
pub open spec fn line_complete(line: Seq<u8>) -> bool {
    line.len() >= MAX_LINE_BYTES || line.len() > 0 && line.last() == 10u8
}

/// Moves to a begun line what a read of it takes of the bytes that follow. Returns how many bytes
/// that are, and whether the line is complete.
pub fn extend_line(line: &mut Vec<u8>, bytes: &[u8]) -> (r: (usize, bool))
    requires
        old(line)@.len() <= MAX_LINE_BYTES,
    ensures
        r.0 == taken(old(line)@.len() as int, bytes@),
        r.0 <= bytes@.len(),
        final(line)@ == old(line)@ + bytes@.take(r.0 as int),
        final(line)@.len() <= MAX_LINE_BYTES,
        r.1 == line_complete(final(line)@),
{
    let room: usize = MAX_LINE_BYTES - line.len();
    let mut at: usize = 0;
    let mut ended = line.len() > 0 && line[line.len() - 1] == 10u8;
    let mut fed = false;
    assert(line@ =~= old(line)@ + bytes@.take(0));
    while !fed && at < room && at < bytes.len()
        invariant
            old(line)@.len() + room == MAX_LINE_BYTES,
            at <= room,
            at <= bytes@.len(),
            line@ == old(line)@ + bytes@.take(at as int),
            ended == (line@.len() > 0 && line@.last() == 10u8),
            taken(old(line)@.len() as int, bytes@) == if fed {
                at as int
            } else {
                read_end(bytes@, at as int, room as int)
            },
        decreases bytes@.len() - at,
    {
        let byte: u8 = bytes[at];
        line.push(byte);
        assert(bytes@.take(at + 1) =~= bytes@.take(at as int).push(byte));
        assert(line@ =~= old(line)@ + bytes@.take(at + 1));
        ended = byte == 10u8;
        fed = ended;
        at = at + 1;
    }
    (at, ended || at == room)
}

proof fn read_end_bounds(bytes: Seq<u8>, at: int, limit: int)
    requires
        0 <= at <= bytes.len(),
    ensures
        at <= read_end(bytes, at, limit) <= bytes.len(),
    decreases bytes.len() - at,
{
    if at < limit && at < bytes.len() && bytes[at] != 10u8 {
        read_end_bounds(bytes, at + 1, limit);
    }
}

/// The read that finds a line feed at `end` and none before it ends there.
proof fn read_end_at_line_feed(bytes: Seq<u8>, at: int, limit: int, end: int)
    requires
        0 <= at <= end < bytes.len(),
        end < limit,
        bytes[end] == 10u8,
        forall|i: int| at <= i < end ==> bytes[i] != 10u8,
    ensures
        read_end(bytes, at, limit) == end + 1,
    decreases end - at,
{
    if at < end {
        read_end_at_line_feed(bytes, at + 1, limit, end);
    }
}

proof fn read_end_in_chunks(first: Seq<u8>, second: Seq<u8>, at: int, limit: int)
    requires
        0 <= at <= first.len(),
    ensures
        ({
            let end = read_end(first, at, limit);
            let all = read_end(first + second, at, limit);
            if end >= limit || at < end && first[end - 1] == 10u8 {
                all == end
            } else {
                &&& end == first.len()
                &&& all == first.len() + read_end(second, 0, limit - first.len())
            }
        }),
    decreases first.len() - at,
{
    let both = first + second;
    if at < first.len() {
        assert(both[at] == first[at]);
        if at < limit && first[at] != 10u8 {
            read_end_in_chunks(first, second, at + 1, limit);
        }
    } else if at < limit {
        read_end_shifted(first, second, 0, limit);
    }
}

proof fn read_end_shifted(before: Seq<u8>, bytes: Seq<u8>, at: int, limit: int)
    requires
        0 <= at <= bytes.len(),
    ensures
        read_end(before + bytes, before.len() + at, limit) == before.len() + read_end(
            bytes,
            at,
            limit - before.len(),
        ),
    decreases bytes.len() - at,
{
    if at < bytes.len() {
        assert((before + bytes)[before.len() + at] == bytes[at]);
        if before.len() + at < limit && bytes[at] != 10u8 {
            read_end_shifted(before, bytes, at + 1, limit);
        }
    }
}

/// A read takes the same of the output whether it comes at once or in two chunks: what the first
/// chunk completes leaves the second alone, and else the second goes on where the first ended.
pub proof fn chunks_read_as_one(begun: Seq<u8>, first: Seq<u8>, second: Seq<u8>)
    requires
        !line_complete(begun),
    ensures
        ({
            let n = taken(begun.len() as int, first);
            let line = begun + first.take(n);
            taken(begun.len() as int, first + second) == if line_complete(line) {
                n
            } else {
                n + taken(line.len() as int, second)
            }
        }),
{
    let limit = MAX_LINE_BYTES - begun.len();
    let n = taken(begun.len() as int, first);
    let line = begun + first.take(n);
    read_end_bounds(first, 0, limit);
    read_end_in_chunks(first, second, 0, limit);
    if n == 0 {
        assert(line =~= begun);
    } else {
        assert(line.last() == first[n - 1]);
    }
    read_end_within(first, 0, limit);
}

proof fn read_end_within(bytes: Seq<u8>, at: int, limit: int)
    requires
        0 <= at <= limit,
    ensures
        read_end(bytes, at, limit) <= limit,
    decreases bytes.len() - at,
{
    if at < limit && at < bytes.len() && bytes[at] != 10u8 {
        read_end_within(bytes, at + 1, limit);
    }
}

/// A message that was written as a line is read back, and the read ends with its line: for a
/// message of one byte up to the bound, without a line feed and not ending in a carriage return,
/// a read of it, its line end and whatever follows gives the message and leaves what follows.
pub proof fn written_lines_read_back(message: Seq<u8>, carriage_return: bool, rest: Seq<u8>)
    requires
        1 <= message.len() <= MCP_GATEWAY_MAX_MESSAGE_BYTES,
        !message.contains(10u8),
        message.last() != 13u8,
    ensures
        ({
            let end = if carriage_return {
                seq![13u8, 10u8]
            } else {
                seq![10u8]
            };
            let output = message + end + rest;
            let n = taken(0, output);
            &&& bounded_line(Ok(message + end)) == Ok::<Option<Seq<u8>>, ReaderFault>(Some(message))
            &&& output.take(n) == message + end
            &&& output.skip(n) == rest
        }),
{
    let end = if carriage_return {
        seq![13u8, 10u8]
    } else {
        seq![10u8]
    };
    let line = message + end;
    let output = line + rest;
    let last = line.len() - 1;
    assert forall|i: int| 0 <= i < last implies output[i] != 10u8 by {
        if i < message.len() {
            assert(output[i] == message[i]);
            assert(message.contains(message[i]));
        }
    }
    read_end_at_line_feed(output, 0, MAX_LINE_BYTES as int, last);
    assert(output.take(last + 1) =~= line);
    assert(output.skip(last + 1) =~= rest);
    if carriage_return {
        assert(line.drop_last() =~= message.push(13u8));
        assert(message.push(13u8).drop_last() =~= message);
    } else {
        assert(line.drop_last() =~= message);
    }
}

/// What a read means to the exchange.
pub open spec fn event_of_read(read: Result<Seq<u8>, ()>) -> EventView {
    match bounded_line(read) {
        Ok(Some(line)) => match json::parsed_json(line) {
            Some(message) => EventView::Message(message),
            None => EventView::Fault(ReaderFault::Malformed),
        },
        Ok(None) => EventView::Eof,
        Err(fault) => EventView::Fault(fault),
    }
}

/// Turns one bounded read into what the reader reports.
pub fn reader_event(read: Result<Vec<u8>, ()>) -> (r: ReaderEvent)
    ensures
        r.view() == event_of_read(read_view(read)),
{
    match read_bounded_line(read) {
        Ok(Some(line)) => match json::parse_json(line.as_slice()) {
            Some(message) => ReaderEvent::Message(Ok(message)),
            None => ReaderEvent::Message(Err(ReaderFault::Malformed)),
        },
        Ok(None) => ReaderEvent::Eof,
        Err(fault) => ReaderEvent::Message(Err(fault)),
    }
}

/// Tells whether the reader ends after an event: it does after anything but a message.
pub fn ends_reader(event: &ReaderEvent) -> (r: bool)
    ensures
        r == !(event.view() is Message),
{
    match event {
        ReaderEvent::Message(Ok(_)) => false,
        _ => true,
    }
}

// ---------------------------------------------------------------------------------------------
// Messages
// ---------------------------------------------------------------------------------------------
/// A method name that a notification may carry.
pub open spec fn notification_method_ok(method: Seq<char>) -> bool {
    method.len() > 0 && text::byte_len(method) <= 256 && !text::has_control(method)
}

/// A message that asks for nothing: a well-formed JSON-RPC notification.
pub open spec fn is_notification(message: JsonView) -> bool {
    &&& message is Object
    &&& json::as_text(json::member(message, "jsonrpc"@)) == Some("2.0"@)
    &&& json::member(message, "id"@) is None
    &&& json::member(message, "result"@) is None
    &&& json::member(message, "error"@) is None
    &&& json::as_text(json::member(message, "method"@)) matches Some(method)
        && notification_method_ok(method)
    &&& json::member(message, "params"@) matches Some(params) ==> params is Object || params is Array
}

fn has_text(message: &Json, name: &str, expected: &str) -> (r: bool)
    ensures
        r == (json::as_text(json::member(message.view(), name@)) == Some(expected@)),
{
    match message.get(name) {
        Some(value) => match value.as_str() {
            Some(found) => text::same(found, expected),
            None => false,
        },
        None => false,
    }
}

/// Tells whether a message is a notification.
pub fn is_provider_notification(message: &Json) -> (r: bool)
    ensures
        r == is_notification(message.view()),
{
    if !message.is_object() {
        return false;
    }
    if !has_text(message, "jsonrpc", "2.0") || message.get("id").is_some() || message.get(
        "result",
    ).is_some() || message.get("error").is_some() {
        return false;
    }
    let method = match message.get("method") {
        Some(value) => match value.as_str() {
            Some(method) => method,
            None => {
                return false;
            },
        },
        None => {
            return false;
        },
    };
    if method.is_empty() || utf8_len(method) > 256 || contains_control(method) {
        return false;
    }
    match message.get("params") {
        None => true,
        Some(params) => params.is_object() || params.is_array(),
    }
}

/// A character that the message of an error may hold.
pub open spec fn error_message_char_ok(c: char) -> bool {
    !text::control(c) || c == '\n' || c == '\r' || c == '\t'
}

/// The message of a well-formed error.
pub open spec fn error_message_ok(message: Seq<char>) -> bool {
    &&& message.len() > 0
    &&& text::byte_len(message) <= 512
    &&& forall|i: int| 0 <= i < message.len() ==> error_message_char_ok(#[trigger] message[i])
}

/// A well-formed JSON-RPC error object.
pub open spec fn is_rpc_error(error: JsonView) -> bool {
    &&& error is Object
    &&& json::as_signed(json::member(error, "code"@)) is Some
    &&& json::as_text(json::member(error, "message"@)) matches Some(message) && error_message_ok(
        message,
    )
}

/// What a response to the request `expected_id` means: its result, or a failure.
pub open spec fn rpc_verdict(response: JsonView, expected_id: u64) -> Result<
    JsonView,
    ProviderFailure,
> {
    let id = json::as_unsigned(json::member(response, "id"@));
    if !(response is Object) || json::as_text(json::member(response, "jsonrpc"@)) != Some("2.0"@) {
        Err(failed_after_send("provider_protocol_error"))
    } else if json::member(response, "method"@) is Some {
        Err(failed_after_send("provider_callbacks_unsupported"))
    } else if id is None {
        Err(failed_after_send("provider_response_id_invalid"))
    } else if id->0 < expected_id {
        Err(failed_after_send("provider_duplicate_response_id"))
    } else if id->0 != expected_id {
        Err(failed_after_send("provider_unknown_response_id"))
    } else {
        match (json::member(response, "result"@), json::member(response, "error"@)) {
            (Some(result), None) => Ok(result),
            (None, Some(error)) => if is_rpc_error(error) {
                Err(failed_completed("provider_rpc_error"))
            } else {
                Err(failed_after_send("provider_protocol_error"))
            },
            _ => Err(failed_after_send("provider_protocol_error")),
        }
    }
}

/// The content of the outcome of a request.
pub open spec fn outcome_view(outcome: Result<Json, ProviderFailure>) -> Result<
    JsonView,
    ProviderFailure,
> {
    match outcome {
        Ok(value) => Ok(value.view()),
        Err(failure) => Err(failure),
    }
}

fn error_message_acceptable(message: &str) -> (r: bool)
    ensures
        r == error_message_ok(message@),
{
    if message.is_empty() || utf8_len(message) > 512 {
        return false;
    }
    for c in it: message.chars()
        invariant
            it.seq() == message@,
            message@.len() > 0,
            text::byte_len(message@) <= 512,
            forall|i: int|
                0 <= i < it.index() ==> error_message_char_ok(#[trigger] message@[i]),
    {
        if text::is_control(c) && c != '\n' && c != '\r' && c != '\t' {
            assert(!error_message_char_ok(message@[it.index()]));
            return false;
        }
    }
    true
}

fn is_rpc_error_object(error: &Json) -> (r: bool)
    ensures
        r == is_rpc_error(error.view()),
{
    if !error.is_object() {
        return false;
    }
    let coded = match error.get("code") {
        Some(code) => code.as_i64().is_some(),
        None => false,
    };
    if !coded {
        return false;
    }
    match error.get("message") {
        Some(message) => match message.as_str() {
            Some(message) => error_message_acceptable(message),
            None => false,
        },
        None => false,
    }
}

/// Checks a response against the request that it must answer, and returns its result.
pub fn validate_rpc_response(response: Json, expected_id: u64) -> (r: Result<Json, ProviderFailure>)
    ensures
        outcome_view(r) == rpc_verdict(response.view(), expected_id),
{
    if !response.is_object() || !has_text(&response, "jsonrpc", "2.0") {
        return Err(ProviderFailure::after_send("provider_protocol_error"));
    }
    if response.get("method").is_some() {
        return Err(ProviderFailure::after_send("provider_callbacks_unsupported"));
    }
    let id: Option<u64> = match response.get("id") {
        Some(id) => id.as_u64(),
        None => None,
    };
    let response_id: u64 = match id {
        Some(id) => id,
        None => {
            return Err(ProviderFailure::after_send("provider_response_id_invalid"));
        },
    };
    if response_id < expected_id {
        return Err(ProviderFailure::after_send("provider_duplicate_response_id"));
    }
    if response_id != expected_id {
        return Err(ProviderFailure::after_send("provider_unknown_response_id"));
    }
    match (response.get("result"), response.get("error")) {
        (Some(result), None) => Ok(result.copy()),
        (None, Some(error)) => if is_rpc_error_object(error) {
            Err(ProviderFailure::rpc_error())
        } else {
            Err(ProviderFailure::after_send("provider_protocol_error"))
        },
        _ => Err(ProviderFailure::after_send("provider_protocol_error")),
    }
}

// ---------------------------------------------------------------------------------------------
// Laws on messages
// ---------------------------------------------------------------------------------------------
/// How far a request got and whether the connection is lost go with the kind of a failure, and a
/// failure keeps its code.
pub proof fn failures_say_how_far_they_got(code: &'static str, error: ProviderFailure)
    ensures
        failed_before_send(code).code == code && failed_before_send(code).fatal
            && failed_before_send(code).dispatch_state == McpGatewayDispatchState::NotStarted,
        failed_after_send(code).code == code && failed_after_send(code).fatal && failed_after_send(
            code,
        ).dispatch_state == McpGatewayDispatchState::OutcomeUnknown,
        failed_completed(code).code == code && !failed_completed(code).fatal && failed_completed(
            code,
        ).dispatch_state == McpGatewayDispatchState::Completed,
        failed_not_started(code).code == code && !failed_not_started(code).fatal
            && failed_not_started(code).dispatch_state == McpGatewayDispatchState::NotStarted,
        failed_preflight(error).code == error.code && failed_preflight(error).fatal == error.fatal
            && failed_preflight(error).dispatch_state == McpGatewayDispatchState::NotStarted,
{
}

/// A message is a notification exactly where it is of JSON-RPC 2.0, carries a method name of at
/// most 256 bytes without control characters, has neither an id nor a result nor an error, and its
/// parameters, if any, are an object or a list.
pub proof fn notifications_ask_for_nothing(message: JsonView)
    ensures
        is_notification(message) <==> {
            &&& json::member(message, "jsonrpc"@) == Some(JsonView::Text("2.0"@))
            &&& json::member(message, "id"@) is None
            &&& json::member(message, "result"@) is None
            &&& json::member(message, "error"@) is None
            &&& json::member(message, "method"@) matches Some(JsonView::Text(method)) && 0
                < method.len() && text::byte_len(method) <= 256 && !text::has_control(method)
            &&& match json::member(message, "params"@) {
                None => true,
                Some(params) => params is Object || params is Array,
            }
        },
{
}

/// A response gives its result exactly where it is of JSON-RPC 2.0, carries no method, has the
/// number of the request, and has a result and no error.
pub proof fn responses_give_their_result(response: JsonView, expected_id: u64, result: JsonView)
    ensures
        rpc_verdict(response, expected_id) == Ok::<JsonView, ProviderFailure>(result) <==> {
            &&& json::member(response, "jsonrpc"@) == Some(JsonView::Text("2.0"@))
            &&& json::member(response, "method"@) is None
            &&& json::member(response, "id"@) == Some(
                JsonView::Number(json::NumberView::Integer(expected_id as int)),
            )
            &&& json::member(response, "result"@) == Some(result)
            &&& json::member(response, "error"@) is None
        },
{
    match json::member(response, "id"@) {
        Some(id) => {
            json::readings_fit_the_value(id, Seq::empty(), expected_id, 0);
        },
        None => {},
    }
}

/// A response that gives no result fails for its first fault, in this order: it is no JSON-RPC 2.0
/// message, it carries a method, its id is no number of a request, its id is that of an earlier or
/// of a later request, or it has not exactly one of a result and a well-formed error. Only a
/// well-formed error completes the exchange.
pub proof fn responses_fail_for_their_first_fault(response: JsonView, expected_id: u64)
    ensures
        rpc_verdict(response, expected_id) matches Err(failure) ==> {
            let spoken = json::member(response, "jsonrpc"@) == Some(JsonView::Text("2.0"@));
            let id = json::as_unsigned(json::member(response, "id"@));
            let result = json::member(response, "result"@);
            let error = json::member(response, "error"@);
            let refused = result is None && error is Some && is_rpc_error(error->0);
            &&& failure.code == if !spoken {
                "provider_protocol_error"
            } else if json::member(response, "method"@) is Some {
                "provider_callbacks_unsupported"
            } else if id is None {
                "provider_response_id_invalid"
            } else if id->0 < expected_id {
                "provider_duplicate_response_id"
            } else if id->0 > expected_id {
                "provider_unknown_response_id"
            } else if refused {
                "provider_rpc_error"
            } else {
                "provider_protocol_error"
            }
            &&& failure.fatal <==> failure.dispatch_state != McpGatewayDispatchState::Completed
            &&& failure.dispatch_state == McpGatewayDispatchState::Completed <==> spoken
                && json::member(response, "method"@) is None && id == Some(expected_id) && refused
            &&& failure.dispatch_state != McpGatewayDispatchState::NotStarted
        },
{
}

/// An error is well formed exactly where it has an integer code and a message that is not empty,
/// not over 512 bytes, and free of control characters other than line ends and tabs.
pub proof fn errors_have_a_code_and_a_message(error: JsonView)
    ensures
        is_rpc_error(error) <==> {
            &&& json::as_signed(json::member(error, "code"@)) is Some
            &&& json::member(error, "message"@) matches Some(JsonView::Text(message)) && 0
                < message.len() && text::byte_len(message) <= 512 && forall|i: int|
                0 <= i < message.len() ==> !text::control(#[trigger] message[i]) || message[i]
                    == '\n' || message[i] == '\r' || message[i] == '\t'
        },
{
    match json::member(error, "message"@) {
        Some(JsonView::Text(message)) => {
            if error_message_ok(message) {
                assert forall|i: int| 0 <= i < message.len() implies !text::control(
                    #[trigger] message[i],
                ) || message[i] == '\n' || message[i] == '\r' || message[i] == '\t' by {
                    assert(error_message_char_ok(message[i]));
                }
            }
            if forall|i: int|
                0 <= i < message.len() ==> !text::control(#[trigger] message[i]) || message[i]
                    == '\n' || message[i] == '\r' || message[i] == '\t' {
                assert forall|i: int| 0 <= i < message.len() implies error_message_char_ok(
                    #[trigger] message[i],
                ) by {
                    assert(!text::control(message[i]) || message[i] == '\n' || message[i] == '\r'
                        || message[i] == '\t');
                }
            }
        },
        _ => {},
    }
}

/// A read gives a message exactly where it is a complete line with something in it, within the
/// bound; nothing is the end of the output, and every other read is a fault: too large exactly
/// where more than a message was read, malformed otherwise.
pub proof fn reads_are_judged_by_their_line(line: Seq<u8>)
    ensures
        bounded_line(Err(())) == Err::<Option<Seq<u8>>, ReaderFault>(ReaderFault::Io),
        bounded_line(Ok(line)) == Ok::<Option<Seq<u8>>, ReaderFault>(None) <==> line.len() == 0,
        bounded_line(Ok(line)) matches Ok(Some(message)) ==> {
            &&& 1 <= message.len() <= 1048576
            &&& line == message + seq![10u8] || line == message + seq![13u8, 10u8]
        },
        bounded_line(Ok(line)) == Err::<Option<Seq<u8>>, ReaderFault>(ReaderFault::TooLarge)
            ==> line.len() > 1048576,
        line.len() > 1048578 ==> bounded_line(Ok(line)) == Err::<Option<Seq<u8>>, ReaderFault>(
            ReaderFault::TooLarge,
        ),
        0 < line.len() <= 1048576 && (line.last() != 10u8 || line == seq![10u8] || line
            == seq![13u8, 10u8]) ==> bounded_line(Ok(line)) == Err::<
            Option<Seq<u8>>,
            ReaderFault,
        >(ReaderFault::Malformed),
{
    if line.len() > 0 && line.last() == 10u8 {
        let body = line.drop_last();
        assert(line =~= body + seq![10u8]);
        if body.len() > 0 && body.last() == 13u8 {
            assert(line =~= body.drop_last() + seq![13u8, 10u8]);
        }
    }
}

/// A read becomes the message that its line parses as; a line that does not parse is malformed,
/// and what the reader could not read stays a fault.
pub proof fn events_follow_their_reads(read: Result<Seq<u8>, ()>)
    ensures
        match bounded_line(read) {
            Ok(None) => event_of_read(read) == EventView::Eof,
            Err(fault) => event_of_read(read) == EventView::Fault(fault),
            Ok(Some(line)) => match json::parsed_json(line) {
                Some(message) => event_of_read(read) == EventView::Message(message),
                None => event_of_read(read) == EventView::Fault(ReaderFault::Malformed),
            },
        },
{
}

/// The contents of events, reads and outcomes are those of each, and none passes for another.
pub proof fn contents_are_those_of_each(
    events: Seq<ReaderEvent>,
    read: Result<Vec<u8>, ()>,
    outcome: Result<Json, ProviderFailure>,
)
    ensures
        events_view(events).len() == events.len(),
        forall|i: int| 0 <= i < events.len() ==> (#[trigger] events_view(events)[i]) == events[i]@,
        read is Ok <==> read_view(read) is Ok,
        read is Ok ==> read_view(read)->Ok_0 == (read->Ok_0)@,
        outcome is Ok <==> outcome_view(outcome) is Ok,
        outcome is Ok ==> outcome_view(outcome)->Ok_0 == (outcome->Ok_0)@,
        outcome is Err ==> outcome_view(outcome)->Err_0 == outcome->Err_0,
{
}

} // verus!
