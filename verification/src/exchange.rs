//! One request at a time over a provider connection: what is drained before it, what is written,
//! and which of the events that follow answers it.
use crate::json::{self, Json, JsonView, NumberView};
use crate::rpc::{
    self, is_provider_notification, validate_rpc_response, EventView, ProviderFailure, ReaderEvent,
    ReaderFault, MCP_GATEWAY_MAX_IGNORED_NOTIFICATIONS, MCP_GATEWAY_MAX_MESSAGE_BYTES,
};
use vstd::prelude::*;
use vstd::string::*;

verus! {

/// The request numbering of a connection.
#[derive(Debug, Clone, Copy, PartialEq, Eq, Structural)]
pub struct ProviderConnection {
    pub next_id: u64,
}

/// What a look at the reader without waiting gives.
#[derive(Debug)]
pub enum Polled {
    Empty,
    Closed,
    Event(ReaderEvent),
}

/// What to do after a look at the reader before a request.
#[derive(Debug)]
pub enum DrainStep {
    /// Nothing is left: the request may be sent.
    Drained,
    /// A notification was ignored; the number of those so far.
    Ignored(usize),
    Failed(ProviderFailure),
}

/// What waiting for the reader gives.
#[derive(Debug)]
pub enum Waited {
    TimedOut,
    Closed,
    Event(ReaderEvent),
}

/// What to do after waiting for a response.
#[derive(Debug)]
pub enum AwaitStep {
    /// A notification was ignored; the number of those so far.
    Ignored(usize),
    Done(Result<Json, ProviderFailure>),
}

/// What the streams of a provider gave around one request: `backlog` stood before it, `written`
/// says whether its line could be written, `replies` followed it in time. A stream that is closed
/// gives nothing more; one that is open is out of events or out of time.
#[derive(Debug)]
pub struct StreamFacts {
    pub backlog: Vec<ReaderEvent>,
    pub backlog_closed: bool,
    pub written: bool,
    pub replies: Vec<ReaderEvent>,
    pub replies_closed: bool,
}

/// The content of what the streams gave.
pub struct StreamView {
    pub backlog: Seq<EventView>,
    pub backlog_closed: bool,
    pub written: bool,
    pub replies: Seq<EventView>,
    pub replies_closed: bool,
}

impl StreamFacts {
    pub open spec fn view(self) -> StreamView {
        StreamView {
            backlog: rpc::events_view(self.backlog@),
            backlog_closed: self.backlog_closed,
            written: self.written,
            replies: rpc::events_view(self.replies@),
            replies_closed: self.replies_closed,
        }
    }
}

/// A numbered request, ready to be written.
#[derive(Debug)]
pub struct OutgoingRequest {
    pub id: u64,
    pub bytes: Vec<u8>,
}

/// The name of a reader fault.
pub open spec fn fault_code(fault: ReaderFault) -> &'static str {
    match fault {
        ReaderFault::Malformed => "provider_malformed_json",
        ReaderFault::TooLarge => "provider_message_too_large",
        ReaderFault::Io => "provider_stdout_failed",
    }
}

/// What an event that stands before a request means: the number of notifications ignored so far,
/// or the failure of the request.
pub open spec fn drain_verdict(next_id: u64, ignored: nat, event: EventView) -> Result<
    nat,
    ProviderFailure,
> {
    match event {
        EventView::Eof => Err(rpc::failed_before_send("provider_eof")),
        EventView::Fault(fault) => Err(rpc::failed_before_send(fault_code(fault))),
        EventView::Message(message) => if rpc::is_notification(message) {
            if ignored + 1 > MCP_GATEWAY_MAX_IGNORED_NOTIFICATIONS {
                Err(rpc::failed_before_send("provider_notification_flood"))
            } else {
                Ok(ignored + 1)
            }
        } else if json::member(message, "method"@) is Some {
            Err(rpc::failed_before_send("provider_callbacks_unsupported"))
        } else {
            match json::as_unsigned(json::member(message, "id"@)) {
                Some(id) => if id < next_id {
                    Err(rpc::failed_before_send("provider_duplicate_response_id"))
                } else {
                    Err(rpc::failed_before_send("provider_unknown_response_id"))
                },
                None => if u64::MAX < next_id {
                    Err(rpc::failed_before_send("provider_duplicate_response_id"))
                } else {
                    Err(rpc::failed_before_send("provider_unknown_response_id"))
                },
            }
        },
    }
}

/// What stands in the way of a request: the first failure among the events that came before it,
/// or the end of the output.
pub open spec fn backlog_failure(
    next_id: u64,
    ignored: nat,
    backlog: Seq<EventView>,
    closed: bool,
) -> Option<ProviderFailure>
    decreases backlog.len(),
{
    if backlog.len() == 0 {
        if closed {
            Some(rpc::failed_before_send("provider_eof"))
        } else {
            None
        }
    } else {
        match drain_verdict(next_id, ignored, backlog[0]) {
            Err(failure) => Some(failure),
            Ok(now) => backlog_failure(next_id, now, backlog.skip(1), closed),
        }
    }
}

/// What an event that follows a request means: the number of notifications ignored so far, or
/// the outcome of the request.
pub open spec fn await_verdict(id: u64, ignored: nat, event: EventView) -> Result<
    nat,
    Result<JsonView, ProviderFailure>,
> {
    match event {
        EventView::Eof => Err(Err(rpc::failed_after_send("provider_eof"))),
        EventView::Fault(fault) => Err(Err(rpc::failed_after_send(fault_code(fault)))),
        EventView::Message(message) => if rpc::is_notification(message) {
            if ignored + 1 > MCP_GATEWAY_MAX_IGNORED_NOTIFICATIONS {
                Err(Err(rpc::failed_after_send("provider_notification_flood")))
            } else {
                Ok(ignored + 1)
            }
        } else if json::member(message, "method"@) is Some {
            Err(Err(rpc::failed_after_send("provider_callbacks_unsupported")))
        } else {
            Err(rpc::rpc_verdict(message, id))
        },
    }
}

/// The outcome of a request that was written: that of the first event that decides it, or a
/// failure where the output ends or the time runs out first.
pub open spec fn reply_outcome(
    id: u64,
    ignored: nat,
    replies: Seq<EventView>,
    closed: bool,
) -> Result<JsonView, ProviderFailure>
    decreases replies.len(),
{
    if replies.len() == 0 {
        if closed {
            Err(rpc::failed_after_send("provider_eof"))
        } else {
            Err(rpc::failed_after_send("provider_timeout"))
        }
    } else {
        match await_verdict(id, ignored, replies[0]) {
            Err(outcome) => outcome,
            Ok(now) => reply_outcome(id, now, replies.skip(1), closed),
        }
    }
}

/// The next request number.
pub open spec fn following_id(id: u64) -> u64 {
    if id == u64::MAX {
        id
    } else {
        (id + 1) as u64
    }
}

/// A JSON-RPC request.
pub open spec fn request_message(id: u64, method: Seq<char>, params: JsonView) -> JsonView {
    JsonView::Object(
        seq![
            ("id"@, JsonView::Number(NumberView::Integer(id as int))),
            ("jsonrpc"@, JsonView::Text("2.0"@)),
            ("method"@, JsonView::Text(method)),
            ("params"@, params),
        ],
    )
}

/// A JSON-RPC notification.
pub open spec fn notification_message(method: Seq<char>, params: JsonView) -> JsonView {
    JsonView::Object(
        seq![
            ("jsonrpc"@, JsonView::Text("2.0"@)),
            ("method"@, JsonView::Text(method)),
            ("params"@, params),
        ],
    )
}

/// The line that carries a message, or why there is none.
pub open spec fn message_line(message: JsonView) -> Result<Seq<u8>, ProviderFailure> {
    match json::encoded_json(message) {
        None => Err(rpc::failed_before_send("provider_request_invalid")),
        Some(bytes) => if bytes.len() > MCP_GATEWAY_MAX_MESSAGE_BYTES {
            Err(rpc::failed_before_send("provider_request_too_large"))
        } else {
            Ok(bytes.push(10u8))
        },
    }
}

/// The number of the request after this one: a request that something stands before takes none.
pub open spec fn id_after_request(next_id: u64, streams: StreamView) -> u64 {
    if backlog_failure(next_id, 0, streams.backlog, streams.backlog_closed) is Some {
        next_id
    } else {
        following_id(next_id)
    }
}

/// The outcome of a request, from what stood before it, whether it could be written, and what
/// followed it.
pub open spec fn request_outcome(
    next_id: u64,
    method: Seq<char>,
    params: JsonView,
    streams: StreamView,
) -> Result<JsonView, ProviderFailure> {
    match backlog_failure(next_id, 0, streams.backlog, streams.backlog_closed) {
        Some(failure) => Err(failure),
        None => match message_line(request_message(next_id, method, params)) {
            Err(failure) => Err(failure),
            Ok(_) => if !streams.written {
                Err(rpc::failed_after_send("provider_stdin_failed"))
            } else {
                reply_outcome(next_id, 0, streams.replies, streams.replies_closed)
            },
        },
    }
}

/// The lines that a request hands to the provider: its own, unless something stands before it or
/// there is no such line.
pub open spec fn request_lines(
    next_id: u64,
    method: Seq<char>,
    params: JsonView,
    streams: StreamView,
) -> Seq<Seq<u8>> {
    if backlog_failure(next_id, 0, streams.backlog, streams.backlog_closed) is Some {
        Seq::empty()
    } else {
        match message_line(request_message(next_id, method, params)) {
            Err(_) => Seq::empty(),
            Ok(line) => seq![line],
        }
    }
}

/// The contents of lines.
pub open spec fn lines_view(lines: Seq<Vec<u8>>) -> Seq<Seq<u8>> {
    Seq::new(lines.len(), |i: int| lines[i]@)
}

fn code_of_fault(fault: ReaderFault) -> (r: &'static str)
    ensures
        r == fault_code(fault),
{
    match fault {
        ReaderFault::Malformed => "provider_malformed_json",
        ReaderFault::TooLarge => "provider_message_too_large",
        ReaderFault::Io => "provider_stdout_failed",
    }
}

/// Returns the line that carries a message.
fn line_of(message: serde_json::Value) -> (r: Result<Vec<u8>, ProviderFailure>)
    ensures
        match message_line(json::value_content(message)) {
            Ok(line) => r matches Ok(bytes) && bytes@ == line,
            Err(failure) => r == Result::<Vec<u8>, ProviderFailure>::Err(failure),
        },
        r matches Ok(bytes) ==> rpc::bounded_line(Ok(bytes@)) == Ok::<Option<Seq<u8>>, ReaderFault>(
            json::encoded_json(json::value_content(message)),
        ),
{
    let encoded = match json::encode_value(&message) {
        Ok(bytes) => bytes,
        Err(_) => {
            return Err(ProviderFailure::before_send("provider_request_invalid"));
        },
    };
    if encoded.len() > MCP_GATEWAY_MAX_MESSAGE_BYTES {
        return Err(ProviderFailure::before_send("provider_request_too_large"));
    }
    let ghost body = encoded@;
    let mut line: Vec<u8> = encoded;
    line.push(10u8);
    proof {
        assert(line@.drop_last() =~= body);
        assert(body.contains(body.last()));
        assert(rpc::line_body(line@) == body);
    }
    Ok(line)
}

proof fn request_names_ascend(members: Seq<(Seq<char>, JsonView)>)
    requires
        members.len() == 4,
        members[0].0 == "id"@,
        members[1].0 == "jsonrpc"@,
        members[2].0 == "method"@,
        members[3].0 == "params"@,
    ensures
        json::ascending_names(members),
{
    reveal_strlit("id");
    reveal_strlit("jsonrpc");
    reveal_strlit("method");
    reveal_strlit("params");
}

proof fn notification_names_ascend(members: Seq<(Seq<char>, JsonView)>)
    requires
        members.len() == 3,
        members[0].0 == "jsonrpc"@,
        members[1].0 == "method"@,
        members[2].0 == "params"@,
    ensures
        json::ascending_names(members),
{
    reveal_strlit("jsonrpc");
    reveal_strlit("method");
    reveal_strlit("params");
}

/// Returns the line that carries a notification.
pub fn notification_line(method: &str, params: serde_json::Value) -> (r: Result<
    Vec<u8>,
    ProviderFailure,
>)
    ensures
        match message_line(notification_message(method@, json::value_content(params))) {
            Ok(line) => r matches Ok(bytes) && bytes@ == line,
            Err(failure) => r == Result::<Vec<u8>, ProviderFailure>::Err(failure),
        },
{
    let members = vec![
        ("jsonrpc".to_owned(), json::text_value("2.0")),
        ("method".to_owned(), json::text_value(method)),
        ("params".to_owned(), params),
    ];
    let ghost contents = json::named_contents(members@);
    proof {
        notification_names_ascend(contents);
        assert(JsonView::Object(contents) == notification_message(
            method@,
            json::value_content(params),
        )) by {
            assert(contents =~= notification_message(
                method@,
                json::value_content(params),
            )->Object_0);
        }
    }
    line_of(json::object_value(members))
}

impl ProviderConnection {
    /// A connection on which nothing was requested yet.
    pub fn opened() -> (r: Self)
        ensures
            r.next_id == 1,
    {
        ProviderConnection { next_id: 1 }
    }

    /// Judges one look at the reader before a request.
    pub fn drain_step(&self, ignored: usize, polled: Polled) -> (r: DrainStep)
        requires
            ignored <= MCP_GATEWAY_MAX_IGNORED_NOTIFICATIONS,
        ensures
            match polled {
                Polled::Empty => r is Drained,
                Polled::Closed => r == DrainStep::Failed(rpc::failed_before_send("provider_eof")),
                Polled::Event(event) => match drain_verdict(
                    self.next_id,
                    ignored as nat,
                    event.view(),
                ) {
                    Ok(now) => r == DrainStep::Ignored(now as usize) && now
                        <= MCP_GATEWAY_MAX_IGNORED_NOTIFICATIONS,
                    Err(failure) => r == DrainStep::Failed(failure),
                },
            },
    {
        let event = match polled {
            Polled::Empty => {
                return DrainStep::Drained;
            },
            Polled::Closed => {
                return DrainStep::Failed(ProviderFailure::before_send("provider_eof"));
            },
            Polled::Event(event) => event,
        };
        match event {
            ReaderEvent::Eof => DrainStep::Failed(ProviderFailure::before_send("provider_eof")),
            ReaderEvent::Message(Err(fault)) => DrainStep::Failed(
                ProviderFailure::before_send(code_of_fault(fault)),
            ),
            ReaderEvent::Message(Ok(message)) => {
                if is_provider_notification(&message) {
                    if ignored + 1 > MCP_GATEWAY_MAX_IGNORED_NOTIFICATIONS {
                        return DrainStep::Failed(
                            ProviderFailure::before_send("provider_notification_flood"),
                        );
                    }
                    return DrainStep::Ignored(ignored + 1);
                }
                if message.get("method").is_some() {
                    return DrainStep::Failed(
                        ProviderFailure::before_send("provider_callbacks_unsupported"),
                    );
                }
                let found: Option<u64> = match message.get("id") {
                    Some(id) => id.as_u64(),
                    None => None,
                };
                let response_id: u64 = match found {
                    Some(id) => id,
                    None => u64::MAX,
                };
                DrainStep::Failed(
                    if response_id < self.next_id {
                        ProviderFailure::before_send("provider_duplicate_response_id")
                    } else {
                        ProviderFailure::before_send("provider_unknown_response_id")
                    },
                )
            },
        }
    }

    /// Numbers a request and returns the line that carries it. The line reads back as one
    /// bounded line.
    pub fn begin_request(&mut self, method: &str, params: serde_json::Value) -> (r: Result<
        OutgoingRequest,
        ProviderFailure,
    >)
        ensures
            final(self).next_id == following_id(old(self).next_id),
            match message_line(
                request_message(old(self).next_id, method@, json::value_content(params)),
            ) {
                Ok(line) => r matches Ok(request) && request.id == old(self).next_id
                    && request.bytes@ == line,
                Err(failure) => r == Result::<OutgoingRequest, ProviderFailure>::Err(failure),
            },
            r matches Ok(request) ==> rpc::bounded_line(Ok(request.bytes@)) == Ok::<
                Option<Seq<u8>>,
                ReaderFault,
            >(
                json::encoded_json(
                    request_message(old(self).next_id, method@, json::value_content(params)),
                ),
            ),
    {
        let id: u64 = self.next_id;
        self.next_id = self.next_id.saturating_add(1);
        let members = vec![
            ("id".to_owned(), json::number_value(id)),
            ("jsonrpc".to_owned(), json::text_value("2.0")),
            ("method".to_owned(), json::text_value(method)),
            ("params".to_owned(), params),
        ];
        let ghost contents = json::named_contents(members@);
        proof {
            request_names_ascend(contents);
            assert(JsonView::Object(contents) == request_message(
                id,
                method@,
                json::value_content(params),
            )) by {
                assert(contents =~= request_message(
                    id,
                    method@,
                    json::value_content(params),
                )->Object_0);
            }
        }
        match line_of(json::object_value(members)) {
            Ok(bytes) => Ok(OutgoingRequest { id, bytes }),
            Err(failure) => Err(failure),
        }
    }

    /// Judges what waiting for a response to the request `id` gave.
    pub fn await_step(id: u64, ignored: usize, waited: Waited) -> (r: AwaitStep)
        requires
            ignored <= MCP_GATEWAY_MAX_IGNORED_NOTIFICATIONS,
        ensures
            match waited {
                Waited::TimedOut => r matches AwaitStep::Done(outcome) && rpc::outcome_view(outcome)
                    == Err::<JsonView, ProviderFailure>(
                    rpc::failed_after_send("provider_timeout"),
                ),
                Waited::Closed => r matches AwaitStep::Done(outcome) && rpc::outcome_view(outcome)
                    == Err::<JsonView, ProviderFailure>(rpc::failed_after_send("provider_eof")),
                Waited::Event(event) => match await_verdict(id, ignored as nat, event.view()) {
                    Ok(now) => r == AwaitStep::Ignored(now as usize) && now
                        <= MCP_GATEWAY_MAX_IGNORED_NOTIFICATIONS,
                    Err(verdict) => r matches AwaitStep::Done(outcome) && rpc::outcome_view(outcome)
                        == verdict,
                },
            },
    {
        let event = match waited {
            Waited::TimedOut => {
                return AwaitStep::Done(Err(ProviderFailure::after_send("provider_timeout")));
            },
            Waited::Closed => {
                return AwaitStep::Done(Err(ProviderFailure::after_send("provider_eof")));
            },
            Waited::Event(event) => event,
        };
        match event {
            ReaderEvent::Eof => AwaitStep::Done(Err(ProviderFailure::after_send("provider_eof"))),
            ReaderEvent::Message(Err(fault)) => AwaitStep::Done(
                Err(ProviderFailure::after_send(code_of_fault(fault))),
            ),
            ReaderEvent::Message(Ok(message)) => {
                if is_provider_notification(&message) {
                    if ignored + 1 > MCP_GATEWAY_MAX_IGNORED_NOTIFICATIONS {
                        return AwaitStep::Done(
                            Err(ProviderFailure::after_send("provider_notification_flood")),
                        );
                    }
                    return AwaitStep::Ignored(ignored + 1);
                }
                if message.get("method").is_some() {
                    return AwaitStep::Done(
                        Err(ProviderFailure::after_send("provider_callbacks_unsupported")),
                    );
                }
                AwaitStep::Done(validate_rpc_response(message, id))
            },
        }
    }

    /// Runs a whole request over what the streams gave. `sent` gets the line that it hands to the
    /// provider, whether or not that could be written.
    pub fn request(
        &mut self,
        method: &str,
        params: serde_json::Value,
        streams: StreamFacts,
        sent: &mut Vec<Vec<u8>>,
    ) -> (r: Result<Json, ProviderFailure>)
        ensures
            rpc::outcome_view(r) == request_outcome(
                old(self).next_id,
                method@,
                json::value_content(params),
                streams.view(),
            ),
            final(self).next_id == id_after_request(old(self).next_id, streams.view()),
            lines_view(final(sent)@) == lines_view(old(sent)@) + request_lines(
                old(self).next_id,
                method@,
                json::value_content(params),
                streams.view(),
            ),
    {
        let ghost before = lines_view(sent@);
        assert(before + Seq::<Seq<u8>>::empty() =~= before);
        self.drain(streams.backlog, streams.backlog_closed)?;
        let request = self.begin_request(method, params)?;
        let ghost line = request.bytes@;
        sent.push(request.bytes);
        assert(lines_view(sent@) =~= before + seq![line]);
        if !streams.written {
            return Err(ProviderFailure::after_send("provider_stdin_failed"));
        }
        Self::settle(request.id, streams.replies, streams.replies_closed)
    }

    fn drain(&self, backlog: Vec<ReaderEvent>, closed: bool) -> (r: Result<(), ProviderFailure>)
        ensures
            match backlog_failure(self.next_id, 0, rpc::events_view(backlog@), closed) {
                Some(failure) => r == Result::<(), ProviderFailure>::Err(failure),
                None => r is Ok,
            },
    {
        let ghost all = rpc::events_view(backlog@);
        let mut ignored: usize = 0;
        assert(all.skip(0) =~= all);
        for event in it: backlog
            invariant
                it.seq() == backlog@,
                all == rpc::events_view(backlog@),
                ignored <= MCP_GATEWAY_MAX_IGNORED_NOTIFICATIONS,
                backlog_failure(self.next_id, 0, all, closed) == backlog_failure(
                    self.next_id,
                    ignored as nat,
                    all.skip(it.index()),
                    closed,
                ),
        {
            let ghost rest = all.skip(it.index());
            proof {
                assert(rest[0] == event.view());
                assert(rest.skip(1) =~= all.skip(it.index() + 1));
            }
            match self.drain_step(ignored, Polled::Event(event)) {
                DrainStep::Drained => {},
                DrainStep::Ignored(now) => {
                    ignored = now;
                },
                DrainStep::Failed(failure) => {
                    return Err(failure);
                },
            }
        }
        if closed {
            return Err(ProviderFailure::before_send("provider_eof"));
        }
        Ok(())
    }

    fn settle(id: u64, replies: Vec<ReaderEvent>, closed: bool) -> (r: Result<
        Json,
        ProviderFailure,
    >)
        ensures
            rpc::outcome_view(r) == reply_outcome(id, 0, rpc::events_view(replies@), closed),
    {
        let ghost all = rpc::events_view(replies@);
        let mut ignored: usize = 0;
        assert(all.skip(0) =~= all);
        for event in it: replies
            invariant
                it.seq() == replies@,
                all == rpc::events_view(replies@),
                ignored <= MCP_GATEWAY_MAX_IGNORED_NOTIFICATIONS,
                reply_outcome(id, 0, all, closed) == reply_outcome(
                    id,
                    ignored as nat,
                    all.skip(it.index()),
                    closed,
                ),
        {
            let ghost rest = all.skip(it.index());
            proof {
                assert(rest[0] == event.view());
                assert(rest.skip(1) =~= all.skip(it.index() + 1));
            }
            match Self::await_step(id, ignored, Waited::Event(event)) {
                AwaitStep::Ignored(now) => {
                    ignored = now;
                },
                AwaitStep::Done(outcome) => {
                    return outcome;
                },
            }
        }
        if closed {
            return Err(ProviderFailure::after_send("provider_eof"));
        }
        Err(ProviderFailure::after_send("provider_timeout"))
    }
}

// ---------------------------------------------------------------------------------------------
// Laws
// ---------------------------------------------------------------------------------------------
/// All events are notifications.
pub open spec fn all_notifications(events: Seq<EventView>) -> bool {
    forall|i: int|
        0 <= i < events.len() ==> (#[trigger] events[i]) is Message && rpc::is_notification(
            events[i]->Message_0,
        )
}

/// Notifications within the bound do not change the outcome of a request: it is that of what
/// follows them.
pub proof fn notifications_are_transparent(
    id: u64,
    ignored: nat,
    notes: Seq<EventView>,
    rest: Seq<EventView>,
    closed: bool,
)
    requires
        all_notifications(notes),
        ignored + notes.len() <= MCP_GATEWAY_MAX_IGNORED_NOTIFICATIONS,
    ensures
        reply_outcome(id, ignored, notes + rest, closed) == reply_outcome(
            id,
            ignored + notes.len(),
            rest,
            closed,
        ),
        backlog_failure(id, ignored, notes + rest, closed) == backlog_failure(
            id,
            ignored + notes.len(),
            rest,
            closed,
        ),
    decreases notes.len(),
{
    if notes.len() == 0 {
        assert(notes + rest =~= rest);
    } else {
        assert((notes + rest)[0] == notes[0]);
        assert((notes + rest).skip(1) =~= notes.skip(1) + rest);
        assert(all_notifications(notes.skip(1)));
        notifications_are_transparent(id, ignored + 1, notes.skip(1), rest, closed);
    }
}

/// One notification over the bound fails a request, whatever follows: before the request nothing
/// is sent, after it the outcome is unknown.
pub proof fn notification_flood_fails(
    id: u64,
    notes: Seq<EventView>,
    rest: Seq<EventView>,
    closed: bool,
)
    requires
        all_notifications(notes),
        notes.len() == MCP_GATEWAY_MAX_IGNORED_NOTIFICATIONS + 1,
    ensures
        reply_outcome(id, 0, notes + rest, closed) == Err::<JsonView, ProviderFailure>(
            rpc::failed_after_send("provider_notification_flood"),
        ),
        backlog_failure(id, 0, notes + rest, closed) == Some(
            rpc::failed_before_send("provider_notification_flood"),
        ),
{
    let within = notes.drop_last();
    let tail = seq![notes.last()] + rest;
    assert(notes + rest =~= within + tail);
    assert(all_notifications(within));
    notifications_are_transparent(id, 0, within, tail, closed);
    assert(tail[0] == notes.last());
}

/// What stands before a request can only keep it from being sent.
pub proof fn backlog_failures_are_not_started(
    next_id: u64,
    ignored: nat,
    backlog: Seq<EventView>,
    closed: bool,
)
    ensures
        backlog_failure(next_id, ignored, backlog, closed) matches Some(failure)
            ==> failure.dispatch_state == rpc::McpGatewayDispatchState::NotStarted
            && failure.fatal,
    decreases backlog.len(),
{
    if backlog.len() > 0 {
        match drain_verdict(next_id, ignored, backlog[0]) {
            Ok(now) => {
                backlog_failures_are_not_started(next_id, now, backlog.skip(1), closed);
            },
            Err(_) => {},
        }
    }
}

/// A failure of a request that was written is either of unknown outcome, and costs the
/// connection, or of a finished exchange, and does not.
pub proof fn written_requests_are_never_not_started(
    id: u64,
    ignored: nat,
    replies: Seq<EventView>,
    closed: bool,
)
    ensures
        reply_outcome(id, ignored, replies, closed) matches Err(failure) ==> {
            ||| failure.dispatch_state == rpc::McpGatewayDispatchState::OutcomeUnknown
                && failure.fatal
            ||| failure.dispatch_state == rpc::McpGatewayDispatchState::Completed && !failure.fatal
        },
    decreases replies.len(),
{
    if replies.len() > 0 {
        match await_verdict(id, ignored, replies[0]) {
            Ok(now) => {
                written_requests_are_never_not_started(id, now, replies.skip(1), closed);
            },
            Err(_) => {},
        }
    }
}

/// A request fails as not started exactly where no line was handed to the provider: something
/// stood before it or it had no line. A failure costs the connection exactly where the exchange is
/// not complete.
pub proof fn dispatch_state_tells_whether_sent(
    next_id: u64,
    method: Seq<char>,
    params: JsonView,
    streams: StreamView,
)
    ensures
        request_outcome(next_id, method, params, streams) matches Err(failure) ==> {
            &&& failure.dispatch_state == rpc::McpGatewayDispatchState::NotStarted <==> (
            backlog_failure(next_id, 0, streams.backlog, streams.backlog_closed) is Some
                || message_line(request_message(next_id, method, params)) is Err)
            &&& failure.dispatch_state == rpc::McpGatewayDispatchState::NotStarted
                <==> request_lines(next_id, method, params, streams).len() == 0
            &&& failure.fatal <==> failure.dispatch_state
                != rpc::McpGatewayDispatchState::Completed
        },
{
    backlog_failures_are_not_started(next_id, 0, streams.backlog, streams.backlog_closed);
    written_requests_are_never_not_started(next_id, 0, streams.replies, streams.replies_closed);
}

/// An event that answers the request `id` with a result.
pub open spec fn answers(event: EventView, id: u64, result: JsonView) -> bool {
    event matches EventView::Message(message) && {
        &&& json::as_text(json::member(message, "jsonrpc"@)) == Some("2.0"@)
        &&& json::as_unsigned(json::member(message, "id"@)) == Some(id)
        &&& json::member(message, "result"@) == Some(result)
        &&& json::member(message, "error"@) is None
        &&& json::member(message, "method"@) is None
    }
}

/// A request succeeds only with the result of a response that carries its own number, and only
/// notifications within the bound came before that response.
pub proof fn success_is_correlated(
    id: u64,
    ignored: nat,
    replies: Seq<EventView>,
    closed: bool,
) -> (at: int)
    requires
        reply_outcome(id, ignored, replies, closed) is Ok,
        ignored <= MCP_GATEWAY_MAX_IGNORED_NOTIFICATIONS,
    ensures
        0 <= at < replies.len(),
        ignored + at <= MCP_GATEWAY_MAX_IGNORED_NOTIFICATIONS,
        answers(replies[at], id, reply_outcome(id, ignored, replies, closed)->Ok_0),
        all_notifications(replies.take(at)),
    decreases replies.len(),
{
    match await_verdict(id, ignored, replies[0]) {
        Ok(now) => {
            let rest = success_is_correlated(id, now, replies.skip(1), closed);
            assert(replies.skip(1)[rest] == replies[rest + 1]);
            assert forall|i: int| 0 <= i < rest + 1 implies (#[trigger] replies.take(
                rest + 1,
            )[i]) is Message && rpc::is_notification(replies.take(rest + 1)[i]->Message_0) by {
                if i > 0 {
                    assert(replies.take(rest + 1)[i] == replies.skip(1).take(rest)[i - 1]);
                }
            }
            rest + 1
        },
        Err(_) => 0,
    }
}

/// The first event after a request that is no ignored notification decides it: the end of the
/// output, a fault of the reader and a message that asks for something fail it with their own
/// codes and an unknown outcome, and any other message is judged as the response.
pub proof fn first_event_decides_the_request(
    id: u64,
    notes: Seq<EventView>,
    event: EventView,
    rest: Seq<EventView>,
    closed: bool,
)
    requires
        all_notifications(notes),
        notes.len() <= MCP_GATEWAY_MAX_IGNORED_NOTIFICATIONS,
        !(event is Message && rpc::is_notification(event->Message_0)),
    ensures
        ({
            let outcome = reply_outcome(id, 0, notes + (seq![event] + rest), closed);
            match event {
                EventView::Message(message) => if json::member(message, "method"@) is Some {
                    outcome is Err && outcome->Err_0.code == "provider_callbacks_unsupported"
                } else {
                    outcome == rpc::rpc_verdict(message, id)
                },
                EventView::Eof => outcome is Err && outcome->Err_0.code == "provider_eof",
                EventView::Fault(fault) => outcome is Err && outcome->Err_0.code == match fault {
                    ReaderFault::Malformed => "provider_malformed_json",
                    ReaderFault::TooLarge => "provider_message_too_large",
                    ReaderFault::Io => "provider_stdout_failed",
                },
            }
        }),
        reply_outcome(id, 0, notes, closed) is Err && reply_outcome(id, 0, notes, closed)->Err_0.code
            == if closed {
            "provider_eof"
        } else {
            "provider_timeout"
        },
{
    let tail = seq![event] + rest;
    notifications_are_transparent(id, 0, notes, tail, closed);
    assert(tail[0] == event);
    notifications_are_transparent(id, 0, notes, Seq::empty(), closed);
    assert(notes + Seq::<EventView>::empty() =~= notes);
}

/// The first event before a request that is no ignored notification keeps it from being sent: the
/// end of the output, a fault, a message that asks for something, or a response that is late or
/// that belongs to no request. Where only ignored notifications stand before it, it is sent.
pub proof fn first_event_keeps_the_request(
    next_id: u64,
    notes: Seq<EventView>,
    event: EventView,
    rest: Seq<EventView>,
    closed: bool,
)
    requires
        all_notifications(notes),
        notes.len() <= MCP_GATEWAY_MAX_IGNORED_NOTIFICATIONS,
        !(event is Message && rpc::is_notification(event->Message_0)),
    ensures
        ({
            let failure = backlog_failure(next_id, 0, notes + (seq![event] + rest), closed);
            &&& failure is Some
            &&& (failure->0).code == match event {
                EventView::Message(message) => if json::member(message, "method"@) is Some {
                    "provider_callbacks_unsupported"
                } else if json::as_unsigned(json::member(message, "id"@)) matches Some(id) && id
                    < next_id {
                    "provider_duplicate_response_id"
                } else {
                    "provider_unknown_response_id"
                },
                EventView::Eof => "provider_eof",
                EventView::Fault(fault) => match fault {
                    ReaderFault::Malformed => "provider_malformed_json",
                    ReaderFault::TooLarge => "provider_message_too_large",
                    ReaderFault::Io => "provider_stdout_failed",
                },
            }
        }),
        backlog_failure(next_id, 0, notes, closed) is Some <==> closed,
        closed ==> (backlog_failure(next_id, 0, notes, closed)->0).code == "provider_eof",
{
    let tail = seq![event] + rest;
    notifications_are_transparent(next_id, 0, notes, tail, closed);
    assert(tail[0] == event);
    notifications_are_transparent(next_id, 0, notes, Seq::empty(), closed);
    assert(notes + Seq::<EventView>::empty() =~= notes);
}

/// A request that is sent, over a provider that answers it after some ignored notifications, gives
/// the result that the provider answered.
pub proof fn answered_requests_give_their_result(
    next_id: u64,
    method: Seq<char>,
    params: JsonView,
    streams: StreamView,
    at: int,
    result: JsonView,
)
    requires
        all_notifications(streams.backlog),
        streams.backlog.len() <= MCP_GATEWAY_MAX_IGNORED_NOTIFICATIONS,
        !streams.backlog_closed,
        message_line(request_message(next_id, method, params)) is Ok,
        streams.written,
        0 <= at < streams.replies.len(),
        at <= MCP_GATEWAY_MAX_IGNORED_NOTIFICATIONS,
        all_notifications(streams.replies.take(at)),
        answers(streams.replies[at], next_id, result),
    ensures
        request_outcome(next_id, method, params, streams) == Ok::<JsonView, ProviderFailure>(
            result,
        ),
{
    let notes = streams.replies.take(at);
    let event = streams.replies[at];
    let rest = streams.replies.skip(at + 1);
    assert(streams.replies =~= notes + (seq![event] + rest));
    rpc::notifications_ask_for_nothing(event->Message_0);
    first_event_decides_the_request(next_id, notes, event, rest, streams.replies_closed);
    rpc::responses_give_their_result(event->Message_0, next_id, result);
    json::readings_fit_the_value(
        json::member(event->Message_0, "id"@)->0,
        Seq::empty(),
        next_id,
        0,
    );
    first_event_keeps_the_request(
        next_id,
        streams.backlog,
        EventView::Eof,
        Seq::empty(),
        streams.backlog_closed,
    );
}

/// A request that something stands before, that has no line, or that could not be written, fails
/// for that, in this order.
pub proof fn unsent_requests_fail_for_their_reason(
    next_id: u64,
    method: Seq<char>,
    params: JsonView,
    streams: StreamView,
)
    ensures
        ({
            let standing = backlog_failure(next_id, 0, streams.backlog, streams.backlog_closed);
            let line = message_line(request_message(next_id, method, params));
            let outcome = request_outcome(next_id, method, params, streams);
            &&& standing is Some ==> outcome == Err::<JsonView, ProviderFailure>(standing->0)
            &&& standing is None && line is Err ==> outcome == Err::<JsonView, ProviderFailure>(
                line->Err_0,
            )
            &&& standing is None && line is Ok && !streams.written ==> outcome is Err
                && outcome->Err_0.code == "provider_stdin_failed" && outcome->Err_0.dispatch_state
                == rpc::McpGatewayDispatchState::OutcomeUnknown
            &&& standing is None && line is Ok && streams.written ==> outcome == reply_outcome(
                next_id,
                0,
                streams.replies,
                streams.replies_closed,
            )
            &&& standing is None && line is Ok ==> request_lines(next_id, method, params, streams)
                == seq![line->Ok_0]
            &&& standing is Some || line is Err ==> request_lines(
                next_id,
                method,
                params,
                streams,
            ).len() == 0
            &&& standing is Some ==> id_after_request(next_id, streams) == next_id
            &&& standing is None && next_id < u64::MAX ==> id_after_request(next_id, streams)
                == next_id + 1
        }),
{
}

/// The line of a message is its JSON text and a line feed. There is none where the message cannot
/// be written or is over the bound of 1048576 bytes.
pub proof fn lines_carry_their_message(message: JsonView)
    ensures
        match json::encoded_json(message) {
            None => message_line(message) is Err && message_line(message)->Err_0.code
                == "provider_request_invalid",
            Some(bytes) => if bytes.len() <= 1048576 {
                message_line(message) is Ok && message_line(message)->Ok_0 == bytes + seq![10u8]
            } else {
                message_line(message) is Err && message_line(message)->Err_0.code
                    == "provider_request_too_large"
            },
        },
        message_line(message) is Err ==> message_line(message)->Err_0.dispatch_state
            == rpc::McpGatewayDispatchState::NotStarted,
{
    match json::encoded_json(message) {
        Some(bytes) => {
            assert(bytes.push(10u8) =~= bytes + seq![10u8]);
        },
        None => {},
    }
}

/// A request carries its number, its method and its parameters, and a notification its method and
/// its parameters, as JSON-RPC 2.0 messages.
pub proof fn messages_carry_what_they_are_given(id: u64, method: Seq<char>, params: JsonView)
    ensures
        json::member(request_message(id, method, params), "jsonrpc"@) == Some(
            JsonView::Text("2.0"@),
        ),
        json::member(request_message(id, method, params), "id"@) == Some(
            JsonView::Number(NumberView::Integer(id as int)),
        ),
        json::member(request_message(id, method, params), "method"@) == Some(
            JsonView::Text(method),
        ),
        json::member(request_message(id, method, params), "params"@) == Some(params),
        json::member(notification_message(method, params), "jsonrpc"@) == Some(
            JsonView::Text("2.0"@),
        ),
        json::member(notification_message(method, params), "method"@) == Some(
            JsonView::Text(method),
        ),
        json::member(notification_message(method, params), "params"@) == Some(params),
        json::member(notification_message(method, params), "id"@) is None,
{
    reveal_strlit("id");
    reveal_strlit("jsonrpc");
    reveal_strlit("method");
    reveal_strlit("params");
    assert("method"@[0] == 'm' && "params"@[0] == 'p');
    let request = request_message(id, method, params)->Object_0;
    assert(request[0].0.len() == 2 && request[1].0.len() == 7);
    crate::members::position_is(request, "id"@, 0);
    crate::members::position_is(request, "jsonrpc"@, 1);
    crate::members::position_is(request, "method"@, 2);
    crate::members::position_is(request, "params"@, 3);
    let note = notification_message(method, params)->Object_0;
    assert(note[0].0.len() == 7 && note[1].0.len() == 6 && note[2].0.len() == 6);
    crate::members::position_is(note, "jsonrpc"@, 0);
    crate::members::position_is(note, "method"@, 1);
    crate::members::position_is(note, "params"@, 2);
    crate::members::position_is(note, "id"@, 3);
}

/// The contents of lines are those of each line, in their order.
pub proof fn lines_hold_their_bytes(lines: Seq<Vec<u8>>)
    ensures
        lines_view(lines).len() == lines.len(),
        forall|i: int| 0 <= i < lines.len() ==> (#[trigger] lines_view(lines)[i]) == lines[i]@,
{
}

} // verus!
