//! A provider that plays a script: the other end of the gateway's streams, for trying the gateway
//! out without a provider at hand. It reads lines and answers as its scenario says.
use crate::fields::{self, string_field, u64_field};
use crate::text::{self, contains_text, decimal_text, same};
use vstd::prelude::*;
use vstd::string::*;

verus! {

/// What the provider plays.
#[derive(Debug, Clone, Copy, PartialEq, Eq, Structural)]
pub enum Scenario {
    Normal,
    ExecutionContext,
    InitCrash,
    InitCrashOnce,
    InitTimeout,
    InitMissingTools,
    Notifications,
    NotificationFlood,
    OversizedMessage,
    Malformed,
    UnknownId,
    PaginatedList,
    BadTools,
    SchemaChange,
    RecoverSchemaChange,
    ExitAfterList,
    DuplicateId,
    MetaForbidden,
    Crash,
    Callback,
    Timeout,
    Slow,
    RpcError,
    LargeResult,
    BadResult,
    OversizedResult,
}

/// The name of a scenario.
pub open spec fn scenario_name(scenario: Scenario) -> Seq<char> {
    match scenario {
        Scenario::Normal => "normal"@,
        Scenario::ExecutionContext => "execution_context"@,
        Scenario::InitCrash => "init_crash"@,
        Scenario::InitCrashOnce => "init_crash_once"@,
        Scenario::InitTimeout => "init_timeout"@,
        Scenario::InitMissingTools => "init_missing_tools"@,
        Scenario::Notifications => "notifications"@,
        Scenario::NotificationFlood => "notification_flood"@,
        Scenario::OversizedMessage => "oversized_message"@,
        Scenario::Malformed => "malformed"@,
        Scenario::UnknownId => "unknown_id"@,
        Scenario::PaginatedList => "paginated_list"@,
        Scenario::BadTools => "bad_tools"@,
        Scenario::SchemaChange => "schema_change"@,
        Scenario::RecoverSchemaChange => "recover_schema_change"@,
        Scenario::ExitAfterList => "exit_after_list"@,
        Scenario::DuplicateId => "duplicate_id"@,
        Scenario::MetaForbidden => "meta_forbidden"@,
        Scenario::Crash => "crash"@,
        Scenario::Callback => "callback"@,
        Scenario::Timeout => "timeout"@,
        Scenario::Slow => "slow"@,
        Scenario::RpcError => "rpc_error"@,
        Scenario::LargeResult => "large_result"@,
        Scenario::BadResult => "bad_result"@,
        Scenario::OversizedResult => "oversized_result"@,
    }
}

/// A name that no scenario but the normal one has.
pub open spec fn names_no_other(name: Seq<char>) -> bool {
    forall|scenario: Scenario|
        scenario != Scenario::Normal ==> #[trigger] scenario_name(scenario) != name
}

impl Scenario {
    /// Returns the scenario of that name. Every other name is the normal one.
    pub fn named(name: &str) -> (r: Self)
        ensures
            r != Scenario::Normal ==> scenario_name(r) == name@,
            r == Scenario::Normal ==> names_no_other(name@),
    {
        if same(name, "execution_context") {
            Scenario::ExecutionContext
        } else if same(name, "init_crash") {
            Scenario::InitCrash
        } else if same(name, "init_crash_once") {
            Scenario::InitCrashOnce
        } else if same(name, "init_timeout") {
            Scenario::InitTimeout
        } else if same(name, "init_missing_tools") {
            Scenario::InitMissingTools
        } else if same(name, "notifications") {
            Scenario::Notifications
        } else if same(name, "notification_flood") {
            Scenario::NotificationFlood
        } else if same(name, "oversized_message") {
            Scenario::OversizedMessage
        } else if same(name, "malformed") {
            Scenario::Malformed
        } else if same(name, "unknown_id") {
            Scenario::UnknownId
        } else if same(name, "paginated_list") {
            Scenario::PaginatedList
        } else if same(name, "bad_tools") {
            Scenario::BadTools
        } else if same(name, "schema_change") {
            Scenario::SchemaChange
        } else {
            Self::named_later(name)
        }
    }

    fn named_later(name: &str) -> (r: Self)
        requires
            name@ != "execution_context"@,
            name@ != "init_crash"@,
            name@ != "init_crash_once"@,
            name@ != "init_timeout"@,
            name@ != "init_missing_tools"@,
            name@ != "notifications"@,
            name@ != "notification_flood"@,
            name@ != "oversized_message"@,
            name@ != "malformed"@,
            name@ != "unknown_id"@,
            name@ != "paginated_list"@,
            name@ != "bad_tools"@,
            name@ != "schema_change"@,
        ensures
            r != Scenario::Normal ==> scenario_name(r) == name@,
            r == Scenario::Normal ==> names_no_other(name@),
    {
        if same(name, "recover_schema_change") {
            Scenario::RecoverSchemaChange
        } else if same(name, "exit_after_list") {
            Scenario::ExitAfterList
        } else if same(name, "duplicate_id") {
            Scenario::DuplicateId
        } else if same(name, "meta_forbidden") {
            Scenario::MetaForbidden
        } else if same(name, "crash") {
            Scenario::Crash
        } else if same(name, "callback") {
            Scenario::Callback
        } else if same(name, "timeout") {
            Scenario::Timeout
        } else if same(name, "slow") {
            Scenario::Slow
        } else if same(name, "rpc_error") {
            Scenario::RpcError
        } else if same(name, "large_result") {
            Scenario::LargeResult
        } else if same(name, "bad_result") {
            Scenario::BadResult
        } else if same(name, "oversized_result") {
            Scenario::OversizedResult
        } else {
            Scenario::Normal
        }
    }
}

// ---------------------------------------------------------------------------------------------
// Lines
// ---------------------------------------------------------------------------------------------
/// An answer to the request `id`.
pub open spec fn answer(id: u64, result: Seq<char>) -> Seq<char> {
    "{\"jsonrpc\":\"2.0\",\"id\":"@ + text::decimal(id as nat) + ",\"result\":"@ + result + "}"@
}

/// An error in answer to the request `id`.
pub open spec fn error_answer(id: u64, error: Seq<char>) -> Seq<char> {
    "{\"jsonrpc\":\"2.0\",\"id\":"@ + text::decimal(id as nat) + ",\"error\":"@ + error + "}"@
}

/// A note of progress.
pub open spec fn progress_note(token: Seq<char>, progress: nat) -> Seq<char> {
    "{\"jsonrpc\":\"2.0\",\"method\":\"notifications/progress\",\"params\":{\"progressToken\":\""@
        + token + "\",\"progress\":"@ + text::decimal(progress) + "}}"@
}

/// As many of one character.
pub open spec fn run_of(c: char, n: nat) -> Seq<char> {
    Seq::new(n, |i: int| c)
}

fn answer_line(id: u64, result: &str) -> (r: String)
    ensures
        r@ == answer(id, result@),
{
    "{\"jsonrpc\":\"2.0\",\"id\":".to_owned().concat(decimal_text(id).as_str()).concat(
        ",\"result\":",
    ).concat(result).concat("}")
}

fn error_line(id: u64, error: &str) -> (r: String)
    ensures
        r@ == error_answer(id, error@),
{
    "{\"jsonrpc\":\"2.0\",\"id\":".to_owned().concat(decimal_text(id).as_str()).concat(
        ",\"error\":",
    ).concat(error).concat("}")
}

fn progress_line(token: &str, progress: u64) -> (r: String)
    ensures
        r@ == progress_note(token@, progress as nat),
{
    "{\"jsonrpc\":\"2.0\",\"method\":\"notifications/progress\",\"params\":{\"progressToken\":\"".to_owned().concat(
    token).concat("\",\"progress\":").concat(decimal_text(progress).as_str()).concat("}}")
}

/// Returns as many of one character.
fn repeated(unit: &str, n: usize) -> (r: String)
    requires
        unit@.len() == 1,
    ensures
        r@ == run_of(unit@[0], n as nat),
    decreases n,
{
    if n == 0 {
        let r = String::new();
        assert(r@ =~= run_of(unit@[0], 0));
        return r;
    }
    let half = repeated(unit, n / 2);
    let twice = half.clone().concat(half.as_str());
    if n % 2 == 0 {
        assert(twice@ =~= run_of(unit@[0], n as nat));
        twice
    } else {
        let r = twice.concat(unit);
        assert(r@ =~= run_of(unit@[0], n as nat));
        r
    }
}

// ---------------------------------------------------------------------------------------------
// The script
// ---------------------------------------------------------------------------------------------
/// What the provider does on a line: what it notes, how long it waits, what it then sends, and
/// whether it ends.
#[derive(Debug)]
pub struct Reaction {
    pub note: Option<&'static str>,
    pub pause_secs: u64,
    pub sent: Vec<String>,
    pub exits: bool,
}

/// The content of a reaction.
pub struct ReactionView {
    pub note: Option<&'static str>,
    pub pause_secs: u64,
    pub sent: Seq<Seq<char>>,
    pub exits: bool,
}

impl Reaction {
    pub open spec fn view(self) -> ReactionView {
        ReactionView {
            note: self.note,
            pause_secs: self.pause_secs,
            sent: text::list_view(self.sent@),
            exits: self.exits,
        }
    }
}

/// A reaction that sends these lines at once, and goes on.
pub open spec fn sends(note: &'static str, sent: Seq<Seq<char>>) -> ReactionView {
    ReactionView { note: Some(note), pause_secs: 0, sent, exits: false }
}

/// A result of `initialize`.
pub open spec fn initialize_result(tools: bool) -> Seq<char> {
    "{\"protocolVersion\":\"2025-06-18\",\"capabilities\":"@ + if tools {
        "{\"tools\":{}}"@
    } else {
        "{}"@
    } + ",\"serverInfo\":{\"name\":\"fake-bridge\",\"version\":\"1\"}}"@
}

/// On `initialize`. `initializations` counts those of all its processes, with this one.
pub open spec fn on_initialize(
    scenario: Scenario,
    id: u64,
    initializations: u64,
) -> ReactionView {
    if scenario == Scenario::InitCrash || (scenario == Scenario::InitCrashOnce && initializations
        == 1) {
        ReactionView {
            note: Some("initialize"),
            pause_secs: 0,
            sent: Seq::empty(),
            exits: true,
        }
    } else {
        ReactionView {
            note: Some("initialize"),
            pause_secs: if scenario == Scenario::InitTimeout {
                6
            } else {
                0
            },
            sent: seq![answer(id, initialize_result(scenario != Scenario::InitMissingTools))],
            exits: false,
        }
    }
}

/// A result of `tools/list` with the one tool.
pub open spec fn tool_list(description: Seq<char>, value_type: Seq<char>) -> Seq<char> {
    "{\"tools\":[{\"name\":\"echo\",\"description\":\""@ + description
        + "\",\"inputSchema\":{\"type\":\"object\",\"properties\":{\"value\":{\"type\":\""@
        + value_type + "\"}}}}]}"@
}

/// The tools that a scenario has. `lists` counts the listings of this process and `starts` the
/// processes, with the present ones.
pub open spec fn listed_tools(scenario: Scenario, lists: u64, starts: u64) -> Seq<char> {
    tool_list(
        if scenario == Scenario::BadTools {
            run_of('x', 5120)
        } else {
            "Persistent fake echo"@
        },
        if (scenario == Scenario::SchemaChange && lists >= 2) || (scenario
            == Scenario::RecoverSchemaChange && starts >= 2) {
            "number"@
        } else {
            "string"@
        },
    )
}

/// On `tools/list`.
pub open spec fn on_list(scenario: Scenario, id: u64, lists: u64, starts: u64) -> ReactionView {
    let listing = answer(id, listed_tools(scenario, lists, starts));
    match scenario {
        Scenario::NotificationFlood => sends(
            "list",
            Seq::new(40, |i: int| progress_note("flood"@, i as nat)),
        ),
        Scenario::OversizedMessage => sends(
            "list",
            seq![
                answer(id, "{\"padding\":\""@ + run_of('x', 1048576) + "\",\"tools\":[]}"@),
            ],
        ),
        Scenario::Malformed => sends("list", seq!["{not-json"@]),
        Scenario::UnknownId => sends("list", seq![answer(999999, "{\"tools\":[]}"@)]),
        Scenario::PaginatedList => sends(
            "list",
            seq![answer(id, "{\"tools\":[],\"nextCursor\":\"more\"}"@)],
        ),
        Scenario::Notifications => sends(
            "list",
            seq![
                "{\"jsonrpc\":\"2.0\",\"method\":\"notifications/tools/list_changed\"}"@,
                listing,
                "{\"jsonrpc\":\"2.0\",\"method\":\"notifications/message\",\"params\":{\"level\":\"info\",\"data\":\"queued\"}}"@,
            ],
        ),
        Scenario::DuplicateId => sends("list", seq![listing, answer(id, "{\"tools\":[]}"@)]),
        _ => ReactionView {
            note: Some("list"),
            pause_secs: 0,
            sent: seq![listing],
            exits: scenario == Scenario::ExitAfterList,
        },
    }
}

/// A call that carries what only the gateway's own caller should see.
pub open spec fn carries_metadata(line: Seq<char>) -> bool {
    ||| text::occurs_in(line, "\"_meta\""@)
    ||| text::occurs_in(line, "progressToken"@)
    ||| text::occurs_in(line, "clientInfo"@)
    ||| text::occurs_in(line, "protocolVersion"@)
    ||| text::occurs_in(line, "clientCapabilities"@)
}

/// The result of the call with that number.
pub open spec fn call_result(calls: u64) -> Seq<char> {
    "{\"content\":[{\"type\":\"text\",\"text\":\"call-"@ + text::decimal(calls as nat)
        + "\"}],\"structuredContent\":{\"call\":"@ + text::decimal(calls as nat)
        + "},\"isError\":false}"@
}

/// On `tools/call`. `calls` counts the calls of this process, with the present one.
pub open spec fn on_call(scenario: Scenario, line: Seq<char>, id: u64, calls: u64) -> ReactionView {
    if scenario == Scenario::MetaForbidden && carries_metadata(line) {
        sends(
            "call",
            seq![
                error_answer(
                    id,
                    "{\"code\":-32602,\"message\":\"caller metadata crossed gateway boundary\"}"@,
                ),
            ],
        )
    } else {
        match scenario {
            Scenario::Crash | Scenario::RecoverSchemaChange => ReactionView {
                note: Some("call"),
                pause_secs: 0,
                sent: Seq::empty(),
                exits: true,
            },
            Scenario::Notifications => sends(
                "call",
                seq![progress_note("call"@, 1), answer(id, call_result(calls))],
            ),
            Scenario::Callback => sends(
                "call",
                seq![
                    "{\"jsonrpc\":\"2.0\",\"id\":9000,\"method\":\"sampling/createMessage\",\"params\":{}}"@,
                ],
            ),
            Scenario::Timeout => ReactionView {
                note: Some("call"),
                pause_secs: 6,
                sent: Seq::empty(),
                exits: false,
            },
            Scenario::Slow => ReactionView {
                note: Some("call"),
                pause_secs: 6,
                sent: seq![
                    answer(
                        id,
                        "{\"content\":[{\"type\":\"text\",\"text\":\"slow\"}],\"isError\":false}"@,
                    ),
                ],
                exits: false,
            },
            Scenario::RpcError => sends(
                "call",
                seq![error_answer(id, "{\"code\":-32001,\"message\":\"fixture error\"}"@)],
            ),
            Scenario::LargeResult => sends(
                "call",
                seq![
                    answer(
                        id,
                        "{\"content\":[{\"type\":\"text\",\"text\":\""@ + run_of('x', 196608)
                            + "\"}],\"structuredContent\":{\"payload\":\""@ + run_of('y', 196608)
                            + "\"},\"isError\":false}"@,
                    ),
                ],
            ),
            Scenario::BadResult => sends(
                "call",
                seq![
                    answer(
                        id,
                        "{\"content\":[{\"type\":\"image\",\"data\":\"AA==\",\"mimeType\":\"image/png\"}]}"@,
                    ),
                ],
            ),
            Scenario::OversizedResult => sends(
                "call",
                seq![
                    answer(
                        id,
                        "{\"content\":[{\"type\":\"text\",\"text\":\""@ + run_of('x', 532480)
                            + "\"}]}"@,
                    ),
                ],
            ),
            _ => sends("call", seq![answer(id, call_result(calls))]),
        }
    }
}

/// A scripted provider process.
#[derive(Debug)]
pub struct ScriptedProvider {
    pub scenario: Scenario,
    pub calls: u64,
    pub lists: u64,
}

/// What the process sees of its environment.
#[derive(Debug, Clone, Copy, PartialEq, Eq, Structural)]
pub struct ContextFacts {
    /// The variable with its own name has its value.
    pub github_ok: bool,
    /// The variable under another name has its value.
    pub mapped_ok: bool,
    /// The variable with a configured value has it.
    pub static_ok: bool,
    /// A variable that is not listed is absent.
    pub unlisted_cleared: bool,
    /// The search path is absent.
    pub path_cleared: bool,
    /// Whether the bootstrap variable is there, where the platform has one.
    pub system_root: Option<bool>,
    /// The working directory is the expected one.
    pub cwd_ok: bool,
}

/// What the process notes when it starts.
pub open spec fn start_log(scenario: Scenario, facts: ContextFacts) -> Seq<&'static str> {
    if scenario == Scenario::ExecutionContext {
        seq![
            "start",
            if facts.github_ok { "github-env-ok" } else { "github-env-bad" },
            if facts.mapped_ok { "mapped-env-ok" } else { "mapped-env-bad" },
            if facts.static_ok { "static-env-ok" } else { "static-env-bad" },
            if facts.unlisted_cleared { "unlisted-env-cleared" } else { "unlisted-env-leaked" },
            if facts.path_cleared { "path-cleared" } else { "path-leaked" },
        ] + match facts.system_root {
            Some(true) => seq!["systemroot-bootstrap-ok"],
            Some(false) => seq!["systemroot-bootstrap-missing"],
            None => Seq::empty(),
        } + seq![if facts.cwd_ok { "cwd-ok" } else { "cwd-bad" }]
    } else {
        seq!["start"]
    }
}

fn one_line(note: &'static str, line: String) -> (r: Reaction)
    ensures
        r.view() == sends(note, seq![line@]),
{
    let sent = vec![line];
    assert(text::list_view(sent@) =~= seq![line@]);
    Reaction { note: Some(note), pause_secs: 0, sent, exits: false }
}

impl ScriptedProvider {
    /// A process that has served nothing yet.
    pub fn started(scenario: Scenario) -> (r: Self)
        ensures
            r == (ScriptedProvider { scenario, calls: 0, lists: 0 }),
    {
        ScriptedProvider { scenario, calls: 0, lists: 0 }
    }

    /// Returns what the process notes when it starts.
    pub fn notes_at_start(&self, facts: ContextFacts) -> (r: Vec<&'static str>)
        ensures
            r@ == start_log(self.scenario, facts),
    {
        let mut log: Vec<&'static str> = Vec::new();
        log.push("start");
        if self.scenario != Scenario::ExecutionContext {
            assert(log@ =~= start_log(self.scenario, facts));
            return log;
        }
        log.push(if facts.github_ok { "github-env-ok" } else { "github-env-bad" });
        log.push(if facts.mapped_ok { "mapped-env-ok" } else { "mapped-env-bad" });
        log.push(if facts.static_ok { "static-env-ok" } else { "static-env-bad" });
        log.push(
            if facts.unlisted_cleared { "unlisted-env-cleared" } else { "unlisted-env-leaked" },
        );
        log.push(if facts.path_cleared { "path-cleared" } else { "path-leaked" });
        match facts.system_root {
            Some(true) => log.push("systemroot-bootstrap-ok"),
            Some(false) => log.push("systemroot-bootstrap-missing"),
            None => {},
        }
        log.push(if facts.cwd_ok { "cwd-ok" } else { "cwd-bad" });
        assert(log@ =~= start_log(self.scenario, facts));
        log
    }

    fn initialize(&self, id: u64, initializations: u64) -> (r: Reaction)
        ensures
            r.view() == on_initialize(self.scenario, id, initializations),
    {
        if self.scenario == Scenario::InitCrash || (self.scenario == Scenario::InitCrashOnce
            && initializations == 1) {
            let sent: Vec<String> = Vec::new();
            assert(text::list_view(sent@) =~= Seq::empty());
            return Reaction { note: Some("initialize"), pause_secs: 0, sent, exits: true };
        }
        let capabilities = if self.scenario == Scenario::InitMissingTools {
            "{}"
        } else {
            "{\"tools\":{}}"
        };
        let result = "{\"protocolVersion\":\"2025-06-18\",\"capabilities\":".to_owned().concat(
            capabilities,
        ).concat(",\"serverInfo\":{\"name\":\"fake-bridge\",\"version\":\"1\"}}");
        let mut reaction = one_line("initialize", answer_line(id, result.as_str()));
        if self.scenario == Scenario::InitTimeout {
            reaction.pause_secs = 6;
        }
        reaction
    }

    fn listing(&self, id: u64, starts: u64) -> (r: String)
        ensures
            r@ == answer(id, listed_tools(self.scenario, self.lists, starts)),
    {
        proof {
            reveal_strlit("x");
        }
        let description = if self.scenario == Scenario::BadTools {
            repeated("x", 5120)
        } else {
            "Persistent fake echo".to_owned()
        };
        let value_type = if (self.scenario == Scenario::SchemaChange && self.lists >= 2) || (
        self.scenario == Scenario::RecoverSchemaChange && starts >= 2) {
            "number"
        } else {
            "string"
        };
        let result = "{\"tools\":[{\"name\":\"echo\",\"description\":\"".to_owned().concat(
            description.as_str(),
        ).concat("\",\"inputSchema\":{\"type\":\"object\",\"properties\":{\"value\":{\"type\":\"").concat(
        value_type).concat("\"}}}}]}");
        answer_line(id, result.as_str())
    }

    fn list(&self, id: u64, starts: u64) -> (r: Reaction)
        ensures
            r.view() == on_list(self.scenario, id, self.lists, starts),
    {
        match self.scenario {
            Scenario::NotificationFlood => {
                let mut sent: Vec<String> = Vec::new();
                for progress in 0..40u64
                    invariant
                        text::list_view(sent@) == Seq::new(
                            progress as nat,
                            |i: int| progress_note("flood"@, i as nat),
                        ),
                {
                    let ghost before = text::list_view(sent@);
                    sent.push(progress_line("flood", progress));
                    assert(text::list_view(sent@) =~= before.push(
                        progress_note("flood"@, progress as nat),
                    ));
                    assert(before.push(progress_note("flood"@, progress as nat)) =~= Seq::new(
                        (progress + 1) as nat,
                        |i: int| progress_note("flood"@, i as nat),
                    ));
                }
                Reaction { note: Some("list"), pause_secs: 0, sent, exits: false }
            },
            Scenario::OversizedMessage => {
                proof {
                    reveal_strlit("x");
                }
                let result = "{\"padding\":\"".to_owned().concat(
                    repeated("x", 1048576).as_str(),
                ).concat("\",\"tools\":[]}");
                one_line("list", answer_line(id, result.as_str()))
            },
            Scenario::Malformed => one_line("list", "{not-json".to_owned()),
            Scenario::UnknownId => one_line("list", answer_line(999999, "{\"tools\":[]}")),
            Scenario::PaginatedList => one_line(
                "list",
                answer_line(id, "{\"tools\":[],\"nextCursor\":\"more\"}"),
            ),
            Scenario::Notifications => {
                let sent = vec![
                    "{\"jsonrpc\":\"2.0\",\"method\":\"notifications/tools/list_changed\"}".to_owned(),
                    self.listing(id, starts),
                    "{\"jsonrpc\":\"2.0\",\"method\":\"notifications/message\",\"params\":{\"level\":\"info\",\"data\":\"queued\"}}".to_owned(),
                ];
                assert(text::list_view(sent@) =~= on_list(
                    self.scenario,
                    id,
                    self.lists,
                    starts,
                ).sent);
                Reaction { note: Some("list"), pause_secs: 0, sent, exits: false }
            },
            Scenario::DuplicateId => {
                let sent = vec![self.listing(id, starts), answer_line(id, "{\"tools\":[]}")];
                assert(text::list_view(sent@) =~= on_list(
                    self.scenario,
                    id,
                    self.lists,
                    starts,
                ).sent);
                Reaction { note: Some("list"), pause_secs: 0, sent, exits: false }
            },
            _ => {
                let mut reaction = one_line("list", self.listing(id, starts));
                reaction.exits = self.scenario == Scenario::ExitAfterList;
                reaction
            },
        }
    }

    fn result_line(&self, id: u64) -> (r: String)
        ensures
            r@ == answer(id, call_result(self.calls)),
    {
        let number = decimal_text(self.calls);
        let result = "{\"content\":[{\"type\":\"text\",\"text\":\"call-".to_owned().concat(
            number.as_str(),
        ).concat("\"}],\"structuredContent\":{\"call\":").concat(number.as_str()).concat(
            "},\"isError\":false}",
        );
        answer_line(id, result.as_str())
    }

    fn call(&self, line: &str, id: u64) -> (r: Reaction)
        ensures
            r.view() == on_call(self.scenario, line@, id, self.calls),
    {
        proof {
            reveal_strlit("x");
            reveal_strlit("y");
        }
        if self.scenario == Scenario::MetaForbidden && (contains_text(line, "\"_meta\"")
            || contains_text(line, "progressToken") || contains_text(line, "clientInfo")
            || contains_text(line, "protocolVersion") || contains_text(
            line,
            "clientCapabilities",
        )) {
            return one_line(
                "call",
                error_line(
                    id,
                    "{\"code\":-32602,\"message\":\"caller metadata crossed gateway boundary\"}",
                ),
            );
        }
        let sent: Vec<String> = Vec::new();
        assert(text::list_view(sent@) =~= Seq::empty());
        match self.scenario {
            Scenario::Crash | Scenario::RecoverSchemaChange => Reaction {
                note: Some("call"),
                pause_secs: 0,
                sent,
                exits: true,
            },
            Scenario::Notifications => {
                let sent = vec![progress_line("call", 1), self.result_line(id)];
                assert(text::list_view(sent@) =~= seq![
                    progress_note("call"@, 1),
                    answer(id, call_result(self.calls)),
                ]);
                Reaction { note: Some("call"), pause_secs: 0, sent, exits: false }
            },
            Scenario::Callback => one_line(
                "call",
                "{\"jsonrpc\":\"2.0\",\"id\":9000,\"method\":\"sampling/createMessage\",\"params\":{}}".to_owned(),
            ),
            Scenario::Timeout => Reaction {
                note: Some("call"),
                pause_secs: 6,
                sent,
                exits: false,
            },
            Scenario::Slow => {
                let mut reaction = one_line(
                    "call",
                    answer_line(
                        id,
                        "{\"content\":[{\"type\":\"text\",\"text\":\"slow\"}],\"isError\":false}",
                    ),
                );
                reaction.pause_secs = 6;
                reaction
            },
            Scenario::RpcError => one_line(
                "call",
                error_line(id, "{\"code\":-32001,\"message\":\"fixture error\"}"),
            ),
            Scenario::LargeResult => {
                let result = "{\"content\":[{\"type\":\"text\",\"text\":\"".to_owned().concat(
                    repeated("x", 196608).as_str(),
                ).concat("\"}],\"structuredContent\":{\"payload\":\"").concat(
                    repeated("y", 196608).as_str(),
                ).concat("\"},\"isError\":false}");
                one_line("call", answer_line(id, result.as_str()))
            },
            Scenario::BadResult => one_line(
                "call",
                answer_line(
                    id,
                    "{\"content\":[{\"type\":\"image\",\"data\":\"AA==\",\"mimeType\":\"image/png\"}]}",
                ),
            ),
            Scenario::OversizedResult => {
                let result = "{\"content\":[{\"type\":\"text\",\"text\":\"".to_owned().concat(
                    repeated("x", 532480).as_str(),
                ).concat("\"}]}");
                one_line("call", answer_line(id, result.as_str()))
            },
            _ => one_line("call", self.result_line(id)),
        }
    }

    /// Serves one line. `starts` and `initializations` count those of all processes of the
    /// script, with the present ones.
    pub fn serve(&mut self, line: &str, starts: u64, initializations: u64) -> (r: Reaction)
        requires
            old(self).calls < u64::MAX,
            old(self).lists < u64::MAX,
        ensures
            final(self).scenario == old(self).scenario,
            (r.view(), final(self).lists, final(self).calls) == served(
                *old(self),
                line@,
                starts,
                initializations,
            ),
    {
        let method = match string_field(line, "method") {
            Some(method) => method,
            None => String::new(),
        };
        let id: u64 = match u64_field(line, "id") {
            Some(id) => id,
            None => 0,
        };
        proof {
            assert(method@ =~= method_of(line@));
        }
        if same(method.as_str(), "initialize") {
            return self.initialize(id, initializations);
        }
        if same(method.as_str(), "tools/list") {
            self.lists = self.lists + 1;
            return self.list(id, starts);
        }
        if same(method.as_str(), "tools/call") {
            self.calls = self.calls + 1;
            return self.call(line, id);
        }
        let sent: Vec<String> = Vec::new();
        assert(text::list_view(sent@) =~= Seq::empty());
        let note = if same(method.as_str(), "notifications/initialized") {
            Some("initialized")
        } else {
            None
        };
        Reaction { note, pause_secs: 0, sent, exits: false }
    }
}

/// The method that a line names, or none.
pub open spec fn method_of(line: Seq<char>) -> Seq<char> {
    match fields::text_of_field(line, "method"@) {
        Some(method) => method,
        None => Seq::empty(),
    }
}

/// The number that a line has, or zero.
pub open spec fn id_of(line: Seq<char>) -> u64 {
    match fields::number_of_field(line, "id"@) {
        Some(id) => id,
        None => 0,
    }
}

/// What serving a line comes to, and how many listings and calls there were then.
pub open spec fn served(
    before: ScriptedProvider,
    line: Seq<char>,
    starts: u64,
    initializations: u64,
) -> (ReactionView, u64, u64) {
    let method = method_of(line);
    let id = id_of(line);
    let lists = (before.lists + 1) as u64;
    let calls = (before.calls + 1) as u64;
    if method == "initialize"@ {
        (on_initialize(before.scenario, id, initializations), before.lists, before.calls)
    } else if method == "tools/list"@ {
        (on_list(before.scenario, id, lists, starts), lists, before.calls)
    } else if method == "tools/call"@ {
        (on_call(before.scenario, line, id, calls), before.lists, calls)
    } else {
        (
            ReactionView {
                note: if method == "notifications/initialized"@ {
                    Some("initialized")
                } else {
                    None
                },
                pause_secs: 0,
                sent: Seq::empty(),
                exits: false,
            },
            before.lists,
            before.calls,
        )
    }
}

// ---------------------------------------------------------------------------------------------
// Laws
// ---------------------------------------------------------------------------------------------
/// A provider counts the listings and the calls that it is asked for, each by its own method, and
/// notes what it is asked for.
pub proof fn requests_are_counted_by_their_method(
    before: ScriptedProvider,
    line: Seq<char>,
    starts: u64,
    initializations: u64,
)
    requires
        before.lists < u64::MAX,
        before.calls < u64::MAX,
    ensures
        ({
            let (reaction, lists, calls) = served(before, line, starts, initializations);
            let method = fields::text_of_field(line, "method"@);
            &&& lists == before.lists + if method == Some("tools/list"@) {
                1int
            } else {
                0
            }
            &&& calls == before.calls + if method == Some("tools/call"@) {
                1int
            } else {
                0
            }
            &&& method == Some("tools/list"@) ==> reaction.note == Some("list")
            &&& method == Some("tools/call"@) ==> reaction.note == Some("call")
            &&& method == Some("initialize"@) ==> reaction.note == Some("initialize")
            &&& method == Some("notifications/initialized"@) ==> reaction.note == Some(
                "initialized",
            ) && reaction.sent.len() == 0
            &&& method is None ==> reaction.note is None && reaction.sent.len() == 0
                && !reaction.exits
        }),
{
    reveal_strlit("tools/list");
    reveal_strlit("tools/call");
    reveal_strlit("initialize");
    reveal_strlit("notifications/initialized");
    assert("tools/list"@[6] == 'l' && "tools/call"@[6] == 'c');
    assert("initialize"@[0] == 'i' && "notifications/initialized"@[0] == 'n');
    assert("tools/list"@[0] == 't' && "tools/call"@[0] == 't');
    if fields::text_of_field(line, "method"@) is None {
        assert(method_of(line).len() == 0);
    }
}

/// A provider ends, waits and falls silent exactly where its script says so.
pub proof fn scripts_end_and_wait_where_they_say(
    scenario: Scenario,
    line: Seq<char>,
    id: u64,
    count: u64,
    starts: u64,
)
    ensures
        on_initialize(scenario, id, count).exits <==> scenario == Scenario::InitCrash || (scenario
            == Scenario::InitCrashOnce && count == 1),
        on_list(scenario, id, count, starts).exits <==> scenario == Scenario::ExitAfterList,
        on_call(scenario, line, id, count).exits <==> scenario == Scenario::Crash || scenario
            == Scenario::RecoverSchemaChange,
        on_initialize(scenario, id, count).pause_secs == if scenario == Scenario::InitTimeout {
            6int
        } else {
            0
        },
        on_list(scenario, id, count, starts).pause_secs == 0,
        on_call(scenario, line, id, count).pause_secs == if scenario == Scenario::Timeout || scenario
            == Scenario::Slow {
            6int
        } else {
            0
        },
        on_initialize(scenario, id, count).sent.len() == if on_initialize(
            scenario,
            id,
            count,
        ).exits {
            0int
        } else {
            1
        },
        on_list(scenario, id, count, starts).sent.len() == match scenario {
            Scenario::NotificationFlood => 40int,
            Scenario::Notifications => 3,
            Scenario::DuplicateId => 2,
            _ => 1,
        },
        on_call(scenario, line, id, count).sent.len() == match scenario {
            Scenario::Crash | Scenario::RecoverSchemaChange | Scenario::Timeout => 0int,
            Scenario::Notifications => 2,
            _ => 1,
        },
{
}

/// What the usual provider sends is the answer to the request with the id that it came with.
pub proof fn usual_answers_carry_the_id(line: Seq<char>, id: u64, count: u64, starts: u64)
    ensures
        ({
            let head = "{\"jsonrpc\":\"2.0\",\"id\":"@ + text::decimal(id as nat) + ",\"result\":"@;
            &&& head.is_prefix_of(on_initialize(Scenario::Normal, id, count).sent[0])
            &&& head.is_prefix_of(on_list(Scenario::Normal, id, count, starts).sent[0])
            &&& head.is_prefix_of(on_call(Scenario::Normal, line, id, count).sent[0])
        }),
{
    let head = "{\"jsonrpc\":\"2.0\",\"id\":"@ + text::decimal(id as nat) + ",\"result\":"@;
    let one = on_initialize(Scenario::Normal, id, count).sent[0];
    let two = on_list(Scenario::Normal, id, count, starts).sent[0];
    let three = on_call(Scenario::Normal, line, id, count).sent[0];
    assert(one.subrange(0, head.len() as int) =~= head);
    assert(two.subrange(0, head.len() as int) =~= head);
    assert(three.subrange(0, head.len() as int) =~= head);
}

/// A process notes first that it started, and what it sees of its environment only where its
/// script asks for that: one note for each thing that it looks at, good or bad.
pub proof fn starts_are_noted_first(scenario: Scenario, facts: ContextFacts)
    ensures
        start_log(scenario, facts)[0] == "start",
        scenario != Scenario::ExecutionContext ==> start_log(scenario, facts).len() == 1,
        scenario == Scenario::ExecutionContext ==> {
            let log = start_log(scenario, facts);
            &&& log.len() == 7 + if facts.system_root is Some {
                1int
            } else {
                0
            }
            &&& log[1] == if facts.github_ok { "github-env-ok" } else { "github-env-bad" }
            &&& log[2] == if facts.mapped_ok { "mapped-env-ok" } else { "mapped-env-bad" }
            &&& log[3] == if facts.static_ok { "static-env-ok" } else { "static-env-bad" }
            &&& log[4] == if facts.unlisted_cleared {
                "unlisted-env-cleared"
            } else {
                "unlisted-env-leaked"
            }
            &&& log[5] == if facts.path_cleared { "path-cleared" } else { "path-leaked" }
            &&& log.last() == if facts.cwd_ok { "cwd-ok" } else { "cwd-bad" }
        },
{
}

} // verus!
