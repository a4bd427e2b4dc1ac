//! The MCP gateway: which provider a request goes to, what it is answered, and how a new
//! configuration replaces the providers.
use crate::config::{McpGatewayConfig, McpGatewayProviderConfig};
use crate::entry::{
    self, remaining_budget, EntryView, McpGatewayProvider, McpGatewayProviderState, ProviderEntry,
    SessionLock,
};
use crate::rpc::{self, McpGatewayDispatchState, ProviderFailure};
use crate::table::{self, find, place, take};
use crate::text::same;
use crate::tools::{
    self, check_call, McpGatewaySchemaObservation, McpGatewayTool, McpGatewayToolResult,
    ToolResultView, ToolView,
};
use vstd::prelude::*;
use vstd::string::*;

verus! {

/// The providers of the runner.
#[derive(Debug)]
pub struct McpGatewayManager {
    pub providers: Vec<ProviderEntry>,
    pub request_timeout_secs: u64,
    pub stopping: bool,
}

/// How many providers a new configuration kept, replaced, added and removed.
#[derive(Debug, Clone, Copy, PartialEq, Eq, Structural)]
pub struct McpGatewayReloadSummary {
    pub preserved: usize,
    pub replaced: usize,
    pub added: usize,
    pub removed: usize,
}

/// What a new configuration came to: the counts, and the entries that left the table.
#[derive(Debug)]
pub struct McpGatewayReload {
    pub summary: McpGatewayReloadSummary,
    pub retired: Vec<ProviderEntry>,
}

/// A request for one exact provider instance.
#[derive(Debug)]
pub enum McpGatewayRequest {
    ProviderStatus { provider_id: String, provider_instance_id: String },
    ToolsList { provider_id: String, provider_instance_id: String },
    ToolsCall {
        provider_id: String,
        provider_instance_id: String,
        name: String,
        arguments: serde_json::Value,
        expected_schema: McpGatewaySchemaObservation,
    },
}

/// What a request is answered where it succeeds.
#[derive(Debug)]
pub enum McpGatewayResponsePayload {
    ProviderStatus { state: McpGatewayProviderState },
    Tools { tools: Vec<McpGatewayTool> },
    ToolResult { result: McpGatewayToolResult },
}

/// What a request is answered.
#[derive(Debug)]
pub enum McpGatewayResponse {
    Success(McpGatewayResponsePayload),
    Error { dispatch_state: McpGatewayDispatchState, code: &'static str, message: &'static str },
}

/// The content of an answer.
pub enum ResponseView {
    Status(McpGatewayProviderState),
    Tools(Seq<ToolView>),
    ToolResult(ToolResultView),
    Error {
        dispatch_state: McpGatewayDispatchState,
        code: &'static str,
        message: &'static str,
    },
}

impl McpGatewayResponse {
    pub open spec fn view(self) -> ResponseView {
        match self {
            McpGatewayResponse::Success(
                McpGatewayResponsePayload::ProviderStatus { state },
            ) => ResponseView::Status(state),
            McpGatewayResponse::Success(
                McpGatewayResponsePayload::Tools { tools },
            ) => ResponseView::Tools(tools::tools_view(tools@)),
            McpGatewayResponse::Success(
                McpGatewayResponsePayload::ToolResult { result },
            ) => ResponseView::ToolResult(result.view()),
            McpGatewayResponse::Error { dispatch_state, code, message } => ResponseView::Error {
                dispatch_state,
                code,
                message,
            },
        }
    }
}

impl McpGatewayRequest {
    /// The provider that the request names.
    pub open spec fn provider(self) -> Seq<char> {
        match self {
            McpGatewayRequest::ProviderStatus { provider_id, .. } => provider_id@,
            McpGatewayRequest::ToolsList { provider_id, .. } => provider_id@,
            McpGatewayRequest::ToolsCall { provider_id, .. } => provider_id@,
        }
    }

    /// The instance that the request names.
    pub open spec fn instance(self) -> Seq<char> {
        match self {
            McpGatewayRequest::ProviderStatus { provider_instance_id, .. } => provider_instance_id@,
            McpGatewayRequest::ToolsList { provider_instance_id, .. } => provider_instance_id@,
            McpGatewayRequest::ToolsCall { provider_instance_id, .. } => provider_instance_id@,
        }
    }

    fn provider_id(&self) -> (r: &str)
        ensures
            r@ == self.provider(),
    {
        match self {
            McpGatewayRequest::ProviderStatus { provider_id, .. } => provider_id.as_str(),
            McpGatewayRequest::ToolsList { provider_id, .. } => provider_id.as_str(),
            McpGatewayRequest::ToolsCall { provider_id, .. } => provider_id.as_str(),
        }
    }

    fn instance_id(&self) -> (r: &str)
        ensures
            r@ == self.instance(),
    {
        match self {
            McpGatewayRequest::ProviderStatus { provider_instance_id, .. } =>
                provider_instance_id.as_str(),
            McpGatewayRequest::ToolsList { provider_instance_id, .. } =>
                provider_instance_id.as_str(),
            McpGatewayRequest::ToolsCall { provider_instance_id, .. } =>
                provider_instance_id.as_str(),
        }
    }
}

// ---------------------------------------------------------------------------------------------
// Answers
// ---------------------------------------------------------------------------------------------
/// What a failure is explained as.
pub open spec fn failure_message(state: McpGatewayDispatchState) -> &'static str {
    match state {
        McpGatewayDispatchState::NotStarted =>
            "Provider request was not started; no downstream effect was dispatched",
        McpGatewayDispatchState::OutcomeUnknown =>
            "Provider request may have been dispatched; outcome is unknown and must not be retried automatically",
        McpGatewayDispatchState::Completed =>
            "Provider completed the request-response exchange but returned a downstream error or unsupported/invalid bounded result",
    }
}

/// The answer to a request that failed.
pub open spec fn failure_response(failure: ProviderFailure) -> ResponseView {
    ResponseView::Error {
        dispatch_state: failure.dispatch_state,
        code: failure.code,
        message: failure_message(failure.dispatch_state),
    }
}

/// The answer to a request for a provider instance that is not there.
pub open spec fn stale_response() -> ResponseView {
    ResponseView::Error {
        dispatch_state: McpGatewayDispatchState::NotStarted,
        code: "stale_provider",
        message: "Exact provider instance is unavailable; request was not routed elsewhere",
    }
}

/// Returns an answer that reports an error.
pub fn bridge_error(
    state: McpGatewayDispatchState,
    code: &'static str,
    message: &'static str,
) -> (r: McpGatewayResponse)
    ensures
        r.view() == (ResponseView::Error { dispatch_state: state, code, message }),
{
    McpGatewayResponse::Error { dispatch_state: state, code, message }
}

/// Returns the answer to a request for a provider instance that is not there.
pub fn stale_provider() -> (r: McpGatewayResponse)
    ensures
        r.view() == stale_response(),
{
    bridge_error(
        McpGatewayDispatchState::NotStarted,
        "stale_provider",
        "Exact provider instance is unavailable; request was not routed elsewhere",
    )
}

/// Returns the answer to a request that failed.
pub fn provider_failure_response(error: ProviderFailure) -> (r: McpGatewayResponse)
    ensures
        r.view() == failure_response(error),
{
    let message: &'static str = match error.dispatch_state {
        McpGatewayDispatchState::NotStarted =>
            "Provider request was not started; no downstream effect was dispatched",
        McpGatewayDispatchState::OutcomeUnknown =>
            "Provider request may have been dispatched; outcome is unknown and must not be retried automatically",
        McpGatewayDispatchState::Completed =>
            "Provider completed the request-response exchange but returned a downstream error or unsupported/invalid bounded result",
    };
    bridge_error(error.dispatch_state, error.code, message)
}

/// Returns the state that an answer to a status request reports.
pub fn provider_state(response: McpGatewayResponse) -> (r: McpGatewayProviderState)
    requires
        response.view() is Status,
    ensures
        response.view() == ResponseView::Status(r),
{
    match response {
        McpGatewayResponse::Success(McpGatewayResponsePayload::ProviderStatus { state }) => state,
        _ => McpGatewayProviderState::NeverStarted,
    }
}

/// The answer to `tools/list`.
pub open spec fn listing_response(listed: Result<Seq<ToolView>, ProviderFailure>) -> ResponseView {
    match listed {
        Ok(tools) => ResponseView::Tools(tools),
        Err(failure) => failure_response(failure),
    }
}

/// The answer to `tools/call`.
pub open spec fn calling_response(called: Result<ToolResultView, ProviderFailure>) -> ResponseView {
    match called {
        Ok(result) => ResponseView::ToolResult(result),
        Err(failure) => failure_response(failure),
    }
}

/// Returns the answer to `tools/list`.
pub fn tools_response(listed: Result<Vec<McpGatewayTool>, ProviderFailure>) -> (r:
    McpGatewayResponse)
    ensures
        r.view() == listing_response(tools::listed_view(listed)),
{
    match listed {
        Ok(tools) => McpGatewayResponse::Success(McpGatewayResponsePayload::Tools { tools }),
        Err(error) => provider_failure_response(error),
    }
}

/// Returns the answer to `tools/call`.
pub fn call_response(called: Result<McpGatewayToolResult, ProviderFailure>) -> (r:
    McpGatewayResponse)
    ensures
        r.view() == calling_response(tools::called_view(called)),
{
    match called {
        Ok(result) => McpGatewayResponse::Success(McpGatewayResponsePayload::ToolResult { result }),
        Err(error) => provider_failure_response(error),
    }
}

// ---------------------------------------------------------------------------------------------
// Calls
// ---------------------------------------------------------------------------------------------
/// What a call comes to: the tools are listed first, the tool must be as it was observed, and
/// time must be left, before the call itself goes out.
pub open spec fn call_outcome(
    listed: Result<Seq<ToolView>, ProviderFailure>,
    name: Seq<char>,
    expected: McpGatewaySchemaObservation,
    budget: u128,
    elapsed: u128,
    called: Result<ToolResultView, ProviderFailure>,
) -> Result<ToolResultView, ProviderFailure> {
    match listed {
        Err(failure) => Err(rpc::failed_preflight(failure)),
        Ok(tools) => match tools::call_refusal(tools, name, expected) {
            Some(failure) => Err(failure),
            None => if entry::budget_left(budget, elapsed) is None {
                Err(rpc::failed_not_started("provider_timeout"))
            } else {
                called
            },
        },
    }
}

/// Says how much time is left for a call, once the tools were listed, or why it may not go out.
pub fn authorize_call(
    listed: Result<Vec<McpGatewayTool>, ProviderFailure>,
    name: &str,
    expected: &McpGatewaySchemaObservation,
    budget: u128,
    elapsed: u128,
) -> (r: Result<u128, ProviderFailure>)
    ensures
        match tools::listed_view(listed) {
            Err(failure) => r == Result::<u128, ProviderFailure>::Err(
                rpc::failed_preflight(failure),
            ),
            Ok(tools) => match tools::call_refusal(tools, name@, *expected) {
                Some(failure) => r == Result::<u128, ProviderFailure>::Err(failure),
                None => match entry::budget_left(budget, elapsed) {
                    None => r == Result::<u128, ProviderFailure>::Err(
                        rpc::failed_not_started("provider_timeout"),
                    ),
                    Some(left) => r == Ok::<u128, ProviderFailure>(left),
                },
            },
        },
{
    let tools = match listed {
        Ok(tools) => tools,
        Err(error) => {
            return Err(ProviderFailure::preflight(error));
        },
    };
    check_call(&tools, name, expected)?;
    match remaining_budget(budget, elapsed) {
        Some(left) => Ok(left),
        None => Err(ProviderFailure::not_started("provider_timeout")),
    }
}

/// What the host and the provider gave while a request was served. Each part counts only where
/// the request gets to it.
#[derive(Debug)]
pub struct ProviderWork {
    /// Whether the connection could be taken.
    pub lock: SessionLock,
    /// Whether the process of the connection runs.
    pub running: bool,
    /// The outcome of a start.
    pub spawned: Result<(), ProviderFailure>,
    /// The time until the operation began, in nanoseconds.
    pub elapsed: u128,
    /// The outcome of `tools/list`.
    pub listed: Result<Vec<McpGatewayTool>, ProviderFailure>,
    /// The time that listing took before a call, in nanoseconds.
    pub call_elapsed: u128,
    /// The outcome of `tools/call`.
    pub called: Result<McpGatewayToolResult, ProviderFailure>,
}

/// A timeout in nanoseconds.
pub open spec fn nanos(secs: u64) -> u128 {
    (secs * 1000000000) as u128
}

/// Returns a timeout in nanoseconds.
pub fn timeout_nanos(secs: u64) -> (r: u128)
    ensures
        r == nanos(secs),
        r == secs * 1000000000,
{
    (secs as u128) * 1000000000u128
}

/// What serving a request on its provider comes to: what becomes of the entry, and the answer.
pub open spec fn served(
    before: EntryView,
    timeout: u128,
    request: McpGatewayRequest,
    work: ProviderWork,
) -> (EntryView, ResponseView) {
    match request {
        McpGatewayRequest::ProviderStatus { .. } => {
            let (after, state) = entry::status_of(before, work.lock, work.running);
            (after, ResponseView::Status(state))
        },
        McpGatewayRequest::ToolsList { .. } => {
            let (after, outcome) = entry::operation_outcome(
                before,
                work.lock,
                work.spawned,
                timeout,
                work.elapsed,
                tools::listed_view(work.listed),
            );
            (after, listing_response(outcome))
        },
        McpGatewayRequest::ToolsCall { name, expected_schema, .. } => {
            let budget = match entry::budget_left(timeout, work.elapsed) {
                Some(left) => left,
                None => 0,
            };
            let (after, outcome) = entry::operation_outcome(
                before,
                work.lock,
                work.spawned,
                timeout,
                work.elapsed,
                call_outcome(
                    tools::listed_view(work.listed),
                    name@,
                    expected_schema,
                    budget,
                    work.call_elapsed,
                    tools::called_view(work.called),
                ),
            );
            (after, calling_response(outcome))
        },
    }
}

// ---------------------------------------------------------------------------------------------
// Configuration
// ---------------------------------------------------------------------------------------------
/// The seconds that a request may take by default.
pub open spec fn clamped_timeout(secs: u64) -> u64 {
    if secs < 1 {
        1
    } else if secs > 120 {
        120
    } else {
        secs
    }
}

fn clamp_timeout(secs: u64) -> (r: u64)
    ensures
        r == clamped_timeout(secs),
{
    if secs < 1 {
        1
    } else if secs > 120 {
        120
    } else {
        secs
    }
}

/// Where an id stands last among the first `n` providers of a configuration.
pub open spec fn last_with(
    providers: Seq<McpGatewayProviderConfig>,
    n: int,
    id: Seq<char>,
) -> Option<int>
    decreases n,
{
    if n <= 0 {
        None
    } else if providers[n - 1].id.text@ == id {
        Some(n - 1)
    } else {
        last_with(providers, n - 1, id)
    }
}

/// What a new configuration does to one of its providers.
#[derive(Debug, Clone, Copy, PartialEq, Eq, Structural)]
pub enum ProviderChange {
    Preserved,
    Replaced,
    Added,
}

/// What a new configuration does to its provider `i`: one whose whole configuration is unchanged
/// is kept, one that changed is replaced, and one that was not there is added.
pub open spec fn change_of(
    before: Seq<ProviderEntry>,
    providers: Seq<McpGatewayProviderConfig>,
    i: int,
) -> ProviderChange {
    let id = providers[i].id.text@;
    if last_with(providers, i, id) is Some {
        ProviderChange::Added
    } else {
        match table::entry_of(before, id) {
            None => ProviderChange::Added,
            Some(existing) => if existing.config == providers[i]@ {
                ProviderChange::Preserved
            } else {
                ProviderChange::Replaced
            },
        }
    }
}

/// How many of the first `n` providers see that change.
pub open spec fn count_changes(
    before: Seq<ProviderEntry>,
    providers: Seq<McpGatewayProviderConfig>,
    n: int,
    change: ProviderChange,
) -> nat
    decreases n,
{
    if n <= 0 {
        0
    } else {
        count_changes(before, providers, n - 1, change) + if change_of(before, providers, n - 1)
            == change {
            1nat
        } else {
            0nat
        }
    }
}

/// The entries that the first `n` providers leave over.
pub open spec fn left_over(
    before: Seq<ProviderEntry>,
    providers: Seq<McpGatewayProviderConfig>,
    n: int,
) -> Seq<ProviderEntry>
    decreases n,
{
    if n <= 0 {
        before
    } else {
        table::without(left_over(before, providers, n - 1), providers[n - 1].id.text@)
    }
}

/// The entries that the first `n` providers replace.
pub open spec fn replaced_entries(
    before: Seq<ProviderEntry>,
    providers: Seq<McpGatewayProviderConfig>,
    n: int,
) -> Seq<EntryView>
    decreases n,
{
    if n <= 0 {
        Seq::empty()
    } else if change_of(before, providers, n - 1) == ProviderChange::Replaced {
        replaced_entries(before, providers, n - 1).push(
            table::entry_of(before, providers[n - 1].id.text@)->0,
        )
    } else {
        replaced_entries(before, providers, n - 1)
    }
}

/// The contents of entries.
pub open spec fn entries_view(entries: Seq<ProviderEntry>) -> Seq<EntryView> {
    Seq::new(entries.len(), |i: int| entries[i]@)
}

/// What the first `n` providers of a configuration make of an id: no entry where none has it,
/// the entry of before where it is kept, else an unused one.
pub open spec fn entry_follows(
    before: Seq<ProviderEntry>,
    providers: Seq<McpGatewayProviderConfig>,
    n: int,
    id: Seq<char>,
    found: Option<EntryView>,
) -> bool {
    match last_with(providers, n, id) {
        None => found is None,
        Some(k) => if change_of(before, providers, k) == ProviderChange::Preserved {
            found == table::entry_of(before, id)
        } else {
            found is Some && entry::is_fresh(found->0, providers[k]@)
        },
    }
}

proof fn left_over_facts(
    before: Seq<ProviderEntry>,
    providers: Seq<McpGatewayProviderConfig>,
    n: int,
    id: Seq<char>,
)
    requires
        table::sorted(before),
        0 <= n <= providers.len(),
    ensures
        table::sorted(left_over(before, providers, n)),
        table::entry_of(left_over(before, providers, n), id) == if last_with(
            providers,
            n,
            id,
        ) is Some {
            None
        } else {
            table::entry_of(before, id)
        },
    decreases n,
{
    if n > 0 {
        left_over_facts(before, providers, n - 1, id);
        let rest = left_over(before, providers, n - 1);
        table::without_sorted(rest, providers[n - 1].id.text@);
        table::entry_of_without(rest, providers[n - 1].id.text@, id);
    }
}

impl McpGatewayManager {
    /// One entry for each id.
    pub open spec fn well_formed(self) -> bool {
        table::sorted(self.providers@)
    }

    /// The providers of a configuration, none of them started.
    pub fn new(config: &McpGatewayConfig) -> (r: Self)
        ensures
            r.well_formed(),
            !r.stopping,
            r.request_timeout_secs == clamped_timeout(config.request_timeout_secs),
            forall|id: Seq<char>|
                entry_follows(
                    Seq::empty(),
                    config.providers@,
                    config.providers@.len() as int,
                    id,
                    #[trigger] table::entry_of(r.providers@, id),
                ),
    {
        let ghost none = Seq::<ProviderEntry>::empty();
        let mut providers: Vec<ProviderEntry> = Vec::new();
        for i in 0..config.providers.len()
            invariant
                none == Seq::<ProviderEntry>::empty(),
                table::sorted(providers@),
                forall|id: Seq<char>|
                    entry_follows(
                        none,
                        config.providers@,
                        i as int,
                        id,
                        #[trigger] table::entry_of(providers@, id),
                    ),
        {
            place(&mut providers, ProviderEntry::new(config.providers[i].clone()));
        }
        McpGatewayManager {
            providers,
            request_timeout_secs: clamp_timeout(config.request_timeout_secs),
            stopping: false,
        }
    }

    /// Returns how the providers are advertised, in ascending order of their ids. Nothing is
    /// started.
    pub fn provider_inventory(&self) -> (r: Vec<McpGatewayProvider>)
        ensures
            r@.len() == self.providers@.len(),
            forall|i: int|
                #![trigger r@[i]]
                0 <= i < r@.len() ==> r@[i].provider_id@ == self.providers@[i]@.config.id
                    && r@[i].provider_instance_id@ == self.providers@[i]@.instance_id
                    && r@[i].name@ == self.providers@[i]@.config.name,
    {
        let mut inventory: Vec<McpGatewayProvider> = Vec::new();
        for i in 0..self.providers.len()
            invariant
                inventory@.len() == i,
                forall|j: int|
                    #![trigger inventory@[j]]
                    0 <= j < i ==> inventory@[j].provider_id@ == self.providers@[j]@.config.id
                        && inventory@[j].provider_instance_id@ == self.providers@[j]@.instance_id
                        && inventory@[j].name@ == self.providers@[j]@.config.name,
        {
            inventory.push(self.providers[i].advertisement());
        }
        inventory
    }

    /// Replaces the configured providers. A provider whose whole configuration is unchanged keeps
    /// its identity and its connection; a changed or new one gets a new identity; and the entries
    /// that leave the table are handed out, replaced ones first.
    pub fn apply_config_candidate(&mut self, config: &McpGatewayConfig) -> (r: Result<
        McpGatewayReload,
        &'static str,
    >)
        requires
            old(self).well_formed(),
        ensures
            final(self).well_formed(),
            final(self).stopping == old(self).stopping,
            old(self).stopping ==> r == Result::<McpGatewayReload, &'static str>::Err(
                "mcp_gateway_stopping",
            ) && *final(self) == *old(self),
            !old(self).stopping ==> {
                let before = old(self).providers@;
                let providers = config.providers@;
                let n = providers.len() as int;
                &&& final(self).request_timeout_secs == clamped_timeout(config.request_timeout_secs)
                &&& forall|id: Seq<char>|
                    entry_follows(
                        before,
                        providers,
                        n,
                        id,
                        #[trigger] table::entry_of(final(self).providers@, id),
                    )
                &&& r matches Ok(reload) && {
                    &&& reload.summary.preserved == count_changes(
                        before,
                        providers,
                        n,
                        ProviderChange::Preserved,
                    )
                    &&& reload.summary.replaced == count_changes(
                        before,
                        providers,
                        n,
                        ProviderChange::Replaced,
                    )
                    &&& reload.summary.added == count_changes(
                        before,
                        providers,
                        n,
                        ProviderChange::Added,
                    )
                    &&& reload.summary.removed == left_over(before, providers, n).len()
                    &&& entries_view(reload.retired@) == replaced_entries(before, providers, n)
                        + entries_view(left_over(before, providers, n))
                }
            },
    {
        if self.stopping {
            return Err("mcp_gateway_stopping");
        }
        let ghost before = self.providers@;
        let ghost providers = config.providers@;
        let mut current: Vec<ProviderEntry> = Vec::new();
        std::mem::swap(&mut current, &mut self.providers);
        let mut next: Vec<ProviderEntry> = Vec::new();
        let mut retired: Vec<ProviderEntry> = Vec::new();
        let mut preserved: usize = 0;
        let mut replaced: usize = 0;
        let mut added: usize = 0;
        assert(entries_view(retired@) =~= replaced_entries(before, providers, 0));
        for i in 0..config.providers.len()
            invariant
                providers == config.providers@,
                table::sorted(before),
                table::sorted(current@),
                table::sorted(next@),
                current@ == left_over(before, providers, i as int),
                entries_view(retired@) == replaced_entries(before, providers, i as int),
                preserved == count_changes(
                    before,
                    providers,
                    i as int,
                    ProviderChange::Preserved,
                ),
                replaced == count_changes(before, providers, i as int, ProviderChange::Replaced),
                added == count_changes(before, providers, i as int, ProviderChange::Added),
                preserved <= i,
                replaced <= i,
                added <= i,
                forall|id: Seq<char>|
                    entry_follows(
                        before,
                        providers,
                        i as int,
                        id,
                        #[trigger] table::entry_of(next@, id),
                    ),
        {
            let provider = &config.providers[i];
            let ghost id = provider.id.text@;
            let ghost kept = next@;
            let ghost out = retired@;
            proof {
                left_over_facts(before, providers, i as int, id);
            }
            match take(&mut current, provider.id.text.as_str()) {
                Some(existing) => {
                    if existing.config.same_as(provider) {
                        preserved = preserved + 1;
                        place(&mut next, existing);
                    } else {
                        replaced = replaced + 1;
                        proof {
                            assert(entries_view(out.push(existing)) =~= entries_view(out).push(
                                existing@,
                            ));
                        }
                        retired.push(existing);
                        place(&mut next, ProviderEntry::new(provider.clone()));
                    }
                },
                None => {
                    added = added + 1;
                    place(&mut next, ProviderEntry::new(provider.clone()));
                },
            }
            proof {
                assert forall|other: Seq<char>|
                    entry_follows(
                        before,
                        providers,
                        i + 1,
                        other,
                        #[trigger] table::entry_of(next@, other),
                    ) by {
                    assert(entry_follows(
                        before,
                        providers,
                        i as int,
                        other,
                        table::entry_of(kept, other),
                    ));
                }
            }
        }
        let ghost gone = current@;
        let removed: usize = current.len();
        let ghost out = retired@;
        for item in it: current
            invariant
                it.seq() == gone,
                retired@ == out + gone.take(it.index()),
        {
            retired.push(item);
            assert(gone.take(it.index() + 1) =~= gone.take(it.index()).push(gone[it.index()]));
        }
        proof {
            assert(gone.take(gone.len() as int) =~= gone);
            assert(entries_view(retired@) =~= entries_view(out) + entries_view(gone));
        }
        self.providers = next;
        self.request_timeout_secs = clamp_timeout(config.request_timeout_secs);
        Ok(
            McpGatewayReload {
                summary: McpGatewayReloadSummary { preserved, replaced, added, removed },
                retired,
            },
        )
    }

    /// Returns where the exact provider instance stands, and its timeout in seconds.
    pub fn exact_provider(&self, provider_id: &str, provider_instance_id: &str) -> (r: Option<
        (usize, u64),
    >)
        requires
            self.well_formed(),
        ensures
            match r {
                Some((at, secs)) => at < self.providers@.len() && table::entry_of(
                    self.providers@,
                    provider_id@,
                ) == Some(self.providers@[at as int]@) && table::id_of(self.providers@[at as int])
                    == provider_id@ && self.providers@[at as int]@.instance_id
                    == provider_instance_id@ && secs == provider_timeout(
                    *self,
                    self.providers@[at as int]@,
                ),
                None => !(table::entry_of(self.providers@, provider_id@) matches Some(found)
                    && found.instance_id == provider_instance_id@),
            },
    {
        match find(&self.providers, provider_id) {
            Some(at) => {
                let provider = &self.providers[at];
                if !same(provider.instance_id.as_str(), provider_instance_id) {
                    return None;
                }
                Some((at, provider.request_timeout(self.request_timeout_secs)))
            },
            None => None,
        }
    }

    /// Says where a request goes and how long it may take, or what it is answered at once.
    /// `valid` says whether it keeps the shared bounds on requests.
    pub fn route(&self, request: &McpGatewayRequest, valid: bool) -> (r: Result<
        (usize, u64),
        McpGatewayResponse,
    >)
        requires
            self.well_formed(),
        ensures
            match routing_refusal(*self, *request, valid) {
                Some(answer) => r matches Err(response) && response.view() == answer,
                None => r matches Ok((at, secs)) && at < self.providers@.len() && table::entry_of(
                    self.providers@,
                    request.provider(),
                ) == Some(self.providers@[at as int]@) && table::id_of(self.providers@[at as int])
                    == request.provider() && secs == provider_timeout(
                    *self,
                    self.providers@[at as int]@,
                ),
            },
    {
        if self.stopping {
            return Err(
                bridge_error(
                    McpGatewayDispatchState::NotStarted,
                    "runner_stopping",
                    "Runner is stopping; provider request was not started",
                ),
            );
        }
        if !valid {
            return Err(
                bridge_error(
                    McpGatewayDispatchState::NotStarted,
                    "invalid_bridge_request",
                    "Bridge request failed bounded validation",
                ),
            );
        }
        match self.exact_provider(request.provider_id(), request.instance_id()) {
            Some(found) => Ok(found),
            None => Err(stale_provider()),
        }
    }

    /// Serves a request over what the host and the provider gave.
    pub fn handle(&mut self, request: McpGatewayRequest, valid: bool, work: ProviderWork) -> (r:
        McpGatewayResponse)
        requires
            old(self).well_formed(),
        ensures
            final(self).well_formed(),
            final(self).stopping == old(self).stopping,
            final(self).request_timeout_secs == old(self).request_timeout_secs,
            match routing_refusal(*old(self), request, valid) {
                Some(answer) => r.view() == answer && *final(self) == *old(self),
                None => {
                    let before = table::entry_of(old(self).providers@, request.provider())->0;
                    let (after, answer) = served(
                        before,
                        nanos(provider_timeout(*old(self), before)),
                        request,
                        work,
                    );
                    &&& r.view() == answer
                    &&& forall|id: Seq<char>| #[trigger]
                        table::entry_of(final(self).providers@, id) == if id == request.provider() {
                            Some(after)
                        } else {
                            table::entry_of(old(self).providers@, id)
                        }
                },
            },
    {
        let (at, secs) = match self.route(&request, valid) {
            Ok(found) => found,
            Err(response) => {
                return response;
            },
        };
        let timeout: u128 = timeout_nanos(secs);
        let ghost before = self.providers@;
        let mut entry = self.providers.remove(at);
        let ghost id = table::id_of(entry);
        proof {
            table::without_present(before, at as int);
            table::without_sorted(before, id);
        }
        let response = match request {
            McpGatewayRequest::ProviderStatus { .. } => {
                let state = entry.lifecycle_state(work.lock, work.running);
                McpGatewayResponse::Success(McpGatewayResponsePayload::ProviderStatus { state })
            },
            McpGatewayRequest::ToolsList { .. } => {
                let listed = entry.with_connection(
                    work.lock,
                    work.spawned,
                    timeout,
                    work.elapsed,
                    work.listed,
                );
                tools_response(listed)
            },
            McpGatewayRequest::ToolsCall { name, expected_schema, .. } => {
                let budget: u128 = match remaining_budget(timeout, work.elapsed) {
                    Some(left) => left,
                    None => 0,
                };
                let outcome = match authorize_call(
                    work.listed,
                    name.as_str(),
                    &expected_schema,
                    budget,
                    work.call_elapsed,
                ) {
                    Ok(_) => work.called,
                    Err(failure) => Err(failure),
                };
                let called = entry.with_connection(
                    work.lock,
                    work.spawned,
                    timeout,
                    work.elapsed,
                    outcome,
                );
                call_response(called)
            },
        };
        proof {
            assert forall|other: Seq<char>|
                #![trigger table::entry_of(self.providers@, other)]
                table::entry_of(self.providers@, other) == if other == id {
                    None
                } else {
                    table::entry_of(before, other)
                } by {
                table::entry_of_without(before, id, other);
            }
        }
        place(&mut self.providers, entry);
        response
    }

    /// Stops the gateway: nothing is routed any more, and every connection is retired. Returns
    /// whether it was this call that stopped it.
    pub fn shutdown(&mut self) -> (r: bool)
        requires
            old(self).well_formed(),
        ensures
            final(self).well_formed(),
            final(self).stopping,
            final(self).request_timeout_secs == old(self).request_timeout_secs,
            r == !old(self).stopping,
            old(self).stopping ==> *final(self) == *old(self),
            !old(self).stopping ==> final(self).providers@.len() == old(self).providers@.len()
                && forall|i: int|
                0 <= i < final(self).providers@.len() ==> (#[trigger] final(self).providers@[i])@
                    == entry::retired(old(self).providers@[i]@),
    {
        if self.stopping {
            return false;
        }
        self.stopping = true;
        let ghost before = self.providers@;
        let mut at: usize = 0;
        while at < self.providers.len()
            invariant
                self.stopping,
                self.request_timeout_secs == old(self).request_timeout_secs,
                at <= self.providers@.len(),
                self.providers@.len() == before.len(),
                table::sorted(before),
                forall|i: int|
                    0 <= i < at ==> (#[trigger] self.providers@[i])@ == entry::retired(before[i]@)
                        && table::id_of(self.providers@[i]) == table::id_of(before[i]),
                forall|i: int| at <= i < before.len() ==> (#[trigger] self.providers@[i])
                    == before[i],
            decreases self.providers@.len() - at,
        {
            let entry = &mut self.providers[at];
            entry.shutdown_connection();
            at = at + 1;
        }
        proof {
            assert forall|i: int, j: int| 0 <= i < j < self.providers@.len() implies
                crate::text::precedes(
                table::id_of(#[trigger] self.providers@[i]),
                table::id_of(#[trigger] self.providers@[j]),
            ) by {
                assert(crate::text::precedes(table::id_of(before[i]), table::id_of(before[j])));
            }
        }
        true
    }
}

/// The timeout of a provider in seconds: its own, or the default.
pub open spec fn provider_timeout(manager: McpGatewayManager, provider: EntryView) -> u64 {
    match provider.config.timeout_secs {
        Some(secs) => secs,
        None => manager.request_timeout_secs,
    }
}

/// What a request is answered without being routed, if it is not routed.
pub open spec fn routing_refusal(
    manager: McpGatewayManager,
    request: McpGatewayRequest,
    valid: bool,
) -> Option<ResponseView> {
    if manager.stopping {
        Some(
            ResponseView::Error {
                dispatch_state: McpGatewayDispatchState::NotStarted,
                code: "runner_stopping",
                message: "Runner is stopping; provider request was not started",
            },
        )
    } else if !valid {
        Some(
            ResponseView::Error {
                dispatch_state: McpGatewayDispatchState::NotStarted,
                code: "invalid_bridge_request",
                message: "Bridge request failed bounded validation",
            },
        )
    } else {
        match table::entry_of(manager.providers@, request.provider()) {
            Some(found) => if found.instance_id == request.instance() {
                None
            } else {
                Some(stale_response())
            },
            None => Some(stale_response()),
        }
    }
}

// ---------------------------------------------------------------------------------------------
// Laws
// ---------------------------------------------------------------------------------------------
/// Every provider of a new configuration is kept, replaced or added.
pub proof fn changes_cover_the_configuration(
    before: Seq<ProviderEntry>,
    providers: Seq<McpGatewayProviderConfig>,
    n: int,
)
    requires
        0 <= n <= providers.len(),
    ensures
        count_changes(before, providers, n, ProviderChange::Preserved) + count_changes(
            before,
            providers,
            n,
            ProviderChange::Replaced,
        ) + count_changes(before, providers, n, ProviderChange::Added) == n,
    decreases n,
{
    if n > 0 {
        changes_cover_the_configuration(before, providers, n - 1);
    }
}

/// Every provider of before is kept, replaced or removed.
pub proof fn changes_cover_the_table(
    before: Seq<ProviderEntry>,
    providers: Seq<McpGatewayProviderConfig>,
    n: int,
)
    requires
        table::sorted(before),
        0 <= n <= providers.len(),
    ensures
        count_changes(before, providers, n, ProviderChange::Preserved) + count_changes(
            before,
            providers,
            n,
            ProviderChange::Replaced,
        ) + left_over(before, providers, n).len() == before.len(),
    decreases n,
{
    if n > 0 {
        changes_cover_the_table(before, providers, n - 1);
        let id = providers[n - 1].id.text@;
        let rest = left_over(before, providers, n - 1);
        left_over_facts(before, providers, n - 1, id);
        if table::entry_of(rest, id) is Some {
            let at = table::entry_position(rest, id);
            table::without_present(rest, at);
        } else {
            assert forall|i: int| 0 <= i < rest.len() implies table::id_of(#[trigger] rest[i])
                != id by {
                table::entry_found(rest, i);
            }
            table::without_absent(rest, id);
        }
    }
}

/// A provider that stands once in a new configuration, as it stood before, keeps its identity,
/// its lifecycle and its connection.
pub proof fn unchanged_provider_is_preserved(
    before: Seq<ProviderEntry>,
    providers: Seq<McpGatewayProviderConfig>,
    at: int,
    found: Option<EntryView>,
)
    requires
        0 <= at < providers.len(),
        forall|j: int|
            0 <= j < providers.len() && j != at ==> (#[trigger] providers[j]).id.text@
                != providers[at].id.text@,
        table::entry_of(before, providers[at].id.text@) matches Some(existing) && existing.config
            == providers[at]@,
        entry_follows(
            before,
            providers,
            providers.len() as int,
            providers[at].id.text@,
            found,
        ),
    ensures
        found == table::entry_of(before, providers[at].id.text@),
{
    let id = providers[at].id.text@;
    no_earlier(providers, at, id);
    last_is(providers, providers.len() as int, at, id);
}

/// A provider that stands once in a new configuration, other than it stood before, gets an
/// unused entry with the new configuration.
pub proof fn changed_provider_is_fresh(
    before: Seq<ProviderEntry>,
    providers: Seq<McpGatewayProviderConfig>,
    at: int,
    found: Option<EntryView>,
)
    requires
        0 <= at < providers.len(),
        forall|j: int|
            0 <= j < providers.len() && j != at ==> (#[trigger] providers[j]).id.text@
                != providers[at].id.text@,
        table::entry_of(before, providers[at].id.text@) matches Some(existing) ==> existing.config
            != providers[at]@,
        entry_follows(
            before,
            providers,
            providers.len() as int,
            providers[at].id.text@,
            found,
        ),
    ensures
        found matches Some(entry) && entry::is_fresh(entry, providers[at]@),
{
    let id = providers[at].id.text@;
    no_earlier(providers, at, id);
    last_is(providers, providers.len() as int, at, id);
}

/// A provider that is not in a new configuration is not in the table after it.
pub proof fn removed_provider_is_gone(
    before: Seq<ProviderEntry>,
    providers: Seq<McpGatewayProviderConfig>,
    id: Seq<char>,
    found: Option<EntryView>,
)
    requires
        forall|j: int| 0 <= j < providers.len() ==> (#[trigger] providers[j]).id.text@ != id,
        entry_follows(before, providers, providers.len() as int, id, found),
    ensures
        found is None,
{
    no_earlier(providers, providers.len() as int, id);
}

proof fn no_earlier(providers: Seq<McpGatewayProviderConfig>, n: int, id: Seq<char>)
    requires
        0 <= n <= providers.len(),
        forall|j: int| 0 <= j < n ==> (#[trigger] providers[j]).id.text@ != id,
    ensures
        last_with(providers, n, id) is None,
    decreases n,
{
    if n > 0 {
        assert(providers[n - 1].id.text@ != id);
        no_earlier(providers, n - 1, id);
    }
}

proof fn last_is(providers: Seq<McpGatewayProviderConfig>, n: int, at: int, id: Seq<char>)
    requires
        0 <= at < n <= providers.len(),
        providers[at].id.text@ == id,
        forall|j: int| at < j < n ==> (#[trigger] providers[j]).id.text@ != id,
    ensures
        last_with(providers, n, id) == Some(at),
    decreases n,
{
    if n - 1 > at {
        assert(providers[n - 1].id.text@ != id);
        last_is(providers, n - 1, at, id);
    }
}

/// A request that is not routed is answered as not started.
pub proof fn refused_requests_are_not_started(
    manager: McpGatewayManager,
    request: McpGatewayRequest,
    valid: bool,
)
    ensures
        routing_refusal(manager, request, valid) matches Some(answer) ==> answer matches
            ResponseView::Error { dispatch_state, .. } && dispatch_state
            == McpGatewayDispatchState::NotStarted,
{
}

/// A request for an instance other than the one in the table is not routed to that one: it is
/// answered as stale.
pub proof fn other_instances_are_stale(manager: McpGatewayManager, request: McpGatewayRequest)
    requires
        !manager.stopping,
        !(table::entry_of(manager.providers@, request.provider()) matches Some(found)
            && found.instance_id == request.instance()),
    ensures
        routing_refusal(manager, request, true) == Some(stale_response()),
{
}

/// A call of a tool that is missing or not as it was observed never goes out: it fails as not
/// started, whatever a call would have given, and does not cost the connection.
pub proof fn changed_schema_blocks_the_call(
    tools: Seq<ToolView>,
    name: Seq<char>,
    expected: McpGatewaySchemaObservation,
    budget: u128,
    elapsed: u128,
    called: Result<ToolResultView, ProviderFailure>,
)
    requires
        forall|i: int|
            0 <= i < tools.len() && (#[trigger] tools[i]).name == name ==> !tools::observed(
                tools[i],
                expected,
            ),
    ensures
        call_outcome(Ok(tools), name, expected, budget, elapsed, called) matches Err(failure)
            && failure.dispatch_state == McpGatewayDispatchState::NotStarted && !failure.fatal,
{
    refusal_when_none_observed(tools, name, expected);
}

proof fn refusal_when_none_observed(
    tools: Seq<ToolView>,
    name: Seq<char>,
    expected: McpGatewaySchemaObservation,
)
    requires
        forall|i: int|
            0 <= i < tools.len() && (#[trigger] tools[i]).name == name ==> !tools::observed(
                tools[i],
                expected,
            ),
    ensures
        tools::call_refusal(tools, name, expected) matches Some(failure) && failure.dispatch_state
            == McpGatewayDispatchState::NotStarted && !failure.fatal,
    decreases tools.len(),
{
    if tools.len() > 0 && tools[0].name != name {
        assert forall|i: int|
            0 <= i < tools.skip(1).len() && (#[trigger] tools.skip(1)[i]).name
                == name implies !tools::observed(tools.skip(1)[i], expected) by {
            assert(tools.skip(1)[i] == tools[i + 1]);
        }
        refusal_when_none_observed(tools.skip(1), name, expected);
    }
}

/// A failure of the listing before a call is never reported as sent.
pub proof fn failed_listing_is_not_started(
    failure: ProviderFailure,
    name: Seq<char>,
    expected: McpGatewaySchemaObservation,
    budget: u128,
    elapsed: u128,
    called: Result<ToolResultView, ProviderFailure>,
)
    ensures
        call_outcome(Err(failure), name, expected, budget, elapsed, called) == Err::<
            ToolResultView,
            ProviderFailure,
        >(rpc::failed_preflight(failure)),
{
}

/// A call goes through exactly where the tools could be listed, the tool is there as it was
/// observed, and time is left; then its outcome is the provider's, unchanged. A call that does not
/// go through is never reported as sent, and says which of these kept it.
pub proof fn calls_go_through_exactly_when_allowed(
    listed: Result<Seq<ToolView>, ProviderFailure>,
    name: Seq<char>,
    expected: McpGatewaySchemaObservation,
    budget: u128,
    elapsed: u128,
    called: Result<ToolResultView, ProviderFailure>,
)
    ensures
        ({
            let outcome = call_outcome(listed, name, expected, budget, elapsed, called);
            let allowed = listed is Ok && tools::call_refusal(
                listed->Ok_0,
                name,
                expected,
            ) is None;
            &&& allowed && elapsed < budget ==> outcome == called
            &&& allowed && elapsed >= budget ==> outcome is Err && outcome->Err_0.code
                == "provider_timeout" && outcome->Err_0.dispatch_state
                == McpGatewayDispatchState::NotStarted && !outcome->Err_0.fatal
            &&& listed is Err ==> outcome is Err && outcome->Err_0.code == listed->Err_0.code
                && outcome->Err_0.dispatch_state == McpGatewayDispatchState::NotStarted
                && outcome->Err_0.fatal == listed->Err_0.fatal
            &&& listed is Ok && !allowed ==> outcome is Err && outcome->Err_0
                == tools::call_refusal(listed->Ok_0, name, expected)->0
        }),
{
}

/// A request is routed exactly where the runner is not stopping, the request is valid, and the
/// provider that it names stands in the table as the instance that it names. Each refusal has its
/// own code.
pub proof fn requests_reach_only_their_instance(
    manager: McpGatewayManager,
    request: McpGatewayRequest,
    valid: bool,
)
    ensures
        ({
            let entry = table::entry_of(manager.providers@, request.provider());
            let there = entry is Some && (entry->0).instance_id == request.instance();
            &&& routing_refusal(manager, request, valid) is None <==> !manager.stopping && valid
                && there
            &&& routing_refusal(manager, request, valid) matches Some(answer)
                ==> answer matches ResponseView::Error { dispatch_state, code, .. }
                && dispatch_state == McpGatewayDispatchState::NotStarted && code
                == if manager.stopping {
                "runner_stopping"
            } else if !valid {
                "invalid_bridge_request"
            } else {
                "stale_provider"
            }
        }),
{
}

/// What a request names is what is written in it, whatever its kind.
pub proof fn requests_name_their_provider(
    id: String,
    instance: String,
    name: String,
    arguments: serde_json::Value,
    expected: McpGatewaySchemaObservation,
)
    ensures
        (McpGatewayRequest::ProviderStatus { provider_id: id, provider_instance_id: instance
        }).provider() == id@,
        (McpGatewayRequest::ProviderStatus { provider_id: id, provider_instance_id: instance
        }).instance() == instance@,
        (McpGatewayRequest::ToolsList { provider_id: id, provider_instance_id: instance
        }).provider() == id@,
        (McpGatewayRequest::ToolsList { provider_id: id, provider_instance_id: instance
        }).instance() == instance@,
        (McpGatewayRequest::ToolsCall {
            provider_id: id,
            provider_instance_id: instance,
            name,
            arguments,
            expected_schema: expected,
        }).provider() == id@,
        (McpGatewayRequest::ToolsCall {
            provider_id: id,
            provider_instance_id: instance,
            name,
            arguments,
            expected_schema: expected,
        }).instance() == instance@,
{
}

/// A request on a provider that can be used is answered with what the provider gave: the tools
/// that it listed, the result of the call, or its failure with the code and the state that the
/// failure has.
pub proof fn answers_carry_what_the_provider_gave(
    before: EntryView,
    timeout: u128,
    request: McpGatewayRequest,
    work: ProviderWork,
)
    requires
        work.lock == SessionLock::Free,
        before.connected || work.spawned is Ok,
        work.elapsed < timeout,
    ensures
        ({
            let (after, answer) = served(before, timeout, request, work);
            &&& request is ToolsList ==> match work.listed {
                Ok(tools) => answer == ResponseView::Tools(tools::tools_view(tools@)),
                Err(failure) => answer matches ResponseView::Error { dispatch_state, code, .. }
                    && code == failure.code && dispatch_state == failure.dispatch_state,
            }
            &&& request matches McpGatewayRequest::ToolsCall { name, expected_schema, .. } ==> {
                let allowed = work.listed is Ok && tools::call_refusal(
                    tools::tools_view((work.listed->Ok_0)@),
                    name@,
                    expected_schema,
                ) is None && work.elapsed + work.call_elapsed < timeout;
                &&& allowed ==> match work.called {
                    Ok(result) => answer == ResponseView::ToolResult(result.view()),
                    Err(failure) => answer matches ResponseView::Error { dispatch_state, code, .. }
                        && code == failure.code && dispatch_state == failure.dispatch_state,
                }
                &&& !allowed ==> (answer matches ResponseView::Error { dispatch_state, .. }
                    && dispatch_state == McpGatewayDispatchState::NotStarted)
            }
            &&& request is ProviderStatus ==> answer is Status
            &&& after.config == before.config && after.instance_id == before.instance_id
        }),
{
    match request {
        McpGatewayRequest::ToolsCall { name, expected_schema, .. } => {
            if work.listed is Ok {
                let tools = tools::tools_view((work.listed->Ok_0)@);
                refusals_are_not_started(tools, name@, expected_schema);
            }
        },
        _ => {},
    }
}

proof fn refusals_are_not_started(
    tools: Seq<ToolView>,
    name: Seq<char>,
    expected: McpGatewaySchemaObservation,
)
    ensures
        tools::call_refusal(tools, name, expected) matches Some(failure) ==> failure.dispatch_state
            == McpGatewayDispatchState::NotStarted,
    decreases tools.len(),
{
    if tools.len() > 0 && tools[0].name != name {
        refusals_are_not_started(tools.skip(1), name, expected);
    }
}

/// A request on a provider that cannot be used is answered with an error that says that it was
/// not started; a status is answered all the same.
pub proof fn unusable_providers_answer_not_started(
    before: EntryView,
    timeout: u128,
    request: McpGatewayRequest,
    work: ProviderWork,
)
    requires
        work.lock != SessionLock::Free || (!before.connected && work.spawned is Err)
            || work.elapsed >= timeout,
    ensures
        ({
            let (after, answer) = served(before, timeout, request, work);
            &&& request is ProviderStatus ==> answer == ResponseView::Status(
                entry::status_of(before, work.lock, work.running).1,
            )
            &&& !(request is ProviderStatus) ==> (answer matches ResponseView::Error {
                dispatch_state,
                ..
            } && dispatch_state == McpGatewayDispatchState::NotStarted)
            &&& work.lock == SessionLock::Busy ==> after == before
        }),
{
}

/// The time that a request may take is the provider's own or that of the gateway, which is between
/// one and 120 seconds and as configured where that is within the bounds.
pub proof fn timeouts_are_bounded(manager: McpGatewayManager, provider: EntryView, secs: u64)
    ensures
        1 <= clamped_timeout(secs) <= 120,
        1 <= secs <= 120 ==> clamped_timeout(secs) == secs,
        secs == 0 ==> clamped_timeout(secs) == 1,
        secs > 120 ==> clamped_timeout(secs) == 120,
        provider.config.timeout_secs is Some ==> provider_timeout(manager, provider)
            == provider.config.timeout_secs->0,
        provider.config.timeout_secs is None ==> provider_timeout(manager, provider)
            == manager.request_timeout_secs,
        nanos(secs) == secs as int * 1000000000,
{
    assert(secs as int * 1000000000 <= u128::MAX) by (nonlinear_arith)
        requires
            0 <= secs <= 18446744073709551615u64,
    ;
}

/// An answer to a failure has its code and its state, and tells the caller whether to try again:
/// not where the outcome is unknown.
pub proof fn failures_keep_their_code_and_state(failure: ProviderFailure)
    ensures
        failure_response(failure) matches ResponseView::Error { dispatch_state, code, message }
            && dispatch_state == failure.dispatch_state && code == failure.code && message
            == failure_message(failure.dispatch_state),
        listing_response(Err(failure)) == failure_response(failure),
        calling_response(Err(failure)) == failure_response(failure),
        forall|tools: Seq<ToolView>| #[trigger]
            listing_response(Ok(tools)) == ResponseView::Tools(tools),
        forall|result: ToolResultView| #[trigger]
            calling_response(Ok(result)) == ResponseView::ToolResult(result),
{
}

/// What a new configuration does to a provider that stands in it once is told by the table: it is
/// added where no entry has its id, kept where the entry of its id has the same configuration, and
/// replaced otherwise.
pub proof fn changes_are_told_by_the_table(
    before: Seq<ProviderEntry>,
    providers: Seq<McpGatewayProviderConfig>,
    at: int,
)
    requires
        table::sorted(before),
        0 <= at < providers.len(),
        forall|j: int|
            0 <= j < at ==> (#[trigger] providers[j]).id.text@ != providers[at].id.text@,
    ensures
        forall|i: int|
            0 <= i < before.len() && (#[trigger] before[i]).config.id.text@
                == providers[at].id.text@ ==> change_of(before, providers, at) == if before[i].config@
                == providers[at]@ {
                ProviderChange::Preserved
            } else {
                ProviderChange::Replaced
            },
        (forall|i: int|
            0 <= i < before.len() ==> (#[trigger] before[i]).config.id.text@
                != providers[at].id.text@) ==> change_of(before, providers, at)
            == ProviderChange::Added,
{
    let id = providers[at].id.text@;
    no_earlier(providers, at, id);
    assert forall|i: int|
        0 <= i < before.len() && (#[trigger] before[i]).config.id.text@ == id implies change_of(
        before,
        providers,
        at,
    ) == if before[i].config@ == providers[at]@ {
        ProviderChange::Preserved
    } else {
        ProviderChange::Replaced
    } by {
        table::entry_found(before, i);
    }
    if forall|i: int| 0 <= i < before.len() ==> (#[trigger] before[i]).config.id.text@ != id {
        assert forall|i: int| 0 <= i < before.len() implies table::id_of(#[trigger] before[i])
            != id by {
            assert(before[i].config.id.text@ != id);
        }
        table::entry_absent(before, id);
    }
}

/// The entries that a new configuration leaves over are exactly those whose ids it does not name.
pub proof fn unnamed_providers_are_left_over(
    before: Seq<ProviderEntry>,
    providers: Seq<McpGatewayProviderConfig>,
    id: Seq<char>,
)
    requires
        table::sorted(before),
    ensures
        (exists|j: int| 0 <= j < providers.len() && (#[trigger] providers[j]).id.text@ == id)
            ==> table::entry_of(left_over(before, providers, providers.len() as int), id) is None,
        (forall|j: int| 0 <= j < providers.len() ==> (#[trigger] providers[j]).id.text@ != id)
            ==> table::entry_of(left_over(before, providers, providers.len() as int), id)
            == table::entry_of(before, id),
{
    let n = providers.len() as int;
    left_over_facts(before, providers, n, id);
    if forall|j: int| 0 <= j < providers.len() ==> (#[trigger] providers[j]).id.text@ != id {
        no_earlier(providers, n, id);
    }
    if exists|j: int| 0 <= j < providers.len() && (#[trigger] providers[j]).id.text@ == id {
        let j = choose|j: int| 0 <= j < providers.len() && (#[trigger] providers[j]).id.text@ == id;
        some_last(providers, n, j, id);
    }
}

proof fn some_last(providers: Seq<McpGatewayProviderConfig>, n: int, at: int, id: Seq<char>)
    requires
        0 <= at < n <= providers.len(),
        providers[at].id.text@ == id,
    ensures
        last_with(providers, n, id) is Some,
    decreases n,
{
    if n - 1 > at {
        some_last(providers, n - 1, at, id);
    }
}

/// A failure is explained by how far the request got: one that did not start had no effect, one of
/// which the outcome is unknown must not be retried by itself, and one that completed was refused.
pub proof fn failures_are_explained_by_their_state(failure: ProviderFailure)
    ensures
        failure_response(failure) matches ResponseView::Error { dispatch_state, code, message }
            && dispatch_state == failure.dispatch_state && code == failure.code && message
            == match failure.dispatch_state {
            McpGatewayDispatchState::NotStarted =>
                "Provider request was not started; no downstream effect was dispatched",
            McpGatewayDispatchState::OutcomeUnknown =>
                "Provider request may have been dispatched; outcome is unknown and must not be retried automatically",
            McpGatewayDispatchState::Completed =>
                "Provider completed the request-response exchange but returned a downstream error or unsupported/invalid bounded result",
        },
{
}

} // verus!
