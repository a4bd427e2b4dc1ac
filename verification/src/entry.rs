//! One configured provider: its identity, its lifecycle, and who may use its connection.
use crate::config::{McpGatewayProviderConfig, McpProviderView};
use crate::rpc::{self, ProviderFailure};
use vstd::prelude::*;

verus! {

/// Whether a provider was ever started, and how its connection stood last.
#[derive(Debug, Clone, Copy, PartialEq, Eq, Structural)]
pub enum ProviderLifecycle {
    NeverStarted,
    Healthy,
    ConnectionRetired,
}

/// What a provider is reported as.
#[derive(Debug, Clone, Copy, PartialEq, Eq, Structural)]
pub enum McpGatewayProviderState {
    NeverStarted,
    Healthy,
    Busy,
    ConnectionRetired,
}

/// What an attempt to take the connection of a provider gives.
#[derive(Debug, Clone, Copy, PartialEq, Eq, Structural)]
pub enum SessionLock {
    Free,
    Busy,
    Poisoned,
}

/// How a provider is advertised: what routes to it and its name, and nothing of how it is
/// started.
#[derive(Debug, PartialEq, Eq)]
pub struct McpGatewayProvider {
    pub provider_id: String,
    pub provider_instance_id: String,
    pub name: String,
}

/// A configured provider under one process-lifetime identity.
#[derive(Debug)]
pub struct ProviderEntry {
    pub config: McpGatewayProviderConfig,
    pub instance_id: String,
    pub lifecycle: ProviderLifecycle,
    pub connected: bool,
}

/// The content of a provider entry.
pub struct EntryView {
    pub config: McpProviderView,
    pub instance_id: Seq<char>,
    pub lifecycle: ProviderLifecycle,
    pub connected: bool,
}

impl View for ProviderEntry {
    type V = EntryView;

    open spec fn view(&self) -> EntryView {
        EntryView {
            config: self.config@,
            instance_id: self.instance_id@,
            lifecycle: self.lifecycle,
            connected: self.connected,
        }
    }
}

/// A lower-case hexadecimal digit.
pub open spec fn hex_digit(c: char) -> bool {
    '0' <= c <= '9' || 'a' <= c <= 'f'
}

/// The text of a random identifier: 32 hexadecimal digits, with the version and the variant in
/// their places.
pub open spec fn is_instance_id(id: Seq<char>) -> bool {
    &&& id.len() == 32
    &&& forall|i: int| 0 <= i < 32 ==> hex_digit(#[trigger] id[i])
    &&& id[12] == '4'
    &&& (id[16] == '8' || id[16] == '9' || id[16] == 'a' || id[16] == 'b')
}

/// `uuid::Uuid::new_v4`, written without hyphens: 32 lower-case hexadecimal digits of a random
/// version 4 identifier. That two of them differ is a matter of chance and not claimed.
#[verifier::external_body]
fn fresh_instance_id() -> (r: String)
    ensures
        is_instance_id(r@),
{
    uuid::Uuid::new_v4().simple().to_string()
}

/// A provider that was configured and not used yet.
pub open spec fn is_fresh(entry: EntryView, config: McpProviderView) -> bool {
    &&& entry.config == config
    &&& is_instance_id(entry.instance_id)
    &&& entry.lifecycle == ProviderLifecycle::NeverStarted
    &&& !entry.connected
}

/// The entry with its connection gone.
pub open spec fn retired(entry: EntryView) -> EntryView {
    EntryView { lifecycle: ProviderLifecycle::ConnectionRetired, connected: false, ..entry }
}

/// The entry with a live connection.
pub open spec fn healthy(entry: EntryView) -> EntryView {
    EntryView { lifecycle: ProviderLifecycle::Healthy, connected: true, ..entry }
}

/// What a provider is reported as, and what the look leaves behind. `running` says whether the
/// process of its connection runs.
pub open spec fn status_of(entry: EntryView, lock: SessionLock, running: bool) -> (
    EntryView,
    McpGatewayProviderState,
) {
    match lock {
        SessionLock::Busy => (entry, McpGatewayProviderState::Busy),
        SessionLock::Poisoned => (entry, McpGatewayProviderState::ConnectionRetired),
        SessionLock::Free => if entry.connected {
            if running {
                (healthy(entry), McpGatewayProviderState::Healthy)
            } else {
                (retired(entry), McpGatewayProviderState::ConnectionRetired)
            }
        } else if entry.lifecycle == ProviderLifecycle::NeverStarted {
            (entry, McpGatewayProviderState::NeverStarted)
        } else {
            (entry, McpGatewayProviderState::ConnectionRetired)
        },
    }
}

/// Why the connection cannot be taken, if it cannot.
pub open spec fn lock_failure(lock: SessionLock) -> Option<ProviderFailure> {
    match lock {
        SessionLock::Free => None,
        SessionLock::Busy => Some(rpc::failed_not_started("provider_busy")),
        SessionLock::Poisoned => Some(rpc::failed_before_send("provider_unavailable")),
    }
}

/// What is left of a time budget, in nanoseconds, or nothing.
pub open spec fn budget_left(timeout: u128, elapsed: u128) -> Option<u128> {
    if elapsed < timeout {
        Some((timeout - elapsed) as u128)
    } else {
        None
    }
}

/// What an operation on a provider comes to, and what it leaves behind. `spawned` is the outcome
/// of the start that a provider without a connection needs, `elapsed` the time that it took of
/// `timeout`, `result` the outcome of the operation itself.
pub open spec fn operation_outcome<T>(
    entry: EntryView,
    lock: SessionLock,
    spawned: Result<(), ProviderFailure>,
    timeout: u128,
    elapsed: u128,
    result: Result<T, ProviderFailure>,
) -> (EntryView, Result<T, ProviderFailure>) {
    if lock_failure(lock) is Some {
        (entry, Err(lock_failure(lock)->0))
    } else if !entry.connected && spawned is Err {
        (
            EntryView { lifecycle: ProviderLifecycle::ConnectionRetired, ..entry },
            Err(rpc::failed_preflight(spawned->Err_0)),
        )
    } else if budget_left(timeout, elapsed) is None {
        (retired(entry), Err(rpc::failed_before_send("provider_timeout")))
    } else {
        let ready = if entry.connected {
            entry
        } else {
            healthy(entry)
        };
        match result {
            Ok(value) => (ready, Ok(value)),
            Err(failure) => if failure.fatal {
                (retired(ready), Err(failure))
            } else {
                (ready, Err(failure))
            },
        }
    }
}

/// Returns what is left of a time budget, in nanoseconds.
pub fn remaining_budget(timeout: u128, elapsed: u128) -> (r: Option<u128>)
    ensures
        r == budget_left(timeout, elapsed),
{
    if elapsed < timeout {
        Some(timeout - elapsed)
    } else {
        None
    }
}

impl ProviderEntry {
    /// A provider under a new identity.
    pub fn new(config: McpGatewayProviderConfig) -> (r: Self)
        ensures
            is_fresh(r@, config@),
            r.config == config,
    {
        ProviderEntry {
            config,
            instance_id: fresh_instance_id(),
            lifecycle: ProviderLifecycle::NeverStarted,
            connected: false,
        }
    }

    /// Retires the connection without waiting for a request that holds it: such a request keeps
    /// it until it is done.
    pub fn retire_connection_nonblocking(&mut self, lock: SessionLock)
        ensures
            final(self)@ == (EntryView {
                lifecycle: ProviderLifecycle::ConnectionRetired,
                connected: old(self)@.connected && lock == SessionLock::Busy,
                ..old(self)@
            }),
            final(self).config == old(self).config,
    {
        self.lifecycle = ProviderLifecycle::ConnectionRetired;
        match lock {
            SessionLock::Busy => {},
            _ => {
                self.connected = false;
            },
        }
    }

    /// Retires the connection.
    pub fn shutdown_connection(&mut self)
        ensures
            final(self)@ == retired(old(self)@),
            final(self).config == old(self).config,
    {
        self.connected = false;
        self.lifecycle = ProviderLifecycle::ConnectionRetired;
    }

    /// Returns how the provider is advertised.
    pub fn advertisement(&self) -> (r: McpGatewayProvider)
        ensures
            r.provider_id@ == self@.config.id,
            r.provider_instance_id@ == self@.instance_id,
            r.name@ == self@.config.name,
    {
        McpGatewayProvider {
            provider_id: self.config.id.text.clone(),
            provider_instance_id: self.instance_id.clone(),
            name: self.config.name.text.clone(),
        }
    }

    /// Returns the request timeout of the provider in seconds: its own, or the default.
    pub fn request_timeout(&self, default_secs: u64) -> (r: u64)
        ensures
            r == match self.config.timeout_secs {
                Some(secs) => secs,
                None => default_secs,
            },
    {
        match self.config.timeout_secs {
            Some(secs) => secs,
            None => default_secs,
        }
    }

    /// Reports the provider without starting anything. A connection whose process has ended is
    /// retired by the look.
    pub fn lifecycle_state(&mut self, lock: SessionLock, running: bool) -> (r:
        McpGatewayProviderState)
        ensures
            (final(self)@, r) == status_of(old(self)@, lock, running),
            final(self).config == old(self).config,
    {
        match lock {
            SessionLock::Busy => {
                return McpGatewayProviderState::Busy;
            },
            SessionLock::Poisoned => {
                return McpGatewayProviderState::ConnectionRetired;
            },
            SessionLock::Free => {},
        }
        if self.connected {
            if running {
                self.lifecycle = ProviderLifecycle::Healthy;
                return McpGatewayProviderState::Healthy;
            }
            self.connected = false;
            self.lifecycle = ProviderLifecycle::ConnectionRetired;
            return McpGatewayProviderState::ConnectionRetired;
        }
        match self.lifecycle {
            ProviderLifecycle::NeverStarted => McpGatewayProviderState::NeverStarted,
            _ => McpGatewayProviderState::ConnectionRetired,
        }
    }

    /// Says whether the provider must be started before it can be used, or why it cannot be.
    pub fn claim_session(&self, lock: SessionLock) -> (r: Result<bool, ProviderFailure>)
        ensures
            match lock_failure(lock) {
                Some(failure) => r == Result::<bool, ProviderFailure>::Err(failure),
                None => r == Ok::<bool, ProviderFailure>(!self.connected),
            },
    {
        match lock {
            SessionLock::Busy => Err(ProviderFailure::not_started("provider_busy")),
            SessionLock::Poisoned => Err(ProviderFailure::before_send("provider_unavailable")),
            SessionLock::Free => Ok(!self.connected),
        }
    }

    /// Records the outcome of a start. A start is not the request that asked for it: where it
    /// fails, that request has not started.
    pub fn record_spawn(&mut self, spawned: Result<(), ProviderFailure>) -> (r: Result<
        (),
        ProviderFailure,
    >)
        ensures
            match spawned {
                Ok(_) => r is Ok && final(self)@ == healthy(old(self)@),
                Err(failure) => r == Result::<(), ProviderFailure>::Err(
                    rpc::failed_preflight(failure),
                ) && final(self)@ == (EntryView {
                    lifecycle: ProviderLifecycle::ConnectionRetired,
                    ..old(self)@
                }),
            },
            final(self).config == old(self).config,
    {
        match spawned {
            Ok(_) => {
                self.lifecycle = ProviderLifecycle::Healthy;
                self.connected = true;
                Ok(())
            },
            Err(failure) => {
                self.lifecycle = ProviderLifecycle::ConnectionRetired;
                Err(ProviderFailure::preflight(failure))
            },
        }
    }

    /// Returns what is left of the time budget for the operation. Where nothing is left the
    /// connection is retired.
    pub fn claim_budget(&mut self, timeout: u128, elapsed: u128) -> (r: Result<
        u128,
        ProviderFailure,
    >)
        ensures
            match budget_left(timeout, elapsed) {
                Some(left) => r == Ok::<u128, ProviderFailure>(left) && final(self)@ == old(self)@,
                None => r == Result::<u128, ProviderFailure>::Err(
                    rpc::failed_before_send("provider_timeout"),
                ) && final(self)@ == retired(old(self)@),
            },
            final(self).config == old(self).config,
    {
        match remaining_budget(timeout, elapsed) {
            Some(left) => Ok(left),
            None => {
                self.lifecycle = ProviderLifecycle::ConnectionRetired;
                self.connected = false;
                Err(ProviderFailure::before_send("provider_timeout"))
            },
        }
    }

    /// Records the outcome of an operation. A failure that costs the connection retires it, and
    /// the operation is not repeated.
    pub fn record_result<T>(&mut self, result: Result<T, ProviderFailure>) -> (r: Result<
        T,
        ProviderFailure,
    >)
        ensures
            r == result,
            final(self)@ == match result {
                Ok(_) => old(self)@,
                Err(failure) => if failure.fatal {
                    retired(old(self)@)
                } else {
                    old(self)@
                },
            },
            final(self).config == old(self).config,
    {
        match result {
            Ok(value) => Ok(value),
            Err(failure) => {
                if failure.fatal {
                    self.lifecycle = ProviderLifecycle::ConnectionRetired;
                    self.connected = false;
                }
                Err(failure)
            },
        }
    }

    /// Runs one operation on a provider over what the host gave.
    pub fn with_connection<T>(
        &mut self,
        lock: SessionLock,
        spawned: Result<(), ProviderFailure>,
        timeout: u128,
        elapsed: u128,
        result: Result<T, ProviderFailure>,
    ) -> (r: Result<T, ProviderFailure>)
        ensures
            (final(self)@, r) == operation_outcome(
                old(self)@,
                lock,
                spawned,
                timeout,
                elapsed,
                result,
            ),
            final(self).config == old(self).config,
    {
        let needs_start = self.claim_session(lock)?;
        if needs_start {
            self.record_spawn(spawned)?;
        }
        self.claim_budget(timeout, elapsed)?;
        self.record_result(result)
    }
}

// ---------------------------------------------------------------------------------------------
// Laws
// ---------------------------------------------------------------------------------------------
/// Whatever an operation comes to, the identity and the configuration of the provider stay: a
/// later request may start a new connection under the same identity.
pub proof fn operations_keep_identity<T>(
    entry: EntryView,
    lock: SessionLock,
    spawned: Result<(), ProviderFailure>,
    timeout: u128,
    elapsed: u128,
    result: Result<T, ProviderFailure>,
)
    ensures
        operation_outcome(entry, lock, spawned, timeout, elapsed, result).0.instance_id
            == entry.instance_id,
        operation_outcome(entry, lock, spawned, timeout, elapsed, result).0.config == entry.config,
{
}

/// A failed start is never reported as sent, whatever the handshake got to.
pub proof fn failed_start_is_not_started<T>(
    entry: EntryView,
    spawned: Result<(), ProviderFailure>,
    timeout: u128,
    elapsed: u128,
    result: Result<T, ProviderFailure>,
)
    requires
        !entry.connected,
        spawned is Err,
    ensures
        ({
            let (after, outcome) = operation_outcome(
                entry,
                SessionLock::Free,
                spawned,
                timeout,
                elapsed,
                result,
            );
            &&& outcome matches Err(failure) && failure.dispatch_state
                == rpc::McpGatewayDispatchState::NotStarted && failure.code == spawned->Err_0.code
            &&& !after.connected
        }),
{
}

/// An operation that fails fatally leaves no connection behind, and one that fails otherwise on a
/// connected provider leaves the connection as it was.
pub proof fn fatal_failures_retire_the_connection<T>(
    entry: EntryView,
    spawned: Result<(), ProviderFailure>,
    timeout: u128,
    elapsed: u128,
    result: Result<T, ProviderFailure>,
)
    requires
        entry.connected,
    ensures
        ({
            let (after, outcome) = operation_outcome(
                entry,
                SessionLock::Free,
                spawned,
                timeout,
                elapsed,
                result,
            );
            outcome matches Err(failure) ==> (if failure.fatal {
                after == retired(entry)
            } else {
                after == entry
            })
        }),
{
}

/// A look at the status starts nothing: it never connects a provider.
pub proof fn status_is_passive(entry: EntryView, lock: SessionLock, running: bool)
    ensures
        status_of(entry, lock, running).0.connected ==> entry.connected,
        status_of(entry, lock, running).0.instance_id == entry.instance_id,
        status_of(entry, lock, running).0.config == entry.config,
        status_of(entry, lock, running).0.lifecycle == ProviderLifecycle::NeverStarted
            ==> entry.lifecycle == ProviderLifecycle::NeverStarted,
{
}

/// Two entries have the same content exactly where they hold the same configuration, identity,
/// lifecycle and connection.
pub proof fn entries_compare_by_content(a: ProviderEntry, b: ProviderEntry)
    ensures
        a@ == b@ <==> a.config@ == b.config@ && a.instance_id@ == b.instance_id@ && a.lifecycle
            == b.lifecycle && a.connected == b.connected,
{
}

/// A provider whose connection can be taken, that is or gets connected, and that has time left,
/// passes on the outcome of the operation unchanged, whatever it is. Its connection stays unless
/// the outcome is a failure that costs it.
pub proof fn outcomes_are_passed_on<T>(
    entry: EntryView,
    spawned: Result<(), ProviderFailure>,
    timeout: u128,
    elapsed: u128,
    result: Result<T, ProviderFailure>,
)
    requires
        entry.connected || spawned is Ok,
        elapsed < timeout,
    ensures
        ({
            let (after, outcome) = operation_outcome(
                entry,
                SessionLock::Free,
                spawned,
                timeout,
                elapsed,
                result,
            );
            &&& outcome == result
            &&& after.connected <==> !(result matches Err(failure) && failure.fatal)
            &&& after.config == entry.config && after.instance_id == entry.instance_id
            &&& !after.connected ==> after.lifecycle == ProviderLifecycle::ConnectionRetired
            &&& after.connected && !entry.connected ==> after.lifecycle
                == ProviderLifecycle::Healthy
            &&& after.connected && entry.connected ==> after.lifecycle == entry.lifecycle
        }),
{
}

/// A provider whose connection is taken or lost is left as it is, and the operation is refused
/// with the reason; one that could not be started or that has no time left loses its connection.
/// None of these operations is reported as sent.
pub proof fn operations_that_cannot_begin<T>(
    entry: EntryView,
    lock: SessionLock,
    spawned: Result<(), ProviderFailure>,
    timeout: u128,
    elapsed: u128,
    result: Result<T, ProviderFailure>,
)
    requires
        lock != SessionLock::Free || (!entry.connected && spawned is Err) || elapsed >= timeout,
    ensures
        ({
            let (after, outcome) = operation_outcome(
                entry,
                lock,
                spawned,
                timeout,
                elapsed,
                result,
            );
            &&& outcome matches Err(failure) && failure.dispatch_state
                == rpc::McpGatewayDispatchState::NotStarted
            &&& lock == SessionLock::Busy ==> after == entry && outcome->Err_0.code
                == "provider_busy" && !outcome->Err_0.fatal
            &&& lock == SessionLock::Poisoned ==> after == entry && outcome->Err_0.code
                == "provider_unavailable" && outcome->Err_0.fatal
            &&& lock == SessionLock::Free ==> !after.connected && after.lifecycle
                == ProviderLifecycle::ConnectionRetired
            &&& lock == SessionLock::Free && !entry.connected && spawned is Err
                ==> outcome->Err_0.code == spawned->Err_0.code && outcome->Err_0.fatal
                == spawned->Err_0.fatal
            &&& lock == SessionLock::Free && (entry.connected || spawned is Ok)
                ==> outcome->Err_0.code == "provider_timeout" && outcome->Err_0.fatal
        }),
{
}

/// Time is left exactly where not all of it is used up, and what is left and what is used up make
/// the whole.
pub proof fn budgets_add_up(timeout: u128, elapsed: u128)
    ensures
        budget_left(timeout, elapsed) is Some <==> elapsed < timeout,
        budget_left(timeout, elapsed) matches Some(left) ==> left > 0 && left + elapsed == timeout,
{
}

/// A status says what a look at the provider shows: busy where a request holds it, healthy exactly
/// where its process runs, never started exactly where it was never started, and retired
/// otherwise. The look changes nothing but what it found out of a connection.
pub proof fn statuses_tell_what_is_there(entry: EntryView, lock: SessionLock, running: bool)
    ensures
        ({
            let (after, state) = status_of(entry, lock, running);
            &&& state == McpGatewayProviderState::Busy <==> lock == SessionLock::Busy
            &&& state == McpGatewayProviderState::Healthy <==> lock == SessionLock::Free
                && entry.connected && running
            &&& state == McpGatewayProviderState::NeverStarted <==> lock == SessionLock::Free
                && !entry.connected && entry.lifecycle == ProviderLifecycle::NeverStarted
            &&& after.config == entry.config && after.instance_id == entry.instance_id
            &&& after.connected <==> entry.connected && (running || lock != SessionLock::Free)
            &&& lock != SessionLock::Free || !entry.connected ==> after == entry
            &&& lock == SessionLock::Free && entry.connected ==> after.lifecycle == if running {
                ProviderLifecycle::Healthy
            } else {
                ProviderLifecycle::ConnectionRetired
            }
        }),
{
}

/// A retired entry has no connection and a healthy one has, and neither is another provider. A
/// fresh entry was never started, and its identity is 32 lower-case hexadecimal digits.
pub proof fn entries_change_only_their_connection(entry: EntryView, config: McpProviderView)
    ensures
        retired(entry) == (EntryView {
            config: entry.config,
            instance_id: entry.instance_id,
            lifecycle: ProviderLifecycle::ConnectionRetired,
            connected: false,
        }),
        healthy(entry) == (EntryView {
            config: entry.config,
            instance_id: entry.instance_id,
            lifecycle: ProviderLifecycle::Healthy,
            connected: true,
        }),
        is_fresh(entry, config) ==> entry.config == config && entry.lifecycle
            == ProviderLifecycle::NeverStarted && !entry.connected && entry.instance_id.len() == 32
            && forall|i: int|
            0 <= i < 32 ==> '0' <= (#[trigger] entry.instance_id[i]) <= '9' || 'a'
                <= entry.instance_id[i] <= 'f',
{
    if is_fresh(entry, config) {
        assert forall|i: int| 0 <= i < 32 implies '0' <= (#[trigger] entry.instance_id[i]) <= '9'
            || 'a' <= entry.instance_id[i] <= 'f' by {
            assert(hex_digit(entry.instance_id[i]));
        }
    }
}

} // verus!
