//! Which transport the runner uses, and in which order it tries them.
use crate::config::{
    QuicClientConfig, RunnerConfig, TRANSPORT_AUTO, TRANSPORT_POLLING, TRANSPORT_QUIC,
    TRANSPORT_WEBSOCKET,
};
use crate::faults::{self, Fault};
use crate::text::{self, same, trim};
use crate::validate::{self, validate_quic_config};
use vstd::prelude::*;
use vstd::string::*;

verus! {

/// The transport that a configuration asks for: what it names, or the WebSocket.
pub open spec fn transport_of(transport: Option<String>) -> Seq<char> {
    match transport {
        Some(name) => if text::trimmed(name@).len() > 0 {
            text::trimmed(name@)
        } else {
            "websocket"@
        },
        None => "websocket"@,
    }
}

/// A transport that the runner has.
pub open spec fn known_transport(name: Seq<char>) -> bool {
    name == "websocket"@ || name == "polling"@ || name == "quic"@ || name == "auto"@
}

/// The transport section names one that the runner has, or none.
pub open spec fn transport_ok(transport: Option<String>) -> bool {
    transport matches Some(name) ==> text::trimmed(name@).len() == 0 || known_transport(
        text::trimmed(name@),
    )
}

/// Polling may be used.
pub open spec fn may_poll(transport: Option<String>) -> bool {
    transport_of(transport) == "polling"@ || transport_of(transport) == "auto"@
}

/// Returns the transport that a configuration asks for.
pub fn effective_transport(cfg: &RunnerConfig) -> (r: String)
    ensures
        r@ == transport_of(cfg.transport),
{
    match &cfg.transport {
        Some(name) => {
            let name = trim(name.as_str());
            if name.is_empty() {
                TRANSPORT_WEBSOCKET.to_owned()
            } else {
                name.to_owned()
            }
        },
        None => TRANSPORT_WEBSOCKET.to_owned(),
    }
}

/// Tells whether the transport section names a transport that the runner has, or none.
pub fn is_transport_ok(cfg: &RunnerConfig) -> (r: bool)
    ensures
        r == transport_ok(cfg.transport),
{
    match &cfg.transport {
        Some(name) => {
            let name = trim(name.as_str());
            name.is_empty() || same(name, TRANSPORT_WEBSOCKET) || same(name, TRANSPORT_POLLING)
                || same(name, TRANSPORT_QUIC) || same(name, TRANSPORT_AUTO)
        },
        None => true,
    }
}

/// Tells whether polling may be used.
pub fn is_polling_possible(cfg: &RunnerConfig) -> (r: bool)
    ensures
        r == may_poll(cfg.transport),
{
    let name = effective_transport(cfg);
    same(name.as_str(), TRANSPORT_POLLING) || same(name.as_str(), TRANSPORT_AUTO)
}

/// The order in which the automatic transport tries: QUIC where it is configured, then the
/// WebSocket, then polling.
pub open spec fn auto_plan(quic_configured: bool) -> Seq<Seq<char>> {
    if quic_configured {
        seq!["quic"@, "websocket"@, "polling"@]
    } else {
        seq!["websocket"@, "polling"@]
    }
}

/// Returns the order in which the automatic transport tries.
pub fn auto_transport_plan(cfg: &RunnerConfig) -> (r: Vec<&'static str>)
    ensures
        r@.map_values(|s: &'static str| s@) == auto_plan(cfg.quic is Some),
{
    match &cfg.quic {
        Some(_) => {
            let plan = vec![TRANSPORT_QUIC, TRANSPORT_WEBSOCKET, TRANSPORT_POLLING];
            assert(plan@.map_values(|s: &'static str| s@) =~= auto_plan(true));
            plan
        },
        None => {
            let plan = vec![TRANSPORT_WEBSOCKET, TRANSPORT_POLLING];
            assert(plan@.map_values(|s: &'static str| s@) =~= auto_plan(false));
            plan
        },
    }
}

/// What keeps QUIC from being used.
pub open spec fn quic_section_fault(quic: Option<QuicClientConfig>) -> Fault {
    match quic {
        None => Some("transport=quic requires a [quic] section in the Runner config"@),
        Some(section) => validate::quic_fault(section),
    }
}

/// Returns the QUIC section, where there is one and it is usable.
pub fn resolve_quic_config(cfg: &RunnerConfig) -> (r: Result<QuicClientConfig, String>)
    ensures
        faults::reports(r, quic_section_fault(cfg.quic)),
        r matches Ok(quic) ==> quic@ == (cfg.quic->0)@,
{
    match &cfg.quic {
        None => Err("transport=quic requires a [quic] section in the Runner config".to_owned()),
        Some(quic) => {
            validate_quic_config(quic)?;
            Ok(
                QuicClientConfig {
                    server_addr: quic.server_addr.clone(),
                    server_name: quic.server_name.clone(),
                    alpn: quic.alpn.clone(),
                    connect_timeout_secs: quic.connect_timeout_secs,
                    keepalive_interval_secs: quic.keepalive_interval_secs,
                },
            )
        },
    }
}

// ---------------------------------------------------------------------------------------------
// Laws
// ---------------------------------------------------------------------------------------------
/// A configuration gets the transport that it names, without the white space around the name, and
/// the WebSocket where it names none. It is accepted exactly where that is one of the four that
/// the runner has.
pub proof fn configured_transports_are_used(transport: Option<String>)
    ensures
        transport is None ==> transport_of(transport) == "websocket"@,
        transport matches Some(name) && text::blank(name@) ==> transport_of(transport)
            == "websocket"@,
        transport matches Some(name) && !text::blank(name@) ==> transport_of(transport)
            == text::trimmed((transport->0)@),
        transport_ok(transport) <==> transport_of(transport) == "websocket"@ || transport_of(
            transport,
        ) == "polling"@ || transport_of(transport) == "quic"@ || transport_of(transport)
            == "auto"@,
        may_poll(transport) <==> transport_of(transport) == "polling"@ || transport_of(transport)
            == "auto"@,
{
    if transport is Some {
        let _ = text::trimming_takes_only_outer_white_space((transport->0)@);
    }
}

/// The automatic transport tries the WebSocket before polling, always both, and QUIC before them
/// exactly where it is configured.
pub proof fn automatic_transport_ends_with_polling(quic_configured: bool)
    ensures
        ({
            let plan = auto_plan(quic_configured);
            &&& plan.len() == if quic_configured {
                3int
            } else {
                2
            }
            &&& plan.last() == "polling"@
            &&& plan[plan.len() - 2] == "websocket"@
            &&& quic_configured <==> plan[0] == "quic"@
        }),
{
    reveal_strlit("quic");
    reveal_strlit("websocket");
    assert("quic"@.len() != "websocket"@.len());
}

/// QUIC may be used exactly where it is configured with an address, a server name, a protocol and
/// a connect timeout, and with a keepalive interval of one to 25 seconds.
pub proof fn quic_needs_a_usable_section(quic: Option<QuicClientConfig>)
    ensures
        quic_section_fault(quic) is None <==> quic is Some && !text::blank((quic->0).server_addr@)
            && !text::blank((quic->0).server_name@) && !text::blank((quic->0).alpn@)
            && (quic->0).connect_timeout_secs > 0 && 1 <= (quic->0).keepalive_interval_secs <= 25,
{
}

} // verus!
