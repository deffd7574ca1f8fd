//! The supervisor of the SOCKS front end: what it is started with, and what
//! it does about each thing that happens on its listener.
//!
//! The supervisor itself never touches a socket. Whoever runs it accepts
//! connections and runs handshakes, reports each outcome as a
//! [`ConnectionEvent`] and carries out the [`SupervisorAction`] it gets
//! back. The supervisor keeps no record of past connections.

use crate::auth::Auth;
use crate::config::{AuthView, ConfigErrorView, IpAddress, SocksConfigView};
use vstd::prelude::*;

verus! {

/// What the protocol layer is told about how to serve a client.
#[derive(Debug, Clone, Copy, PartialEq, Eq)]
pub struct ProtocolSettings {
    /// Whether the proxy resolves host names for its clients.
    pub resolve_dns: bool,
    /// How long a request may take, in seconds.
    pub request_timeout: u64,
    /// Whether the UDP relay is offered.
    pub udp_support: bool,
    /// Whether a client may go without credentials.
    pub allow_no_auth: bool,
}

/// The supervisor of one listener.
#[derive(Debug, Clone, PartialEq, Eq)]
pub struct Supervisor {
    /// Where to listen, as `host:port`.
    pub addr: String,
    pub settings: ProtocolSettings,
    /// The hook that decides admission.
    pub auth: Auth,
    /// The address that replies advertise in place of the local one.
    pub reply_ip: Option<IpAddress>,
}

/// The model of a [`Supervisor`].
pub struct SupervisorView {
    pub addr: Seq<char>,
    pub settings: ProtocolSettings,
    pub auth: AuthView,
    pub reply_ip: Option<IpAddress>,
}

impl View for Supervisor {
    type V = SupervisorView;

    open spec fn view(&self) -> SupervisorView {
        SupervisorView {
            addr: self.addr@,
            settings: self.settings,
            auth: self.auth@,
            reply_ip: self.reply_ip,
        }
    }
}

/// Something that happened on the listener or to one of its connections.
#[derive(Debug, Clone, Copy, PartialEq, Eq)]
pub enum ConnectionEvent {
    /// A client connected.
    Accepted,
    /// Accepting a connection failed.
    AcceptFailed,
    /// A connection went through its handshake and its session ended.
    HandshakeSucceeded,
    /// A connection failed its handshake or was refused admission.
    HandshakeFailed,
}

/// What to do about an event. Whatever it is, the listener goes on
/// accepting.
#[derive(Debug, Clone, Copy, PartialEq, Eq)]
pub enum SupervisorAction {
    /// Hand the new connection to a task of its own, which advertises
    /// `reply_ip` in its replies where there is one, and runs the handshake.
    SpawnSession { reply_ip: Option<IpAddress> },
    /// Record that accepting failed.
    ReportAcceptError,
    /// Record the target that the session was for.
    ReportSession,
    /// Record the failure. The connection is dropped and not tried again.
    ReportFailure,
}

/// The protocol settings that the configuration `cfg` asks for. Clients may
/// go without credentials exactly where no authentication is configured.
pub open spec fn settings_for(cfg: SocksConfigView) -> ProtocolSettings {
    ProtocolSettings {
        resolve_dns: cfg.resolve_dns,
        request_timeout: cfg.timeout as u64,
        udp_support: cfg.enable_udp,
        allow_no_auth: cfg.auth is NoAuth,
    }
}

/// The supervisor that the configuration `cfg` starts, or why it starts
/// none: UDP cannot be served without a public address.
pub open spec fn supervisor_for(cfg: SocksConfigView) -> Result<SupervisorView, ConfigErrorView> {
    if cfg.enable_udp && cfg.pub_addr is None {
        Err(ConfigErrorView::UdpWithoutPubAddr)
    } else {
        Ok(
            SupervisorView {
                addr: cfg.addr,
                settings: settings_for(cfg),
                auth: cfg.auth,
                reply_ip: cfg.pub_addr,
            },
        )
    }
}

/// What the supervisor `sup` does about `event`.
pub open spec fn response(sup: SupervisorView, event: ConnectionEvent) -> SupervisorAction {
    match event {
        ConnectionEvent::Accepted => SupervisorAction::SpawnSession { reply_ip: sup.reply_ip },
        ConnectionEvent::AcceptFailed => SupervisorAction::ReportAcceptError,
        ConnectionEvent::HandshakeSucceeded => SupervisorAction::ReportSession,
        ConnectionEvent::HandshakeFailed => SupervisorAction::ReportFailure,
    }
}

/// What the supervisor `sup` does about each of `events`, in order.
pub open spec fn responses(sup: SupervisorView, events: Seq<ConnectionEvent>) -> Seq<
    SupervisorAction,
> {
    Seq::new(events.len(), |i: int| response(sup, events[i]))
}

impl Supervisor {
    /// Decides what to do about `event`.
    pub fn on_event(&self, event: ConnectionEvent) -> (action: SupervisorAction)
        ensures
            action == response(self@, event),
    {
        match event {
            ConnectionEvent::Accepted => SupervisorAction::SpawnSession { reply_ip: self.reply_ip },
            ConnectionEvent::AcceptFailed => SupervisorAction::ReportAcceptError,
            ConnectionEvent::HandshakeSucceeded => SupervisorAction::ReportSession,
            ConnectionEvent::HandshakeFailed => SupervisorAction::ReportFailure,
        }
    }
}

/// A supervisor is started exactly where UDP is off or a public address is
/// set, and then with the settings of the configuration.
pub proof fn lemma_supervisor_needs_public_address_for_udp(cfg: SocksConfigView)
    ensures
        supervisor_for(cfg) is Err <==> cfg.enable_udp && cfg.pub_addr is None,
        supervisor_for(cfg) is Ok <==> cfg.wf(),
        supervisor_for(cfg) matches Err(e) ==> e == ConfigErrorView::UdpWithoutPubAddr,
        supervisor_for(cfg) matches Ok(sup) ==> sup.settings.allow_no_auth == (cfg.auth is NoAuth),
{
}

/// Connections are isolated from one another: whatever happened before,
/// and though a handshake has just failed, the next client that connects
/// gets a session of its own, with the configured reply address. No event
/// is left without a response.
pub proof fn lemma_failed_handshake_is_isolated(sup: SupervisorView, before: Seq<ConnectionEvent>)
    ensures
        responses(
            sup,
            before.push(ConnectionEvent::HandshakeFailed).push(ConnectionEvent::Accepted),
        ).last() == (SupervisorAction::SpawnSession { reply_ip: sup.reply_ip }),
        responses(
            sup,
            before.push(ConnectionEvent::HandshakeFailed).push(ConnectionEvent::Accepted),
        ).len() == before.len() + 2,
        responses(sup, before.push(ConnectionEvent::HandshakeFailed)).last()
            == SupervisorAction::ReportFailure,
{
}

/// What is done about an event does not depend on the events before it.
pub proof fn lemma_response_ignores_history(
    sup: SupervisorView,
    before: Seq<ConnectionEvent>,
    event: ConnectionEvent,
)
    ensures
        responses(sup, before.push(event)).last() == response(sup, event),
        responses(sup, before.push(event)).drop_last() =~= responses(sup, before),
{
}

} // verus!
