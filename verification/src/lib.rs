//! A reverse proxy with two front ends, a SOCKS5 proxy and an HTTP server,
//! over one configuration and one way to decide admission.
//!
//! This library is the part of the proxy that decides: how the environment
//! resolves to a configuration, whom a listener admits, what the SOCKS
//! supervisor does about each connection and how the HTTP front end is
//! brought up. It opens no socket and reads no file. A program around it
//! does that, carries out the actions that the library asks for and reports
//! back what happened.

pub mod auth;
pub mod config;
pub mod env;
pub mod http;
pub mod socks;
pub mod text;

use crate::auth::Auth;
use crate::config::{ConfigError, SocksConfig};
use crate::socks::{supervisor_for, ProtocolSettings, Supervisor};
use vstd::prelude::*;

verus! {

/// Starts the SOCKS front end: checks the configuration and derives the
/// supervisor from it, before anything is bound.
///
/// Fails where UDP is enabled and no public address is set. Otherwise the
/// supervisor listens where the configuration says, passes its switches and
/// its timeout on to the protocol layer, lets clients go without
/// credentials exactly where no authentication is configured, and
/// advertises the public address in replies.
pub fn start_socks_server(cfg: SocksConfig) -> (r: Result<Supervisor, ConfigError>)
    ensures
        crate::config::model(r) == supervisor_for(cfg@),
{
    if cfg.enable_udp && cfg.pub_addr.is_none() {
        return Err(ConfigError::UdpWithoutPubAddr);
    }
    let allow_no_auth = match cfg.auth {
        crate::config::Auth::NoAuth => true,
        _ => false,
    };
    let settings = ProtocolSettings {
        resolve_dns: cfg.resolve_dns,
        request_timeout: cfg.timeout as u64,
        udp_support: cfg.enable_udp,
        allow_no_auth,
    };
    Ok(Supervisor { addr: cfg.addr, settings, auth: Auth(cfg.auth), reply_ip: cfg.pub_addr })
}

} // verus!
