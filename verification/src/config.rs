//! The configuration of both front ends, resolved once at startup from a
//! snapshot of the environment.
//!
//! Resolution is a function: the same snapshot gives the same configuration
//! or the same error. Each setting is looked up under its own name and
//! falls back to its default when the variable is not set. The settings of
//! one front end are resolved in a fixed order, and the first one that
//! cannot be resolved is the error that is reported.

use crate::env::{EnvValue, Environment, Reading};
use crate::text::{decimal_text, join_host_port, parse_u16, parse_unsigned, parse_usize, same_text};
use vstd::prelude::*;

verus! {

pub const SOCKS_HOST: &'static str = "REVPROXY_SOCKS_HOST";

pub const SOCKS_PORT: &'static str = "REVPROXY_SOCKS_PORT";

pub const PUB_ADDR: &'static str = "REVPROXY_PUB_ADDR";

pub const SOCKS_AUTH_METHOD: &'static str = "REVPROXY_SOCKS_AUTH_METHOD";

pub const SOCKS_AUTH_USER: &'static str = "REVPROXY_SOCKS_AUTH_USER";

pub const SOCKS_AUTH_PASS: &'static str = "REVPROXY_SOCKS_AUTH_PASS";

pub const SOCKS_TIMEOUT: &'static str = "REVPROXY_SOCKS_TIMEOUT";

pub const SOCKS_ENABLE_UDP: &'static str = "REVPROXY_SOCKS_ENABLE_UDP";

pub const SOCKS_RESOLVE_DNS: &'static str = "REVPROXY_SOCKS_RESOLVE_DNS";

pub const HTTP_HOST: &'static str = "REVPROXY_HTTP_HOST";

pub const HTTP_PORT: &'static str = "REVPROXY_HTTP_PORT";

pub const HTTP_AUTH_METHOD: &'static str = "REVPROXY_HTTP_AUTH_METHOD";

pub const HTTP_AUTH_USER: &'static str = "REVPROXY_HTTP_AUTH_USER";

pub const HTTP_AUTH_PASS: &'static str = "REVPROXY_HTTP_AUTH_PASS";

pub const HTTPS: &'static str = "REVPROXY_HTTPS";

pub const HTTPS_HOST: &'static str = "REVPROXY_HTTPS_HOST";

pub const HTTPS_PORT: &'static str = "REVPROXY_HTTPS_PORT";

pub const HTTPS_CERT: &'static str = "REVPROXY_HTTPS_CERT";

pub const HTTPS_CERT_KEY: &'static str = "REVPROXY_HTTPS_CERT_KEY";

/// The host that a listener binds to where none is named.
pub const DEFAULT_HOST: &'static str = "127.0.0.1";

pub const DEFAULT_SOCKS_PORT: &'static str = "1080";

pub const DEFAULT_HTTP_PORT: &'static str = "8080";

pub const DEFAULT_HTTPS_PORT: &'static str = "4430";

/// The request timeout in seconds where none is set.
pub const DEFAULT_TIMEOUT: &'static str = "10";

/// The name of the method that asks for no credentials.
pub const METHOD_NO_AUTH: &'static str = "no_auth";

/// The name of the method that asks for a user name and a password.
pub const METHOD_USERPASS: &'static str = "userpass";

/// The name of the reserved directory-service method.
pub const METHOD_LDAP: &'static str = "ldap";

pub const DEFAULT_AUTH_METHOD: &'static str = METHOD_USERPASS;

/// The one text that switches a switch off.
pub const OFF: &'static str = "0";

pub const DEFAULT_USER: &'static str = "user";

pub const DEFAULT_PASS: &'static str = "pass";

/// Why no configuration could be resolved.
#[derive(Debug, Clone, PartialEq, Eq)]
pub enum ConfigError {
    /// The variable `key` is set to something that is not valid Unicode.
    NotUnicode { key: String },
    /// The text of the variable `key` is not a port number.
    InvalidPort { key: String },
    /// The public address is set and is not an IP address.
    InvalidIpAddress,
    /// `method` names no authentication method.
    InvalidAuthMethod { method: String },
    /// The request timeout is not a number of seconds.
    InvalidTimeout,
    /// HTTPS is enabled and no certificate file is named.
    MissingCert,
    /// HTTPS is enabled and no private-key file is named.
    MissingCertKey,
    /// UDP is enabled and no public address is set.
    UdpWithoutPubAddr,
}

/// The model of a [`ConfigError`].
pub enum ConfigErrorView {
    NotUnicode { key: Seq<char> },
    InvalidPort { key: Seq<char> },
    InvalidIpAddress,
    InvalidAuthMethod { method: Seq<char> },
    InvalidTimeout,
    MissingCert,
    MissingCertKey,
    UdpWithoutPubAddr,
}

impl View for ConfigError {
    type V = ConfigErrorView;

    open spec fn view(&self) -> ConfigErrorView {
        match self {
            ConfigError::NotUnicode { key } => ConfigErrorView::NotUnicode { key: key@ },
            ConfigError::InvalidPort { key } => ConfigErrorView::InvalidPort { key: key@ },
            ConfigError::InvalidIpAddress => ConfigErrorView::InvalidIpAddress,
            ConfigError::InvalidAuthMethod { method } => ConfigErrorView::InvalidAuthMethod {
                method: method@,
            },
            ConfigError::InvalidTimeout => ConfigErrorView::InvalidTimeout,
            ConfigError::MissingCert => ConfigErrorView::MissingCert,
            ConfigError::MissingCertKey => ConfigErrorView::MissingCertKey,
            ConfigError::UdpWithoutPubAddr => ConfigErrorView::UdpWithoutPubAddr,
        }
    }
}

/// How a listener decides whom to admit.
#[derive(Debug, Clone, PartialEq, Eq)]
pub enum Auth {
    /// Nobody has to present credentials.
    NoAuth,
    /// Reserved for a directory service. Nothing implements it.
    Ldap,
    /// One user name with its password.
    UserPass { username: String, password: String },
}

/// The model of an [`Auth`].
pub enum AuthView {
    NoAuth,
    Ldap,
    UserPass { username: Seq<char>, password: Seq<char> },
}

impl View for Auth {
    type V = AuthView;

    open spec fn view(&self) -> AuthView {
        match self {
            Auth::NoAuth => AuthView::NoAuth,
            Auth::Ldap => AuthView::Ldap,
            Auth::UserPass { username, password } => AuthView::UserPass {
                username: username@,
                password: password@,
            },
        }
    }
}

/// An IP address, by its octets in network order.
#[derive(Debug, Clone, Copy, PartialEq, Eq)]
pub enum IpAddress {
    V4([u8; 4]),
    V6([u8; 16]),
}

/// The settings of the SOCKS front end.
#[derive(Debug, Clone, PartialEq, Eq)]
pub struct SocksConfig {
    /// Where to listen, as `host:port`.
    pub addr: String,
    /// The address under which clients reach this proxy. It is sent in
    /// replies, and UDP needs it.
    pub pub_addr: Option<IpAddress>,
    pub auth: Auth,
    /// How long a request may take, in seconds.
    pub timeout: usize,
    pub resolve_dns: bool,
    pub enable_udp: bool,
}

/// The model of a [`SocksConfig`].
pub struct SocksConfigView {
    pub addr: Seq<char>,
    pub pub_addr: Option<IpAddress>,
    pub auth: AuthView,
    pub timeout: usize,
    pub resolve_dns: bool,
    pub enable_udp: bool,
}

impl View for SocksConfig {
    type V = SocksConfigView;

    open spec fn view(&self) -> SocksConfigView {
        SocksConfigView {
            addr: self.addr@,
            pub_addr: self.pub_addr,
            auth: self.auth@,
            timeout: self.timeout,
            resolve_dns: self.resolve_dns,
            enable_udp: self.enable_udp,
        }
    }
}

impl SocksConfigView {
    /// UDP is only ever enabled together with a public address.
    pub open spec fn wf(self) -> bool {
        self.enable_udp ==> self.pub_addr is Some
    }
}

/// Where the HTTPS listeners stand and which files hold their credentials.
#[derive(Debug, Clone, PartialEq, Eq)]
pub struct HttpsConfig {
    pub host: String,
    pub port: u16,
    pub cert_path: String,
    pub key_path: String,
}

/// The model of an [`HttpsConfig`].
pub struct HttpsConfigView {
    pub host: Seq<char>,
    pub port: u16,
    pub cert_path: Seq<char>,
    pub key_path: Seq<char>,
}

impl View for HttpsConfig {
    type V = HttpsConfigView;

    open spec fn view(&self) -> HttpsConfigView {
        HttpsConfigView {
            host: self.host@,
            port: self.port,
            cert_path: self.cert_path@,
            key_path: self.key_path@,
        }
    }
}

/// The settings of the HTTP front end.
#[derive(Debug, Clone, PartialEq, Eq)]
pub struct HttpConfig {
    /// Where to listen for plaintext requests, as `host:port`.
    pub addr: String,
    /// Present when HTTPS is enabled.
    pub https: Option<HttpsConfig>,
    pub auth: Auth,
}

/// The model of an [`HttpConfig`].
pub struct HttpConfigView {
    pub addr: Seq<char>,
    pub https: Option<HttpsConfigView>,
    pub auth: AuthView,
}

impl View for HttpConfig {
    type V = HttpConfigView;

    open spec fn view(&self) -> HttpConfigView {
        HttpConfigView {
            addr: self.addr@,
            https: match self.https {
                Some(https) => Some(https@),
                None => None,
            },
            auth: self.auth@,
        }
    }
}

/// The settings of both front ends.
#[derive(Debug, Clone, PartialEq, Eq)]
pub struct Config {
    pub socks: SocksConfig,
    pub http: HttpConfig,
}

/// The model of a [`Config`].
pub struct ConfigView {
    pub socks: SocksConfigView,
    pub http: HttpConfigView,
}

impl View for Config {
    type V = ConfigView;

    open spec fn view(&self) -> ConfigView {
        ConfigView { socks: self.socks@, http: self.http@ }
    }
}

/// The model of the environment: the variables that are set, each with what
/// reading it gave.
pub type EnvModel = Map<Seq<char>, Reading>;

/// A result with both sides replaced by their models.
pub open spec fn model<T: View>(r: Result<T, ConfigError>) -> Result<T::V, ConfigErrorView> {
    match r {
        Ok(t) => Ok(t@),
        Err(e) => Err(e@),
    }
}

/// The text of the variable `key`, or `def` where it is not set.
pub open spec fn text_or(env: EnvModel, key: Seq<char>, def: Seq<char>) -> Result<
    Seq<char>,
    ConfigErrorView,
> {
    if !env.dom().contains(key) {
        Ok(def)
    } else {
        match env[key] {
            Reading::Text(t) => Ok(t),
            Reading::NotUnicode => Err(ConfigErrorView::NotUnicode { key }),
        }
    }
}

/// The text of the variable `key`, if it is set.
pub open spec fn text_opt(env: EnvModel, key: Seq<char>) -> Result<
    Option<Seq<char>>,
    ConfigErrorView,
> {
    if !env.dom().contains(key) {
        Ok(None)
    } else {
        match env[key] {
            Reading::Text(t) => Ok(Some(t)),
            Reading::NotUnicode => Err(ConfigErrorView::NotUnicode { key }),
        }
    }
}

/// The switch that the variable `key` sets, if it is set: any text but `0`
/// switches on, the empty text too.
pub open spec fn flag(env: EnvModel, key: Seq<char>) -> Result<Option<bool>, ConfigErrorView> {
    match text_opt(env, key) {
        Ok(Some(t)) => Ok(Some(t != OFF@)),
        Ok(None) => Ok(None),
        Err(e) => Err(e),
    }
}

/// The port that the variable `key` names, or that `def` names where `key`
/// is not set.
pub open spec fn port_of(env: EnvModel, key: Seq<char>, def: Seq<char>) -> Result<
    u16,
    ConfigErrorView,
> {
    match text_or(env, key, def) {
        Ok(t) => match parse_unsigned(t, u16::MAX as nat) {
            Some(port) => Ok(port as u16),
            None => Err(ConfigErrorView::InvalidPort { key }),
        },
        Err(e) => Err(e),
    }
}

/// The authentication method that the variable `method` names, `userpass`
/// where it is not set. The variables `user` and `pass` count for
/// `userpass` only, and default to `user` and `pass`.
pub open spec fn auth_of(env: EnvModel, method: Seq<char>, user: Seq<char>, pass: Seq<char>) -> Result<
    AuthView,
    ConfigErrorView,
> {
    match text_or(env, method, DEFAULT_AUTH_METHOD@) {
        Ok(name) => if name == METHOD_LDAP@ {
            Ok(AuthView::Ldap)
        } else if name == METHOD_NO_AUTH@ {
            Ok(AuthView::NoAuth)
        } else if name == METHOD_USERPASS@ {
            match text_or(env, user, DEFAULT_USER@) {
                Ok(username) => match text_or(env, pass, DEFAULT_PASS@) {
                    Ok(password) => Ok(AuthView::UserPass { username, password }),
                    Err(e) => Err(e),
                },
                Err(e) => Err(e),
            }
        } else {
            Err(ConfigErrorView::InvalidAuthMethod { method: name })
        },
        Err(e) => Err(e),
    }
}

/// The public address: none where the variable is not set, else the
/// address `parsed` that its text denotes. Text that denotes no address is
/// an error.
pub open spec fn pub_addr_of(env: EnvModel, parsed: Option<IpAddress>) -> Result<
    Option<IpAddress>,
    ConfigErrorView,
> {
    match text_opt(env, PUB_ADDR@) {
        Ok(Some(_)) => match parsed {
            Some(addr) => Ok(Some(addr)),
            None => Err(ConfigErrorView::InvalidIpAddress),
        },
        Ok(None) => Ok(None),
        Err(e) => Err(e),
    }
}

/// The request timeout in seconds, ten where the variable is not set.
pub open spec fn timeout_of(env: EnvModel) -> Result<usize, ConfigErrorView> {
    match text_or(env, SOCKS_TIMEOUT@, DEFAULT_TIMEOUT@) {
        Ok(t) => match parse_unsigned(t, usize::MAX as nat) {
            Some(seconds) => Ok(seconds as usize),
            None => Err(ConfigErrorView::InvalidTimeout),
        },
        Err(e) => Err(e),
    }
}

/// Whether a switch is on, given what should hold where it is not set.
pub open spec fn switched(flag: Option<bool>, def: bool) -> bool {
    match flag {
        Some(on) => on,
        None => def,
    }
}

/// The SOCKS settings that the environment `env` gives, where `parsed` is
/// the IP address that the text of the public address denotes.
///
/// The settings are resolved in the order host, port, public address,
/// authentication, timeout, UDP switch, DNS switch. The first that fails
/// is the error. Settings that all resolve are still refused where they
/// enable UDP without a public address.
pub open spec fn socks_config(env: EnvModel, parsed: Option<IpAddress>) -> Result<
    SocksConfigView,
    ConfigErrorView,
> {
    let host = text_or(env, SOCKS_HOST@, DEFAULT_HOST@);
    let port = port_of(env, SOCKS_PORT@, DEFAULT_SOCKS_PORT@);
    let pub_addr = pub_addr_of(env, parsed);
    let auth = auth_of(env, SOCKS_AUTH_METHOD@, SOCKS_AUTH_USER@, SOCKS_AUTH_PASS@);
    let timeout = timeout_of(env);
    let udp = flag(env, SOCKS_ENABLE_UDP@);
    let dns = flag(env, SOCKS_RESOLVE_DNS@);
    if host is Err {
        Err(host->Err_0)
    } else if port is Err {
        Err(port->Err_0)
    } else if pub_addr is Err {
        Err(pub_addr->Err_0)
    } else if auth is Err {
        Err(auth->Err_0)
    } else if timeout is Err {
        Err(timeout->Err_0)
    } else if udp is Err {
        Err(udp->Err_0)
    } else if dns is Err {
        Err(dns->Err_0)
    } else if switched(udp->Ok_0, false) && pub_addr->Ok_0 is None {
        Err(ConfigErrorView::UdpWithoutPubAddr)
    } else {
        Ok(
            SocksConfigView {
                addr: host->Ok_0 + seq![':'] + decimal_text(port->Ok_0 as nat),
                pub_addr: pub_addr->Ok_0,
                auth: auth->Ok_0,
                timeout: timeout->Ok_0,
                resolve_dns: switched(dns->Ok_0, true),
                enable_udp: switched(udp->Ok_0, false),
            },
        )
    }
}

/// The HTTPS settings that the environment `env` gives, resolved in the
/// order host, port, certificate file, private-key file.
pub open spec fn https_config(env: EnvModel) -> Result<HttpsConfigView, ConfigErrorView> {
    let host = text_or(env, HTTPS_HOST@, DEFAULT_HOST@);
    let port = port_of(env, HTTPS_PORT@, DEFAULT_HTTPS_PORT@);
    let cert = text_opt(env, HTTPS_CERT@);
    let key = text_opt(env, HTTPS_CERT_KEY@);
    if host is Err {
        Err(host->Err_0)
    } else if port is Err {
        Err(port->Err_0)
    } else if cert is Err {
        Err(cert->Err_0)
    } else if cert->Ok_0 is None {
        Err(ConfigErrorView::MissingCert)
    } else if key is Err {
        Err(key->Err_0)
    } else if key->Ok_0 is None {
        Err(ConfigErrorView::MissingCertKey)
    } else {
        Ok(
            HttpsConfigView {
                host: host->Ok_0,
                port: port->Ok_0,
                cert_path: cert->Ok_0->0,
                key_path: key->Ok_0->0,
            },
        )
    }
}

/// The HTTPS settings as far as the HTTPS switch asks for them: none where
/// the switch is off or not set.
pub open spec fn https_of(env: EnvModel) -> Result<Option<HttpsConfigView>, ConfigErrorView> {
    match flag(env, HTTPS@) {
        Ok(Some(true)) => match https_config(env) {
            Ok(https) => Ok(Some(https)),
            Err(e) => Err(e),
        },
        Ok(_) => Ok(None),
        Err(e) => Err(e),
    }
}

/// The HTTP settings that the environment `env` gives, resolved in the
/// order host, port, authentication, HTTPS.
pub open spec fn http_config(env: EnvModel) -> Result<HttpConfigView, ConfigErrorView> {
    let host = text_or(env, HTTP_HOST@, DEFAULT_HOST@);
    let port = port_of(env, HTTP_PORT@, DEFAULT_HTTP_PORT@);
    let auth = auth_of(env, HTTP_AUTH_METHOD@, HTTP_AUTH_USER@, HTTP_AUTH_PASS@);
    let https = https_of(env);
    if host is Err {
        Err(host->Err_0)
    } else if port is Err {
        Err(port->Err_0)
    } else if auth is Err {
        Err(auth->Err_0)
    } else if https is Err {
        Err(https->Err_0)
    } else {
        Ok(
            HttpConfigView {
                addr: host->Ok_0 + seq![':'] + decimal_text(port->Ok_0 as nat),
                https: https->Ok_0,
                auth: auth->Ok_0,
            },
        )
    }
}

/// The settings of both front ends: those of SOCKS are resolved first.
pub open spec fn config(env: EnvModel, parsed: Option<IpAddress>) -> Result<
    ConfigView,
    ConfigErrorView,
> {
    match socks_config(env, parsed) {
        Ok(socks) => match http_config(env) {
            Ok(http) => Ok(ConfigView { socks, http }),
            Err(e) => Err(e),
        },
        Err(e) => Err(e),
    }
}

/// The text of `key`, or `def` where `key` is not set.
pub fn get_env(env: &Environment, key: &str, def: &str) -> (r: Result<String, ConfigError>)
    ensures
        model(r) == text_or(env@, key@, def@),
{
    match env.lookup(key) {
        None => Ok(def.to_owned()),
        Some(EnvValue::Text(t)) => Ok(t.clone()),
        Some(EnvValue::NotUnicode) => Err(ConfigError::NotUnicode { key: key.to_owned() }),
    }
}

/// The text of `key`, if `key` is set.
pub fn get_env_opt(env: &Environment, key: &str) -> (r: Result<Option<String>, ConfigError>)
    ensures
        match r {
            Ok(Some(t)) => text_opt(env@, key@) == Ok::<_, ConfigErrorView>(Some(t@)),
            Ok(None) => text_opt(env@, key@) == Ok::<Option<Seq<char>>, ConfigErrorView>(None),
            Err(e) => text_opt(env@, key@) == Err::<Option<Seq<char>>, _>(e@),
        },
{
    match env.lookup(key) {
        None => Ok(None),
        Some(EnvValue::Text(t)) => Ok(Some(t.clone())),
        Some(EnvValue::NotUnicode) => Err(ConfigError::NotUnicode { key: key.to_owned() }),
    }
}

/// The switch that `key` sets, if `key` is set.
pub fn get_env_bool(env: &Environment, key: &str) -> (r: Result<Option<bool>, ConfigError>)
    ensures
        model(r) == flag(env@, key@),
{
    match env.lookup(key) {
        None => Ok(None),
        Some(EnvValue::Text(t)) => Ok(Some(!same_text(t.as_str(), OFF))),
        Some(EnvValue::NotUnicode) => Err(ConfigError::NotUnicode { key: key.to_owned() }),
    }
}

/// The port named by `key`, or by `def` where `key` is not set.
fn get_port(env: &Environment, key: &str, def: &str) -> (r: Result<u16, ConfigError>)
    ensures
        model(r) == port_of(env@, key@, def@),
{
    let text = get_env(env, key, def)?;
    match parse_u16(text.as_str()) {
        Some(port) => Ok(port),
        None => Err(ConfigError::InvalidPort { key: key.to_owned() }),
    }
}

/// The authentication method named by `method`.
fn get_auth(env: &Environment, method: &str, user: &str, pass: &str) -> (r: Result<
    Auth,
    ConfigError,
>)
    ensures
        model(r) == auth_of(env@, method@, user@, pass@),
{
    let name = get_env(env, method, DEFAULT_AUTH_METHOD)?;
    if same_text(name.as_str(), METHOD_LDAP) {
        Ok(Auth::Ldap)
    } else if same_text(name.as_str(), METHOD_NO_AUTH) {
        Ok(Auth::NoAuth)
    } else if same_text(name.as_str(), METHOD_USERPASS) {
        let username = get_env(env, user, DEFAULT_USER)?;
        let password = get_env(env, pass, DEFAULT_PASS)?;
        Ok(Auth::UserPass { username, password })
    } else {
        Err(ConfigError::InvalidAuthMethod { method: name })
    }
}

impl Config {
    /// Resolves the settings of both front ends from `env`.
    ///
    /// `pub_addr` is the IP address that the text of the variable
    /// `REVPROXY_PUB_ADDR` denotes, `None` where it denotes none.
    pub fn new(env: &Environment, pub_addr: Option<IpAddress>) -> (r: Result<Config, ConfigError>)
        ensures
            model(r) == config(env@, pub_addr),
    {
        let socks = SocksConfig::new(env, pub_addr)?;
        let http = HttpConfig::new(env)?;
        Ok(Config { socks, http })
    }
}

impl SocksConfig {
    /// Resolves the SOCKS settings from `env`.
    ///
    /// `pub_addr` is the IP address that the text of the variable
    /// `REVPROXY_PUB_ADDR` denotes, `None` where it denotes none.
    pub fn new(env: &Environment, pub_addr: Option<IpAddress>) -> (r: Result<
        SocksConfig,
        ConfigError,
    >)
        ensures
            model(r) == socks_config(env@, pub_addr),
            r matches Ok(cfg) ==> cfg@.wf(),
    {
        let host = get_env(env, SOCKS_HOST, DEFAULT_HOST)?;
        let port = get_port(env, SOCKS_PORT, DEFAULT_SOCKS_PORT)?;
        let pub_addr = match get_env_opt(env, PUB_ADDR)? {
            Some(_) => match pub_addr {
                Some(addr) => Some(addr),
                None => {
                    return Err(ConfigError::InvalidIpAddress);
                },
            },
            None => None,
        };
        let auth = get_auth(env, SOCKS_AUTH_METHOD, SOCKS_AUTH_USER, SOCKS_AUTH_PASS)?;
        let timeout_text = get_env(env, SOCKS_TIMEOUT, DEFAULT_TIMEOUT)?;
        let timeout = match parse_usize(timeout_text.as_str()) {
            Some(seconds) => seconds,
            None => {
                return Err(ConfigError::InvalidTimeout);
            },
        };
        let enable_udp = match get_env_bool(env, SOCKS_ENABLE_UDP)? {
            Some(on) => on,
            None => false,
        };
        let resolve_dns = match get_env_bool(env, SOCKS_RESOLVE_DNS)? {
            Some(on) => on,
            None => true,
        };
        if enable_udp && pub_addr.is_none() {
            return Err(ConfigError::UdpWithoutPubAddr);
        }
        Ok(
            SocksConfig {
                addr: join_host_port(host.as_str(), port),
                pub_addr,
                auth,
                timeout,
                resolve_dns,
                enable_udp,
            },
        )
    }
}

impl HttpConfig {
    /// Resolves the HTTP settings from `env`.
    pub fn new(env: &Environment) -> (r: Result<HttpConfig, ConfigError>)
        ensures
            model(r) == http_config(env@),
    {
        let host = get_env(env, HTTP_HOST, DEFAULT_HOST)?;
        let port = get_port(env, HTTP_PORT, DEFAULT_HTTP_PORT)?;
        let auth = get_auth(env, HTTP_AUTH_METHOD, HTTP_AUTH_USER, HTTP_AUTH_PASS)?;
        let https = match get_env_bool(env, HTTPS)? {
            Some(true) => Some(HttpsConfig::new(env)?),
            _ => None,
        };
        Ok(HttpConfig { addr: join_host_port(host.as_str(), port), https, auth })
    }
}

impl HttpsConfig {
    /// Resolves the HTTPS settings from `env`.
    pub fn new(env: &Environment) -> (r: Result<HttpsConfig, ConfigError>)
        ensures
            model(r) == https_config(env@),
    {
        let host = get_env(env, HTTPS_HOST, DEFAULT_HOST)?;
        let port = get_port(env, HTTPS_PORT, DEFAULT_HTTPS_PORT)?;
        let cert_path = match get_env_opt(env, HTTPS_CERT)? {
            Some(path) => path,
            None => {
                return Err(ConfigError::MissingCert);
            },
        };
        let key_path = match get_env_opt(env, HTTPS_CERT_KEY)? {
            Some(path) => path,
            None => {
                return Err(ConfigError::MissingCertKey);
            },
        };
        Ok(HttpsConfig { host, port, cert_path, key_path })
    }
}

/// Settings that enable UDP without a public address are never handed out:
/// where the UDP switch is on and no public address resolves, there is no
/// configuration, and every configuration that there is has a public
/// address if it enables UDP.
pub proof fn lemma_udp_needs_public_address(env: EnvModel, parsed: Option<IpAddress>)
    ensures
        socks_config(env, parsed) matches Ok(cfg) ==> cfg.wf(),
        config(env, parsed) matches Ok(cfg) ==> cfg.socks.wf(),
        flag(env, SOCKS_ENABLE_UDP@) == Ok::<Option<bool>, ConfigErrorView>(Some(true)) && !(
        pub_addr_of(env, parsed) matches Ok(Some(_))) ==> socks_config(env, parsed) is Err,
        flag(env, SOCKS_ENABLE_UDP@) == Ok::<Option<bool>, ConfigErrorView>(Some(true))
            && !env.dom().contains(PUB_ADDR@) ==> config(env, parsed) is Err,
{
}

} // verus!
