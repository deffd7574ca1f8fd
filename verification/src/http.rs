//! Bringing up the HTTP front end: which listeners to open, in which order
//! the credential files are read, and what happens to a request depending
//! on the listener it arrived on.
//!
//! Nothing here opens a file or a socket. The bootstrap is a state machine:
//! [`start`] gives the first state and the first action, whoever runs it
//! carries the action out and reports what a file read gave, and
//! [`Bootstrap::on_file`] gives the next state and action.

use crate::config::{HttpConfig, HttpConfigView, HttpsConfig, HttpsConfigView};
use vstd::prelude::*;

verus! {

/// How a request reached the server.
#[derive(Debug, Clone, Copy, PartialEq, Eq)]
pub enum Transport {
    /// Plaintext over TCP.
    Plain,
    /// TLS over TCP.
    Tls,
    /// QUIC.
    Quic,
}

/// Where the TLS and the QUIC listener stand, and the one set of
/// credentials that both use.
#[derive(Debug, Clone, PartialEq, Eq)]
pub struct SecureEndpoint {
    pub host: String,
    pub port: u16,
    /// The certificate, as the bytes of its file.
    pub cert: Vec<u8>,
    /// The private key, as the bytes of its file.
    pub key: Vec<u8>,
}

/// The model of a [`SecureEndpoint`].
pub struct SecureEndpointView {
    pub host: Seq<char>,
    pub port: u16,
    pub cert: Seq<u8>,
    pub key: Seq<u8>,
}

impl View for SecureEndpoint {
    type V = SecureEndpointView;

    open spec fn view(&self) -> SecureEndpointView {
        SecureEndpointView { host: self.host@, port: self.port, cert: self.cert@, key: self.key@ }
    }
}

/// The listeners that together serve the one router.
///
/// There is always a plaintext listener. With a secure endpoint there are
/// two more, one for TLS and one for QUIC, on the endpoint's host and port.
#[derive(Debug, Clone, PartialEq, Eq)]
pub struct ListenerPlan {
    /// Where the plaintext listener stands, as `host:port`.
    pub plain_addr: String,
    pub secure: Option<SecureEndpoint>,
}

/// The model of a [`ListenerPlan`].
pub struct ListenerPlanView {
    pub plain_addr: Seq<char>,
    pub secure: Option<SecureEndpointView>,
}

impl View for ListenerPlan {
    type V = ListenerPlanView;

    open spec fn view(&self) -> ListenerPlanView {
        ListenerPlanView {
            plain_addr: self.plain_addr@,
            secure: match self.secure {
                Some(endpoint) => Some(endpoint@),
                None => None,
            },
        }
    }
}

/// What becomes of a request.
#[derive(Debug, Clone, Copy, PartialEq, Eq)]
pub enum Routing {
    /// It is handed to the router.
    Router,
    /// It is sent on to the HTTPS listener on `port` and never reaches the
    /// router.
    RedirectToHttps { port: u16 },
}

/// One of the two files that hold the TLS credentials.
#[derive(Debug, Clone, Copy, PartialEq, Eq)]
pub enum CredentialFile {
    Certificate,
    PrivateKey,
}

/// How far the bootstrap has come.
#[derive(Debug, Clone, PartialEq, Eq)]
pub enum Bootstrap {
    /// The certificate file is being read.
    AwaitingCert { plain_addr: String, https: HttpsConfig },
    /// The certificate is in, and the private-key file is being read.
    AwaitingKey { plain_addr: String, https: HttpsConfig, cert: Vec<u8> },
    /// The listeners were handed out.
    Serving,
    /// A credential file could not be read. Nothing was bound and nothing
    /// will be.
    Aborted,
}

/// The model of a [`Bootstrap`].
pub enum BootstrapView {
    AwaitingCert { plain_addr: Seq<char>, https: HttpsConfigView },
    AwaitingKey { plain_addr: Seq<char>, https: HttpsConfigView, cert: Seq<u8> },
    Serving,
    Aborted,
}

impl View for Bootstrap {
    type V = BootstrapView;

    open spec fn view(&self) -> BootstrapView {
        match self {
            Bootstrap::AwaitingCert { plain_addr, https } => BootstrapView::AwaitingCert {
                plain_addr: plain_addr@,
                https: https@,
            },
            Bootstrap::AwaitingKey { plain_addr, https, cert } => BootstrapView::AwaitingKey {
                plain_addr: plain_addr@,
                https: https@,
                cert: cert@,
            },
            Bootstrap::Serving => BootstrapView::Serving,
            Bootstrap::Aborted => BootstrapView::Aborted,
        }
    }
}

/// What reading a file gave.
#[derive(Debug, Clone, PartialEq, Eq)]
pub enum FileOutcome {
    /// The bytes of the file.
    Read(Vec<u8>),
    /// The file could not be read.
    Unreadable,
}

/// The model of a [`FileOutcome`].
pub enum FileOutcomeView {
    Read(Seq<u8>),
    Unreadable,
}

impl View for FileOutcome {
    type V = FileOutcomeView;

    open spec fn view(&self) -> FileOutcomeView {
        match self {
            FileOutcome::Read(bytes) => FileOutcomeView::Read(bytes@),
            FileOutcome::Unreadable => FileOutcomeView::Unreadable,
        }
    }
}

/// What whoever runs the bootstrap has to do next.
#[derive(Debug, Clone, PartialEq, Eq)]
pub enum BootstrapAction {
    /// Read the file at `path`, which holds `file`, and report what that
    /// gave.
    ReadFile { file: CredentialFile, path: String },
    /// Bind the listeners of `plan` and serve the router on them.
    Serve { plan: ListenerPlan },
    /// Give up: the file at `path`, which holds `file`, could not be read.
    Abort { file: CredentialFile, path: String },
    /// Nothing: the bootstrap was over before.
    Nothing,
}

/// The model of a [`BootstrapAction`].
pub enum BootstrapActionView {
    ReadFile { file: CredentialFile, path: Seq<char> },
    Serve { plan: ListenerPlanView },
    Abort { file: CredentialFile, path: Seq<char> },
    Nothing,
}

impl View for BootstrapAction {
    type V = BootstrapActionView;

    open spec fn view(&self) -> BootstrapActionView {
        match self {
            BootstrapAction::ReadFile { file, path } => BootstrapActionView::ReadFile {
                file: *file,
                path: path@,
            },
            BootstrapAction::Serve { plan } => BootstrapActionView::Serve { plan: plan@ },
            BootstrapAction::Abort { file, path } => BootstrapActionView::Abort {
                file: *file,
                path: path@,
            },
            BootstrapAction::Nothing => BootstrapActionView::Nothing,
        }
    }
}

/// Whether `plan` has a listener for `transport`.
pub open spec fn listens_on(plan: ListenerPlanView, transport: Transport) -> bool {
    match transport {
        Transport::Plain => true,
        Transport::Tls => plan.secure is Some,
        Transport::Quic => plan.secure is Some,
    }
}

/// What becomes of a request that arrived over `transport` under `plan`.
///
/// With a secure endpoint, plaintext is sent on to its port. Everything
/// else goes to the router.
pub open spec fn routing(plan: ListenerPlanView, transport: Transport) -> Routing {
    match transport {
        Transport::Plain => match plan.secure {
            Some(endpoint) => Routing::RedirectToHttps { port: endpoint.port },
            None => Routing::Router,
        },
        Transport::Tls => Routing::Router,
        Transport::Quic => Routing::Router,
    }
}

/// The plan for a server with the secure endpoint of `https` and the
/// credentials `cert` and `key`.
pub open spec fn secure_plan(
    plain_addr: Seq<char>,
    https: HttpsConfigView,
    cert: Seq<u8>,
    key: Seq<u8>,
) -> ListenerPlanView {
    ListenerPlanView {
        plain_addr,
        secure: Some(SecureEndpointView { host: https.host, port: https.port, cert, key }),
    }
}

/// Where the bootstrap for `cfg` starts, and what is to be done first.
///
/// Without HTTPS the plaintext listener is served at once. With HTTPS
/// nothing is bound yet: the certificate file is read first.
pub open spec fn first_step(cfg: HttpConfigView) -> (BootstrapView, BootstrapActionView) {
    match cfg.https {
        None => (
            BootstrapView::Serving,
            BootstrapActionView::Serve {
                plan: ListenerPlanView { plain_addr: cfg.addr, secure: None },
            },
        ),
        Some(https) => (
            BootstrapView::AwaitingCert { plain_addr: cfg.addr, https },
            BootstrapActionView::ReadFile {
                file: CredentialFile::Certificate,
                path: https.cert_path,
            },
        ),
    }
}

/// Where the bootstrap goes from `state` when a file read gave `outcome`,
/// and what is to be done next.
pub open spec fn next_step(state: BootstrapView, outcome: FileOutcomeView) -> (
    BootstrapView,
    BootstrapActionView,
) {
    match state {
        BootstrapView::AwaitingCert { plain_addr, https } => match outcome {
            FileOutcomeView::Read(cert) => (
                BootstrapView::AwaitingKey { plain_addr, https, cert },
                BootstrapActionView::ReadFile {
                    file: CredentialFile::PrivateKey,
                    path: https.key_path,
                },
            ),
            FileOutcomeView::Unreadable => (
                BootstrapView::Aborted,
                BootstrapActionView::Abort {
                    file: CredentialFile::Certificate,
                    path: https.cert_path,
                },
            ),
        },
        BootstrapView::AwaitingKey { plain_addr, https, cert } => match outcome {
            FileOutcomeView::Read(key) => (
                BootstrapView::Serving,
                BootstrapActionView::Serve { plan: secure_plan(plain_addr, https, cert, key) },
            ),
            FileOutcomeView::Unreadable => (
                BootstrapView::Aborted,
                BootstrapActionView::Abort {
                    file: CredentialFile::PrivateKey,
                    path: https.key_path,
                },
            ),
        },
        BootstrapView::Serving => (BootstrapView::Serving, BootstrapActionView::Nothing),
        BootstrapView::Aborted => (BootstrapView::Aborted, BootstrapActionView::Nothing),
    }
}

/// The state that the bootstrap for `cfg` is in after the file reads gave
/// `outcomes`, one after the other.
pub open spec fn state_after(cfg: HttpConfigView, outcomes: Seq<FileOutcomeView>) -> BootstrapView
    decreases outcomes.len(),
{
    if outcomes.len() == 0 {
        first_step(cfg).0
    } else {
        next_step(state_after(cfg, outcomes.drop_last()), outcomes.last()).0
    }
}

/// The action with the number `k` that the bootstrap for `cfg` asks for
/// while the file reads give `outcomes`: the first action for zero, then
/// one for each outcome.
pub open spec fn action_at(cfg: HttpConfigView, outcomes: Seq<FileOutcomeView>, k: int) -> BootstrapActionView
    recommends
        0 <= k <= outcomes.len(),
{
    if k == 0 {
        first_step(cfg).1
    } else {
        next_step(state_after(cfg, outcomes.take(k - 1)), outcomes[k - 1]).1
    }
}

/// All that the bootstrap for `cfg` asks for while the file reads give
/// `outcomes`: one action more than there are outcomes.
pub open spec fn actions(cfg: HttpConfigView, outcomes: Seq<FileOutcomeView>) -> Seq<
    BootstrapActionView,
> {
    Seq::new(outcomes.len() + 1, |k: int| action_at(cfg, outcomes, k))
}

/// Starts the bootstrap of the HTTP front end.
pub fn start(cfg: HttpConfig) -> (r: (Bootstrap, BootstrapAction))
    ensures
        (r.0@, r.1@) == first_step(cfg@),
{
    match cfg.https {
        None => (
            Bootstrap::Serving,
            BootstrapAction::Serve { plan: ListenerPlan { plain_addr: cfg.addr, secure: None } },
        ),
        Some(https) => {
            let path = https.cert_path.clone();
            (
                Bootstrap::AwaitingCert { plain_addr: cfg.addr, https },
                BootstrapAction::ReadFile { file: CredentialFile::Certificate, path },
            )
        },
    }
}

impl Bootstrap {
    /// Takes the bootstrap one step on, given what the file read that it
    /// asked for gave.
    pub fn on_file(self, outcome: FileOutcome) -> (r: (Bootstrap, BootstrapAction))
        ensures
            (r.0@, r.1@) == next_step(self@, outcome@),
    {
        match self {
            Bootstrap::AwaitingCert { plain_addr, https } => match outcome {
                FileOutcome::Read(cert) => {
                    let path = https.key_path.clone();
                    (
                        Bootstrap::AwaitingKey { plain_addr, https, cert },
                        BootstrapAction::ReadFile { file: CredentialFile::PrivateKey, path },
                    )
                },
                FileOutcome::Unreadable => (
                    Bootstrap::Aborted,
                    BootstrapAction::Abort {
                        file: CredentialFile::Certificate,
                        path: https.cert_path,
                    },
                ),
            },
            Bootstrap::AwaitingKey { plain_addr, https, cert } => match outcome {
                FileOutcome::Read(key) => {
                    let endpoint = SecureEndpoint { host: https.host, port: https.port, cert, key };
                    (
                        Bootstrap::Serving,
                        BootstrapAction::Serve {
                            plan: ListenerPlan { plain_addr, secure: Some(endpoint) },
                        },
                    )
                },
                FileOutcome::Unreadable => (
                    Bootstrap::Aborted,
                    BootstrapAction::Abort {
                        file: CredentialFile::PrivateKey,
                        path: https.key_path,
                    },
                ),
            },
            Bootstrap::Serving => (Bootstrap::Serving, BootstrapAction::Nothing),
            Bootstrap::Aborted => (Bootstrap::Aborted, BootstrapAction::Nothing),
        }
    }
}

impl ListenerPlan {
    /// Decides what becomes of a request that arrived over `transport`.
    pub fn route(&self, transport: Transport) -> (r: Routing)
        ensures
            r == routing(self@, transport),
    {
        match transport {
            Transport::Plain => match &self.secure {
                Some(endpoint) => Routing::RedirectToHttps { port: endpoint.port },
                None => Routing::Router,
            },
            Transport::Tls => Routing::Router,
            Transport::Quic => Routing::Router,
        }
    }

    /// The port that plaintext requests are sent on to, if they are.
    pub fn https_port(&self) -> (port: Option<u16>)
        ensures
            match port {
                Some(p) => routing(self@, Transport::Plain) == (Routing::RedirectToHttps {
                    port: p,
                }),
                None => routing(self@, Transport::Plain) == Routing::Router,
            },
    {
        match &self.secure {
            Some(endpoint) => Some(endpoint.port),
            None => None,
        }
    }
}

/// Once the bootstrap is over it stays as it is, whatever is reported to
/// it.
pub proof fn lemma_over_stays_over(state: BootstrapView, outcome: FileOutcomeView)
    requires
        state is Serving || state is Aborted,
    ensures
        next_step(state, outcome) == (state, BootstrapActionView::Nothing),
{
}

/// The states that the bootstrap goes through with HTTPS enabled: it waits
/// for the certificate, then for the key, and is over after two reports at
/// the latest. It aborts exactly where one of the two files could not be
/// read.
pub proof fn lemma_states_with_https(cfg: HttpConfigView, outcomes: Seq<FileOutcomeView>)
    requires
        cfg.https is Some,
    ensures
        outcomes.len() == 0 ==> state_after(cfg, outcomes) == (BootstrapView::AwaitingCert {
            plain_addr: cfg.addr,
            https: cfg.https->0,
        }),
        outcomes.len() == 1 && outcomes[0] is Read ==> state_after(cfg, outcomes) == (
        BootstrapView::AwaitingKey {
            plain_addr: cfg.addr,
            https: cfg.https->0,
            cert: outcomes[0]->Read_0,
        }),
        outcomes.len() >= 1 && outcomes[0] is Unreadable ==> state_after(cfg, outcomes)
            is Aborted,
        outcomes.len() >= 2 && outcomes[0] is Read && outcomes[1] is Unreadable ==> state_after(
            cfg,
            outcomes,
        ) is Aborted,
        outcomes.len() >= 2 && outcomes[0] is Read && outcomes[1] is Read ==> state_after(
            cfg,
            outcomes,
        ) is Serving,
    decreases outcomes.len(),
{
    if outcomes.len() > 0 {
        let front = outcomes.drop_last();
        lemma_states_with_https(cfg, front);
        if front.len() >= 1 {
            assert(front[0] == outcomes[0]);
        }
        if front.len() >= 2 {
            assert(front[1] == outcomes[1]);
        }
    }
}

/// With HTTPS enabled, the listeners are handed out only once both
/// credential files were read, by the action that follows the second read,
/// and they carry exactly the bytes that were read.
pub proof fn lemma_serve_needs_both_files(
    cfg: HttpConfigView,
    outcomes: Seq<FileOutcomeView>,
    k: int,
)
    requires
        cfg.https is Some,
        0 <= k <= outcomes.len(),
        actions(cfg, outcomes)[k] is Serve,
    ensures
        k == 2,
        outcomes[0] is Read,
        outcomes[1] is Read,
        actions(cfg, outcomes)[k] == (BootstrapActionView::Serve {
            plan: secure_plan(
                cfg.addr,
                cfg.https->0,
                outcomes[0]->Read_0,
                outcomes[1]->Read_0,
            ),
        }),
{
    if k > 0 {
        let seen = outcomes.take(k - 1);
        lemma_states_with_https(cfg, seen);
        if seen.len() >= 1 {
            assert(seen[0] == outcomes[0]);
        }
        if seen.len() >= 2 {
            assert(seen[1] == outcomes[1]);
        }
    }
}

/// With HTTPS enabled, a certificate or key file that cannot be read aborts
/// the bootstrap: no action, before or after, hands out a listener, so
/// nothing is ever bound.
pub proof fn lemma_unreadable_file_binds_nothing(
    cfg: HttpConfigView,
    outcomes: Seq<FileOutcomeView>,
)
    requires
        cfg.https is Some,
        (outcomes.len() >= 1 && outcomes[0] is Unreadable) || (outcomes.len() >= 2
            && outcomes[1] is Unreadable),
    ensures
        forall|k: int| 0 <= k <= outcomes.len() ==> !(#[trigger] actions(cfg, outcomes)[k] is Serve),
        outcomes[0] is Unreadable ==> actions(cfg, outcomes)[1] == (BootstrapActionView::Abort {
            file: CredentialFile::Certificate,
            path: cfg.https->0.cert_path,
        }),
        outcomes[0] is Read ==> actions(cfg, outcomes)[2] == (BootstrapActionView::Abort {
            file: CredentialFile::PrivateKey,
            path: cfg.https->0.key_path,
        }),
        state_after(cfg, outcomes) is Aborted,
{
    assert forall|k: int| 0 <= k <= outcomes.len() implies !(#[trigger] actions(cfg, outcomes)[k]
        is Serve) by {
        if actions(cfg, outcomes)[k] is Serve {
            lemma_serve_needs_both_files(cfg, outcomes, k);
        }
    }
    lemma_states_with_https(cfg, outcomes);
    lemma_states_with_https(cfg, outcomes.take(0));
    lemma_states_with_https(cfg, outcomes.take(1));
}

/// Without HTTPS the plaintext listener is served at once, no file is
/// read, and every request reaches the router.
pub proof fn lemma_plain_only(cfg: HttpConfigView, transport: Transport)
    requires
        cfg.https is None,
    ensures
        first_step(cfg).1 == (BootstrapActionView::Serve {
            plan: ListenerPlanView { plain_addr: cfg.addr, secure: None },
        }),
        routing(ListenerPlanView { plain_addr: cfg.addr, secure: None }, transport)
            == Routing::Router,
        listens_on(ListenerPlanView { plain_addr: cfg.addr, secure: None }, transport)
            <==> transport is Plain,
{
}

/// With HTTPS configured there is a listener for each transport, a
/// plaintext request is sent on to the HTTPS port and never reaches the
/// router, and a request that arrived over TLS or QUIC reaches the router.
pub proof fn lemma_plaintext_is_redirected(
    plain_addr: Seq<char>,
    https: HttpsConfigView,
    cert: Seq<u8>,
    key: Seq<u8>,
)
    ensures
        routing(secure_plan(plain_addr, https, cert, key), Transport::Plain) == (
        Routing::RedirectToHttps { port: https.port }),
        routing(secure_plan(plain_addr, https, cert, key), Transport::Tls) == Routing::Router,
        routing(secure_plan(plain_addr, https, cert, key), Transport::Quic) == Routing::Router,
        forall|transport: Transport| #[trigger]
            listens_on(secure_plan(plain_addr, https, cert, key), transport),
{
}

} // verus!
