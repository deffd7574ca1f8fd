//! Admission: whether the credentials that a client offers are enough.
//!
//! The decision is a function of the configured method and of the offered
//! credentials. It keeps no state, so no connection can change what the
//! next one is told.

use crate::config::AuthView;
use crate::text::same_text;
use vstd::prelude::*;

verus! {

/// The authentication method of a listener, as the hook that decides
/// admission.
#[derive(Debug, Clone, PartialEq, Eq)]
pub struct Auth(pub crate::config::Auth);

/// Why no decision was made.
#[derive(Debug, Clone, Copy, PartialEq, Eq)]
pub enum AuthError {
    /// The directory-service method is reserved and nothing implements it.
    NotSupported,
}

impl View for Auth {
    type V = AuthView;

    open spec fn view(&self) -> AuthView {
        self.0@
    }
}

/// The model of offered credentials: user name and password, if any were
/// offered.
pub type Credentials = Option<(Seq<char>, Seq<char>)>;

/// The model of the credentials `offered`.
pub open spec fn credentials_view(offered: Option<(String, String)>) -> Credentials {
    match offered {
        Some((user, pass)) => Some((user@, pass@)),
        None => None,
    }
}

/// Whether `method` can decide at all.
pub open spec fn supported(method: AuthView) -> bool {
    !(method is Ldap)
}

/// Whether `method` admits a client that offers `offered`.
///
/// Without authentication everybody is admitted. With a user name and a
/// password, exactly the client that offers both, character for character.
/// The reserved method admits nobody.
pub open spec fn admits(method: AuthView, offered: Credentials) -> bool {
    match method {
        AuthView::NoAuth => true,
        AuthView::UserPass { username, password } => offered == Some((username, password)),
        AuthView::Ldap => false,
    }
}

/// What a decision on `offered` under `method` comes to.
pub open spec fn decision(method: AuthView, offered: Credentials) -> Result<Option<()>, AuthError> {
    if !supported(method) {
        Err(AuthError::NotSupported)
    } else if admits(method, offered) {
        Ok(Some(()))
    } else {
        Ok(None)
    }
}

impl Auth {
    /// Decides on the credentials that a client offered: `Some` admits,
    /// `None` rejects.
    ///
    /// The reserved directory-service method cannot decide, so it is left
    /// out here. [`Auth::try_authenticate`] takes every method.
    pub fn authenticate(&self, credentials: Option<(String, String)>) -> (admitted: Option<()>)
        requires
            supported(self@),
        ensures
            admitted == if admits(self@, credentials_view(credentials)) {
                Some(())
            } else {
                None
            },
    {
        match &self.0 {
            crate::config::Auth::NoAuth => Some(()),
            crate::config::Auth::UserPass { username, password } => match credentials {
                Some((user, pass)) => {
                    if same_text(user.as_str(), username.as_str()) && same_text(
                        pass.as_str(),
                        password.as_str(),
                    ) {
                        Some(())
                    } else {
                        None
                    }
                },
                None => None,
            },
            crate::config::Auth::Ldap => unreached(),
        }
    }

    /// Decides on the credentials that a client offered, under any method.
    ///
    /// The reserved directory-service method is answered with
    /// [`AuthError::NotSupported`], whatever was offered, in place of a
    /// decision that nothing defines.
    pub fn try_authenticate(&self, credentials: Option<(String, String)>) -> (r: Result<
        Option<()>,
        AuthError,
    >)
        ensures
            r == decision(self@, credentials_view(credentials)),
    {
        match &self.0 {
            crate::config::Auth::Ldap => Err(AuthError::NotSupported),
            _ => Ok(self.authenticate(credentials)),
        }
    }
}

/// Under a user name and a password, the client that offers exactly these
/// is admitted, and no other: not one whose password or user name is longer
/// by `extra`, and not one that offers nothing.
pub proof fn lemma_userpass_admits_exactly_the_pair(
    username: Seq<char>,
    password: Seq<char>,
    extra: Seq<char>,
    offered: Credentials,
)
    requires
        extra.len() > 0,
    ensures
        admits(AuthView::UserPass { username, password }, Some((username, password))),
        !admits(AuthView::UserPass { username, password }, Some((username, password + extra))),
        !admits(AuthView::UserPass { username, password }, Some((username + extra, password))),
        !admits(AuthView::UserPass { username, password }, None),
        admits(AuthView::UserPass { username, password }, offered) <==> offered == Some(
            (username, password),
        ),
{
    assert((password + extra).len() != password.len());
    assert((username + extra).len() != username.len());
}

/// Without authentication every client is admitted, whether it offers
/// credentials or not.
pub proof fn lemma_no_auth_admits_everyone(offered: Credentials)
    ensures
        admits(AuthView::NoAuth, offered),
        decision(AuthView::NoAuth, offered) == Ok::<Option<()>, AuthError>(Some(())),
{
}

} // verus!
