//! Credential negotiation: which single authentication attempt answers a
//! transport's challenge.
//!
//! The order is fixed. A key from the SSH agent comes first, a stored
//! username and password second, the default credential last.

use vstd::prelude::*;
use crate::error::Error;
use crate::error::ErrorView;

verus! {

/// Username and password in plain text.
pub const USER_PASS_PLAINTEXT: u32 = 1;

/// An SSH key.
pub const SSH_KEY: u32 = 2;

/// Whatever the platform uses by default, such as a Kerberos ticket.
pub const DEFAULT: u32 = 8;

/// The username tried where neither the transport nor the helper names one.
pub open spec fn fallback_username() -> Seq<char> {
    "git"@
}

/// The set of credential types that a transport accepts for one challenge,
/// one bit for each type.
#[derive(Clone, Copy, Debug, PartialEq, Eq, Structural)]
pub struct CredentialTypes {
    pub bits: u32,
}

impl CredentialTypes {
    /// Whether every type in `kind` is in the set.
    pub open spec fn accepts(self, kind: u32) -> bool {
        self.bits & kind == kind
    }

    /// Whether every type in `kind` is in the set.
    pub fn contains(&self, kind: u32) -> (b: bool)
        ensures
            b == self.accepts(kind),
    {
        self.bits & kind == kind
    }
}

/// A username and password that the credential helper has stored.
#[derive(Debug)]
pub struct StoredSecret {
    pub username: String,
    pub password: String,
}

/// What the locally configured credential helper knows for the remote.
#[derive(Debug)]
pub struct Helper {
    /// The username that the configuration names.
    pub username: Option<String>,
    /// The stored username and password, if any.
    pub stored: Option<StoredSecret>,
}

/// Mathematical value of a [`Helper`].
pub struct HelperView {
    pub username: Option<Seq<char>>,
    pub stored: Option<(Seq<char>, Seq<char>)>,
}

impl DeepView for Helper {
    type V = HelperView;

    open spec fn deep_view(&self) -> HelperView {
        HelperView {
            username: self.username.deep_view(),
            stored: match self.stored {
                Some(secret) => Some((secret.username@, secret.password@)),
                None => None,
            },
        }
    }
}

/// The one authentication attempt made for a challenge.
#[derive(Debug)]
pub enum Credential {
    /// The key that the running SSH agent offers, for this username.
    SshAgent { username: String },
    /// This username and password, in plain text.
    UserPass { username: String, password: String },
    /// The default credential.
    Default,
}

/// Mathematical value of a [`Credential`].
pub enum CredentialView {
    SshAgent { username: Seq<char> },
    UserPass { username: Seq<char>, password: Seq<char> },
    Default,
}

impl DeepView for Credential {
    type V = CredentialView;

    open spec fn deep_view(&self) -> CredentialView {
        match self {
            Credential::SshAgent { username } => CredentialView::SshAgent { username: username@ },
            Credential::UserPass { username, password } => CredentialView::UserPass {
                username: username@,
                password: password@,
            },
            Credential::Default => CredentialView::Default,
        }
    }
}

/// The username an agent key is tried for: the transport's, else the
/// helper's, else the fallback.
pub open spec fn agent_username(hint: Option<Seq<char>>, helper: HelperView) -> Seq<char> {
    match hint {
        Some(name) => name,
        None => match helper.username {
            Some(name) => name,
            None => fallback_username(),
        },
    }
}

/// The plain-text pair: the stored one, else the fallback username with a
/// blank password.
pub open spec fn plaintext_pair(helper: HelperView) -> (Seq<char>, Seq<char>) {
    match helper.stored {
        Some(pair) => pair,
        None => (fallback_username(), Seq::empty()),
    }
}

/// The attempt that answers a challenge accepting `allowed`, or the failure
/// where none of the three served types is accepted.
pub open spec fn negotiated(
    allowed: CredentialTypes,
    hint: Option<Seq<char>>,
    helper: HelperView,
) -> Result<CredentialView, ErrorView> {
    if allowed.accepts(SSH_KEY) {
        Ok(CredentialView::SshAgent { username: agent_username(hint, helper) })
    } else if allowed.accepts(USER_PASS_PLAINTEXT) {
        Ok(
            CredentialView::UserPass {
                username: plaintext_pair(helper).0,
                password: plaintext_pair(helper).1,
            },
        )
    } else if allowed.accepts(DEFAULT) {
        Ok(CredentialView::Default)
    } else {
        Err(ErrorView::NoCredentials)
    }
}

/// The mathematical value of a negotiation's result.
pub open spec fn view_negotiation(result: Result<Credential, Error>) -> Result<
    CredentialView,
    ErrorView,
> {
    match result {
        Ok(credential) => Ok(credential.deep_view()),
        Err(e) => Err(e@),
    }
}

/// Chooses the single authentication attempt for one challenge.
///
/// `allowed` is what the transport accepts, `hint` the username it
/// supplied, `helper` what the credential helper holds for the remote.
/// Nothing is retried: where no served type is accepted the negotiation
/// fails, and with it the clone or fetch that raised the challenge.
pub fn negotiate(allowed: CredentialTypes, hint: &Option<String>, helper: &Helper) -> (result:
    Result<Credential, Error>)
    ensures
        view_negotiation(result) == negotiated(allowed, hint.deep_view(), helper.deep_view()),
{
    if allowed.contains(SSH_KEY) {
        let username = match hint {
            Some(name) => name.clone(),
            None => match &helper.username {
                Some(name) => name.clone(),
                None => "git".to_owned(),
            },
        };
        Ok(Credential::SshAgent { username })
    } else if allowed.contains(USER_PASS_PLAINTEXT) {
        match &helper.stored {
            Some(secret) => Ok(
                Credential::UserPass {
                    username: secret.username.clone(),
                    password: secret.password.clone(),
                },
            ),
            None => Ok(Credential::UserPass { username: "git".to_owned(), password: String::new() }),
        }
    } else if allowed.contains(DEFAULT) {
        Ok(Credential::Default)
    } else {
        Err(Error::NoCredentials)
    }
}

/// Whether the negotiation for `allowed` reads the stored username and
/// password: only where it answers in plain text.
pub open spec fn reads_stored_secret(allowed: CredentialTypes) -> bool {
    !allowed.accepts(SSH_KEY) && allowed.accepts(USER_PASS_PLAINTEXT)
}

/// Whether the stored username and password must be looked up before the
/// negotiation for `allowed`. Where this is false the helper need not be
/// run: the attempt does not depend on what it has stored.
pub fn wants_stored_secret(allowed: CredentialTypes) -> (wanted: bool)
    ensures
        wanted == reads_stored_secret(allowed),
{
    !allowed.contains(SSH_KEY) && allowed.contains(USER_PASS_PLAINTEXT)
}

/// The failure of a clone or fetch as it is reported: the negotiator's,
/// where it gave up during the transfer, else the backend's own.
pub open spec fn reported_failure(gave_up: bool, backend: ErrorView) -> ErrorView {
    if gave_up {
        ErrorView::NoCredentials
    } else {
        backend
    }
}

/// Names the cause of a failed clone or fetch. A negotiation that found no
/// suitable credential is the direct cause, whatever the backend made of it.
pub fn transfer_failure(gave_up: bool, backend: Error) -> (failure: Error)
    ensures
        failure@ == reported_failure(gave_up, backend@),
{
    if gave_up {
        Error::NoCredentials
    } else {
        backend
    }
}

/// The stored secret is read only for a plain-text answer: where it is not
/// wanted, the attempt is the same whatever the helper has stored.
pub proof fn lemma_unwanted_secret_is_not_read(
    allowed: CredentialTypes,
    hint: Option<Seq<char>>,
    helper: HelperView,
    other: HelperView,
)
    requires
        !reads_stored_secret(allowed),
        helper.username == other.username,
    ensures
        negotiated(allowed, hint, helper) == negotiated(allowed, hint, other),
{
}

/// The order of negotiation is fixed: a challenge that accepts an SSH key is
/// answered from the agent whatever else it accepts; plain text is used only
/// where no SSH key is accepted; the default credential only where neither
/// is; and the negotiation fails exactly where none of the three is.
pub proof fn lemma_negotiation_order(
    allowed: CredentialTypes,
    hint: Option<Seq<char>>,
    helper: HelperView,
)
    ensures
        allowed.accepts(SSH_KEY) ==> negotiated(allowed, hint, helper) matches Ok(
            CredentialView::SshAgent { .. },
        ),
        negotiated(allowed, hint, helper) matches Ok(CredentialView::UserPass { .. })
            ==> allowed.accepts(USER_PASS_PLAINTEXT) && !allowed.accepts(SSH_KEY),
        negotiated(allowed, hint, helper) matches Ok(CredentialView::Default) ==> allowed.accepts(
            DEFAULT,
        ) && !allowed.accepts(SSH_KEY) && !allowed.accepts(USER_PASS_PLAINTEXT),
        negotiated(allowed, hint, helper) is Err <==> !allowed.accepts(SSH_KEY)
            && !allowed.accepts(USER_PASS_PLAINTEXT) && !allowed.accepts(DEFAULT),
{
}

} // verus!
