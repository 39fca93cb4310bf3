use vstd::prelude::*;

use crate::config::Config;
use crate::errors::CliError;

verus! {

/// Which of the session-acquisition strategies applies, decided once per
/// run from mutually exclusive inputs.
#[derive(Debug, Clone, PartialEq, Eq)]
pub enum Credentials {
    /// A config file supplied a durable access token.
    ConfigDerived { school: String, access_token: String },
    /// A config file supplied only a temporary auth code; a bootstrap is
    /// still needed, and its result is persisted back to the file.
    ConfigDerivedPending { school: String, auth_code: String },
    /// An auth code was given on the command line; a bootstrap is needed
    /// but nothing is persisted.
    DirectAuthCode { school: String, auth_code: String },
    /// An access token was given on the command line.
    DirectAccessToken { school: String, access_token: String },
}

/// A resolved school + access token pair; it authorizes the fetch and is
/// immutable once built.
#[derive(Debug, Clone, PartialEq, Eq)]
pub struct Session {
    pub school: String,
    pub access_token: String,
}

/// What still has to happen before a `Session` exists: nothing, or the
/// one-time auth-code → access-token exchange, with or without a rewrite
/// of the config file afterwards.
#[derive(Debug, Clone, PartialEq, Eq)]
pub enum SessionPlan {
    /// The session can be built directly from a supplied token.
    Ready(Session),
    /// The external client must exchange the auth code first; `persist`
    /// says whether the result is written back to the config file.
    Exchange { school: String, auth_code: String, persist: bool },
}

/// The credential-resolution rule, first match wins: a loaded config file
/// beats an explicit auth code, which beats an explicit access token.
/// A config without either credential is a `MissingCredential` failure; an
/// explicit code or token without an explicit school is a `MissingSchool`
/// failure; nothing at all is an `InsufficientArguments` failure.
pub open spec fn spec_resolve(
    config: Option<Config>,
    auth_code: Option<String>,
    access_token: Option<String>,
    school: Option<String>,
) -> Result<Credentials, CliError> {
    if config is Some {
        let c = config->0;
        if c.access_token is Some {
            Ok(Credentials::ConfigDerived { school: c.school, access_token: c.access_token->0 })
        } else if c.temp is Some {
            Ok(
                Credentials::ConfigDerivedPending {
                    school: c.school,
                    auth_code: c.temp->0.auth_code,
                },
            )
        } else {
            Err(CliError::MissingCredential)
        }
    } else if auth_code is Some {
        if school is Some {
            Ok(Credentials::DirectAuthCode { school: school->0, auth_code: auth_code->0 })
        } else {
            Err(CliError::MissingSchool)
        }
    } else if access_token is Some {
        if school is Some {
            Ok(Credentials::DirectAccessToken { school: school->0, access_token: access_token->0 })
        } else {
            Err(CliError::MissingSchool)
        }
    } else {
        Err(CliError::InsufficientArguments)
    }
}

/// Selects the credential variant for this run.  `config` is the document
/// already loaded from the given path, if a path was given; the other three
/// are the explicit command-line values.
pub fn resolve_credentials(
    config: Option<Config>,
    auth_code: Option<String>,
    access_token: Option<String>,
    school: Option<String>,
) -> (r: Result<Credentials, CliError>)
    ensures
        r == spec_resolve(config, auth_code, access_token, school),
{
    match config {
        Some(c) => match c.access_token {
            Some(token) => Ok(
                Credentials::ConfigDerived { school: c.school, access_token: token },
            ),
            None => match c.temp {
                Some(t) => Ok(
                    Credentials::ConfigDerivedPending { school: c.school, auth_code: t.auth_code },
                ),
                None => Err(CliError::MissingCredential),
            },
        },
        None => match auth_code {
            Some(code) => match school {
                Some(sch) => Ok(Credentials::DirectAuthCode { school: sch, auth_code: code }),
                None => Err(CliError::MissingSchool),
            },
            None => match access_token {
                Some(token) => match school {
                    Some(sch) => Ok(
                        Credentials::DirectAccessToken { school: sch, access_token: token },
                    ),
                    None => Err(CliError::MissingSchool),
                },
                None => Err(CliError::InsufficientArguments),
            },
        },
    }
}

/// What each credential variant asks of the bootstrapper: the two token
/// variants yield a session directly; the two auth-code variants need the
/// exchange, and only the config-derived one persists the result.
pub open spec fn spec_plan(c: Credentials) -> SessionPlan {
    match c {
        Credentials::ConfigDerived { school, access_token } => SessionPlan::Ready(
            Session { school, access_token },
        ),
        Credentials::ConfigDerivedPending { school, auth_code } => SessionPlan::Exchange {
            school,
            auth_code,
            persist: true,
        },
        Credentials::DirectAuthCode { school, auth_code } => SessionPlan::Exchange {
            school,
            auth_code,
            persist: false,
        },
        Credentials::DirectAccessToken { school, access_token } => SessionPlan::Ready(
            Session { school, access_token },
        ),
    }
}

/// Turns the selected credentials into the bootstrap plan for this run.
pub fn plan_session(c: Credentials) -> (p: SessionPlan)
    ensures
        p == spec_plan(c),
{
    match c {
        Credentials::ConfigDerived { school, access_token } => SessionPlan::Ready(
            Session { school, access_token },
        ),
        Credentials::ConfigDerivedPending { school, auth_code } => SessionPlan::Exchange {
            school,
            auth_code,
            persist: true,
        },
        Credentials::DirectAuthCode { school, auth_code } => SessionPlan::Exchange {
            school,
            auth_code,
            persist: false,
        },
        Credentials::DirectAccessToken { school, access_token } => SessionPlan::Ready(
            Session { school, access_token },
        ),
    }
}

/// Builds the session from a successful exchange's access token.
pub fn session_from_exchange(school: String, access_token: String) -> (s: Session)
    ensures
        s.school == school,
        s.access_token == access_token,
{
    Session { school, access_token }
}

/// A loaded config always decides the outcome by itself: whatever explicit
/// values stand beside it are ignored.
pub proof fn lemma_config_wins(
    c: Config,
    auth_code: Option<String>,
    access_token: Option<String>,
    school: Option<String>,
)
    ensures
        spec_resolve(Some(c), auth_code, access_token, school) == spec_resolve(
            Some(c),
            None,
            None,
            None,
        ),
{
}

/// An explicit auth code or access token without an explicit school is
/// always rejected for the missing school.
pub proof fn lemma_missing_school_rejected(
    auth_code: Option<String>,
    access_token: Option<String>,
)
    requires
        auth_code is Some || access_token is Some,
    ensures
        spec_resolve(None, auth_code, access_token, None) == Err::<
            Credentials,
            CliError,
        >(CliError::MissingSchool),
{
}

/// A config holding an access token resolves without any bootstrap: the
/// session is built directly from the stored token.
pub proof fn lemma_stored_token_skips_bootstrap(c: Config)
    requires
        c.access_token is Some,
    ensures
        spec_resolve(Some(c), None, None, None) == Ok::<Credentials, CliError>(
            Credentials::ConfigDerived { school: c.school, access_token: c.access_token->0 },
        ),
        spec_plan(
            Credentials::ConfigDerived { school: c.school, access_token: c.access_token->0 },
        ) == SessionPlan::Ready(
            Session { school: c.school, access_token: c.access_token->0 },
        ),
{
}

/// A config holding only a temporary auth code resolves to the pending
/// variant, whose plan is the exchange with persistence: afterwards the
/// rewritten config stores the new token and drops the temporary section.
pub proof fn lemma_pending_token_bootstraps(c: Config)
    requires
        c.access_token is None,
        c.temp is Some,
    ensures
        spec_resolve(Some(c), None, None, None) == Ok::<Credentials, CliError>(
            Credentials::ConfigDerivedPending {
                school: c.school,
                auth_code: c.temp->0.auth_code,
            },
        ),
        spec_plan(
            Credentials::ConfigDerivedPending { school: c.school, auth_code: c.temp->0.auth_code },
        ) == (SessionPlan::Exchange {
            school: c.school,
            auth_code: c.temp->0.auth_code,
            persist: true,
        }),
{
}

} // verus!
