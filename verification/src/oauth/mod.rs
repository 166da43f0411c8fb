//! Signing in with GitHub and Google, keeping the credentials in the system keyring, and
//! refreshing them when they expire.
//!
//! The sign-in talks to GitHub, to Google and to the keyring. Those calls are made by the
//! caller; the decisions between them are the state machines here: each step takes what the
//! last call answered and says which call comes next.
pub mod google;

use vstd::prelude::*;
use crate::device_flow::Credentials;
use crate::error::CoinError;
use crate::utils::{spec_is_expired_at, is_expired_at, max_utc_timestamp, utc_now_timestamp};
use self::google::GoogleCredentials;

verus! {

/// The keyring entry (service name) under which the GitHub credentials are kept.
pub open spec fn github_service_name() -> Seq<char> {
    "coinv_github"@
}

/// The keyring entry (service name) under which the Google credentials are kept.
pub open spec fn google_service_name() -> Seq<char> {
    "coinv_google"@
}

/// The name of the keyring entry that holds the GitHub credentials.
pub fn github_keyring_service() -> (s: String)
    ensures
        s@ == github_service_name(),
{
    let s = String::from_str("coinv").concat("_github");
    proof {
        reveal_strlit("coinv");
        reveal_strlit("_github");
        reveal_strlit("coinv_github");
    }
    assert(s@ =~= github_service_name());
    s
}

/// The name of the keyring entry that holds the Google credentials.
pub fn google_keyring_service() -> (s: String)
    ensures
        s@ == google_service_name(),
{
    let s = String::from_str("coinv").concat("_google");
    proof {
        reveal_strlit("coinv");
        reveal_strlit("_google");
        reveal_strlit("coinv_google");
    }
    assert(s@ =~= google_service_name());
    s
}

/// The GitHub and the Google credentials are kept under different keyring entries, so that
/// storing one never overwrites the other.
pub proof fn lemma_keyring_services_differ()
    ensures
        github_service_name() != google_service_name(),
{
    reveal_strlit("coinv_github");
    reveal_strlit("coinv_google");
    assert(github_service_name()[7] != google_service_name()[7]);
}

/// Why the keyring did not hand out a password.
#[derive(Debug, Clone, PartialEq, Eq)]
pub enum KeyringFailure {
    /// The keyring holds no such entry.
    NoEntry,
    /// Any other failure, with its message.
    Other(String),
}

/// Reads the answer of the keyring to a password lookup: a missing entry is reported as
/// such, any other failure as a keyring error.
pub fn keyring_password(read: Result<String, KeyringFailure>) -> (r: Result<String, CoinError>)
    ensures
        read matches Ok(p) ==> r == Ok::<String, CoinError>(p),
        read matches Err(KeyringFailure::NoEntry) ==> r == Err::<String, CoinError>(
            CoinError::KeyringNoEntry,
        ),
        read matches Err(KeyringFailure::Other(m)) ==> r == Err::<String, CoinError>(
            CoinError::Keyring(m),
        ),
{
    match read {
        Ok(password) => Ok(password),
        Err(KeyringFailure::NoEntry) => Err(CoinError::KeyringNoEntry),
        Err(KeyringFailure::Other(m)) => Err(CoinError::Keyring(m)),
    }
}

/// A signed-in session: the GitHub credentials and the Google credentials obtained with them.
#[derive(Debug, Clone, PartialEq, Eq)]
pub struct OAuthManager {
    pub idp_credentials: Credentials,
    pub google_credentials: GoogleCredentials,
}

/// What a sign-in asks its caller to do next.
#[derive(Debug, PartialEq, Eq)]
pub enum SignInAction<T> {
    /// Read both credentials from the keyring.
    ReadKeyring,
    /// Authorize with GitHub, refreshing with this token if there is one.
    AuthorizeGithub { refresh_token: Option<String> },
    /// Sign in to Google with this GitHub access token.
    SignInGoogle { access_token: String },
    /// Store both credentials in the keyring.
    StoreCredentials { github: Credentials, google: GoogleCredentials },
    /// The sign-in is over, with this outcome.
    Finish(Result<T, CoinError>),
}

/// What the caller reports back after doing what a sign-in asked.
#[derive(Debug, PartialEq, Eq)]
pub enum SignInEvent {
    KeyringRead(Result<(Credentials, GoogleCredentials), CoinError>),
    GithubAuthorized(Result<Credentials, CoinError>),
    GoogleSignedIn(Result<GoogleCredentials, CoinError>),
    CredentialsStored(Result<(), CoinError>),
}

/// Where a first sign-in stands.
#[derive(Debug, Clone, PartialEq, Eq)]
pub enum InitStage {
    ReadingKeyring,
    AuthorizingGithub,
    SigningInGoogle { github: Credentials },
    StoringCredentials { github: Credentials, google: GoogleCredentials },
}

/// Whether a first sign-in that stands at `stage` waits for `event`.
pub open spec fn init_awaits(stage: InitStage, event: SignInEvent) -> bool {
    match (stage, event) {
        (InitStage::ReadingKeyring, SignInEvent::KeyringRead(_)) => true,
        (InitStage::AuthorizingGithub, SignInEvent::GithubAuthorized(_)) => true,
        (InitStage::SigningInGoogle { .. }, SignInEvent::GoogleSignedIn(_)) => true,
        (InitStage::StoringCredentials { .. }, SignInEvent::CredentialsStored(_)) => true,
        _ => false,
    }
}

/// One step of a first sign-in: from where it stands and what the last call answered, where
/// it stands next (nowhere once it is over) and what to do.
///
/// Credentials found in the keyring are refreshed with their refresh token; without an entry
/// GitHub authorizes anew; any other failure ends the sign-in with that error. Only the events
/// that the stage waits for (`init_awaits`) are given a meaning.
pub open spec fn spec_init_next(stage: InitStage, event: SignInEvent) -> (
    Option<InitStage>,
    SignInAction<OAuthManager>,
) {
    match event {
        SignInEvent::KeyringRead(Ok((github, _))) => (
            Some(InitStage::AuthorizingGithub),
            SignInAction::AuthorizeGithub { refresh_token: Some(github.refresh_token) },
        ),
        SignInEvent::KeyringRead(Err(CoinError::KeyringNoEntry)) => (
            Some(InitStage::AuthorizingGithub),
            SignInAction::AuthorizeGithub { refresh_token: None },
        ),
        SignInEvent::GithubAuthorized(Ok(github)) => (
            Some(InitStage::SigningInGoogle { github }),
            SignInAction::SignInGoogle { access_token: github.access_token },
        ),
        SignInEvent::GoogleSignedIn(Ok(google)) => match stage {
            InitStage::SigningInGoogle { github } => (
                Some(InitStage::StoringCredentials { github, google }),
                SignInAction::StoreCredentials { github, google },
            ),
            _ => (None, SignInAction::ReadKeyring),
        },
        SignInEvent::CredentialsStored(Ok(())) => match stage {
            InitStage::StoringCredentials { github, google } => (
                None,
                SignInAction::Finish(
                    Ok(OAuthManager { idp_credentials: github, google_credentials: google }),
                ),
            ),
            _ => (None, SignInAction::ReadKeyring),
        },
        SignInEvent::KeyringRead(Err(e)) => (None, SignInAction::Finish(Err(e))),
        SignInEvent::GithubAuthorized(Err(e)) => (None, SignInAction::Finish(Err(e))),
        SignInEvent::GoogleSignedIn(Err(e)) => (None, SignInAction::Finish(Err(e))),
        SignInEvent::CredentialsStored(Err(e)) => (None, SignInAction::Finish(Err(e))),
    }
}

impl InitStage {
    /// Whether a first sign-in that stands here waits for `event`.
    pub fn awaits(&self, event: &SignInEvent) -> (b: bool)
        ensures
            b == init_awaits(*self, *event),
    {
        match (self, event) {
            (InitStage::ReadingKeyring, SignInEvent::KeyringRead(_)) => true,
            (InitStage::AuthorizingGithub, SignInEvent::GithubAuthorized(_)) => true,
            (InitStage::SigningInGoogle { .. }, SignInEvent::GoogleSignedIn(_)) => true,
            (InitStage::StoringCredentials { .. }, SignInEvent::CredentialsStored(_)) => true,
            _ => false,
        }
    }
}

impl OAuthManager {
    /// The first step of a first sign-in: read the keyring.
    pub fn init_start() -> (r: (InitStage, SignInAction<OAuthManager>))
        ensures
            r == (InitStage::ReadingKeyring, SignInAction::<OAuthManager>::ReadKeyring),
    {
        (InitStage::ReadingKeyring, SignInAction::ReadKeyring)
    }

    /// One step of a first sign-in (`try_init_github_google`); see `spec_init_next`.
    pub fn try_init_github_google(stage: InitStage, event: SignInEvent) -> (r: (
        Option<InitStage>,
        SignInAction<OAuthManager>,
    ))
        requires
            init_awaits(stage, event),
        ensures
            r == spec_init_next(stage, event),
    {
        match event {
            SignInEvent::KeyringRead(Ok((github, _))) => (
                Some(InitStage::AuthorizingGithub),
                SignInAction::AuthorizeGithub { refresh_token: Some(github.refresh_token) },
            ),
            SignInEvent::KeyringRead(Err(CoinError::KeyringNoEntry)) => (
                Some(InitStage::AuthorizingGithub),
                SignInAction::AuthorizeGithub { refresh_token: None },
            ),
            SignInEvent::KeyringRead(Err(e)) => (None, SignInAction::Finish(Err(e))),
            SignInEvent::GithubAuthorized(Ok(github)) => {
                let access_token = github.access_token.clone();
                (
                    Some(InitStage::SigningInGoogle { github }),
                    SignInAction::SignInGoogle { access_token },
                )
            },
            SignInEvent::GithubAuthorized(Err(e)) => (None, SignInAction::Finish(Err(e))),
            SignInEvent::GoogleSignedIn(Ok(google)) => match stage {
                InitStage::SigningInGoogle { github } => {
                    let action = SignInAction::StoreCredentials {
                        github: github.duplicate(),
                        google: google.duplicate(),
                    };
                    (Some(InitStage::StoringCredentials { github, google }), action)
                },
                _ => (None, SignInAction::ReadKeyring),
            },
            SignInEvent::GoogleSignedIn(Err(e)) => (None, SignInAction::Finish(Err(e))),
            SignInEvent::CredentialsStored(Ok(())) => match stage {
                InitStage::StoringCredentials { github, google } => (
                    None,
                    SignInAction::Finish(
                        Ok(OAuthManager { idp_credentials: github, google_credentials: google }),
                    ),
                ),
                _ => (None, SignInAction::ReadKeyring),
            },
            SignInEvent::CredentialsStored(Err(e)) => (None, SignInAction::Finish(Err(e))),
        }
    }
}

/// Where a refresh of a session stands.
#[derive(Debug, Clone, Copy, PartialEq, Eq)]
pub enum RefreshStage {
    AuthorizingGithub,
    SigningInGoogle,
    StoringCredentials,
}

/// Whether a refresh that stands at `stage` waits for `event`.
pub open spec fn refresh_awaits(stage: RefreshStage, event: SignInEvent) -> bool {
    match (stage, event) {
        (RefreshStage::AuthorizingGithub, SignInEvent::GithubAuthorized(_)) => true,
        (RefreshStage::SigningInGoogle, SignInEvent::GoogleSignedIn(_)) => true,
        (RefreshStage::StoringCredentials, SignInEvent::CredentialsStored(_)) => true,
        _ => false,
    }
}

/// Whether a session counts as expired when the clock read `now_google` for its Google
/// credentials and `now_github` for its GitHub credentials.
pub open spec fn session_expired_at(m: OAuthManager, now_google: i64, now_github: i64) -> bool {
    spec_is_expired_at(m.google_credentials.timestamp, m.google_credentials.expires_in, now_google)
        || spec_is_expired_at(m.idp_credentials.timestamp, m.idp_credentials.expires_in, now_github)
}

/// Whether the lifetimes of a session's credentials can be added up without overflow.
pub open spec fn lifetimes_fit(m: OAuthManager) -> bool {
    &&& m.google_credentials.timestamp + m.google_credentials.expires_in <= u64::MAX
    &&& m.idp_credentials.timestamp + m.idp_credentials.expires_in <= u64::MAX
}

/// How a request for the session's credentials starts: an expired session is refreshed by a
/// new GitHub authorization (without refresh token); a current one hands out its credentials.
pub open spec fn spec_refresh_start(m: OAuthManager, expired: bool) -> (
    Option<RefreshStage>,
    SignInAction<(Credentials, GoogleCredentials)>,
) {
    if expired {
        (Some(RefreshStage::AuthorizingGithub), SignInAction::AuthorizeGithub { refresh_token: None })
    } else {
        (None, SignInAction::Finish(Ok((m.idp_credentials, m.google_credentials))))
    }
}

/// One step of a refresh: the session as it becomes, where the refresh stands next and what
/// to do.
///
/// The session takes the new GitHub credentials as soon as GitHub hands them out. The new
/// Google credentials are stored in the keyring, but the session keeps, and hands out, the
/// Google credentials it had. Only the events that the stage waits for (`refresh_awaits`) are
/// given a meaning.
pub open spec fn spec_refresh_next(m: OAuthManager, stage: RefreshStage, event: SignInEvent) -> (
    OAuthManager,
    Option<RefreshStage>,
    SignInAction<(Credentials, GoogleCredentials)>,
) {
    match event {
        SignInEvent::GithubAuthorized(Ok(github)) => (
            OAuthManager { idp_credentials: github, ..m },
            Some(RefreshStage::SigningInGoogle),
            SignInAction::SignInGoogle { access_token: github.access_token },
        ),
        SignInEvent::GoogleSignedIn(Ok(google)) => (
            m,
            Some(RefreshStage::StoringCredentials),
            SignInAction::StoreCredentials { github: m.idp_credentials, google },
        ),
        SignInEvent::CredentialsStored(Ok(())) => (
            m,
            None,
            SignInAction::Finish(Ok((m.idp_credentials, m.google_credentials))),
        ),
        SignInEvent::KeyringRead(_) => (m, None, SignInAction::ReadKeyring),
        SignInEvent::GithubAuthorized(Err(e)) => (m, None, SignInAction::Finish(Err(e))),
        SignInEvent::GoogleSignedIn(Err(e)) => (m, None, SignInAction::Finish(Err(e))),
        SignInEvent::CredentialsStored(Err(e)) => (m, None, SignInAction::Finish(Err(e))),
    }
}

impl RefreshStage {
    /// Whether a refresh that stands here waits for `event`.
    pub fn awaits(&self, event: &SignInEvent) -> (b: bool)
        ensures
            b == refresh_awaits(*self, *event),
    {
        match (self, event) {
            (RefreshStage::AuthorizingGithub, SignInEvent::GithubAuthorized(_)) => true,
            (RefreshStage::SigningInGoogle, SignInEvent::GoogleSignedIn(_)) => true,
            (RefreshStage::StoringCredentials, SignInEvent::CredentialsStored(_)) => true,
            _ => false,
        }
    }
}

impl OAuthManager {
    /// A copy of this session.
    pub fn duplicate(&self) -> (m: Self)
        ensures
            m == *self,
    {
        OAuthManager {
            idp_credentials: self.idp_credentials.duplicate(),
            google_credentials: self.google_credentials.duplicate(),
        }
    }

    /// A shared handle on a copy of this session. The session is a value: later changes to
    /// this session do not reach the copy (a session that several tasks share is held in a
    /// lock by its caller).
    pub fn arc_clone(&self) -> (r: std::sync::Arc<Self>)
        ensures
            *r == *self,
    {
        std::sync::Arc::new(self.duplicate())
    }

    /// Whether the session counts as expired when the clock read `now_google` for its Google
    /// credentials and `now_github` for its GitHub credentials: either of them has expired.
    pub fn is_expired_at(&self, now_google: i64, now_github: i64) -> (b: bool)
        requires
            lifetimes_fit(*self),
        ensures
            b == session_expired_at(*self, now_google, now_github),
    {
        is_expired_at(self.google_credentials.timestamp, self.google_credentials.expires_in, now_google)
            || is_expired_at(self.idp_credentials.timestamp, self.idp_credentials.expires_in, now_github)
    }

    /// Whether the session's Google or GitHub credentials count as expired now, by the
    /// system clock (read for the Google credentials, then, if they are current, for the GitHub
    /// credentials); `None` when the clock shows no UTC date-time at or after the UNIX epoch.
    pub fn is_expired(&self) -> (b: Option<bool>)
        requires
            lifetimes_fit(*self),
        ensures
            b matches Some(expired) ==> exists|now_google: i64, now_github: i64|
                0 <= now_google <= max_utc_timestamp() && 0 <= now_github <= max_utc_timestamp()
                    && expired == #[trigger] session_expired_at(*self, now_google, now_github),
    {
        let now_google = match utc_now_timestamp() {
            Some(now) => now,
            None => return None,
        };
        if is_expired_at(self.google_credentials.timestamp, self.google_credentials.expires_in, now_google) {
            let expired = self.is_expired_at(now_google, now_google);
            assert(expired == session_expired_at(*self, now_google, now_google));
            return Some(expired);
        }
        let now_github = match utc_now_timestamp() {
            Some(now) => now,
            None => return None,
        };
        let expired = self.is_expired_at(now_google, now_github);
        assert(expired == session_expired_at(*self, now_google, now_github));
        Some(expired)
    }

    /// How a request for the session's credentials starts, given whether it has expired;
    /// see `spec_refresh_start`.
    pub fn refresh_start(&self, expired: bool) -> (r: (
        Option<RefreshStage>,
        SignInAction<(Credentials, GoogleCredentials)>,
    ))
        ensures
            r == spec_refresh_start(*self, expired),
    {
        if expired {
            (Some(RefreshStage::AuthorizingGithub), SignInAction::AuthorizeGithub { refresh_token: None })
        } else {
            (
                None,
                SignInAction::Finish(
                    Ok((self.idp_credentials.duplicate(), self.google_credentials.duplicate())),
                ),
            )
        }
    }

    /// Starts a request for the session's credentials (`credentials_or_refresh`): they are
    /// handed out as they are unless the clock shows them expired; `None` when the clock shows
    /// no UTC date-time at or after the UNIX epoch.
    pub fn credentials_or_refresh(&self) -> (r: Option<
        (Option<RefreshStage>, SignInAction<(Credentials, GoogleCredentials)>),
    >)
        requires
            lifetimes_fit(*self),
        ensures
            r matches Some(step) ==> exists|now_google: i64, now_github: i64|
                0 <= now_google <= max_utc_timestamp() && 0 <= now_github <= max_utc_timestamp()
                    && step == spec_refresh_start(
                    *self,
                    #[trigger] session_expired_at(*self, now_google, now_github),
                ),
    {
        match self.is_expired() {
            Some(expired) => Some(self.refresh_start(expired)),
            None => None,
        }
    }

    /// One step of a refresh; see `spec_refresh_next`.
    pub fn refresh_next(&mut self, stage: RefreshStage, event: SignInEvent) -> (r: (
        Option<RefreshStage>,
        SignInAction<(Credentials, GoogleCredentials)>,
    ))
        requires
            refresh_awaits(stage, event),
        ensures
            (*final(self), r.0, r.1) == spec_refresh_next(*old(self), stage, event),
    {
        match event {
            SignInEvent::GithubAuthorized(Ok(github)) => {
                let access_token = github.access_token.clone();
                self.idp_credentials = github;
                (Some(RefreshStage::SigningInGoogle), SignInAction::SignInGoogle { access_token })
            },
            SignInEvent::GoogleSignedIn(Ok(google)) => (
                Some(RefreshStage::StoringCredentials),
                SignInAction::StoreCredentials { github: self.idp_credentials.duplicate(), google },
            ),
            SignInEvent::CredentialsStored(Ok(())) => (
                None,
                SignInAction::Finish(
                    Ok((self.idp_credentials.duplicate(), self.google_credentials.duplicate())),
                ),
            ),
            SignInEvent::KeyringRead(_) => (None, SignInAction::ReadKeyring),
            SignInEvent::GithubAuthorized(Err(e)) => (None, SignInAction::Finish(Err(e))),
            SignInEvent::GoogleSignedIn(Err(e)) => (None, SignInAction::Finish(Err(e))),
            SignInEvent::CredentialsStored(Err(e)) => (None, SignInAction::Finish(Err(e))),
        }
    }
}

/// A first sign-in whose calls all succeed, after the keyring held credentials or had no
/// entry: it authorizes with the stored refresh token (anew when there was no entry), signs
/// in to Google with the new GitHub access token, stores both new credentials, and ends with
/// a session that holds exactly the credentials it stored. Each step waits for the event
/// that comes next.
pub proof fn lemma_init_completes(
    read: Result<(Credentials, GoogleCredentials), CoinError>,
    github: Credentials,
    google: GoogleCredentials,
)
    requires
        read is Ok || read == Err::<(Credentials, GoogleCredentials), CoinError>(
            CoinError::KeyringNoEntry,
        ),
    ensures
        ({
            let (s1, a1) = spec_init_next(InitStage::ReadingKeyring, SignInEvent::KeyringRead(read));
            let (s2, a2) = spec_init_next(s1.unwrap(), SignInEvent::GithubAuthorized(Ok(github)));
            let (s3, a3) = spec_init_next(s2.unwrap(), SignInEvent::GoogleSignedIn(Ok(google)));
            let (s4, a4) = spec_init_next(s3.unwrap(), SignInEvent::CredentialsStored(Ok(())));
            &&& init_awaits(InitStage::ReadingKeyring, SignInEvent::KeyringRead(read))
            &&& s1 is Some && init_awaits(s1.unwrap(), SignInEvent::GithubAuthorized(Ok(github)))
            &&& s2 is Some && init_awaits(s2.unwrap(), SignInEvent::GoogleSignedIn(Ok(google)))
            &&& s3 is Some && init_awaits(s3.unwrap(), SignInEvent::CredentialsStored(Ok(())))
            &&& a1 == SignInAction::<OAuthManager>::AuthorizeGithub {
                refresh_token: match read {
                    Ok((stored, _)) => Some(stored.refresh_token),
                    Err(_) => None,
                },
            }
            &&& a2 == SignInAction::<OAuthManager>::SignInGoogle {
                access_token: github.access_token,
            }
            &&& a3 == SignInAction::<OAuthManager>::StoreCredentials { github, google }
            &&& a4 == SignInAction::<OAuthManager>::Finish(
                Ok(OAuthManager { idp_credentials: github, google_credentials: google }),
            )
            &&& s4 is None
        }),
{
}

/// A failed call ends a first sign-in with the failure, except that a keyring without entry
/// leads to a new authorization.
pub proof fn lemma_init_failure_ends(stage: InitStage, e: CoinError)
    ensures
        e != CoinError::KeyringNoEntry ==> spec_init_next(
            stage,
            SignInEvent::KeyringRead(Err(e)),
        ) == (None::<InitStage>, SignInAction::<OAuthManager>::Finish(Err(e))),
        spec_init_next(stage, SignInEvent::GithubAuthorized(Err(e))) == (
            None::<InitStage>,
            SignInAction::<OAuthManager>::Finish(Err(e)),
        ),
        spec_init_next(stage, SignInEvent::GoogleSignedIn(Err(e))) == (
            None::<InitStage>,
            SignInAction::<OAuthManager>::Finish(Err(e)),
        ),
        spec_init_next(stage, SignInEvent::CredentialsStored(Err(e))) == (
            None::<InitStage>,
            SignInAction::<OAuthManager>::Finish(Err(e)),
        ),
{
}

/// A session that has not expired hands out its credentials as they are, without any call.
pub proof fn lemma_current_session_handed_out(m: OAuthManager)
    ensures
        spec_refresh_start(m, false) == (
            None::<RefreshStage>,
            SignInAction::<(Credentials, GoogleCredentials)>::Finish(
                Ok((m.idp_credentials, m.google_credentials)),
            ),
        ),
{
}

/// A refresh of an expired session whose calls all succeed: it authorizes with GitHub
/// without refresh token, signs in to Google with the new access token, stores the new GitHub
/// and new Google credentials, and ends with the session holding the new GitHub credentials
/// beside its earlier Google credentials, which are the pair it hands out.
pub proof fn lemma_refresh_completes(m: OAuthManager, github: Credentials, google: GoogleCredentials)
    ensures
        ({
            let (s0, a0) = spec_refresh_start(m, true);
            let (m1, s1, a1) = spec_refresh_next(m, s0.unwrap(), SignInEvent::GithubAuthorized(Ok(github)));
            let (m2, s2, a2) = spec_refresh_next(m1, s1.unwrap(), SignInEvent::GoogleSignedIn(Ok(google)));
            let (m3, s3, a3) = spec_refresh_next(m2, s2.unwrap(), SignInEvent::CredentialsStored(Ok(())));
            &&& a0 == SignInAction::<(Credentials, GoogleCredentials)>::AuthorizeGithub {
                refresh_token: None,
            }
            &&& s0 is Some && refresh_awaits(s0.unwrap(), SignInEvent::GithubAuthorized(Ok(github)))
            &&& s1 is Some && refresh_awaits(s1.unwrap(), SignInEvent::GoogleSignedIn(Ok(google)))
            &&& s2 is Some && refresh_awaits(s2.unwrap(), SignInEvent::CredentialsStored(Ok(())))
            &&& a1 == SignInAction::<(Credentials, GoogleCredentials)>::SignInGoogle {
                access_token: github.access_token,
            }
            &&& a2 == SignInAction::<(Credentials, GoogleCredentials)>::StoreCredentials {
                github,
                google,
            }
            &&& a3 == SignInAction::<(Credentials, GoogleCredentials)>::Finish(
                Ok((github, m.google_credentials)),
            )
            &&& s3 is None
            &&& m3 == OAuthManager { idp_credentials: github, google_credentials: m.google_credentials }
        }),
{
}

/// A refresh that GitHub refuses ends with the refusal and leaves the session as it was.
pub proof fn lemma_refresh_refused(m: OAuthManager, e: CoinError)
    ensures
        spec_refresh_next(m, RefreshStage::AuthorizingGithub, SignInEvent::GithubAuthorized(Err(e)))
            == (m, None::<RefreshStage>, SignInAction::<(Credentials, GoogleCredentials)>::Finish(
            Err(e),
        )),
{
}

/// A call that fails during a refresh, whatever the refresh waited for, ends the refresh
/// with that very error and leaves the session as it was: a failed GitHub authorization, a
/// failed Google sign-in or a failed store never hands out credentials.
pub proof fn lemma_refresh_failure_ends(m: OAuthManager, stage: RefreshStage, e: CoinError)
    ensures
        spec_refresh_next(m, stage, SignInEvent::GithubAuthorized(Err(e))) == (
            m,
            None::<RefreshStage>,
            SignInAction::<(Credentials, GoogleCredentials)>::Finish(Err(e)),
        ),
        spec_refresh_next(m, stage, SignInEvent::GoogleSignedIn(Err(e))) == (
            m,
            None::<RefreshStage>,
            SignInAction::<(Credentials, GoogleCredentials)>::Finish(Err(e)),
        ),
        spec_refresh_next(m, stage, SignInEvent::CredentialsStored(Err(e))) == (
            m,
            None::<RefreshStage>,
            SignInAction::<(Credentials, GoogleCredentials)>::Finish(Err(e)),
        ),
{
}

/// A refresh hands out credentials only when the keyring has stored what was signed in:
/// any step that finishes with credentials took the success of the store, and the pair it
/// hands out is the session's GitHub credentials beside its Google credentials.
pub proof fn lemma_refresh_hands_out_only_after_store(
    m: OAuthManager,
    stage: RefreshStage,
    event: SignInEvent,
)
    requires
        spec_refresh_next(m, stage, event).2 matches SignInAction::Finish(Ok(_)),
    ensures
        event matches SignInEvent::CredentialsStored(Ok(_)),
        spec_refresh_next(m, stage, event).2 == SignInAction::<(Credentials, GoogleCredentials)>::Finish(
            Ok((m.idp_credentials, m.google_credentials)),
        ),
{
}

/// A session counts as expired once either of its credentials does: its GitHub credentials
/// expired at the reading `now_github` make the whole session expired, whatever the reading
/// for its Google credentials, and likewise the other way round.
pub proof fn lemma_session_expired_by_either(m: OAuthManager, now_google: i64, now_github: i64)
    ensures
        spec_is_expired_at(m.idp_credentials.timestamp, m.idp_credentials.expires_in, now_github)
            ==> session_expired_at(m, now_google, now_github),
        spec_is_expired_at(m.google_credentials.timestamp, m.google_credentials.expires_in, now_google)
            ==> session_expired_at(m, now_google, now_github),
        !spec_is_expired_at(m.idp_credentials.timestamp, m.idp_credentials.expires_in, now_github)
            && !spec_is_expired_at(
            m.google_credentials.timestamp,
            m.google_credentials.expires_in,
            now_google,
        ) ==> !session_expired_at(m, now_google, now_github),
{
}

/// An expired session stays expired: at later readings of the clock it still counts as
/// expired.
pub proof fn lemma_session_stays_expired(
    m: OAuthManager,
    now_google: i64,
    now_github: i64,
    later_google: i64,
    later_github: i64,
)
    requires
        now_google <= later_google,
        now_github <= later_github,
        session_expired_at(m, now_google, now_github),
    ensures
        session_expired_at(m, later_google, later_github),
{
}

} // verus!
