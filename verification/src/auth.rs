//! A credential manager for GitHub alone: one keyring entry holds its credentials, and
//! handing out the access token refreshes them when they have expired.
use vstd::prelude::*;
use crate::device_flow::Credentials;
use crate::error::CoinError;
use crate::utils::{
    DateTime, EXPIRATION_MARGIN, from_timestamp, is_utc_timestamp, max_utc_timestamp,
    utc_now_timestamp, wrap_i64, wrapping_to_i64,
};

verus! {

/// The keyring entry (service name) under which the credentials are kept.
pub open spec fn keyring_service_name() -> Seq<char> {
    "coin-dev"@
}

/// The name of the keyring entry that holds the credentials.
pub fn keyring_service() -> (s: String)
    ensures
        s@ == keyring_service_name(),
{
    String::from_str("coin-dev")
}

/// The expiry of `credentials` as a signed UNIX timestamp: issue time plus lifetime, each read
/// as a signed number.
pub open spec fn credentials_expiry(credentials: Credentials) -> int {
    wrap_i64(credentials.timestamp as int) + wrap_i64(credentials.expires_in as int)
}

/// Whether the expiry of `credentials` can be computed without overflow.
pub open spec fn expiry_fits(credentials: Credentials) -> bool {
    i64::MIN <= credentials_expiry(credentials) <= i64::MAX
}

/// Whether `credentials` count as expired at the instant `now`.
pub open spec fn spec_is_expired_at(credentials: Credentials, now: i64) -> bool {
    credentials_expiry(credentials) < now + EXPIRATION_MARGIN
}

/// The expiry of `credentials` as a date-time; an error when no UTC date-time has it.
pub fn expiration_datetime(credentials: &Credentials) -> (r: Result<DateTime, CoinError>)
    requires
        expiry_fits(*credentials),
    ensures
        r is Ok <==> is_utc_timestamp(credentials_expiry(*credentials)),
        r matches Ok(dt) ==> dt.spec_timestamp() == credentials_expiry(*credentials),
        r matches Err(e) ==> e == CoinError::InvalidTimestamp,
{
    let ts = wrapping_to_i64(credentials.timestamp);
    let expires_in = wrapping_to_i64(credentials.expires_in);
    match from_timestamp(ts + expires_in) {
        Some(dt) => Ok(dt),
        None => Err(CoinError::InvalidTimestamp),
    }
}

/// Whether `credentials` count as expired at the instant `now`.
pub fn is_expired_at(credentials: &Credentials, now: i64) -> (b: bool)
    requires
        expiry_fits(*credentials),
    ensures
        b == spec_is_expired_at(*credentials, now),
{
    let ts = wrapping_to_i64(credentials.timestamp);
    let expires_in = wrapping_to_i64(credentials.expires_in);
    ((ts + expires_in) as i128) < (now as i128) + (EXPIRATION_MARGIN as i128)
}

/// Whether `credentials` count as expired now, by the system clock; `None` when the clock
/// shows no UTC date-time at or after the UNIX epoch.
pub fn is_expired(credentials: &Credentials) -> (b: Option<bool>)
    requires
        expiry_fits(*credentials),
    ensures
        b matches Some(expired) ==> exists|now: i64|
            0 <= now <= max_utc_timestamp() && expired == #[trigger] spec_is_expired_at(
                *credentials,
                now,
            ),
{
    match utc_now_timestamp() {
        Some(now) => {
            let expired = is_expired_at(credentials, now);
            assert(expired == spec_is_expired_at(*credentials, now));
            Some(expired)
        },
        None => None,
    }
}

/// Whether `r` is what handing out the access token of `credentials` gives: the token with
/// the expiry date-time, or an error when the expiry is no date-time.
pub open spec fn access_outcome(
    credentials: Credentials,
    r: Result<(String, DateTime), CoinError>,
) -> bool {
    match r {
        Ok((token, expiration)) => token == credentials.access_token && is_utc_timestamp(
            credentials_expiry(credentials),
        ) && expiration.spec_timestamp() == credentials_expiry(credentials),
        Err(e) => e == CoinError::InvalidTimestamp && !is_utc_timestamp(
            credentials_expiry(credentials),
        ),
    }
}

/// Whether `action` ends handing out the access token of `credentials` as `access_outcome`
/// says.
pub open spec fn finishes_with_access(
    credentials: Credentials,
    action: ManagerAction<(String, DateTime)>,
) -> bool {
    match action {
        ManagerAction::Finish(out) => access_outcome(credentials, out),
        _ => false,
    }
}

/// Whether `step` is how handing out the access token of `credentials` starts: expired
/// credentials are replaced by a new GitHub authorization (without refresh token); current
/// ones give their token at once.
pub open spec fn starts_access(
    credentials: Credentials,
    expired: bool,
    step: (Option<AccessStage>, ManagerAction<(String, DateTime)>),
) -> bool {
    if expired {
        step == (
            Some(AccessStage::AuthorizingGithub),
            ManagerAction::<(String, DateTime)>::AuthorizeGithub { refresh_token: None },
        )
    } else {
        step.0 is None && finishes_with_access(credentials, step.1)
    }
}

/// The access token of `credentials` with its expiry date-time.
pub fn access_token(credentials: &Credentials) -> (r: Result<(String, DateTime), CoinError>)
    requires
        expiry_fits(*credentials),
    ensures
        access_outcome(*credentials, r),
{
    match expiration_datetime(credentials) {
        Ok(expiration) => Ok((credentials.access_token.clone(), expiration)),
        Err(e) => Err(e),
    }
}

/// A manager of the GitHub credentials.
#[derive(Debug, Clone, PartialEq, Eq)]
pub struct CredentialsManager {
    pub credentials: Credentials,
}

/// What the manager asks its caller to do next.
#[derive(Debug, PartialEq, Eq)]
pub enum ManagerAction<T> {
    /// Read the credentials from the keyring.
    ReadKeyring,
    /// Authorize with GitHub, refreshing with this token if there is one.
    AuthorizeGithub { refresh_token: Option<String> },
    /// Store these credentials in the keyring.
    StoreCredentials { credentials: Credentials },
    /// Done, with this outcome.
    Finish(Result<T, CoinError>),
}

/// What the caller reports back after doing what the manager asked.
#[derive(Debug, PartialEq, Eq)]
pub enum ManagerEvent {
    KeyringRead(Result<Credentials, CoinError>),
    GithubAuthorized(Result<Credentials, CoinError>),
    CredentialsStored(Result<(), CoinError>),
}

/// Where the creation of a manager stands.
#[derive(Debug, Clone, PartialEq, Eq)]
pub enum InitStage {
    ReadingKeyring,
    AuthorizingGithub,
    StoringCredentials { credentials: Credentials },
}

/// Whether the creation of a manager that stands at `stage` waits for `event`.
pub open spec fn init_awaits(stage: InitStage, event: ManagerEvent) -> bool {
    match (stage, event) {
        (InitStage::ReadingKeyring, ManagerEvent::KeyringRead(_)) => true,
        (InitStage::AuthorizingGithub, ManagerEvent::GithubAuthorized(_)) => true,
        (InitStage::StoringCredentials { .. }, ManagerEvent::CredentialsStored(_)) => true,
        _ => false,
    }
}

/// One step of the creation of a manager: credentials in the keyring are refreshed with
/// their refresh token, without an entry GitHub authorizes anew, the new credentials are
/// stored, and the manager holds them. Any other failure ends the creation with it. Only the
/// events that the stage waits for (`init_awaits`) are given a meaning.
pub open spec fn spec_init_next(stage: InitStage, event: ManagerEvent) -> (
    Option<InitStage>,
    ManagerAction<CredentialsManager>,
) {
    match event {
        ManagerEvent::KeyringRead(Ok(stored)) => (
            Some(InitStage::AuthorizingGithub),
            ManagerAction::AuthorizeGithub { refresh_token: Some(stored.refresh_token) },
        ),
        ManagerEvent::KeyringRead(Err(CoinError::KeyringNoEntry)) => (
            Some(InitStage::AuthorizingGithub),
            ManagerAction::AuthorizeGithub { refresh_token: None },
        ),
        ManagerEvent::GithubAuthorized(Ok(credentials)) => (
            Some(InitStage::StoringCredentials { credentials }),
            ManagerAction::StoreCredentials { credentials },
        ),
        ManagerEvent::CredentialsStored(Ok(())) => match stage {
            InitStage::StoringCredentials { credentials } => (
                None,
                ManagerAction::Finish(Ok(CredentialsManager { credentials })),
            ),
            _ => (None, ManagerAction::ReadKeyring),
        },
        ManagerEvent::KeyringRead(Err(e)) => (None, ManagerAction::Finish(Err(e))),
        ManagerEvent::GithubAuthorized(Err(e)) => (None, ManagerAction::Finish(Err(e))),
        ManagerEvent::CredentialsStored(Err(e)) => (None, ManagerAction::Finish(Err(e))),
    }
}

impl InitStage {
    /// Whether the creation of a manager that stands here waits for `event`.
    pub fn awaits(&self, event: &ManagerEvent) -> (b: bool)
        ensures
            b == init_awaits(*self, *event),
    {
        match (self, event) {
            (InitStage::ReadingKeyring, ManagerEvent::KeyringRead(_)) => true,
            (InitStage::AuthorizingGithub, ManagerEvent::GithubAuthorized(_)) => true,
            (InitStage::StoringCredentials { .. }, ManagerEvent::CredentialsStored(_)) => true,
            _ => false,
        }
    }
}

/// Where handing out the access token stands, after the credentials had expired.
#[derive(Debug, Clone, Copy, PartialEq, Eq)]
pub enum AccessStage {
    AuthorizingGithub,
    StoringCredentials,
}

/// Whether handing out the access token, standing at `stage`, waits for `event`.
pub open spec fn access_awaits(stage: AccessStage, event: ManagerEvent) -> bool {
    match (stage, event) {
        (AccessStage::AuthorizingGithub, ManagerEvent::GithubAuthorized(_)) => true,
        (AccessStage::StoringCredentials, ManagerEvent::CredentialsStored(_)) => true,
        _ => false,
    }
}

impl AccessStage {
    /// Whether handing out the access token, standing here, waits for `event`.
    pub fn awaits(&self, event: &ManagerEvent) -> (b: bool)
        ensures
            b == access_awaits(*self, *event),
    {
        match (self, event) {
            (AccessStage::AuthorizingGithub, ManagerEvent::GithubAuthorized(_)) => true,
            (AccessStage::StoringCredentials, ManagerEvent::CredentialsStored(_)) => true,
            _ => false,
        }
    }
}

impl CredentialsManager {
    /// A shared handle on a copy of this manager. The manager is a value: later changes to
    /// this manager do not reach the copy (a manager that several tasks share is held in a
    /// lock by its caller).
    pub fn arc_clone(&self) -> (r: std::sync::Arc<Self>)
        ensures
            *r == *self,
    {
        std::sync::Arc::new(CredentialsManager { credentials: self.credentials.duplicate() })
    }

    /// The first step of creating a manager: read the keyring.
    pub fn init_start() -> (r: (InitStage, ManagerAction<CredentialsManager>))
        ensures
            r == (InitStage::ReadingKeyring, ManagerAction::<CredentialsManager>::ReadKeyring),
    {
        (InitStage::ReadingKeyring, ManagerAction::ReadKeyring)
    }

    /// One step of creating a manager (`try_init_with_github`); see `spec_init_next`.
    pub fn try_init_with_github(stage: InitStage, event: ManagerEvent) -> (r: (
        Option<InitStage>,
        ManagerAction<CredentialsManager>,
    ))
        requires
            init_awaits(stage, event),
        ensures
            r == spec_init_next(stage, event),
    {
        match event {
            ManagerEvent::KeyringRead(Ok(stored)) => (
                Some(InitStage::AuthorizingGithub),
                ManagerAction::AuthorizeGithub { refresh_token: Some(stored.refresh_token) },
            ),
            ManagerEvent::KeyringRead(Err(CoinError::KeyringNoEntry)) => (
                Some(InitStage::AuthorizingGithub),
                ManagerAction::AuthorizeGithub { refresh_token: None },
            ),
            ManagerEvent::KeyringRead(Err(e)) => (None, ManagerAction::Finish(Err(e))),
            ManagerEvent::GithubAuthorized(Ok(credentials)) => {
                let stored = credentials.duplicate();
                (
                    Some(InitStage::StoringCredentials { credentials }),
                    ManagerAction::StoreCredentials { credentials: stored },
                )
            },
            ManagerEvent::GithubAuthorized(Err(e)) => (None, ManagerAction::Finish(Err(e))),
            ManagerEvent::CredentialsStored(Ok(())) => match stage {
                InitStage::StoringCredentials { credentials } => (
                    None,
                    ManagerAction::Finish(Ok(CredentialsManager { credentials })),
                ),
                _ => (None, ManagerAction::ReadKeyring),
            },
            ManagerEvent::CredentialsStored(Err(e)) => (None, ManagerAction::Finish(Err(e))),
        }
    }

    /// How handing out the access token starts, given whether the credentials have expired:
    /// expired ones are replaced by a new GitHub authorization (without refresh token);
    /// current ones give their token at once.
    pub fn access_start(&self, expired: bool) -> (r: (
        Option<AccessStage>,
        ManagerAction<(String, DateTime)>,
    ))
        requires
            expiry_fits(self.credentials),
        ensures
            starts_access(self.credentials, expired, r),
    {
        if expired {
            (Some(AccessStage::AuthorizingGithub), ManagerAction::AuthorizeGithub { refresh_token: None })
        } else {
            (None, ManagerAction::Finish(access_token(&self.credentials)))
        }
    }

    /// Starts handing out the access token (`access_token_or_refresh`), by the system clock;
    /// `None` when the clock shows no UTC date-time at or after the UNIX epoch.
    pub fn access_token_or_refresh(&self) -> (r: Option<
        (Option<AccessStage>, ManagerAction<(String, DateTime)>),
    >)
        requires
            expiry_fits(self.credentials),
        ensures
            r matches Some(step) ==> exists|now: i64|
                0 <= now <= max_utc_timestamp() && starts_access(
                    self.credentials,
                    #[trigger] spec_is_expired_at(self.credentials, now),
                    step,
                ),
    {
        match is_expired(&self.credentials) {
            Some(expired) => Some(self.access_start(expired)),
            None => None,
        }
    }

    /// One step of handing out the access token after a refresh: the manager takes the new
    /// credentials as soon as GitHub hands them out, stores them, and then gives their token.
    pub fn access_next(&mut self, stage: AccessStage, event: ManagerEvent) -> (r: (
        Option<AccessStage>,
        ManagerAction<(String, DateTime)>,
    ))
        requires
            access_awaits(stage, event),
            event matches ManagerEvent::CredentialsStored(Ok(_)) ==> expiry_fits(
                old(self).credentials,
            ),
        ensures
            event matches ManagerEvent::GithubAuthorized(Ok(c)) ==> final(self).credentials == c
                && r == (
                Some(AccessStage::StoringCredentials),
                ManagerAction::<(String, DateTime)>::StoreCredentials { credentials: c },
            ),
            event matches ManagerEvent::CredentialsStored(Ok(_)) ==> *final(self) == *old(self)
                && r.0 is None && finishes_with_access(old(self).credentials, r.1),
            event matches ManagerEvent::GithubAuthorized(Err(e)) ==> *final(self) == *old(self)
                && r == (None::<AccessStage>, ManagerAction::<(String, DateTime)>::Finish(Err(e))),
            event matches ManagerEvent::CredentialsStored(Err(e)) ==> *final(self) == *old(self)
                && r == (None::<AccessStage>, ManagerAction::<(String, DateTime)>::Finish(Err(e))),
    {
        match event {
            ManagerEvent::GithubAuthorized(Ok(credentials)) => {
                let stored = credentials.duplicate();
                self.credentials = credentials;
                (
                    Some(AccessStage::StoringCredentials),
                    ManagerAction::StoreCredentials { credentials: stored },
                )
            },
            ManagerEvent::CredentialsStored(Ok(())) => (
                None,
                ManagerAction::Finish(access_token(&self.credentials)),
            ),
            ManagerEvent::KeyringRead(_) => (None, ManagerAction::ReadKeyring),
            ManagerEvent::GithubAuthorized(Err(e)) => (None, ManagerAction::Finish(Err(e))),
            ManagerEvent::CredentialsStored(Err(e)) => (None, ManagerAction::Finish(Err(e))),
        }
    }
}

/// Creating a manager whose calls all succeed, after the keyring held credentials or had no
/// entry: it authorizes with the stored refresh token (anew when there was no entry), stores
/// the new credentials, and ends with a manager that holds exactly what it stored.
pub proof fn lemma_manager_init_completes(read: Result<Credentials, CoinError>, credentials: Credentials)
    requires
        read is Ok || read == Err::<Credentials, CoinError>(CoinError::KeyringNoEntry),
    ensures
        ({
            let (s1, a1) = spec_init_next(InitStage::ReadingKeyring, ManagerEvent::KeyringRead(read));
            let (s2, a2) = spec_init_next(s1.unwrap(), ManagerEvent::GithubAuthorized(Ok(credentials)));
            let (s3, a3) = spec_init_next(s2.unwrap(), ManagerEvent::CredentialsStored(Ok(())));
            &&& s1 is Some && init_awaits(s1.unwrap(), ManagerEvent::GithubAuthorized(Ok(credentials)))
            &&& s2 is Some && init_awaits(s2.unwrap(), ManagerEvent::CredentialsStored(Ok(())))
            &&& a1 == ManagerAction::<CredentialsManager>::AuthorizeGithub {
                refresh_token: match read {
                    Ok(stored) => Some(stored.refresh_token),
                    Err(_) => None,
                },
            }
            &&& a2 == ManagerAction::<CredentialsManager>::StoreCredentials { credentials }
            &&& a3 == ManagerAction::<CredentialsManager>::Finish(Ok(CredentialsManager { credentials }))
            &&& s3 is None
        }),
{
}

/// Expiry is permanent: credentials that count as expired at some instant still count as
/// expired at every later instant.
pub proof fn lemma_expired_stays_expired(credentials: Credentials, now: i64, later: i64)
    requires
        now <= later,
        spec_is_expired_at(credentials, now),
    ensures
        spec_is_expired_at(credentials, later),
{
}

/// A call that fails while a manager is created ends the creation with that very error,
/// whatever the stage: a failed GitHub authorization or a failed store never yields a manager,
/// and a failed keyring read does so unless the keyring simply has no entry (then GitHub
/// authorizes anew).
pub proof fn lemma_manager_init_failure_ends(stage: InitStage, e: CoinError)
    ensures
        spec_init_next(stage, ManagerEvent::GithubAuthorized(Err(e))) == (
            None::<InitStage>,
            ManagerAction::<CredentialsManager>::Finish(Err(e)),
        ),
        spec_init_next(stage, ManagerEvent::CredentialsStored(Err(e))) == (
            None::<InitStage>,
            ManagerAction::<CredentialsManager>::Finish(Err(e)),
        ),
        e != CoinError::KeyringNoEntry ==> spec_init_next(stage, ManagerEvent::KeyringRead(Err(e)))
            == (None::<InitStage>, ManagerAction::<CredentialsManager>::Finish(Err(e))),
        spec_init_next(stage, ManagerEvent::KeyringRead(Err(CoinError::KeyringNoEntry))) == (
            Some(InitStage::AuthorizingGithub),
            ManagerAction::<CredentialsManager>::AuthorizeGithub { refresh_token: None },
        ),
{
}

/// A manager is created only after its credentials were stored: a step that ends with a
/// manager took the success of the store, in the stage that held those credentials, and the
/// manager holds exactly them.
pub proof fn lemma_manager_only_after_store(stage: InitStage, event: ManagerEvent)
    requires
        spec_init_next(stage, event).1 matches ManagerAction::Finish(Ok(_)),
    ensures
        event matches ManagerEvent::CredentialsStored(Ok(_)),
        stage matches InitStage::StoringCredentials { credentials } && spec_init_next(
            stage,
            event,
        ).1 == ManagerAction::<CredentialsManager>::Finish(Ok(CredentialsManager { credentials })),
{
}

} // verus!
