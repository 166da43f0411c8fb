//! Signing in to Google's identity service with a GitHub access token.
use vstd::prelude::*;
use vstd::std_specs::convert::FromSpecImpl;
use crate::error::{CoinError, DatabaseError};

verus! {

/// The reply of the identity service to a sign-in: a refusal, or the signed-in account.
#[derive(Debug, Clone, PartialEq, Eq)]
pub enum OAuthResponse {
    Error(OAuthError),
    SignInUpSuccess(SignInUpSuccess),
}

/// A refusal of the identity service.
#[derive(Debug, Clone, PartialEq, Eq)]
pub struct OAuthError {
    pub code: u64,
    pub message: String,
    pub errors: Vec<ErrorDetail>,
}

/// One reason given with a refusal.
#[derive(Debug, Clone, PartialEq, Eq)]
pub struct ErrorDetail {
    pub message: String,
    pub domain: String,
    pub reason: String,
}

/// The account that signed in or up, with its tokens; the tokens were issued at `timestamp`
/// (UNIX seconds) and are valid for `expires_in` seconds.
#[derive(Debug, Clone, PartialEq, Eq)]
pub struct SignInUpSuccess {
    pub federated_id: String,
    pub provider_id: String,
    pub local_id: String,
    pub email_verified: bool,
    pub email: Option<String>,
    pub oauth_access_token: String,
    pub first_name: Option<String>,
    pub last_name: Option<String>,
    pub full_name: String,
    pub display_name: String,
    pub id_token: String,
    pub photo_url: String,
    pub refresh_token: String,
    pub expires_in: u64,
    pub raw_user_info: String,
    pub timestamp: u64,
}

/// What the library keeps of a Google sign-in.
#[derive(Debug, Clone, PartialEq, Eq)]
pub struct GoogleCredentials {
    pub local_id: String,
    pub federated_id: String,
    pub oauth_access_token: String,
    pub id_token: String,
    pub refresh_token: String,
    pub expires_in: u64,
    pub timestamp: u64,
}

impl GoogleCredentials {
    /// A copy of these credentials.
    pub fn duplicate(&self) -> (c: Self)
        ensures
            c == *self,
    {
        GoogleCredentials {
            local_id: self.local_id.clone(),
            federated_id: self.federated_id.clone(),
            oauth_access_token: self.oauth_access_token.clone(),
            id_token: self.id_token.clone(),
            refresh_token: self.refresh_token.clone(),
            expires_in: self.expires_in,
            timestamp: self.timestamp,
        }
    }
}

/// The credentials kept of a successful sign-in: its identities, tokens and their lifetime.
pub open spec fn credentials_of(s: SignInUpSuccess) -> GoogleCredentials {
    GoogleCredentials {
        local_id: s.local_id,
        federated_id: s.federated_id,
        oauth_access_token: s.oauth_access_token,
        id_token: s.id_token,
        refresh_token: s.refresh_token,
        expires_in: s.expires_in,
        timestamp: s.timestamp,
    }
}

impl From<SignInUpSuccess> for GoogleCredentials {
    fn from(s: SignInUpSuccess) -> (r: Self) {
        GoogleCredentials {
            local_id: s.local_id,
            federated_id: s.federated_id,
            oauth_access_token: s.oauth_access_token,
            id_token: s.id_token,
            refresh_token: s.refresh_token,
            expires_in: s.expires_in,
            timestamp: s.timestamp,
        }
    }
}

impl FromSpecImpl<SignInUpSuccess> for GoogleCredentials {
    open spec fn obeys_from_spec() -> bool {
        true
    }

    open spec fn from_spec(s: SignInUpSuccess) -> GoogleCredentials {
        credentials_of(s)
    }
}

/// The sign-in body that the identity service expects with a GitHub access token.
pub open spec fn sign_in_post_body(access_token: Seq<char>) -> Seq<char> {
    "access_token="@ + access_token + "&providerId="@ + "github.com"@
}

/// The URL of the identity service's sign-in, for the API key `api_key`.
pub open spec fn sign_in_url(api_key: Seq<char>) -> Seq<char> {
    "https://identitytoolkit.googleapis.com/v1/accounts:signInWithIdp?key="@ + api_key
}

/// The body of a sign-in with an identity provider.
#[derive(Debug, Clone, PartialEq, Eq)]
pub struct SignInWithIdpRequest {
    pub post_body: String,
    pub request_uri: String,
    pub return_idp_credential: bool,
    pub return_secure_token: bool,
}

/// A sign-in request: where it is posted, and its JSON body.
#[derive(Debug, Clone, PartialEq, Eq)]
pub struct SignInRequest {
    pub url: String,
    pub body: SignInWithIdpRequest,
}

/// The request that signs in or up to the identity service with a GitHub access token, for
/// the API key `api_key`, on behalf of the app at `request_uri`. It asks for the identity
/// provider's credential and for a secure token.
pub fn sign_in_up_request(api_key: &str, request_uri: String, access_token: &str) -> (r:
    SignInRequest)
    ensures
        r.url@ == sign_in_url(api_key@),
        r.body.post_body@ == sign_in_post_body(access_token@),
        r.body.request_uri == request_uri,
        r.body.return_idp_credential,
        r.body.return_secure_token,
{
    let url = String::from_str(
        "https://identitytoolkit.googleapis.com/v1/accounts:signInWithIdp?key=",
    ).concat(api_key);
    let post_body = String::from_str("access_token=").concat(access_token).concat(
        "&providerId=",
    ).concat("github.com");
    SignInRequest {
        url,
        body: SignInWithIdpRequest {
            post_body,
            request_uri,
            return_idp_credential: true,
            return_secure_token: true,
        },
    }
}

/// The code of a refusal as the library's error holds it: a code that fits an `i32`.
pub open spec fn sign_in_error_code(code: u64) -> Option<i32> {
    if code <= i32::MAX {
        Some(code as i32)
    } else {
        None
    }
}

/// Reads the reply to a sign-in: a success gives the account's credentials, a refusal a
/// sign-in error with the refusal's code and message.
pub fn sign_in_up_result(response: OAuthResponse) -> (r: Result<GoogleCredentials, CoinError>)
    ensures
        response matches OAuthResponse::SignInUpSuccess(s) ==> r == Ok::<
            GoogleCredentials,
            CoinError,
        >(credentials_of(s)),
        response matches OAuthResponse::Error(e) ==> r == Err::<GoogleCredentials, CoinError>(
            CoinError::Database(
                DatabaseError::SignInError {
                    code: sign_in_error_code(e.code),
                    message: Some(e.message),
                },
            ),
        ),
{
    match response {
        OAuthResponse::SignInUpSuccess(s) => Ok(GoogleCredentials::from(s)),
        OAuthResponse::Error(e) => {
            let code = if e.code <= i32::MAX as u64 {
                Some(e.code as i32)
            } else {
                None
            };
            Err(
                CoinError::Database(
                    DatabaseError::SignInError { code, message: Some(e.message) },
                ),
            )
        },
    }
}

} // verus!
