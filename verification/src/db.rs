//! The credential with which the Firestore database is reached.
use vstd::prelude::*;
use crate::error::CoinError;
use crate::oauth::google::GoogleCredentials;
use crate::utils::{DateTime, expiration_to_ts, expiry_secs, is_utc_timestamp};

verus! {

/// A token for the database: its type, the token itself, and when it expires.
#[derive(Debug, Clone, PartialEq, Eq)]
pub struct DbToken {
    pub token_type: String,
    pub token: String,
    pub expiry: DateTime,
}

/// The database token of a Google sign-in: its id token, used as a bearer token, which expires
/// with the sign-in's credentials. It is an error when that expiry is no date-time.
pub fn retrieve_db_token(google_credentials: GoogleCredentials) -> (r: Result<DbToken, CoinError>)
    requires
        google_credentials.timestamp + google_credentials.expires_in <= u64::MAX,
    ensures
        r is Ok <==> is_utc_timestamp(
            expiry_secs(google_credentials.timestamp, google_credentials.expires_in),
        ),
        r matches Ok(t) ==> t.token_type@ == "Bearer"@ && t.token == google_credentials.id_token
            && t.expiry.spec_timestamp() == expiry_secs(
            google_credentials.timestamp,
            google_credentials.expires_in,
        ),
        r matches Err(e) ==> e == CoinError::InvalidTimestamp,
{
    let expiry = expiration_to_ts(google_credentials.timestamp, google_credentials.expires_in)?;
    Ok(DbToken { token_type: String::from_str("Bearer"), token: google_credentials.id_token, expiry })
}

} // verus!
