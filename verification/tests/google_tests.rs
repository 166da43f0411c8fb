use coin_core::error::{CoinError, DatabaseError};
use coin_core::oauth::google::{
    sign_in_up_request, sign_in_up_result, ErrorDetail, GoogleCredentials, OAuthError,
    OAuthResponse, SignInUpSuccess,
};

fn success() -> SignInUpSuccess {
    SignInUpSuccess {
        federated_id: "https://github.com/42".to_string(),
        provider_id: "github.com".to_string(),
        local_id: "local-1".to_string(),
        email_verified: true,
        email: Some("a@b.c".to_string()),
        oauth_access_token: "gho_x".to_string(),
        first_name: None,
        last_name: None,
        full_name: "A B".to_string(),
        display_name: "ab".to_string(),
        id_token: "id-token".to_string(),
        photo_url: "https://p".to_string(),
        refresh_token: "refresh".to_string(),
        expires_in: 3_600,
        raw_user_info: "{}".to_string(),
        timestamp: 1_700_000_000,
    }
}

#[test]
fn sign_in_request_for_github_token() {
    let r = sign_in_up_request("KEY", "http://localhost".to_string(), "gho_abc");
    assert_eq!(
        r.url,
        "https://identitytoolkit.googleapis.com/v1/accounts:signInWithIdp?key=KEY"
    );
    assert_eq!(r.body.post_body, "access_token=gho_abc&providerId=github.com");
    assert_eq!(r.body.request_uri, "http://localhost");
    assert!(r.body.return_idp_credential);
    assert!(r.body.return_secure_token);
}

#[test]
fn success_gives_credentials() {
    let c = sign_in_up_result(OAuthResponse::SignInUpSuccess(success())).unwrap();
    assert_eq!(
        c,
        GoogleCredentials {
            local_id: "local-1".to_string(),
            federated_id: "https://github.com/42".to_string(),
            oauth_access_token: "gho_x".to_string(),
            id_token: "id-token".to_string(),
            refresh_token: "refresh".to_string(),
            expires_in: 3_600,
            timestamp: 1_700_000_000,
        }
    );
    assert_eq!(GoogleCredentials::from(success()), c);
    assert_eq!(c.duplicate(), c);
}

#[test]
fn refusal_gives_sign_in_error() {
    let e = OAuthError {
        code: 400,
        message: "INVALID_IDP_RESPONSE".to_string(),
        errors: vec![ErrorDetail {
            message: "INVALID_IDP_RESPONSE".to_string(),
            domain: "global".to_string(),
            reason: "invalid".to_string(),
        }],
    };
    assert_eq!(
        sign_in_up_result(OAuthResponse::Error(e)),
        Err(CoinError::Database(DatabaseError::SignInError {
            code: Some(400),
            message: Some("INVALID_IDP_RESPONSE".to_string()),
        }))
    );
}

#[test]
fn refusal_code_too_large_for_i32() {
    let e = OAuthError { code: 1 << 40, message: "m".to_string(), errors: vec![] };
    assert_eq!(
        sign_in_up_result(OAuthResponse::Error(e)),
        Err(CoinError::Database(DatabaseError::SignInError {
            code: None,
            message: Some("m".to_string()),
        }))
    );
    let e = OAuthError { code: i32::MAX as u64, message: "m".to_string(), errors: vec![] };
    assert_eq!(
        sign_in_up_result(OAuthResponse::Error(e)),
        Err(CoinError::Database(DatabaseError::SignInError {
            code: Some(i32::MAX),
            message: Some("m".to_string()),
        }))
    );
}
